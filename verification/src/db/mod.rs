pub mod protocol;
mod table;
pub mod terraform;
