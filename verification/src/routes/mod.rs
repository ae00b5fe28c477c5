pub mod terraform;
