pub mod login;

pub use login::LoginExtractor;
