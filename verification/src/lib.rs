pub mod codec;
pub mod config;
pub mod event;
pub mod filter;
pub mod watchman;
