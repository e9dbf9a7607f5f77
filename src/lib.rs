pub mod args;
pub mod bytes;
pub mod checksum;
pub mod config;
pub mod error;
pub mod ip;
pub mod packet;
pub mod parse;
pub mod range;
pub mod random;
pub mod transmit;
