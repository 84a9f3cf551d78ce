pub mod client;
pub mod encode;
pub mod json;
pub mod parse;
pub mod poll;
pub mod response;

pub use client::Client;
