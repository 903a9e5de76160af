//! Encodings and codes that the adapters read and write.

pub mod crypto;
pub mod decimal;
pub mod hexadecimal;
pub mod json;
pub mod text;
pub mod urlencoded;
