pub mod bitwise_utils;
pub mod hex_utils;
