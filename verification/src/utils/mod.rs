pub mod clock;
pub mod decimal;
pub mod file_utils;
pub mod hash_utils;
pub mod text;
