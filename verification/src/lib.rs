pub mod class;
pub mod database;
pub mod utils;

pub use class::processor::ClassProcessor;
pub use class::scanner::ClassScanner;
pub use class::types::{ClassScanOptions, ClassScanStats, ProcessedClass};
pub use database::types::{ClassDatabase, ClassDatabaseStats};
pub use database::{DatabaseOperations, QueryOptions};
pub use utils::file_utils;
