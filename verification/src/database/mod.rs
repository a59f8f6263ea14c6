pub mod laws;
pub mod operations;
pub mod sorting;
pub mod storage;
pub mod types;

pub use operations::{DatabaseOperations, QueryOptions};
pub use storage::DatabaseStorage;
pub use types::{ClassDatabase, ClassDatabaseStats, ClassEntry};
