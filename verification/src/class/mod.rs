pub mod processor;
pub mod scanner;
pub mod types;
pub mod values;

pub use processor::PropertyProcessor;
pub use scanner::{Block, ClassBlock, SimpleParser};
pub use types::{ClassScanStats, ProcessedClass};
