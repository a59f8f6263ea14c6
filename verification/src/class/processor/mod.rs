pub mod class_processor;
pub mod property_processor;
pub mod stats;

pub use class_processor::ClassProcessor;
pub use property_processor::PropertyProcessor;
pub use stats::ProcessingStats;
