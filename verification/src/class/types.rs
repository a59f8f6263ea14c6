use vstd::prelude::*;
use vstd::string::*;

use crate::utils::text::{clone_opt, clone_pairs, clone_texts, opt_text, pair_texts, texts};

verus! {

/// A class record as contracts see it: plain sequences of characters.
pub struct ClassRecord {
    pub name: Seq<char>,
    pub parent: Option<Seq<char>>,
    pub properties: Seq<(Seq<char>, Seq<char>)>,
    pub source_file: Option<Seq<char>>,
}

/// Represents a processed class from a parsed file
#[derive(Debug)]
pub struct ProcessedClass {
    /// Name of the class
    pub name: String,
    /// Parent class name, if any, as written in the source
    pub parent: Option<String>,
    /// Properties of the class as key-value pairs
    pub properties: Vec<(String, String)>,
    /// Path to the file where this class was found
    pub file_path: Option<String>,
}

impl View for ProcessedClass {
    type V = ClassRecord;

    open spec fn view(&self) -> ClassRecord {
        ClassRecord {
            name: self.name@,
            parent: opt_text(self.parent),
            properties: pair_texts(self.properties@),
            source_file: opt_text(self.file_path),
        }
    }
}

impl Clone for ProcessedClass {
    fn clone(&self) -> (copy: Self)
        ensures
            copy@ == self@,
    {
        ProcessedClass {
            name: self.name.clone(),
            parent: clone_opt(&self.parent),
            properties: clone_pairs(&self.properties),
            file_path: clone_opt(&self.file_path),
        }
    }
}

/// The records of a list of processed classes.
pub open spec fn records(classes: Seq<ProcessedClass>) -> Seq<ClassRecord> {
    classes.map_values(|c: ProcessedClass| c@)
}

/// A copy of a list of processed classes.
pub fn clone_classes(classes: &Vec<ProcessedClass>) -> (copy: Vec<ProcessedClass>)
    ensures
        records(copy@) == records(classes@),
{
    let mut copy: Vec<ProcessedClass> = Vec::with_capacity(classes.len());
    let mut i: usize = 0;
    while i < classes.len()
        invariant
            i <= classes.len(),
            copy@.len() == i,
            forall|k: int| 0 <= k < i ==> (#[trigger] copy@[k])@ == classes@[k]@,
        decreases classes.len() - i,
    {
        copy.push(classes[i].clone());
        i += 1;
    }
    assert(records(copy@) =~= records(classes@));
    copy
}

/// Scan statistics as contracts see them.
pub struct ScanStatistics {
    pub total_files: nat,
    pub total_classes: nat,
    pub empty_files: nat,
    pub files_with_classes: nat,
    pub error_files: nat,
    pub error_file_paths: Seq<Seq<char>>,
    pub timeout_files: nat,
    pub timeout_file_paths: Seq<Seq<char>>,
}

impl ScanStatistics {
    /// Every file is counted under exactly one outcome, and each failing file is listed.
    pub open spec fn consistent(self) -> bool {
        &&& self.total_files == self.files_with_classes + self.empty_files + self.error_files
            + self.timeout_files
        &&& self.error_files == self.error_file_paths.len()
        &&& self.timeout_files == self.timeout_file_paths.len()
    }
}

/// Statistics about the class scanning process
#[derive(Debug)]
pub struct ClassScanStats {
    /// Total number of files processed
    pub total_files: usize,
    /// Total number of classes found
    pub total_classes: usize,
    /// Number of empty files encountered
    pub empty_files: usize,
    /// Number of files containing classes
    pub files_with_classes: usize,
    /// Number of files that failed to parse
    pub error_files: usize,
    /// Paths to files that failed to parse
    pub error_file_paths: Vec<String>,
    /// Number of files that timed out during parsing
    pub timeout_files: usize,
    /// Paths to files that timed out during parsing
    pub timeout_file_paths: Vec<String>,
}

impl View for ClassScanStats {
    type V = ScanStatistics;

    open spec fn view(&self) -> ScanStatistics {
        ScanStatistics {
            total_files: self.total_files as nat,
            total_classes: self.total_classes as nat,
            empty_files: self.empty_files as nat,
            files_with_classes: self.files_with_classes as nat,
            error_files: self.error_files as nat,
            error_file_paths: texts(self.error_file_paths@),
            timeout_files: self.timeout_files as nat,
            timeout_file_paths: texts(self.timeout_file_paths@),
        }
    }
}

impl Default for ClassScanStats {
    fn default() -> (stats: Self)
        ensures
            stats@ == (ScanStatistics {
                total_files: 0,
                total_classes: 0,
                empty_files: 0,
                files_with_classes: 0,
                error_files: 0,
                error_file_paths: Seq::empty(),
                timeout_files: 0,
                timeout_file_paths: Seq::empty(),
            }),
    {
        let stats = ClassScanStats {
            total_files: 0,
            total_classes: 0,
            empty_files: 0,
            files_with_classes: 0,
            error_files: 0,
            error_file_paths: Vec::new(),
            timeout_files: 0,
            timeout_file_paths: Vec::new(),
        };
        assert(stats@.error_file_paths =~= Seq::empty());
        assert(stats@.timeout_file_paths =~= Seq::empty());
        stats
    }
}

impl Clone for ClassScanStats {
    fn clone(&self) -> (copy: Self)
        ensures
            copy@ == self@,
    {
        ClassScanStats {
            total_files: self.total_files,
            total_classes: self.total_classes,
            empty_files: self.empty_files,
            files_with_classes: self.files_with_classes,
            error_files: self.error_files,
            error_file_paths: clone_texts(&self.error_file_paths),
            timeout_files: self.timeout_files,
            timeout_file_paths: clone_texts(&self.timeout_file_paths),
        }
    }
}

/// Configuration options for class scanning
#[derive(Debug, Clone, Copy)]
pub struct ClassScanOptions {
    /// Whether to log verbose error information
    pub verbose_errors: bool,
    /// Maximum number of files to process
    pub max_files: Option<usize>,
    /// Timeout duration for parsing a single file (in seconds)
    pub parse_timeout_seconds: u64,
    /// Number of parallel threads to use for scanning
    pub parallel_threads: Option<usize>,
}

impl Default for ClassScanOptions {
    fn default() -> (options: Self)
        ensures
            options == (ClassScanOptions {
                verbose_errors: false,
                max_files: None,
                parse_timeout_seconds: 10,
                parallel_threads: None,
            }),
    {
        ClassScanOptions {
            verbose_errors: false,
            max_files: None,
            parse_timeout_seconds: 10,
            parallel_threads: None,
        }
    }
}

/// Result of a class scanning operation
#[derive(Debug)]
pub struct ClassScanResult {
    /// The processed classes found during scanning
    pub classes: Vec<ProcessedClass>,
    /// Statistics about the scanning process
    pub stats: ClassScanStats,
}

/// The files that failed during a scan, by kind of failure
#[derive(Debug)]
pub struct ScanErrors {
    /// Files that could not be read or parsed
    pub error_files: Vec<String>,
    /// Files whose extraction ran past the deadline
    pub timeout_files: Vec<String>,
}

impl Default for ScanErrors {
    fn default() -> (errors: Self)
        ensures
            errors.error_files@.len() == 0,
            errors.timeout_files@.len() == 0,
    {
        ScanErrors { error_files: Vec::new(), timeout_files: Vec::new() }
    }
}

impl Clone for ScanErrors {
    fn clone(&self) -> (copy: Self)
        ensures
            texts(copy.error_files@) == texts(self.error_files@),
            texts(copy.timeout_files@) == texts(self.timeout_files@),
    {
        ScanErrors {
            error_files: clone_texts(&self.error_files),
            timeout_files: clone_texts(&self.timeout_files),
        }
    }
}

/// The outcome of scanning one file, as contracts see it.
pub enum Outcome {
    HasClasses(nat),
    Empty,
    ParseError(Seq<char>),
    Timeout,
}

/// The outcome of scanning one file
#[derive(Debug)]
pub enum ScanOutcome {
    /// The file gave this many classes, at least one
    HasClasses(usize),
    /// The file is empty or holds no class
    Empty,
    /// The file could not be read or its content could not be interpreted
    ParseError(String),
    /// The extraction ran past its deadline and its result was dropped
    Timeout,
}

impl View for ScanOutcome {
    type V = Outcome;

    open spec fn view(&self) -> Outcome {
        match self {
            ScanOutcome::HasClasses(n) => Outcome::HasClasses(*n as nat),
            ScanOutcome::Empty => Outcome::Empty,
            ScanOutcome::ParseError(message) => Outcome::ParseError(message@),
            ScanOutcome::Timeout => Outcome::Timeout,
        }
    }
}

impl Clone for ScanOutcome {
    fn clone(&self) -> (copy: Self)
        ensures
            copy@ == self@,
    {
        match self {
            ScanOutcome::HasClasses(n) => ScanOutcome::HasClasses(*n),
            ScanOutcome::Empty => ScanOutcome::Empty,
            ScanOutcome::ParseError(message) => ScanOutcome::ParseError(message.clone()),
            ScanOutcome::Timeout => ScanOutcome::Timeout,
        }
    }
}

/// What one file contributed to a scan, as contracts see it.
pub struct Report {
    pub path: Seq<char>,
    pub outcome: Outcome,
    pub classes: Seq<ClassRecord>,
}

/// What one file contributed to a scan: its outcome and the classes collected from it
#[derive(Debug)]
pub struct FileReport {
    /// The path of the file
    pub path: String,
    /// How the scan of the file ended
    pub outcome: ScanOutcome,
    /// The classes collected from the file; none unless the outcome is `HasClasses`
    pub classes: Vec<ProcessedClass>,
}

impl View for FileReport {
    type V = Report;

    open spec fn view(&self) -> Report {
        Report { path: self.path@, outcome: self.outcome@, classes: records(self.classes@) }
    }
}

impl Clone for FileReport {
    fn clone(&self) -> (copy: Self)
        ensures
            copy@ == self@,
    {
        FileReport {
            path: self.path.clone(),
            outcome: self.outcome.clone(),
            classes: clone_classes(&self.classes),
        }
    }
}

/// The reports of a list of file reports.
pub open spec fn reports_view(reports: Seq<FileReport>) -> Seq<Report> {
    reports.map_values(|r: FileReport| r@)
}

/// The result of a scan, as contracts see it.
pub struct ScanSummary {
    pub classes: Seq<ClassRecord>,
    pub stats: ScanStatistics,
}

impl Clone for ClassScanResult {
    fn clone(&self) -> (copy: Self)
        ensures
            copy@ == self@,
    {
        ClassScanResult { classes: clone_classes(&self.classes), stats: self.stats.clone() }
    }
}

impl View for ClassScanResult {
    type V = ScanSummary;

    open spec fn view(&self) -> ScanSummary {
        ScanSummary { classes: records(self.classes@), stats: self.stats@ }
    }
}

} // verus!
