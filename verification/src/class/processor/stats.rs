use vstd::prelude::*;
use vstd::string::*;

use crate::class::types::ScanStatistics;
use crate::utils::text::{clone_texts, texts};

verus! {

/// Statistics for class processing
#[derive(Debug)]
pub struct ProcessingStats {
    /// Total number of files processed
    pub total_files: usize,
    /// Total number of classes found
    pub total_classes: usize,
    /// Number of empty files encountered
    pub empty_files: usize,
    /// Number of files containing classes
    pub files_with_classes: usize,
    /// Number of files that failed to parse
    pub error_files: usize,
    /// Paths to files that failed to parse
    pub error_file_paths: Vec<String>,
    /// Number of files that timed out during parsing
    pub timeout_files: usize,
    /// Paths to files that timed out during parsing
    pub timeout_file_paths: Vec<String>,
}

impl View for ProcessingStats {
    type V = ScanStatistics;

    open spec fn view(&self) -> ScanStatistics {
        ScanStatistics {
            total_files: self.total_files as nat,
            total_classes: self.total_classes as nat,
            empty_files: self.empty_files as nat,
            files_with_classes: self.files_with_classes as nat,
            error_files: self.error_files as nat,
            error_file_paths: texts(self.error_file_paths@),
            timeout_files: self.timeout_files as nat,
            timeout_file_paths: texts(self.timeout_file_paths@),
        }
    }
}

/// The statistics of two scans taken together: every count is the sum of the two counts, and
/// the failing files of the second scan follow those of the first.
pub open spec fn merged(first: ScanStatistics, second: ScanStatistics) -> ScanStatistics {
    ScanStatistics {
        total_files: first.total_files + second.total_files,
        total_classes: first.total_classes + second.total_classes,
        empty_files: first.empty_files + second.empty_files,
        files_with_classes: first.files_with_classes + second.files_with_classes,
        error_files: first.error_files + second.error_files,
        error_file_paths: first.error_file_paths + second.error_file_paths,
        timeout_files: first.timeout_files + second.timeout_files,
        timeout_file_paths: first.timeout_file_paths + second.timeout_file_paths,
    }
}

/// Statistics in which every file is counted under exactly one outcome stay so when they
/// are merged.
pub proof fn merging_keeps_counts_consistent(first: ScanStatistics, second: ScanStatistics)
    requires
        first.consistent(),
        second.consistent(),
    ensures
        merged(first, second).consistent(),
{
}

/// Appends copies of the items to the list
fn extend_with_copies(list: &mut Vec<String>, items: &Vec<String>)
    ensures
        texts(final(list)@) == texts(old(list)@) + texts(items@),
{
    let ghost before = texts(list@);
    let mut i: usize = 0;
    assert(texts(list@) =~= before + texts(items@).take(0));
    while i < items.len()
        invariant
            i <= items.len(),
            texts(list@) == before + texts(items@).take(i as int),
        decreases items.len() - i,
    {
        let ghost so_far = texts(list@);
        list.push(items[i].clone());
        assert(texts(list@) =~= so_far.push(items@[i as int]@));
        assert(texts(list@) =~= before + texts(items@).take(i + 1));
        i += 1;
    }
    assert(texts(items@).take(i as int) =~= texts(items@));
}

impl ProcessingStats {
    /// Create a new processing stats instance
    pub fn new() -> (stats: Self)
        ensures
            stats@ == (ScanStatistics {
                total_files: 0,
                total_classes: 0,
                empty_files: 0,
                files_with_classes: 0,
                error_files: 0,
                error_file_paths: Seq::empty(),
                timeout_files: 0,
                timeout_file_paths: Seq::empty(),
            }),
            stats@.consistent(),
    {
        let stats = ProcessingStats {
            total_files: 0,
            total_classes: 0,
            empty_files: 0,
            files_with_classes: 0,
            error_files: 0,
            error_file_paths: Vec::new(),
            timeout_files: 0,
            timeout_file_paths: Vec::new(),
        };
        assert(stats@.error_file_paths =~= Seq::empty());
        assert(stats@.timeout_file_paths =~= Seq::empty());
        stats
    }

    /// Merge another stats instance into this one
    pub fn merge(&mut self, other: &Self)
        requires
            old(self).total_files + other.total_files <= usize::MAX,
            old(self).total_classes + other.total_classes <= usize::MAX,
            old(self).empty_files + other.empty_files <= usize::MAX,
            old(self).files_with_classes + other.files_with_classes <= usize::MAX,
            old(self).error_files + other.error_files <= usize::MAX,
            old(self).timeout_files + other.timeout_files <= usize::MAX,
        ensures
            final(self)@ == merged(old(self)@, other@),
            old(self)@.consistent() && other@.consistent() ==> final(self)@.consistent(),
    {
        self.total_files += other.total_files;
        self.total_classes += other.total_classes;
        self.empty_files += other.empty_files;
        self.files_with_classes += other.files_with_classes;
        self.error_files += other.error_files;
        extend_with_copies(&mut self.error_file_paths, &other.error_file_paths);
        self.timeout_files += other.timeout_files;
        extend_with_copies(&mut self.timeout_file_paths, &other.timeout_file_paths);
    }

    /// Calculate the number of files that were skipped (empty + error + timeout)
    pub fn skipped_files(&self) -> (skipped: usize)
        requires
            self.empty_files + self.error_files + self.timeout_files <= usize::MAX,
        ensures
            skipped == self.empty_files + self.error_files + self.timeout_files,
    {
        self.empty_files + self.error_files + self.timeout_files
    }
}

impl Default for ProcessingStats {
    fn default() -> (stats: Self)
        ensures
            stats@ == (ScanStatistics {
                total_files: 0,
                total_classes: 0,
                empty_files: 0,
                files_with_classes: 0,
                error_files: 0,
                error_file_paths: Seq::empty(),
                timeout_files: 0,
                timeout_file_paths: Seq::empty(),
            }),
    {
        Self::new()
    }
}

impl Clone for ProcessingStats {
    fn clone(&self) -> (copy: Self)
        ensures
            copy@ == self@,
    {
        ProcessingStats {
            total_files: self.total_files,
            total_classes: self.total_classes,
            empty_files: self.empty_files,
            files_with_classes: self.files_with_classes,
            error_files: self.error_files,
            error_file_paths: clone_texts(&self.error_file_paths),
            timeout_files: self.timeout_files,
            timeout_file_paths: clone_texts(&self.timeout_file_paths),
        }
    }
}

} // verus!
