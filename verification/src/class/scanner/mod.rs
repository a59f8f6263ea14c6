mod file_collector;
pub mod parser;
mod progress;
pub mod simple_parser;

use vstd::prelude::*;
use vstd::string::*;

use crate::class::types::{ClassScanOptions, ScanErrors};
use crate::utils::file_utils::{paths_view, with_extension_among, FilePath, SourceFile};
use crate::utils::text::{clone_texts, contains_text, texts};
use parser::{bare_blocks_of, blocks_result_of, parse_outcome, parsed_or_settled};
use simple_parser::{ClassDeclaration, ScanError};

pub use file_collector::FileCollector;
pub use parser::ClassParser;
pub use progress::ProgressTracker;
pub use simple_parser::{Block, ClassBlock, SimpleParser};

verus! {

/// A list with one more text, unless the list holds the text already.
pub open spec fn with_text(list: Seq<Seq<char>>, item: Seq<char>) -> Seq<Seq<char>> {
    if list.contains(item) {
        list
    } else {
        list.push(item)
    }
}

/// The files of a list that parse, each with the classes declared in it, in order.
pub open spec fn scanned(files: Seq<SourceFile>) -> Seq<(Seq<char>, Seq<ClassDeclaration>)>
    decreases files.len(),
{
    if files.len() == 0 {
        Seq::empty()
    } else {
        let before = scanned(files.drop_last());
        match parse_outcome(files.last()) {
            Ok(found) => before.push((files.last().path@, found)),
            Err(_) => before,
        }
    }
}

/// A list of failing files with the files added that do not parse, each once.
pub open spec fn with_failures(list: Seq<Seq<char>>, files: Seq<SourceFile>) -> Seq<Seq<char>>
    decreases files.len(),
{
    if files.len() == 0 {
        list
    } else {
        let before = with_failures(list, files.drop_last());
        match parse_outcome(files.last()) {
            Ok(_) => before,
            Err(_) => with_text(before, files.last().path@),
        }
    }
}

/// The failing files of a batch: the paths of the files that do not parse, each once, in the
/// order in which they first fail.
pub open spec fn failures(files: Seq<SourceFile>) -> Seq<Seq<char>> {
    with_failures(Seq::empty(), files)
}

/// Tells whether a file of the given path is in the batch and does not parse.
pub open spec fn fails_in(files: Seq<SourceFile>, path: Seq<char>) -> bool {
    exists|k: int|
        0 <= k < files.len() && (#[trigger] files[k]).path@ == path && parse_outcome(files[k]) is Err
}

/// Tells whether a file of the given path is in the batch and parses.
pub open spec fn parses_in(files: Seq<SourceFile>, path: Seq<char>) -> bool {
    exists|k: int|
        0 <= k < files.len() && (#[trigger] files[k]).path@ == path && parse_outcome(files[k]) is Ok
}

/// Tells whether one of the results of a batch is for the given path.
pub open spec fn has_result(
    results: Seq<(Seq<char>, Seq<ClassDeclaration>)>,
    path: Seq<char>,
) -> bool {
    exists|j: int| 0 <= j < results.len() && (#[trigger] results[j]).0 == path
}

/// Tells whether no two files of the batch have the same path.
pub open spec fn distinct_sources(files: Seq<SourceFile>) -> bool {
    forall|i: int, j: int|
        0 <= i < j < files.len() ==> (#[trigger] files[i]).path@ != (#[trigger] files[j]).path@
}

/// A list to which the failing files of a batch were added holds what it held and the paths
/// of the files of the batch that do not parse, and nothing else; and it holds nothing twice
/// where it held nothing twice.
pub proof fn added_failures_are_the_failing_files(
    list: Seq<Seq<char>>,
    files: Seq<SourceFile>,
    path: Seq<char>,
)
    ensures
        with_failures(list, files).contains(path) <==> list.contains(path) || fails_in(
            files,
            path,
        ),
        list.no_duplicates() ==> with_failures(list, files).no_duplicates(),
    decreases files.len(),
{
    if files.len() > 0 {
        let earlier = files.drop_last();
        let last = files.last();
        let before = with_failures(list, earlier);
        added_failures_are_the_failing_files(list, earlier, path);
        assert(last == files[files.len() - 1]);
        if fails_in(earlier, path) {
            let k = choose|k: int|
                0 <= k < earlier.len() && (#[trigger] earlier[k]).path@ == path && parse_outcome(
                    earlier[k],
                ) is Err;
            assert(files[k] == earlier[k]);
        }
        if fails_in(files, path) {
            let k = choose|k: int|
                0 <= k < files.len() && (#[trigger] files[k]).path@ == path && parse_outcome(
                    files[k],
                ) is Err;
            if k < files.len() - 1 {
                assert(earlier[k] == files[k]);
            }
        }
        if parse_outcome(last) is Err && !before.contains(last.path@) {
            let after = before.push(last.path@);
            assert(after[after.len() - 1] == last.path@);
            if before.contains(path) {
                let at = choose|i: int| 0 <= i < before.len() && before[i] == path;
                assert(after[at] == path);
            }
            if after.contains(path) {
                let at = choose|i: int| 0 <= i < after.len() && after[i] == path;
                if at < before.len() {
                    assert(before[at] == path);
                }
            }
            if list.no_duplicates() {
                assert forall|i: int, j: int|
                    0 <= i < after.len() && 0 <= j < after.len() && i != j implies after[i]
                    != after[j] by {
                    if i < before.len() && j < before.len() {
                        assert(before[i] != before[j]);
                    } else if i < before.len() {
                        assert(before[i] == after[i]);
                    } else {
                        assert(before[j] == after[j]);
                    }
                }
            }
        }
    }
}

/// The error files of a batch are exactly the files of the batch that do not parse.
pub proof fn failures_are_the_failing_files(files: Seq<SourceFile>, path: Seq<char>)
    ensures
        failures(files).contains(path) <==> fails_in(files, path),
        failures(files).no_duplicates(),
{
    added_failures_are_the_failing_files(Seq::empty(), files, path);
}

/// The results of a batch are for exactly the files of the batch that parse.
pub proof fn results_are_the_parsing_files(files: Seq<SourceFile>, path: Seq<char>)
    ensures
        has_result(scanned(files), path) <==> parses_in(files, path),
    decreases files.len(),
{
    if files.len() > 0 {
        let earlier = files.drop_last();
        let last = files.last();
        let before = scanned(earlier);
        let after = scanned(files);
        results_are_the_parsing_files(earlier, path);
        assert(last == files[files.len() - 1]);
        if parses_in(earlier, path) {
            let k = choose|k: int|
                0 <= k < earlier.len() && (#[trigger] earlier[k]).path@ == path && parse_outcome(
                    earlier[k],
                ) is Ok;
            assert(files[k] == earlier[k]);
        }
        if parses_in(files, path) {
            let k = choose|k: int|
                0 <= k < files.len() && (#[trigger] files[k]).path@ == path && parse_outcome(
                    files[k],
                ) is Ok;
            if k < files.len() - 1 {
                assert(earlier[k] == files[k]);
            }
        }
        if parse_outcome(last) is Ok {
            assert(after[after.len() - 1].0 == last.path@);
            if has_result(before, path) {
                let j = choose|j: int| 0 <= j < before.len() && (#[trigger] before[j]).0 == path;
                assert(after[j] == before[j]);
            }
            if has_result(after, path) {
                let j = choose|j: int| 0 <= j < after.len() && (#[trigger] after[j]).0 == path;
                if j < before.len() {
                    assert(before[j] == after[j]);
                }
            }
        }
    }
}

/// A batch in which no path occurs twice sorts every file: each file is among the results
/// or among the error files, never both, and the results and the error files together are
/// as many as the files.
pub proof fn a_batch_sorts_every_file(files: Seq<SourceFile>)
    requires
        distinct_sources(files),
    ensures
        scanned(files).len() + failures(files).len() == files.len(),
        forall|k: int|
            0 <= k < files.len() ==> (has_result(scanned(files), (#[trigger] files[k]).path@)
                <==> !failures(files).contains(files[k].path@)),
    decreases files.len(),
{
    if files.len() > 0 {
        let earlier = files.drop_last();
        let last = files.last();
        assert(last == files[files.len() - 1]);
        assert forall|i: int, j: int| 0 <= i < j < earlier.len() implies (
        #[trigger] earlier[i]).path@ != (#[trigger] earlier[j]).path@ by {
            assert(earlier[i] == files[i] && earlier[j] == files[j]);
        }
        a_batch_sorts_every_file(earlier);
        failures_are_the_failing_files(earlier, last.path@);
        if fails_in(earlier, last.path@) {
            let k = choose|k: int|
                0 <= k < earlier.len() && (#[trigger] earlier[k]).path@ == last.path@
                    && parse_outcome(earlier[k]) is Err;
            assert(earlier[k] == files[k]);
        }
    }
    assert forall|k: int| 0 <= k < files.len() implies (has_result(
        scanned(files),
        (#[trigger] files[k]).path@,
    ) <==> !failures(files).contains(files[k].path@)) by {
        let path = files[k].path@;
        results_are_the_parsing_files(files, path);
        failures_are_the_failing_files(files, path);
        if parses_in(files, path) {
            let a = choose|a: int|
                0 <= a < files.len() && (#[trigger] files[a]).path@ == path && parse_outcome(
                    files[a],
                ) is Ok;
            assert(a == k);
        }
        if fails_in(files, path) {
            let b = choose|b: int|
                0 <= b < files.len() && (#[trigger] files[b]).path@ == path && parse_outcome(
                    files[b],
                ) is Err;
            assert(b == k);
        }
    }
}

/// Tells whether the results are the scanned files, one for one: the path, and the bare
/// entities of the classes declared in the file.
pub open spec fn results_of(
    results: Seq<(String, Vec<Block>)>,
    expected: Seq<(Seq<char>, Seq<ClassDeclaration>)>,
) -> bool {
    &&& results.len() == expected.len()
    &&& forall|k: int|
        0 <= k < results.len() ==> (#[trigger] results[k]).0@ == expected[k].0 && bare_blocks_of(
            results[k].1@,
            expected[k].1,
        )
}

/// Class scanner for finding and parsing class files
#[derive(Debug)]
pub struct ClassScanner {
    /// Configuration options for scanning
    options: ClassScanOptions,
    /// Output directory for logs and temporary files
    output_dir: String,
    /// File collector for finding class files
    file_collector: FileCollector,
    /// Class parser for parsing class files
    parser: ClassParser,
    /// Progress tracker for displaying progress
    progress_tracker: ProgressTracker,
    /// The files that failed since the last batch began, each once
    error_files: Vec<String>,
    /// The files that timed out since the last batch began, each once
    timeout_files: Vec<String>,
}

impl ClassScanner {
    /// The options that the scanner was made with
    pub closed spec fn spec_options(&self) -> ClassScanOptions {
        self.options
    }

    /// The output directory that the scanner was made with
    pub closed spec fn spec_output_dir(&self) -> Seq<char> {
        self.output_dir@
    }

    /// The extensions of the files that the scanner collects
    pub closed spec fn spec_extensions(&self) -> Seq<Seq<char>> {
        self.file_collector.spec_extensions()
    }

    /// The files that failed since the last batch began, in the order in which they were
    /// first seen
    pub closed spec fn spec_error_files(&self) -> Seq<Seq<char>> {
        texts(self.error_files@)
    }

    /// The files that timed out since the last batch began, in the order in which they were
    /// first seen
    pub closed spec fn spec_timeout_files(&self) -> Seq<Seq<char>> {
        texts(self.timeout_files@)
    }

    /// Tells whether two scanners differ in nothing but the failures they recorded
    pub closed spec fn same_setup(&self, other: &Self) -> bool {
        &&& self.options == other.options
        &&& self.output_dir@ == other.output_dir@
        &&& self.file_collector.spec_extensions() == other.file_collector.spec_extensions()
        &&& self.parser.spec_options() == other.parser.spec_options()
        &&& self.parser.spec_output_dir() == other.parser.spec_output_dir()
    }

    /// Tells whether the parser of the scanner has the options and the output directory of
    /// the scanner
    pub closed spec fn parser_agrees(&self) -> bool {
        &&& self.parser.spec_options() == self.options
        &&& self.parser.spec_output_dir() == self.output_dir@
    }

    /// No failing file is recorded twice, and the parser works with the scanner's options
    pub open spec fn wf(&self) -> bool {
        &&& self.spec_error_files().no_duplicates()
        &&& self.spec_timeout_files().no_duplicates()
        &&& self.parser_agrees()
    }

    /// Create a new class scanner with the given options
    pub fn new(options: ClassScanOptions, output_dir: &str) -> (scanner: Self)
        ensures
            scanner.wf(),
            scanner.spec_options() == options,
            scanner.spec_output_dir() == output_dir@,
            scanner.spec_extensions() == seq!["cpp"@, "hpp"@],
            scanner.spec_error_files() == Seq::<Seq<char>>::empty(),
            scanner.spec_timeout_files() == Seq::<Seq<char>>::empty(),
    {
        let scanner = ClassScanner {
            options,
            output_dir: output_dir.to_owned(),
            file_collector: FileCollector::new(),
            parser: ClassParser::new(options, output_dir),
            progress_tracker: ProgressTracker::new(),
            error_files: Vec::new(),
            timeout_files: Vec::new(),
        };
        assert(scanner.spec_error_files() =~= Seq::<Seq<char>>::empty());
        assert(scanner.spec_timeout_files() =~= Seq::<Seq<char>>::empty());
        scanner
    }

    /// Create a new class scanner with default options
    pub fn with_defaults(output_dir: &str) -> (scanner: Self)
        ensures
            scanner.wf(),
            scanner.spec_options() == (ClassScanOptions {
                verbose_errors: false,
                max_files: None,
                parse_timeout_seconds: 10,
                parallel_threads: None,
            }),
            scanner.spec_output_dir() == output_dir@,
            scanner.spec_extensions() == seq!["cpp"@, "hpp"@],
            scanner.spec_error_files() == Seq::<Seq<char>>::empty(),
            scanner.spec_timeout_files() == Seq::<Seq<char>>::empty(),
    {
        Self::new(ClassScanOptions::default(), output_dir)
    }

    /// The options of this scanner
    pub fn options(&self) -> (options: ClassScanOptions)
        ensures
            options == self.spec_options(),
    {
        self.options
    }

    /// The output directory of this scanner
    pub fn output_dir(&self) -> (dir: &String)
        ensures
            dir@ == self.spec_output_dir(),
    {
        &self.output_dir
    }

    /// The parser of this scanner
    pub fn parser(&self) -> (parser: &ClassParser)
        requires
            self.wf(),
        ensures
            parser.spec_options() == self.spec_options(),
            parser.spec_output_dir() == self.spec_output_dir(),
    {
        &self.parser
    }

    /// The progress tracker of this scanner
    pub fn progress_tracker(&self) -> &ProgressTracker {
        &self.progress_tracker
    }

    /// Collect the files with valid extensions from the files found under a directory
    pub fn collect_files(&self, entries: &Vec<FilePath>) -> (files: Vec<FilePath>)
        ensures
            paths_view(files@) == paths_view(entries@).filter(
                with_extension_among(self.spec_extensions()),
            ),
    {
        self.file_collector.collect_files(entries)
    }

    /// Parse a single file that was read and return the blocks
    pub fn parse_file(&self, file: &SourceFile) -> (result: Result<Vec<Block>, ScanError>)
        ensures
            blocks_result_of(result, parse_outcome(*file)),
            result matches Err(error) ==> error.spec_path() == file.path@ && (error is Read
                <==> file.content is Err),
    {
        self.parser.parse_file(file)
    }

    /// Parse a file that was read, with the time budget of the options
    pub fn parse_file_with_timeout(&self, file: &SourceFile) -> (result: Result<
        (Vec<Block>, bool),
        ScanError,
    >)
        ensures
            parsed_or_settled(result, *file),
            result matches Err(error) ==> error.spec_path() == file.path@ && (error is Read
                <==> file.content is Err),
    {
        self.parser.parse_file_with_timeout(file, self.options.parse_timeout_seconds)
    }

    /// Start a batch: forget the files that failed or timed out in earlier batches
    pub fn begin_batch(&mut self)
        requires
            old(self).wf(),
        ensures
            final(self).wf(),
            final(self).same_setup(old(self)),
            final(self).spec_error_files() == Seq::<Seq<char>>::empty(),
            final(self).spec_timeout_files() == Seq::<Seq<char>>::empty(),
    {
        self.error_files = Vec::new();
        self.timeout_files = Vec::new();
        assert(self.spec_error_files() =~= Seq::<Seq<char>>::empty());
        assert(self.spec_timeout_files() =~= Seq::<Seq<char>>::empty());
    }

    /// Scan a batch of files one after the other and return the results of those that parse.
    /// The error files of the scanner are then the files of this batch that do not parse, and
    /// no file is listed as timed out; what earlier batches recorded is forgotten.
    pub fn scan_files_parallel(&mut self, files: &[SourceFile]) -> (results: Vec<
        (String, Vec<Block>),
    >)
        requires
            old(self).wf(),
        ensures
            final(self).wf(),
            final(self).same_setup(old(self)),
            results_of(results@, scanned(files@)),
            final(self).spec_error_files() == failures(files@),
            final(self).spec_timeout_files() == Seq::<Seq<char>>::empty(),
    {
        self.begin_batch();
        let mut results: Vec<(String, Vec<Block>)> = Vec::new();
        let mut i: usize = 0;
        assert(files@.take(0) =~= Seq::empty());
        while i < files.len()
            invariant
                i <= files.len(),
                self.wf(),
                self.same_setup(old(self)),
                results_of(results@, scanned(files@.take(i as int))),
                self.spec_error_files() == failures(files@.take(i as int)),
                self.spec_timeout_files() == Seq::<Seq<char>>::empty(),
            decreases files.len() - i,
        {
            proof {
                let upto = files@.take(i + 1);
                assert(upto.drop_last() =~= files@.take(i as int));
                assert(upto.last() == files@[i as int]);
            }
            match self.parser.parse_file(&files[i]) {
                Ok(blocks) => {
                    results.push((files[i].path.clone(), blocks));
                },
                Err(_) => {
                    self.add_error_file(files[i].path.as_str());
                },
            }
            i += 1;
        }
        assert(files@.take(i as int) =~= files@);
        results
    }

    /// Add a file to the error files list, unless it is there
    pub fn add_error_file(&mut self, file: &str)
        requires
            old(self).wf(),
        ensures
            final(self).wf(),
            final(self).same_setup(old(self)),
            final(self).spec_error_files() == with_text(old(self).spec_error_files(), file@),
            final(self).spec_timeout_files() == old(self).spec_timeout_files(),
    {
        let path = file.to_owned();
        if !contains_text(&self.error_files, &path) {
            let ghost before = texts(self.error_files@);
            self.error_files.push(path);
            assert(texts(self.error_files@) =~= before.push(file@));
        }
    }

    /// Add a file to the timeout files list, unless it is there
    pub fn add_timeout_file(&mut self, file: &str)
        requires
            old(self).wf(),
        ensures
            final(self).wf(),
            final(self).same_setup(old(self)),
            final(self).spec_timeout_files() == with_text(old(self).spec_timeout_files(), file@),
            final(self).spec_error_files() == old(self).spec_error_files(),
    {
        let path = file.to_owned();
        if !contains_text(&self.timeout_files, &path) {
            let ghost before = texts(self.timeout_files@);
            self.timeout_files.push(path);
            assert(texts(self.timeout_files@) =~= before.push(file@));
        }
    }

    /// Get the errors encountered during scanning
    pub fn get_scan_errors(&self) -> (errors: ScanErrors)
        ensures
            texts(errors.error_files@) == self.spec_error_files(),
            texts(errors.timeout_files@) == self.spec_timeout_files(),
    {
        ScanErrors {
            error_files: clone_texts(&self.error_files),
            timeout_files: clone_texts(&self.timeout_files),
        }
    }
}

} // verus!
