use vstd::prelude::*;
use vstd::string::*;

use crate::class::processor::property_processor::{processed, PropertyProcessor};
use crate::class::scanner::parser::{bare_blocks_of, parse_outcome};
use crate::class::scanner::simple_parser::{
    bare_block_of, declarations, parse_view, Block, ClassBlock, ClassDeclaration, ScanError,
    SimpleParser,
};
use crate::class::scanner::FileCollector;
use crate::class::types::{
    records, reports_view, ClassRecord, ClassScanOptions, ClassScanResult, ClassScanStats,
    FileReport, Outcome, ProcessedClass, Report, ScanErrors, ScanOutcome, ScanStatistics,
    ScanSummary,
};
use crate::utils::clock::{elapsed_since, start_clock, Elapsed};
use crate::utils::file_utils::SourceFile;
use crate::utils::text::{clone_opt, clone_texts, opt_text, texts};

verus! {

/// The record of a named class entity found in a file: its name, its parent as written, and
/// its properties as texts.
pub open spec fn block_record(block: Block, file_path: Seq<char>) -> ClassRecord {
    ClassRecord {
        name: block.name->0@,
        parent: opt_text(block.parent),
        properties: processed(block.properties@),
        source_file: Some(file_path),
    }
}

/// The records of a class entity and of every entity nested in it, at any depth: the entity
/// itself first, where it has a name, then those of its children in order.
pub open spec fn flattened(block: Block, file_path: Seq<char>) -> Seq<ClassRecord>
    decreases block,
{
    let own = if block.name is Some {
        seq![block_record(block, file_path)]
    } else {
        Seq::empty()
    };
    own + flattened_all(block.children@, file_path)
}

/// The records of a list of class entities and of every entity nested in them, in order.
pub open spec fn flattened_all(blocks: Seq<Block>, file_path: Seq<char>) -> Seq<ClassRecord>
    decreases blocks,
{
    if blocks.len() == 0 {
        Seq::empty()
    } else {
        flattened_all(blocks.drop_last(), file_path) + flattened(blocks.last(), file_path)
    }
}

/// The number of entities with a name in a class entity and in everything nested in it.
pub open spec fn named_count(block: Block) -> nat
    decreases block,
{
    let own: nat = if block.name is Some {
        1
    } else {
        0
    };
    own + named_count_all(block.children@)
}

/// The number of entities with a name in a list of class entities and in everything nested
/// in them.
pub open spec fn named_count_all(blocks: Seq<Block>) -> nat
    decreases blocks,
{
    if blocks.len() == 0 {
        0
    } else {
        named_count_all(blocks.drop_last()) + named_count(blocks.last())
    }
}

/// Flattening emits exactly one record for each entity with a name, whatever its depth.
pub proof fn flattening_is_complete(block: Block, file_path: Seq<char>)
    ensures
        flattened(block, file_path).len() == named_count(block),
    decreases block,
{
    flattening_all_is_complete(block.children@, file_path);
}

/// Flattening a list emits exactly one record for each entity with a name, whatever its depth.
pub proof fn flattening_all_is_complete(blocks: Seq<Block>, file_path: Seq<char>)
    ensures
        flattened_all(blocks, file_path).len() == named_count_all(blocks),
    decreases blocks,
{
    if blocks.len() > 0 {
        flattening_all_is_complete(blocks.drop_last(), file_path);
        flattening_is_complete(blocks.last(), file_path);
    }
}

/// A file whose one top-level class holds one nested class, neither holding more, gives two
/// records: that of the outer class, then that of the nested one. The nested record is made
/// of the nested class and the path alone.
pub proof fn flattening_one_nested_class(outer: Block, file_path: Seq<char>)
    requires
        outer.name is Some,
        outer.children@.len() == 1,
        outer.children@[0].name is Some,
        outer.children@[0].children@.len() == 0,
    ensures
        flattened_all(seq![outer], file_path) == seq![
            block_record(outer, file_path),
            block_record(outer.children@[0], file_path),
        ],
{
    let inner = outer.children@[0];
    assert(flattened(inner, file_path) =~= seq![block_record(inner, file_path)]);
    assert(flattened_all(outer.children@.drop_last(), file_path) =~= Seq::empty());
    assert(flattened_all(outer.children@, file_path) =~= flattened(inner, file_path));
    assert(flattened_all(seq![outer].drop_last(), file_path) =~= Seq::empty());
    assert(flattened_all(seq![outer], file_path) =~= flattened(outer, file_path));
}

/// The record of a bare declaration found in a file: its name and parent, no property, and
/// the path of the file.
pub open spec fn declaration_record(
    declaration: ClassDeclaration,
    file_path: Seq<char>,
) -> ClassRecord {
    ClassRecord {
        name: declaration.name,
        parent: declaration.parent,
        properties: Seq::empty(),
        source_file: Some(file_path),
    }
}

/// The records of a list of bare declarations found in a file.
pub open spec fn declaration_records(
    declarations: Seq<ClassDeclaration>,
    file_path: Seq<char>,
) -> Seq<ClassRecord> {
    declarations.map_values(|d: ClassDeclaration| declaration_record(d, file_path))
}

/// How the extraction of one file ended, as the coordinator saw it.
#[derive(Debug)]
pub enum Extraction {
    /// The extractor finished in time, with entities or with a complaint
    Completed(Result<Vec<Block>, String>),
    /// The deadline passed first; whatever the extractor gives later is dropped
    DeadlineElapsed,
}

/// The report of one file. A deadline that passed first makes a timeout. Otherwise a file
/// that could not be read counts as a parse error, an empty file is empty whatever the
/// extractor said, a complaint of the extractor is a parse error, and entities are
/// flattened: no record makes the file empty, and any record makes it a file with classes.
pub open spec fn classification(file: SourceFile, extraction: Extraction) -> Report {
    match extraction {
        Extraction::DeadlineElapsed => Report {
            path: file.path@,
            outcome: Outcome::Timeout,
            classes: Seq::empty(),
        },
        Extraction::Completed(result) => match file.content {
            Err(detail) => Report {
                path: file.path@,
                outcome: Outcome::ParseError(detail@),
                classes: Seq::empty(),
            },
            Ok(text) => if text@.len() == 0 {
                Report { path: file.path@, outcome: Outcome::Empty, classes: Seq::empty() }
            } else {
                match result {
                    Err(message) => Report {
                        path: file.path@,
                        outcome: Outcome::ParseError(message@),
                        classes: Seq::empty(),
                    },
                    Ok(entities) => {
                        let found = flattened_all(entities@, file.path@);
                        if found.len() == 0 {
                            Report {
                                path: file.path@,
                                outcome: Outcome::Empty,
                                classes: Seq::empty(),
                            }
                        } else {
                            Report {
                                path: file.path@,
                                outcome: Outcome::HasClasses(found.len()),
                                classes: found,
                            }
                        }
                    },
                }
            },
        },
    }
}

/// An empty file is classified as empty whatever the extractor said of it, and never as a
/// parse error.
pub proof fn empty_file_is_empty(file: SourceFile, result: Result<Vec<Block>, String>)
    requires
        file.content matches Ok(text) && text@.len() == 0,
    ensures
        classification(file, Extraction::Completed(result)) == (Report {
            path: file.path@,
            outcome: Outcome::Empty,
            classes: Seq::empty(),
        }),
{
}

/// A file whose extraction ran past the deadline is classified as timed out and contributes
/// no record, whatever it holds.
pub proof fn elapsed_deadline_is_timeout(file: SourceFile)
    ensures
        classification(file, Extraction::DeadlineElapsed) == (Report {
            path: file.path@,
            outcome: Outcome::Timeout,
            classes: Seq::empty(),
        }),
        tally(
            ScanSummary { classes: Seq::empty(), stats: no_statistics() },
            classification(file, Extraction::DeadlineElapsed),
        ).classes.len() == 0,
{
}

/// The statistics of a scan of no file.
pub open spec fn no_statistics() -> ScanStatistics {
    ScanStatistics {
        total_files: 0,
        total_classes: 0,
        empty_files: 0,
        files_with_classes: 0,
        error_files: 0,
        error_file_paths: Seq::empty(),
        timeout_files: 0,
        timeout_file_paths: Seq::empty(),
    }
}

/// A summary with one more report counted: the file under its outcome, its path listed where
/// it failed, and its classes added where it has classes.
pub open spec fn tally(so_far: ScanSummary, report: Report) -> ScanSummary {
    let stats = so_far.stats;
    match report.outcome {
        Outcome::HasClasses(_) => ScanSummary {
            classes: so_far.classes + report.classes,
            stats: ScanStatistics {
                total_files: stats.total_files + 1,
                files_with_classes: stats.files_with_classes + 1,
                total_classes: stats.total_classes + report.classes.len(),
                ..stats
            },
        },
        Outcome::Empty => ScanSummary {
            classes: so_far.classes,
            stats: ScanStatistics {
                total_files: stats.total_files + 1,
                empty_files: stats.empty_files + 1,
                ..stats
            },
        },
        Outcome::ParseError(_) => ScanSummary {
            classes: so_far.classes,
            stats: ScanStatistics {
                total_files: stats.total_files + 1,
                error_files: stats.error_files + 1,
                error_file_paths: stats.error_file_paths.push(report.path),
                ..stats
            },
        },
        Outcome::Timeout => ScanSummary {
            classes: so_far.classes,
            stats: ScanStatistics {
                total_files: stats.total_files + 1,
                timeout_files: stats.timeout_files + 1,
                timeout_file_paths: stats.timeout_file_paths.push(report.path),
                ..stats
            },
        },
    }
}

/// The summary of the reports of a scan, counted in order.
pub open spec fn summary(reports: Seq<Report>) -> ScanSummary
    decreases reports.len(),
{
    if reports.len() == 0 {
        ScanSummary { classes: Seq::empty(), stats: no_statistics() }
    } else {
        tally(summary(reports.drop_last()), reports.last())
    }
}

/// In the summary of a scan every file is counted once, under exactly one outcome: the total
/// is the number of reports and the sum of the four counts, each failing file is listed, and
/// the class count is the number of classes collected.
pub proof fn summary_counts_every_file(reports: Seq<Report>)
    ensures
        summary(reports).stats.consistent(),
        summary(reports).stats.total_files == reports.len(),
        summary(reports).stats.total_classes == summary(reports).classes.len(),
    decreases reports.len(),
{
    if reports.len() > 0 {
        summary_counts_every_file(reports.drop_last());
    }
}

/// A file that timed out is listed among the timed-out files of the scan and counted there
/// and nowhere else: without its report the scan has the same classes, the same class count,
/// and the same counts of files with classes, of empty files and of error files.
pub proof fn a_timed_out_file_is_listed(reports: Seq<Report>, k: int)
    requires
        0 <= k < reports.len(),
        reports[k].outcome is Timeout,
    ensures
        summary(reports).stats.timeout_file_paths.contains(reports[k].path),
        summary(reports).stats.timeout_files == summary(reports.remove(k)).stats.timeout_files + 1,
        summary(reports).stats.total_files == summary(reports.remove(k)).stats.total_files + 1,
        summary(reports).classes == summary(reports.remove(k)).classes,
        summary(reports).stats.total_classes == summary(reports.remove(k)).stats.total_classes,
        summary(reports).stats.files_with_classes == summary(
            reports.remove(k),
        ).stats.files_with_classes,
        summary(reports).stats.empty_files == summary(reports.remove(k)).stats.empty_files,
        summary(reports).stats.error_files == summary(reports.remove(k)).stats.error_files,
        summary(reports).stats.error_file_paths == summary(reports.remove(k)).stats.error_file_paths,
    decreases reports.len(),
{
    let earlier = reports.drop_last();
    let without = reports.remove(k);
    if k == reports.len() - 1 {
        assert(without =~= earlier);
        let listed = summary(reports).stats.timeout_file_paths;
        assert(listed[listed.len() - 1] == reports[k].path);
    } else {
        assert(earlier[k] == reports[k]);
        a_timed_out_file_is_listed(earlier, k);
        assert(without.drop_last() =~= earlier.remove(k));
        assert(without.last() == reports.last());
        let listed = summary(earlier).stats.timeout_file_paths;
        let at = choose|i: int| 0 <= i < listed.len() && listed[i] == reports[k].path;
        if reports.last().outcome is Timeout {
            assert(listed.push(reports.last().path)[at] == reports[k].path);
        }
    }
}

/// The entities that stand for bare declarations flatten to the records of the declarations.
pub proof fn bare_blocks_flatten(
    blocks: Seq<Block>,
    declarations: Seq<ClassDeclaration>,
    file_path: Seq<char>,
)
    requires
        bare_blocks_of(blocks, declarations),
    ensures
        flattened_all(blocks, file_path) == declaration_records(declarations, file_path),
    decreases blocks.len(),
{
    if blocks.len() == 0 {
        assert(flattened_all(blocks, file_path) =~= declaration_records(declarations, file_path));
    } else {
        bare_blocks_flatten(blocks.drop_last(), declarations.drop_last(), file_path);
        let last = blocks.last();
        assert(bare_block_of(last, declarations.last()));
        assert(last.children@ =~= Seq::empty());
        assert(flattened_all(last.children@, file_path) =~= Seq::empty());
        assert(processed(last.properties@) =~= Seq::empty());
        assert(flattened(last, file_path) =~= seq![
            declaration_record(declarations.last(), file_path),
        ]);
        assert(flattened_all(blocks, file_path) =~= declaration_records(declarations, file_path));
    }
}

/// The report of one file from what the parser found in it: a file that could not be read
/// counts as a parse error with the reader's reason, an empty file is empty, a complaint of
/// the parser is a parse error, and otherwise the file has the classes that the parser
/// declares, or is empty where it declares none.
pub open spec fn parse_report(
    file: SourceFile,
    parse: Result<Seq<ClassDeclaration>, Seq<char>>,
) -> Report {
    match file.content {
        Err(detail) => Report {
            path: file.path@,
            outcome: Outcome::ParseError(detail@),
            classes: Seq::empty(),
        },
        Ok(text) => if text@.len() == 0 {
            Report { path: file.path@, outcome: Outcome::Empty, classes: Seq::empty() }
        } else {
            match parse {
                Err(detail) => Report {
                    path: file.path@,
                    outcome: Outcome::ParseError(detail),
                    classes: Seq::empty(),
                },
                Ok(found) => if found.len() == 0 {
                    Report { path: file.path@, outcome: Outcome::Empty, classes: Seq::empty() }
                } else {
                    Report {
                        path: file.path@,
                        outcome: Outcome::HasClasses(found.len()),
                        classes: declaration_records(found, file.path@),
                    }
                },
            }
        },
    }
}

/// The report of a file whose extraction ran past the deadline.
pub open spec fn timeout_report(file: SourceFile) -> Report {
    Report { path: file.path@, outcome: Outcome::Timeout, classes: Seq::empty() }
}

/// Tells whether a file is handed to the extractor: it was read and it is not empty.
pub open spec fn is_extracted(file: SourceFile) -> bool {
    file.content matches Ok(text) && text@.len() > 0
}

/// The report of one file scanned under a time budget: the report of a timeout where the
/// extraction ran past the deadline, and the report of the scan otherwise. A file that is not
/// handed to the extractor cannot time out.
pub open spec fn timed_report(
    file: SourceFile,
    parse: Result<Seq<ClassDeclaration>, Seq<char>>,
    timed_out: bool,
) -> Report {
    if timed_out && is_extracted(file) {
        timeout_report(file)
    } else {
        parse_report(file, parse)
    }
}

/// Tells whether the reports are those of a scan of the files, one report for each file in
/// order: the report of its scan, or that of a timeout.
pub open spec fn reports_of_scan(reports: Seq<Report>, files: Seq<SourceFile>) -> bool {
    &&& reports.len() == files.len()
    &&& forall|k: int|
        0 <= k < reports.len() ==> #[trigger] reports[k] == timed_report(
            files[k],
            parse_outcome(files[k]),
            false,
        ) || reports[k] == timed_report(files[k], parse_outcome(files[k]), true)
}

/// The number of files that a scan takes from a list: all of them, or the first up to the
/// cap where the list is longer than the cap.
pub open spec fn limited_count(total: nat, max_files: Option<usize>) -> nat {
    match max_files {
        Some(cap) => if total > cap {
            cap as nat
        } else {
            total
        },
        None => total,
    }
}

/// The number of workers of a scan: the number asked for, or one less than the processors
/// at hand, and at least one.
pub open spec fn spec_worker_count(parallel_threads: Option<usize>, available: usize) -> usize {
    match parallel_threads {
        Some(count) => count,
        None => if available >= 2 {
            (available - 1) as usize
        } else {
            1
        },
    }
}

/// The number of workers of a scan
pub fn worker_count(parallel_threads: Option<usize>, available: usize) -> (count: usize)
    ensures
        count == spec_worker_count(parallel_threads, available),
{
    match parallel_threads {
        Some(count) => count,
        None => {
            let spare = available.saturating_sub(1);
            if spare >= 1 {
                spare
            } else {
                1
            }
        },
    }
}

/// Asks `num_cpus::get` for the number of logical processors of this machine.
/// Trusted, and nothing is claimed of the number.
#[verifier::external_body]
fn available_processors() -> usize {
    num_cpus::get()
}

fn flatten_into(file_path: &str, block: &Block, out: &mut Vec<ProcessedClass>)
    ensures
        records(final(out)@) == records(old(out)@) + flattened(*block, file_path@),
    decreases *block,
{
    let ghost before = records(out@);
    if let Some(name) = &block.name {
        let processor = PropertyProcessor::new();
        let properties = processor.process_properties_from_list(block.properties.as_slice());
        out.push(
            ProcessedClass {
                name: name.clone(),
                parent: clone_opt(&block.parent),
                properties,
                file_path: Some(file_path.to_owned()),
            },
        );
        assert(records(out@) =~= before + seq![block_record(*block, file_path@)]);
    }
    let ghost own = records(out@);
    flatten_all_into(file_path, &block.children, out);
    assert(records(out@) =~= before + flattened(*block, file_path@));
}

fn flatten_all_into(file_path: &str, blocks: &Vec<Block>, out: &mut Vec<ProcessedClass>)
    ensures
        records(final(out)@) == records(old(out)@) + flattened_all(blocks@, file_path@),
    decreases *blocks,
{
    let ghost before = records(out@);
    let mut i: usize = 0;
    assert(records(out@) =~= before + flattened_all(blocks@.take(0), file_path@));
    while i < blocks.len()
        invariant
            i <= blocks.len(),
            records(out@) == before + flattened_all(blocks@.take(i as int), file_path@),
        decreases blocks.len() - i,
    {
        flatten_into(file_path, &blocks[i], out);
        proof {
            let upto = blocks@.take(i + 1);
            assert(upto.drop_last() =~= blocks@.take(i as int));
            assert(upto.last() == blocks@[i as int]);
            assert(records(out@) =~= before + flattened_all(upto, file_path@));
        }
        i += 1;
    }
    assert(blocks@.take(i as int) =~= blocks@);
}

/// Flatten the class entities of a file, nested ones included, into independent records that
/// carry the path of the file
pub fn flatten(file_path: &str, entities: &Vec<Block>) -> (classes: Vec<ProcessedClass>)
    ensures
        records(classes@) == flattened_all(entities@, file_path@),
        classes@.len() == named_count_all(entities@),
{
    let mut classes: Vec<ProcessedClass> = Vec::new();
    assert(records(classes@) =~= Seq::empty());
    flatten_all_into(file_path, entities, &mut classes);
    proof {
        flattening_all_is_complete(entities@, file_path@);
        assert(records(classes@) =~= flattened_all(entities@, file_path@));
    }
    classes
}

/// Classify the scan of one file from what reading and extraction gave
pub fn classify(file: &SourceFile, extraction: Extraction) -> (report: FileReport)
    ensures
        report@ == classification(*file, extraction),
{
    let path = file.path.clone();
    let no_classes: Vec<ProcessedClass> = Vec::new();
    assert(records(no_classes@) =~= Seq::empty());
    match extraction {
        Extraction::DeadlineElapsed => FileReport {
            path,
            outcome: ScanOutcome::Timeout,
            classes: no_classes,
        },
        Extraction::Completed(result) => match &file.content {
            Err(detail) => FileReport {
                path,
                outcome: ScanOutcome::ParseError(detail.clone()),
                classes: no_classes,
            },
            Ok(text) => {
                if text.as_str().is_empty() {
                    FileReport { path, outcome: ScanOutcome::Empty, classes: no_classes }
                } else {
                    match result {
                        Err(message) => FileReport {
                            path,
                            outcome: ScanOutcome::ParseError(message),
                            classes: no_classes,
                        },
                        Ok(entities) => {
                            let found = flatten(file.path.as_str(), &entities);
                            if found.len() == 0 {
                                FileReport {
                                    path,
                                    outcome: ScanOutcome::Empty,
                                    classes: no_classes,
                                }
                            } else {
                                FileReport {
                                    path,
                                    outcome: ScanOutcome::HasClasses(found.len()),
                                    classes: found,
                                }
                            }
                        },
                    }
                }
            },
        },
    }
}

/// Fold the reports of a scan into its result: the classes of all files and the statistics
pub fn summarize(reports: &Vec<FileReport>) -> (result: ClassScanResult)
    ensures
        result@ == summary(reports_view(reports@)),
        result@.stats.consistent(),
        result@.stats.total_files == reports@.len(),
{
    let mut classes: Vec<ProcessedClass> = Vec::new();
    let mut files_with_classes: usize = 0;
    let mut empty_files: usize = 0;
    let mut error_file_paths: Vec<String> = Vec::new();
    let mut timeout_file_paths: Vec<String> = Vec::new();
    let mut i: usize = 0;
    proof {
        assert(records(classes@) =~= Seq::empty());
        assert(texts(error_file_paths@) =~= Seq::empty());
        assert(texts(timeout_file_paths@) =~= Seq::empty());
        assert(reports_view(reports@).take(0) =~= Seq::empty());
    }
    while i < reports.len()
        invariant
            i <= reports.len(),
            files_with_classes + empty_files + error_file_paths@.len() + timeout_file_paths@.len()
                == i,
            summary(reports_view(reports@).take(i as int)) == (ScanSummary {
                classes: records(classes@),
                stats: ScanStatistics {
                    total_files: i as nat,
                    total_classes: classes@.len(),
                    empty_files: empty_files as nat,
                    files_with_classes: files_with_classes as nat,
                    error_files: error_file_paths@.len(),
                    error_file_paths: texts(error_file_paths@),
                    timeout_files: timeout_file_paths@.len(),
                    timeout_file_paths: texts(timeout_file_paths@),
                },
            }),
        decreases reports.len() - i,
    {
        let report = &reports[i];
        let ghost classes_before = records(classes@);
        let ghost errors_before = texts(error_file_paths@);
        let ghost timeouts_before = texts(timeout_file_paths@);
        proof {
            let upto = reports_view(reports@).take(i + 1);
            assert(upto.drop_last() =~= reports_view(reports@).take(i as int));
            assert(upto.last() == report@);
        }
        match &report.outcome {
            ScanOutcome::HasClasses(_) => {
                files_with_classes += 1;
                let mut k: usize = 0;
                while k < report.classes.len()
                    invariant
                        k <= report.classes.len(),
                        records(classes@) == classes_before + records(report.classes@).take(
                            k as int,
                        ),
                    decreases report.classes.len() - k,
                {
                    let ghost so_far = records(classes@);
                    classes.push(report.classes[k].clone());
                    assert(records(classes@) =~= so_far.push(report.classes@[k as int]@));
                    assert(records(report.classes@).take(k + 1) =~= records(report.classes@).take(
                        k as int,
                    ).push(report.classes@[k as int]@));
                    assert(records(classes@) =~= classes_before + records(report.classes@).take(
                        k + 1,
                    ));
                    k += 1;
                }
                assert(records(report.classes@).take(k as int) =~= records(report.classes@));
            },
            ScanOutcome::Empty => {
                empty_files += 1;
            },
            ScanOutcome::ParseError(_) => {
                error_file_paths.push(report.path.clone());
                assert(texts(error_file_paths@) =~= errors_before.push(report.path@));
            },
            ScanOutcome::Timeout => {
                timeout_file_paths.push(report.path.clone());
                assert(texts(timeout_file_paths@) =~= timeouts_before.push(report.path@));
            },
        }
        i += 1;
    }
    proof {
        assert(reports_view(reports@).take(i as int) =~= reports_view(reports@));
        summary_counts_every_file(reports_view(reports@));
    }
    let stats = ClassScanStats {
        total_files: reports.len(),
        total_classes: classes.len(),
        empty_files,
        files_with_classes,
        error_files: error_file_paths.len(),
        error_file_paths,
        timeout_files: timeout_file_paths.len(),
        timeout_file_paths,
    };
    ClassScanResult { classes, stats }
}

/// Class processor responsible for collecting parsed classes
#[derive(Debug)]
pub struct ClassProcessor {
    /// Configuration options for processing
    options: ClassScanOptions,
    /// Output directory for logs and temporary files
    output_dir: String,
    /// Simple parser for extracting class definitions
    parser: SimpleParser,
    /// File collector for finding class files
    file_collector: FileCollector,
    /// Error tracking
    scan_errors: ScanErrors,
}

impl ClassProcessor {
    /// The options that the processor was made with
    pub closed spec fn spec_options(&self) -> ClassScanOptions {
        self.options
    }

    /// The output directory that the processor was made with
    pub closed spec fn spec_output_dir(&self) -> Seq<char> {
        self.output_dir@
    }

    /// The extensions of the files that the processor collects
    pub closed spec fn spec_extensions(&self) -> Seq<Seq<char>> {
        self.file_collector.spec_extensions()
    }

    /// The files that failed in the last scan
    pub closed spec fn spec_error_files(&self) -> Seq<Seq<char>> {
        texts(self.scan_errors.error_files@)
    }

    /// The files that timed out in the last scan
    pub closed spec fn spec_timeout_files(&self) -> Seq<Seq<char>> {
        texts(self.scan_errors.timeout_files@)
    }

    /// Tells whether two processors differ in nothing but the failures they recorded
    pub closed spec fn same_setup(&self, other: &Self) -> bool {
        &&& self.options == other.options
        &&& self.output_dir@ == other.output_dir@
        &&& self.parser.verbose == other.parser.verbose
        &&& self.file_collector.spec_extensions() == other.file_collector.spec_extensions()
    }

    /// Create a new class processor with the given options
    pub fn new(options: ClassScanOptions, output_dir: &str) -> (processor: Self)
        ensures
            processor.spec_options() == options,
            processor.spec_output_dir() == output_dir@,
            processor.spec_extensions() == seq!["cpp"@, "hpp"@],
            processor.spec_error_files().len() == 0,
            processor.spec_timeout_files().len() == 0,
    {
        ClassProcessor {
            options,
            output_dir: output_dir.to_owned(),
            parser: SimpleParser::new(options.verbose_errors),
            file_collector: FileCollector::new(),
            scan_errors: ScanErrors::default(),
        }
    }

    /// Create a new class processor with default options
    pub fn with_defaults(output_dir: &str) -> (processor: Self)
        ensures
            processor.spec_options() == (ClassScanOptions {
                verbose_errors: false,
                max_files: None,
                parse_timeout_seconds: 10,
                parallel_threads: None,
            }),
            processor.spec_output_dir() == output_dir@,
            processor.spec_extensions() == seq!["cpp"@, "hpp"@],
            processor.spec_error_files().len() == 0,
            processor.spec_timeout_files().len() == 0,
    {
        Self::new(ClassScanOptions::default(), output_dir)
    }

    /// The options of this processor
    pub fn options(&self) -> (options: ClassScanOptions)
        ensures
            options == self.spec_options(),
    {
        self.options
    }

    /// The output directory of this processor
    pub fn output_dir(&self) -> (dir: &String)
        ensures
            dir@ == self.spec_output_dir(),
    {
        &self.output_dir
    }

    /// The collector that picks the files of a directory scan
    pub fn file_collector(&self) -> (collector: &FileCollector)
        ensures
            collector.spec_extensions() == self.spec_extensions(),
    {
        &self.file_collector
    }

    /// The number of files of a list that a scan takes, given the cap of the options
    pub fn file_limit(&self, total: usize) -> (count: usize)
        ensures
            count == limited_count(total as nat, self.spec_options().max_files),
    {
        match self.options.max_files {
            Some(cap) => if total > cap {
                cap
            } else {
                total
            },
            None => total,
        }
    }

    /// The number of workers of a scan on this machine: the number that the options ask for,
    /// or what the processors at hand allow
    pub fn thread_count(&self) -> (count: usize)
        ensures
            exists|available: usize|
                count == #[trigger] spec_worker_count(
                    self.spec_options().parallel_threads,
                    available,
                ),
    {
        worker_count(self.options.parallel_threads, available_processors())
    }

    /// Make the report of one file from what the parser found in it and the time that the
    /// parser took: past the time budget of the options the file counts as timed out
    pub fn report_scan(
        &self,
        file: &SourceFile,
        parse_result: Result<Vec<ClassBlock>, ScanError>,
        elapsed: Elapsed,
    ) -> (report: FileReport)
        ensures
            report@ == timed_report(
                *file,
                parse_view(parse_result),
                elapsed.exceeds(self.spec_options().parse_timeout_seconds),
            ),
    {
        let extraction = if elapsed.is_longer_than(self.options.parse_timeout_seconds) {
            Extraction::DeadlineElapsed
        } else {
            match parse_result {
                Ok(class_blocks) => {
                    let blocks = self.parser.to_blocks(class_blocks);
                    proof {
                        bare_blocks_flatten(blocks@, declarations(class_blocks@), file.path@);
                    }
                    Extraction::Completed(Ok(blocks))
                },
                Err(error) => Extraction::Completed(Err(error.detail().clone())),
            }
        };
        let extracted = match &file.content {
            Ok(text) => !text.as_str().is_empty(),
            Err(_) => false,
        };
        if extracted {
            classify(file, extraction)
        } else {
            classify(file, Extraction::Completed(Ok(Vec::new())))
        }
    }

    /// Scan one file that was read: extract its classes with the class pattern, against the
    /// clock, and classify the outcome
    pub fn scan_file(&self, file: &SourceFile) -> (report: FileReport)
        ensures
            report@ == timed_report(*file, parse_outcome(*file), false) || report@
                == timed_report(*file, parse_outcome(*file), true),
    {
        let start = start_clock();
        let parse_result = match &file.content {
            Ok(text) => if text.as_str().is_empty() {
                Ok(Vec::new())
            } else {
                self.parser.parse_text(text.as_str(), file.path.as_str())
            },
            Err(detail) => Err(
                ScanError::Read { path: file.path.clone(), detail: detail.clone() },
            ),
        };
        let elapsed = elapsed_since(&start);
        self.report_scan(file, parse_result, elapsed)
    }

    /// Take the reports of a scan: remember the files that failed and give the result
    pub fn finish_scan(&mut self, reports: &Vec<FileReport>) -> (result: ClassScanResult)
        ensures
            result@ == summary(reports_view(reports@)),
            result@.stats.consistent(),
            result@.stats.total_files == reports@.len(),
            final(self).spec_error_files() == result@.stats.error_file_paths,
            final(self).spec_timeout_files() == result@.stats.timeout_file_paths,
            final(self).same_setup(old(self)),
    {
        let result = summarize(reports);
        self.scan_errors = ScanErrors {
            error_files: clone_texts(&result.stats.error_file_paths),
            timeout_files: clone_texts(&result.stats.timeout_file_paths),
        };
        result
    }

    /// Scan the files one after the other, up to the cap of the options, and return the
    /// report of each file with the result of the scan
    pub fn scan_files(&mut self, files: &[SourceFile]) -> (scan: (Vec<FileReport>, ClassScanResult))
        ensures
            reports_of_scan(
                reports_view(scan.0@),
                files@.take(limited_count(files@.len(), old(self).spec_options().max_files) as int),
            ),
            scan.1@ == summary(reports_view(scan.0@)),
            scan.1@.stats.consistent(),
            scan.1@.stats.total_files == limited_count(
                files@.len(),
                old(self).spec_options().max_files,
            ),
            final(self).spec_error_files() == scan.1@.stats.error_file_paths,
            final(self).spec_timeout_files() == scan.1@.stats.timeout_file_paths,
            final(self).same_setup(old(self)),
    {
        let count = self.file_limit(files.len());
        let ghost taken = files@.take(count as int);
        let mut reports: Vec<FileReport> = Vec::with_capacity(count);
        let mut i: usize = 0;
        while i < count
            invariant
                i <= count <= files.len(),
                taken == files@.take(count as int),
                reports@.len() == i,
                forall|k: int|
                    0 <= k < i ==> (#[trigger] reports@[k])@ == timed_report(
                        files@[k],
                        parse_outcome(files@[k]),
                        false,
                    ) || reports@[k]@ == timed_report(files@[k], parse_outcome(files@[k]), true),
            decreases count - i,
        {
            reports.push(self.scan_file(&files[i]));
            i += 1;
        }
        assert(reports_of_scan(reports_view(reports@), taken)) by {
            assert forall|k: int| 0 <= k < reports_view(reports@).len() implies (
            #[trigger] reports_view(reports@)[k]) == timed_report(
                taken[k],
                parse_outcome(taken[k]),
                false,
            ) || reports_view(reports@)[k] == timed_report(
                taken[k],
                parse_outcome(taken[k]),
                true,
            ) by {
                assert(reports_view(reports@)[k] == reports@[k]@);
                assert(taken[k] == files@[k]);
            }
        }
        let result = self.finish_scan(&reports);
        (reports, result)
    }

    /// Process files and return the results
    pub fn process_files(&mut self, files: &[SourceFile]) -> (result: ClassScanResult)
        ensures
            exists|reports: Seq<Report>|
                #[trigger] reports_of_scan(
                    reports,
                    files@.take(
                        limited_count(files@.len(), old(self).spec_options().max_files) as int,
                    ),
                ) && result@ == summary(reports),
            result@.stats.consistent(),
            result@.stats.total_files == limited_count(
                files@.len(),
                old(self).spec_options().max_files,
            ),
            final(self).spec_error_files() == result@.stats.error_file_paths,
            final(self).spec_timeout_files() == result@.stats.timeout_file_paths,
            final(self).same_setup(old(self)),
    {
        let (reports, result) = self.scan_files(files);
        result
    }

    /// Scan specific files for classes
    pub fn scan_specific_files(&mut self, files: &[SourceFile]) -> (result: ClassScanResult)
        ensures
            exists|reports: Seq<Report>|
                #[trigger] reports_of_scan(
                    reports,
                    files@.take(
                        limited_count(files@.len(), old(self).spec_options().max_files) as int,
                    ),
                ) && result@ == summary(reports),
            result@.stats.consistent(),
            result@.stats.total_files == limited_count(
                files@.len(),
                old(self).spec_options().max_files,
            ),
            final(self).spec_error_files() == result@.stats.error_file_paths,
            final(self).spec_timeout_files() == result@.stats.timeout_file_paths,
            final(self).same_setup(old(self)),
    {
        self.process_files(files)
    }

    /// Get the scan errors
    pub fn get_scan_errors(&self) -> (errors: &ScanErrors)
        ensures
            texts(errors.error_files@) == self.spec_error_files(),
            texts(errors.timeout_files@) == self.spec_timeout_files(),
    {
        &self.scan_errors
    }
}

} // verus!
