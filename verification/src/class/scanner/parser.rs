use vstd::prelude::*;
use vstd::string::*;

use crate::class::scanner::simple_parser::{
    bare_block_of, declarations, parse_view, parsed, Block, ClassBlock, ClassDeclaration,
    ScanError, SimpleParser,
};
use crate::class::types::ClassScanOptions;
use crate::utils::clock::{elapsed_since, start_clock, Elapsed};
use crate::utils::file_utils::{FilePath, PathParts, SourceFile};
use crate::utils::text::{join_texts, joined, texts};

verus! {

/// A file to be written for a person to read: where it goes under the output directory, its
/// name and its text. This is how contracts see it.
pub struct LogText {
    pub directory: Seq<char>,
    pub file_name: Seq<char>,
    pub content: Seq<char>,
}

/// A file to be written for a person to read
#[derive(Debug)]
pub struct LogFile {
    /// The directory of the file, under the output directory
    pub directory: String,
    /// The name of the file
    pub file_name: String,
    /// The text of the file
    pub content: String,
}

impl View for LogFile {
    type V = LogText;

    open spec fn view(&self) -> LogText {
        LogText {
            directory: self.directory@,
            file_name: self.file_name@,
            content: self.content@,
        }
    }
}

/// The log of a parse failure: a file named after the failing file, in the directory of the
/// error logs, that holds the path, the error and the content of the failing file.
pub open spec fn parse_error_log(file: PathParts, error: Seq<char>, content: Seq<char>) -> LogText {
    LogText {
        directory: "error_logs"@,
        file_name: match file.file_name {
            Some(name) => name,
            None => "unknown"@,
        } + "_error.log"@,
        content: "Error parsing file: "@ + file.path + "\n\nError: "@ + error + "\n\nContent:\n"@
            + content,
    }
}

/// The log of the files that timed out: one file in the directory of the timeout logs that
/// holds their paths, one on each line.
pub open spec fn timeout_log(timeout_files: Seq<Seq<char>>) -> LogText {
    LogText {
        directory: "timeout_logs"@,
        file_name: "timeout_files.log"@,
        content: joined(timeout_files, "\n"@),
    }
}

/// Tells whether the blocks are the bare entities of the declarations, one for one.
pub open spec fn bare_blocks_of(blocks: Seq<Block>, declarations: Seq<ClassDeclaration>) -> bool {
    &&& blocks.len() == declarations.len()
    &&& forall|k: int| 0 <= k < blocks.len() ==> bare_block_of(#[trigger] blocks[k], declarations[k])
}

/// Tells whether a result is what parsing gives: the bare entities of the declared classes,
/// or the error with its detail.
pub open spec fn blocks_result_of(
    result: Result<Vec<Block>, ScanError>,
    parse: Result<Seq<ClassDeclaration>, Seq<char>>,
) -> bool {
    match parse {
        Ok(found) => result matches Ok(blocks) && bare_blocks_of(blocks@, found),
        Err(detail) => result matches Err(error) && error.spec_detail() == detail,
    }
}

/// Tells whether a result is what parsing under a time budget gives. Where the time ran
/// out the result is no block and the mark of a timeout, whatever the parser found.
/// Otherwise it is what the parser found, without the mark, or the error of the parser.
pub open spec fn settled(
    result: Result<(Vec<Block>, bool), ScanError>,
    parse: Result<Seq<ClassDeclaration>, Seq<char>>,
    timed_out: bool,
) -> bool {
    if timed_out {
        result matches Ok((blocks, mark)) && mark && blocks@.len() == 0
    } else {
        match parse {
            Ok(found) => result matches Ok((blocks, mark)) && !mark && bare_blocks_of(
                blocks@,
                found,
            ),
            Err(detail) => result matches Err(error) && error.spec_detail() == detail,
        }
    }
}

/// What parsing a file that was handed over gives: the declared classes of its text, or the
/// reason why it could not be read or parsed.
pub open spec fn parse_outcome(file: SourceFile) -> Result<Seq<ClassDeclaration>, Seq<char>> {
    match file.content {
        Ok(text) => parsed(text@, file.path@),
        Err(detail) => Err(detail@),
    }
}

/// Tells whether a result is what parsing a file under a time budget gives: for a file that
/// was read, what the parser found in its text or the mark of a timeout; for a file that was
/// not read, the read error with the reason.
pub open spec fn parsed_or_settled(
    result: Result<(Vec<Block>, bool), ScanError>,
    file: SourceFile,
) -> bool {
    match file.content {
        Ok(text) => settled(result, parsed(text@, file.path@), true) || settled(
            result,
            parsed(text@, file.path@),
            false,
        ),
        Err(detail) => result matches Err(ScanError::Read { path, detail: reason }) && path@
            == file.path@ && reason@ == detail@,
    }
}

/// Class parser for parsing class files
#[derive(Debug)]
pub struct ClassParser {
    /// Configuration options for parsing
    options: ClassScanOptions,
    /// Output directory for logs and temporary files
    output_dir: String,
    /// Simple parser for actual parsing
    simple_parser: SimpleParser,
}

impl ClassParser {
    /// The options that the parser was made with
    pub closed spec fn spec_options(&self) -> ClassScanOptions {
        self.options
    }

    /// The output directory that the parser was made with
    pub closed spec fn spec_output_dir(&self) -> Seq<char> {
        self.output_dir@
    }

    /// Create a new class parser with the given options
    pub fn new(options: ClassScanOptions, output_dir: &str) -> (parser: Self)
        ensures
            parser.spec_options() == options,
            parser.spec_output_dir() == output_dir@,
    {
        ClassParser {
            options,
            output_dir: output_dir.to_owned(),
            simple_parser: SimpleParser::new(options.verbose_errors),
        }
    }

    /// The output directory for logs
    pub fn output_dir(&self) -> (dir: &String)
        ensures
            dir@ == self.spec_output_dir(),
    {
        &self.output_dir
    }

    /// Parse a file that was read and return the blocks found in it
    pub fn parse_file(&self, file: &SourceFile) -> (result: Result<Vec<Block>, ScanError>)
        ensures
            blocks_result_of(result, parse_outcome(*file)),
            result matches Err(error) ==> error.spec_path() == file.path@ && (error is Read
                <==> file.content is Err),
    {
        match self.simple_parser.parse_file(file) {
            Ok(class_blocks) => Ok(self.simple_parser.to_blocks(class_blocks)),
            Err(error) => Err(error),
        }
    }

    /// Decide what parsing under a time budget gives, from what the parser found and the
    /// time that it took
    pub fn settle(
        &self,
        parse_result: Result<Vec<ClassBlock>, ScanError>,
        elapsed: Elapsed,
        timeout_seconds: u64,
    ) -> (result: Result<(Vec<Block>, bool), ScanError>)
        ensures
            settled(result, parse_view(parse_result), elapsed.exceeds(timeout_seconds)),
            !elapsed.exceeds(timeout_seconds) ==> (parse_result matches Err(error)
                ==> result matches Err(same) && same == error),
    {
        if elapsed.is_longer_than(timeout_seconds) {
            return Ok((Vec::new(), true));
        }
        match parse_result {
            Ok(class_blocks) => Ok((self.simple_parser.to_blocks(class_blocks), false)),
            Err(error) => Err(error),
        }
    }

    /// Parse a file that was read, with a time budget, and return the blocks found in it and
    /// the mark of a timeout
    pub fn parse_file_with_timeout(&self, file: &SourceFile, timeout_seconds: u64) -> (result:
        Result<(Vec<Block>, bool), ScanError>)
        ensures
            parsed_or_settled(result, *file),
            result matches Err(error) ==> error.spec_path() == file.path@ && (error is Read
                <==> file.content is Err),
    {
        let start = start_clock();
        match &file.content {
            Err(detail) => Err(
                ScanError::Read { path: file.path.clone(), detail: detail.clone() },
            ),
            Ok(text) => {
                let parse_result = self.simple_parser.parse_text(
                    text.as_str(),
                    file.path.as_str(),
                );
                let elapsed = elapsed_since(&start);
                self.settle(parse_result, elapsed, timeout_seconds)
            },
        }
    }

    /// Make the log of a parse failure, where verbose errors are asked for
    pub fn log_parse_error(&self, file: &FilePath, error: &str, content: &str) -> (log: Option<
        LogFile,
    >)
        ensures
            match log {
                Some(log) => self.spec_options().verbose_errors && log@ == parse_error_log(
                    file@,
                    error@,
                    content@,
                ),
                None => !self.spec_options().verbose_errors,
            },
    {
        if !self.options.verbose_errors {
            return None;
        }
        let mut file_name = match &file.file_name {
            Some(name) => name.clone(),
            None => String::from_str("unknown"),
        };
        file_name.append("_error.log");
        let mut text = String::from_str("Error parsing file: ");
        text.append(file.path.as_str());
        text.append("\n\nError: ");
        text.append(error);
        text.append("\n\nContent:\n");
        text.append(content);
        Some(LogFile { directory: String::from_str("error_logs"), file_name, content: text })
    }

    /// Make the log of the files that timed out, if there are any
    pub fn log_timeout_files(&self, timeout_files: &[String]) -> (log: Option<LogFile>)
        ensures
            match log {
                Some(log) => timeout_files@.len() > 0 && log@ == timeout_log(
                    texts(timeout_files@),
                ),
                None => timeout_files@.len() == 0,
            },
    {
        if timeout_files.len() == 0 {
            return None;
        }
        Some(
            LogFile {
                directory: String::from_str("timeout_logs"),
                file_name: String::from_str("timeout_files.log"),
                content: join_texts(timeout_files, "\n"),
            },
        )
    }
}

} // verus!
