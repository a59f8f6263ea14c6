use vstd::prelude::*;
use vstd::string::*;

use crate::utils::text::{clone_opt, eq_ignore_ascii_case, opt_text, same_ignoring_ascii_case};

verus! {

/// A path as contracts see it.
pub struct PathParts {
    pub path: Seq<char>,
    pub file_name: Option<Seq<char>>,
    pub extension: Option<Seq<char>>,
}

/// A path as the library reads it: its text, and the parts that the file system's rules cut
/// out of it.
#[derive(Debug)]
pub struct FilePath {
    /// The path as text
    pub path: String,
    /// The final component of the path, if it has one
    pub file_name: Option<String>,
    /// The extension of the final component, without the dot, if it has one
    pub extension: Option<String>,
}

impl View for FilePath {
    type V = PathParts;

    open spec fn view(&self) -> PathParts {
        PathParts {
            path: self.path@,
            file_name: opt_text(self.file_name),
            extension: opt_text(self.extension),
        }
    }
}

impl Clone for FilePath {
    fn clone(&self) -> (copy: Self)
        ensures
            copy@ == self@,
    {
        FilePath {
            path: self.path.clone(),
            file_name: clone_opt(&self.file_name),
            extension: clone_opt(&self.extension),
        }
    }
}

/// The parts of each path of a list.
pub open spec fn paths_view(paths: Seq<FilePath>) -> Seq<PathParts> {
    paths.map_values(|p: FilePath| p@)
}

/// A file handed over for scanning: its path and what reading it gave.
#[derive(Debug)]
pub struct SourceFile {
    /// The path of the file as text
    pub path: String,
    /// The whole text of the file, or the reason why it could not be read
    pub content: Result<String, String>,
}

impl Clone for SourceFile {
    fn clone(&self) -> (copy: Self)
        ensures
            copy.path@ == self.path@,
            match self.content {
                Ok(text) => copy.content matches Ok(same) && same@ == text@,
                Err(reason) => copy.content matches Err(same) && same@ == reason@,
            },
    {
        SourceFile {
            path: self.path.clone(),
            content: match &self.content {
                Ok(text) => Ok(text.clone()),
                Err(reason) => Err(reason.clone()),
            },
        }
    }
}

/// Why a file gave no classes.
#[derive(Debug)]
pub enum ScanError {
    /// The file could not be read; the detail is the reason given by the reader
    Read { path: String, detail: String },
    /// The content of the file could not be interpreted
    Parse { path: String, detail: String },
}

impl ScanError {
    /// The path of the file that failed
    pub fn path(&self) -> (path: &String)
        ensures
            path@ == self.spec_path(),
    {
        match self {
            ScanError::Read { path, .. } => path,
            ScanError::Parse { path, .. } => path,
        }
    }

    /// The path of the file that failed
    pub open spec fn spec_path(&self) -> Seq<char> {
        match self {
            ScanError::Read { path, .. } => path@,
            ScanError::Parse { path, .. } => path@,
        }
    }

    /// The reason of the failure, without the path
    pub fn detail(&self) -> (detail: &String)
        ensures
            detail@ == self.spec_detail(),
    {
        match self {
            ScanError::Read { detail, .. } => detail,
            ScanError::Parse { detail, .. } => detail,
        }
    }

    /// The reason of the failure, without the path
    pub open spec fn spec_detail(&self) -> Seq<char> {
        match self {
            ScanError::Read { detail, .. } => detail@,
            ScanError::Parse { detail, .. } => detail@,
        }
    }

    /// A message for a person: what failed, on which file, and why
    pub fn message(&self) -> (text: String)
        ensures
            text@ == self.spec_message(),
    {
        match self {
            ScanError::Read { path, detail } => {
                let mut text = String::from_str("Failed to read file ");
                text.append(path.as_str());
                text.append(": ");
                text.append(detail.as_str());
                text
            },
            ScanError::Parse { path, detail } => {
                let mut text = String::from_str("Failed to parse file ");
                text.append(path.as_str());
                text.append(": ");
                text.append(detail.as_str());
                text
            },
        }
    }

    /// The message of this error
    pub open spec fn spec_message(&self) -> Seq<char> {
        match self {
            ScanError::Read { path, detail } => "Failed to read file "@ + path@ + ": "@ + detail@,
            ScanError::Parse { path, detail } => "Failed to parse file "@ + path@ + ": "@
                + detail@,
        }
    }
}

/// Tells whether a path has the extension, the case of ASCII letters ignored.
pub open spec fn extension_is(path: PathParts, extension: Seq<char>) -> bool {
    path.extension matches Some(own) && same_ignoring_ascii_case(own, extension)
}

/// Tells whether a path has one of the extensions, the case of ASCII letters ignored.
pub open spec fn extension_among(path: PathParts, extensions: Seq<Seq<char>>) -> bool {
    exists|k: int| 0 <= k < extensions.len() && extension_is(path, #[trigger] extensions[k])
}

/// The test that keeps the paths with one of the extensions.
pub open spec fn with_extension_among(extensions: Seq<Seq<char>>) -> spec_fn(PathParts) -> bool {
    |path: PathParts| extension_among(path, extensions)
}

/// The texts of a list of string slices.
pub open spec fn slice_texts(items: Seq<&str>) -> Seq<Seq<char>> {
    items.map_values(|s: &str| s@)
}

/// Check if a file has a specific extension
pub fn has_extension(path: &FilePath, extension: &str) -> (found: bool)
    ensures
        found == extension_is(path@, extension@),
{
    match &path.extension {
        Some(own) => eq_ignore_ascii_case(own.as_str(), extension),
        None => false,
    }
}

/// Check if a file has one of the specified extensions
pub fn has_any_extension(path: &FilePath, extensions: &[&str]) -> (found: bool)
    ensures
        found == extension_among(path@, slice_texts(extensions@)),
{
    let mut i: usize = 0;
    while i < extensions.len()
        invariant
            i <= extensions.len(),
            forall|k: int| 0 <= k < i ==> !extension_is(path@, #[trigger] slice_texts(extensions@)[k]),
        decreases extensions.len() - i,
    {
        if has_extension(path, extensions[i]) {
            assert(extension_is(path@, slice_texts(extensions@)[i as int]));
            return true;
        }
        i += 1;
    }
    false
}

/// Get the files with specific extensions among the files found under a directory
pub fn get_files_with_extensions(entries: &Vec<FilePath>, extensions: &[&str]) -> (files: Vec<
    FilePath,
>)
    ensures
        paths_view(files@) == paths_view(entries@).filter(
            with_extension_among(slice_texts(extensions@)),
        ),
{
    let ghost keep = with_extension_among(slice_texts(extensions@));
    let mut files: Vec<FilePath> = Vec::new();
    let mut i: usize = 0;
    proof {
        reveal(Seq::filter);
        assert(paths_view(entries@).take(0) =~= Seq::empty());
        assert(paths_view(files@) =~= paths_view(entries@).take(0).filter(keep));
    }
    while i < entries.len()
        invariant
            i <= entries.len(),
            keep == with_extension_among(slice_texts(extensions@)),
            paths_view(files@) == paths_view(entries@).take(i as int).filter(keep),
        decreases entries.len() - i,
    {
        let ghost before = paths_view(files@);
        proof {
            reveal(Seq::filter);
            let upto = paths_view(entries@).take(i + 1);
            assert(upto.drop_last() =~= paths_view(entries@).take(i as int));
            assert(upto.last() == entries@[i as int]@);
        }
        if has_any_extension(&entries[i], extensions) {
            files.push(entries[i].clone());
            assert(paths_view(files@) =~= before.push(entries@[i as int]@));
        }
        i += 1;
    }
    assert(paths_view(entries@).take(i as int) =~= paths_view(entries@));
    files
}

} // verus!
