use vstd::prelude::*;
use vstd::string::*;

use crate::utils::file_utils::{
    get_files_with_extensions, paths_view, slice_texts, with_extension_among, FilePath,
};
use crate::utils::text::{contains_text, texts};

verus! {

/// File collector for finding class files
#[derive(Debug)]
pub struct FileCollector {
    /// Valid file extensions to collect
    valid_extensions: Vec<String>,
}

impl Default for FileCollector {
    fn default() -> (collector: Self)
        ensures
            collector.spec_extensions() == Seq::<Seq<char>>::empty(),
    {
        let collector = FileCollector { valid_extensions: Vec::new() };
        assert(collector.spec_extensions() =~= Seq::<Seq<char>>::empty());
        collector
    }
}

impl FileCollector {
    /// The valid extensions, in the order in which they were given
    pub closed spec fn spec_extensions(&self) -> Seq<Seq<char>> {
        texts(self.valid_extensions@)
    }

    /// Create a new file collector with default settings
    pub fn new() -> (collector: Self)
        ensures
            collector.spec_extensions() == seq!["cpp"@, "hpp"@],
    {
        let mut valid_extensions: Vec<String> = Vec::new();
        valid_extensions.push(String::from_str("cpp"));
        valid_extensions.push(String::from_str("hpp"));
        let collector = FileCollector { valid_extensions };
        assert(collector.spec_extensions() =~= seq!["cpp"@, "hpp"@]);
        collector
    }

    /// Create a new file collector with custom file extensions
    pub fn with_extensions(extensions: Vec<String>) -> (collector: Self)
        ensures
            collector.spec_extensions() == texts(extensions@),
    {
        FileCollector { valid_extensions: extensions }
    }

    /// Collect all files with valid extensions from the files found under a directory
    pub fn collect_files(&self, entries: &Vec<FilePath>) -> (files: Vec<FilePath>)
        ensures
            paths_view(files@) == paths_view(entries@).filter(
                with_extension_among(self.spec_extensions()),
            ),
    {
        let mut extensions: Vec<&str> = Vec::with_capacity(self.valid_extensions.len());
        let mut i: usize = 0;
        while i < self.valid_extensions.len()
            invariant
                i <= self.valid_extensions.len(),
                extensions.len() == i,
                forall|k: int| 0 <= k < i ==> (#[trigger] extensions@[k])@ == self.valid_extensions@[k]@,
            decreases self.valid_extensions.len() - i,
        {
            extensions.push(self.valid_extensions[i].as_str());
            i += 1;
        }
        assert(slice_texts(extensions@) =~= self.spec_extensions());
        get_files_with_extensions(entries, extensions.as_slice())
    }

    /// Add a valid file extension, unless it is there already
    pub fn add_extension(&mut self, extension: &str)
        ensures
            final(self).spec_extensions() == if old(self).spec_extensions().contains(extension@) {
                old(self).spec_extensions()
            } else {
                old(self).spec_extensions().push(extension@)
            },
    {
        let wanted = extension.to_owned();
        if !contains_text(&self.valid_extensions, &wanted) {
            self.valid_extensions.push(wanted);
            assert(self.spec_extensions() =~= old(self).spec_extensions().push(extension@));
        }
    }

    /// Get the list of valid file extensions
    pub fn extensions(&self) -> (extensions: &[String])
        ensures
            texts(extensions@) == self.spec_extensions(),
    {
        self.valid_extensions.as_slice()
    }
}

} // verus!
