use regex::Regex;
use vstd::prelude::*;
use vstd::string::*;

use crate::class::values::Property;
use crate::utils::file_utils::SourceFile;
use crate::utils::text::{clone_opt, opt_text};

pub use crate::utils::file_utils::ScanError;

verus! {

/// The pattern of a class declaration: the word `class`, a name, optionally a colon and the
/// name of a parent, and then white space, an opening brace or a semicolon.
pub const CLASS_PATTERN: &'static str =
    "class\\s+([A-Za-z0-9_]+)(?:\\s*:\\s*([A-Za-z0-9_]+))?[\\s{;]";

/// The detail of the parse error that reports a class pattern that does not compile.
pub const PATTERN_FAILURE: &'static str = "the class pattern could not be compiled";

/// A class declaration as contracts see it.
pub struct ClassDeclaration {
    pub name: Seq<char>,
    pub parent: Option<Seq<char>>,
    pub file_path: Seq<char>,
}

/// A simplified class block representing a class found in a file
#[derive(Debug)]
pub struct ClassBlock {
    /// Name of the class
    pub name: String,
    /// Parent class name, if any
    pub parent: Option<String>,
    /// Path to the file where this class was found
    pub file_path: String,
}

impl View for ClassBlock {
    type V = ClassDeclaration;

    open spec fn view(&self) -> ClassDeclaration {
        ClassDeclaration {
            name: self.name@,
            parent: opt_text(self.parent),
            file_path: self.file_path@,
        }
    }
}

impl Clone for ClassBlock {
    fn clone(&self) -> (copy: Self)
        ensures
            copy@ == self@,
    {
        ClassBlock {
            name: self.name.clone(),
            parent: clone_opt(&self.parent),
            file_path: self.file_path.clone(),
        }
    }
}

/// The declarations of a list of class blocks.
pub open spec fn declarations(blocks: Seq<ClassBlock>) -> Seq<ClassDeclaration> {
    blocks.map_values(|b: ClassBlock| b@)
}

/// A class entity as an extractor hands it over: a class that may lack a name, with its
/// properties and the classes nested in it.
#[derive(Debug)]
pub struct Block {
    /// Name of the class
    pub name: Option<String>,
    /// Parent class name, if any
    pub parent: Option<String>,
    /// Properties of the class, in the order of the source
    pub properties: Vec<Property>,
    /// Content of the class block
    pub content: String,
    /// Nested blocks within this block
    pub children: Vec<Block>,
}

/// Tells whether a block is the bare entity of a declaration: its name and parent, and
/// nothing else.
pub open spec fn bare_block_of(block: Block, declaration: ClassDeclaration) -> bool {
    &&& opt_text(block.name) == Some(declaration.name)
    &&& opt_text(block.parent) == declaration.parent
    &&& block.properties@.len() == 0
    &&& block.content@.len() == 0
    &&& block.children@.len() == 0
}

/// What the `regex` crate finds when it searches a text for a pattern: nothing at all where
/// the pattern does not compile; otherwise, for each match from left to right, the text of
/// each capture group of the pattern, the whole match first, with `None` for a group that
/// took no part in the match.
pub uninterp spec fn regex_captures(pattern: Seq<char>, haystack: Seq<char>) -> Option<
    Seq<Seq<Option<Seq<char>>>>,
>;

/// Compiles the pattern with `regex::Regex::new` and walks the text with
/// `Regex::captures_iter`, copying out the text of every capture group of every match.
/// Trusted: the result is taken to be what `regex_captures` names, `None` standing for a
/// pattern that `Regex::new` refuses.
#[verifier::external_body]
fn search_captures(pattern: &str, haystack: &str) -> (found: Option<Vec<Vec<Option<String>>>>)
    ensures
        found.deep_view() == regex_captures(pattern@, haystack@),
{
    match Regex::new(pattern) {
        Ok(re) => Some(
            re.captures_iter(haystack).map(
                |caps| caps.iter().map(|group| group.map(|m| m.as_str().to_string())).collect(),
            ).collect(),
        ),
        Err(_) => None,
    }
}

/// The class that one match of the class pattern declares: its first group is the name and
/// its second, where it took part, the parent. A match without a name declares nothing.
pub open spec fn declared_class(groups: Seq<Option<Seq<char>>>, file_path: Seq<char>) -> Option<
    ClassDeclaration,
> {
    if groups.len() >= 2 && groups[1] is Some {
        Some(
            ClassDeclaration {
                name: groups[1]->0,
                parent: if groups.len() >= 3 {
                    groups[2]
                } else {
                    None
                },
                file_path,
            },
        )
    } else {
        None
    }
}

/// The classes that the matches of the class pattern declare, in the order of the matches.
pub open spec fn declared_classes(
    found: Seq<Seq<Option<Seq<char>>>>,
    file_path: Seq<char>,
) -> Seq<ClassDeclaration>
    decreases found.len(),
{
    if found.len() == 0 {
        Seq::empty()
    } else {
        let before = declared_classes(found.drop_last(), file_path);
        match declared_class(found.last(), file_path) {
            Some(declaration) => before.push(declaration),
            None => before,
        }
    }
}

/// What parsing a text gives: the classes that the class pattern finds in it, or a parse
/// error where the search cannot be made.
pub open spec fn parsed(content: Seq<char>, file_path: Seq<char>) -> Result<
    Seq<ClassDeclaration>,
    Seq<char>,
> {
    match regex_captures(CLASS_PATTERN@, content) {
        Some(found) => Ok(declared_classes(found, file_path)),
        None => Err(PATTERN_FAILURE@),
    }
}

/// The declarations of a parse result, or the detail of its error.
pub open spec fn parse_view(result: Result<Vec<ClassBlock>, ScanError>) -> Result<
    Seq<ClassDeclaration>,
    Seq<char>,
> {
    match result {
        Ok(blocks) => Ok(declarations(blocks@)),
        Err(error) => Err(error.spec_detail()),
    }
}

/// A simple parser that extracts class definitions from C++ files using a pattern
#[derive(Debug)]
pub struct SimpleParser {
    /// Whether to output verbose logs
    pub verbose: bool,
}

impl SimpleParser {
    /// Create a new simple parser
    pub fn new(verbose: bool) -> (parser: Self)
        ensures
            parser.verbose == verbose,
    {
        SimpleParser { verbose }
    }

    /// Turn the matches of the class pattern into class blocks of the given file
    pub fn blocks_from_captures(found: &Vec<Vec<Option<String>>>, file_path: &str) -> (blocks:
        Vec<ClassBlock>)
        ensures
            declarations(blocks@) == declared_classes(found.deep_view(), file_path@),
    {
        let mut blocks: Vec<ClassBlock> = Vec::new();
        let mut i: usize = 0;
        assert(declarations(blocks@) =~= Seq::empty());
        while i < found.len()
            invariant
                i <= found.len(),
                declarations(blocks@) == declared_classes(
                    found.deep_view().take(i as int),
                    file_path@,
                ),
            decreases found.len() - i,
        {
            let groups = &found[i];
            let ghost before = declarations(blocks@);
            proof {
                let upto = found.deep_view().take(i + 1);
                assert(upto.drop_last() =~= found.deep_view().take(i as int));
                assert(upto.last() == groups.deep_view());
                assert(groups.deep_view().len() == groups@.len());
                if groups@.len() >= 2 {
                    assert(groups.deep_view()[1] == groups@[1].deep_view());
                }
                if groups@.len() >= 3 {
                    assert(groups.deep_view()[2] == groups@[2].deep_view());
                }
            }
            if groups.len() >= 2 {
                if let Some(name) = &groups[1] {
                    let parent = if groups.len() >= 3 {
                        clone_opt(&groups[2])
                    } else {
                        None
                    };
                    blocks.push(
                        ClassBlock {
                            name: name.clone(),
                            parent,
                            file_path: file_path.to_owned(),
                        },
                    );
                    assert(declarations(blocks@) =~= before.push(blocks@.last()@));
                }
            }
            i += 1;
        }
        assert(found.deep_view().take(i as int) =~= found.deep_view());
        blocks
    }

    /// Parse content and extract class definitions
    pub fn parse_content(&self, content: String, file_path: &str) -> (result: Result<
        Vec<ClassBlock>,
        ScanError,
    >)
        ensures
            parse_view(result) == parsed(content@, file_path@),
            result matches Err(error) ==> error is Parse && error.spec_path() == file_path@,
    {
        self.parse_text(content.as_str(), file_path)
    }

    /// Parse a text and extract class definitions
    pub fn parse_text(&self, content: &str, file_path: &str) -> (result: Result<
        Vec<ClassBlock>,
        ScanError,
    >)
        ensures
            parse_view(result) == parsed(content@, file_path@),
            result matches Err(error) ==> error is Parse && error.spec_path() == file_path@,
    {
        match search_captures(CLASS_PATTERN, content) {
            Some(found) => Ok(Self::blocks_from_captures(&found, file_path)),
            None => Err(
                ScanError::Parse {
                    path: file_path.to_owned(),
                    detail: String::from_str(PATTERN_FAILURE),
                },
            ),
        }
    }

    /// Parse a file that was read and extract class definitions
    pub fn parse_file(&self, file: &SourceFile) -> (result: Result<Vec<ClassBlock>, ScanError>)
        ensures
            match file.content {
                Ok(content) => parse_view(result) == parsed(content@, file.path@) && (
                result matches Err(error) ==> error is Parse && error.spec_path() == file.path@),
                Err(detail) => result matches Err(ScanError::Read { path, detail: reason })
                    && path@ == file.path@ && reason@ == detail@,
            },
    {
        match &file.content {
            Ok(content) => self.parse_text(content.as_str(), file.path.as_str()),
            Err(detail) => Err(
                ScanError::Read { path: file.path.clone(), detail: detail.clone() },
            ),
        }
    }

    /// Convert our ClassBlock to the compatibility Block type
    pub fn to_blocks(&self, class_blocks: Vec<ClassBlock>) -> (blocks: Vec<Block>)
        ensures
            blocks@.len() == class_blocks@.len(),
            forall|k: int|
                0 <= k < blocks@.len() ==> bare_block_of(#[trigger] blocks@[k], class_blocks@[k]@),
    {
        let mut blocks: Vec<Block> = Vec::with_capacity(class_blocks.len());
        let mut i: usize = 0;
        while i < class_blocks.len()
            invariant
                i <= class_blocks.len(),
                blocks@.len() == i,
                forall|k: int|
                    0 <= k < i ==> bare_block_of(#[trigger] blocks@[k], class_blocks@[k]@),
            decreases class_blocks.len() - i,
        {
            let class_block = &class_blocks[i];
            blocks.push(
                Block {
                    name: Some(class_block.name.clone()),
                    parent: clone_opt(&class_block.parent),
                    properties: Vec::new(),
                    content: String::new(),
                    children: Vec::new(),
                },
            );
            i += 1;
        }
        blocks
    }
}

} // verus!
