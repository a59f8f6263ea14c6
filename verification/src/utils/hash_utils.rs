use sha2::{Digest, Sha256};
use vstd::prelude::*;
use vstd::string::*;
use vstd::utf8::encode_utf8;

use crate::utils::file_utils::{ScanError, SourceFile};
use crate::utils::text::concat_all;

verus! {

/// The SHA-256 digest of a byte string, written as 64 lowercase hexadecimal digits.
pub uninterp spec fn sha256_hex(bytes: Seq<u8>) -> Seq<char>;

/// The content hash of a text: the hexadecimal SHA-256 digest of its UTF-8 encoding.
pub open spec fn content_hash(text: Seq<char>) -> Seq<char> {
    sha256_hex(encode_utf8(text))
}

/// Runs `sha2::Sha256::digest` over the bytes and formats the digest with `{:x}`.
/// Trusted: the result is taken to be the digest that `sha256_hex` names.
#[verifier::external_body]
fn sha256_hex_digest(bytes: &[u8]) -> (digest: String)
    ensures
        digest@ == sha256_hex(bytes@),
{
    format!("{:x}", Sha256::digest(bytes))
}

/// Calculate the SHA-256 hash of a string.
pub fn hash_string(content: &str) -> (digest: String)
    ensures
        digest@ == content_hash(content@),
{
    sha256_hex_digest(content.as_bytes())
}

/// Calculate the SHA-256 hash of a file that was read; a file that could not be read gives
/// the read error
pub fn hash_file(file: &SourceFile) -> (result: Result<String, ScanError>)
    ensures
        match file.content {
            Ok(text) => result matches Ok(digest) && digest@ == content_hash(text@),
            Err(detail) => result matches Err(ScanError::Read { path, detail: reason }) && path@
                == file.path@ && reason@ == detail@,
        },
{
    match &file.content {
        Ok(text) => Ok(hash_string(text.as_str())),
        Err(detail) => Err(ScanError::Read { path: file.path.clone(), detail: detail.clone() }),
    }
}

/// The place of the first file that could not be read, if there is one.
pub open spec fn first_unreadable(files: Seq<SourceFile>) -> Option<int>
    decreases files.len(),
{
    if files.len() == 0 {
        None
    } else {
        match first_unreadable(files.drop_last()) {
            Some(k) => Some(k),
            None => if files.last().content is Err {
                Some(files.len() - 1)
            } else {
                None
            },
        }
    }
}

/// The texts of the files, for each file that was read.
pub open spec fn contents(files: Seq<SourceFile>) -> Seq<Seq<char>>
    decreases files.len(),
{
    if files.len() == 0 {
        Seq::empty()
    } else {
        match files.last().content {
            Ok(text) => contents(files.drop_last()).push(text@),
            Err(_) => contents(files.drop_last()),
        }
    }
}

/// Calculate one SHA-256 hash over the contents of several files that were read, taken in
/// order; the first file that could not be read gives its read error
pub fn hash_files(files: &[SourceFile]) -> (result: Result<String, ScanError>)
    ensures
        match first_unreadable(files@) {
            Some(k) => 0 <= k < files@.len() && files@[k].content is Err && (
            result matches Err(ScanError::Read { path, detail }) && path@ == files@[k].path@
                && detail@ == files@[k].content->Err_0@),
            None => result matches Ok(digest) && digest@ == content_hash(
                concat_all(contents(files@)),
            ),
        },
{
    let mut combined = String::new();
    let mut i: usize = 0;
    assert(files@.take(0) =~= Seq::empty());
    while i < files.len()
        invariant
            i <= files.len(),
            first_unreadable(files@.take(i as int)) is None,
            combined@ == concat_all(contents(files@.take(i as int))),
        decreases files.len() - i,
    {
        proof {
            let upto = files@.take(i + 1);
            assert(upto.drop_last() =~= files@.take(i as int));
            assert(upto.last() == files@[i as int]);
        }
        match &files[i].content {
            Ok(text) => {
                combined.append(text.as_str());
                proof {
                    let all = contents(files@.take(i + 1));
                    assert(all.drop_last() =~= contents(files@.take(i as int)));
                }
            },
            Err(detail) => {
                proof {
                    first_unreadable_from_prefix(files@, i + 1);
                }
                return Err(
                    ScanError::Read { path: files[i].path.clone(), detail: detail.clone() },
                );
            },
        }
        i += 1;
    }
    assert(files@.take(i as int) =~= files@);
    Ok(hash_string(combined.as_str()))
}

/// The first unreadable file among the first files is the first unreadable file of all.
pub proof fn first_unreadable_from_prefix(files: Seq<SourceFile>, upto: int)
    requires
        0 <= upto <= files.len(),
        first_unreadable(files.take(upto)) is Some,
    ensures
        first_unreadable(files) == first_unreadable(files.take(upto)),
    decreases files.len() - upto,
{
    if upto < files.len() {
        assert(files.take(upto + 1).drop_last() =~= files.take(upto));
        first_unreadable_from_prefix(files, upto + 1);
    } else {
        assert(files.take(upto) =~= files);
    }
}

} // verus!
