//! Files held in memory: what the library opens where a path is named.

use vstd::prelude::*;

verus! {

/// A file held in memory: the path it is opened by, and its content.
#[derive(Debug)]
pub struct TargetFile {
    pub path: String,
    pub content: Vec<u8>,
}

/// Why a file could not be processed: it could not be opened.
#[derive(Debug)]
pub struct OpenError {
    /// The path that was asked for.
    pub path: String,
}

impl OpenError {
    /// The message of the error: `failed to open`, then the path.
    pub fn message(&self) -> (text: String)
        ensures
            text@ == "failed to open "@ + self.path@,
    {
        let mut text: String = String::from_str("failed to open ");
        text.append(self.path.as_str());
        text
    }
}

/// The content that `path` opens among `files`: that of the first file with
/// this path, if there is one.
pub open spec fn content_of(files: Seq<TargetFile>, path: Seq<char>) -> Option<Seq<u8>>
    decreases files.len(),
{
    if files.len() == 0 {
        None
    } else if files[0].path@ == path {
        Some(files[0].content@)
    } else {
        content_of(files.drop_first(), path)
    }
}

/// Opens `path` among `files`.
pub fn open_target<'a>(files: &'a Vec<TargetFile>, path: &str) -> (content: Option<&'a Vec<u8>>)
    ensures
        match content {
            Some(bytes) => content_of(files@, path@) == Some(bytes@),
            None => content_of(files@, path@) is None,
        },
{
    let wanted: String = String::from_str(path);
    let mut i: usize = 0;
    assert(files@.skip(0) =~= files@);
    while i < files.len()
        invariant
            i <= files@.len(),
            wanted@ == path@,
            content_of(files@, path@) == content_of(files@.skip(i as int), path@),
        decreases files@.len() - i,
    {
        assert(files@.skip(i as int).drop_first() =~= files@.skip(i + 1));
        if files[i].path == wanted {
            return Some(&files[i].content);
        }
        i = i + 1;
    }
    None
}

} // verus!
