//! Repository metadata for display, made from what two `git` commands print.

use vstd::prelude::*;
use vstd::utf8::{decode_utf8, encode_utf8, is_char_boundary, valid_utf8};
use crate::text::{trim, trimmed};

verus! {

/// The text that a lossy decoding of `bytes` as UTF-8 gives: the decoded
/// characters, with a replacement character for what is not valid UTF-8.
pub uninterp spec fn lossy_text(bytes: Seq<u8>) -> Seq<char>;

/// Calls `String::from_utf8_lossy`. Its result is taken on trust to depend on
/// the bytes alone and, where they are valid UTF-8, to be their decoding.
#[verifier::external_body]
fn decode_lossy(bytes: &[u8]) -> (s: String)
    ensures
        s@ == lossy_text(bytes@),
        valid_utf8(bytes@) ==> s@ == decode_utf8(bytes@),
{
    String::from_utf8_lossy(bytes).into_owned()
}

/// The longest commit subject, in bytes of UTF-8, that is shown whole.
pub const SUBJECT_MAX: usize = 50;

/// The number of bytes kept of a longer subject, before the ellipsis.
pub const SUBJECT_KEPT: usize = 47;

/// The last character boundary of `bytes` at or before `at`.
pub open spec fn floor_boundary(bytes: Seq<u8>, at: int) -> int
    decreases at,
{
    if at <= 0 {
        0
    } else if is_char_boundary(bytes, at) {
        at
    } else {
        floor_boundary(bytes, at - 1)
    }
}

/// A commit subject as it is shown: whole when it takes at most
/// `SUBJECT_MAX` bytes, else cut at the last character boundary within
/// `SUBJECT_KEPT` bytes and followed by an ellipsis.
pub open spec fn shortened(message: Seq<char>) -> Seq<char> {
    let bytes = encode_utf8(message);
    if bytes.len() <= SUBJECT_MAX {
        message
    } else {
        decode_utf8(bytes.subrange(0, floor_boundary(bytes, SUBJECT_KEPT as int))) + "..."@
    }
}

/// Shortens a commit subject for display.
pub fn shorten(message: &str) -> (out: String)
    ensures
        out@ == shortened(message@),
{
    broadcast use vstd::utf8::group_utf8_lib;

    if message.as_bytes().len() <= SUBJECT_MAX {
        return message.to_string();
    }
    let ghost bytes = encode_utf8(message@);
    let mut cut: usize = SUBJECT_KEPT;
    while !message.is_char_boundary(cut)
        invariant
            cut <= SUBJECT_KEPT,
            bytes == encode_utf8(message@),
            valid_utf8(bytes),
            floor_boundary(bytes, SUBJECT_KEPT as int) == floor_boundary(bytes, cut as int),
        decreases cut,
    {
        assert(cut > 0) by {
            vstd::utf8::is_char_boundary_start_end_of_seq(bytes);
        }
        cut -= 1;
    }
    assert(floor_boundary(bytes, cut as int) == cut);
    let (head, _) = message.split_at(cut);
    proof {
        assert(encode_utf8(head@) == bytes.subrange(0, cut as int));
        vstd::utf8::encode_utf8_decode_utf8(head@);
    }
    let mut out = head.to_string();
    out.append("...");
    out
}

/// The branch name in what `git rev-parse --abbrev-ref HEAD` printed, where
/// the command ran and succeeded: its output decoded and trimmed.
pub open spec fn branch_text(output: Option<Seq<u8>>) -> Option<Seq<char>> {
    match output {
        Some(bytes) => Some(trimmed(lossy_text(bytes))),
        None => None,
    }
}

/// The commit subject in what `git log -1 --pretty=%s` printed, where the
/// command ran and succeeded: its output decoded, trimmed and shortened.
pub open spec fn commit_text(output: Option<Seq<u8>>) -> Option<Seq<char>> {
    match output {
        Some(bytes) => Some(shortened(trimmed(lossy_text(bytes)))),
        None => None,
    }
}

/// The bytes of an optional slice.
pub open spec fn bytes_of(output: Option<&[u8]>) -> Option<Seq<u8>> {
    match output {
        Some(bytes) => Some(bytes@),
        None => None,
    }
}

/// The current branch, from the standard output of
/// `git rev-parse --abbrev-ref HEAD`; `None` stands for a command that
/// could not be run or did not succeed.
pub fn get_current_branch(output: Option<&[u8]>) -> (branch: Option<String>)
    ensures
        crate::cli::text_of(branch) == branch_text(bytes_of(output)),
{
    match output {
        Some(bytes) => {
            let text = decode_lossy(bytes);
            Some(trim(text.as_str()))
        },
        None => None,
    }
}

/// The subject of the last commit, from the standard output of
/// `git log -1 --pretty=%s`; `None` stands for a command that could not be
/// run or did not succeed.
pub fn get_last_commit_message(output: Option<&[u8]>) -> (message: Option<String>)
    ensures
        crate::cli::text_of(message) == commit_text(bytes_of(output)),
{
    match output {
        Some(bytes) => {
            let text = decode_lossy(bytes);
            let subject = trim(text.as_str());
            Some(shorten(subject.as_str()))
        },
        None => None,
    }
}

/// The branch and the last commit of a repository, ready for display.
#[derive(Debug, Clone, PartialEq, Eq)]
pub struct GitInfo {
    pub branch: String,
    pub last_commit: String,
}

impl Default for GitInfo {
    fn default() -> (info: Self)
        ensures
            info.branch@ == Seq::<char>::empty(),
            info.last_commit@ == Seq::<char>::empty(),
    {
        GitInfo { branch: String::new(), last_commit: String::new() }
    }
}

impl GitInfo {
    /// The repository's metadata from the output of the two `git` commands,
    /// with a fallback text for each command that gave none.
    pub fn fetch(branch_output: Option<&[u8]>, commit_output: Option<&[u8]>) -> (info: Self)
        ensures
            info.branch@ == (match branch_text(bytes_of(branch_output)) {
                Some(branch) => branch,
                None => "unknown"@,
            }),
            info.last_commit@ == (match commit_text(bytes_of(commit_output)) {
                Some(message) => message,
                None => "no commits"@,
            }),
    {
        let branch = match get_current_branch(branch_output) {
            Some(branch) => branch,
            None => "unknown".to_string(),
        };
        let last_commit = match get_last_commit_message(commit_output) {
            Some(message) => message,
            None => "no commits".to_string(),
        };
        GitInfo { branch, last_commit }
    }

    /// The branch and the last commit on one line.
    pub fn display(&self) -> (line: String)
        ensures
            line@ == self.branch@ + " | "@ + self.last_commit@,
    {
        let mut line = self.branch.clone();
        line.append(" | ");
        line.append(self.last_commit.as_str());
        line
    }
}

} // verus!
