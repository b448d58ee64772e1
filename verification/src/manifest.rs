//! The manifest format: one entry per line, an expected digest and a target
//! path separated by whitespace.

use vstd::prelude::*;
use crate::digest::{checksum_line, digest_text, lemma_digest_text_shape};

verus! {

/// Whether `c` is whitespace: a character with the Unicode property
/// `White_Space`.
pub open spec fn is_whitespace(c: char) -> bool {
    let n = c as u32;
    ||| 0x09 <= n <= 0x0D
    ||| n == 0x20
    ||| n == 0x85
    ||| n == 0xA0
    ||| n == 0x1680
    ||| 0x2000 <= n <= 0x200A
    ||| n == 0x2028
    ||| n == 0x2029
    ||| n == 0x202F
    ||| n == 0x205F
    ||| n == 0x3000
}

/// Decides whether `c` is whitespace.
pub fn char_is_whitespace(c: char) -> (white: bool)
    ensures
        white == is_whitespace(c),
{
    let n: u32 = c as u32;
    (0x09 <= n && n <= 0x0D) || n == 0x20 || n == 0x85 || n == 0xA0 || n == 0x1680 || (0x2000 <= n
        && n <= 0x200A) || n == 0x2028 || n == 0x2029 || n == 0x202F || n == 0x205F || n == 0x3000
}

/// The characters of `line`, in order.
fn chars_of(line: &str) -> (chars: Vec<char>)
    ensures
        chars@ == line@,
{
    let mut chars: Vec<char> = Vec::new();
    for c in it: line.chars()
        invariant
            chars@ == it.seq().take(it.index() as int),
    {
        chars.push(c);
    }
    chars
}

/// The tokens of a line: its maximal runs of characters that are not
/// whitespace, in order. A line that ends in whitespace has the tokens of the
/// line without that character; a character that is not whitespace extends the
/// token that the line ended in, or begins a new one.
pub open spec fn tokens(line: Seq<char>) -> Seq<Seq<char>>
    decreases line.len(),
{
    if line.len() == 0 {
        Seq::empty()
    } else {
        let before = tokens(line.drop_last());
        if is_whitespace(line.last()) {
            before
        } else if ends_in_token(line.drop_last()) {
            before.drop_last().push(before.last().push(line.last()))
        } else {
            before.push(seq![line.last()])
        }
    }
}

/// Whether the last character of `line` belongs to a token.
pub open spec fn ends_in_token(line: Seq<char>) -> bool {
    line.len() > 0 && !is_whitespace(line.last())
}

/// Whether `word` can stand as one token: it is not empty and holds no
/// whitespace.
pub open spec fn is_token(word: Seq<char>) -> bool {
    word.len() > 0 && forall|i: int| 0 <= i < word.len() ==> !is_whitespace(#[trigger] word[i])
}

/// A line that ends in a token has at least one token.
pub proof fn lemma_tokens_of_open_line(line: Seq<char>)
    requires
        ends_in_token(line),
    ensures
        tokens(line).len() > 0,
    decreases line.len(),
{
    if ends_in_token(line.drop_last()) {
        lemma_tokens_of_open_line(line.drop_last());
    }
}

/// Every token of a line is a word that can stand as one token: it is not
/// empty and holds no whitespace.
pub proof fn lemma_tokens_are_words(line: Seq<char>)
    ensures
        forall|k: int| 0 <= k < tokens(line).len() ==> is_token(#[trigger] tokens(line)[k]),
    decreases line.len(),
{
    if line.len() > 0 {
        lemma_tokens_are_words(line.drop_last());
        if ends_in_token(line.drop_last()) {
            lemma_tokens_of_open_line(line.drop_last());
        }
    }
}

/// Whether `gap` holds whitespace only.
pub open spec fn is_blank(gap: Seq<char>) -> bool {
    forall|i: int| 0 <= i < gap.len() ==> is_whitespace(#[trigger] gap[i])
}

/// Whitespace at the end of a line adds no token.
pub proof fn lemma_tokens_append_blank(line: Seq<char>, gap: Seq<char>)
    requires
        is_blank(gap),
    ensures
        tokens(line + gap) == tokens(line),
        gap.len() > 0 ==> !ends_in_token(line + gap),
    decreases gap.len(),
{
    if gap.len() > 0 {
        assert((line + gap).drop_last() =~= line + gap.drop_last());
        lemma_tokens_append_blank(line, gap.drop_last());
    }
}

/// A word written after a line that does not end in a token is one more
/// token, the last.
pub proof fn lemma_tokens_append_word(line: Seq<char>, word: Seq<char>)
    requires
        !ends_in_token(line),
        is_token(word),
    ensures
        tokens(line + word) == tokens(line).push(word),
        ends_in_token(line + word),
    decreases word.len(),
{
    assert((line + word).drop_last() =~= line + word.drop_last());
    if word.len() == 1 {
        assert(word =~= seq![word.last()]);
    } else {
        let shorter = word.drop_last();
        assert(is_token(shorter));
        lemma_tokens_append_word(line, shorter);
        assert(shorter.push(word.last()) =~= word);
    }
}

/// A line made of a digest and a path, with whitespace between them and
/// perhaps around them, has these two tokens and no other.
pub proof fn lemma_tokens_of_entry_line(
    lead: Seq<char>,
    digest: Seq<char>,
    gap: Seq<char>,
    path: Seq<char>,
    trail: Seq<char>,
)
    requires
        is_blank(lead),
        is_token(digest),
        is_blank(gap),
        gap.len() > 0,
        is_token(path),
        is_blank(trail),
    ensures
        tokens(lead + digest + gap + path + trail) == seq![digest, path],
{
    let none = Seq::<char>::empty();
    lemma_tokens_append_blank(none, lead);
    lemma_tokens_append_word(lead, digest);
    lemma_tokens_append_blank(lead + digest, gap);
    lemma_tokens_append_word(lead + digest + gap, path);
    lemma_tokens_append_blank(lead + digest + gap + path, trail);
}

/// One entry of a manifest.
#[derive(Debug)]
pub struct ManifestEntry {
    /// The digest that the manifest records for the target.
    pub expected_digest: String,
    /// The path of the target, as the manifest writes it.
    pub target_path: String,
}

/// What a manifest entry says, as plain text.
pub struct EntryText {
    pub expected_digest: Seq<char>,
    pub target_path: Seq<char>,
}

impl View for ManifestEntry {
    type V = EntryText;

    open spec fn view(&self) -> EntryText {
        EntryText { expected_digest: self.expected_digest@, target_path: self.target_path@ }
    }
}

impl ManifestEntry {
    /// Whether the entry can have come from a line: its digest and its path
    /// can each stand as one token.
    pub open spec fn well_formed(&self) -> bool {
        is_token(self.expected_digest@) && is_token(self.target_path@)
    }
}

/// The entry that a line holds: a line of exactly two tokens is well formed,
/// and says the digest first and the path second; any other line holds none.
pub open spec fn entry_of(line: Seq<char>) -> Option<EntryText> {
    let words = tokens(line);
    if words.len() == 2 {
        Some(EntryText { expected_digest: words[0], target_path: words[1] })
    } else {
        None
    }
}

/// A rendered digest can stand as one token.
pub proof fn lemma_digest_text_is_token(message: Seq<u8>)
    ensures
        is_token(digest_text(message)),
{
    lemma_digest_text_shape(message);
}

/// The checksum line that text mode writes for a file reads back as the
/// entry of its digest and its path, where the path can stand as one token.
pub proof fn lemma_text_line_reads_back(message: Seq<u8>, path: Seq<char>)
    requires
        is_token(path),
    ensures
        entry_of(checksum_line(digest_text(message), path, false)) == Some(
            EntryText { expected_digest: digest_text(message), target_path: path },
        ),
{
    let digest = digest_text(message);
    let none = Seq::<char>::empty();
    lemma_digest_text_is_token(message);
    lemma_tokens_of_entry_line(none, digest, seq![' '], path, none);
}

/// The checksum line that binary mode writes for a file is one token, and so
/// no entry: the mode character `*` is not whitespace.
pub proof fn lemma_binary_line_is_no_entry(message: Seq<u8>, path: Seq<char>)
    requires
        is_token(path),
    ensures
        tokens(checksum_line(digest_text(message), path, true)).len() == 1,
        entry_of(checksum_line(digest_text(message), path, true)) is None,
{
    let line = checksum_line(digest_text(message), path, true);
    lemma_digest_text_is_token(message);
    lemma_tokens_append_word(Seq::<char>::empty(), line);
}

/// Where the first two tokens of a line lie, and how many tokens it has.
struct Scan {
    count: usize,
    first_start: usize,
    first_end: usize,
    second_start: usize,
    second_end: usize,
}

/// Finds the tokens of `chars` in one pass.
fn scan_tokens(chars: &Vec<char>) -> (scan: Scan)
    ensures
        scan.count == tokens(chars@).len(),
        scan.count >= 1 ==> scan.first_start <= scan.first_end <= chars@.len() && tokens(
            chars@,
        )[0] == chars@.subrange(scan.first_start as int, scan.first_end as int),
        scan.count >= 2 ==> scan.second_start <= scan.second_end <= chars@.len() && tokens(
            chars@,
        )[1] == chars@.subrange(scan.second_start as int, scan.second_end as int),
{
    let mut scan = Scan { count: 0, first_start: 0, first_end: 0, second_start: 0, second_end: 0 };
    let mut in_token: bool = false;
    let mut i: usize = 0;
    while i < chars.len()
        invariant
            i <= chars@.len(),
            scan.count <= i,
            in_token == ends_in_token(chars@.take(i as int)),
            scan.count == tokens(chars@.take(i as int)).len(),
            scan.count >= 1 ==> scan.first_start <= scan.first_end <= i && tokens(
                chars@.take(i as int),
            )[0] == chars@.subrange(scan.first_start as int, scan.first_end as int),
            scan.count >= 2 ==> scan.second_start <= scan.second_end <= i && tokens(
                chars@.take(i as int),
            )[1] == chars@.subrange(scan.second_start as int, scan.second_end as int),
            in_token && scan.count == 1 ==> scan.first_end == i,
            in_token && scan.count == 2 ==> scan.second_end == i,
        decreases chars@.len() - i,
    {
        let c: char = chars[i];
        proof {
            assert(chars@.take(i + 1).drop_last() =~= chars@.take(i as int));
            if in_token {
                lemma_tokens_of_open_line(chars@.take(i as int));
            }
        }
        if char_is_whitespace(c) {
            in_token = false;
        } else if in_token {
            if scan.count == 1 {
                scan.first_end = i + 1;
            } else if scan.count == 2 {
                scan.second_end = i + 1;
            }
        } else {
            in_token = true;
            scan.count = scan.count + 1;
            if scan.count == 1 {
                scan.first_start = i;
                scan.first_end = i + 1;
            } else if scan.count == 2 {
                scan.second_start = i;
                scan.second_end = i + 1;
            }
        }
        i = i + 1;
    }
    assert(chars@.take(i as int) =~= chars@);
    scan
}

/// Reads one line of a manifest. The line is split at whitespace; with exactly
/// two tokens it is an entry, and with any other number it is malformed and
/// the result is `None`.
pub fn parse_manifest_line(line: &str) -> (entry: Option<ManifestEntry>)
    ensures
        match entry {
            Some(e) => entry_of(line@) == Some(e@) && e.well_formed(),
            None => entry_of(line@) is None,
        },
{
    proof {
        lemma_tokens_are_words(line@);
    }
    let chars: Vec<char> = chars_of(line);
    let scan: Scan = scan_tokens(&chars);
    if scan.count == 2 {
        let digest: &str = line.substring_char(scan.first_start, scan.first_end);
        let path: &str = line.substring_char(scan.second_start, scan.second_end);
        Some(
            ManifestEntry {
                expected_digest: String::from_str(digest),
                target_path: String::from_str(path),
            },
        )
    } else {
        None
    }
}

} // verus!
