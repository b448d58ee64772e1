//! The digest engine: an incremental MD5 accumulator that is fed a stream
//! chunk by chunk, the rendering of its result, and the checksum line.

use vstd::prelude::*;
use md5::Digest;
use crate::files::{content_of, open_target, OpenError, TargetFile};
use crate::hex::{hex_lower, is_lower_hex_text, lemma_hex_lower_shape, to_hex};

verus! {

/// The largest chunk that one read of a stream hands to the engine.
pub const CHUNK_SIZE: usize = 1024;

/// The number of characters in a rendered digest.
pub const DIGEST_TEXT_LEN: usize = 32;

/// An MD5 accumulator of the `md5` crate (`md5::Md5`). A value stands for the
/// accumulator together with the bytes it has been fed since it was made;
/// nothing inside it is visible to the verifier. `md5::Md5` is an alias of a
/// generic type whose bounds the verifier does not take, so it is held here
/// and not declared on its own.
#[verifier::external_body]
pub struct Md5State {
    inner: md5::Md5,
}

/// The bytes that an accumulator has been fed since it was made, in order.
pub uninterp spec fn absorbed(state: Md5State) -> Seq<u8>;

/// The MD5 digest of a message, as `md5::Md5` computes it: sixteen bytes that
/// depend on the message alone.
pub uninterp spec fn md5_digest(message: Seq<u8>) -> [u8; 16];

/// `Md5::new` of the `md5` crate: a fresh accumulator, which has been fed
/// nothing.
#[verifier::external_body]
fn hasher_new() -> (state: Md5State)
    ensures
        absorbed(state) == Seq::<u8>::empty(),
{
    Md5State { inner: md5::Md5::new() }
}

/// `Md5::update` of the `md5` crate: feeds `chunk` to the accumulator, after
/// what it was fed before. It accepts every chunk.
#[verifier::external_body]
fn hasher_update(state: &mut Md5State, chunk: &[u8])
    ensures
        absorbed(*final(state)) == absorbed(*old(state)) + chunk@,
{
    state.inner.update(chunk);
}

/// `Md5::finalize` of the `md5` crate: consumes the accumulator and gives the
/// MD5 digest of all that it was fed, as sixteen bytes.
#[verifier::external_body]
fn hasher_finalize(state: Md5State) -> (digest: [u8; 16])
    ensures
        digest == md5_digest(absorbed(state)),
{
    state.inner.finalize().into()
}

/// The rendered digest of a message: its MD5 digest in lowercase hexadecimal.
pub open spec fn digest_text(message: Seq<u8>) -> Seq<char> {
    hex_lower(md5_digest(message)@)
}

/// A rendered digest is thirty-two lowercase hexadecimal characters, whatever
/// the message.
pub proof fn lemma_digest_text_shape(message: Seq<u8>)
    ensures
        digest_text(message).len() == DIGEST_TEXT_LEN,
        is_lower_hex_text(digest_text(message)),
{
    let digest: [u8; 16] = md5_digest(message);
    vstd::array::array_len_matches_n(&digest);
    lemma_hex_lower_shape(digest@);
}

/// The rendered digest depends on the bytes of the message and on nothing
/// else: equal messages have equal rendered digests.
pub proof fn lemma_digest_deterministic(first: Seq<u8>, second: Seq<u8>)
    requires
        first =~= second,
    ensures
        digest_text(first) == digest_text(second),
{
}

/// A digest computation in progress. Its view is the stream consumed so far.
pub struct DigestEngine {
    state: Md5State,
}

impl View for DigestEngine {
    type V = Seq<u8>;

    closed spec fn view(&self) -> Seq<u8> {
        absorbed(self.state)
    }
}

impl DigestEngine {
    /// An engine that has consumed nothing yet.
    pub fn new() -> (engine: Self)
        ensures
            engine@ == Seq::<u8>::empty(),
    {
        DigestEngine { state: hasher_new() }
    }

    /// Takes what one read of the stream gave. A non-empty chunk is consumed
    /// and more is expected; an empty chunk marks the end of the stream, and
    /// the result is `false`.
    pub fn absorb(&mut self, chunk: &[u8]) -> (more: bool)
        ensures
            more == (chunk@.len() > 0),
            final(self)@ == old(self)@ + chunk@,
    {
        if chunk.len() == 0 {
            false
        } else {
            hasher_update(&mut self.state, chunk);
            true
        }
    }

    /// Ends the computation: the rendered digest of the whole stream.
    pub fn finish(self) -> (text: String)
        ensures
            text@ == digest_text(self@),
            text@.len() == DIGEST_TEXT_LEN,
            is_lower_hex_text(text@),
    {
        proof {
            lemma_digest_text_shape(self@);
        }
        let digest: [u8; 16] = hasher_finalize(self.state);
        to_hex(digest.as_slice())
    }
}

/// The rendered MD5 digest of the stream `data`, which is read once, front to
/// back, a chunk at a time.
pub fn compute_md5(data: &[u8]) -> (text: String)
    ensures
        text@ == digest_text(data@),
        text@.len() == DIGEST_TEXT_LEN,
        is_lower_hex_text(text@),
{
    let mut engine: DigestEngine = DigestEngine::new();
    let mut pos: usize = 0;
    loop
        invariant
            pos <= data@.len(),
            engine@ == data@.take(pos as int),
        ensures
            engine@ == data@,
        decreases data@.len() - pos,
    {
        let remaining: usize = data.len() - pos;
        let count: usize = if remaining < CHUNK_SIZE {
            remaining
        } else {
            CHUNK_SIZE
        };
        let chunk: &[u8] = &data[pos..pos + count];
        let more: bool = engine.absorb(chunk);
        if !more {
            break ;
        }
        pos = pos + count;
    }
    engine.finish()
}

/// The character between digest and path in a checksum line: `*` where the
/// input was declared binary, a space where it was not.
pub open spec fn mode_char(binary: bool) -> char {
    if binary {
        '*'
    } else {
        ' '
    }
}

/// The checksum line of a digest and a path: the digest, the mode
/// character, the path.
pub open spec fn checksum_line(digest: Seq<char>, path: Seq<char>, binary: bool) -> Seq<char> {
    digest + seq![mode_char(binary)] + path
}

/// Renders the checksum line of `digest` and `path`.
pub fn format_line(digest: &str, path: &str, binary: bool) -> (line: String)
    ensures
        line@ == checksum_line(digest@, path@, binary),
{
    proof {
        reveal_strlit("*");
        reveal_strlit(" ");
    }
    let mode: &'static str = if binary {
        "*"
    } else {
        " "
    };
    let mut line: String = String::from_str(digest);
    line.append(mode);
    line.append(path);
    line
}

/// The checksum line of one file: its digest, the mode character, its path.
/// Fails exactly when the file cannot be opened.
pub fn process_file(
    path: &str,
    binary: bool,
    files: &Vec<TargetFile>,
) -> (line: Result<String, OpenError>)
    ensures
        match line {
            Ok(text) => content_of(files@, path@) matches Some(bytes) && text@ == checksum_line(
                digest_text(bytes),
                path@,
                binary,
            ),
            Err(error) => content_of(files@, path@) is None && error.path@ == path@,
        },
{
    match open_target(files, path) {
        Some(content) => {
            let digest: String = compute_md5(content.as_slice());
            Ok(format_line(digest.as_str(), path, binary))
        },
        None => Err(OpenError { path: String::from_str(path) }),
    }
}

} // verus!
