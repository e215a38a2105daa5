//! Workloads: random text and random bytes of a wanted size, and the text
//! corpus.

use vstd::prelude::*;
use vstd::utf8::{decode_utf8, valid_utf8};

verus! {

/// The handle to the thread's random generator, `rand::rngs::ThreadRng`.
/// Nothing is known of its state.
#[verifier::external_type_specification]
#[verifier::external_body]
pub struct ExThreadRng(rand::rngs::ThreadRng);

/// Whether `c` is an ASCII letter or digit.
pub open spec fn is_alphanumeric(c: char) -> bool {
    ('0' <= c && c <= '9') || ('a' <= c && c <= 'z') || ('A' <= c && c <= 'Z')
}

/// Whether `text` is made of `size` ASCII letters and digits.
pub open spec fn is_random_text(text: Seq<char>, size: nat) -> bool {
    text.len() == size && forall|i: int| 0 <= i < text.len() ==> is_alphanumeric(#[trigger] text[i])
}

/// The length that a random 32-bit value stands for: the value scaled down
/// from the 32-bit range to the lengths below 2048.
pub open spec fn scaled_length(random: u32) -> nat {
    (random as nat * 2048) / 0x1_0000_0000
}

/// `rand::rng` hands out the thread's generator. Nothing is claimed of it.
/// It panics where the system offers no entropy to seed the generator.
pub assume_specification[ rand::rng ]() -> (generator: rand::rngs::ThreadRng);

/// `RngCore::next_u32` of the thread's generator: a fresh random value.
/// Nothing is claimed of it.
#[verifier::external_body]
fn gen_u32(generator: &mut rand::rngs::ThreadRng) -> (random: u32) {
    rand::RngCore::next_u32(generator)
}

/// `SampleString::sample_string` of `rand::distr::Alphanumeric`: a string
/// of `size` characters, each drawn from the ASCII letters and digits.
#[verifier::external_body]
pub(crate) fn gen_str(generator: &mut rand::rngs::ThreadRng, size: usize) -> (text: String)
    ensures
        is_random_text(text@, size as nat),
{
    rand::distr::SampleString::sample_string(&rand::distr::Alphanumeric, generator, size)
}

/// `RngCore::fill_bytes` of the thread's generator overwrites every byte of
/// the buffer with random data; the buffer keeps its length.
#[verifier::external_body]
fn fill_bytes(generator: &mut rand::rngs::ThreadRng, buffer: &mut Vec<u8>)
    ensures
        final(buffer)@.len() == old(buffer)@.len(),
{
    rand::RngCore::fill_bytes(generator, buffer.as_mut_slice())
}

/// `String::from_utf8` decodes bytes as UTF-8 text, and refuses them where
/// they are no valid UTF-8.
#[verifier::external_body]
fn text_from_bytes(data: Vec<u8>) -> (text: Option<String>)
    ensures
        text.is_some() <==> valid_utf8(data@),
        text matches Some(t) ==> t@ == decode_utf8(data@),
{
    String::from_utf8(data).ok()
}

/// Draws `size` random bytes from `generator`.
pub(crate) fn gen_bytes(generator: &mut rand::rngs::ThreadRng, size: usize) -> (bytes: Vec<u8>)
    ensures
        bytes@.len() == size,
{
    let mut bytes: Vec<u8> = vec![0u8; size];
    fill_bytes(generator, &mut bytes);
    bytes
}

/// Scales a random 32-bit value down to a length below 2048.
pub fn scale_length(random: u32) -> (size: usize)
    ensures
        size as nat == scaled_length(random),
        size < 2048,
{
    let wide: u64 = random as u64 * 2048;
    (wide / 0x1_0000_0000) as usize
}

/// A random text whose length is itself random, below 2048.
pub fn sample_string() -> (text: String)
    ensures
        exists|random: u32| is_random_text(text@, #[trigger] scaled_length(random)),
        text@.len() < 2048,
{
    let mut generator: rand::rngs::ThreadRng = rand::rng();
    let random: u32 = gen_u32(&mut generator);
    let size: usize = scale_length(random);
    gen_str(&mut generator, size)
}

/// A random text of exactly `size` ASCII letters and digits.
pub fn random_string(size: usize) -> (text: String)
    ensures
        is_random_text(text@, size as nat),
{
    let mut generator: rand::rngs::ThreadRng = rand::rng();
    gen_str(&mut generator, size)
}

/// Exactly `size` random bytes.
pub fn random_bytes(size: usize) -> (bytes: Vec<u8>)
    ensures
        bytes@.len() == size,
{
    let mut generator: rand::rngs::ThreadRng = rand::rng();
    gen_bytes(&mut generator, size)
}

/// Where the corpus is kept.
pub const BIBLE_PATH: &'static str = "/code/meow/data/lolcat/bible.xml";

/// Why the corpus could not be had.
#[derive(Debug, Clone, Copy, PartialEq, Eq, Structural)]
pub enum CorpusLoadError {
    /// The file could not be read.
    Unreadable,
    /// The file holds bytes that are no UTF-8 text.
    NotText,
}

/// What `bible` makes of the outcome of reading the corpus file.
pub open spec fn corpus_of(contents: Option<Seq<u8>>) -> Result<Seq<char>, CorpusLoadError> {
    match contents {
        None => Err(CorpusLoadError::Unreadable),
        Some(data) => if valid_utf8(data) {
            Ok(decode_utf8(data))
        } else {
            Err(CorpusLoadError::NotText)
        },
    }
}

/// The view of what was read, if anything was.
pub open spec fn contents_view(contents: Option<Vec<u8>>) -> Option<Seq<u8>> {
    match contents {
        None => None,
        Some(data) => Some(data@),
    }
}

/// The corpus as text, from the outcome of reading its file: `None` where
/// the file could not be read, else its bytes. A corpus that is missing or
/// is no text is an error; nothing partial is returned.
pub fn bible(contents: Option<Vec<u8>>) -> (corpus: Result<String, CorpusLoadError>)
    ensures
        match corpus_of(contents_view(contents)) {
            Ok(text) => corpus.is_ok() && corpus.unwrap()@ == text,
            Err(e) => corpus == Err::<String, CorpusLoadError>(e),
        },
{
    match contents {
        None => Err(CorpusLoadError::Unreadable),
        Some(data) => match text_from_bytes(data) {
            Some(text) => Ok(text),
            None => Err(CorpusLoadError::NotText),
        },
    }
}

} // verus!
