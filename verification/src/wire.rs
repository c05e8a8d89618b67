//! Transfer of sixteen-bit words to and from bytes, most significant byte
//! first. The conversion itself is done by the `byteorder` crate; this module
//! states what it is taken to do and builds the word reader and the appending
//! writer on it.

use byteorder::{BigEndian, ReadBytesExt, WriteBytesExt};
use std::io::Cursor;
use vstd::prelude::*;
use vstd::slice::*;

verus! {

/// The word whose high byte is `hi` and whose low byte is `lo`.
pub open spec fn be_word(hi: u8, lo: u8) -> u16 {
    (hi as int * 256 + lo as int) as u16
}

/// The two bytes of `n`, high byte first.
pub open spec fn be_bytes(n: u16) -> Seq<u8> {
    seq![(n as int / 256) as u8, (n as int % 256) as u8]
}

/// The `index`-th big-endian word of `bytes`, counting words from zero.
pub open spec fn word_at(bytes: Seq<u8>, index: int) -> u16
    recommends
        0 <= index,
        2 * index + 2 <= bytes.len(),
{
    be_word(bytes[2 * index], bytes[2 * index + 1])
}

/// Reading back the bytes of a word gives the word.
pub proof fn lemma_be_round_trip(n: u16)
    ensures
        be_bytes(n).len() == 2,
        be_word(be_bytes(n)[0], be_bytes(n)[1]) == n,
{
}

/// Splitting a word that was read from two bytes gives those bytes.
pub proof fn lemma_be_bytes_of_word(hi: u8, lo: u8)
    ensures
        be_bytes(be_word(hi, lo)) == seq![hi, lo],
{
    assert(be_bytes(be_word(hi, lo)) =~= seq![hi, lo]);
}

/// The error type of std's I/O traits, carried through unopened.
#[verifier::external_type_specification]
#[verifier::external_body]
pub struct ExIoError(std::io::Error);

/// `byteorder::ReadBytesExt::read_u16` for `BigEndian`, on a cursor at the
/// start of `buf`: taken to give the word made of the first two bytes, high
/// byte first, where the slice holds two bytes or more, and to fail where it
/// holds fewer, since the two bytes are then not to be had. Nothing is claimed
/// of the error but that there is one.
#[verifier::external_body]
fn read_u16_be(buf: &[u8]) -> (r: Result<u16, std::io::Error>)
    ensures
        r is Ok <==> buf@.len() >= 2,
        r matches Ok(n) ==> n == be_word(buf@[0], buf@[1]),
{
    Cursor::new(buf).read_u16::<BigEndian>()
}

/// `byteorder::WriteBytesExt::write_u16` for `BigEndian` on a byte vector:
/// taken to append the two bytes of `n`, high byte first, and to succeed. A
/// byte vector takes a write by appending and grows as needed, so it has no
/// failure to report.
#[verifier::external_body]
fn write_u16_be(sink: &mut Vec<u8>, n: u16) -> (r: Result<(), std::io::Error>)
    ensures
        r is Ok,
        final(sink)@ == old(sink)@ + be_bytes(n),
{
    sink.write_u16::<BigEndian>(n)
}

/// Turns what the source said of a read into what callers are told: a word
/// stays that word, and a failure becomes the text in which the source's
/// error displays itself.
pub fn read_outcome(verdict: Result<u16, std::io::Error>) -> (r: Result<u16, String>)
    ensures
        verdict matches Ok(word) ==> r == Ok::<u16, String>(word),
        verdict matches Err(error) ==> r matches Err(text)
            && vstd::string::to_string_from_display_ensures::<std::io::Error>(&error, text),
{
    match verdict {
        Ok(word) => Ok(word),
        Err(error) => Err(error.to_string()),
    }
}

/// Reads the `index`-th big-endian word of `buffer`. The read starts where
/// that word starts, or at the end of the buffer if the word would start
/// beyond it, and fails exactly when the buffer ends before the word does;
/// the failure comes back as the source's own description of it.
pub fn read_word(buffer: &[u8], index: usize) -> (r: Result<u16, String>)
    ensures
        2 * index + 2 <= buffer@.len() ==> r == Ok::<u16, String>(
            word_at(buffer@, index as int),
        ),
        2 * index + 2 > buffer@.len() ==> r is Err,
{
    let len = buffer.len();
    let start: usize = if index <= len / 2 {
        2 * index
    } else {
        len
    };
    let rest = slice_subrange(buffer, start, len);
    let verdict = read_u16_be(rest);
    read_outcome(verdict)
}

/// Appends `word` to `sink`, high byte first. A byte vector takes every
/// word, so the result is always `Ok`.
pub fn write_word(sink: &mut Vec<u8>, word: u16) -> (r: Result<(), String>)
    ensures
        r is Ok,
        final(sink)@ == old(sink)@ + be_bytes(word),
{
    let verdict = write_u16_be(sink, word);
    sink_outcome(verdict)
}

/// Turns what the sink said of a write into what callers are told: success
/// stays success, and a failure becomes the text in which the sink's error
/// displays itself.
pub fn sink_outcome(verdict: Result<(), std::io::Error>) -> (r: Result<(), String>)
    ensures
        verdict is Ok <==> r is Ok,
        verdict matches Err(error) ==> r matches Err(text)
            && vstd::string::to_string_from_display_ensures::<std::io::Error>(&error, text),
{
    match verdict {
        Ok(()) => Ok(()),
        Err(error) => Err(error.to_string()),
    }
}

} // verus!
