//! The storage that a caller offers to NVML and reads back: fixed-capacity
//! buffers of zero-terminated text, arrays of which the call reports how many
//! entries it wrote, and the zero-terminated copies of strings that go in.
//!
//! Nothing here reads past what NVML wrote: text ends at the first zero byte,
//! and an array at the count that the call wrote back, whatever capacity was
//! offered. Nothing reads past the storage either.

use vstd::prelude::*;
use vstd::utf8::{decode_utf8, encode_utf8, valid_utf8};
use vstd::slice::{slice_subrange, slice_to_vec};
use crate::errors::{Error, ErrorKind};

verus! {

/// A result seen through the view of what it holds.
pub open spec fn view_result<T: View>(result: Result<T, Error>) -> Result<T::V, Error> {
    match result {
        Ok(value) => Ok(value@),
        Err(error) => Err(error),
    }
}

/// The number of bytes before the first zero byte; the number of all bytes
/// where none is zero.
pub open spec fn text_len(bytes: Seq<u8>) -> nat
    decreases bytes.len(),
{
    if bytes.len() == 0 || bytes[0] == 0 {
        0
    } else {
        1 + text_len(bytes.drop_first())
    }
}

/// The bytes of the text in a buffer: those before the terminator.
pub open spec fn text_bytes(bytes: Seq<u8>) -> Seq<u8> {
    bytes.take(text_len(bytes) as int)
}

/// The text in a buffer, or `Utf8DecodeError` where the bytes before the
/// terminator are not valid UTF-8.
pub open spec fn text_of(bytes: Seq<u8>) -> Result<Seq<char>, Error> {
    if valid_utf8(text_bytes(bytes)) {
        Ok(decode_utf8(text_bytes(bytes)))
    } else {
        Err(Error::of(ErrorKind::Utf8DecodeError))
    }
}

/// The text in `bytes` has the length `n` where no byte before `n` is zero
/// and `n` is the place of a zero byte or the end of the buffer.
pub proof fn lemma_text_len(bytes: Seq<u8>, n: int)
    requires
        0 <= n <= bytes.len(),
        forall|i: int| 0 <= i < n ==> bytes[i] != 0,
        n < bytes.len() ==> bytes[n] == 0,
    ensures
        text_len(bytes) == n,
    decreases n,
{
    if n > 0 {
        let rest = bytes.drop_first();
        assert(bytes[0] != 0);
        assert forall|i: int| 0 <= i < n - 1 implies rest[i] != 0 by {
            assert(rest[i] == bytes[i + 1]);
        }
        lemma_text_len(rest, n - 1);
    }
}

/// What follows the terminator does not matter: a buffer that starts with
/// `content`, which holds no zero byte, then a zero byte, then anything,
/// holds the text `content`.
pub proof fn lemma_text_ignores_rest(content: Seq<u8>, rest: Seq<u8>)
    requires
        forall|i: int| 0 <= i < content.len() ==> content[i] != 0,
    ensures
        text_bytes(content + seq![0u8] + rest) == content,
        text_of(content + seq![0u8] + rest) == text_of(content + seq![0u8]),
{
    let buffer = content + seq![0u8] + rest;
    lemma_text_len(buffer, content.len() as int);
    assert(text_bytes(buffer) =~= content);
    let bare = content + seq![0u8];
    lemma_text_len(bare, content.len() as int);
    assert(text_bytes(bare) =~= content);
}

/// A buffer is read for its text alone: two buffers that hold the same bytes
/// before their terminators give the same text or the same error, whatever
/// else they hold. So a query that NVML answers with the same text twice
/// gives the same result twice.
pub proof fn lemma_same_text_same_result(first: Seq<u8>, second: Seq<u8>)
    requires
        text_bytes(first) == text_bytes(second),
    ensures
        text_of(first) == text_of(second),
{
}

/// The number of bytes before the terminator of `buffer`: the place of its
/// first zero byte, or its length where it holds none.
pub fn terminator(buffer: &[u8]) -> (n: usize)
    ensures
        n == text_len(buffer@),
        n <= buffer@.len(),
        forall|i: int| 0 <= i < n ==> buffer@[i] != 0,
        n < buffer@.len() ==> buffer@[n as int] == 0,
{
    let mut i: usize = 0;
    while i < buffer.len() && buffer[i] != 0
        invariant
            i <= buffer.len(),
            forall|j: int| 0 <= j < i ==> buffer@[j] != 0,
        decreases buffer.len() - i,
    {
        i += 1;
    }
    proof {
        lemma_text_len(buffer@, i as int);
    }
    i
}

/// `core::str::from_utf8`: the bytes as text, exactly when they are valid
/// UTF-8, and then the text that they encode.
#[verifier::external_body]
fn utf8_text(bytes: &[u8]) -> (text: Option<&str>)
    ensures
        text is Some <==> valid_utf8(bytes@),
        text matches Some(s) ==> s@ == decode_utf8(bytes@),
{
    match core::str::from_utf8(bytes) {
        Ok(text) => Some(text),
        Err(_) => None,
    }
}

/// Decodes the zero-terminated text in a buffer that NVML filled. Bytes
/// after the terminator are ignored. Fails with `Utf8DecodeError` where the
/// bytes before it are not valid UTF-8.
pub fn decode_text(buffer: &[u8]) -> (result: Result<String, Error>)
    ensures
        view_result(result) == text_of(buffer@),
{
    let n: usize = terminator(buffer);
    let content = slice_subrange(buffer, 0, n);
    assert(content@ == text_bytes(buffer@));
    match utf8_text(content) {
        Some(text) => Ok(text.to_owned()),
        None => Err(Error::new(ErrorKind::Utf8DecodeError)),
    }
}

/// The entries of an array that a call filled: the first `count` of them,
/// all of them where the count is larger than the array.
pub open spec fn filled<T>(count: u32, items: Seq<T>) -> Seq<T> {
    if count <= items.len() {
        items.take(count as int)
    } else {
        items
    }
}

/// A call that reported `count` entries into room for at least as many
/// filled exactly `count` of them.
pub proof fn lemma_filled_len<T>(count: u32, items: Seq<T>)
    requires
        count <= items.len(),
    ensures
        filled(count, items).len() == count,
{
}

/// Entries after the count do not matter: two arrays that agree on their
/// first `count` entries are filled alike.
pub proof fn lemma_filled_ignores_rest<T>(count: u32, a: Seq<T>, b: Seq<T>)
    requires
        count <= a.len(),
        count <= b.len(),
        forall|i: int| 0 <= i < count ==> a[i] == b[i],
    ensures
        filled(count, a) == filled(count, b),
{
    assert(filled(count, a) =~= filled(count, b));
}

/// How many entries of an array of `len` entries a call filled that
/// reported `count`.
pub fn filled_len(count: u32, len: usize) -> (n: usize)
    ensures
        n == if count <= len { count as int } else { len as int },
{
    if (count as u64) <= (len as u64) {
        count as usize
    } else {
        len
    }
}

/// The entries of `items` that a call filled which reported `count`.
pub fn take_filled<T: Copy>(count: u32, items: &[T]) -> (taken: Vec<T>)
    ensures
        taken@ == filled(count, items@),
{
    let n: usize = filled_len(count, items.len());
    let taken = slice_to_vec(slice_subrange(items, 0, n));
    assert(taken@ =~= filled(count, items@));
    taken
}

/// The bytes that stand for `text` on the native side: its UTF-8 encoding
/// and a terminating zero byte. `UnexpectedNullByte` where the encoding
/// holds a zero byte itself.
pub open spec fn c_string_of(text: Seq<char>) -> Result<Seq<u8>, Error> {
    if encode_utf8(text).contains(0u8) {
        Err(Error::of(ErrorKind::UnexpectedNullByte))
    } else {
        Ok(encode_utf8(text) + seq![0u8])
    }
}

/// Text that goes to NVML as a zero-terminated string reads back, from a
/// buffer that starts with that string, as the same text, whatever follows
/// in the buffer.
pub proof fn lemma_c_string_reads_back(text: Seq<char>, rest: Seq<u8>)
    requires
        c_string_of(text) is Ok,
    ensures
        text_of(c_string_of(text)->Ok_0 + rest) == Ok::<Seq<char>, Error>(text),
{
    broadcast use {vstd::utf8::encode_utf8_valid_utf8, vstd::utf8::encode_utf8_decode_utf8};

    let content = encode_utf8(text);
    assert forall|i: int| 0 <= i < content.len() implies content[i] != 0 by {
        if content[i] == 0 {
            assert(content.contains(0u8));
        }
    }
    lemma_text_ignores_rest(content, rest);
}

/// The zero-terminated copy of `text` that is handed to NVML. Fails with
/// `UnexpectedNullByte` where `text` holds a zero byte.
pub fn c_string(text: &str) -> (result: Result<Vec<u8>, Error>)
    ensures
        view_result(result) == c_string_of(text@),
{
    let bytes = text.as_bytes();
    let mut copy: Vec<u8> = Vec::new();
    let mut i: usize = 0;
    while i < bytes.len()
        invariant
            i <= bytes.len(),
            bytes@ == encode_utf8(text@),
            copy@ == bytes@.take(i as int),
            forall|j: int| 0 <= j < i ==> bytes@[j] != 0,
        decreases bytes.len() - i,
    {
        if bytes[i] == 0 {
            assert(bytes@.contains(0u8));
            return Err(Error::new(ErrorKind::UnexpectedNullByte));
        }
        copy.push(bytes[i]);
        assert(copy@ =~= bytes@.take(i + 1));
        i += 1;
    }
    assert(bytes@.take(i as int) =~= bytes@);
    assert(!bytes@.contains(0u8));
    copy.push(0);
    assert(copy@ =~= bytes@ + seq![0u8]);
    Ok(copy)
}

} // verus!
