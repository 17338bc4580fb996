//! Reading the version field out of a raw firmware image.

use vstd::prelude::*;
use vstd::utf8::*;

verus! {

/// Byte offset of the version field from the start of a firmware image.
pub const IMAGE_VERSION_OFFSET: u64 = 48;

/// Width in bytes of the version field; shorter text is padded with NUL bytes.
pub const IMAGE_VERSION_LENGTH: u64 = 32;

/// The bytes of `image` inside the window of `length` bytes that starts at
/// `offset`.  An image that ends inside the window gives what it has, one that
/// ends before it gives nothing.
pub open spec fn field_bytes(image: Seq<u8>, offset: int, length: int) -> Seq<u8> {
    if offset < 0 || length <= 0 || offset >= image.len() {
        Seq::empty()
    } else if offset + length <= image.len() {
        image.subrange(offset, offset + length)
    } else {
        image.subrange(offset, image.len() as int)
    }
}

/// Number of bytes of `bytes` that remain once the NUL padding at its end is
/// dropped.
pub open spec fn unpadded_len(bytes: Seq<u8>) -> nat
    decreases bytes.len(),
{
    if bytes.len() == 0 || bytes.last() != 0u8 {
        bytes.len()
    } else {
        unpadded_len(bytes.drop_last())
    }
}

/// `bytes` without the NUL padding at its end.
pub open spec fn without_padding(bytes: Seq<u8>) -> Seq<u8> {
    bytes.take(unpadded_len(bytes) as int)
}

/// Text that a lossy UTF-8 decoder makes of `bytes`: well-formed sequences
/// decode to their characters and each malformed one becomes U+FFFD.
pub uninterp spec fn lossy_text(bytes: Seq<u8>) -> Seq<char>;

/// The version text that `image` carries in the window `offset`, `length`.
pub open spec fn version_text(image: Seq<u8>, offset: int, length: int) -> Seq<char> {
    lossy_text(without_padding(field_bytes(image, offset, length)))
}

/// The characters that stand for `bytes` when every byte is ASCII.
pub open spec fn ascii_chars(bytes: Seq<u8>) -> Seq<char> {
    Seq::new(bytes.len(), |i: int| bytes[i] as char)
}

/// True when every byte of `bytes` is below 0x80.
pub open spec fn all_ascii(bytes: Seq<u8>) -> bool {
    forall|i: int| 0 <= i < bytes.len() ==> #[trigger] bytes[i] < 0x80u8
}

/// What padding removal leaves is a prefix of the input that does not end in
/// NUL, and everything behind it is NUL.
pub proof fn lemma_unpadded(bytes: Seq<u8>)
    ensures
        unpadded_len(bytes) <= bytes.len(),
        unpadded_len(bytes) > 0 ==> bytes[unpadded_len(bytes) - 1] != 0u8,
        forall|i: int| unpadded_len(bytes) <= i < bytes.len() ==> bytes[i] == 0u8,
    decreases bytes.len(),
{
    if bytes.len() == 0 || bytes.last() != 0u8 {
    } else {
        let front = bytes.drop_last();
        lemma_unpadded(front);
        assert forall|i: int| unpadded_len(bytes) <= i < bytes.len() implies bytes[i] == 0u8 by {
            if i < front.len() {
                assert(bytes[i] == front[i]);
            }
        }
    }
}

/// The length that padding removal leaves is the only one with the three
/// properties of `lemma_unpadded`.
pub proof fn lemma_unpadded_unique(bytes: Seq<u8>, n: int)
    requires
        0 <= n <= bytes.len(),
        n > 0 ==> bytes[n - 1] != 0u8,
        forall|i: int| n <= i < bytes.len() ==> bytes[i] == 0u8,
    ensures
        unpadded_len(bytes) == n,
    decreases bytes.len(),
{
    if bytes.len() == 0 || bytes.last() != 0u8 {
    } else {
        lemma_unpadded_unique(bytes.drop_last(), n);
    }
}

/// An image that reaches to the end of the window gives all `length` bytes
/// from `offset`; a shorter one gives the bytes it has from `offset` on, and
/// none when it ends at or before `offset`.
pub proof fn lemma_field_cases(image: Seq<u8>, offset: int, length: int)
    requires
        0 <= offset,
        0 <= length,
    ensures
        offset + length <= image.len() ==> field_bytes(image, offset, length) == image.subrange(
            offset,
            offset + length,
        ),
        offset <= image.len() < offset + length ==> field_bytes(image, offset, length)
            == image.skip(offset),
        image.len() <= offset ==> field_bytes(image, offset, length).len() == 0,
        field_bytes(image, offset, length).len() <= length,
{
    if offset + length <= image.len() {
        if length == 0 {
            assert(image.subrange(offset, offset + length) =~= Seq::<u8>::empty());
        }
    } else if offset <= image.len() {
        assert(image.skip(offset) =~= image.subrange(offset, image.len() as int));
        if offset == image.len() {
            assert(image.skip(offset) =~= Seq::<u8>::empty());
        }
    }
}

/// The version window lies in the first `offset + length` bytes of an image:
/// a longer start of the image holds the same field as the whole.
pub proof fn lemma_field_in_prefix(image: Seq<u8>, offset: int, length: int, read: int)
    requires
        0 <= offset,
        0 <= length,
        offset + length <= read <= image.len(),
    ensures
        field_bytes(image.take(read), offset, length) == field_bytes(image, offset, length),
{
    assert(field_bytes(image.take(read), offset, length) =~= field_bytes(image, offset, length));
}

/// ASCII bytes are well-formed UTF-8 and decode to one character per byte.
pub proof fn lemma_ascii_is_utf8(bytes: Seq<u8>)
    requires
        all_ascii(bytes),
    ensures
        valid_utf8(bytes),
        decode_utf8(bytes) == ascii_chars(bytes),
{
    let chars = ascii_chars(bytes);
    assert(is_ascii_chars(chars));
    is_ascii_chars_encode_utf8(chars);
    assert(encode_utf8(chars) =~= bytes);
    encode_utf8_valid_utf8(chars);
    encode_utf8_decode_utf8(chars);
}

/// Calls `String::from_utf8_lossy` and owns the result.  The standard library
/// documents the call as total: it returns the text of well-formed input
/// unchanged and puts U+FFFD in place of each malformed sequence, which is
/// what `lossy_text` names.
#[verifier::external_body]
fn decode_lossy(bytes: &[u8]) -> (text: String)
    ensures
        text@ == lossy_text(bytes@),
        valid_utf8(bytes@) ==> text@ == decode_utf8(bytes@),
{
    String::from_utf8_lossy(bytes).into_owned()
}

/// Number of leading bytes of an image that hold the whole window `offset`,
/// `length`: the end of the window, or as near to it as a `u64` gets.
pub fn window_end(offset: u64, length: u64) -> (end: u64)
    ensures
        end == if offset + length <= u64::MAX {
            offset + length
        } else {
            u64::MAX as int
        },
{
    if length <= u64::MAX - offset {
        offset + length
    } else {
        u64::MAX
    }
}

/// Copies the version window out of `image`.
pub fn version_field(image: &[u8], offset: u64, length: u64) -> (field: Vec<u8>)
    ensures
        field@ == field_bytes(image@, offset as int, length as int),
{
    let mut field: Vec<u8> = Vec::new();
    let size: usize = image.len();
    if offset >= size as u64 {
        return field;
    }
    let start: usize = offset as usize;
    let room: usize = size - start;
    let count: usize = if length >= room as u64 { room } else { length as usize };
    let mut taken: usize = 0;
    while taken < count
        invariant
            start + count <= size,
            size == image@.len(),
            taken <= count,
            field@ == image@.subrange(start as int, start + taken),
        decreases count - taken,
    {
        field.push(image[start + taken]);
        taken = taken + 1;
    }
    field
}

/// Number of leading bytes of `bytes` that are not NUL padding.
pub fn unpadded_length(bytes: &[u8]) -> (n: usize)
    ensures
        n == unpadded_len(bytes@),
{
    let mut n: usize = bytes.len();
    assert(bytes@.take(n as int) =~= bytes@);
    while n > 0 && bytes[n - 1] == 0
        invariant
            n <= bytes@.len(),
            unpadded_len(bytes@) == unpadded_len(bytes@.take(n as int)),
        decreases n,
    {
        assert(bytes@.take(n as int).drop_last() =~= bytes@.take(n - 1));
        n = n - 1;
    }
    n
}

/// Text of a version field: the field without its NUL padding, decoded
/// leniently so that damaged text never stops an update.
pub fn field_text(field: &[u8]) -> (text: String)
    ensures
        text@ == lossy_text(without_padding(field@)),
        valid_utf8(without_padding(field@)) ==> text@ == decode_utf8(without_padding(field@)),
        all_ascii(without_padding(field@)) ==> text@ == ascii_chars(without_padding(field@)),
{
    let kept: usize = unpadded_length(field);
    proof {
        lemma_unpadded(field@);
    }
    let mut body: Vec<u8> = Vec::new();
    let mut i: usize = 0;
    while i < kept
        invariant
            kept <= field@.len(),
            i <= kept,
            body@ == field@.take(i as int),
        decreases kept - i,
    {
        body.push(field[i]);
        i = i + 1;
    }
    proof {
        if all_ascii(body@) {
            lemma_ascii_is_utf8(body@);
        }
    }
    decode_lossy(body.as_slice())
}

/// Version text of a firmware image: up to `length` bytes from `offset`,
/// without trailing NUL padding.  A short image gives what it has.
pub fn extract_version(image: &[u8], offset: u64, length: u64) -> (version: String)
    ensures
        version@ == version_text(image@, offset as int, length as int),
        valid_utf8(without_padding(field_bytes(image@, offset as int, length as int)))
            ==> version@ == decode_utf8(
            without_padding(field_bytes(image@, offset as int, length as int)),
        ),
        all_ascii(without_padding(field_bytes(image@, offset as int, length as int)))
            ==> version@ == ascii_chars(
            without_padding(field_bytes(image@, offset as int, length as int)),
        ),
{
    let field = version_field(image, offset, length);
    field_text(field.as_slice())
}

} // verus!
