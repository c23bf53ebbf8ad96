use vstd::prelude::*;
use vstd::utf8::{decode_utf8, encode_utf8, valid_utf8};

use crate::errors::LooprError;
use crate::state::byte_len;

verus! {

/// A run of `n` zero bytes.
pub open spec fn zeros(n: nat) -> Seq<u8> {
    Seq::new(n, |_i: int| 0u8)
}

/// `bytes` left-aligned in a buffer of `capacity` bytes, the rest zero.
pub open spec fn padded(bytes: Seq<u8>, capacity: nat) -> Seq<u8> {
    bytes + zeros((capacity - bytes.len()) as nat)
}

/// `bytes` without its trailing zero bytes.
pub open spec fn trim_trailing_zeros(bytes: Seq<u8>) -> Seq<u8>
    decreases bytes.len(),
{
    if bytes.len() > 0 && bytes.last() == 0 {
        trim_trailing_zeros(bytes.drop_last())
    } else {
        bytes
    }
}

/// Writes the UTF-8 bytes of `text` into a buffer of exactly `capacity` bytes,
/// zero-padded on the right; fails with `TextTooLong` when they do not fit.
pub fn encode(text: &str, capacity: usize) -> (r: Result<Vec<u8>, LooprError>)
    ensures
        byte_len(text@) > capacity ==> r == Err::<Vec<u8>, LooprError>(LooprError::TextTooLong),
        byte_len(text@) <= capacity ==> (r matches Ok(buf) && buf@ == padded(
            encode_utf8(text@),
            capacity as nat,
        )),
{
    let mut buf = text.as_bytes_vec();
    let n = buf.len();
    if n > capacity {
        return Err(LooprError::TextTooLong);
    }
    while buf.len() < capacity
        invariant
            n <= buf@.len() <= capacity,
            buf@ == encode_utf8(text@) + zeros((buf@.len() - n) as nat),
            n == encode_utf8(text@).len(),
        decreases capacity - buf@.len(),
    {
        buf.push(0);
        assert(buf@ =~= encode_utf8(text@) + zeros((buf@.len() - n) as nat));
    }
    Ok(buf)
}

/// Reads back the text of a buffer: its bytes up to the trailing zero bytes,
/// as UTF-8. Other zero bytes and whitespace are kept.
pub fn decode(buf: &[u8]) -> (r: String)
    requires
        valid_utf8(trim_trailing_zeros(buf@)),
    ensures
        r@ == decode_utf8(trim_trailing_zeros(buf@)),
        encode_utf8(r@) == trim_trailing_zeros(buf@),
{
    let mut end = buf.len();
    assert(buf@.subrange(0, end as int) =~= buf@);
    while end > 0 && buf[end - 1] == 0
        invariant
            end <= buf@.len(),
            trim_trailing_zeros(buf@) == trim_trailing_zeros(buf@.subrange(0, end as int)),
        decreases end,
    {
        assert(buf@.subrange(0, end as int).drop_last() =~= buf@.subrange(0, end - 1));
        end = end - 1;
    }
    let mut bytes: Vec<u8> = Vec::new();
    let mut i: usize = 0;
    while i < end
        invariant
            i <= end <= buf@.len(),
            bytes@ == buf@.subrange(0, i as int),
        decreases end - i,
    {
        bytes.push(buf[i]);
        i = i + 1;
        assert(bytes@ =~= buf@.subrange(0, i as int));
    }
    proof {
        vstd::utf8::decode_utf8_encode_utf8(bytes@);
    }
    match string_from_utf8(bytes) {
        Some(s) => {
            proof {
                vstd::utf8::encode_utf8_decode_utf8(s@);
            }
            s
        },
        None => String::new(),
    }
}

/// Relies on std's `String::from_utf8`: it succeeds exactly on valid UTF-8,
/// and the string then holds those bytes.
#[verifier::external_body]
fn string_from_utf8(bytes: Vec<u8>) -> (r: Option<String>)
    ensures
        r is Some <==> valid_utf8(bytes@),
        r matches Some(s) ==> encode_utf8(s@) == bytes@,
{
    String::from_utf8(bytes).ok()
}

/// Trailing zero padding is all that trimming removes from bytes that do not
/// themselves end with a zero byte.
proof fn lemma_trim_padded(bytes: Seq<u8>, n: nat)
    requires
        bytes.len() == 0 || bytes.last() != 0,
    ensures
        trim_trailing_zeros(bytes + zeros(n)) == bytes,
    decreases n,
{
    if n == 0 {
        assert(bytes + zeros(0) =~= bytes);
    } else {
        let s = bytes + zeros(n);
        assert(s.drop_last() =~= bytes + zeros((n - 1) as nat));
        lemma_trim_padded(bytes, (n - 1) as nat);
    }
}

/// The UTF-8 encoding of a text that ends with a character other than NUL
/// ends with a nonzero byte.
proof fn lemma_encoding_ends_nonzero(text: Seq<char>)
    requires
        text.len() > 0,
        text.last() != '\0',
    ensures
        encode_utf8(text).len() > 0,
        encode_utf8(text).last() != 0,
    decreases text.len(),
{
    let c = text[0] as u32;
    let head = vstd::utf8::encode_scalar(c);
    let rest = text.drop_first();
    assert(encode_utf8(text) == head + encode_utf8(rest));
    if rest.len() == 0 {
        assert(encode_utf8(rest) =~= Seq::<u8>::empty());
        assert(encode_utf8(text) =~= head);
        assert(c != 0) by {
            vstd::utf8::char_u32_cast(text[0], c);
            vstd::utf8::char_u32_cast('\0', 0u32);
        }
        if vstd::utf8::has_width_1_encoding(c) {
            assert(((c & 0x7F) as u8) != 0) by (bit_vector)
                requires
                    c <= 0x7F && c != 0,
            ;
        } else {
            assert(((0x80 | (c & 0x3F) as u8) as u8) != 0) by (bit_vector);
        }
    } else {
        assert(rest.last() == text.last());
        lemma_encoding_ends_nonzero(rest);
    }
}

/// Encoding a text into a buffer that it fits and decoding that buffer gives
/// the text back, for every text that does not end with a NUL character (a
/// trailing NUL encodes as a zero byte, which decoding trims as padding).
pub proof fn lemma_round_trip(text: Seq<char>, capacity: nat)
    requires
        byte_len(text) <= capacity,
        text.len() == 0 || text.last() != '\0',
    ensures
        valid_utf8(trim_trailing_zeros(padded(encode_utf8(text), capacity))),
        decode_utf8(trim_trailing_zeros(padded(encode_utf8(text), capacity))) == text,
{
    broadcast use vstd::utf8::encode_utf8_decode_utf8, vstd::utf8::encode_utf8_valid_utf8;

    let bytes = encode_utf8(text);
    if text.len() > 0 {
        lemma_encoding_ends_nonzero(text);
    } else {
        assert(bytes =~= Seq::<u8>::empty());
    }
    lemma_trim_padded(bytes, (capacity - bytes.len()) as nat);
}

} // verus!
