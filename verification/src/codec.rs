//! The wire form of an application message: a timestamp and a sample index,
//! carried as a CBOR array of two unsigned integers.
//!
//! Encoding and decoding are done by `p2panda_core::cbor`. What the encoder
//! emits is stated byte for byte in [`pair_encoding`]. The decoder gives the
//! message back for such a payload and refuses one that was cut short. It is
//! lenient otherwise (it also accepts longer integer forms, tags and trailing
//! bytes), so on every other input its answer is only given a name,
//! [`cbor_pair_of`].

use vstd::prelude::*;

verus! {

/// The `width` low-order base-256 digits of `value`, most significant first.
pub open spec fn be_bytes(value: nat, width: nat) -> Seq<u8>
    decreases width,
{
    if width == 0 {
        Seq::empty()
    } else {
        be_bytes(value / 256, (width - 1) as nat).push((value % 256) as u8)
    }
}

/// The shortest CBOR head of major type 0 (unsigned integer) for `value`.
pub open spec fn uint_encoding(value: u64) -> Seq<u8> {
    if value < 24 {
        seq![value as u8]
    } else if value <= 0xff {
        seq![0x18u8] + be_bytes(value as nat, 1)
    } else if value <= 0xffff {
        seq![0x19u8] + be_bytes(value as nat, 2)
    } else if value <= 0xffff_ffff {
        seq![0x1au8] + be_bytes(value as nat, 4)
    } else {
        seq![0x1bu8] + be_bytes(value as nat, 8)
    }
}

/// The wire payload of `(timestamp, sample_index)`: the head of a two-element
/// array, then both numbers in their shortest form.
pub open spec fn pair_encoding(timestamp: u64, sample_index: u16) -> Seq<u8> {
    seq![0x82u8] + uint_encoding(timestamp) + uint_encoding(sample_index as u64)
}

/// Whether `bytes` is the payload that [`encode`] produces for some message.
pub open spec fn is_pair_encoding(bytes: Seq<u8>) -> bool {
    exists|pair: (u64, u16)| bytes == pair_encoding(pair.0, pair.1)
}

/// Whether `bytes` is a payload of [`encode`] with at least one byte missing
/// at its end.
pub open spec fn is_truncated_pair_encoding(bytes: Seq<u8>) -> bool {
    exists|pair: (u64, u16), len: int|
        0 <= len < pair_encoding(pair.0, pair.1).len() && bytes == #[trigger] pair_encoding(
            pair.0,
            pair.1,
        ).take(len)
}

/// What `p2panda_core::cbor::decode_cbor`, asked for a `(u64, u16)`, makes of
/// `bytes`: the pair it returns, or `None` where it returns an error.
pub uninterp spec fn cbor_pair_of(bytes: Seq<u8>) -> Option<(u64, u16)>;

/// The message that a payload stands for. On a payload that [`encode`]
/// produced it is the encoded message; a payload cut short stands for none;
/// on any other input it is whatever the CBOR decoder makes of it.
pub open spec fn pair_decoding(bytes: Seq<u8>) -> Option<(u64, u16)> {
    if is_pair_encoding(bytes) {
        Some(choose|pair: (u64, u16)| bytes == pair_encoding(pair.0, pair.1))
    } else if is_truncated_pair_encoding(bytes) {
        None
    } else {
        cbor_pair_of(bytes)
    }
}

/// A payload that is malformed or truncated.
#[derive(Debug, Clone, Copy, PartialEq, Eq, Structural)]
pub struct PayloadError;

/// `p2panda_core::cbor::EncodeError`, of which nothing is looked at.
#[verifier::external_type_specification]
#[verifier::external_body]
pub struct ExCborEncodeError(p2panda_core::cbor::EncodeError);

/// `p2panda_core::cbor::DecodeError`, of which nothing is looked at: whatever
/// it holds, the payload is refused.
#[verifier::external_type_specification]
#[verifier::external_body]
pub struct ExCborDecodeError(p2panda_core::cbor::DecodeError);

/// `p2panda_core::cbor::encode_cbor` on a pair of unsigned integers. The call
/// writes into a fresh `Vec`, which cannot fail, and a tuple of integers
/// always serializes: first the head of a definite-length array of two, then
/// each integer as the shortest head of major type 0.
#[verifier::external_body]
fn encode_cbor_pair(timestamp: u64, sample_index: u16) -> (r: Result<
    Vec<u8>,
    p2panda_core::cbor::EncodeError,
>)
    ensures
        r is Ok,
        r->Ok_0@ == pair_encoding(timestamp, sample_index),
{
    p2panda_core::cbor::encode_cbor(&(timestamp, sample_index))
}

/// `p2panda_core::cbor::decode_cbor` reading a `(u64, u16)` from a byte
/// slice. Its answer depends on the bytes alone. On the bytes that the
/// encoder emits for a pair it is that pair, for which it reads every byte;
/// so where the last of these bytes are missing, it runs out of input and
/// returns an error.
#[verifier::external_body]
fn decode_cbor_pair(bytes: &[u8]) -> (r: Result<(u64, u16), p2panda_core::cbor::DecodeError>)
    ensures
        (match r {
            Ok(pair) => cbor_pair_of(bytes@) == Some(pair),
            Err(_) => cbor_pair_of(bytes@) is None,
        }),
        forall|timestamp: u64, sample_index: u16|
            bytes@ == pair_encoding(timestamp, sample_index) ==> r is Ok && r->Ok_0 == (
                timestamp,
                sample_index,
            ),
        forall|timestamp: u64, sample_index: u16, len: int|
            0 <= len < pair_encoding(timestamp, sample_index).len() && bytes@
                == #[trigger] pair_encoding(timestamp, sample_index).take(len) ==> r is Err,
{
    p2panda_core::cbor::decode_cbor(bytes)
}

/// Encodes a message payload for the wire.
pub fn encode(timestamp: u64, sample_index: u16) -> (bytes: Vec<u8>)
    ensures
        bytes@ == pair_encoding(timestamp, sample_index),
{
    encode_cbor_pair(timestamp, sample_index).unwrap()
}

/// Decodes a wire payload into `(timestamp, sample_index)`. A payload of
/// [`encode`] gives its message back, and one that was cut short is refused.
pub fn decode(bytes: &[u8]) -> (r: Result<(u64, u16), PayloadError>)
    ensures
        r == decoded(pair_decoding(bytes@)),
        forall|timestamp: u64, sample_index: u16|
            bytes@ == pair_encoding(timestamp, sample_index) ==> r == Ok::<(u64, u16), PayloadError>(
                (timestamp, sample_index),
            ),
        forall|timestamp: u64, sample_index: u16, len: int|
            0 <= len < pair_encoding(timestamp, sample_index).len() && bytes@
                == #[trigger] pair_encoding(timestamp, sample_index).take(len) ==> r == Err::<
                (u64, u16),
                PayloadError,
            >(PayloadError),
{
    let outcome = decode_cbor_pair(bytes);
    let r = read_decoded(outcome.ok());
    proof {
        if is_pair_encoding(bytes@) {
            let pair = choose|pair: (u64, u16)| bytes@ == pair_encoding(pair.0, pair.1);
            assert(r == Ok::<(u64, u16), PayloadError>(pair));
        }
        assert forall|timestamp: u64, sample_index: u16|
            bytes@ == pair_encoding(timestamp, sample_index) implies r == Ok::<
            (u64, u16),
            PayloadError,
        >((timestamp, sample_index)) by {
            lemma_round_trip(timestamp, sample_index);
        }
    }
    r
}

/// The result of [`decode`] for each answer of the decoder.
pub open spec fn decoded(answer: Option<(u64, u16)>) -> Result<(u64, u16), PayloadError> {
    match answer {
        Some(pair) => Ok(pair),
        None => Err(PayloadError),
    }
}

/// Turns the decoder's answer into the result of [`decode`]: the pair where
/// there is one, the codec's error where there is none.
pub fn read_decoded(answer: Option<(u64, u16)>) -> (r: Result<(u64, u16), PayloadError>)
    ensures
        r == decoded(answer),
{
    match answer {
        Some(pair) => Ok(pair),
        None => Err(PayloadError),
    }
}

/// `be_bytes` yields exactly `width` bytes.
pub proof fn lemma_be_bytes_len(value: nat, width: nat)
    ensures
        be_bytes(value, width).len() == width,
    decreases width,
{
    if width > 0 {
        lemma_be_bytes_len(value / 256, (width - 1) as nat);
    }
}

/// Whether `value` has at most `width` base-256 digits.
pub open spec fn fits(value: nat, width: nat) -> bool
    decreases width,
{
    if width == 0 {
        value == 0
    } else {
        fits(value / 256, (width - 1) as nat)
    }
}

/// Two numbers of at most `width` digits with the same digits are equal.
pub proof fn lemma_be_bytes_injective(a: nat, b: nat, width: nat)
    requires
        fits(a, width),
        fits(b, width),
        be_bytes(a, width) == be_bytes(b, width),
    ensures
        a == b,
    decreases width,
{
    if width > 0 {
        let rest = (width - 1) as nat;
        let high_a = be_bytes(a / 256, rest);
        let high_b = be_bytes(b / 256, rest);
        let low_a = (a % 256) as u8;
        let low_b = (b % 256) as u8;
        assert(high_a.push(low_a).last() == low_a);
        assert(high_b.push(low_b).last() == low_b);
        assert(high_a.push(low_a).drop_last() == high_a);
        assert(high_b.push(low_b).drop_last() == high_b);
        lemma_be_bytes_injective(a / 256, b / 256, rest);
    }
}

/// The number of bytes in the shortest head for `value`.
pub open spec fn uint_encoding_len(value: u64) -> nat {
    if value < 24 {
        1
    } else if value <= 0xff {
        2
    } else if value <= 0xffff {
        3
    } else if value <= 0xffff_ffff {
        5
    } else {
        9
    }
}

/// The first byte of a head tells its length, and the head tells the number:
/// no head is a proper prefix of another.
pub proof fn lemma_uint_encoding_prefix_free(a: u64, b: u64, after_a: Seq<u8>, after_b: Seq<u8>)
    requires
        uint_encoding(a) + after_a == uint_encoding(b) + after_b,
    ensures
        a == b,
        after_a == after_b,
{
    let head_a = uint_encoding(a);
    let head_b = uint_encoding(b);
    let whole = head_a + after_a;
    lemma_uint_encoding_shape(a);
    lemma_uint_encoding_shape(b);
    assert(whole[0] == head_a[0]);
    assert((head_b + after_b)[0] == head_b[0]);
    let len = uint_encoding_len(a);
    assert(uint_encoding_len(b) == len);
    assert(head_a == whole.subrange(0, len as int));
    assert(head_b == (head_b + after_b).subrange(0, len as int));
    assert(after_a == whole.subrange(len as int, whole.len() as int));
    assert(after_b == (head_b + after_b).subrange(len as int, whole.len() as int));
    if a >= 24 {
        let width = (len - 1) as nat;
        assert(be_bytes(a as nat, width) == head_a.subrange(1, len as int));
        assert(be_bytes(b as nat, width) == head_b.subrange(1, len as int));
        lemma_fits_u64(a);
        lemma_fits_u64(b);
        lemma_be_bytes_injective(a as nat, b as nat, width);
    }
}

/// The length of a head and what its first byte is.
proof fn lemma_uint_encoding_shape(value: u64)
    ensures
        uint_encoding(value).len() == uint_encoding_len(value),
        value < 24 ==> uint_encoding(value)[0] == value,
        value >= 24 ==> uint_encoding(value)[0] == 0x18 + if value <= 0xff {
            0int
        } else if value <= 0xffff {
            1int
        } else if value <= 0xffff_ffff {
            2int
        } else {
            3int
        },
{
    lemma_be_bytes_len(value as nat, 1);
    lemma_be_bytes_len(value as nat, 2);
    lemma_be_bytes_len(value as nat, 4);
    lemma_be_bytes_len(value as nat, 8);
}

/// A number fits the width that its head gives it.
proof fn lemma_fits_u64(value: u64)
    ensures
        value <= 0xff ==> fits(value as nat, 1),
        value <= 0xffff ==> fits(value as nat, 2),
        value <= 0xffff_ffff ==> fits(value as nat, 4),
        fits(value as nat, 8),
{
    reveal_with_fuel(fits, 9);
}

/// Different messages have different payloads.
pub proof fn lemma_encoding_injective(
    timestamp_a: u64,
    sample_index_a: u16,
    timestamp_b: u64,
    sample_index_b: u16,
)
    requires
        pair_encoding(timestamp_a, sample_index_a) == pair_encoding(timestamp_b, sample_index_b),
    ensures
        timestamp_a == timestamp_b,
        sample_index_a == sample_index_b,
{
    let rest_a = uint_encoding(timestamp_a) + uint_encoding(sample_index_a as u64);
    let rest_b = uint_encoding(timestamp_b) + uint_encoding(sample_index_b as u64);
    let whole_a = pair_encoding(timestamp_a, sample_index_a);
    let whole_b = pair_encoding(timestamp_b, sample_index_b);
    assert(whole_a == seq![0x82u8] + rest_a);
    assert(whole_b == seq![0x82u8] + rest_b);
    assert(rest_a == whole_a.skip(1));
    assert(rest_b == whole_b.skip(1));
    lemma_uint_encoding_prefix_free(
        timestamp_a,
        timestamp_b,
        uint_encoding(sample_index_a as u64),
        uint_encoding(sample_index_b as u64),
    );
    let none = Seq::<u8>::empty();
    assert(uint_encoding(sample_index_a as u64) + none == uint_encoding(sample_index_a as u64));
    assert(uint_encoding(sample_index_b as u64) + none == uint_encoding(sample_index_b as u64));
    lemma_uint_encoding_prefix_free(sample_index_a as u64, sample_index_b as u64, none, none);
}

/// A payload is no proper prefix of another: what is left of a payload once
/// bytes are cut off its end is no payload.
pub proof fn lemma_encoding_prefix_free(
    timestamp_a: u64,
    sample_index_a: u16,
    timestamp_b: u64,
    sample_index_b: u16,
    len: int,
)
    requires
        0 <= len <= pair_encoding(timestamp_b, sample_index_b).len(),
        pair_encoding(timestamp_a, sample_index_a) == pair_encoding(
            timestamp_b,
            sample_index_b,
        ).take(len),
    ensures
        len == pair_encoding(timestamp_b, sample_index_b).len(),
        timestamp_a == timestamp_b,
        sample_index_a == sample_index_b,
{
    let whole_a = pair_encoding(timestamp_a, sample_index_a);
    let whole_b = pair_encoding(timestamp_b, sample_index_b);
    let cut = whole_b.skip(len);
    assert(whole_a + cut =~= whole_b);
    let index_a = uint_encoding(sample_index_a as u64);
    let index_b = uint_encoding(sample_index_b as u64);
    let none = Seq::<u8>::empty();
    assert(uint_encoding(timestamp_a) + (index_a + cut) =~= (whole_a + cut).skip(1));
    assert(uint_encoding(timestamp_b) + index_b =~= whole_b.skip(1));
    lemma_uint_encoding_prefix_free(timestamp_a, timestamp_b, index_a + cut, index_b);
    assert(index_b + none =~= index_b);
    lemma_uint_encoding_prefix_free(sample_index_a as u64, sample_index_b as u64, cut, none);
}

/// A payload that was cut short decodes to nothing.
pub proof fn lemma_truncated_is_refused(timestamp: u64, sample_index: u16, len: int)
    requires
        0 <= len < pair_encoding(timestamp, sample_index).len(),
    ensures
        pair_decoding(pair_encoding(timestamp, sample_index).take(len)) == None::<(u64, u16)>,
{
    let bytes = pair_encoding(timestamp, sample_index).take(len);
    let message = (timestamp, sample_index);
    assert(bytes == pair_encoding(message.0, message.1).take(len));
    if is_pair_encoding(bytes) {
        let pair = choose|pair: (u64, u16)| bytes == pair_encoding(pair.0, pair.1);
        lemma_encoding_prefix_free(pair.0, pair.1, timestamp, sample_index, len);
    }
}

/// Decoding an encoded message gives the message back.
pub proof fn lemma_round_trip(timestamp: u64, sample_index: u16)
    ensures
        pair_decoding(pair_encoding(timestamp, sample_index)) == Some((timestamp, sample_index)),
{
    let bytes = pair_encoding(timestamp, sample_index);
    let message = (timestamp, sample_index);
    assert(bytes == pair_encoding(message.0, message.1));
    let pair = choose|pair: (u64, u16)| bytes == pair_encoding(pair.0, pair.1);
    lemma_encoding_injective(timestamp, sample_index, pair.0, pair.1);
}

} // verus!
