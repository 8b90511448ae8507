//! The key format: how a public key is written for storage or exchange.
//!
//! A key is a protobuf message of two fields: field 1 holds the number of
//! the key type as a varint, field 2 the key data as a byte string. A reader
//! takes the fields in any order, takes the last of a repeated field, passes
//! over fields with other numbers, and takes a missing field as zero or
//! empty.

use vstd::prelude::*;
use vstd::slice::slice_subrange;
use crate::error::DecodingError;
use crate::peer_id::bytes_to_vec;

verus! {

/// Number of the field that holds the key type.
pub const KEY_TYPE_FIELD: u64 = 1;

/// Number of the field that holds the key data.
pub const KEY_DATA_FIELD: u64 = 2;

/// Wire type of a varint.
pub const WIRE_VARINT: u64 = 0;

/// Wire type of eight bytes.
pub const WIRE_FIXED64: u64 = 1;

/// Wire type of a byte string with its length before it.
pub const WIRE_LENGTH_DELIMITED: u64 = 2;

/// Wire type of the start of a group.
pub const WIRE_START_GROUP: u64 = 3;

/// Wire type of the end of a group.
pub const WIRE_END_GROUP: u64 = 4;

/// Wire type of four bytes.
pub const WIRE_FIXED32: u64 = 5;

/// How deep groups may be nested in a field that is passed over.
pub const MAX_NESTING: usize = 100;

/// The weight of digit `k` of a varint: 128 to the power of `k`.
pub open spec fn digit_weight(k: nat) -> int
    decreases k,
{
    if k == 0 {
        1
    } else {
        128 * digit_weight((k - 1) as nat)
    }
}

/// The varint that starts at `at`, read from its digit `k` on: the value of
/// these digits and the position behind the varint. A varint has at most ten
/// digits of seven bits, the lowest first; every digit but the last has its
/// high bit set; and the tenth digit is at most 1, so that the value fits
/// into 64 bits.
pub open spec fn varint_digits(bytes: Seq<u8>, at: int, k: int) -> Option<(int, int)>
    decreases 10 - k,
{
    if at < 0 || k < 0 || k >= 10 || at + k >= bytes.len() {
        None
    } else if bytes[at + k] < 0x80 {
        if k == 9 && bytes[at + k] >= 2 {
            None
        } else {
            Some((bytes[at + k] as int, at + k + 1))
        }
    } else {
        match varint_digits(bytes, at, k + 1) {
            Some((rest, end)) => Some((bytes[at + k] - 0x80 + 128 * rest, end)),
            None => None,
        }
    }
}

/// The varint that starts at `at`: its value and the position behind it.
pub open spec fn varint(bytes: Seq<u8>, at: int) -> Option<(u64, int)> {
    match varint_digits(bytes, at, 0) {
        Some((value, end)) => if at < end <= bytes.len() && 0 <= value <= u64::MAX {
            Some((value as u64, end))
        } else {
            None
        },
        None => None,
    }
}

/// The key of the field that starts at `at`: the number of the field, its
/// wire type, and the position behind the key.
pub open spec fn field_key(bytes: Seq<u8>, at: int) -> Option<(u64, u64, int)> {
    match varint(bytes, at) {
        Some((key, end)) => if key > u32::MAX || key % 8 > WIRE_FIXED32 || key / 8 < 1 {
            None
        } else {
            Some((key / 8, key % 8, end))
        },
        None => None,
    }
}

/// The position behind the value of a field that is passed over. The value
/// starts at `at`; `tag` and `wire` are from the key of the field; `budget`
/// is the number of levels of groups that may still be entered.
pub open spec fn skipped(wire: u64, tag: u64, bytes: Seq<u8>, at: int, budget: nat) -> Option<int>
    decreases bytes.len() - at, 1nat,
{
    if budget == 0 {
        None
    } else if wire == WIRE_VARINT {
        match varint(bytes, at) {
            Some((_, end)) => Some(end),
            None => None,
        }
    } else if wire == WIRE_FIXED32 {
        if 4 > bytes.len() - at {
            None
        } else {
            Some(at + 4)
        }
    } else if wire == WIRE_FIXED64 {
        if 8 > bytes.len() - at {
            None
        } else {
            Some(at + 8)
        }
    } else if wire == WIRE_LENGTH_DELIMITED {
        match varint(bytes, at) {
            Some((length, end)) => if length > bytes.len() - end {
                None
            } else {
                Some(end + length)
            },
            None => None,
        }
    } else if wire == WIRE_START_GROUP {
        group_end(tag, bytes, at, budget)
    } else {
        None
    }
}

/// The position behind the group with the number `tag` whose fields start
/// at `at`: behind the key that ends the group, which has the same number.
pub open spec fn group_end(tag: u64, bytes: Seq<u8>, at: int, budget: nat) -> Option<int>
    decreases bytes.len() - at, 0nat,
{
    match field_key(bytes, at) {
        Some((inner_tag, inner_wire, end)) => {
            if inner_wire == WIRE_END_GROUP {
                if inner_tag == tag {
                    Some(end)
                } else {
                    None
                }
            } else {
                match skipped(inner_wire, inner_tag, bytes, end, (budget - 1) as nat) {
                    Some(next) => if at < next <= bytes.len() {
                        group_end(tag, bytes, next, budget)
                    } else {
                        None
                    },
                    None => None,
                }
            }
        },
        None => None,
    }
}

/// The fields of a key message.
pub struct KeyFields {
    /// Number of the key type.
    pub key_type: i32,
    /// The key data.
    pub data: Seq<u8>,
}

/// The message that is read from `at` on, where `fields` is what the
/// fields before `at` have given.
pub open spec fn message_from(bytes: Seq<u8>, at: int, fields: KeyFields) -> Option<KeyFields>
    decreases bytes.len() - at,
{
    if at >= bytes.len() {
        Some(fields)
    } else {
        match field_key(bytes, at) {
            Some((tag, wire, end)) => {
                if tag == KEY_TYPE_FIELD {
                    match varint(bytes, end) {
                        Some((value, next)) => if wire == WIRE_VARINT {
                            message_from(
                                bytes,
                                next,
                                KeyFields {
                                    key_type: #[verifier::truncate]
                                    (value as i32),
                                    data: fields.data,
                                },
                            )
                        } else {
                            None
                        },
                        None => None,
                    }
                } else if tag == KEY_DATA_FIELD {
                    match varint(bytes, end) {
                        Some((length, next)) => if wire == WIRE_LENGTH_DELIMITED && length
                            <= bytes.len() - next {
                            message_from(
                                bytes,
                                next + length,
                                KeyFields {
                                    key_type: fields.key_type,
                                    data: bytes.subrange(next, next + length),
                                },
                            )
                        } else {
                            None
                        },
                        None => None,
                    }
                } else {
                    match skipped(wire, tag, bytes, end, MAX_NESTING as nat) {
                        Some(next) => if at < next <= bytes.len() {
                            message_from(bytes, next, fields)
                        } else {
                            None
                        },
                        None => None,
                    }
                }
            },
            None => None,
        }
    }
}

/// The key message that `bytes` are, if they are one.
pub open spec fn message(bytes: Seq<u8>) -> Option<KeyFields> {
    message_from(bytes, 0, KeyFields { key_type: 0, data: Seq::empty() })
}

/// The digits of `value` as a varint, none more than needed.
pub open spec fn varint_encoding(value: u64) -> Seq<u8>
    decreases value,
{
    if value < 0x80 {
        seq![value as u8]
    } else {
        seq![(value % 0x80 + 0x80) as u8] + varint_encoding(value / 0x80)
    }
}

/// A key message as bytes: the key type, then the key data. A negative
/// number of a key type is written as the 64 bits that stand for it.
pub open spec fn message_encoding(fields: KeyFields) -> Seq<u8> {
    seq![0x08u8] + varint_encoding(fields.key_type as u64) + seq![0x12u8] + varint_encoding(
        fields.data.len() as u64,
    ) + fields.data
}

/// Where the digits of `value` stand in `bytes` from digit `k` of a varint
/// on, and `value` is small enough to stand that high, the varint reads as
/// `value` from that digit on.
proof fn lemma_digits_read_back(bytes: Seq<u8>, at: int, k: int, value: u64)
    requires
        0 <= at,
        0 <= k <= 9,
        value * digit_weight(k as nat) <= u64::MAX,
        at + k + varint_encoding(value).len() <= bytes.len(),
        forall|j: int|
            0 <= j < varint_encoding(value).len() ==> bytes[at + k + j] == varint_encoding(
                value,
            )[j],
    ensures
        varint_digits(bytes, at, k) == Some(
            (value as int, at + k + varint_encoding(value).len()),
        ),
    decreases value,
{
    lemma_digit_weights();
    assert(bytes[at + k + 0] == varint_encoding(value)[0]);
    if value < 0x80 {
        if k == 9 {
            assert(value * 0x8000_0000_0000_0000 <= u64::MAX ==> value <= 1) by (nonlinear_arith);
        }
    } else {
        let rest: u64 = value / 0x80;
        let weight = digit_weight(k as nat);
        assert(k < 9) by {
            if k == 9 {
                assert(value * 0x8000_0000_0000_0000 <= u64::MAX ==> value <= 1)
                    by (nonlinear_arith);
            }
        }
        assert(digit_weight((k + 1) as nat) == 128 * weight);
        assert(rest * (128 * weight) <= value * weight) by (nonlinear_arith)
            requires
                rest * 128 <= value,
                0 < weight,
        ;
        assert forall|j: int| 0 <= j < varint_encoding(rest).len() implies bytes[at + (k + 1) + j]
            == varint_encoding(rest)[j] by {
            assert(varint_encoding(value)[j + 1] == varint_encoding(rest)[j]);
            assert(bytes[at + k + (j + 1)] == varint_encoding(value)[j + 1]);
        }
        lemma_digits_read_back(bytes, at, k + 1, rest);
    }
}

/// A varint reads back as the value whose digits it holds.
pub proof fn lemma_varint_reads_back(bytes: Seq<u8>, at: int, value: u64)
    requires
        0 <= at,
        at + varint_encoding(value).len() <= bytes.len(),
        bytes.subrange(at, at + varint_encoding(value).len()) == varint_encoding(value),
    ensures
        varint(bytes, at) == Some((value, at + varint_encoding(value).len())),
        varint_encoding(value).len() >= 1,
{
    let digits = varint_encoding(value);
    assert forall|j: int| 0 <= j < digits.len() implies bytes[at + 0 + j] == digits[j] by {
        assert(bytes.subrange(at, at + digits.len())[j] == bytes[at + j]);
    }
    lemma_digit_weights();
    assert(value * digit_weight(0) == value) by (nonlinear_arith)
        requires
            digit_weight(0) == 1,
    ;
    lemma_digits_read_back(bytes, at, 0, value);
}

/// A key message reads back from its bytes: reading is the inverse of
/// writing.
pub proof fn lemma_message_reads_back(fields: KeyFields)
    requires
        fields.data.len() <= u64::MAX,
    ensures
        message(message_encoding(fields)) == Some(fields),
{
    let bytes = message_encoding(fields);
    let key_type = varint_encoding(fields.key_type as u64);
    let length = varint_encoding(fields.data.len() as u64);
    let second: int = 1 + key_type.len() as int;
    let third: int = second + 1 + length.len() as int;
    assert(bytes.subrange(1, second) =~= key_type);
    assert(bytes.subrange(second + 1, third) =~= length);
    assert(bytes.subrange(third, third + fields.data.len() as int) =~= fields.data);
    lemma_varint_reads_back(bytes, 1, fields.key_type as u64);
    lemma_varint_reads_back(bytes, second + 1, fields.data.len() as u64);
    reveal_with_fuel(message_from, 3);
    assert(varint(bytes, 0) == Some((8u64, 1int)));
    assert(field_key(bytes, 0) == Some((1u64, 0u64, 1int)));
    assert(bytes[second] == 0x12);
    assert(varint(bytes, second) == Some((0x12u64, second + 1)));
    assert(field_key(bytes, second) == Some((2u64, 2u64, second + 1)));
    let key_type_value = fields.key_type;
    assert(#[verifier::truncate] ((key_type_value as u64) as i32) == key_type_value)
        by (bit_vector);
}

proof fn lemma_digit_weights()
    ensures
        digit_weight(0) == 1,
        digit_weight(9) == 0x8000_0000_0000_0000,
        forall|k: nat| #[trigger] digit_weight(k + 1) == 128 * digit_weight(k),
        forall|k: nat| k <= 8 ==> 0 < #[trigger] digit_weight(k) <= 0x0100_0000_0000_0000,
{
    reveal_with_fuel(digit_weight, 11);
    assert forall|k: nat| k <= 8 implies 0 < #[trigger] digit_weight(k)
        <= 0x0100_0000_0000_0000 by {
        if k == 0 {
        } else if k == 1 {
        } else if k == 2 {
        } else if k == 3 {
        } else if k == 4 {
        } else if k == 5 {
        } else if k == 6 {
        } else if k == 7 {
        } else if k == 8 {
        } else {
        }
    }
}

/// The value of a varint whose digits up to `k` have the value `value`:
/// the digits from `k` on stand `weight` higher.
spec fn with_lower_digits(rest: Option<(int, int)>, value: int, weight: int) -> Option<(int, int)> {
    match rest {
        Some((higher, end)) => Some((value + weight * higher, end)),
        None => None,
    }
}

proof fn lemma_next_digit(value: int, weight: int, digit: int, rest: int)
    ensures
        value + weight * (digit + 128 * rest) == (value + digit * weight) + (128 * weight) * rest,
{
    assert(weight * (digit + 128 * rest) == digit * weight + (128 * weight) * rest)
        by (nonlinear_arith);
}

proof fn lemma_digit_bound(value: int, weight: int, digit: int)
    requires
        0 <= value < weight,
        0 <= digit <= 127,
    ensures
        0 <= value + digit * weight < 128 * weight,
        0 <= digit * weight <= 127 * weight,
{
    assert(0 <= digit * weight <= 127 * weight) by (nonlinear_arith)
        requires
            0 <= digit <= 127,
            0 < weight,
    ;
}

/// Reads the varint that starts at `at`.
pub fn decode_varint(bytes: &[u8], at: usize) -> (r: Option<(u64, usize)>)
    ensures
        match r {
            Some((value, end)) => varint(bytes@, at as int) == Some((value, end as int)) && at
                < end <= bytes@.len(),
            None => varint(bytes@, at as int) is None,
        },
{
    if at >= bytes.len() {
        return None;
    }
    let available: usize = bytes.len() - at;
    let mut value: u64 = 0;
    let mut weight: u64 = 1;
    let mut k: usize = 0;
    proof {
        lemma_digit_weights();
    }
    while k < 10 && k < available
        invariant
            k <= 10,
            at < bytes@.len() <= usize::MAX,
            available == bytes@.len() - at,
            k < 10 ==> weight == digit_weight(k as nat) && value < weight,
            varint_digits(bytes@, at as int, 0) == with_lower_digits(
                varint_digits(bytes@, at as int, k as int),
                if k < 10 {
                    value as int
                } else {
                    0
                },
                if k < 10 {
                    weight as int
                } else {
                    0
                },
            ),
        decreases 10 - k,
    {
        assert(at + k < bytes@.len());
        let byte: u8 = bytes[at + k];
        proof {
            lemma_digit_weights();
        }
        if byte < 0x80 {
            if k == 9 && byte >= 2 {
                return None;
            }
            proof {
                lemma_digit_bound(value as int, weight as int, byte as int);
                if k == 9 {
                    assert(0 <= byte as int * weight as int <= weight as int) by (nonlinear_arith)
                        requires
                            0 <= byte as int <= 1,
                            0 < weight as int,
                    ;
                }
            }
            let total: u64 = value + (byte as u64) * weight;
            assert(total as int == value as int + weight as int * byte as int) by (nonlinear_arith)
                requires
                    total as int == value as int + byte as int * weight as int,
            ;
            return Some((total, at + k + 1));
        }
        if k == 9 {
            assert(varint_digits(bytes@, at as int, 10) is None);
            return None;
        }
        let digit: u8 = byte - 0x80;
        proof {
            lemma_digit_bound(value as int, weight as int, digit as int);
            assert(digit_weight((k + 1) as nat) == 128 * digit_weight(k as nat));
            match varint_digits(bytes@, at as int, k + 1) {
                Some((rest, end)) => {
                    lemma_next_digit(value as int, weight as int, digit as int, rest);
                },
                None => {},
            }
        }
        value = value + (digit as u64) * weight;
        weight = weight * 128;
        k += 1;
    }
    None
}

/// Reads the key of the field that starts at `at`.
pub fn decode_key(bytes: &[u8], at: usize) -> (r: Option<(u64, u64, usize)>)
    ensures
        match r {
            Some((tag, wire, end)) => field_key(bytes@, at as int) == Some((tag, wire, end as int))
                && at < end <= bytes@.len(),
            None => field_key(bytes@, at as int) is None,
        },
{
    match decode_varint(bytes, at) {
        Some((key, end)) => {
            if key > 0xffff_ffff {
                return None;
            }
            let wire: u64 = key % 8;
            let tag: u64 = key / 8;
            if wire > WIRE_FIXED32 || tag < 1 {
                return None;
            }
            Some((tag, wire, end))
        },
        None => None,
    }
}

/// Passes over the value of a field, which starts at `at`, and gives the
/// position behind it.
pub fn skip_field(wire: u64, tag: u64, bytes: &[u8], at: usize, budget: usize) -> (r: Option<usize>)
    requires
        at <= bytes@.len(),
    ensures
        match r {
            Some(end) => skipped(wire, tag, bytes@, at as int, budget as nat) == Some(end as int)
                && at <= end <= bytes@.len(),
            None => skipped(wire, tag, bytes@, at as int, budget as nat) is None,
        },
    decreases bytes@.len() - at, 1nat,
{
    if budget == 0 {
        return None;
    }
    if wire == WIRE_VARINT {
        match decode_varint(bytes, at) {
            Some((_, end)) => Some(end),
            None => None,
        }
    } else if wire == WIRE_FIXED32 {
        if 4 > bytes.len() - at {
            None
        } else {
            Some(at + 4)
        }
    } else if wire == WIRE_FIXED64 {
        if 8 > bytes.len() - at {
            None
        } else {
            Some(at + 8)
        }
    } else if wire == WIRE_LENGTH_DELIMITED {
        match decode_varint(bytes, at) {
            Some((length, end)) => {
                if length > (bytes.len() - end) as u64 {
                    None
                } else {
                    Some(end + length as usize)
                }
            },
            None => None,
        }
    } else if wire == WIRE_START_GROUP {
        skip_group(tag, bytes, at, budget)
    } else {
        None
    }
}

/// Passes over the fields of a group, which start at `at`, up to the key
/// that ends the group, and gives the position behind that key.
pub fn skip_group(tag: u64, bytes: &[u8], at: usize, budget: usize) -> (r: Option<usize>)
    requires
        at <= bytes@.len(),
        budget > 0,
    ensures
        match r {
            Some(end) => group_end(tag, bytes@, at as int, budget as nat) == Some(end as int)
                && at < end <= bytes@.len(),
            None => group_end(tag, bytes@, at as int, budget as nat) is None,
        },
    decreases bytes@.len() - at, 0nat,
{
    match decode_key(bytes, at) {
        Some((inner_tag, inner_wire, end)) => {
            if inner_wire == WIRE_END_GROUP {
                if inner_tag == tag {
                    Some(end)
                } else {
                    None
                }
            } else {
                match skip_field(inner_wire, inner_tag, bytes, end, budget - 1) {
                    Some(next) => skip_group(tag, bytes, next, budget),
                    None => None,
                }
            }
        },
        None => None,
    }
}

/// A key message: the number of the key type and the key data.
#[derive(Debug, PartialEq, Eq)]
pub struct PublicKey {
    /// Number of the key type.
    pub key_type: i32,
    /// The key data.
    pub data: Vec<u8>,
}

impl View for PublicKey {
    type V = KeyFields;

    open spec fn view(&self) -> KeyFields {
        KeyFields { key_type: self.key_type, data: self.data@ }
    }
}

/// Appends the digits of `value` as a varint to `buf`.
pub fn encode_varint(value: u64, buf: &mut Vec<u8>)
    ensures
        final(buf)@ == old(buf)@ + varint_encoding(value),
{
    let mut rest: u64 = value;
    while rest >= 0x80
        invariant
            old(buf)@ + varint_encoding(value) == buf@ + varint_encoding(rest),
        decreases rest,
    {
        let ghost before = buf@;
        buf.push((rest % 0x80 + 0x80) as u8);
        assert(before + varint_encoding(rest) =~= buf@ + varint_encoding(rest / 0x80));
        rest = rest / 0x80;
    }
    let ghost before = buf@;
    buf.push(rest as u8);
    assert(before + varint_encoding(rest) =~= buf@);
}

impl PublicKey {
    /// Writes the key message as bytes.
    pub fn encode(&self) -> (r: Vec<u8>)
        ensures
            r@ == message_encoding(self@),
    {
        let mut buf: Vec<u8> = Vec::new();
        buf.push(0x08u8);
        encode_varint(#[verifier::truncate] (self.key_type as u64), &mut buf);
        buf.push(0x12u8);
        encode_varint(self.data.len() as u64, &mut buf);
        let ghost head = buf@;
        let mut i: usize = 0;
        while i < self.data.len()
            invariant
                i <= self.data@.len(),
                buf@ == head + self.data@.subrange(0, i as int),
            decreases self.data@.len() - i,
        {
            buf.push(self.data[i]);
            assert(buf@ =~= head + self.data@.subrange(0, i + 1));
            i += 1;
        }
        assert(self.data@.subrange(0, self.data@.len() as int) =~= self.data@);
        assert(buf@ =~= message_encoding(self@));
        buf
    }

    /// Reads a key message. Bytes that are no message are refused.
    pub fn decode(bytes: &[u8]) -> (r: Result<PublicKey, DecodingError>)
        ensures
            match message(bytes@) {
                Some(fields) => r is Ok && r->Ok_0@ == fields,
                None => r == Err::<PublicKey, DecodingError>(DecodingError::BadProtobuf),
            },
    {
        let mut key_type: i32 = 0;
        let mut data: Vec<u8> = Vec::new();
        let mut at: usize = 0;
        while at < bytes.len()
            invariant
                at <= bytes@.len(),
                message(bytes@) == message_from(
                    bytes@,
                    at as int,
                    KeyFields { key_type, data: data@ },
                ),
            decreases bytes@.len() - at,
        {
            let (tag, wire, end) = match decode_key(bytes, at) {
                Some(key) => key,
                None => {
                    return Err(DecodingError::BadProtobuf);
                },
            };
            if tag == KEY_TYPE_FIELD {
                match decode_varint(bytes, end) {
                    Some((value, next)) => {
                        if wire != WIRE_VARINT {
                            return Err(DecodingError::BadProtobuf);
                        }
                        key_type = #[verifier::truncate]
                        (value as i32);
                        at = next;
                    },
                    None => {
                        return Err(DecodingError::BadProtobuf);
                    },
                }
            } else if tag == KEY_DATA_FIELD {
                match decode_varint(bytes, end) {
                    Some((length, next)) => {
                        if wire != WIRE_LENGTH_DELIMITED || length > (bytes.len() - next) as u64 {
                            return Err(DecodingError::BadProtobuf);
                        }
                        let stop: usize = next + length as usize;
                        data = bytes_to_vec(slice_subrange(bytes, next, stop));
                        at = stop;
                    },
                    None => {
                        return Err(DecodingError::BadProtobuf);
                    },
                }
            } else {
                match skip_field(wire, tag, bytes, end, MAX_NESTING) {
                    Some(next) => {
                        at = next;
                    },
                    None => {
                        return Err(DecodingError::BadProtobuf);
                    },
                }
            }
        }
        Ok(PublicKey { key_type, data })
    }
}

} // verus!
