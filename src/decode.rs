//! Reading numeric fields back: an empty field in a numeric slot stands for
//! the unset sentinel, never for zero.
use vstd::prelude::*;
use crate::catalog::ServerRspMsgDiscriminants;
use crate::error::MessageError;
use crate::field::{
    decimal, digit_char, field_text, FieldValue, WireFloat, UNSET_DOUBLE_BITS, UNSET_INTEGER,
};
use crate::text::chars_of;

verus! {

/// Whether a character is a decimal digit.
pub open spec fn is_digit(c: char) -> bool {
    '0' <= c && c <= '9'
}

/// A non-empty run of decimal digits.
pub open spec fn all_digits(s: Seq<char>) -> bool {
    s.len() > 0 && forall|i: int| 0 <= i < s.len() ==> is_digit(#[trigger] s[i])
}

/// The number that a run of decimal digits spells.
pub open spec fn digits_value(s: Seq<char>) -> nat
    decreases s.len(),
{
    if s.len() == 0 {
        0
    } else {
        digits_value(s.drop_last()) * 10 + ((s.last() as nat) - 48) as nat
    }
}

/// What an integer field holds: the unset sentinel when empty, else a
/// decimal number with an optional leading `-`; `None` for anything else.
pub open spec fn int_field_value(s: Seq<char>) -> Option<int> {
    if s.len() == 0 {
        Some(UNSET_INTEGER as int)
    } else if s[0] == '-' && all_digits(s.drop_first()) {
        Some(-(digits_value(s.drop_first()) as int))
    } else if all_digits(s) {
        Some(digits_value(s) as int)
    } else {
        None
    }
}

proof fn lemma_digits_prefix(s: Seq<char>, k: int)
    requires
        all_digits(s),
        0 <= k <= s.len(),
    ensures
        digits_value(s.subrange(0, k)) <= digits_value(s),
    decreases s.len() - k,
{
    if k < s.len() {
        let t = s.subrange(0, k + 1);
        assert(t.drop_last() =~= s.subrange(0, k));
        assert(is_digit(t.last()));
        lemma_digits_prefix(s, k + 1);
    } else {
        assert(s.subrange(0, k) =~= s);
    }
}

proof fn lemma_digit_char(d: nat)
    requires
        d < 10,
    ensures
        digit_char(d) as nat == d + 48,
        is_digit(digit_char(d)),
{
}

proof fn lemma_decimal_digits(n: nat)
    ensures
        all_digits(decimal(n)),
        digits_value(decimal(n)) == n,
    decreases n,
{
    lemma_digit_char(n % 10);
    let d = decimal(n);
    assert(d.last() == digit_char(n % 10));
    if n < 10 {
        assert(d.drop_last() =~= Seq::<char>::empty());
        assert(digits_value(d) == digits_value(d.drop_last()) * 10 + ((d.last() as nat) - 48) as nat);
    } else {
        lemma_decimal_digits(n / 10);
        assert(d.drop_last() =~= decimal(n / 10));
        assert(digits_value(d) == digits_value(d.drop_last()) * 10 + ((d.last() as nat) - 48) as nat);
        assert(n == (n / 10) * 10 + n % 10);
        assert(forall|i: int| 0 <= i < d.len() - 1 ==> d[i] == decimal(n / 10)[i]);
    }
}

/// Reads an integer field. An empty field gives the unset sentinel; a
/// decimal number in the 32-bit range, with an optional leading `-`, gives
/// that number; anything else is a malformed payload.
pub fn read_int_field(field: &str) -> (r: Result<i32, MessageError>)
    ensures
        match int_field_value(field@) {
            Some(v) => if i32::MIN <= v <= i32::MAX {
                r == Ok::<i32, MessageError>(v as i32)
            } else {
                r == Err::<i32, MessageError>(MessageError::MalformedPayload)
            },
            None => r == Err::<i32, MessageError>(MessageError::MalformedPayload),
        },
{
    let chars = chars_of(field);
    if chars.len() == 0 {
        return Ok(UNSET_INTEGER);
    }
    let negative = chars[0] == '-';
    let start: usize = if negative { 1 } else { 0 };
    let ghost digits = chars@.subrange(start as int, chars@.len() as int);
    proof {
        if negative {
            assert(!is_digit(field@[0]));
            assert(!all_digits(field@));
            assert(digits =~= field@.drop_first());
        } else {
            assert(digits =~= field@);
        }
    }
    if start >= chars.len() {
        assert(digits.len() == 0);
        return Err(MessageError::MalformedPayload);
    }
    let mut acc: u64 = 0;
    let mut i: usize = start;
    while i < chars.len()
        invariant
            start <= i <= chars@.len(),
            chars@ == field@,
            negative ==> digits == field@.drop_first() && !all_digits(field@) && field@[0] == '-',
            !negative ==> digits == field@ && field@[0] != '-',
            digits == chars@.subrange(start as int, chars@.len() as int),
            forall|j: int| start <= j < i ==> is_digit(#[trigger] chars@[j]),
            acc as nat == digits_value(chars@.subrange(start as int, i as int)),
            acc <= 2147483648,
        decreases chars@.len() - i,
    {
        let c = chars[i];
        if !('0' <= c && c <= '9') {
            assert(digits[i - start] == c);
            assert(!all_digits(digits));
            return Err(MessageError::MalformedPayload);
        }
        let d: u64 = (c as u32 - 48) as u64;
        let next: u64 = acc * 10 + d;
        let ghost t = chars@.subrange(start as int, i + 1);
        assert(t.drop_last() =~= chars@.subrange(start as int, i as int));
        assert(t.last() == c);
        assert(next as nat == digits_value(t));
        if next > 2147483648 {
            proof {
                if all_digits(digits) {
                    assert(digits.subrange(0, i + 1 - start) =~= chars@.subrange(
                        start as int,
                        i + 1,
                    ));
                    lemma_digits_prefix(digits, i + 1 - start);
                }
            }
            return Err(MessageError::MalformedPayload);
        }
        acc = next;
        i = i + 1;
    }
    assert(chars@.subrange(start as int, i as int) =~= digits);
    assert(all_digits(digits));
    if negative {
        Ok(-(acc as i64) as i32)
    } else {
        if acc > 2147483647 {
            return Err(MessageError::MalformedPayload);
        }
        Ok(acc as i32)
    }
}

/// Reads the leading field of a response payload as its kind. A field that
/// is empty or not a 32-bit decimal number is a malformed payload; a number
/// with no entry in the response catalog is an unknown discriminant.
pub fn read_response_kind(field: &str) -> (r: Result<ServerRspMsgDiscriminants, MessageError>)
    ensures
        field@.len() == 0 ==> r == Err::<ServerRspMsgDiscriminants, _>(
            MessageError::MalformedPayload,
        ),
        field@.len() > 0 ==> match int_field_value(field@) {
            Some(v) => if i32::MIN <= v <= i32::MAX {
                match ServerRspMsgDiscriminants::spec_from_code(v as i32) {
                    Some(d) => r == Ok::<_, MessageError>(d),
                    None => r == Err::<ServerRspMsgDiscriminants, _>(
                        MessageError::UnknownDiscriminant,
                    ),
                }
            } else {
                r == Err::<ServerRspMsgDiscriminants, _>(MessageError::MalformedPayload)
            },
            None => r == Err::<ServerRspMsgDiscriminants, _>(MessageError::MalformedPayload),
        },
{
    if field.is_empty() {
        return Err(MessageError::MalformedPayload);
    }
    let code = match read_int_field(field) {
        Ok(c) => c,
        Err(e) => {
            return Err(e);
        },
    };
    match ServerRspMsgDiscriminants::from_i32(code) {
        Some(d) => Ok(d),
        None => Err(MessageError::UnknownDiscriminant),
    }
}

/// Sentinel round trip: an unset integer or float is sent as an empty
/// field, and an empty field read into an integer slot gives the unset
/// integer back. Every other integer reads back as itself.
pub proof fn lemma_int_field_round_trip(i: i32, text: String)
    ensures
        field_text(FieldValue::Int(UNSET_INTEGER)) == Seq::<char>::empty(),
        field_text(
            FieldValue::Float(WireFloat { bits: UNSET_DOUBLE_BITS, text }),
        ) == Seq::<char>::empty(),
        int_field_value(Seq::empty()) == Some(UNSET_INTEGER as int),
        int_field_value(field_text(FieldValue::Int(i))) == Some(i as int),
{
    if i != UNSET_INTEGER {
        let s = field_text(FieldValue::Int(i));
        if i < 0 {
            lemma_decimal_digits((-i) as nat);
            assert(s.drop_first() =~= decimal((-i) as nat));
        } else {
            lemma_decimal_digits(i as nat);
            assert(s[0] != '-');
        }
    }
}

} // verus!
