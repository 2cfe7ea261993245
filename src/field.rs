//! Primitive field encoding: every value becomes its text followed by a NUL
//! terminator, with the numeric "unset" sentinels sent as empty fields.
use vstd::prelude::*;
use crate::error::MessageError;
use crate::text::{chars_of, string_from_chars};

verus! {

/// The field terminator and separator.
pub const NUL: char = '\0';

/// The reserved 32-bit integer meaning "no value" (`i32::MAX`).
pub const UNSET_INTEGER: i32 = 2147483647;

/// The IEEE-754 bit pattern of the reserved float meaning "no value"
/// (`f64::MAX`).
pub const UNSET_DOUBLE_BITS: u64 = 0x7fef_ffff_ffff_ffff;

/// A 64-bit float in wire form: its IEEE-754 bit pattern, which decides
/// whether it is the unset sentinel, and its decimal rendering, which is
/// what goes on the wire otherwise.
#[derive(Clone, Debug)]
pub struct WireFloat {
    pub bits: u64,
    pub text: String,
}

/// The closed set of primitive kinds that a wire field can carry.
#[derive(Clone, Debug)]
pub enum FieldValue {
    /// Sent as `1` or `0`.
    Bool(bool),
    /// An unsigned size, sent in decimal.
    Size(usize),
    /// A 64-bit float; the unset sentinel is sent as an empty field.
    Float(WireFloat),
    /// A 32-bit integer, sent in decimal; the unset sentinel is sent as an
    /// empty field.
    Int(i32),
    /// Text, sent verbatim.
    Text(String),
}

/// The primitive kind of a field slot in a message layout.
#[derive(Clone, Copy, Debug, PartialEq, Eq, Structural)]
pub enum FieldKind {
    Bool,
    Size,
    Float,
    Int,
    Text,
    /// A composite value sent as a run of fields of its own.
    Block,
}

/// The kind of slot that a value fills.
pub open spec fn kind_of(v: FieldValue) -> FieldKind {
    match v {
        FieldValue::Bool(_) => FieldKind::Bool,
        FieldValue::Size(_) => FieldKind::Size,
        FieldValue::Float(_) => FieldKind::Float,
        FieldValue::Int(_) => FieldKind::Int,
        FieldValue::Text(_) => FieldKind::Text,
    }
}

/// The character of a decimal digit.
pub open spec fn digit_char(d: nat) -> char
    recommends
        d < 10,
{
    ((d + 48) as u8) as char
}

/// The decimal digits of a natural number, most significant first.
pub open spec fn decimal(n: nat) -> Seq<char>
    decreases n,
{
    if n < 10 {
        seq![digit_char(n)]
    } else {
        decimal(n / 10).push(digit_char(n % 10))
    }
}

/// The decimal rendering of an integer, with a leading `-` when negative.
pub open spec fn signed_decimal(i: int) -> Seq<char> {
    if i < 0 {
        seq!['-'] + decimal((-i) as nat)
    } else {
        decimal(i as nat)
    }
}

/// The text of a field, without its terminator.
pub open spec fn field_text(v: FieldValue) -> Seq<char> {
    match v {
        FieldValue::Bool(b) => if b { seq!['1'] } else { seq!['0'] },
        FieldValue::Size(n) => decimal(n as nat),
        FieldValue::Float(f) => if f.bits == UNSET_DOUBLE_BITS {
            Seq::empty()
        } else {
            f.text@
        },
        FieldValue::Int(i) => if i == UNSET_INTEGER {
            Seq::empty()
        } else {
            signed_decimal(i as int)
        },
        FieldValue::Text(s) => s@,
    }
}

/// A field as it stands on the wire: its text and the terminator.
pub open spec fn encoded_field(v: FieldValue) -> Seq<char> {
    field_text(v).push(NUL)
}

/// Whether a value is one of the numeric "unset" sentinels.
pub open spec fn is_unset(v: FieldValue) -> bool {
    ||| v matches FieldValue::Float(f) && f.bits == UNSET_DOUBLE_BITS
    ||| v matches FieldValue::Int(i) && i == UNSET_INTEGER
}

/// Appends the decimal digits of `n`.
pub fn push_decimal(n: u64, out: &mut Vec<char>)
    ensures
        final(out)@ == old(out)@ + decimal(n as nat),
    decreases n,
{
    if n >= 10 {
        push_decimal(n / 10, out);
    }
    let d: u8 = (n % 10) as u8;
    out.push((48u8 + d) as char);
    proof {
        if n >= 10 {
            assert(old(out)@ + decimal(n as nat) =~= old(out)@ + decimal((n / 10) as nat) + seq![
                digit_char((n % 10) as nat),
            ]);
        }
    }
    assert(final(out)@ =~= old(out)@ + decimal(n as nat));
}

/// Appends the decimal rendering of a signed 32-bit integer.
fn push_signed_decimal(i: i32, out: &mut Vec<char>)
    ensures
        final(out)@ == old(out)@ + signed_decimal(i as int),
{
    if i < 0 {
        out.push('-');
        let m: i64 = -(i as i64);
        push_decimal(m as u64, out);
    } else {
        push_decimal(i as u64, out);
    }
    assert(final(out)@ =~= old(out)@ + signed_decimal(i as int));
}

/// Appends one field: its text and the terminator.
pub fn push_field(val: &FieldValue, out: &mut Vec<char>)
    ensures
        final(out)@ == old(out)@ + encoded_field(*val),
{
    match val {
        FieldValue::Bool(b) => {
            out.push(if *b { '1' } else { '0' });
        },
        FieldValue::Size(n) => {
            push_decimal(*n as u64, out);
        },
        FieldValue::Float(f) => {
            if f.bits != UNSET_DOUBLE_BITS {
                let mut t = chars_of(f.text.as_str());
                out.append(&mut t);
            }
        },
        FieldValue::Int(i) => {
            if *i != UNSET_INTEGER {
                push_signed_decimal(*i, out);
            }
        },
        FieldValue::Text(s) => {
            let mut t = chars_of(s.as_str());
            out.append(&mut t);
        },
    }
    out.push(NUL);
    assert(final(out)@ =~= old(out)@ + encoded_field(*val));
}

/// Encodes one field: its text followed by the NUL terminator. Booleans
/// become `1` or `0`, numbers their decimal rendering, text stays verbatim,
/// and the unset sentinels become an empty field.
pub fn make_field(val: &FieldValue) -> (r: Result<String, MessageError>)
    ensures
        r matches Ok(s) && s@ == encoded_field(*val),
{
    let mut out: Vec<char> = Vec::new();
    push_field(val, &mut out);
    assert(out@ =~= encoded_field(*val));
    Ok(string_from_chars(&out))
}

/// Encodes one field, sending an unset sentinel as an empty field before
/// anything else is looked at; for every kind the result is the one
/// `make_field` gives.
pub fn make_field_handle_empty(val: &FieldValue) -> (r: Result<String, MessageError>)
    ensures
        r matches Ok(s) && s@ == encoded_field(*val),
        is_unset(*val) ==> (r matches Ok(s) && s@ == seq![NUL]),
{
    match val {
        FieldValue::Float(f) => {
            if f.bits == UNSET_DOUBLE_BITS {
                return make_field(&FieldValue::Text(String::new()));
            }
        },
        FieldValue::Int(i) => {
            if *i == UNSET_INTEGER {
                return make_field(&FieldValue::Text(String::new()));
            }
        },
        _ => {},
    }
    make_field(val)
}

/// The pieces of a text cut at every NUL, in order: one more piece than
/// there are NULs, empty pieces included.
pub open spec fn pieces(s: Seq<char>) -> Seq<Seq<char>>
    decreases s.len(),
{
    if s.len() == 0 {
        seq![Seq::empty()]
    } else {
        let p = pieces(s.drop_last());
        if s.last() == NUL {
            p.push(Seq::empty())
        } else {
            p.update(p.len() - 1, p.last().push(s.last()))
        }
    }
}

/// The fields of a payload: its pieces cut at every NUL, without the last
/// one, which follows the final terminator.
pub open spec fn split_fields(s: Seq<char>) -> Seq<Seq<char>> {
    pieces(s).drop_last()
}

/// The texts held by a sequence of strings.
pub open spec fn texts(v: Seq<String>) -> Seq<Seq<char>> {
    v.map_values(|x: String| x@)
}

/// The payload made of several fields, each encoded in turn.
pub open spec fn encoded_fields(vs: Seq<FieldValue>) -> Seq<char>
    decreases vs.len(),
{
    if vs.len() == 0 {
        Seq::empty()
    } else {
        encoded_fields(vs.drop_last()) + encoded_field(vs.last())
    }
}

proof fn lemma_pieces_nonempty(s: Seq<char>)
    ensures
        pieces(s).len() >= 1,
    decreases s.len(),
{
    if s.len() > 0 {
        lemma_pieces_nonempty(s.drop_last());
    }
}

/// Text without a NUL extends the last piece.
proof fn lemma_pieces_extend(s: Seq<char>, t: Seq<char>)
    requires
        !t.contains(NUL),
    ensures
        pieces(s + t) == pieces(s).update(pieces(s).len() - 1, pieces(s).last() + t),
    decreases t.len(),
{
    lemma_pieces_nonempty(s);
    let p = pieces(s);
    if t.len() == 0 {
        assert(s + t =~= s);
        assert(p.last() + t =~= p.last());
        assert(p.update(p.len() - 1, p.last() + t) =~= p);
    } else {
        let u = t.drop_last();
        assert(!u.contains(NUL)) by {
            if u.contains(NUL) {
                let k = choose|k: int| 0 <= k < u.len() && u[k] == NUL;
                assert(t[k] == NUL);
            }
        };
        lemma_pieces_extend(s, u);
        assert((s + t).drop_last() =~= s + u);
        assert(t.last() != NUL) by {
            assert(t[t.len() - 1] == t.last());
        };
        assert((s + t).last() == t.last());
        assert((p.last() + u).push(t.last()) =~= p.last() + t);
        assert(pieces(s + t) =~= p.update(p.len() - 1, p.last() + t));
    }
}

/// Splitting round trip: a payload made of encoded fields, none of whose
/// texts holds a NUL, splits back into exactly those texts, in order, empty
/// ones included.
pub proof fn lemma_split_encoded_fields(vs: Seq<FieldValue>)
    requires
        forall|i: int| 0 <= i < vs.len() ==> !(#[trigger] field_text(vs[i])).contains(NUL),
    ensures
        split_fields(encoded_fields(vs)) == vs.map_values(|v: FieldValue| field_text(v)),
        pieces(encoded_fields(vs)) == vs.map_values(|v: FieldValue| field_text(v)).push(
            Seq::empty(),
        ),
    decreases vs.len(),
{
    let ts = vs.map_values(|v: FieldValue| field_text(v));
    if vs.len() == 0 {
        assert(encoded_fields(vs) =~= Seq::<char>::empty());
        assert(ts.push(Seq::empty()) =~= seq![Seq::<char>::empty()]);
    } else {
        let init = vs.drop_last();
        assert forall|i: int| 0 <= i < init.len() implies !(#[trigger] field_text(
            init[i],
        )).contains(NUL) by {
            assert(init[i] == vs[i]);
        };
        lemma_split_encoded_fields(init);
        let prev = encoded_fields(init);
        let t = field_text(vs.last());
        assert(!t.contains(NUL)) by {
            assert(vs.last() == vs[vs.len() - 1]);
        };
        lemma_pieces_extend(prev, t);
        let q = prev + t;
        assert(encoded_fields(vs) =~= q.push(NUL));
        assert(q.push(NUL).drop_last() =~= q);
        let p0 = init.map_values(|v: FieldValue| field_text(v)).push(Seq::empty());
        assert(p0.update(p0.len() - 1, p0.last() + t) =~= ts);
        assert(pieces(encoded_fields(vs)) =~= ts.push(Seq::empty()));
    }
    assert(split_fields(encoded_fields(vs)) =~= ts);
}

/// Splits a payload into its fields, in order. Each NUL ends a field; what
/// follows the last NUL is dropped, and empty fields are kept.
pub fn read_fields(buf: &str) -> (r: Vec<String>)
    ensures
        texts(r@) == split_fields(buf@),
{
    let chars = chars_of(buf);
    let mut fields: Vec<String> = Vec::new();
    let mut cur: Vec<char> = Vec::new();
    let mut i: usize = 0;
    assert(chars@.subrange(0, 0) =~= Seq::<char>::empty());
    assert(texts(fields@).push(cur@) =~= seq![Seq::<char>::empty()]);
    while i < chars.len()
        invariant
            0 <= i <= chars@.len(),
            pieces(chars@.subrange(0, i as int)) == texts(fields@).push(cur@),
        decreases chars@.len() - i,
    {
        let c = chars[i];
        let ghost before = texts(fields@).push(cur@);
        let ghost old_cur = cur@;
        if c == NUL {
            let f = string_from_chars(&cur);
            fields.push(f);
            cur = Vec::new();
            assert(texts(fields@) =~= before.drop_last().push(old_cur));
        } else {
            cur.push(c);
        }
        i = i + 1;
        assert(chars@.subrange(0, i as int).drop_last() =~= chars@.subrange(0, i - 1));
        assert(texts(fields@).push(cur@) =~= pieces(chars@.subrange(0, i as int)));
    }
    assert(chars@.subrange(0, i as int) =~= buf@);
    assert(texts(fields@) =~= split_fields(buf@));
    fields
}

} // verus!
