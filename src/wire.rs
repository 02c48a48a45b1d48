//! Tagged fields of the wire format: varint fields and length-delimited text.
use vstd::prelude::*;
use vstd::utf8::{decode_utf8, encode_utf8, valid_utf8, encode_utf8_decode_utf8, encode_utf8_valid_utf8};
use crate::varint::{varint_bytes, read_varint, encode_varint, decode_varint, varint_result_view, lemma_read_varint_bytes};

verus! {

/// A tag followed by a varint value.
pub open spec fn varint_field(tag: nat, v: nat) -> Seq<u8> {
    varint_bytes(tag) + varint_bytes(v)
}

/// A tag, the length of `b` as a varint, then `b`.
pub open spec fn bytes_field(tag: nat, b: Seq<u8>) -> Seq<u8> {
    varint_bytes(tag) + varint_bytes(b.len()) + b
}

/// A length-delimited field holding the UTF-8 encoding of `t`.
pub open spec fn text_field(tag: nat, t: Seq<char>) -> Seq<u8> {
    bytes_field(tag, encode_utf8(t))
}

/// Position after the tag at `pos`, where that tag is `tag`.
pub open spec fn parse_tag(s: Seq<u8>, pos: int, tag: nat) -> Option<int> {
    match read_varint(s, pos) {
        Some((t, p)) => if t == tag {
            Some(p)
        } else {
            None
        },
        None => None,
    }
}

/// A length prefix at `pos` and the bytes it announces.
pub open spec fn parse_bytes(s: Seq<u8>, pos: int) -> Option<(Seq<u8>, int)> {
    match read_varint(s, pos) {
        Some((n, p)) => if p + n <= s.len() {
            Some((s.subrange(p, p + n), p + n))
        } else {
            None
        },
        None => None,
    }
}

/// Length-delimited bytes at `pos` that are valid UTF-8, decoded.
pub open spec fn parse_text(s: Seq<u8>, pos: int) -> Option<(Seq<char>, int)> {
    match parse_bytes(s, pos) {
        Some((b, p)) => if valid_utf8(b) {
            Some((decode_utf8(b), p))
        } else {
            None
        },
        None => None,
    }
}

/// Whether the text's encoding is short enough to be announced by a varint.
pub open spec fn text_fits(t: Seq<char>) -> bool {
    encode_utf8(t).len() <= u64::MAX
}

/// Relies on `String::from_utf8`: it accepts exactly the valid UTF-8 byte
/// sequences and returns the text they encode.
#[verifier::external_body]
fn string_from_utf8(bytes: Vec<u8>) -> (r: Option<String>)
    ensures
        r.is_some() <==> valid_utf8(bytes@),
        r.is_some() ==> r.unwrap()@ == decode_utf8(bytes@),
{
    String::from_utf8(bytes).ok()
}

/// Appends a varint field.
pub fn encode_varint_field(out: &mut Vec<u8>, tag: u64, v: u64)
    ensures
        final(out)@ == old(out)@ + varint_field(tag as nat, v as nat),
{
    encode_varint(out, tag);
    encode_varint(out, v);
    assert(final(out)@ =~= old(out)@ + varint_field(tag as nat, v as nat));
}

/// Appends a length-delimited field holding `b`.
pub fn encode_bytes_field(out: &mut Vec<u8>, tag: u64, b: &[u8])
    ensures
        final(out)@ == old(out)@ + bytes_field(tag as nat, b@),
{
    encode_varint(out, tag);
    encode_varint(out, b.len() as u64);
    let ghost start = out@;
    let mut i: usize = 0;
    while i < b.len()
        invariant
            i <= b@.len(),
            out@ == start + b@.subrange(0, i as int),
        decreases b@.len() - i,
    {
        out.push(b[i]);
        i = i + 1;
        assert(out@ =~= start + b@.subrange(0, i as int));
    }
    assert(b@.subrange(0, b@.len() as int) =~= b@);
    assert(final(out)@ =~= old(out)@ + bytes_field(tag as nat, b@));
}

/// Appends a length-delimited field holding the UTF-8 encoding of `t`.
pub fn encode_text_field(out: &mut Vec<u8>, tag: u64, t: &String)
    ensures
        final(out)@ == old(out)@ + text_field(tag as nat, t@),
{
    let b: &[u8] = t.as_str().as_bytes();
    encode_bytes_field(out, tag, b);
}

/// Reads the tag at `pos` and yields the position after it if it is `tag`.
pub fn decode_tag(b: &Vec<u8>, pos: usize, tag: u64) -> (r: Option<usize>)
    ensures
        match r {
            Some(p) => parse_tag(b@, pos as int, tag as nat) == Some(p as int),
            None => parse_tag(b@, pos as int, tag as nat).is_none(),
        },
{
    match decode_varint(b, pos) {
        Some((t, p)) => if t == tag {
            Some(p)
        } else {
            None
        },
        None => None,
    }
}

/// Reads length-delimited bytes at `pos`.
pub fn decode_bytes(b: &Vec<u8>, pos: usize) -> (r: Option<(Vec<u8>, usize)>)
    ensures
        match r {
            Some((v, p)) => parse_bytes(b@, pos as int) == Some((v@, p as int)),
            None => parse_bytes(b@, pos as int).is_none(),
        },
{
    let (n, p) = match decode_varint(b, pos) {
        Some(x) => x,
        None => return None,
    };
    assert(p <= b.len()) by {
        lemma_read_end_in_bounds(b@, pos as int);
    }
    if n > (b.len() - p) as u64 {
        return None;
    }
    let end: usize = p + n as usize;
    let mut v: Vec<u8> = Vec::new();
    let mut i: usize = p;
    while i < end
        invariant
            p <= i <= end <= b@.len(),
            v@ == b@.subrange(p as int, i as int),
        decreases end - i,
    {
        v.push(b[i]);
        i = i + 1;
        assert(v@ =~= b@.subrange(p as int, i as int));
    }
    Some((v, end))
}

/// The position after a varint never passes the end of the bytes.
pub proof fn lemma_read_end_in_bounds(s: Seq<u8>, pos: int)
    ensures
        match read_varint(s, pos) {
            Some((_, p)) => pos < p <= s.len(),
            None => true,
        },
{
    lemma_parse_end_in_bounds(s, pos, crate::varint::VARINT_BUDGET as nat);
}

proof fn lemma_parse_end_in_bounds(s: Seq<u8>, pos: int, budget: nat)
    ensures
        match crate::varint::parse_varint(s, pos, budget) {
            Some((_, p)) => pos < p <= s.len(),
            None => true,
        },
    decreases budget,
{
    if budget > 0 {
        lemma_parse_end_in_bounds(s, pos + 1, (budget - 1) as nat);
    }
}

/// Reads length-delimited UTF-8 text at `pos`.
pub fn decode_text(b: &Vec<u8>, pos: usize) -> (r: Option<(String, usize)>)
    ensures
        match r {
            Some((t, p)) => parse_text(b@, pos as int) == Some((t@, p as int)),
            None => parse_text(b@, pos as int).is_none(),
        },
{
    let (v, p) = match decode_bytes(b, pos) {
        Some(x) => x,
        None => return None,
    };
    let ghost bytes = v@;
    match string_from_utf8(v) {
        Some(t) => Some((t, p)),
        None => None,
    }
}

/// A varint field read back where it was written.
pub proof fn lemma_varint_field(s: Seq<u8>, pos: int, tag: nat, v: nat)
    requires
        0 <= pos,
        tag <= u64::MAX,
        v <= u64::MAX,
        pos + varint_field(tag, v).len() <= s.len(),
        s.subrange(pos, pos + varint_field(tag, v).len()) == varint_field(tag, v),
    ensures
        parse_tag(s, pos, tag) == Some(pos + varint_bytes(tag).len()),
        read_varint(s, pos + varint_bytes(tag).len()) == Some((v, pos + varint_field(tag, v).len())),
{
    let a = varint_bytes(tag);
    let b = varint_bytes(v);
    assert(s.subrange(pos, pos + a.len()) =~= s.subrange(pos, pos + varint_field(tag, v).len()).subrange(0, a.len() as int));
    assert(s.subrange(pos + a.len(), pos + a.len() + b.len()) =~= s.subrange(pos, pos + varint_field(tag, v).len()).subrange(a.len() as int, (a.len() + b.len()) as int));
    let whole = varint_field(tag, v);
    assert(whole.subrange(0, a.len() as int) =~= a);
    assert(whole.subrange(a.len() as int, (a.len() + b.len()) as int) =~= b);
    lemma_read_varint_bytes(s, pos, tag);
    lemma_read_varint_bytes(s, pos + a.len(), v);
}

/// A text field read back where it was written.
pub proof fn lemma_text_field(s: Seq<u8>, pos: int, tag: nat, t: Seq<char>)
    requires
        0 <= pos,
        tag <= u64::MAX,
        text_fits(t),
        pos + text_field(tag, t).len() <= s.len(),
        s.subrange(pos, pos + text_field(tag, t).len()) == text_field(tag, t),
    ensures
        parse_tag(s, pos, tag) == Some(pos + varint_bytes(tag).len()),
        parse_text(s, pos + varint_bytes(tag).len()) == Some((t, pos + text_field(tag, t).len())),
{
    let e = encode_utf8(t);
    let a = varint_bytes(tag);
    let b = varint_bytes(e.len());
    let whole = s.subrange(pos, pos + text_field(tag, t).len());
    assert(s.subrange(pos, pos + a.len()) =~= whole.subrange(0, a.len() as int));
    assert(s.subrange(pos + a.len(), pos + a.len() + b.len()) =~= whole.subrange(a.len() as int, (a.len() + b.len()) as int));
    assert(s.subrange(pos + a.len() + b.len(), pos + a.len() + b.len() + e.len()) =~= whole.subrange((a.len() + b.len()) as int, (a.len() + b.len() + e.len()) as int));
    assert(whole.subrange(0, a.len() as int) =~= a);
    assert(whole.subrange(a.len() as int, (a.len() + b.len()) as int) =~= b);
    assert(whole.subrange((a.len() + b.len()) as int, (a.len() + b.len() + e.len()) as int) =~= e);
    lemma_read_varint_bytes(s, pos, tag);
    lemma_read_varint_bytes(s, pos + a.len(), e.len());
    encode_utf8_valid_utf8(t);
    encode_utf8_decode_utf8(t);
}

/// `f` stands in `s` at `pos`.
pub open spec fn starts_with(s: Seq<u8>, pos: int, f: Seq<u8>) -> bool {
    0 <= pos && pos + f.len() <= s.len() && s.subrange(pos, pos + f.len()) == f
}

pub proof fn lemma_starts_with_split(s: Seq<u8>, pos: int, a: Seq<u8>, b: Seq<u8>)
    requires
        starts_with(s, pos, a + b),
    ensures
        starts_with(s, pos, a),
        starts_with(s, pos + a.len(), b),
{
    let w = s.subrange(pos, pos + (a + b).len());
    assert(s.subrange(pos, pos + a.len()) =~= w.subrange(0, a.len() as int));
    assert(w.subrange(0, a.len() as int) =~= a);
    assert(s.subrange(pos + a.len(), pos + a.len() + b.len()) =~= w.subrange(a.len() as int, (a.len() + b.len()) as int));
    assert(w.subrange(a.len() as int, (a.len() + b.len()) as int) =~= b);
}

/// A varint field, or nothing.
pub open spec fn opt_varint_field(tag: nat, v: Option<nat>) -> Seq<u8> {
    match v {
        Some(x) => varint_field(tag, x),
        None => Seq::empty(),
    }
}

/// A text field, or nothing.
pub open spec fn opt_text_field(tag: nat, t: Option<Seq<char>>) -> Seq<u8> {
    match t {
        Some(x) => text_field(tag, x),
        None => Seq::empty(),
    }
}

/// A varint field with tag `tag` at `pos`.
pub open spec fn parse_varint_field(s: Seq<u8>, pos: int, tag: nat) -> Option<(nat, int)> {
    match parse_tag(s, pos, tag) {
        Some(p) => read_varint(s, p),
        None => None,
    }
}

/// An optional varint field: absent where the tag at `pos` is not `tag`.
pub open spec fn parse_opt_varint(s: Seq<u8>, pos: int, tag: nat) -> Option<(Option<nat>, int)> {
    match parse_tag(s, pos, tag) {
        Some(p) => match read_varint(s, p) {
            Some((v, q)) => Some((Some(v), q)),
            None => None,
        },
        None => Some((None, pos)),
    }
}

/// An optional text field: absent where the tag at `pos` is not `tag`.
pub open spec fn parse_opt_text(s: Seq<u8>, pos: int, tag: nat) -> Option<(Option<Seq<char>>, int)> {
    match parse_tag(s, pos, tag) {
        Some(p) => match parse_text(s, p) {
            Some((t, q)) => Some((Some(t), q)),
            None => None,
        },
        None => Some((None, pos)),
    }
}

pub open spec fn opt_string_view(t: Option<String>) -> Option<Seq<char>> {
    match t {
        Some(x) => Some(x@),
        None => None,
    }
}

pub open spec fn opt_u64_view(v: Option<u64>) -> Option<nat> {
    match v {
        Some(x) => Some(x as nat),
        None => None,
    }
}

/// Appends a varint field where `v` holds a value.
pub fn encode_opt_varint_field(out: &mut Vec<u8>, tag: u64, v: Option<u64>)
    ensures
        final(out)@ == old(out)@ + opt_varint_field(tag as nat, opt_u64_view(v)),
{
    match v {
        Some(x) => encode_varint_field(out, tag, x),
        None => {
            assert(out@ =~= out@ + Seq::<u8>::empty());
        },
    }
}

/// Appends a text field where `t` holds a text.
pub fn encode_opt_text_field(out: &mut Vec<u8>, tag: u64, t: &Option<String>)
    ensures
        final(out)@ == old(out)@ + opt_text_field(tag as nat, opt_string_view(*t)),
{
    match t {
        Some(x) => encode_text_field(out, tag, x),
        None => {
            assert(out@ =~= out@ + Seq::<u8>::empty());
        },
    }
}

/// Reads a varint field with tag `tag` at `pos`.
pub fn decode_varint_field(b: &Vec<u8>, pos: usize, tag: u64) -> (r: Option<(u64, usize)>)
    ensures
        varint_result_view(r) == parse_varint_field(b@, pos as int, tag as nat),
{
    match decode_tag(b, pos, tag) {
        Some(p) => decode_varint(b, p),
        None => None,
    }
}

/// Reads an optional varint field with tag `tag` at `pos`.
pub fn decode_opt_varint(b: &Vec<u8>, pos: usize, tag: u64) -> (r: Option<(Option<u64>, usize)>)
    ensures
        match r {
            Some((v, p)) => parse_opt_varint(b@, pos as int, tag as nat) == Some((opt_u64_view(v), p as int)),
            None => parse_opt_varint(b@, pos as int, tag as nat).is_none(),
        },
{
    match decode_tag(b, pos, tag) {
        Some(p) => match decode_varint(b, p) {
            Some((v, q)) => Some((Some(v), q)),
            None => None,
        },
        None => Some((None, pos)),
    }
}

/// Reads an optional text field with tag `tag` at `pos`.
pub fn decode_opt_text(b: &Vec<u8>, pos: usize, tag: u64) -> (r: Option<(Option<String>, usize)>)
    ensures
        match r {
            Some((t, p)) => parse_opt_text(b@, pos as int, tag as nat) == Some((opt_string_view(t), p as int)),
            None => parse_opt_text(b@, pos as int, tag as nat).is_none(),
        },
{
    match decode_tag(b, pos, tag) {
        Some(p) => match decode_text(b, p) {
            Some((t, q)) => Some((Some(t), q)),
            None => None,
        },
        None => Some((None, pos)),
    }
}

/// Where the bytes at `pos` begin with another tag, or `pos` is the end, no
/// field with `tag` is read there.
pub proof fn lemma_tag_absent(s: Seq<u8>, pos: int, tag: nat, next: Option<nat>)
    requires
        match next {
            Some(o) => o != tag && o <= u64::MAX && starts_with(s, pos, varint_bytes(o)),
            None => pos == s.len(),
        },
    ensures
        parse_tag(s, pos, tag).is_none(),
{
    match next {
        Some(o) => lemma_read_varint_bytes(s, pos, o),
        None => {},
    }
}

pub proof fn lemma_varint_field_at(s: Seq<u8>, pos: int, tag: nat, v: nat)
    requires
        tag <= u64::MAX,
        v <= u64::MAX,
        starts_with(s, pos, varint_field(tag, v)),
    ensures
        parse_varint_field(s, pos, tag) == Some((v, pos + varint_field(tag, v).len())),
        parse_opt_varint(s, pos, tag) == Some((Some(v), pos + varint_field(tag, v).len())),
{
    lemma_varint_field(s, pos, tag, v);
}

pub proof fn lemma_opt_varint_at(s: Seq<u8>, pos: int, tag: nat, v: Option<nat>)
    requires
        tag <= u64::MAX,
        match v {
            Some(x) => x <= u64::MAX,
            None => parse_tag(s, pos, tag).is_none(),
        },
        starts_with(s, pos, opt_varint_field(tag, v)),
    ensures
        parse_opt_varint(s, pos, tag) == Some((v, pos + opt_varint_field(tag, v).len())),
{
    match v {
        Some(x) => lemma_varint_field(s, pos, tag, x),
        None => {},
    }
}

pub proof fn lemma_opt_text_at(s: Seq<u8>, pos: int, tag: nat, t: Option<Seq<char>>)
    requires
        tag <= u64::MAX,
        match t {
            Some(x) => text_fits(x),
            None => parse_tag(s, pos, tag).is_none(),
        },
        starts_with(s, pos, opt_text_field(tag, t)),
    ensures
        parse_opt_text(s, pos, tag) == Some((t, pos + opt_text_field(tag, t).len())),
{
    match t {
        Some(x) => lemma_text_field(s, pos, tag, x),
        None => {},
    }
}

/// A text field begins with its tag.
pub proof fn lemma_text_field_tag(s: Seq<u8>, pos: int, tag: nat, t: Seq<char>)
    requires
        starts_with(s, pos, text_field(tag, t)),
    ensures
        starts_with(s, pos, varint_bytes(tag)),
{
    let e = encode_utf8(t);
    lemma_starts_with_split(s, pos, varint_bytes(tag) + varint_bytes(e.len()), e);
    lemma_starts_with_split(s, pos, varint_bytes(tag), varint_bytes(e.len()));
}

/// A varint field begins with its tag.
pub proof fn lemma_varint_field_tag(s: Seq<u8>, pos: int, tag: nat, v: nat)
    requires
        starts_with(s, pos, varint_field(tag, v)),
    ensures
        starts_with(s, pos, varint_bytes(tag)),
{
    lemma_starts_with_split(s, pos, varint_bytes(tag), varint_bytes(v));
}

} // verus!
