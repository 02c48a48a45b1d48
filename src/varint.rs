//! Base-128 variable-length integers, as used by the wire format.
use vstd::prelude::*;

verus! {

/// Largest number of continuation bytes a varint may carry before its last byte.
pub const VARINT_BUDGET: u8 = 9;

/// The canonical encoding of `v`: seven bits per byte, least significant group
/// first, the high bit set on every byte but the last.
pub open spec fn varint_bytes(v: nat) -> Seq<u8>
    decreases v,
{
    if v < 128 {
        seq![v as u8]
    } else {
        seq![((v % 128) + 128) as u8] + varint_bytes(v / 128)
    }
}

/// Reads a varint at `pos`, allowing `budget` continuation bytes; yields its
/// value and the position after it, or nothing where the bytes run out, the
/// budget is spent, or the value does not fit in 64 bits.
pub open spec fn parse_varint(s: Seq<u8>, pos: int, budget: nat) -> Option<(nat, int)>
    decreases budget,
{
    if pos < 0 || pos >= s.len() {
        None
    } else if s[pos] < 128 {
        Some((s[pos] as nat, pos + 1))
    } else if budget == 0 {
        None
    } else {
        match parse_varint(s, pos + 1, (budget - 1) as nat) {
            Some((rest, end)) => {
                let v = (s[pos] - 128) + 128 * rest;
                if v <= u64::MAX {
                    Some((v as nat, end))
                } else {
                    None
                }
            },
            None => None,
        }
    }
}

/// A varint as the wire format reads it: at most ten bytes.
pub open spec fn read_varint(s: Seq<u8>, pos: int) -> Option<(nat, int)> {
    parse_varint(s, pos, VARINT_BUDGET as nat)
}

pub open spec fn varint_result_view(r: Option<(u64, usize)>) -> Option<(nat, int)> {
    match r {
        Some((v, e)) => Some((v as nat, e as int)),
        None => None,
    }
}

/// Appends the canonical encoding of `v` to `out`.
pub fn encode_varint(out: &mut Vec<u8>, v: u64)
    ensures
        final(out)@ == old(out)@ + varint_bytes(v as nat),
{
    let mut x: u64 = v;
    while x >= 128
        invariant
            out@ + varint_bytes(x as nat) == old(out)@ + varint_bytes(v as nat),
        decreases x,
    {
        let b: u8 = ((x % 128) + 128) as u8;
        let ghost prev = out@;
        out.push(b);
        assert(varint_bytes(x as nat) == seq![b] + varint_bytes((x / 128) as nat));
        assert(out@ + varint_bytes((x / 128) as nat) =~= prev + varint_bytes(x as nat));
        x = x / 128;
    }
    let ghost prev = out@;
    out.push(x as u8);
    assert(out@ =~= prev + varint_bytes(x as nat));
}

fn decode_varint_budget(b: &Vec<u8>, pos: usize, budget: u8) -> (r: Option<(u64, usize)>)
    ensures
        varint_result_view(r) == parse_varint(b@, pos as int, budget as nat),
    decreases budget,
{
    if pos >= b.len() {
        return None;
    }
    let byte: u8 = b[pos];
    if byte < 128 {
        return Some((byte as u64, pos + 1));
    }
    if budget == 0 {
        return None;
    }
    match decode_varint_budget(b, pos + 1, budget - 1) {
        Some((rest, end)) => {
            let low: u64 = (byte - 128) as u64;
            if rest <= (u64::MAX - low) / 128 {
                assert(low + 128 * rest <= u64::MAX) by (nonlinear_arith)
                    requires
                        rest <= (u64::MAX - low) / 128,
                        low < 128,
                ;
                Some((low + 128 * rest, end))
            } else {
                assert(low + 128 * rest > u64::MAX) by (nonlinear_arith)
                    requires
                        rest > (u64::MAX - low) / 128,
                        low < 128,
                ;
                None
            }
        },
        None => None,
    }
}

/// Reads a varint of at most ten bytes at `pos`.
pub fn decode_varint(b: &Vec<u8>, pos: usize) -> (r: Option<(u64, usize)>)
    ensures
        varint_result_view(r) == read_varint(b@, pos as int),
{
    decode_varint_budget(b, pos, VARINT_BUDGET)
}

pub open spec fn pow128(n: nat) -> nat
    decreases n,
{
    if n == 0 {
        1
    } else {
        128 * pow128((n - 1) as nat)
    }
}

proof fn lemma_varint_len_bound(v: nat, n: nat)
    requires
        n >= 1,
        v < pow128(n),
    ensures
        varint_bytes(v).len() <= n,
    decreases n,
{
    if v >= 128 {
        assert(n >= 2) by {
            if n == 1 {
                assert(pow128(1) == 128 * pow128(0));
            }
        }
        assert(v / 128 < pow128((n - 1) as nat)) by (nonlinear_arith)
            requires
                v < 128 * pow128((n - 1) as nat),
        ;
        lemma_varint_len_bound(v / 128, (n - 1) as nat);
    }
}

/// A 64-bit value takes at most ten bytes.
pub proof fn lemma_varint_len_u64(v: nat)
    requires
        v <= u64::MAX,
    ensures
        1 <= varint_bytes(v).len() <= 10,
{
    reveal_with_fuel(pow128, 11);
    assert(pow128(10) == 1180591620717411303424nat);
    lemma_varint_len_bound(v, 10);
}

proof fn lemma_parse_varint_bytes(s: Seq<u8>, pos: int, v: nat, budget: nat)
    requires
        0 <= pos,
        pos + varint_bytes(v).len() <= s.len(),
        s.subrange(pos, pos + varint_bytes(v).len()) == varint_bytes(v),
        v <= u64::MAX,
        varint_bytes(v).len() <= budget + 1,
    ensures
        parse_varint(s, pos, budget) == Some((v, pos + varint_bytes(v).len())),
    decreases v,
{
    let e = varint_bytes(v);
    assert(s[pos] == s.subrange(pos, pos + e.len())[0]);
    if v >= 128 {
        let t = varint_bytes(v / 128);
        assert(e == seq![((v % 128) + 128) as u8] + t);
        assert(s.subrange(pos + 1, pos + 1 + t.len()) =~= s.subrange(pos, pos + e.len()).subrange(1, e.len() as int));
        assert(e.subrange(1, e.len() as int) =~= t);
        lemma_parse_varint_bytes(s, pos + 1, v / 128, (budget - 1) as nat);
    }
}

/// Reading back the canonical encoding of a 64-bit value, wherever it stands,
/// yields that value and the position just past it.
pub proof fn lemma_read_varint_bytes(s: Seq<u8>, pos: int, v: nat)
    requires
        0 <= pos,
        v <= u64::MAX,
        pos + varint_bytes(v).len() <= s.len(),
        s.subrange(pos, pos + varint_bytes(v).len()) == varint_bytes(v),
    ensures
        read_varint(s, pos) == Some((v, pos + varint_bytes(v).len())),
{
    lemma_varint_len_u64(v);
    lemma_parse_varint_bytes(s, pos, v, VARINT_BUDGET as nat);
}

} // verus!
