//! Requests: the operation a client asks for, and its wire form.
use vstd::prelude::*;
use crate::wire::{
    varint_field, opt_varint_field, opt_text_field, text_field, parse_varint_field,
    parse_opt_varint, parse_opt_text, parse_tag, parse_text, opt_string_view, opt_u64_view,
    text_fits, encode_varint_field, encode_opt_varint_field, encode_opt_text_field,
    encode_text_field, decode_varint_field, decode_opt_varint, decode_opt_text, decode_tag,
    decode_text, lemma_starts_with_split, lemma_varint_field_at, lemma_tag_absent,
    lemma_opt_varint_at, lemma_opt_text_at, lemma_text_field_tag, lemma_varint_field_tag,
    lemma_text_field, starts_with,
};
use crate::messages::opt_text_fits;

verus! {

/// What a request asks for.
#[derive(Clone, Copy, Debug, PartialEq, Eq, Structural)]
pub enum OpKind {
    Add,
    Remove,
    List,
    SafeToRemove,
    AddPartition,
}

pub open spec fn kind_code(k: OpKind) -> nat {
    match k {
        OpKind::Add => 0,
        OpKind::Remove => 1,
        OpKind::List => 2,
        OpKind::SafeToRemove => 3,
        OpKind::AddPartition => 4,
    }
}

pub open spec fn kind_of_code(c: nat) -> Option<OpKind> {
    if c == 0 {
        Some(OpKind::Add)
    } else if c == 1 {
        Some(OpKind::Remove)
    } else if c == 2 {
        Some(OpKind::List)
    } else if c == 3 {
        Some(OpKind::SafeToRemove)
    } else if c == 4 {
        Some(OpKind::AddPartition)
    } else {
        None
    }
}

fn kind_to_code(k: OpKind) -> (c: u64)
    ensures
        c as nat == kind_code(k),
{
    match k {
        OpKind::Add => 0,
        OpKind::Remove => 1,
        OpKind::List => 2,
        OpKind::SafeToRemove => 3,
        OpKind::AddPartition => 4,
    }
}

fn kind_from_code(c: u64) -> (k: Option<OpKind>)
    ensures
        k == kind_of_code(c as nat),
{
    if c == 0 {
        Some(OpKind::Add)
    } else if c == 1 {
        Some(OpKind::Remove)
    } else if c == 2 {
        Some(OpKind::List)
    } else if c == 3 {
        Some(OpKind::SafeToRemove)
    } else if c == 4 {
        Some(OpKind::AddPartition)
    } else {
        None
    }
}

pub const TAG_KIND: u64 = 8;
pub const TAG_TOKEN: u64 = 18;
pub const TAG_DISK_PATH: u64 = 26;
pub const TAG_ID: u64 = 32;
pub const TAG_JOURNAL_PATH: u64 = 42;
pub const TAG_JOURNAL_PARTITION: u64 = 48;

/// A client request.
#[derive(Clone, Debug)]
pub struct Operation {
    pub kind: OpKind,
    pub token: String,
    pub disk_path: Option<String>,
    pub id: Option<u64>,
    pub journal_path: Option<String>,
    pub journal_partition: Option<u32>,
}

pub struct OperationView {
    pub kind: OpKind,
    pub token: Seq<char>,
    pub disk_path: Option<Seq<char>>,
    pub id: Option<nat>,
    pub journal_path: Option<Seq<char>>,
    pub journal_partition: Option<nat>,
}

pub open spec fn opt_u32_view(v: Option<u32>) -> Option<nat> {
    match v {
        Some(x) => Some(x as nat),
        None => None,
    }
}

impl View for Operation {
    type V = OperationView;

    open spec fn view(&self) -> OperationView {
        OperationView {
            kind: self.kind,
            token: self.token@,
            disk_path: opt_string_view(self.disk_path),
            id: opt_u64_view(self.id),
            journal_path: opt_string_view(self.journal_path),
            journal_partition: opt_u32_view(self.journal_partition),
        }
    }
}

/// The wire form of a request.
pub open spec fn operation_bytes(op: OperationView) -> Seq<u8> {
    varint_field(TAG_KIND as nat, kind_code(op.kind))
        + text_field(TAG_TOKEN as nat, op.token)
        + opt_text_field(TAG_DISK_PATH as nat, op.disk_path)
        + opt_varint_field(TAG_ID as nat, op.id)
        + opt_text_field(TAG_JOURNAL_PATH as nat, op.journal_path)
        + opt_varint_field(TAG_JOURNAL_PARTITION as nat, op.journal_partition)
}

/// Reads a request that spans all of `s`.
pub open spec fn parse_operation(s: Seq<u8>) -> Option<OperationView> {
    match parse_varint_field(s, 0, TAG_KIND as nat) {
        Some((c, p1)) => match kind_of_code(c) {
            Some(kind) => match parse_tag(s, p1, TAG_TOKEN as nat) {
                Some(p2) => match parse_text(s, p2) {
                    Some((token, p3)) => match parse_opt_text(s, p3, TAG_DISK_PATH as nat) {
                        Some((disk_path, p4)) => match parse_opt_varint(s, p4, TAG_ID as nat) {
                            Some((id, p5)) => match parse_opt_text(s, p5, TAG_JOURNAL_PATH as nat) {
                                Some((journal_path, p6)) => match parse_opt_varint(s, p6, TAG_JOURNAL_PARTITION as nat) {
                                    Some((journal_partition, p7)) => if p7 == s.len() && (match journal_partition {
                                        Some(j) => j <= u32::MAX,
                                        None => true,
                                    }) {
                                        Some(OperationView { kind, token, disk_path, id, journal_path, journal_partition })
                                    } else {
                                        None
                                    },
                                    None => None,
                                },
                                None => None,
                            },
                            None => None,
                        },
                        None => None,
                    },
                    None => None,
                },
                None => None,
            },
            None => None,
        },
        None => None,
    }
}

/// Whether every text of the request can be announced by a varint and every
/// number fits its field.
pub open spec fn operation_fits(op: OperationView) -> bool {
    &&& text_fits(op.token)
    &&& opt_text_fits(op.disk_path)
    &&& opt_text_fits(op.journal_path)
    &&& match op.id {
        Some(i) => i <= u64::MAX,
        None => true,
    }
    &&& match op.journal_partition {
        Some(j) => j <= u32::MAX,
        None => true,
    }
}

impl Operation {
    /// The wire form of this request.
    pub fn encode(&self) -> (b: Vec<u8>)
        ensures
            b@ == operation_bytes(self@),
    {
        let mut out: Vec<u8> = Vec::new();
        encode_varint_field(&mut out, TAG_KIND, kind_to_code(self.kind));
        encode_text_field(&mut out, TAG_TOKEN, &self.token);
        encode_opt_text_field(&mut out, TAG_DISK_PATH, &self.disk_path);
        encode_opt_varint_field(&mut out, TAG_ID, self.id);
        encode_opt_text_field(&mut out, TAG_JOURNAL_PATH, &self.journal_path);
        let jp: Option<u64> = match self.journal_partition {
            Some(j) => Some(j as u64),
            None => None,
        };
        encode_opt_varint_field(&mut out, TAG_JOURNAL_PARTITION, jp);
        assert(out@ =~= operation_bytes(self@));
        out
    }

    /// Reads a request from its wire form; `None` where the bytes are malformed.
    pub fn decode(b: &Vec<u8>) -> (r: Option<Operation>)
        ensures
            match r {
                Some(op) => parse_operation(b@) == Some(op@),
                None => parse_operation(b@).is_none(),
            },
    {
        let (c, p1) = match decode_varint_field(b, 0, TAG_KIND) {
            Some(x) => x,
            None => return None,
        };
        let kind = match kind_from_code(c) {
            Some(k) => k,
            None => return None,
        };
        let p2 = match decode_tag(b, p1, TAG_TOKEN) {
            Some(p) => p,
            None => return None,
        };
        let (token, p3) = match decode_text(b, p2) {
            Some(x) => x,
            None => return None,
        };
        let (disk_path, p4) = match decode_opt_text(b, p3, TAG_DISK_PATH) {
            Some(x) => x,
            None => return None,
        };
        let (id, p5) = match decode_opt_varint(b, p4, TAG_ID) {
            Some(x) => x,
            None => return None,
        };
        let (journal_path, p6) = match decode_opt_text(b, p5, TAG_JOURNAL_PATH) {
            Some(x) => x,
            None => return None,
        };
        let (jp, p7) = match decode_opt_varint(b, p6, TAG_JOURNAL_PARTITION) {
            Some(x) => x,
            None => return None,
        };
        if p7 != b.len() {
            return None;
        }
        let journal_partition: Option<u32> = match jp {
            Some(j) => if j <= u32::MAX as u64 {
                Some(j as u32)
            } else {
                return None;
            },
            None => None,
        };
        Some(Operation { kind, token, disk_path, id, journal_path, journal_partition })
    }
}

/// Decoding the wire form of a request gives back the request.
#[verifier::spinoff_prover]
#[verifier::rlimit(50)]
pub proof fn lemma_operation_round_trip(op: OperationView)
    requires
        operation_fits(op),
    ensures
        parse_operation(operation_bytes(op)) == Some(op),
{
    let s = operation_bytes(op);
    let a = varint_field(TAG_KIND as nat, kind_code(op.kind));
    let t = text_field(TAG_TOKEN as nat, op.token);
    let d = opt_text_field(TAG_DISK_PATH as nat, op.disk_path);
    let i = opt_varint_field(TAG_ID as nat, op.id);
    let j = opt_text_field(TAG_JOURNAL_PATH as nat, op.journal_path);
    let k = opt_varint_field(TAG_JOURNAL_PARTITION as nat, op.journal_partition);
    let p1 = a.len() as int;
    let p2 = p1 + crate::varint::varint_bytes(TAG_TOKEN as nat).len();
    let p3 = p1 + t.len();
    let p4 = p3 + d.len();
    let p5 = p4 + i.len();
    let p6 = p5 + j.len();
    let p7 = p6 + k.len();
    assert(p7 == s.len());
    assert(starts_with(s, 0, a) && starts_with(s, p1, t) && starts_with(s, p3, d)
        && starts_with(s, p4, i) && starts_with(s, p5, j) && starts_with(s, p6, k)) by {
        assert(s.subrange(0, s.len() as int) =~= s);
        lemma_starts_with_split(s, 0, a + t + d + i + j, k);
        lemma_starts_with_split(s, 0, a + t + d + i, j);
        lemma_starts_with_split(s, 0, a + t + d, i);
        lemma_starts_with_split(s, 0, a + t, d);
        lemma_starts_with_split(s, 0, a, t);
    }
    assert(parse_varint_field(s, 0, TAG_KIND as nat) == Some((kind_code(op.kind), p1))) by {
        lemma_varint_field_at(s, 0, TAG_KIND as nat, kind_code(op.kind));
    }
    assert(parse_tag(s, p1, TAG_TOKEN as nat) == Some(p2) && parse_text(s, p2) == Some((op.token, p3))) by {
        lemma_text_field(s, p1, TAG_TOKEN as nat, op.token);
    }
    assert(parse_opt_varint(s, p6, TAG_JOURNAL_PARTITION as nat) == Some((op.journal_partition, p7))) by {
        if op.journal_partition.is_none() {
            lemma_tag_absent(s, p6, TAG_JOURNAL_PARTITION as nat, None);
        }
        lemma_opt_varint_at(s, p6, TAG_JOURNAL_PARTITION as nat, op.journal_partition);
    }
    assert(parse_opt_text(s, p5, TAG_JOURNAL_PATH as nat) == Some((op.journal_path, p6))) by {
        if op.journal_path.is_none() {
            match op.journal_partition {
                Some(x) => {
                    lemma_varint_field_tag(s, p6, TAG_JOURNAL_PARTITION as nat, x);
                    lemma_tag_absent(s, p5, TAG_JOURNAL_PATH as nat, Some(TAG_JOURNAL_PARTITION as nat));
                },
                None => lemma_tag_absent(s, p5, TAG_JOURNAL_PATH as nat, None),
            }
        }
        lemma_opt_text_at(s, p5, TAG_JOURNAL_PATH as nat, op.journal_path);
    }
    assert(parse_opt_varint(s, p4, TAG_ID as nat) == Some((op.id, p5))) by {
        if op.id.is_none() {
            if op.journal_path.is_some() {
                lemma_text_field_tag(s, p5, TAG_JOURNAL_PATH as nat, op.journal_path.unwrap());
                lemma_tag_absent(s, p4, TAG_ID as nat, Some(TAG_JOURNAL_PATH as nat));
            } else if op.journal_partition.is_some() {
                lemma_varint_field_tag(s, p6, TAG_JOURNAL_PARTITION as nat, op.journal_partition.unwrap());
                lemma_tag_absent(s, p4, TAG_ID as nat, Some(TAG_JOURNAL_PARTITION as nat));
            } else {
                lemma_tag_absent(s, p4, TAG_ID as nat, None);
            }
        }
        lemma_opt_varint_at(s, p4, TAG_ID as nat, op.id);
    }
    assert(parse_opt_text(s, p3, TAG_DISK_PATH as nat) == Some((op.disk_path, p4))) by {
        if op.disk_path.is_none() {
            if op.id.is_some() {
                lemma_varint_field_tag(s, p4, TAG_ID as nat, op.id.unwrap());
                lemma_tag_absent(s, p3, TAG_DISK_PATH as nat, Some(TAG_ID as nat));
            } else if op.journal_path.is_some() {
                lemma_text_field_tag(s, p5, TAG_JOURNAL_PATH as nat, op.journal_path.unwrap());
                lemma_tag_absent(s, p3, TAG_DISK_PATH as nat, Some(TAG_JOURNAL_PATH as nat));
            } else if op.journal_partition.is_some() {
                lemma_varint_field_tag(s, p6, TAG_JOURNAL_PARTITION as nat, op.journal_partition.unwrap());
                lemma_tag_absent(s, p3, TAG_DISK_PATH as nat, Some(TAG_JOURNAL_PARTITION as nat));
            } else {
                lemma_tag_absent(s, p3, TAG_DISK_PATH as nat, None);
            }
        }
        lemma_opt_text_at(s, p3, TAG_DISK_PATH as nat, op.disk_path);
    }
    assert(kind_of_code(kind_code(op.kind)) == Some(op.kind));
}

} // verus!
