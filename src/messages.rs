//! Reply records for disk operations and their encoding on the wire.
use vstd::prelude::*;
use crate::wire::{
    varint_field, opt_varint_field, opt_text_field, parse_varint_field, parse_opt_varint,
    parse_opt_text, opt_string_view, text_fits, encode_varint_field, encode_opt_varint_field,
    encode_opt_text_field, decode_varint_field, decode_opt_varint, decode_opt_text,
    lemma_starts_with_split, lemma_varint_field_at, lemma_tag_absent, lemma_opt_varint_at,
    lemma_opt_text_at, lemma_text_field_tag,
};

verus! {

/// Outcome of an operation.
#[derive(Clone, Copy, Debug, PartialEq, Eq, Structural)]
pub enum ResultType {
    Success,
    Failure,
}

pub open spec fn result_code(r: ResultType) -> nat {
    match r {
        ResultType::Success => 0,
        ResultType::Failure => 1,
    }
}

pub open spec fn result_of_code(c: nat) -> Option<ResultType> {
    if c == 0 {
        Some(ResultType::Success)
    } else if c == 1 {
        Some(ResultType::Failure)
    } else {
        None
    }
}

fn result_type_to_code(r: ResultType) -> (c: u64)
    ensures
        c as nat == result_code(r),
{
    match r {
        ResultType::Success => 0,
        ResultType::Failure => 1,
    }
}

fn result_type_from_code(c: u64) -> (r: Option<ResultType>)
    ensures
        r == result_of_code(c as nat),
{
    if c == 0 {
        Some(ResultType::Success)
    } else if c == 1 {
        Some(ResultType::Failure)
    } else {
        None
    }
}

pub const TAG_RESULT: u64 = 8;
pub const TAG_ERROR_MSG: u64 = 18;
pub const TAG_BOOL_VALUE: u64 = 16;
pub const TAG_BOOL_ERROR_MSG: u64 = 26;

/// Reply to an add or a remove: a status, and a message where it failed.
#[derive(Clone, Debug)]
pub struct OpResult {
    pub result: ResultType,
    pub error_msg: Option<String>,
}

pub struct OpResultView {
    pub result: ResultType,
    pub error_msg: Option<Seq<char>>,
}

impl View for OpResult {
    type V = OpResultView;

    open spec fn view(&self) -> OpResultView {
        OpResultView { result: self.result, error_msg: opt_string_view(self.error_msg) }
    }
}

/// Reply to a safety check: a status, the answer where it succeeded, and a
/// message where it failed.
#[derive(Clone, Debug)]
pub struct OpBoolResult {
    pub result: ResultType,
    pub value: Option<bool>,
    pub error_msg: Option<String>,
}

pub struct OpBoolResultView {
    pub result: ResultType,
    pub value: Option<bool>,
    pub error_msg: Option<Seq<char>>,
}

impl View for OpBoolResult {
    type V = OpBoolResultView;

    open spec fn view(&self) -> OpBoolResultView {
        OpBoolResultView {
            result: self.result,
            value: self.value,
            error_msg: opt_string_view(self.error_msg),
        }
    }
}

pub open spec fn bool_code(b: bool) -> nat {
    if b {
        1
    } else {
        0
    }
}

pub open spec fn opt_bool_code(v: Option<bool>) -> Option<nat> {
    match v {
        Some(b) => Some(bool_code(b)),
        None => None,
    }
}

/// The wire form of an operation result.
pub open spec fn op_result_bytes(r: OpResultView) -> Seq<u8> {
    varint_field(TAG_RESULT as nat, result_code(r.result)) + opt_text_field(TAG_ERROR_MSG as nat, r.error_msg)
}

/// The wire form of a boolean operation result.
pub open spec fn op_bool_result_bytes(r: OpBoolResultView) -> Seq<u8> {
    varint_field(TAG_RESULT as nat, result_code(r.result))
        + opt_varint_field(TAG_BOOL_VALUE as nat, opt_bool_code(r.value))
        + opt_text_field(TAG_BOOL_ERROR_MSG as nat, r.error_msg)
}

/// Reads an operation result that spans all of `s`.
pub open spec fn parse_op_result(s: Seq<u8>) -> Option<OpResultView> {
    match parse_varint_field(s, 0, TAG_RESULT as nat) {
        Some((c, p)) => match result_of_code(c) {
            Some(result) => match parse_opt_text(s, p, TAG_ERROR_MSG as nat) {
                Some((error_msg, q)) => if q == s.len() {
                    Some(OpResultView { result, error_msg })
                } else {
                    None
                },
                None => None,
            },
            None => None,
        },
        None => None,
    }
}

pub open spec fn bool_of_opt_code(v: Option<nat>) -> Option<Option<bool>> {
    match v {
        Some(c) => if c == 0 {
            Some(Some(false))
        } else if c == 1 {
            Some(Some(true))
        } else {
            None
        },
        None => Some(None),
    }
}

/// Reads a boolean operation result that spans all of `s`.
pub open spec fn parse_op_bool_result(s: Seq<u8>) -> Option<OpBoolResultView> {
    match parse_varint_field(s, 0, TAG_RESULT as nat) {
        Some((c, p)) => match result_of_code(c) {
            Some(result) => match parse_opt_varint(s, p, TAG_BOOL_VALUE as nat) {
                Some((vc, p2)) => match bool_of_opt_code(vc) {
                    Some(value) => match parse_opt_text(s, p2, TAG_BOOL_ERROR_MSG as nat) {
                        Some((error_msg, q)) => if q == s.len() {
                            Some(OpBoolResultView { result, value, error_msg })
                        } else {
                            None
                        },
                        None => None,
                    },
                    None => None,
                },
                None => None,
            },
            None => None,
        },
        None => None,
    }
}

pub open spec fn opt_text_fits(t: Option<Seq<char>>) -> bool {
    match t {
        Some(x) => text_fits(x),
        None => true,
    }
}

impl OpResult {
    /// A successful result.
    pub fn ok() -> (r: OpResult)
        ensures
            r@ == (OpResultView { result: ResultType::Success, error_msg: None }),
    {
        OpResult { result: ResultType::Success, error_msg: None }
    }

    /// A failed result carrying `msg`.
    pub fn err(msg: String) -> (r: OpResult)
        ensures
            r@ == (OpResultView { result: ResultType::Failure, error_msg: Some(msg@) }),
    {
        OpResult { result: ResultType::Failure, error_msg: Some(msg) }
    }

    /// The wire form of this result.
    pub fn encode(&self) -> (b: Vec<u8>)
        ensures
            b@ == op_result_bytes(self@),
    {
        let mut out: Vec<u8> = Vec::new();
        encode_varint_field(&mut out, TAG_RESULT, result_type_to_code(self.result));
        encode_opt_text_field(&mut out, TAG_ERROR_MSG, &self.error_msg);
        assert(out@ =~= op_result_bytes(self@));
        out
    }

    /// Reads a result from its wire form; `None` where the bytes are malformed.
    pub fn decode(b: &Vec<u8>) -> (r: Option<OpResult>)
        ensures
            match r {
                Some(x) => parse_op_result(b@) == Some(x@),
                None => parse_op_result(b@).is_none(),
            },
    {
        let (c, p) = match decode_varint_field(b, 0, TAG_RESULT) {
            Some(x) => x,
            None => return None,
        };
        let result = match result_type_from_code(c) {
            Some(x) => x,
            None => return None,
        };
        let (error_msg, q) = match decode_opt_text(b, p, TAG_ERROR_MSG) {
            Some(x) => x,
            None => return None,
        };
        if q == b.len() {
            Some(OpResult { result, error_msg })
        } else {
            None
        }
    }
}

impl OpBoolResult {
    /// A successful check answering `value`.
    pub fn ok(value: bool) -> (r: OpBoolResult)
        ensures
            r@ == (OpBoolResultView { result: ResultType::Success, value: Some(value), error_msg: None }),
    {
        OpBoolResult { result: ResultType::Success, value: Some(value), error_msg: None }
    }

    /// A failed check carrying `msg`.
    pub fn err(msg: String) -> (r: OpBoolResult)
        ensures
            r@ == (OpBoolResultView { result: ResultType::Failure, value: None, error_msg: Some(msg@) }),
    {
        OpBoolResult { result: ResultType::Failure, value: None, error_msg: Some(msg) }
    }

    /// The wire form of this result.
    pub fn encode(&self) -> (b: Vec<u8>)
        ensures
            b@ == op_bool_result_bytes(self@),
    {
        let mut out: Vec<u8> = Vec::new();
        encode_varint_field(&mut out, TAG_RESULT, result_type_to_code(self.result));
        let code: Option<u64> = match self.value {
            Some(true) => Some(1),
            Some(false) => Some(0),
            None => None,
        };
        encode_opt_varint_field(&mut out, TAG_BOOL_VALUE, code);
        encode_opt_text_field(&mut out, TAG_BOOL_ERROR_MSG, &self.error_msg);
        assert(out@ =~= op_bool_result_bytes(self@));
        out
    }

    /// Reads a result from its wire form; `None` where the bytes are malformed.
    pub fn decode(b: &Vec<u8>) -> (r: Option<OpBoolResult>)
        ensures
            match r {
                Some(x) => parse_op_bool_result(b@) == Some(x@),
                None => parse_op_bool_result(b@).is_none(),
            },
    {
        let (c, p) = match decode_varint_field(b, 0, TAG_RESULT) {
            Some(x) => x,
            None => return None,
        };
        let result = match result_type_from_code(c) {
            Some(x) => x,
            None => return None,
        };
        let (vc, p2) = match decode_opt_varint(b, p, TAG_BOOL_VALUE) {
            Some(x) => x,
            None => return None,
        };
        let value: Option<bool> = match vc {
            Some(0) => Some(false),
            Some(1) => Some(true),
            Some(_) => return None,
            None => None,
        };
        let (error_msg, q) = match decode_opt_text(b, p2, TAG_BOOL_ERROR_MSG) {
            Some(x) => x,
            None => return None,
        };
        if q == b.len() {
            Some(OpBoolResult { result, value, error_msg })
        } else {
            None
        }
    }
}

/// Decoding the wire form of an operation result gives back its status and
/// message.
pub proof fn lemma_op_result_round_trip(r: OpResultView)
    requires
        opt_text_fits(r.error_msg),
    ensures
        parse_op_result(op_result_bytes(r)) == Some(r),
{
    let s = op_result_bytes(r);
    let a = varint_field(TAG_RESULT as nat, result_code(r.result));
    let b = opt_text_field(TAG_ERROR_MSG as nat, r.error_msg);
    assert(s.subrange(0, s.len() as int) =~= s);
    lemma_starts_with_split(s, 0, a, b);
    lemma_varint_field_at(s, 0, TAG_RESULT as nat, result_code(r.result));
    if r.error_msg.is_none() {
        lemma_tag_absent(s, a.len() as int, TAG_ERROR_MSG as nat, None);
    }
    lemma_opt_text_at(s, a.len() as int, TAG_ERROR_MSG as nat, r.error_msg);
}

/// Decoding the wire form of a boolean operation result gives back its
/// status, value and message.
pub proof fn lemma_op_bool_result_round_trip(r: OpBoolResultView)
    requires
        opt_text_fits(r.error_msg),
    ensures
        parse_op_bool_result(op_bool_result_bytes(r)) == Some(r),
{
    let s = op_bool_result_bytes(r);
    let a = varint_field(TAG_RESULT as nat, result_code(r.result));
    let v = opt_varint_field(TAG_BOOL_VALUE as nat, opt_bool_code(r.value));
    let m = opt_text_field(TAG_BOOL_ERROR_MSG as nat, r.error_msg);
    assert(s.subrange(0, s.len() as int) =~= s);
    lemma_starts_with_split(s, 0, a + v, m);
    lemma_starts_with_split(s, 0, a, v);
    lemma_varint_field_at(s, 0, TAG_RESULT as nat, result_code(r.result));
    let p = a.len() as int;
    let p2 = (a.len() + v.len()) as int;
    match r.error_msg {
        Some(x) => lemma_text_field_tag(s, p2, TAG_BOOL_ERROR_MSG as nat, x),
        None => {},
    }
    if r.value.is_none() {
        match r.error_msg {
            Some(x) => lemma_tag_absent(s, p, TAG_BOOL_VALUE as nat, Some(TAG_BOOL_ERROR_MSG as nat)),
            None => lemma_tag_absent(s, p, TAG_BOOL_VALUE as nat, None),
        }
    }
    lemma_opt_varint_at(s, p, TAG_BOOL_VALUE as nat, opt_bool_code(r.value));
    if r.error_msg.is_none() {
        lemma_tag_absent(s, p2, TAG_BOOL_ERROR_MSG as nat, None);
    }
    lemma_opt_text_at(s, p2, TAG_BOOL_ERROR_MSG as nat, r.error_msg);
}

} // verus!
