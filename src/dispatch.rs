//! The request path: decode, authorise, route to discovery or the backend,
//! and build the reply.
use vstd::prelude::*;
use crate::backend::{Backend, BackendError, BackendKind};
use crate::discovery::{Disk, disk_views, disks_bytes, encode_disks};
use crate::messages::{
    OpBoolResult, OpBoolResultView, OpResult, OpResultView, ResultType, op_bool_result_bytes,
    op_result_bytes, parse_op_result, parse_op_bool_result, lemma_op_result_round_trip,
    lemma_op_bool_result_round_trip,
};
use crate::wire::{opt_string_view, text_fits};
use crate::request::{OpKind, Operation, OperationView, parse_operation};

verus! {

/// Why a request gets no reply.
#[derive(Clone, Copy, Debug, PartialEq, Eq, Structural)]
pub enum RequestError {
    /// The bytes are not a request.
    Decode,
    /// The caller's token was refused, or the secrets service could not be asked.
    Auth,
    /// A field that the kind of request needs is missing.
    Validation,
}

/// Why the device list could not be gathered.
#[derive(Clone, Debug)]
pub struct DiscoveryError {
    pub message: String,
}

/// Settings fixed when the service starts.
#[derive(Clone, Debug)]
pub struct ServiceConfig {
    pub backend: Backend,
    pub config_dir: String,
}

/// Decodes a request; malformed bytes give `Decode`.
pub fn decode_request(raw: &Vec<u8>) -> (r: Result<Operation, RequestError>)
    ensures
        match r {
            Ok(op) => parse_operation(raw@) == Some(op@),
            Err(e) => e == RequestError::Decode && parse_operation(raw@).is_none(),
        },
{
    match Operation::decode(raw) {
        Some(op) => Ok(op),
        None => Err(RequestError::Decode),
    }
}

/// The token gate. `secret` is what the secrets service holds under the
/// service's key, or `None` where it could not be fetched. The service has
/// always admitted a caller whose token differs from that secret; this keeps
/// that rule as it stands, though equality is the usual one.
pub fn validate_vault_token(secret: &Option<String>, client_token: &String) -> (r: Result<(), RequestError>)
    ensures
        r.is_ok() <==> (secret.is_some() && secret.unwrap()@ != client_token@),
        r.is_err() ==> r == Err::<(), RequestError>(RequestError::Auth),
{
    match secret {
        Some(s) => if *s != *client_token {
            Ok(())
        } else {
            Err(RequestError::Auth)
        },
        None => Err(RequestError::Auth),
    }
}

/// Whether a kind of request acts on one disk and so needs its path.
pub open spec fn needs_disk(k: OpKind) -> bool {
    k == OpKind::Add || k == OpKind::Remove || k == OpKind::SafeToRemove
}

/// The result record for an add or a remove.
pub open spec fn op_result_of(outcome: Result<(), BackendError>) -> OpResultView {
    match outcome {
        Ok(_) => OpResultView { result: ResultType::Success, error_msg: None },
        Err(e) => OpResultView { result: ResultType::Failure, error_msg: Some(e.message@) },
    }
}

/// The result record for a safety check.
pub open spec fn op_bool_result_of(outcome: Result<bool, BackendError>) -> OpBoolResultView {
    match outcome {
        Ok(v) => OpBoolResultView { result: ResultType::Success, value: Some(v), error_msg: None },
        Err(e) => OpBoolResultView { result: ResultType::Failure, value: None, error_msg: Some(e.message@) },
    }
}

/// The reply to an add or a remove whose backend call ended with `outcome`.
pub fn op_result_reply(outcome: Result<(), BackendError>) -> (b: Vec<u8>)
    ensures
        b@ == op_result_bytes(op_result_of(outcome)),
{
    let r = match outcome {
        Ok(_) => OpResult::ok(),
        Err(e) => OpResult::err(e.message),
    };
    r.encode()
}

/// The reply to a safety check whose backend call ended with `outcome`.
pub fn op_bool_result_reply(outcome: Result<bool, BackendError>) -> (b: Vec<u8>)
    ensures
        b@ == op_bool_result_bytes(op_bool_result_of(outcome)),
{
    let r = match outcome {
        Ok(v) => OpBoolResult::ok(v),
        Err(e) => OpBoolResult::err(e.message),
    };
    r.encode()
}

/// Asks the backend to add the disk and builds the reply.
pub fn add_disk(
    backend: &Backend,
    disk_path: &String,
    id: Option<u64>,
    journal: &Option<String>,
    journal_partition: Option<u32>,
) -> (b: Vec<u8>)
    ensures
        backend.kind() == BackendKind::Gluster ==> b@ == op_result_bytes(op_result_of(Ok(()))),
        (exists|o: Result<(), BackendError>| b@ == op_result_bytes(#[trigger] op_result_of(o))),
{
    let outcome = backend.add_disk(disk_path, id, journal, journal_partition, false);
    op_result_reply(outcome)
}

/// Asks the backend to remove the disk and builds the reply.
pub fn remove_disk(backend: &Backend, disk_path: &String) -> (b: Vec<u8>)
    ensures
        backend.kind() == BackendKind::Gluster ==> b@ == op_result_bytes(op_result_of(Ok(()))),
        (exists|o: Result<(), BackendError>| b@ == op_result_bytes(#[trigger] op_result_of(o))),
{
    let outcome = backend.remove_disk(disk_path, false);
    op_result_reply(outcome)
}

/// Asks the backend whether the disk can leave the cluster and builds the reply.
pub fn safe_to_remove_disk(backend: &Backend, disk_path: &String) -> (b: Vec<u8>)
    ensures
        backend.kind() == BackendKind::Gluster ==> b@ == op_bool_result_bytes(op_bool_result_of(Ok(true))),
        (exists|o: Result<bool, BackendError>| b@ == op_bool_result_bytes(#[trigger] op_bool_result_of(o))),
{
    let outcome = backend.safe_to_remove(disk_path, false);
    op_bool_result_reply(outcome)
}

/// The reply to a listing: the disk list, or a failed result where the
/// devices could not be enumerated.
pub fn list_disks(disks: &Result<Vec<Disk>, DiscoveryError>) -> (b: Vec<u8>)
    ensures
        match disks {
            Ok(ds) => b@ == disks_bytes(disk_views(ds@)),
            Err(e) => b@ == op_result_bytes(OpResultView { result: ResultType::Failure, error_msg: Some(e.message@) }),
        },
{
    match disks {
        Ok(ds) => encode_disks(ds),
        Err(e) => OpResult::err(e.message.clone()).encode(),
    }
}

/// What the listener does with a request.
#[derive(Debug)]
pub enum Action {
    /// Send these bytes back.
    Reply(Vec<u8>),
    /// Enumerate the devices and send back `list_disks` of the outcome.
    ListDisks,
    /// Send nothing: the request is accepted and needs no reply.
    NoReply,
    /// Send nothing: the request is dropped for this reason.
    Drop(RequestError),
}

/// Whether the token gate admits a caller: the secret was fetched and differs
/// from the caller's token.
pub open spec fn admitted(secret: Option<Seq<char>>, token: Seq<char>) -> bool {
    secret.is_some() && secret.unwrap() != token
}

/// What the service does with request `v`: dropped where the token is refused
/// or the kind lacks its disk path, otherwise routed by kind; with the gluster
/// backend every disk operation succeeds.
pub open spec fn routed(kind: BackendKind, v: OperationView, secret: Option<Seq<char>>, a: Action) -> bool {
    if !admitted(secret, v.token) {
        a == Action::Drop(RequestError::Auth)
    } else if needs_disk(v.kind) && v.disk_path.is_none() {
        a == Action::Drop(RequestError::Validation)
    } else {
        match v.kind {
            OpKind::List => a == Action::ListDisks,
            OpKind::AddPartition => a == Action::NoReply,
            OpKind::Add | OpKind::Remove => a matches Action::Reply(b)
                && (exists|o: Result<(), BackendError>| b@ == op_result_bytes(#[trigger] op_result_of(o)))
                && (kind == BackendKind::Gluster ==> b@ == op_result_bytes(op_result_of(Ok(())))),
            OpKind::SafeToRemove => a matches Action::Reply(b)
                && (exists|o: Result<bool, BackendError>| b@ == op_bool_result_bytes(#[trigger] op_bool_result_of(o)))
                && (kind == BackendKind::Gluster ==> b@ == op_bool_result_bytes(op_bool_result_of(Ok(true)))),
        }
    }
}

/// The decision for a decoded request, given the secret fetched for the token
/// gate.
pub fn handle_operation(config: &ServiceConfig, op: &Operation, secret: &Option<String>) -> (a: Action)
    ensures
        routed(config.backend.kind(), op@, opt_string_view(*secret), a),
{
    if let Err(e) = validate_vault_token(secret, &op.token) {
        return Action::Drop(e);
    }
    match op.kind {
        OpKind::List => Action::ListDisks,
        OpKind::AddPartition => Action::NoReply,
        OpKind::Add => match &op.disk_path {
            Some(d) => Action::Reply(add_disk(&config.backend, d, op.id, &op.journal_path, op.journal_partition)),
            None => Action::Drop(RequestError::Validation),
        },
        OpKind::Remove => match &op.disk_path {
            Some(d) => Action::Reply(remove_disk(&config.backend, d)),
            None => Action::Drop(RequestError::Validation),
        },
        OpKind::SafeToRemove => match &op.disk_path {
            Some(d) => Action::Reply(safe_to_remove_disk(&config.backend, d)),
            None => Action::Drop(RequestError::Validation),
        },
    }
}

/// The decision for raw request bytes: malformed bytes are dropped, and a
/// request is otherwise handled as `handle_operation` says.
pub fn handle_request(config: &ServiceConfig, raw: &Vec<u8>, secret: &Option<String>) -> (a: Action)
    ensures
        match parse_operation(raw@) {
            None => a == Action::Drop(RequestError::Decode),
            Some(v) => routed(config.backend.kind(), v, opt_string_view(*secret), a),
        },
{
    match decode_request(raw) {
        Ok(op) => handle_operation(config, &op, secret),
        Err(e) => Action::Drop(e),
    }
}

/// The reply to an add or a remove decodes to the status and message of the
/// backend's outcome.
pub proof fn lemma_op_result_reply_round_trip(outcome: Result<(), BackendError>)
    requires
        outcome matches Err(e) ==> text_fits(e.message@),
    ensures
        parse_op_result(op_result_bytes(op_result_of(outcome))) == Some(op_result_of(outcome)),
{
    lemma_op_result_round_trip(op_result_of(outcome));
}

/// The reply to a safety check decodes to the status, answer and message of
/// the backend's outcome.
pub proof fn lemma_op_bool_result_reply_round_trip(outcome: Result<bool, BackendError>)
    requires
        outcome matches Err(e) ==> text_fits(e.message@),
    ensures
        parse_op_bool_result(op_bool_result_bytes(op_bool_result_of(outcome))) == Some(op_bool_result_of(outcome)),
{
    lemma_op_bool_result_round_trip(op_bool_result_of(outcome));
}

} // verus!
