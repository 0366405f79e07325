//! The invocation bridge: from a named request with a raw argument payload
//! to exactly one outcome per request.
//!
//! `dispatch` resolves the command and validates the payload; an unknown
//! name or a schema mismatch is settled on the spot as a failure, before any
//! capability function runs. A validated request becomes an [`Execution`],
//! which the host runs exactly once (the browser launch itself is host-side
//! work); `complete` then turns the capability's report into the response,
//! flattening any error to the message string that crosses the UI boundary.
//! Every response carries the id of the request it settles, so a caller
//! correlates outcomes by id, never by submission order.

use vstd::prelude::*;

use crate::args::{ArgValue, RawArgs};
use crate::args::lookup_spec;
use crate::registry::{CommandId, CommandRegistry};
use crate::registry::{command_args_ok, schema_of};

verus! {

/// The serialized result of a successful invocation. The one command exposed
/// today returns the unit value.
#[derive(Clone, Copy, PartialEq, Eq, Structural, Debug)]
pub enum ResultValue {
    Unit,
}

/// The single success-or-failure result of one invocation. A failure carries
/// only a human-readable message: native error detail is flattened before it
/// crosses the UI boundary.
#[derive(Clone, Debug)]
pub enum Outcome {
    Success(ResultValue),
    Failure(String),
}

/// One UI-originated request: a command name, a raw argument payload, and
/// the id of the caller's response channel.
#[derive(Clone, Debug)]
pub struct Request {
    pub id: u64,
    pub name: String,
    pub args: RawArgs,
}

/// The outcome of one request, tagged with that request's id.
#[derive(Clone, Debug)]
pub struct Response {
    pub id: u64,
    pub outcome: Outcome,
}

/// A resolved and validated invocation, ready for its capability function to
/// run exactly once.
#[derive(Clone, Debug)]
pub struct Execution {
    pub id: u64,
    pub command: CommandId,
    pub args: RawArgs,
}

/// What the bridge decides about one request: settled on the spot, or to be
/// run by the host exactly once and then settled through [`complete`].
#[derive(Clone, Debug)]
pub enum Dispatch {
    Done(Response),
    Execute(Execution),
}

/// The failure message for a name no capability function is registered under.
pub open spec fn unknown_command_text() -> Seq<char> {
    "unknown command"@
}

/// The failure message for a payload that does not match the command's schema.
pub open spec fn schema_error_text() -> Seq<char> {
    "invalid arguments"@
}

/// `o` is a failure carrying exactly the message `msg`.
pub open spec fn is_failure(o: Outcome, msg: Seq<char>) -> bool {
    match o {
        Outcome::Failure(m) => m@ == msg,
        _ => false,
    }
}

/// `o` is a success carrying the unit result.
pub open spec fn is_success_unit(o: Outcome) -> bool {
    o == Outcome::Success(ResultValue::Unit)
}

/// `d` settles request `id` on the spot, as a failure with message `msg`.
pub open spec fn done_with_failure(d: Dispatch, id: u64, msg: Seq<char>) -> bool {
    match d {
        Dispatch::Done(resp) => resp.id == id && is_failure(resp.outcome, msg),
        _ => false,
    }
}

/// `d` hands `req` on for execution of command `c`, payload and id intact.
pub open spec fn executes_command(d: Dispatch, req: Request, c: CommandId) -> bool {
    match d {
        Dispatch::Execute(ex) => ex.id == req.id && ex.command == c && ex.args == req.args,
        _ => false,
    }
}

/// Resolves and validates one request.
///
/// An unregistered name is settled at once as `Failure("unknown command")`;
/// a registered name with a payload that fails the command's schema is
/// settled at once as `Failure("invalid arguments")` — in both cases no
/// capability function runs. Otherwise the request becomes an execution of
/// the resolved command, with its payload and id unchanged. Every branch
/// preserves the request's id, so the eventual outcome reaches the caller
/// that asked.
pub fn dispatch(registry: &CommandRegistry, req: Request) -> (d: Dispatch)
    requires
        registry.wf(),
    ensures
        !registry@.contains_key(req.name@) ==> done_with_failure(
            d,
            req.id,
            unknown_command_text(),
        ),
        registry@.contains_key(req.name@) && !command_args_ok(
            registry@[req.name@],
            req.args.fields@,
        ) ==> done_with_failure(d, req.id, schema_error_text()),
        registry@.contains_key(req.name@) && command_args_ok(
            registry@[req.name@],
            req.args.fields@,
        ) ==> executes_command(d, req, registry@[req.name@]),
        match d {
            Dispatch::Done(resp) => resp.id == req.id,
            Dispatch::Execute(ex) => ex.id == req.id && ex.args == req.args,
        },
{
    match registry.resolve(req.name.as_str()) {
        None => Dispatch::Done(
            Response { id: req.id, outcome: Outcome::Failure("unknown command".to_owned()) },
        ),
        Some(c) => {
            let schema = schema_of(c);
            if req.args.matches_schema(&schema) {
                Dispatch::Execute(Execution { id: req.id, command: c, args: req.args })
            } else {
                Dispatch::Done(
                    Response {
                        id: req.id,
                        outcome: Outcome::Failure("invalid arguments".to_owned()),
                    },
                )
            }
        },
    }
}

/// Settles an execution with the report of its capability function: success
/// becomes `Success(Unit)`, an error becomes `Failure` carrying exactly the
/// reported message. The response carries the execution's id.
pub fn complete(ex: &Execution, report: Result<(), String>) -> (resp: Response)
    ensures
        resp.id == ex.id,
        report is Ok ==> is_success_unit(resp.outcome),
        report matches Err(m) ==> is_failure(resp.outcome, m@),
{
    match report {
        Ok(_) => Response { id: ex.id, outcome: Outcome::Success(ResultValue::Unit) },
        Err(m) => Response { id: ex.id, outcome: Outcome::Failure(m) },
    }
}

/// The `url` argument of a browser-opening execution: the string value of
/// the payload's `url` field. Empty exactly when the payload is not one the
/// browser-opening command accepts — which `dispatch` has already ruled out
/// for any execution it hands on.
pub fn browser_url(ex: &Execution) -> (r: Option<String>)
    ensures
        match r {
            Some(u) => lookup_spec(ex.args.fields@, "url"@) == Some(ArgValue::Str(u)),
            None => !command_args_ok(CommandId::OpenBrowser, ex.args.fields@),
        },
{
    match ex.args.lookup("url") {
        Some(v) => match v {
            ArgValue::Str(s) => Some(s.clone()),
            _ => None,
        },
        None => None,
    }
}

/// Outcome correlation under concurrency: when every response carries the id
/// of the request it settles — as `dispatch` and `complete` ensure — and
/// distinct requests carry distinct ids, then each request's outcome is the
/// one response carrying its id, and no other caller's response carries it:
/// request A never receives response B's payload.
pub proof fn lemma_no_cross_delivery(requests: Seq<Request>, responses: Seq<Response>, i: int)
    requires
        responses.len() == requests.len(),
        forall|k: int| 0 <= k < requests.len() ==> (#[trigger] responses[k]).id == (
        #[trigger] requests[k]).id,
        forall|k: int, l: int|
            0 <= k < l < requests.len() ==> (#[trigger] requests[k]).id != (
            #[trigger] requests[l]).id,
        0 <= i < requests.len(),
    ensures
        responses[i].id == requests[i].id,
        forall|j: int|
            0 <= j < responses.len() && j != i ==> (#[trigger] responses[j]).id != requests[i].id,
{
    assert forall|j: int|
        0 <= j < responses.len() && j != i implies (#[trigger] responses[j]).id
        != requests[i].id by {
        if j < i {
            assert(requests[j].id != requests[i].id);
        } else {
            assert(requests[i].id != requests[j].id);
        }
    }
}

} // verus!
