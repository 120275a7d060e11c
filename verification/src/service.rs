//! The service's decisions around each request: the routing table, the
//! fixed replies of the home and fallback handlers, the validation step in
//! front of every workspace-based operation, and the mapping from a
//! finished tool launch to an HTTP reply.

use vstd::prelude::*;
use crate::invoker::SpawnOutcome;
use crate::submission::{ContractCode, validate_submission, submission_acceptable};
use crate::text::{is_blank, str_eq};
use crate::workspace::{WorkspacePlan, workspace_plan, is_plan_for, plan_well_formed};

verus! {

/// One HTTP reply as the library decides it: the status code and the plain
/// body text, serialized outside this crate.
pub struct HttpReply {
    pub status: u16,
    pub body: String,
}

/// The handlers of the service, one per routed verb-and-path pair, plus
/// the fallback.
#[derive(Clone, Copy, PartialEq, Eq, Structural, Debug)]
pub enum Route {
    Home,
    Audit,
    Compile,
    Deploy,
    Prove,
    Movement,
    Chat,
    NotFound,
}

/// The routing table: which handler serves a verb and a path. Anything not
/// listed falls through to `NotFound`.
pub open spec fn route_of(method: Seq<char>, path: Seq<char>) -> Route {
    if method == "GET"@ && path == "/"@ {
        Route::Home
    } else if method == "POST"@ && path == "/audit"@ {
        Route::Audit
    } else if method == "POST"@ && path == "/compile"@ {
        Route::Compile
    } else if method == "POST"@ && path == "/deploy"@ {
        Route::Deploy
    } else if method == "POST"@ && path == "/prove"@ {
        Route::Prove
    } else if method == "GET"@ && path == "/movement"@ {
        Route::Movement
    } else if method == "POST"@ && path == "/chat"@ {
        Route::Chat
    } else {
        Route::NotFound
    }
}

/// Resolves a request's verb and path against the routing table.
pub fn route(method: &str, path: &str) -> (r: Route)
    ensures
        r == route_of(method@, path@),
{
    let get = str_eq(method, "GET");
    let post = str_eq(method, "POST");
    if get && str_eq(path, "/") {
        Route::Home
    } else if post && str_eq(path, "/audit") {
        Route::Audit
    } else if post && str_eq(path, "/compile") {
        Route::Compile
    } else if post && str_eq(path, "/deploy") {
        Route::Deploy
    } else if post && str_eq(path, "/prove") {
        Route::Prove
    } else if get && str_eq(path, "/movement") {
        Route::Movement
    } else if post && str_eq(path, "/chat") {
        Route::Chat
    } else {
        Route::NotFound
    }
}

/// The endpoint list the home handler returns, a fixed enumeration of the
/// service's surface; no request changes it.
pub fn endpoints() -> (r: Vec<String>)
    ensures
        r@.len() == 7,
        r@[0]@ == "GET /"@,
        r@[1]@ == "POST /audit"@,
        r@[2]@ == "POST /compile"@,
        r@[3]@ == "POST /deploy"@,
        r@[4]@ == "POST /prove"@,
        r@[5]@ == "POST /chat"@,
        r@[6]@ == "GET /movement"@,
{
    let mut r: Vec<String> = Vec::new();
    r.push(String::from_str("GET /"));
    r.push(String::from_str("POST /audit"));
    r.push(String::from_str("POST /compile"));
    r.push(String::from_str("POST /deploy"));
    r.push(String::from_str("POST /prove"));
    r.push(String::from_str("POST /chat"));
    r.push(String::from_str("GET /movement"));
    r
}

/// The fallback reply for any unrouted path.
pub fn not_found_reply() -> (r: HttpReply)
    ensures
        r.status == 404,
        r.body@ == "Resource not found"@,
{
    HttpReply { status: 404, body: String::from_str("Resource not found") }
}

/// The validation step in front of compile, deploy and prove: a submission
/// with a blank field is answered at once, code checked first, and no
/// workspace is materialized and no subprocess launched for it; an
/// acceptable submission passes through untouched.
pub fn screen_submission(sub: &ContractCode) -> (r: Result<(), HttpReply>)
    ensures
        r is Ok <==> submission_acceptable(*sub),
        is_blank(sub.code@) ==> (r matches Err(reply) && reply.status == 500 && reply.body@
            == "Empty code"@),
        !is_blank(sub.code@) && is_blank(sub.move_toml@) ==> (r matches Err(reply) && reply.status
            == 500 && reply.body@ == "Empty manifest"@),
{
    match validate_submission(sub) {
        Ok(()) => Ok(()),
        Err(e) => Err(
            HttpReply { status: 500, body: String::from_str(e.message()) },
        ),
    }
}

/// What a compile, deploy or prove request comes to after validation:
/// either the reply to send at once, with no workspace materialized and no
/// subprocess launched, or the workspace plan to materialize and run the
/// tool against.
pub enum ToolRequest {
    Reject(HttpReply),
    Launch(WorkspacePlan),
}

/// The one pipeline shared by compile, deploy and prove up to the point
/// where the filesystem is touched: a submission with a blank field is
/// rejected with its error reply, and only an acceptable one yields a
/// workspace plan. A rejection carries no plan and no invocation, so
/// nothing is materialized or launched for it.
pub fn prepare_tool_request(sub: &ContractCode) -> (r: ToolRequest)
    ensures
        r is Launch <==> submission_acceptable(*sub),
        r matches ToolRequest::Launch(plan) ==> is_plan_for(plan, sub.code@, sub.move_toml@)
            && plan_well_formed(plan),
        is_blank(sub.code@) ==> (r matches ToolRequest::Reject(reply) && reply.status == 500
            && reply.body@ == "Empty code"@),
        !is_blank(sub.code@) && is_blank(sub.move_toml@) ==> (r matches ToolRequest::Reject(reply)
            && reply.status == 500 && reply.body@ == "Empty manifest"@),
{
    match screen_submission(sub) {
        Ok(()) => ToolRequest::Launch(workspace_plan(sub)),
        Err(reply) => ToolRequest::Reject(reply),
    }
}

/// Maps a finished tool launch to the HTTP reply of compile, deploy, prove
/// and the help endpoint: a child that ran is answered 200 with the
/// classified text, the standard-output text on a zero exit status and the
/// standard-error text otherwise -- a failed build keeps status 200 and
/// surfaces its failure in the body alone; a child that could not be
/// spawned is answered 500 with the command-error message.
pub fn tool_reply(outcome: SpawnOutcome) -> (r: HttpReply)
    ensures
        outcome matches SpawnOutcome::Spawned { status_ok, stdout_text, stderr_text } ==> (
        r.status == 200 && r.body@ == (
        if status_ok {
            stdout_text@
        } else {
            stderr_text@
        })),
        outcome is SpawnFailed ==> r.status == 500 && r.body@ == "Command error"@,
{
    match crate::invoker::complete_invocation(outcome) {
        Ok(pr) => HttpReply { status: 200, body: pr.combined_output },
        Err(e) => HttpReply { status: 500, body: String::from_str(e.message()) },
    }
}

} // verus!
