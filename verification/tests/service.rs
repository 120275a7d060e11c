use agent::invoker::{tool_invocation, SpawnOutcome, ToolOp};
use agent::service::{
    endpoints, not_found_reply, prepare_tool_request, route, screen_submission, tool_reply, Route,
    ToolRequest,
};
use agent::submission::ContractCode;

fn sub(code: &str, move_toml: &str) -> ContractCode {
    ContractCode { code: code.to_string(), move_toml: move_toml.to_string() }
}

#[test]
fn routing_table() {
    assert_eq!(route("GET", "/"), Route::Home);
    assert_eq!(route("POST", "/audit"), Route::Audit);
    assert_eq!(route("POST", "/compile"), Route::Compile);
    assert_eq!(route("POST", "/deploy"), Route::Deploy);
    assert_eq!(route("POST", "/prove"), Route::Prove);
    assert_eq!(route("GET", "/movement"), Route::Movement);
    assert_eq!(route("POST", "/chat"), Route::Chat);
}

#[test]
fn unknown_paths_fall_through() {
    assert_eq!(route("GET", "/nope"), Route::NotFound);
    assert_eq!(route("POST", "/"), Route::NotFound);
    assert_eq!(route("GET", "/compile"), Route::NotFound);
    assert_eq!(route("PUT", "/compile"), Route::NotFound);
    assert_eq!(route("DELETE", "/chat"), Route::NotFound);
}

#[test]
fn not_found_reply_shape() {
    let r = not_found_reply();
    assert_eq!(r.status, 404);
    assert_eq!(r.body, "Resource not found");
}

#[test]
fn endpoint_list_is_exact() {
    let expected = vec![
        "GET /",
        "POST /audit",
        "POST /compile",
        "POST /deploy",
        "POST /prove",
        "POST /chat",
        "GET /movement",
    ];
    assert_eq!(endpoints(), expected);
}

#[test]
fn endpoint_list_is_unaffected_by_requests() {
    let before = endpoints();
    // handle a few requests of every flavor in between
    let _ = prepare_tool_request(&sub("", ""));
    let _ = prepare_tool_request(&sub("module 0x1::M {}", "[package]"));
    let _ = tool_reply(SpawnOutcome::SpawnFailed);
    let _ = route("POST", "/deploy");
    let _ = not_found_reply();
    assert_eq!(endpoints(), before);
}

#[test]
fn screen_rejects_blank_code_with_500() {
    let r = screen_submission(&sub("  ", "[package]"));
    let reply = r.expect_err("blank code must be rejected");
    assert_eq!(reply.status, 500);
    assert_eq!(reply.body, "Empty code");
}

#[test]
fn screen_rejects_blank_manifest_with_500() {
    let r = screen_submission(&sub("module 0x1::M {}", ""));
    let reply = r.expect_err("blank manifest must be rejected");
    assert_eq!(reply.status, 500);
    assert_eq!(reply.body, "Empty manifest");
}

#[test]
fn screen_accepts_nonblank_submission() {
    assert!(screen_submission(&sub("module 0x1::M {}", "[package]")).is_ok());
}

#[test]
fn rejected_request_carries_no_plan() {
    match prepare_tool_request(&sub("", "[package]")) {
        ToolRequest::Reject(reply) => {
            assert_eq!(reply.status, 500);
            assert_eq!(reply.body, "Empty code");
        }
        ToolRequest::Launch(_) => panic!("a blank submission must not launch anything"),
    }
}

#[test]
fn accepted_request_carries_the_plan() {
    match prepare_tool_request(&sub("module 0x1::M {}", "[package]\nname=\"M\"")) {
        ToolRequest::Launch(plan) => {
            assert_eq!(plan.files.len(), 2);
            assert_eq!(plan.files[0].contents, "[package]\nname=\"M\"");
            assert_eq!(plan.files[1].contents, "module 0x1::M {}");
        }
        ToolRequest::Reject(_) => panic!("an acceptable submission must launch"),
    }
}

#[test]
fn compile_against_succeeding_tool_yields_200_build_ok() {
    // the whole compile decision pipeline against a stub tool that exits 0
    // and prints "BUILD OK" on its standard output
    assert_eq!(route("POST", "/compile"), Route::Compile);
    let request = sub("module 0x1::M {}", "[package]\nname=\"M\"");
    let plan = match prepare_tool_request(&request) {
        ToolRequest::Launch(plan) => plan,
        ToolRequest::Reject(_) => panic!("the request is acceptable"),
    };
    assert_eq!(plan.files[1].contents, "module 0x1::M {}");
    let inv = tool_invocation(ToolOp::Compile, "/tmp/workdir/new_folder");
    assert_eq!(inv.args[1], "compile");
    let reply = tool_reply(SpawnOutcome::Spawned {
        status_ok: true,
        stdout_text: "BUILD OK\n".to_string(),
        stderr_text: "".to_string(),
    });
    assert_eq!(reply.status, 200);
    assert!(reply.body.contains("BUILD OK"));
}

#[test]
fn compile_against_failing_tool_surfaces_stderr() {
    // the same request against a stub tool that exits 1 and prints
    // "error: syntax" to its standard error
    let request = sub("module 0x1::M {}", "[package]\nname=\"M\"");
    assert!(matches!(prepare_tool_request(&request), ToolRequest::Launch(_)));
    let reply = tool_reply(SpawnOutcome::Spawned {
        status_ok: false,
        stdout_text: "".to_string(),
        stderr_text: "error: syntax\n".to_string(),
    });
    assert!(reply.body.contains("error: syntax"));
    // the tool ran, so the reply keeps status 200 and reports the failure
    // in its body alone
    assert_eq!(reply.status, 200);
}

#[test]
fn spawn_failure_yields_500_command_error() {
    let reply = tool_reply(SpawnOutcome::SpawnFailed);
    assert_eq!(reply.status, 500);
    assert_eq!(reply.body, "Command error");
}
