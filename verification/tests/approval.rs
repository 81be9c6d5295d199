use sacp_connection::approval::{
    deny, Approval, ApprovalEvent, ApprovalEventType, ApprovalStep, PermissionOption,
    PermissionOptionKind, PermissionOutcome,
};
use sacp_connection::rpc::RequestId;
use std::sync::Arc;

fn option(id: &str, kind: PermissionOptionKind) -> PermissionOption {
    PermissionOption { option_id: id.to_string(), name: id.to_uppercase(), kind }
}

fn options() -> Vec<PermissionOption> {
    vec![
        option("once", PermissionOptionKind::AllowOnce),
        option("never", PermissionOptionKind::RejectAlways),
        option("no", PermissionOptionKind::RejectOnce),
    ]
}

fn selected(id: &str) -> PermissionOutcome {
    PermissionOutcome::Selected(id.to_string())
}

fn started() -> Approval<&'static str, u8, u16> {
    Approval::request_permission(
        RequestId::String("id".to_string()),
        Arc::new("agent's request"),
        options(),
    )
}

fn answer(approval: Approval<&'static str, u8, u16>) -> PermissionOutcome {
    match approval.step {
        ApprovalStep::Respond(outcome) => outcome,
        _ => panic!("no answer yet"),
    }
}

#[test]
fn request_ids_as_text() {
    assert_eq!(RequestId::String("a\"b".to_string()).into_text(), "a\"b");
    assert_eq!(RequestId::Number(0).into_text(), "0");
    assert_eq!(RequestId::Number(u64::MAX).into_text(), "18446744073709551615");
    assert_eq!(RequestId::Null.into_text(), "null");
}

#[test]
fn unanswered_requests_are_turned_down() {
    assert_eq!(deny(&options()), selected("never"));
    assert_eq!(deny(&vec![option("y", PermissionOptionKind::AllowAlways)]), selected("deny"));
    assert_eq!(deny(&vec![option("y", PermissionOptionKind::Other)]), selected("deny"));
    assert_eq!(deny(&vec![]), selected("deny"));
}

#[test]
fn a_patch_is_put_to_the_user_as_a_patch() {
    let approval = started().on_event(ApprovalEvent::Patch(Some(7)));
    match &approval.step {
        ApprovalStep::Deliver(request) => {
            assert_eq!(request.request_id, "id");
            assert_eq!(request.event, ApprovalEventType::Patch(7));
            assert_eq!(*request.acp_request, "agent's request");
            assert_eq!(request.options, options());
        }
        _ => panic!("not delivered"),
    }
    let approval = approval.on_event(ApprovalEvent::Delivered);
    let approval = approval.on_event(ApprovalEvent::Decided(selected("once")));
    let approval = approval.on_event(ApprovalEvent::Dropped);
    assert_eq!(answer(approval), selected("once"));
}

#[test]
fn anything_else_is_put_to_the_user_as_execution() {
    let approval = started().on_event(ApprovalEvent::Patch(None));
    assert!(matches!(approval.step, ApprovalStep::ReadAsExec));
    let approval = approval.on_event(ApprovalEvent::Exec(300));
    match &approval.step {
        ApprovalStep::Deliver(request) => {
            assert_eq!(request.event, ApprovalEventType::Exec(300));
        }
        _ => panic!("not delivered"),
    }
    let approval = approval.on_event(ApprovalEvent::Delivered).on_event(ApprovalEvent::Dropped);
    assert_eq!(answer(approval), selected("never"));
}

#[test]
fn requests_that_reach_nobody_are_cancelled() {
    let approval = started()
        .on_event(ApprovalEvent::Delivered)
        .on_event(ApprovalEvent::Patch(Some(1)))
        .on_event(ApprovalEvent::Closed);
    assert_eq!(answer(approval), PermissionOutcome::Cancelled);
}
