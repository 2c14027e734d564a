use notifyme::args::{Arg, ArgValue, Arguments};
use notifyme::dispatch::{complete, handle, plan, CapabilityCall, ToolCallRequest, ToolCallResult,
    TransportError};
use notifyme::models::{NotificationParams, SoundParams};
use notifyme::notification::set_notification_sound;

fn text_arg(name: &str, value: &str) -> Arg {
    Arg { name: name.to_string(), value: ArgValue::Text(value.to_string()) }
}

fn uint_arg(name: &str, value: u64) -> Arg {
    Arg { name: name.to_string(), value: ArgValue::UInt(value) }
}

fn request(tool: &str, fields: Vec<Arg>, request_id: u64) -> ToolCallRequest {
    ToolCallRequest {
        tool_name: tool.to_string(),
        arguments: Arguments { fields },
        request_id,
    }
}

fn send_request(title: &str, message: &str) -> ToolCallRequest {
    request("send_notification", vec![text_arg("title", title), text_arg("message", message)], 1)
}

fn only_content(r: Result<ToolCallResult, TransportError>) -> String {
    match r {
        Ok(ToolCallResult::Success { content }) => {
            assert_eq!(content.len(), 1);
            content[0].clone()
        }
        Err(e) => panic!("expected a success envelope, got {:?}", e),
    }
}

#[test]
fn known_tools_with_valid_args_succeed_with_text() {
    let send = send_request("Build", "Done");
    let text = only_content(handle(&send, Ok(())));
    assert!(!text.is_empty());

    let timed = request(
        "send_notification_with_duration",
        vec![text_arg("title", "Build"), text_arg("message", "Done"), uint_arg("duration_seconds", 5)],
        2,
    );
    let text = only_content(handle(&timed, Ok(())));
    assert!(!text.is_empty());

    let sound = request("set_notification_sound", vec![text_arg("sound_path", "x.caf")], 3);
    let text = only_content(handle(&sound, Ok(())));
    assert!(!text.is_empty());
}

#[test]
fn unknown_tool_is_a_transport_error() {
    let req = request("ring_bell", vec![text_arg("title", "Build")], 4);
    assert_eq!(handle(&req, Ok(())).unwrap_err(), TransportError::UnknownTool);
    assert_eq!(plan(&req).unwrap_err(), TransportError::UnknownTool);
}

#[test]
fn duration_is_mentioned_exactly_when_given() {
    let without = request(
        "send_notification_with_duration",
        vec![text_arg("title", "Build"), text_arg("message", "Done")],
        5,
    );
    let with = request(
        "send_notification_with_duration",
        vec![text_arg("title", "Build"), text_arg("message", "Done"), uint_arg("duration_seconds", 5)],
        6,
    );
    let text_without = only_content(handle(&without, Ok(())));
    let text_with = only_content(handle(&with, Ok(())));
    assert_eq!(text_without, "timed notification sent");
    assert_eq!(text_with, "timed notification sent, shown for 5s");
    assert_ne!(text_without, text_with);
}

#[test]
fn setting_the_sound_twice_acknowledges_twice() {
    let req = request("set_notification_sound", vec![text_arg("sound_path", "x.caf")], 7);
    let first_outcome = set_notification_sound("x.caf");
    assert!(first_outcome.is_ok());
    let first = only_content(handle(&req, first_outcome));
    let second_outcome = set_notification_sound("x.caf");
    assert!(second_outcome.is_ok());
    let second = only_content(handle(&req, second_outcome));
    assert_eq!(first, "notification sound set to x.caf");
    assert_eq!(second, "notification sound set to x.caf");
    assert_eq!(first, second);
}

#[test]
fn example_scenario_build_done() {
    let req = send_request("Build", "Done");
    // the capability is asked exactly once, with the title and message and no duration
    match plan(&req) {
        Ok(CapabilityCall::Notify { title, message }) => {
            assert_eq!(title, "Build");
            assert_eq!(message, "Done");
        }
        other => panic!("expected a plain notification capability call, got {:?}", other.is_ok()),
    }
    let text = only_content(handle(&req, Ok(())));
    assert_eq!(text, "notification sent");
}

#[test]
fn domain_failure_is_a_success_envelope_with_failure_text() {
    let req = send_request("Build", "Done");
    let text = only_content(handle(&req, Err("no display".to_string())));
    assert!(text.contains("failed"));
    assert!(text.contains("no display"));
    assert_eq!(text, "failed: no display");
}

#[test]
fn blank_title_is_invalid() {
    let req = send_request(" \t\n", "Done");
    assert_eq!(handle(&req, Ok(())).unwrap_err(), TransportError::InvalidArguments);
}

#[test]
fn missing_message_is_invalid() {
    let req = request("send_notification", vec![text_arg("title", "Build")], 8);
    assert_eq!(handle(&req, Ok(())).unwrap_err(), TransportError::InvalidArguments);
}

#[test]
fn wrongly_typed_title_is_invalid() {
    let req = request(
        "send_notification",
        vec![uint_arg("title", 3), text_arg("message", "Done")],
        9,
    );
    assert_eq!(handle(&req, Ok(())).unwrap_err(), TransportError::InvalidArguments);
}

#[test]
fn zero_duration_is_invalid() {
    let req = request(
        "send_notification_with_duration",
        vec![text_arg("title", "Build"), text_arg("message", "Done"), uint_arg("duration_seconds", 0)],
        10,
    );
    assert_eq!(handle(&req, Ok(())).unwrap_err(), TransportError::InvalidArguments);
}

#[test]
fn oversized_duration_is_invalid() {
    let req = request(
        "send_notification_with_duration",
        vec![
            text_arg("title", "Build"),
            text_arg("message", "Done"),
            uint_arg("duration_seconds", (u32::MAX as u64) + 1),
        ],
        11,
    );
    assert_eq!(handle(&req, Ok(())).unwrap_err(), TransportError::InvalidArguments);
}

#[test]
fn wrongly_typed_duration_is_invalid() {
    let req = request(
        "send_notification_with_duration",
        vec![
            text_arg("title", "Build"),
            text_arg("message", "Done"),
            text_arg("duration_seconds", "5"),
        ],
        12,
    );
    assert_eq!(handle(&req, Ok(())).unwrap_err(), TransportError::InvalidArguments);
}

#[test]
fn empty_sound_path_is_invalid() {
    let req = request("set_notification_sound", vec![text_arg("sound_path", "")], 13);
    assert_eq!(handle(&req, Ok(())).unwrap_err(), TransportError::InvalidArguments);
}

#[test]
fn timed_failure_forwards_reason() {
    let req = request(
        "send_notification_with_duration",
        vec![text_arg("title", "Build"), text_arg("message", "Done"), uint_arg("duration_seconds", 2)],
        14,
    );
    let text = only_content(handle(&req, Err("unsupported platform".to_string())));
    assert_eq!(text, "failed: unsupported platform");
}

#[test]
fn complete_wraps_capability_outcomes() {
    let call = CapabilityCall::Notify { title: "Build".to_string(), message: "Done".to_string() };
    match complete(&call, Ok(())) {
        ToolCallResult::Success { content } => assert_eq!(content, vec!["notification sent"]),
    }
    let call = CapabilityCall::NotifyTimed {
        title: "Build".to_string(),
        message: "Done".to_string(),
        duration_seconds: Some(305),
    };
    match complete(&call, Ok(())) {
        ToolCallResult::Success { content } => {
            assert_eq!(content, vec!["timed notification sent, shown for 305s"])
        }
    }
}

#[test]
fn wire_params_round_through_dispatch() {
    let params = NotificationParams { title: "Build".to_string(), message: "Done".to_string() };
    let req = request(
        "send_notification",
        vec![text_arg("title", &params.title), text_arg("message", &params.message)],
        16,
    );
    assert_eq!(only_content(handle(&req, Ok(()))), "notification sent");

    let sound = SoundParams { sound_path: "x.caf".to_string() };
    let req = request("set_notification_sound", vec![text_arg("sound_path", &sound.sound_path)], 17);
    assert_eq!(only_content(handle(&req, Ok(()))), "notification sound set to x.caf");
}

#[test]
fn extra_fields_are_ignored() {
    let req = request(
        "send_notification",
        vec![text_arg("title", "Build"), text_arg("message", "Done"), text_arg("color", "red")],
        15,
    );
    let text = only_content(handle(&req, Ok(())));
    assert_eq!(text, "notification sent");
}
