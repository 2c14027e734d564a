use vstd::prelude::*;

use crate::args::{Arg, ArgValue, Arguments, lookup, str_eq};
use crate::catalog::{is_known_tool, lemma_tool_names_distinct, tool_send, tool_send_with_duration,
    tool_set_sound, ServerIdentity};
use crate::config::Config;
use crate::models::{SendNotificationArgs, SendNotificationWithDurationArgs,
    SetNotificationSoundArgs};
use crate::text::{lemma_spec_digits_nonempty, spec_digits, u32_to_decimal};

verus! {

/// A protocol-level error: the one tier of failure a client ever sees as an
/// error. Domain failures (the notification capability failing) are instead
/// reported as successful results carrying failure text.
#[derive(Clone, Copy, Debug, PartialEq, Eq, Structural)]
pub enum TransportError {
    /// The request named a tool the catalog does not have.
    UnknownTool,
    /// The arguments did not conform to the named tool's schema.
    InvalidArguments,
}

/// The envelope a syntactically valid call to a known tool always gets back:
/// an ordered sequence of text blocks describing success or failure.
#[derive(Debug)]
pub enum ToolCallResult {
    Success { content: Vec<String> },
}

/// One inbound tool call: the tool's wire name, its argument object, and an
/// opaque correlation token chosen by the client.
pub struct ToolCallRequest {
    pub tool_name: String,
    pub arguments: Arguments,
    pub request_id: u64,
}

/// What the external notification capability is asked to do for a request,
/// once the request has been decoded against the catalog.
#[derive(Debug)]
pub enum CapabilityCall {
    /// Emit a notification with no display duration.
    Notify { title: String, message: String },
    /// Emit a notification, forwarding the optional display duration.
    NotifyTimed { title: String, message: String, duration_seconds: Option<u32> },
    /// Acknowledge a notification sound path (a documented no-op).
    SetSound { sound_path: String },
}

/// Whether `c` is whitespace (the Unicode `White_Space` set).
pub open spec fn is_blank_char(c: char) -> bool {
    let u = c as u32;
    (9 <= u && u <= 13) || u == 32 || u == 0x85 || u == 0xA0 || u == 0x1680 || (0x2000 <= u && u
        <= 0x200A) || u == 0x2028 || u == 0x2029 || u == 0x202F || u == 0x205F || u == 0x3000
}

/// Whether the text holds at least one non-whitespace character, i.e. is
/// non-empty after trimming.
pub open spec fn has_visible_char(s: Seq<char>) -> bool {
    exists|i: int| 0 <= i < s.len() && !is_blank_char(s[i])
}

/// The text of the first field named `key`, if that field exists and is text.
pub open spec fn text_field(fields: Seq<Arg>, key: Seq<char>) -> Option<Seq<char>> {
    match lookup(fields, key) {
        Some(ArgValue::Text(s)) => Some(s@),
        _ => None::<Seq<char>>,
    }
}

/// Whether the argument object carries a title and a message, both text and
/// both non-empty after trimming.
pub open spec fn valid_title_message(fields: Seq<Arg>) -> bool {
    &&& (text_field(fields, "title"@) matches Some(t) && has_visible_char(t))
    &&& (text_field(fields, "message"@) matches Some(m) && has_visible_char(m))
}

/// Whether the optional `duration_seconds` field, if present, is a positive
/// integer that fits the wire type.
pub open spec fn valid_duration(fields: Seq<Arg>) -> bool {
    match lookup(fields, "duration_seconds"@) {
        Option::None => true,
        Some(ArgValue::UInt(d)) => 1 <= d && d <= 0xffff_ffff,
        Some(_) => false,
    }
}

/// The decoded optional duration.
pub open spec fn spec_duration(fields: Seq<Arg>) -> Option<u32> {
    match lookup(fields, "duration_seconds"@) {
        Some(ArgValue::UInt(d)) => Some(d as u32),
        _ => None::<u32>,
    }
}

/// Whether the argument object carries a non-empty text `sound_path`.
pub open spec fn valid_sound(fields: Seq<Arg>) -> bool {
    text_field(fields, "sound_path"@) matches Some(p) && p.len() > 0
}

/// Whether `fields` conforms to the schema of the tool named `tool`.
pub open spec fn spec_valid_args(tool: Seq<char>, fields: Seq<Arg>) -> bool {
    if tool == tool_send() {
        valid_title_message(fields)
    } else if tool == tool_send_with_duration() {
        valid_title_message(fields) && valid_duration(fields)
    } else {
        valid_sound(fields)
    }
}

/// Confirmation text of a plain notification.
pub open spec fn notify_success_text() -> Seq<char> {
    "notification sent"@
}

/// Confirmation text of a timed notification with no duration given.
pub open spec fn timed_success_base() -> Seq<char> {
    "timed notification sent"@
}

/// The note a timed confirmation carries when a duration was given.
pub open spec fn duration_note(d: u32) -> Seq<char> {
    ", shown for "@ + spec_digits(d as nat) + "s"@
}

/// Confirmation text of a timed notification: it notes the duration exactly
/// when one was given.
pub open spec fn timed_success_text(d: Option<u32>) -> Seq<char> {
    match d {
        Option::None => timed_success_base(),
        Some(d) => timed_success_base() + duration_note(d),
    }
}

/// Confirmation text of the sound tool: it echoes the accepted path.
pub open spec fn sound_success_text(path: Seq<char>) -> Seq<char> {
    "notification sound set to "@ + path
}

/// The uniformly prefixed text a domain failure is reported with, carrying
/// the capability's failure text verbatim.
pub open spec fn failure_text(reason: Seq<char>) -> Seq<char> {
    "failed: "@ + reason
}

/// The confirmation text of a capability call that succeeded.
pub open spec fn success_text(call: CapabilityCall) -> Seq<char> {
    match call {
        CapabilityCall::Notify { title, message } => notify_success_text(),
        CapabilityCall::NotifyTimed { title, message, duration_seconds } => timed_success_text(
            duration_seconds,
        ),
        CapabilityCall::SetSound { sound_path } => sound_success_text(sound_path@),
    }
}

/// The text a completed call reports: its confirmation on success, the
/// prefixed failure text otherwise.
pub open spec fn result_text(call: CapabilityCall, outcome: Result<(), String>) -> Seq<char> {
    match outcome {
        Result::Ok(u) => success_text(call),
        Result::Err(e) => failure_text(e@),
    }
}

/// The confirmation text owed for a known tool and valid arguments.
pub open spec fn spec_success_text(tool: Seq<char>, fields: Seq<Arg>) -> Seq<char> {
    if tool == tool_send() {
        notify_success_text()
    } else if tool == tool_send_with_duration() {
        timed_success_text(spec_duration(fields))
    } else {
        sound_success_text(text_field(fields, "sound_path"@)->Some_0)
    }
}

/// The text `handle` owes for a known tool with valid arguments, given what
/// the capability reported.
pub open spec fn spec_handle_text(
    tool: Seq<char>,
    fields: Seq<Arg>,
    outcome: Result<(), String>,
) -> Seq<char> {
    match outcome {
        Result::Ok(u) => spec_success_text(tool, fields),
        Result::Err(e) => failure_text(e@),
    }
}

/// Whether `c` is whitespace; matches `is_blank_char`.
fn is_blank(c: char) -> (r: bool)
    ensures
        r == is_blank_char(c),
{
    let u = c as u32;
    (9 <= u && u <= 13) || u == 32 || u == 0x85 || u == 0xA0 || u == 0x1680 || (0x2000 <= u && u
        <= 0x200A) || u == 0x2028 || u == 0x2029 || u == 0x202F || u == 0x205F || u == 0x3000
}

/// Whether the string is non-empty after trimming.
pub fn has_visible(s: &str) -> (r: bool)
    ensures
        r == has_visible_char(s@),
{
    let n = s.unicode_len();
    let mut i: usize = 0;
    while i < n
        invariant
            i <= n,
            n == s@.len(),
            forall|j: int| 0 <= j < i ==> is_blank_char(s@[j]),
        decreases n - i,
    {
        let c = s.get_char(i);
        if !is_blank(c) {
            proof {
                assert(0 <= i < s@.len() && !is_blank_char(s@[i as int]));
            }
            return true;
        }
        i += 1;
    }
    false
}

/// Decodes the argument object of `send_notification`: a non-blank text
/// title and a non-blank text message.
pub fn decode_send_args(args: &Arguments) -> (r: Result<SendNotificationArgs, TransportError>)
    ensures
        r is Ok <==> valid_title_message(args.fields@),
        (r matches Ok(a) ==> a.title@ == text_field(args.fields@, "title"@)->Some_0 && a.message@
            == text_field(args.fields@, "message"@)->Some_0),
        r is Err ==> r == Err::<SendNotificationArgs, TransportError>(
            TransportError::InvalidArguments,
        ),
{
    let title: String = match args.get("title") {
        Some(ArgValue::Text(t)) => {
            if has_visible(t.as_str()) {
                t.clone()
            } else {
                return Err(TransportError::InvalidArguments);
            }
        },
        _ => {
            return Err(TransportError::InvalidArguments);
        },
    };
    let message: String = match args.get("message") {
        Some(ArgValue::Text(m)) => {
            if has_visible(m.as_str()) {
                m.clone()
            } else {
                return Err(TransportError::InvalidArguments);
            }
        },
        _ => {
            return Err(TransportError::InvalidArguments);
        },
    };
    Ok(SendNotificationArgs { title, message })
}

/// Decodes the argument object of `send_notification_with_duration`: title
/// and message as for `send_notification`, and an optional positive integer
/// `duration_seconds`.
pub fn decode_timed_args(args: &Arguments) -> (r: Result<
    SendNotificationWithDurationArgs,
    TransportError,
>)
    ensures
        r is Ok <==> valid_title_message(args.fields@) && valid_duration(args.fields@),
        (r matches Ok(a) ==> a.title@ == text_field(args.fields@, "title"@)->Some_0 && a.message@
            == text_field(args.fields@, "message"@)->Some_0 && a.duration_seconds == spec_duration(
            args.fields@,
        )),
        r is Err ==> r == Err::<SendNotificationWithDurationArgs, TransportError>(
            TransportError::InvalidArguments,
        ),
{
    let base = match decode_send_args(args) {
        Ok(a) => a,
        Err(e) => {
            return Err(TransportError::InvalidArguments);
        },
    };
    let duration_seconds: Option<u32> = match args.get("duration_seconds") {
        Option::None => None,
        Some(ArgValue::UInt(d)) => {
            let dv: u64 = *d;
            if 1 <= dv && dv <= 0xffff_ffff {
                Some(dv as u32)
            } else {
                return Err(TransportError::InvalidArguments);
            }
        },
        Some(_) => {
            return Err(TransportError::InvalidArguments);
        },
    };
    Ok(SendNotificationWithDurationArgs { title: base.title, message: base.message, duration_seconds })
}

/// Decodes the argument object of `set_notification_sound`: a non-empty text
/// `sound_path`.
pub fn decode_sound_args(args: &Arguments) -> (r: Result<SetNotificationSoundArgs, TransportError>)
    ensures
        r is Ok <==> valid_sound(args.fields@),
        (r matches Ok(a) ==> a.sound_path@ == text_field(args.fields@, "sound_path"@)->Some_0),
        r is Err ==> r == Err::<SetNotificationSoundArgs, TransportError>(
            TransportError::InvalidArguments,
        ),
{
    match args.get("sound_path") {
        Some(ArgValue::Text(p)) => {
            if p.as_str().unicode_len() > 0 {
                Ok(SetNotificationSoundArgs { sound_path: p.clone() })
            } else {
                Err(TransportError::InvalidArguments)
            }
        },
        _ => Err(TransportError::InvalidArguments),
    }
}

/// Resolves a request against the catalog and decodes its arguments into the
/// capability call it asks for. Fails with `UnknownTool` exactly on names the
/// catalog lacks, and with `InvalidArguments` exactly on arguments that do
/// not conform to the named tool's schema.
pub fn plan(req: &ToolCallRequest) -> (r: Result<CapabilityCall, TransportError>)
    ensures
        (r == Err::<CapabilityCall, TransportError>(TransportError::UnknownTool)) <==> !is_known_tool(
            req.tool_name@,
        ),
        is_known_tool(req.tool_name@) ==> ((r is Ok) <==> spec_valid_args(
            req.tool_name@,
            req.arguments.fields@,
        )),
        is_known_tool(req.tool_name@) && !spec_valid_args(req.tool_name@, req.arguments.fields@)
            ==> r == Err::<CapabilityCall, TransportError>(TransportError::InvalidArguments),
        req.tool_name@ == tool_send() && valid_title_message(req.arguments.fields@) ==> (r matches
            Ok(CapabilityCall::Notify { title, message }) && title@ == text_field(
            req.arguments.fields@,
            "title"@,
        )->Some_0 && message@ == text_field(req.arguments.fields@, "message"@)->Some_0),
        req.tool_name@ == tool_send_with_duration() && valid_title_message(req.arguments.fields@)
            && valid_duration(req.arguments.fields@) ==> (r matches Ok(
            CapabilityCall::NotifyTimed { title, message, duration_seconds },
        ) && title@ == text_field(req.arguments.fields@, "title"@)->Some_0 && message@
            == text_field(req.arguments.fields@, "message"@)->Some_0 && duration_seconds
            == spec_duration(req.arguments.fields@)),
        req.tool_name@ == tool_set_sound() && valid_sound(req.arguments.fields@) ==> (r matches Ok(
            CapabilityCall::SetSound { sound_path },
        ) && sound_path@ == text_field(req.arguments.fields@, "sound_path"@)->Some_0),
{
    proof {
        lemma_tool_names_distinct();
    }
    let name = req.tool_name.as_str();
    if str_eq(name, "send_notification") {
        match decode_send_args(&req.arguments) {
            Ok(a) => Ok(CapabilityCall::Notify { title: a.title, message: a.message }),
            Err(e) => Err(e),
        }
    } else if str_eq(name, "send_notification_with_duration") {
        match decode_timed_args(&req.arguments) {
            Ok(a) => Ok(
                CapabilityCall::NotifyTimed {
                    title: a.title,
                    message: a.message,
                    duration_seconds: a.duration_seconds,
                },
            ),
            Err(e) => Err(e),
        }
    } else if str_eq(name, "set_notification_sound") {
        match decode_sound_args(&req.arguments) {
            Ok(a) => Ok(CapabilityCall::SetSound { sound_path: a.sound_path }),
            Err(e) => Err(e),
        }
    } else {
        Err(TransportError::UnknownTool)
    }
}

/// Wraps what the capability reported into the uniform result envelope: one
/// text block, the tool's confirmation on success, the prefixed failure text
/// otherwise. Domain failures never surface as transport errors.
pub fn complete(call: &CapabilityCall, outcome: Result<(), String>) -> (r: ToolCallResult)
    ensures
        (r matches ToolCallResult::Success { content } && content@.len() == 1 && content@[0]@
            == result_text(*call, outcome)),
{
    let text: String = match outcome {
        Ok(u) => match call {
            CapabilityCall::Notify { title, message } => String::from_str("notification sent"),
            CapabilityCall::NotifyTimed { title, message, duration_seconds } => match duration_seconds {
                Option::None => String::from_str("timed notification sent"),
                Some(d) => {
                    let mut s = String::from_str("timed notification sent");
                    s.append(", shown for ");
                    let ds = u32_to_decimal(*d);
                    s.append(ds.as_str());
                    s.append("s");
                    proof {
                        assert(s@ =~= timed_success_text(Some(*d)));
                    }
                    s
                },
            },
            CapabilityCall::SetSound { sound_path } => {
                let mut s = String::from_str("notification sound set to ");
                s.append(sound_path.as_str());
                s
            },
        },
        Err(e) => {
            let mut s = String::from_str("failed: ");
            s.append(e.as_str());
            s
        },
    };
    let mut content: Vec<String> = Vec::new();
    content.push(text);
    ToolCallResult::Success { content }
}

/// Dispatches one request: resolves and decodes it, and — given what the
/// capability reported when invoked on the planned call — produces the
/// result envelope owed to the client.
pub fn handle(req: &ToolCallRequest, outcome: Result<(), String>) -> (r: Result<
    ToolCallResult,
    TransportError,
>)
    ensures
        (r == Err::<ToolCallResult, TransportError>(TransportError::UnknownTool)) <==> !is_known_tool(
            req.tool_name@,
        ),
        is_known_tool(req.tool_name@) ==> ((r is Ok) <==> spec_valid_args(
            req.tool_name@,
            req.arguments.fields@,
        )),
        is_known_tool(req.tool_name@) && !spec_valid_args(req.tool_name@, req.arguments.fields@)
            ==> r == Err::<ToolCallResult, TransportError>(TransportError::InvalidArguments),
        is_known_tool(req.tool_name@) && spec_valid_args(req.tool_name@, req.arguments.fields@)
            ==> (r matches Ok(ToolCallResult::Success { content }) && content@.len() == 1
            && content@[0]@ == spec_handle_text(req.tool_name@, req.arguments.fields@, outcome)),
{
    proof {
        lemma_tool_names_distinct();
    }
    match plan(req) {
        Ok(call) => {
            let res = complete(&call, outcome);
            Ok(res)
        },
        Err(e) => Err(e),
    }
}

/// The tool-invocation service: it dispatches inbound tool calls and holds
/// the immutable server configuration shared read-only by all sessions.
#[derive(Clone)]
pub struct NotifyMeService {
    pub config: Config,
}

impl NotifyMeService {
    /// A service over the given configuration.
    pub fn new(config: Config) -> (s: NotifyMeService)
        ensures
            s.config == config,
    {
        NotifyMeService { config }
    }

    /// The identity, protocol version, capability class, and instruction
    /// line the server announces when a session opens, so clients can
    /// discover the tools without an out-of-band description.
    pub fn get_info(&self) -> (info: ServerIdentity)
        ensures
            info.name@ == "NotifyMe"@,
            info.version@ == "0.1.0"@,
            info.protocol_version@ == "2024-11-05"@,
            info.instructions@
                == "NotifyMe MCP server: tools=send_notification, send_notification_with_duration, set_notification_sound"@,
    {
        ServerIdentity {
            name: String::from_str("NotifyMe"),
            version: String::from_str("0.1.0"),
            protocol_version: String::from_str("2024-11-05"),
            instructions: String::from_str(
                "NotifyMe MCP server: tools=send_notification, send_notification_with_duration, set_notification_sound",
            ),
        }
    }
}

/// Law: a syntactically valid call to a known tool always comes back as a
/// success envelope whose text is non-empty, whatever the capability
/// reported.
pub proof fn lemma_handled_text_nonempty(
    tool: Seq<char>,
    fields: Seq<Arg>,
    outcome: Result<(), String>,
)
    requires
        is_known_tool(tool),
    ensures
        spec_handle_text(tool, fields, outcome).len() > 0,
{
    reveal_strlit("notification sent");
    reveal_strlit("timed notification sent");
    reveal_strlit("notification sound set to ");
    reveal_strlit("failed: ");
}

/// Law: the timed tool's confirmation notes the duration exactly when one is
/// given — with a duration it is the plain confirmation followed by a
/// non-empty duration note, so the two confirmations differ; both are
/// success texts.
pub proof fn lemma_duration_mentioned_iff_given(d: u32)
    ensures
        timed_success_text(Some(d)) == timed_success_text(None::<u32>) + duration_note(d),
        duration_note(d).len() > 0,
        timed_success_text(Some(d)) != timed_success_text(None::<u32>),
{
    lemma_spec_digits_nonempty(d as nat);
    reveal_strlit(", shown for ");
    reveal_strlit("s");
    assert(timed_success_text(Some(d)).len() == timed_success_text(None::<u32>).len()
        + duration_note(d).len());
}

/// Law: a domain failure is reported inside a success envelope whose text
/// starts with the uniform prefix and carries the capability's reason
/// verbatim after it — the reason is a subrange of the reported text.
pub proof fn lemma_failure_text_carries_reason(reason: Seq<char>)
    ensures
        failure_text(reason).len() == "failed: "@.len() + reason.len(),
        failure_text(reason).subrange("failed: "@.len() as int, failure_text(reason).len() as int)
            == reason,
        failure_text(reason).subrange(0, "failed: "@.len() as int) == "failed: "@,
{
    assert(failure_text(reason).subrange(
        "failed: "@.len() as int,
        failure_text(reason).len() as int,
    ) =~= reason);
    assert(failure_text(reason).subrange(0, "failed: "@.len() as int) =~= "failed: "@);
}

/// Law: acknowledging a notification sound is stateless and idempotent: the
/// confirmation depends on the sound path alone, so two successful
/// dispatches naming the same path — the same request twice, or two requests
/// differing in anything else — get the very same confirmation text, and the
/// handler takes no mutable state anywhere that a dispatch could change.
pub proof fn lemma_sound_ack_idempotent(fields1: Seq<Arg>, fields2: Seq<Arg>)
    requires
        valid_sound(fields1),
        valid_sound(fields2),
        text_field(fields1, "sound_path"@) == text_field(fields2, "sound_path"@),
    ensures
        spec_handle_text(tool_set_sound(), fields1, Ok(())) == spec_handle_text(
            tool_set_sound(),
            fields2,
            Ok(()),
        ),
        spec_handle_text(tool_set_sound(), fields1, Ok(())) == sound_success_text(
            text_field(fields1, "sound_path"@)->Some_0,
        ),
{
    lemma_tool_names_distinct();
}

} // verus!
