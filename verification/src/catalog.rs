use vstd::prelude::*;

verus! {

/// The shape of one schema field: text, or an optional unsigned integer.
pub enum FieldType {
    Text,
    OptionalUInt,
}

/// One named field of a tool's argument schema.
pub struct FieldSchema {
    pub name: String,
    pub ty: FieldType,
    pub required: bool,
}

/// One entry of the tool catalog: a tool's wire name, a human-readable
/// description, and the schema of its argument object.
pub struct ToolDescriptor {
    pub name: String,
    pub description: String,
    pub fields: Vec<FieldSchema>,
}

/// Wire name of the plain notification tool.
pub open spec fn tool_send() -> Seq<char> {
    "send_notification"@
}

/// Wire name of the notification tool that takes an optional display duration.
pub open spec fn tool_send_with_duration() -> Seq<char> {
    "send_notification_with_duration"@
}

/// Wire name of the notification-sound tool.
pub open spec fn tool_set_sound() -> Seq<char> {
    "set_notification_sound"@
}

/// Whether `name` is a tool this server exposes.
pub open spec fn is_known_tool(name: Seq<char>) -> bool {
    name == tool_send() || name == tool_send_with_duration() || name == tool_set_sound()
}

/// The three tool names are pairwise distinct, so a catalog that lists each
/// once has unique names, and a request names at most one tool.
pub proof fn lemma_tool_names_distinct()
    ensures
        tool_send() != tool_send_with_duration(),
        tool_send() != tool_set_sound(),
        tool_send_with_duration() != tool_set_sound(),
{
    reveal_strlit("send_notification");
    reveal_strlit("send_notification_with_duration");
    reveal_strlit("set_notification_sound");
    assert(tool_send().len() == 17);
    assert(tool_send_with_duration().len() == 31);
    assert(tool_set_sound().len() == 22);
}

fn text_field_schema(name: &str, required: bool) -> (f: FieldSchema)
    ensures
        f.name@ == name@,
        f.ty is Text,
        f.required == required,
{
    FieldSchema { name: String::from_str(name), ty: FieldType::Text, required }
}

/// The static tool catalog: the three tools, their descriptions and schemas.
/// Built once at startup; the transport layer answers discovery queries from
/// it.
pub fn describe() -> (cat: Vec<ToolDescriptor>)
    ensures
        cat@.len() == 3,
        cat@[0].name@ == tool_send(),
        cat@[1].name@ == tool_send_with_duration(),
        cat@[2].name@ == tool_set_sound(),
        forall|i: int, j: int| 0 <= i < j < 3 ==> cat@[i].name@ != cat@[j].name@,
        forall|i: int| 0 <= i < 3 ==> is_known_tool(#[trigger] cat@[i].name@),
        cat@[0].fields@.len() == 2,
        cat@[0].fields@[0].name@ == "title"@ && cat@[0].fields@[0].ty is Text && cat@[0].fields@[0].required,
        cat@[0].fields@[1].name@ == "message"@ && cat@[0].fields@[1].ty is Text && cat@[0].fields@[1].required,
        cat@[1].fields@.len() == 3,
        cat@[1].fields@[0].name@ == "title"@ && cat@[1].fields@[0].ty is Text && cat@[1].fields@[0].required,
        cat@[1].fields@[1].name@ == "message"@ && cat@[1].fields@[1].ty is Text && cat@[1].fields@[1].required,
        cat@[1].fields@[2].name@ == "duration_seconds"@ && cat@[1].fields@[2].ty is OptionalUInt
            && !cat@[1].fields@[2].required,
        cat@[2].fields@.len() == 1,
        cat@[2].fields@[0].name@ == "sound_path"@ && cat@[2].fields@[0].ty is Text && cat@[2].fields@[0].required,
{
    proof {
        lemma_tool_names_distinct();
    }
    let mut send_fields: Vec<FieldSchema> = Vec::new();
    send_fields.push(text_field_schema("title", true));
    send_fields.push(text_field_schema("message", true));
    let send = ToolDescriptor {
        name: String::from_str("send_notification"),
        description: String::from_str("Send a desktop notification with a title and a message"),
        fields: send_fields,
    };
    let mut timed_fields: Vec<FieldSchema> = Vec::new();
    timed_fields.push(text_field_schema("title", true));
    timed_fields.push(text_field_schema("message", true));
    timed_fields.push(
        FieldSchema {
            name: String::from_str("duration_seconds"),
            ty: FieldType::OptionalUInt,
            required: false,
        },
    );
    let timed = ToolDescriptor {
        name: String::from_str("send_notification_with_duration"),
        description: String::from_str(
            "Send a desktop notification with a title, a message, and an optional display duration in seconds",
        ),
        fields: timed_fields,
    };
    let mut sound_fields: Vec<FieldSchema> = Vec::new();
    sound_fields.push(text_field_schema("sound_path", true));
    let sound = ToolDescriptor {
        name: String::from_str("set_notification_sound"),
        description: String::from_str("Set the notification sound to the given sound file path"),
        fields: sound_fields,
    };
    let mut cat: Vec<ToolDescriptor> = Vec::new();
    cat.push(send);
    cat.push(timed);
    cat.push(sound);
    cat
}

/// Identity a session is told on open: server name, version, protocol
/// version, and a short instruction line naming the tools.
pub struct ServerIdentity {
    pub name: String,
    pub version: String,
    pub protocol_version: String,
    pub instructions: String,
}

} // verus!
