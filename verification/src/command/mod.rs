//! Commands: the writes that the Todoist sync API accepts.
pub mod project;
pub mod task;

use vstd::prelude::*;

use crate::json::{json_quoted, quote};
use crate::types::{is_version4_uuid_text, uuid_hyphenated_text, uuid_text};

verus! {

/// A command as it is sent to the Todoist API: its type string, its
/// arguments, a unique ID, and, for commands that create a resource, a
/// temporary ID for that resource.
#[derive(Debug, Clone, PartialEq, Eq)]
pub struct Command<T> {
    kind: String,
    temp_id: Option<uuid::Uuid>,
    args: T,
    command_id: uuid::Uuid,
}

/// The contents of a [`Command`].
pub struct CommandView<T> {
    pub kind: Seq<char>,
    pub temp_id: Option<uuid::Uuid>,
    pub args: T,
    pub command_id: uuid::Uuid,
}

impl<T> View for Command<T> {
    type V = CommandView<T>;

    closed spec fn view(&self) -> CommandView<T> {
        CommandView { kind: self.kind@, temp_id: self.temp_id, args: self.args, command_id: self.command_id }
    }
}

/// A fresh random (version 4) UUID from `uuid::Uuid::new_v4`. Its bits come
/// from the operating system's random number generator (and `uuid` panics
/// when that generator is unavailable); only the version and variant bits,
/// which `new_v4` sets, are claimed.
#[verifier::external_body]
fn random_uuid() -> (u: uuid::Uuid)
    ensures
        is_version4_uuid_text(uuid_hyphenated_text(u)),
{
    uuid::Uuid::new_v4()
}

impl<T: CommandArgs> Command<T> {
    /// Wraps command arguments into a command with a fresh UUID; commands
    /// that create a resource also get a fresh temporary ID.
    pub fn new(cmd: T) -> (c: Self)
        ensures
            c@.kind == T::TYPE@,
            c@.temp_id is Some <==> T::CREATES_RESOURCE,
            c@.args == cmd,
            is_version4_uuid_text(uuid_hyphenated_text(c@.command_id)),
            c@.temp_id matches Some(t) ==> is_version4_uuid_text(uuid_hyphenated_text(t)),
    {
        let command_id = random_uuid();
        let temp_id = if T::CREATES_RESOURCE {
            Some(random_uuid())
        } else {
            None
        };
        Command { kind: String::from_str(T::TYPE), temp_id, args: cmd, command_id }
    }
}

impl<T> Command<T> {
    /// Temporary resource ID. Only specified for commands that create a new
    /// resource.
    pub fn temp_id(&self) -> (t: Option<uuid::Uuid>)
        ensures
            t == self@.temp_id,
    {
        self.temp_id
    }

    /// The command's type string, e.g. `item_add`.
    pub fn kind(&self) -> (k: &str)
        ensures
            k@ == self@.kind,
    {
        self.kind.as_str()
    }

    /// The command's arguments.
    pub fn args(&self) -> (a: &T)
        ensures
            *a == self@.args,
    {
        &self.args
    }

    /// The command's unique ID.
    pub fn command_id(&self) -> (u: uuid::Uuid)
        ensures
            u == self@.command_id,
    {
        self.command_id
    }
}

/// A command as JSON, the way the API expects it: `type`, then `temp_id`
/// only when there is one, then `args` (already written as JSON), then
/// `uuid`.
pub open spec fn command_json(
    kind: Seq<char>,
    temp_id: Option<Seq<char>>,
    args: Seq<char>,
    command_id: Seq<char>,
) -> Seq<char> {
    "{\"type\":"@ + json_quoted(kind) + match temp_id {
        Some(t) => ",\"temp_id\":"@ + json_quoted(t),
        None => Seq::<char>::empty(),
    } + ",\"args\":"@ + args + ",\"uuid\":"@ + json_quoted(command_id) + "}"@
}

/// The last member of a command's JSON, `uuid`, is the quoted ID it was
/// given, whatever the rest: the text ends with `,"uuid":"<id>"}`.
pub open spec fn ends_with_uuid(text: Seq<char>, id: Seq<char>) -> bool {
    let tail = ",\"uuid\":"@ + json_quoted(id) + "}"@;
    &&& tail.len() <= text.len()
    &&& text.subrange(text.len() - tail.len(), text.len() as int) == tail
}

/// A command's JSON begins with its type; then comes `temp_id` when it has
/// one, or straight away the arguments when it has none; and it ends with
/// the command's own ID as `uuid`, with or without a temporary ID.
pub proof fn lemma_command_json_parts(
    kind: Seq<char>,
    temp_id: Option<Seq<char>>,
    args: Seq<char>,
    command_id: Seq<char>,
)
    ensures
        ("{\"type\":"@ + json_quoted(kind)).is_prefix_of(
            command_json(kind, temp_id, args, command_id),
        ),
        temp_id matches Some(t) ==> ("{\"type\":"@ + json_quoted(kind) + ",\"temp_id\":"@
            + json_quoted(t)).is_prefix_of(command_json(kind, temp_id, args, command_id)),
        temp_id is None ==> ("{\"type\":"@ + json_quoted(kind) + ",\"args\":"@
            + args).is_prefix_of(command_json(kind, temp_id, args, command_id)),
        ends_with_uuid(command_json(kind, temp_id, args, command_id), command_id),
{
    let head = "{\"type\":"@ + json_quoted(kind);
    let t = match temp_id {
        Some(t) => ",\"temp_id\":"@ + json_quoted(t),
        None => Seq::<char>::empty(),
    };
    let mid = ",\"args\":"@ + args;
    let tail = ",\"uuid\":"@ + json_quoted(command_id) + "}"@;
    let j = command_json(kind, temp_id, args, command_id);
    assert(j =~= head + t + mid + tail);
    assert(j.subrange(0, head.len() as int) =~= head);
    assert(j.subrange(0, (head + t).len() as int) =~= head + t);
    if temp_id is None {
        assert(head + t =~= head);
        assert(j.subrange(0, (head + mid).len() as int) =~= head + mid);
    }
    assert(j.subrange(j.len() - tail.len(), j.len() as int) =~= tail);
}

impl<T> Command<T> {
    /// The command as JSON, given its arguments as JSON. The temporary ID is
    /// left out when the command has none. The UUIDs are written in their
    /// hyphenated lowercase form.
    pub fn to_json(&self, args_json: &str) -> (s: String)
        ensures
            s@ == command_json(
                self@.kind,
                match self@.temp_id {
                    Some(t) => Some(uuid_hyphenated_text(t)),
                    None => None,
                },
                args_json@,
                uuid_hyphenated_text(self@.command_id),
            ),
            ends_with_uuid(s@, uuid_hyphenated_text(self@.command_id)),
    {
        let mut out = String::from_str("{\"type\":");
        out.append(quote(self.kind.as_str()).as_str());
        match &self.temp_id {
            Some(id) => {
                let text = uuid_text(id);
                out.append(",\"temp_id\":");
                out.append(quote(text.as_str()).as_str());
            },
            None => {},
        }
        out.append(",\"args\":");
        out.append(args_json);
        out.append(",\"uuid\":");
        let u = uuid_text(&self.command_id);
        out.append(quote(u.as_str()).as_str());
        out.append("}");
        proof {
            lemma_command_json_parts(
                self@.kind,
                match self@.temp_id {
                    Some(t) => Some(uuid_hyphenated_text(t)),
                    None => None,
                },
                args_json@,
                uuid_hyphenated_text(self@.command_id),
            );
        }
        out
    }
}

/// Trait for structs that can be sent as Todoist commands.
pub trait CommandArgs {
    /// The command string to be sent to the Todoist API, e.g. `"item_move"`,
    /// `"item_add"`, etc.
    const TYPE: &'static str;
    /// Commands that create resources will require a `temp_id` when sending
    /// to the Todoist API.
    const CREATES_RESOURCE: bool;
}

} // verus!
