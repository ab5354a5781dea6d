//! A client library for the Todoist sync API: commands, resource types, and
//! the bookkeeping of incremental sync.
pub mod command;
pub mod error;
pub mod foreign;
pub mod json;
pub mod types;

use std::collections::HashMap;
use vstd::prelude::*;
use vstd::std_specs::convert::FromSpecImpl;

use crate::types::nonzero::NonZeroU16;
use crate::types::project::Project;
use crate::types::task::Task;

verus! {

/// The endpoint of the sync API.
pub const SYNC_URL: &'static str = "https://api.todoist.com/api/v1/sync";

/// The state of a connection to the Todoist API: the API key, the sync key
/// of the last sync, and the HTTP client that performs requests.
pub struct APIClient {
    pub key: String,
    pub sync_key: SyncKey,
    client: reqwest::Client,
}

/// The API key, sync key and HTTP client of an [`APIClient`].
pub struct APIClientView {
    pub key: Seq<char>,
    pub sync_key: Seq<char>,
    pub client: reqwest::Client,
}

impl View for APIClient {
    type V = APIClientView;

    closed spec fn view(&self) -> APIClientView {
        APIClientView { key: self.key@, sync_key: self.sync_key@, client: self.client }
    }
}

/// Seconds a request may take to connect.
pub const CONNECT_TIMEOUT_SECS: u64 = 5;

/// Seconds a whole request may take.
pub const REQUEST_TIMEOUT_SECS: u64 = 10;

/// An HTTP client (`reqwest::Client::builder`) with the given connect
/// timeout and overall timeout, in seconds. `build` fails only when the TLS
/// backend or the resolver cannot be initialized, an environment failure
/// that panics here. Nothing is claimed about the client.
#[verifier::external_body]
fn http_client(connect_timeout_secs: u64, timeout_secs: u64) -> reqwest::Client {
    reqwest::Client::builder()
        .connect_timeout(std::time::Duration::from_secs(connect_timeout_secs))
        .timeout(std::time::Duration::from_secs(timeout_secs))
        .build()
        .expect("client config should be valid")
}

/// The `resource_types` form field of a sync request: the JSON array of the
/// resource type names, e.g. `["items","projects"]`.
pub open spec fn resource_types_json(types: Seq<ResourceType>) -> Seq<char> {
    seq!['['] + resource_type_list(types) + seq![']']
}

/// The comma-separated, quoted names of resource types.
pub open spec fn resource_type_list(types: Seq<ResourceType>) -> Seq<char>
    decreases types.len(),
{
    if types.len() == 0 {
        seq![]
    } else if types.len() == 1 {
        quoted(resource_type_name(types[0]))
    } else {
        resource_type_list(types.drop_last()) + seq![','] + quoted(resource_type_name(types.last()))
    }
}

/// A name between double quotes.
pub open spec fn quoted(s: Seq<char>) -> Seq<char> {
    seq!['"'] + s + seq!['"']
}

/// The errors among the results of a batch of commands, in order.
pub open spec fn write_errors(statuses: Seq<(String, core::result::Result<String, SyncWriteError>)>) -> Seq<
    SyncWriteError,
>
    decreases statuses.len(),
{
    if statuses.len() == 0 {
        seq![]
    } else {
        let earlier = write_errors(statuses.drop_last());
        match statuses.last().1 {
            Ok(_) => earlier,
            Err(e) => earlier.push(e),
        }
    }
}

/// The results of one command.
pub type CommandStatus = (String, core::result::Result<String, SyncWriteError>);

/// The errors of two batches answered together are the errors of the first
/// followed by those of the second.
pub proof fn lemma_write_errors_concat(a: Seq<CommandStatus>, b: Seq<CommandStatus>)
    ensures
        write_errors(a + b) == write_errors(a) + write_errors(b),
    decreases b.len(),
{
    if b.len() == 0 {
        assert(a + b == a);
    } else {
        lemma_write_errors_concat(a, b.drop_last());
        assert((a + b).drop_last() == a + b.drop_last());
        assert((a + b).last() == b.last());
    }
}

/// An empty batch reports no errors; adding a command's result to a batch
/// adds that command's error, whatever it says, to the reported errors if it
/// failed, and nothing if it succeeded. So every failed command's error is
/// reported once, in order.
pub proof fn lemma_write_errors_push(
    s: Seq<CommandStatus>,
    id: String,
    result: core::result::Result<String, SyncWriteError>,
)
    ensures
        write_errors(Seq::<CommandStatus>::empty()) == Seq::<SyncWriteError>::empty(),
        result matches Err(e) ==> write_errors(s.push((id, result))) == write_errors(s).push(e),
        result is Ok ==> write_errors(s.push((id, result))) == write_errors(s),
        write_errors(s.push((id, result))).len() == write_errors(s).len() + if result is Err {
            1int
        } else {
            0int
        },
{
    assert(s.push((id, result)).drop_last() == s);
    assert(s.push((id, result)).last() == (id, result));
}

/// A batch whose commands all succeeded reports no errors.
pub proof fn lemma_write_errors_all_ok(s: Seq<CommandStatus>)
    requires
        forall|i: int| 0 <= i < s.len() ==> (#[trigger] s[i]).1 is Ok,
    ensures
        write_errors(s) == Seq::<SyncWriteError>::empty(),
    decreases s.len(),
{
    if s.len() > 0 {
        assert(s.last() == s[s.len() - 1]);
        lemma_write_errors_all_ok(s.drop_last());
    }
}

/// Every reported error is the error of one of the batch's commands, and
/// there are never more errors than commands.
pub proof fn lemma_write_errors_come_from_commands(s: Seq<CommandStatus>)
    ensures
        write_errors(s).len() <= s.len(),
        forall|j: int|
            #![trigger write_errors(s)[j]]
            0 <= j < write_errors(s).len() ==> exists|i: int|
                0 <= i < s.len() && (#[trigger] s[i]).1 == Err::<String, SyncWriteError>(
                    write_errors(s)[j],
                ),
    decreases s.len(),
{
    if s.len() > 0 {
        let earlier = s.drop_last();
        lemma_write_errors_come_from_commands(earlier);
        assert forall|j: int|
            #![trigger write_errors(s)[j]]
            0 <= j < write_errors(s).len() implies exists|i: int|
            0 <= i < s.len() && (#[trigger] s[i]).1 == Err::<String, SyncWriteError>(
                write_errors(s)[j],
            ) by {
            if j < write_errors(earlier).len() {
                let i = choose|i: int|
                    0 <= i < earlier.len() && (#[trigger] earlier[i]).1 == Err::<
                        String,
                        SyncWriteError,
                    >(write_errors(earlier)[j]);
                assert(s[i] == earlier[i]);
            } else {
                assert(s[s.len() - 1] == s.last());
            }
        }
    }
}

/// The sync key after a call that returned the given token, if any: a sync
/// always returns one; a batch of commands may not.
pub open spec fn next_sync_key(key: Seq<char>, token: Option<Seq<char>>) -> Seq<char> {
    match token {
        Some(t) => t,
        None => key,
    }
}

/// `keys[n + 1]`, the key after a call, follows from `keys[n]`, the key
/// before it, by `tokens[n]`, what that call returned.
spec fn key_follows_calls(keys: Seq<Seq<char>>, tokens: Seq<Option<Seq<char>>>) -> bool {
    &&& keys.len() == tokens.len() + 1
    &&& forall|i: int|
        0 <= i < tokens.len() ==> #[trigger] keys[i + 1] == next_sync_key(keys[i], tokens[i])
}

proof fn lemma_key_after_calls(keys: Seq<Seq<char>>, tokens: Seq<Option<Seq<char>>>, n: int)
    requires
        key_follows_calls(keys, tokens),
        0 <= n <= tokens.len(),
    ensures
        forall|j: int|
            0 <= j < n && (#[trigger] tokens[j]) is Some && (forall|i: int|
                j < i < n ==> (#[trigger] tokens[i]) is None) ==> keys[n] == tokens[j]->0,
        (forall|i: int| 0 <= i < n ==> (#[trigger] tokens[i]) is None) ==> keys[n] == keys[0],
    decreases n,
{
    if n > 0 {
        lemma_key_after_calls(keys, tokens, n - 1);
        let m = n - 1;
        assert(keys[m + 1] == next_sync_key(keys[m], tokens[m]));
        assert(m + 1 == n);
        if tokens[n - 1] is None {
            assert forall|j: int|
                0 <= j < n && (#[trigger] tokens[j]) is Some && (forall|i: int|
                    j < i < n ==> (#[trigger] tokens[i]) is None) implies keys[n] == tokens[j]->0 by {
                assert(j != n - 1);
                assert forall|i: int| j < i < n - 1 implies (#[trigger] tokens[i]) is None by {}
            }
        } else {
            assert forall|j: int|
                0 <= j < n && (#[trigger] tokens[j]) is Some && (forall|i: int|
                    j < i < n ==> (#[trigger] tokens[i]) is None) implies keys[n] == tokens[j]->0 by {
                if j < n - 1 {
                    assert(tokens[n - 1] is None);
                }
            }
            if forall|i: int| 0 <= i < n ==> (#[trigger] tokens[i]) is None {
                assert(tokens[n - 1] is None);
            }
        }
    }
}

/// Over any sequence of calls on one client, where `keys[0]` is the key it
/// was made with (`*` from [`APIClient::new`], the given one from
/// [`APIClient::new_with_sync_key`]) and `keys[n]` is its key after the
/// `n`-th call, `tokens[n - 1]` being what that call returned (a sync always
/// returns a token, a batch of commands may not): the key after `n` calls,
/// which the next sync request carries, is the token returned by the most
/// recent of those calls that returned one, or the initial key if none did.
pub proof fn lemma_sync_key_is_latest_token(keys: Seq<Seq<char>>, tokens: Seq<Option<Seq<char>>>)
    requires
        keys.len() == tokens.len() + 1,
        forall|i: int|
            0 <= i < tokens.len() ==> #[trigger] keys[i + 1] == next_sync_key(keys[i], tokens[i]),
    ensures
        forall|n: int, j: int|
            #![trigger keys[n], tokens[j]]
            0 <= j < n <= tokens.len() && tokens[j] is Some && (forall|i: int|
                j < i < n ==> (#[trigger] tokens[i]) is None) ==> keys[n] == tokens[j]->0,
        forall|n: int|
            0 <= n <= tokens.len() && (forall|i: int| 0 <= i < n ==> (#[trigger] tokens[i]) is None)
                ==> #[trigger] keys[n] == keys[0],
{
    assert forall|n: int, j: int|
        #![trigger keys[n], tokens[j]]
        0 <= j < n <= tokens.len() && tokens[j] is Some && (forall|i: int|
            j < i < n ==> (#[trigger] tokens[i]) is None) implies keys[n] == tokens[j]->0 by {
        lemma_key_after_calls(keys, tokens, n);
    }
    assert forall|n: int|
        0 <= n <= tokens.len() && (forall|i: int| 0 <= i < n ==> (#[trigger] tokens[i]) is None)
            implies #[trigger] keys[n] == keys[0] by {
        lemma_key_after_calls(keys, tokens, n);
    }
}

impl APIClient {
    /// A client that starts with a full sync (sync key `*`).
    pub fn new(key: String) -> (c: Self)
        ensures
            c@.key == key@,
            c@.sync_key == seq!['*'],
    {
        let client = http_client(CONNECT_TIMEOUT_SECS, REQUEST_TIMEOUT_SECS);
        let sync_key = SyncKey::default();
        APIClient { key, sync_key, client }
    }

    /// Creates a new client with a sync key.
    ///
    /// External consumers should store the sync key somewhere permanent and
    /// initialize `APIClient` with this method if it is necessary to use
    /// incremental sync across restarts.
    pub fn new_with_sync_key(key: String, sync_key: String) -> (c: Self)
        ensures
            c@.key == key@,
            c@.sync_key == sync_key@,
    {
        let client = http_client(CONNECT_TIMEOUT_SECS, REQUEST_TIMEOUT_SECS);
        APIClient { key, sync_key: SyncKey(sync_key), client }
    }

    /// The HTTP client that performs the requests.
    pub fn http(&self) -> (c: &reqwest::Client)
        ensures
            *c == self@.client,
    {
        &self.client
    }

    /// The API key.
    pub fn api_key(&self) -> (k: &str)
        ensures
            k@ == self@.key,
    {
        self.key.as_str()
    }

    /// The form fields of a sync request for the given resource types: the
    /// current sync key and the JSON list of resource types.
    pub fn sync_form(&self, resource_types: &Vec<ResourceType>) -> (form: Vec<(String, String)>)
        ensures
            form@.len() == 2,
            form@[0].0@ == "sync_token"@,
            form@[0].1@ == self@.sync_key,
            form@[1].0@ == "resource_types"@,
            form@[1].1@ == resource_types_json(resource_types@),
    {
        let mut form: Vec<(String, String)> = Vec::new();
        form.push((String::from_str("sync_token"), String::from_str(self.sync_key.key())));
        form.push((String::from_str("resource_types"), resource_types_to_json(resource_types)));
        form
    }

    /// Takes in the answer to a sync request: the client's sync key becomes
    /// the one the response carries, so that the next sync is incremental.
    pub fn finish_sync(&mut self, response: SyncResponse) -> (r: SyncResponse)
        ensures
            final(self)@.sync_key == next_sync_key(old(self)@.sync_key, Some(response@.sync_token)),
            final(self)@.sync_key == response@.sync_token,
            final(self)@.key == old(self)@.key,
            final(self)@.client == old(self)@.client,
            r == response,
    {
        self.sync_key = SyncKey(String::from_str(response.sync_token()));
        response
    }

    /// Takes in the answer to a batch of commands: the sync key moves on if
    /// the response carries a new one, and the errors of the commands that
    /// failed are collected.
    pub fn finish_send(&mut self, response: SyncWriteResponse) -> (out: SyncWriteOutput)
        ensures
            final(self)@.sync_key == next_sync_key(old(self)@.sync_key, response@.sync_token),
            final(self)@.key == old(self)@.key,
            final(self)@.client == old(self)@.client,
            out.errors@ == write_errors(response@.sync_status),
            distinct_commands(response@.sync_status),
            out.temp_id_mapping == response@.temp_id_mapping,
    {
        proof {
            use_type_invariant(&response);
        }
        let SyncWriteResponse { sync_status, sync_token, temp_id_mapping } = response;
        if let Some(token) = sync_token {
            self.sync_key = SyncKey(token);
        }
        let errors = collect_write_errors(sync_status);
        SyncWriteOutput { temp_id_mapping, errors }
    }
}

/// The errors among the results of a batch of commands, in order.
pub fn collect_write_errors(statuses: Vec<(String, core::result::Result<String, SyncWriteError>)>) -> (errors: Vec<
    SyncWriteError,
>)
    ensures
        errors@ == write_errors(statuses@),
{
    let ghost all = statuses@;
    let total = statuses.len();
    assert(all.take(0) == Seq::<(String, core::result::Result<String, SyncWriteError>)>::empty());
    let mut errors: Vec<SyncWriteError> = Vec::new();
    let mut rest = statuses;
    let mut done: usize = 0;
    while rest.len() > 0
        invariant
            done + rest@.len() == all.len(),
            all.len() == total,
            rest@ == all.skip(done as int),
            errors@ == write_errors(all.take(done as int)),
        decreases rest@.len(),
    {
        let entry = rest.remove(0);
        assert(all.take(done + 1).drop_last() == all.take(done as int));
        assert(all.take(done + 1).last() == entry);
        if let Err(e) = entry.1 {
            errors.push(e);
        }
        done = done + 1;
    }
    assert(all.take(done as int) == all);
    errors
}

/// The resource type names as a JSON array, the way `serde_json` writes them.
pub fn resource_types_to_json(types: &Vec<ResourceType>) -> (s: String)
    ensures
        s@ == resource_types_json(types@),
{
    let mut out = String::from_str("[");
    proof {
        reveal_strlit("[");
        assert(types@.take(0) == Seq::<ResourceType>::empty());
    }
    let mut i: usize = 0;
    while i < types.len()
        invariant
            i <= types@.len(),
            out@ == seq!['['] + resource_type_list(types@.take(i as int)),
        decreases types.len() - i,
    {
        if i > 0 {
            out.append(",");
        }
        out.append("\"");
        out.append(types[i].as_str());
        out.append("\"");
        proof {
            reveal_strlit(",");
            reveal_strlit("\"");
            assert(types@.take(i + 1).drop_last() == types@.take(i as int));
        }
        i = i + 1;
    }
    out.append("]");
    proof {
        reveal_strlit("]");
        assert(types@.take(i as int) == types@);
    }
    out
}

/// Stores the sync key the Todoist sync API uses to enable incremental sync.
///
/// External consumers should store this somewhere permanent if it is
/// necessary to use incremental sync across restarts.
#[derive(Debug, Clone, PartialEq, Eq, PartialOrd, Ord)]
pub struct SyncKey(String);

impl View for SyncKey {
    type V = Seq<char>;

    closed spec fn view(&self) -> Seq<char> {
        self.0@
    }
}

impl From<String> for SyncKey {
    fn from(value: String) -> (k: Self)
        ensures
            k@ == value@,
    {
        SyncKey(value)
    }
}

impl FromSpecImpl<String> for SyncKey {
    /// The key's contents are stated by the postcondition of `from`.
    open spec fn obeys_from_spec() -> bool {
        false
    }

    open spec fn from_spec(v: String) -> SyncKey {
        vstd::pervasive::arbitrary()
    }
}

impl From<&str> for SyncKey {
    fn from(value: &str) -> (k: Self)
        ensures
            k@ == value@,
    {
        SyncKey(String::from_str(value))
    }
}

impl FromSpecImpl<&str> for SyncKey {
    /// The key's contents are stated by the postcondition of `from`.
    open spec fn obeys_from_spec() -> bool {
        false
    }

    open spec fn from_spec(v: &str) -> SyncKey {
        vstd::pervasive::arbitrary()
    }
}

impl SyncKey {
    /// Retrieve the sync key.
    pub fn key(&self) -> (k: &str)
        ensures
            k@ == self@,
    {
        self.0.as_str()
    }
}

impl Default for SyncKey {
    /// `*`: the key that asks for a full sync.
    fn default() -> (k: Self)
        ensures
            k@ == seq!['*'],
    {
        proof {
            reveal_strlit("*");
        }
        SyncKey(String::from_str("*"))
    }
}

/// The answer to a sync request.
#[derive(Debug, Clone, PartialEq, Eq, PartialOrd, Ord)]
pub struct SyncResponse {
    /// Same thing as 'tasks', renamed in the Todoist API.
    pub items: Option<Vec<Task>>,
    pub projects: Option<Vec<Project>>,
    /// Whether the response is a full sync or an incremental sync.
    pub full_sync: bool,
    sync_token: String,
}

/// The contents of a [`SyncResponse`].
pub struct SyncResponseView {
    pub items: Option<Vec<Task>>,
    pub projects: Option<Vec<Project>>,
    pub full_sync: bool,
    pub sync_token: Seq<char>,
}

impl View for SyncResponse {
    type V = SyncResponseView;

    closed spec fn view(&self) -> SyncResponseView {
        SyncResponseView {
            items: self.items,
            projects: self.projects,
            full_sync: self.full_sync,
            sync_token: self.sync_token@,
        }
    }
}

impl SyncResponse {
    /// A response from its parts.
    pub fn new(
        items: Option<Vec<Task>>,
        projects: Option<Vec<Project>>,
        full_sync: bool,
        sync_token: String,
    ) -> (r: SyncResponse)
        ensures
            r@.items == items,
            r@.projects == projects,
            r@.full_sync == full_sync,
            r@.sync_token == sync_token@,
    {
        SyncResponse { items, projects, full_sync, sync_token }
    }

    /// The sync key for the next incremental sync.
    pub fn sync_token(&self) -> (t: &str)
        ensures
            t@ == self@.sync_token,
    {
        self.sync_token.as_str()
    }
}

/// The kinds of resources a sync can ask for.
#[derive(Debug, Clone, Copy, PartialEq, Eq, PartialOrd, Ord, Structural)]
pub enum ResourceType {
    All,
    /// Same thing as a 'task', renamed in the Todoist API.
    Items,
    Projects,
}

/// The name the API uses for a resource type.
pub open spec fn resource_type_name(t: ResourceType) -> Seq<char> {
    match t {
        ResourceType::All => "all"@,
        ResourceType::Items => "items"@,
        ResourceType::Projects => "projects"@,
    }
}

/// The API's name for each resource type.
pub proof fn lemma_resource_type_names()
    ensures
        resource_type_name(ResourceType::All) == "all"@,
        resource_type_name(ResourceType::Items) == "items"@,
        resource_type_name(ResourceType::Projects) == "projects"@,
{
}

impl ResourceType {
    /// The name the API uses for the resource type.
    pub fn as_str(&self) -> (s: &'static str)
        ensures
            s@ == resource_type_name(*self),
    {
        match self {
            ResourceType::All => "all",
            ResourceType::Items => "items",
            ResourceType::Projects => "projects",
        }
    }
}

/// What a batch of commands produced.
#[derive(Debug, Clone, PartialEq, Eq)]
pub struct SyncWriteOutput {
    /// Maps temporary resource IDs to real resource IDs.
    ///
    /// For more info on temporary IDs, see [`command::Command::temp_id`].
    pub temp_id_mapping: Option<HashMap<uuid::Uuid, String>>,
    /// A collection of all errors returned by commands.
    pub errors: Vec<SyncWriteError>,
}

/// The answer to a batch of commands: for each command's UUID either `ok`
/// or its error (one entry per command, in the order the answer listed
/// them), the new sync key if any, and the real IDs of created resources.
#[derive(Debug, PartialEq, Eq)]
pub struct SyncWriteResponse {
    sync_status: Vec<CommandStatus>,
    sync_token: Option<String>,
    temp_id_mapping: Option<HashMap<uuid::Uuid, String>>,
}

/// The contents of a [`SyncWriteResponse`].
pub struct SyncWriteResponseView {
    pub sync_status: Seq<CommandStatus>,
    pub sync_token: Option<Seq<char>>,
    pub temp_id_mapping: Option<HashMap<uuid::Uuid, String>>,
}

impl View for SyncWriteResponse {
    type V = SyncWriteResponseView;

    closed spec fn view(&self) -> SyncWriteResponseView {
        SyncWriteResponseView {
            sync_status: self.sync_status@,
            sync_token: match self.sync_token {
                Some(t) => Some(t@),
                None => None,
            },
            temp_id_mapping: self.temp_id_mapping,
        }
    }
}

/// No command appears twice among the results (they are keyed by the
/// command's UUID).
pub open spec fn distinct_commands(statuses: Seq<CommandStatus>) -> bool {
    forall|a: int, b: int|
        0 <= a < b < statuses.len() ==> (#[trigger] statuses[a]).0@ != (#[trigger] statuses[b]).0@
}

impl SyncWriteResponse {
    #[verifier::type_invariant]
    spec fn commands_distinct(self) -> bool {
        distinct_commands(self.sync_status@)
    }

    /// A response from its parts, or `None` when a command appears twice.
    pub fn new(
        sync_status: Vec<CommandStatus>,
        sync_token: Option<String>,
        temp_id_mapping: Option<HashMap<uuid::Uuid, String>>,
    ) -> (r: Option<SyncWriteResponse>)
        ensures
            r is Some <==> distinct_commands(sync_status@),
            r matches Some(x) ==> x@.sync_status == sync_status@ && x@.sync_token == match sync_token {
                Some(t) => Some(t@),
                None => None::<Seq<char>>,
            } && x@.temp_id_mapping == temp_id_mapping,
    {
        if all_commands_distinct(&sync_status) {
            Some(SyncWriteResponse { sync_status, sync_token, temp_id_mapping })
        } else {
            None
        }
    }
}

/// Whether no command appears twice among the results.
fn all_commands_distinct(s: &Vec<CommandStatus>) -> (b: bool)
    ensures
        b == distinct_commands(s@),
{
    let n = s.len();
    let mut i: usize = 0;
    while i < n
        invariant
            n == s@.len(),
            i <= n,
            forall|a: int, b: int|
                0 <= a < b < n && a < i ==> (#[trigger] s@[a]).0@ != (#[trigger] s@[b]).0@,
        decreases n - i,
    {
        let mut j: usize = i + 1;
        while j < n
            invariant
                n == s@.len(),
                i < n,
                i + 1 <= j <= n,
                forall|a: int, b: int|
                    0 <= a < b < n && a < i ==> (#[trigger] s@[a]).0@ != (#[trigger] s@[b]).0@,
                forall|b: int| i < b < j ==> s@[i as int].0@ != (#[trigger] s@[b]).0@,
            decreases n - j,
        {
            if s[i].0 == s[j].0 {
                return false;
            }
            j = j + 1;
        }
        i = i + 1;
    }
    true
}

/// Why a command failed.
#[derive(Debug, Clone, PartialEq, Eq)]
pub struct SyncWriteError {
    /// A machine-readable error identifier (e.g. `INVALID_ARGUMENT_VALUE`).
    pub error_tag: String,
    /// A numeric error code.
    pub error_code: u16,
    /// A human-readable error message.
    pub error: String,
    /// The HTTP status code associated with this error. It may differ from
    /// the REST HTTP status for `error_tag`.
    pub http_code: NonZeroU16,
    /// Additional context about the error.
    pub error_extra: SyncWriteErrorExtra,
}

/// Additional context about a failed command.
#[derive(Debug, Clone, PartialEq, Eq)]
pub struct SyncWriteErrorExtra {
    /// The name of the argument that caused the error.
    pub argument: Option<String>,
    /// A detailed error description, when it says more than the generic
    /// message.
    pub explanation: Option<String>,
    /// Seconds to wait before retrying. May be returned on rate-limited
    /// requests and other API errors, not just `429` responses.
    pub retry_after: Option<u32>,
    /// The workspace ID related to the error.
    pub workspace_id: Option<u32>,
    /// The limit that was exceeded (for limit-related errors).
    pub max_count: Option<u32>,
    /// An event ID for error tracking/support purposes.
    pub event_id: Option<i32>,
    /// The project ID related to the error.
    pub project_id: Option<String>,
    /// The section ID related to the error.
    pub section_id: Option<String>,
}

} // verus!
