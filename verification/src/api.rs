//! The OneBot-compatible API: response envelopes and payloads, the runtime
//! state that the routes read, and what each route answers.

use vstd::prelude::*;
use vstd::utf8::encode_utf8;
use crate::message::{Message, MessageRecipient};
use crate::plugin::{plugin_error_text, PluginBackendKind, PluginDefinition, PluginError, PluginMetadata};
use crate::protocol::{protocol_error_text, ProtocolError, ProtocolEvent, ProtocolResult};
use crate::text::{concat_str, decimal_seq, decimal_string, is_blank_seq, trim, trim_seq};

verus! {

/// The response envelope of every route.
#[derive(Debug, Clone, PartialEq, Eq)]
pub struct ApiEnvelope<T> {
    /// `ok` on success, `failed` on error.
    pub status: String,
    /// OneBot return code: 0 on success, -1 on error.
    pub retcode: i32,
    /// Payload.
    pub data: T,
    /// Optional hint.
    pub message: Option<String>,
}

/// Empty payload.
#[derive(Debug, Clone, Copy, PartialEq, Eq, Structural)]
pub struct EmptyData;

/// Runtime login status.
#[derive(Debug, Clone, PartialEq, Eq)]
pub struct LoginStatusData {
    /// Whether the runtime is running.
    pub online: bool,
    /// Human-readable status.
    pub message: String,
}

/// Login info.
#[derive(Debug, Clone, PartialEq, Eq)]
pub struct LoginInfoData {
    /// Bot id.
    pub user_id: String,
    /// Bot nickname.
    pub nickname: String,
    /// Current login state.
    pub online: bool,
}

/// Group information.
#[derive(Debug, PartialEq, Eq)]
pub struct GroupInfo {
    /// Group id.
    pub group_id: String,
    /// Group display name.
    pub group_name: String,
}

/// User information.
#[derive(Debug, PartialEq, Eq)]
pub struct UserInfo {
    /// User id.
    pub user_id: String,
    /// User display name.
    pub nickname: String,
}

impl Clone for GroupInfo {
    fn clone(&self) -> (r: Self)
        ensures
            r == *self,
    {
        GroupInfo { group_id: self.group_id.clone(), group_name: self.group_name.clone() }
    }
}

impl Clone for UserInfo {
    fn clone(&self) -> (r: Self)
        ensures
            r == *self,
    {
        UserInfo { user_id: self.user_id.clone(), nickname: self.nickname.clone() }
    }
}

/// OneBot friend entry.
#[derive(Debug, Clone, PartialEq, Eq)]
pub struct FriendInfo {
    /// User id.
    pub user_id: String,
    /// Display name.
    pub nickname: String,
    /// Remark set by the current account.
    pub remark: String,
}

/// Delete-message request.
#[derive(Debug, Clone, PartialEq, Eq)]
pub struct DeleteMsgRequest {
    /// Message id to delete.
    pub message_id: String,
}

/// Delete-message response.
#[derive(Debug, Clone, PartialEq, Eq)]
pub struct DeleteMsgResponse {
    /// Deleted message id.
    pub message_id: String,
}

/// Plugin load request.
#[derive(Debug, Clone, PartialEq, Eq)]
pub struct PluginLoadRequest {
    /// Full plugin definition.
    pub definition: PluginDefinition,
}

/// Plugin load result.
#[derive(Debug, Clone, PartialEq, Eq)]
pub struct PluginLoadResult {
    /// Loaded plugin name.
    pub name: String,
}

/// Plugin unload request.
#[derive(Debug, Clone, PartialEq, Eq)]
pub struct PluginUnloadRequest {
    /// Plugin name.
    pub name: String,
}

/// Loaded plugin names.
#[derive(Debug, Clone, PartialEq, Eq)]
pub struct PluginListResponse {
    /// Names, in name order.
    pub plugins: Vec<String>,
}

/// Plugin metadata request.
#[derive(Debug, Clone, PartialEq, Eq)]
pub struct PluginMetadataRequest {
    /// Plugin name.
    pub name: String,
}

/// Plugin metadata response.
#[derive(Debug, Clone, PartialEq, Eq)]
pub struct PluginMetadataResponse {
    /// Plugin metadata.
    pub metadata: PluginMetadata,
}

/// Plugin runtime status.
#[derive(Debug, Clone, Copy, PartialEq, Eq, Structural)]
pub struct PluginStatusResponse {
    /// Whether the runtime is running.
    pub running: bool,
    /// Loaded plugin count.
    pub plugin_count: usize,
}

/// One loaded plugin and its backend kind.
#[derive(Debug, Clone, PartialEq, Eq)]
pub struct PluginKindItem {
    /// Plugin name.
    pub name: String,
    /// Backend kind.
    pub kind: PluginBackendKind,
}

/// Loaded plugins with their kinds.
#[derive(Debug, Clone, PartialEq, Eq)]
pub struct PluginKindsResponse {
    /// One item per plugin, in name order.
    pub kinds: Vec<PluginKindItem>,
}

/// Group info request.
#[derive(Debug, Clone, PartialEq, Eq)]
pub struct GetGroupInfoRequest {
    /// Target group id.
    pub group_id: String,
    /// Skip the built-in fallback groups.
    pub no_cache: bool,
}

/// Group info response.
#[derive(Debug, Clone, PartialEq, Eq)]
pub struct GroupInfoResponse {
    /// Group id.
    pub group_id: String,
    /// Group display name.
    pub group_name: String,
    /// Member count.
    pub member_count: usize,
    /// Capacity.
    pub max_member_count: usize,
}

/// Generic send request.
#[derive(Debug, Clone, PartialEq, Eq)]
pub struct SendRequest {
    /// The message.
    pub message: Message,
}

/// Message target kind.
#[derive(Debug, Clone, Copy, PartialEq, Eq, Structural)]
pub enum MessageType {
    /// Private message.
    Private,
    /// Group message.
    Group,
}

impl Default for MessageType {
    /// Private.
    fn default() -> (r: Self)
        ensures
            r == MessageType::Private,
    {
        MessageType::Private
    }
}

/// OneBot send request.
#[derive(Debug, Clone, PartialEq, Eq)]
pub struct CompatSendRequest {
    /// Target kind.
    pub message_type: MessageType,
    /// Target user of a private message.
    pub user_id: Option<String>,
    /// Target group of a group message.
    pub group_id: Option<String>,
    /// Plain text.
    pub message: String,
}

/// OneBot private send request.
#[derive(Debug, Clone, PartialEq, Eq)]
pub struct SendPrivateRequest {
    /// Target user id.
    pub user_id: String,
    /// Plain text.
    pub message: String,
}

/// OneBot group send request.
#[derive(Debug, Clone, PartialEq, Eq)]
pub struct SendGroupRequest {
    /// Target group id.
    pub group_id: String,
    /// Plain text.
    pub message: String,
}

/// Send response.
#[derive(Debug, Clone, PartialEq, Eq)]
pub struct SendResponse {
    /// Whether the message was accepted.
    pub accepted: bool,
    /// Message id for tracing.
    pub message_id: String,
}

/// API errors.
#[derive(Debug, Clone, PartialEq, Eq)]
pub enum ApiError {
    /// Bad client payload.
    InvalidRequest(String),
    /// Event forwarding failed.
    EventDispatch(String),
    /// Protocol or plugin operation failed.
    ProtocolSend(String),
}

/// The human-readable text of an API error.
pub open spec fn api_error_text(e: ApiError) -> Seq<char> {
    match e {
        ApiError::InvalidRequest(m) => "invalid request: "@ + m@,
        ApiError::EventDispatch(m) => "event dispatch failed: "@ + m@,
        ApiError::ProtocolSend(m) => "protocol send failed: "@ + m@,
    }
}

/// The HTTP status an API error is answered with.
pub open spec fn api_error_status(e: ApiError) -> u16 {
    match e {
        ApiError::InvalidRequest(_) => 400,
        ApiError::EventDispatch(_) => 503,
        ApiError::ProtocolSend(_) => 502,
    }
}

/// The message an API error carries.
pub open spec fn api_error_message(e: ApiError) -> Seq<char> {
    match e {
        ApiError::InvalidRequest(m) => m@,
        ApiError::EventDispatch(m) => m@,
        ApiError::ProtocolSend(m) => m@,
    }
}

/// `r` is the invalid-request error with text `msg`.
pub open spec fn is_invalid_request<T>(r: Result<T, ApiError>, msg: Seq<char>) -> bool {
    r matches Err(ApiError::InvalidRequest(m)) && m@ == msg
}

/// `e` is a success envelope around `data`.
pub open spec fn is_ok_envelope<T>(e: ApiEnvelope<T>, data: T) -> bool {
    &&& e.status@ == "ok"@
    &&& e.retcode == 0
    &&& e.data == data
    &&& e.message is None
}

impl ApiError {
    /// The human-readable text of this error.
    pub fn to_message_string(&self) -> (r: String)
        ensures
            r@ == api_error_text(*self),
    {
        match self {
            ApiError::InvalidRequest(m) => concat_str("invalid request: ", m.as_str()),
            ApiError::EventDispatch(m) => concat_str("event dispatch failed: ", m.as_str()),
            ApiError::ProtocolSend(m) => concat_str("protocol send failed: ", m.as_str()),
        }
    }

    /// The HTTP status this error is answered with.
    pub fn status_code(&self) -> (r: u16)
        ensures
            r == api_error_status(*self),
    {
        match self {
            ApiError::InvalidRequest(_) => 400,
            ApiError::EventDispatch(_) => 503,
            ApiError::ProtocolSend(_) => 502,
        }
    }

    /// The failure envelope of this error: `failed`, code -1, and the
    /// error's message.
    pub fn envelope(&self) -> (r: ApiEnvelope<EmptyData>)
        ensures
            r.status@ == "failed"@,
            r.retcode == -1,
            r.message matches Some(m) && m@ == api_error_message(*self),
    {
        let message = match self {
            ApiError::InvalidRequest(m) => m.clone(),
            ApiError::EventDispatch(m) => m.clone(),
            ApiError::ProtocolSend(m) => m.clone(),
        };
        ApiEnvelope {
            status: String::from_str("failed"),
            retcode: -1,
            data: EmptyData,
            message: Some(message),
        }
    }
}

/// A success envelope around `data`.
pub fn ok_envelope<T>(data: T) -> (r: ApiEnvelope<T>)
    ensures
        is_ok_envelope(r, data),
{
    ApiEnvelope { status: String::from_str("ok"), retcode: 0, data, message: None }
}

/// The API error for a failed protocol send.
pub fn protocol_send_error(error: &ProtocolError) -> (r: ApiError)
    ensures
        r matches ApiError::ProtocolSend(m) && m@ == "protocol send failed: "@ + protocol_error_text(
            error@,
        ),
{
    ApiError::ProtocolSend(concat_str("protocol send failed: ", error.to_message_string().as_str()))
}

/// The API error for a failed plugin operation.
pub fn plugin_api_error(error: &PluginError) -> (r: ApiError)
    ensures
        r matches ApiError::ProtocolSend(m) && m@ == plugin_error_text(*error),
{
    ApiError::ProtocolSend(error.to_message_string())
}

/// The event a sent message is queued as, given what the protocol backend's
/// send gave (`Ok` when there is no backend): the message as received, or
/// the failed send as an API error.
pub fn sent_message_event(sent: ProtocolResult<()>, message: Message) -> (r: Result<
    ProtocolEvent,
    ApiError,
>)
    ensures
        sent is Ok ==> r == Ok::<ProtocolEvent, ApiError>(ProtocolEvent::MessageReceived { message }),
        sent matches Err(e) ==> (r matches Err(ApiError::ProtocolSend(m)) && m@
            == "protocol send failed: "@ + protocol_error_text(e@)),
{
    match sent {
        Ok(()) => Ok(ProtocolEvent::MessageReceived { message }),
        Err(e) => Err(protocol_send_error(&e)),
    }
}

/// The error for a protocol backend that would not start listening.
pub fn protocol_listen_error(error: &ProtocolError) -> (r: ProtocolError)
    ensures
        r matches ProtocolError::Transport(m) && m@ == "protocol listen failed: "@
            + protocol_error_text(error@),
{
    ProtocolError::Transport(
        concat_str("protocol listen failed: ", error.to_message_string().as_str()),
    )
}

/// One item per loaded plugin, with its name and backend kind, in the order
/// given.
pub fn plugin_kind_items(kinds: &Vec<(String, PluginBackendKind)>) -> (r: Vec<PluginKindItem>)
    ensures
        r@.len() == kinds@.len(),
        forall|i: int|
            0 <= i < r@.len() ==> (#[trigger] r@[i]).name == kinds@[i].0 && r@[i].kind
                == kinds@[i].1,
{
    let mut r: Vec<PluginKindItem> = Vec::new();
    let mut i: usize = 0;
    while i < kinds.len()
        invariant
            i <= kinds@.len(),
            r@.len() == i,
            forall|j: int|
                0 <= j < i ==> (#[trigger] r@[j]).name == kinds@[j].0 && r@[j].kind == kinds@[j].1,
        decreases kinds.len() - i,
    {
        let name = kinds[i].0.clone();
        r.push(PluginKindItem { name, kind: kinds[i].1 });
        i = i + 1;
    }
    r
}

/// What became of handing an event to the dispatch queue.
#[derive(Debug, Clone, PartialEq, Eq)]
pub enum DispatchOutcome {
    /// Queued.
    Sent,
    /// The queue is closed; the error's text.
    Closed(String),
    /// The queue stayed full past the deadline.
    TimedOut,
}

/// Maps a dispatch outcome to the route's result.
pub fn dispatch_result(outcome: DispatchOutcome) -> (r: Result<(), ApiError>)
    ensures
        outcome is Sent ==> r is Ok,
        outcome matches DispatchOutcome::Closed(e) ==> (r matches Err(ApiError::EventDispatch(m))
            && m@ == "dispatch channel closed: "@ + e@),
        outcome is TimedOut ==> (r matches Err(ApiError::EventDispatch(m)) && m@
            == "event dispatch timed out"@),
{
    match outcome {
        DispatchOutcome::Sent => Ok(()),
        DispatchOutcome::Closed(e) => Err(
            ApiError::EventDispatch(concat_str("dispatch channel closed: ", e.as_str())),
        ),
        DispatchOutcome::TimedOut => Err(
            ApiError::EventDispatch(String::from_str("event dispatch timed out")),
        ),
    }
}

/// The runtime state the routes read: whether the runtime runs, and the
/// cached groups and users.
#[derive(Debug, Clone, PartialEq, Eq)]
pub struct ApiState {
    running: bool,
    groups: Vec<GroupInfo>,
    users: Vec<UserInfo>,
}

impl ApiState {
    /// Whether the runtime runs.
    pub closed spec fn running(&self) -> bool {
        self.running
    }

    /// The cached groups.
    pub closed spec fn groups_view(&self) -> Seq<GroupInfo> {
        self.groups@
    }

    /// The cached users.
    pub closed spec fn users_view(&self) -> Seq<UserInfo> {
        self.users@
    }

    /// Not running, with empty caches.
    pub fn new() -> (r: Self)
        ensures
            !r.running(),
            r.groups_view().len() == 0,
            r.users_view().len() == 0,
    {
        ApiState { running: false, groups: Vec::new(), users: Vec::new() }
    }

    /// The state with the running flag replaced.
    pub closed spec fn with_running(self, running: bool) -> ApiState {
        ApiState { running, ..self }
    }

    /// The state with the group cache replaced.
    pub closed spec fn with_groups(self, groups: Vec<GroupInfo>) -> ApiState {
        ApiState { groups, ..self }
    }

    /// The state with the user cache replaced.
    pub closed spec fn with_users(self, users: Vec<UserInfo>) -> ApiState {
        ApiState { users, ..self }
    }

    /// Replaces the running flag.
    pub fn set_runtime_running(&mut self, running: bool)
        ensures
            *final(self) == old(self).with_running(running),
    {
        self.running = running;
    }

    /// Reads the running flag.
    pub fn is_runtime_running(&self) -> (r: bool)
        ensures
            r == self.running(),
    {
        self.running
    }

    /// Replaces the group cache.
    pub fn set_groups(&mut self, groups: Vec<GroupInfo>)
        ensures
            *final(self) == old(self).with_groups(groups),
    {
        self.groups = groups;
    }

    /// Replaces the user cache.
    pub fn set_users(&mut self, users: Vec<UserInfo>)
        ensures
            *final(self) == old(self).with_users(users),
    {
        self.users = users;
    }

    /// A copy of the group cache.
    pub fn groups(&self) -> (r: Vec<GroupInfo>)
        ensures
            r@ == self.groups_view(),
    {
        let r = self.groups.clone();
        assert(r@ =~= self.groups@);
        r
    }

    /// A copy of the user cache.
    pub fn users(&self) -> (r: Vec<UserInfo>)
        ensures
            r@ == self.users_view(),
    {
        let r = self.users.clone();
        assert(r@ =~= self.users@);
        r
    }
}

/// What is written to the state is what it reads back: the running flag,
/// the groups and the users each replace only themselves.
pub proof fn law_state_reads_back_writes(
    s: ApiState,
    running: bool,
    groups: Vec<GroupInfo>,
    users: Vec<UserInfo>,
)
    ensures
        s.with_running(running).running() == running,
        s.with_running(running).groups_view() == s.groups_view(),
        s.with_running(running).users_view() == s.users_view(),
        s.with_groups(groups).groups_view() == groups@,
        s.with_groups(groups).running() == s.running(),
        s.with_groups(groups).users_view() == s.users_view(),
        s.with_users(users).users_view() == users@,
        s.with_users(users).running() == s.running(),
        s.with_users(users).groups_view() == s.groups_view(),
{
}

/// The fallback groups: `g1` devops and `g2` design.
pub open spec fn is_default_groups(s: Seq<GroupInfo>) -> bool {
    &&& s.len() == 2
    &&& s[0].group_id@ == "g1"@ && s[0].group_name@ == "devops"@
    &&& s[1].group_id@ == "g2"@ && s[1].group_name@ == "design"@
}

/// The fallback users: `u1` alice and `u2` bob.
pub open spec fn is_default_users(s: Seq<UserInfo>) -> bool {
    &&& s.len() == 2
    &&& s[0].user_id@ == "u1"@ && s[0].nickname@ == "alice"@
    &&& s[1].user_id@ == "u2"@ && s[1].nickname@ == "bob"@
}

/// The friends listed for `users`: same ids and names, empty remarks.
pub open spec fn friends_of(users: Seq<UserInfo>, friends: Seq<FriendInfo>) -> bool {
    &&& friends.len() == users.len()
    &&& forall|i: int|
        0 <= i < users.len() ==> (#[trigger] friends[i]).user_id == users[i].user_id
            && friends[i].nickname == users[i].nickname && friends[i].remark@.len() == 0
}

/// The fallback groups.
pub fn compatibility_default_groups() -> (r: Vec<GroupInfo>)
    ensures
        is_default_groups(r@),
{
    let mut v = Vec::new();
    v.push(GroupInfo { group_id: String::from_str("g1"), group_name: String::from_str("devops") });
    v.push(GroupInfo { group_id: String::from_str("g2"), group_name: String::from_str("design") });
    v
}

/// The fallback users.
pub fn compatibility_default_users() -> (r: Vec<UserInfo>)
    ensures
        is_default_users(r@),
{
    let mut v = Vec::new();
    v.push(UserInfo { user_id: String::from_str("u1"), nickname: String::from_str("alice") });
    v.push(UserInfo { user_id: String::from_str("u2"), nickname: String::from_str("bob") });
    v
}

/// The fallback friends: the fallback users with empty remarks.
pub fn compatibility_default_friends() -> (r: Vec<FriendInfo>)
    ensures
        r@.len() == 2,
        r@[0].user_id@ == "u1"@ && r@[0].nickname@ == "alice"@ && r@[0].remark@.len() == 0,
        r@[1].user_id@ == "u2"@ && r@[1].nickname@ == "bob"@ && r@[1].remark@.len() == 0,
{
    let mut v = Vec::new();
    v.push(
        FriendInfo {
            user_id: String::from_str("u1"),
            nickname: String::from_str("alice"),
            remark: String::new(),
        },
    );
    v.push(
        FriendInfo {
            user_id: String::from_str("u2"),
            nickname: String::from_str("bob"),
            remark: String::new(),
        },
    );
    v
}

/// The friend entries for a list of users.
pub fn friend_payload_from_users(users: Vec<UserInfo>) -> (r: Vec<FriendInfo>)
    ensures
        friends_of(users@, r@),
{
    let ghost all = users@;
    assert(all.len() == users.len());
    let mut rest = users;
    let mut r: Vec<FriendInfo> = Vec::new();
    let mut i: usize = 0;
    while rest.len() > 0
        invariant
            i <= all.len(),
            all.len() <= usize::MAX,
            rest@ == all.subrange(i as int, all.len() as int),
            r@.len() == i,
            forall|k: int|
                0 <= k < i ==> (#[trigger] r@[k]).user_id == all[k].user_id && r@[k].nickname
                    == all[k].nickname && r@[k].remark@.len() == 0,
        decreases rest.len(),
    {
        let u = rest.remove(0);
        assert(u == all[i as int]);
        assert(rest@ =~= all.subrange(i + 1, all.len() as int));
        r.push(FriendInfo { user_id: u.user_id, nickname: u.nickname, remark: String::new() });
        i = i + 1;
    }
    r
}

/// The id given to a message sent through the compatibility routes:
/// `api-` and the byte length of its text.
pub fn message_id_from_text(message: &str) -> (r: String)
    ensures
        r@ == "api-"@ + decimal_seq(encode_utf8(message@).len()),
{
    let n = message.as_bytes().len();
    concat_str("api-", decimal_string(n as u64).as_str())
}

/// The health-check answer.
pub fn health_check() -> (r: ApiEnvelope<EmptyData>)
    ensures
        r.status@ == "ok"@,
        r.retcode == 0,
        r.message matches Some(m) && m@ == "napcat api ready"@,
{
    ApiEnvelope {
        status: String::from_str("ok"),
        retcode: 0,
        data: EmptyData,
        message: Some(String::from_str("napcat api ready")),
    }
}

/// The login-status answer: status `ok`, code 0 and `runtime running` while
/// running, else status `failed`, code -1 and `runtime not started`.
pub fn login_status(online: bool) -> (r: ApiEnvelope<LoginStatusData>)
    ensures
        r.status@ == (if online { "ok"@ } else { "failed"@ }),
        r.retcode == (if online { 0i32 } else { -1i32 }),
        r.data.online == online,
        r.data.message@ == (if online { "runtime running"@ } else { "runtime not started"@ }),
        r.message is None,
{
    ApiEnvelope {
        status: if online {
            String::from_str("ok")
        } else {
            String::from_str("failed")
        },
        retcode: if online { 0 } else { -1 },
        data: LoginStatusData {
            online,
            message: if online {
                String::from_str("runtime running")
            } else {
                String::from_str("runtime not started")
            },
        },
        message: None,
    }
}

/// The login-info answer: the bot's identity while running, else an
/// offline identity with a failure status.
pub fn get_login_info(online: bool) -> (r: ApiEnvelope<LoginInfoData>)
    ensures
        r.data.online == online,
        r.data.nickname@ == "NapCatRS"@,
        r.data.user_id@ == (if online { "napcat-bot"@ } else { "offline"@ }),
        r.status@ == (if online { "ok"@ } else { "failed"@ }),
        r.retcode == (if online { 0i32 } else { -1i32 }),
        online ==> r.message is None,
        !online ==> (r.message matches Some(m) && m@ == "runtime not logged in"@),
{
    let info = if online {
        LoginInfoData {
            user_id: String::from_str("napcat-bot"),
            nickname: String::from_str("NapCatRS"),
            online,
        }
    } else {
        LoginInfoData {
            user_id: String::from_str("offline"),
            nickname: String::from_str("NapCatRS"),
            online,
        }
    };
    ApiEnvelope {
        status: if online {
            String::from_str("ok")
        } else {
            String::from_str("failed")
        },
        retcode: if online { 0 } else { -1 },
        message: if online {
            None
        } else {
            Some(String::from_str("runtime not logged in"))
        },
        data: info,
    }
}

/// The group list: the cache, or the fallback groups when it is empty.
pub fn list_groups(state: &ApiState) -> (r: ApiEnvelope<Vec<GroupInfo>>)
    ensures
        r.status@ == "ok"@ && r.retcode == 0 && r.message is None,
        state.groups_view().len() == 0 ==> is_default_groups(r.data@),
        state.groups_view().len() != 0 ==> r.data@ == state.groups_view(),
{
    let groups = state.groups();
    let data = if groups.len() == 0 {
        compatibility_default_groups()
    } else {
        groups
    };
    ok_envelope(data)
}

/// The user list: the cache, or the fallback users when it is empty.
pub fn list_users(state: &ApiState) -> (r: ApiEnvelope<Vec<UserInfo>>)
    ensures
        r.status@ == "ok"@ && r.retcode == 0 && r.message is None,
        state.users_view().len() == 0 ==> is_default_users(r.data@),
        state.users_view().len() != 0 ==> r.data@ == state.users_view(),
{
    let users = state.users();
    let data = if users.len() == 0 {
        compatibility_default_users()
    } else {
        users
    };
    ok_envelope(data)
}

/// The friend list: the cached users as friends, or the fallback friends.
pub fn get_friend_list(state: &ApiState) -> (r: ApiEnvelope<Vec<FriendInfo>>)
    ensures
        r.status@ == "ok"@ && r.retcode == 0 && r.message is None,
        state.users_view().len() == 0 ==> r.data@.len() == 2 && r.data@[0].user_id@ == "u1"@
            && r.data@[1].user_id@ == "u2"@,
        state.users_view().len() != 0 ==> friends_of(state.users_view(), r.data@),
{
    let users = state.users();
    let data = if users.len() == 0 {
        compatibility_default_friends()
    } else {
        friend_payload_from_users(users)
    };
    ok_envelope(data)
}

/// A message's recipient is named: a private message needs a user id, a
/// group message a group id.
pub fn validate_message(message: &Message) -> (r: Result<(), ApiError>)
    ensures
        message.recipient matches MessageRecipient::Private { user_id } ==> (if user_id@.len()
            == 0 {
            is_invalid_request(r, "private user_id cannot be empty"@)
        } else {
            r is Ok
        }),
        message.recipient matches MessageRecipient::Group { group_id } ==> (if group_id@.len()
            == 0 {
            is_invalid_request(r, "group_id cannot be empty"@)
        } else {
            r is Ok
        }),
{
    match &message.recipient {
        MessageRecipient::Private { user_id } => {
            if user_id.as_str().unicode_len() == 0 {
                return Err(
                    ApiError::InvalidRequest(String::from_str("private user_id cannot be empty")),
                );
            }
        },
        MessageRecipient::Group { group_id } => {
            if group_id.as_str().unicode_len() == 0 {
                return Err(ApiError::InvalidRequest(String::from_str("group_id cannot be empty")));
            }
        },
    }
    Ok(())
}

/// The text of an optional id, empty when absent.
pub open spec fn opt_text(s: Option<String>) -> Seq<char> {
    match s {
        Some(v) => v@,
        None => Seq::empty(),
    }
}

impl CompatSendRequest {
    /// The message a OneBot send request stands for: a text message from
    /// `api` to the named user or group, with an id from its length.  The
    /// target id must be present and non-empty.
    pub fn into_napcat_message(self) -> (r: Result<Message, ApiError>)
        ensures
            self.message_type == MessageType::Private && opt_text(self.user_id).len() == 0
                ==> is_invalid_request(r, "user_id is required for private messages"@),
            self.message_type == MessageType::Group && opt_text(self.group_id).len() == 0
                ==> is_invalid_request(r, "group_id is required for group messages"@),
            r matches Ok(m) ==> m.id@ == "api-"@ + decimal_seq(encode_utf8(self.message@).len()),
            r matches Ok(m) ==> m.sender_id@ == "api"@ && m.elements@.len() == 1
                && m.elements@[0] is Text && m.elements@[0]->text@ == self.message@,
            self.message_type == MessageType::Private && opt_text(self.user_id).len() != 0 ==> (
            r matches Ok(m) && m.recipient matches MessageRecipient::Private { user_id }
                && user_id@ == opt_text(self.user_id)),
            self.message_type == MessageType::Group && opt_text(self.group_id).len() != 0 ==> (
            r matches Ok(m) && m.recipient matches MessageRecipient::Group { group_id }
                && group_id@ == opt_text(self.group_id)),
    {
        let recipient = match self.message_type {
            MessageType::Private => {
                let user_id = match self.user_id {
                    Some(u) => u,
                    None => String::new(),
                };
                if user_id.as_str().unicode_len() == 0 {
                    return Err(
                        ApiError::InvalidRequest(
                            String::from_str("user_id is required for private messages"),
                        ),
                    );
                }
                MessageRecipient::Private { user_id }
            },
            MessageType::Group => {
                let group_id = match self.group_id {
                    Some(g) => g,
                    None => String::new(),
                };
                if group_id.as_str().unicode_len() == 0 {
                    return Err(
                        ApiError::InvalidRequest(
                            String::from_str("group_id is required for group messages"),
                        ),
                    );
                }
                MessageRecipient::Group { group_id }
            },
        };
        let id = message_id_from_text(self.message.as_str());
        Ok(Message::text(id.as_str(), "api", recipient, self.message.as_str()))
    }
}

/// The OneBot send request behind a private-send request.
pub fn compat_private_request(request: SendPrivateRequest) -> (r: CompatSendRequest)
    ensures
        r.message_type == MessageType::Private,
        r.user_id == Some(request.user_id),
        r.group_id is None,
        r.message == request.message,
{
    CompatSendRequest {
        message_type: MessageType::Private,
        user_id: Some(request.user_id),
        group_id: None,
        message: request.message,
    }
}

/// The OneBot send request behind a group-send request.
pub fn compat_group_request(request: SendGroupRequest) -> (r: CompatSendRequest)
    ensures
        r.message_type == MessageType::Group,
        r.user_id is None,
        r.group_id == Some(request.group_id),
        r.message == request.message,
{
    CompatSendRequest {
        message_type: MessageType::Group,
        user_id: None,
        group_id: Some(request.group_id),
        message: request.message,
    }
}

/// The answer to an accepted send.
pub fn send_response(message_id: String) -> (r: ApiEnvelope<SendResponse>)
    ensures
        r.status@ == "ok"@ && r.retcode == 0 && r.message is None,
        r.data.accepted,
        r.data.message_id == message_id,
{
    ok_envelope(SendResponse { accepted: true, message_id })
}

/// A delete request: the id must not be blank; the deletion is announced
/// as a warning event, and the id is answered back.
pub fn delete_msg(request: DeleteMsgRequest) -> (r: Result<
    (ProtocolEvent, ApiEnvelope<DeleteMsgResponse>),
    ApiError,
>)
    ensures
        is_blank_seq(request.message_id@) ==> is_invalid_request(r, "message_id is required"@),
        !is_blank_seq(request.message_id@) ==> (r matches Ok((ev, env)) && (ev matches ProtocolEvent::Warning { message }
            && message@ == "delete message requested: "@ + request.message_id@)
            && env.status@ == "ok"@ && env.retcode == 0 && env.message is None
            && env.data.message_id == request.message_id),
{
    if crate::text::is_blank(request.message_id.as_str()) {
        return Err(ApiError::InvalidRequest(String::from_str("message_id is required")));
    }
    let event = ProtocolEvent::Warning {
        message: concat_str("delete message requested: ", request.message_id.as_str()),
    };
    Ok((event, ok_envelope(DeleteMsgResponse { message_id: request.message_id })))
}

/// The first group with id `id`.
pub open spec fn find_group(gs: Seq<GroupInfo>, id: Seq<char>) -> Option<GroupInfo>
    decreases gs.len(),
{
    if gs.len() == 0 {
        None
    } else if gs[0].group_id@ == id {
        Some(gs[0])
    } else {
        find_group(gs.drop_first(), id)
    }
}

proof fn lemma_find_group_id(gs: Seq<GroupInfo>, id: Seq<char>)
    ensures
        find_group(gs, id) matches Some(g) ==> g.group_id@ == id,
    decreases gs.len(),
{
    if gs.len() > 0 && gs[0].group_id@ != id {
        lemma_find_group_id(gs.drop_first(), id);
    }
}

/// The name of group `id`: from the cache, else (unless `no_cache`) from
/// the fallback groups.
pub open spec fn lookup_group_name(groups: Seq<GroupInfo>, id: Seq<char>, no_cache: bool) -> Option<
    Seq<char>,
> {
    match find_group(groups, id) {
        Some(g) => Some(g.group_name@),
        None => if no_cache {
            None
        } else if id == "g1"@ {
            Some("devops"@)
        } else if id == "g2"@ {
            Some("design"@)
        } else {
            None
        },
    }
}

/// The first group of `gs` with id `id`.
fn find_group_in(gs: &Vec<GroupInfo>, id: &String) -> (r: Option<GroupInfo>)
    ensures
        r == find_group(gs@, id@),
{
    let mut i: usize = 0;
    assert(gs@.subrange(0, gs@.len() as int) =~= gs@);
    while i < gs.len()
        invariant
            i <= gs@.len(),
            find_group(gs@, id@) == find_group(gs@.subrange(i as int, gs@.len() as int), id@),
        decreases gs.len() - i,
    {
        let ghost s = gs@.subrange(i as int, gs@.len() as int);
        assert(s.drop_first() =~= gs@.subrange(i + 1, gs@.len() as int));
        if gs[i].group_id == *id {
            return Some(gs[i].clone());
        }
        i = i + 1;
    }
    None
}

/// The group-info answer: the requested id, trimmed, must not be empty; it
/// is looked up in the cache, then (unless `no_cache`) among the fallback
/// groups; an unknown group is an invalid request.
pub fn get_group_info(state: &ApiState, request: GetGroupInfoRequest) -> (r: Result<
    ApiEnvelope<GroupInfoResponse>,
    ApiError,
>)
    ensures
        ({
            let id = trim_seq(request.group_id@);
            let found = lookup_group_name(state.groups_view(), id, request.no_cache);
            &&& id.len() == 0 ==> is_invalid_request(r, "group_id is required"@)
            &&& id.len() != 0 && found is None ==> is_invalid_request(r, "group not found: "@ + id)
            &&& id.len() != 0 && found is Some ==> (r matches Ok(env) && env.status@ == "ok"@
                && env.retcode == 0 && env.message is None && env.data.group_id@ == id
                && env.data.group_name@ == found->0 && env.data.member_count == 0
                && env.data.max_member_count == 200)
        }),
{
    let requested = trim(request.group_id.as_str());
    if requested.as_str().unicode_len() == 0 {
        return Err(ApiError::InvalidRequest(String::from_str("group_id is required")));
    }
    let runtime_groups = state.groups();
    let mut candidate = find_group_in(&runtime_groups, &requested);
    proof {
        lemma_find_group_id(runtime_groups@, requested@);
    }
    if candidate.is_none() && !request.no_cache {
        let fallback = compatibility_default_groups();
        proof {
            reveal_strlit("g1");
            reveal_strlit("g2");
            assert("g1"@ != "g2"@) by {
                assert("g1"@[1] != "g2"@[1]);
            }
            let f = fallback@;
            assert(f.drop_first().drop_first() =~= Seq::<GroupInfo>::empty());
            assert(find_group(f.drop_first().drop_first(), requested@) is None);
            assert(f.drop_first()[0] == f[1]);
            assert(find_group(f.drop_first(), requested@) == (if f[1].group_id@ == requested@ {
                Some(f[1])
            } else {
                find_group(f.drop_first().drop_first(), requested@)
            }));
            assert(find_group(f, requested@) == (if f[0].group_id@ == requested@ {
                Some(f[0])
            } else {
                find_group(f.drop_first(), requested@)
            }));
            assert(find_group(f, requested@) == (if requested@ == "g1"@ {
                Some(f[0])
            } else if requested@ == "g2"@ {
                Some(f[1])
            } else {
                None::<GroupInfo>
            }));
        }
        candidate = find_group_in(&fallback, &requested);
    }
    match candidate {
        Some(group) => Ok(
            ok_envelope(
                GroupInfoResponse {
                    group_id: group.group_id,
                    group_name: group.group_name,
                    member_count: 0,
                    max_member_count: 200,
                },
            ),
        ),
        None => Err(
            ApiError::InvalidRequest(concat_str("group not found: ", requested.as_str())),
        ),
    }
}

} // verus!
