//! The auto-channel engine.
//!
//! For every user observed at a monitored location, the engine keeps a
//! durable mapping from (user, server, monitored location) to the
//! channel created for the user. A user with a valid mapping is moved
//! into the mapped channel; a user without one gets a channel created,
//! configured and persisted, exactly once. A move that answers
//! *target-not-found* invalidates the stale mapping so the next cycle
//! recreates the channel.
//!
//! The engine is a pure state machine: each user's handling is a
//! `UserTurn` that steps from one command to the next. The driver
//! performs the returned `EngineAction`, feeds the outcome back, and
//! asks for the next action, so every decision in the cycle is
//! verified here while sockets and the key/value store stay outside.

use vstd::prelude::*;
use std::collections::HashMap;
use crate::strutil::is_i64_text;
use crate::strutil::i64_text_val;
use crate::strutil::i64_to_string;
use crate::strutil::lemma_i64_text_roundtrip;
use crate::strutil::parse_i64;
use crate::strutil::spec_i64_dec;
use crate::strutil::str_to_chars;
use crate::types::CHANNEL_NAME_COLLISION_CODE;
use crate::types::Client;
use crate::types::ClientBasicInfo;
use crate::types::CreateChannel;
use crate::types::QueryResult;
use crate::types::TARGET_NOT_FOUND_CODE;
use crate::types::WhoAmI;

verus! {

broadcast use vstd::std_specs::hash::group_hash_axioms;

/// The permission id granted on every created channel.
pub const DEFAULT_PERMISSION_ID: u64 = 133;

/// The value granted for the default permission.
pub const DEFAULT_PERMISSION_VALUE: i64 = 75;

/// An inbound event for the engine.
pub enum AutoChannelEvent {
    /// A user was seen entering or moving to a channel.
    Update(ClientBasicInfo),
    /// A user (client id, unique id) asked for their mappings to be
    /// dropped.
    DeleteChannel(i64, String),
    /// Shut the engine down.
    Terminate,
}

/// A command the engine asks its driver to carry out.
#[derive(Clone, Debug)]
pub enum EngineAction {
    /// Read a mapping from the key/value store.
    KvGet(String),
    /// Persist a mapping.
    KvSet(String, String),
    /// Drop a mapping.
    KvDelete(String),
    /// Create a channel with the given name under the given parent.
    CreateChannel(String, i64),
    /// Move a client into a channel.
    MoveClient(i64, i64),
    /// Grant the channel group to a database id on a channel.
    SetChannelGroup(i64, i64, i64),
    /// Apply a permission table to a channel.
    AddChannelPermission(i64, Vec<(u64, i64)>),
    /// Send a private message to a client.
    SendMessage(i64, String),
    /// Resolve a protocol unique id to a database id.
    QueryDatabaseId(String),
    /// Issue the keepalive no-op.
    KeepAlive,
    /// Log the control connection out.
    Logout,
}

pub enum EngineActionModel {
    KvGet(Seq<char>),
    KvSet(Seq<char>, Seq<char>),
    KvDelete(Seq<char>),
    CreateChannel(Seq<char>, int),
    MoveClient(int, int),
    SetChannelGroup(int, int, int),
    AddChannelPermission(int, Seq<(u64, i64)>),
    SendMessage(int, Seq<char>),
    QueryDatabaseId(Seq<char>),
    KeepAlive,
    Logout,
}

impl View for EngineAction {
    type V = EngineActionModel;

    closed spec fn view(&self) -> EngineActionModel {
        match self {
            EngineAction::KvGet(k) => EngineActionModel::KvGet(k@),
            EngineAction::KvSet(k, v) => EngineActionModel::KvSet(k@, v@),
            EngineAction::KvDelete(k) => EngineActionModel::KvDelete(k@),
            EngineAction::CreateChannel(n, p) => EngineActionModel::CreateChannel(n@, *p as int),
            EngineAction::MoveClient(c, t) => EngineActionModel::MoveClient(
                *c as int,
                *t as int,
            ),
            EngineAction::SetChannelGroup(d, c, g) => EngineActionModel::SetChannelGroup(
                *d as int,
                *c as int,
                *g as int,
            ),
            EngineAction::AddChannelPermission(c, p) => EngineActionModel::AddChannelPermission(
                *c as int,
                p@,
            ),
            EngineAction::SendMessage(c, m) => EngineActionModel::SendMessage(*c as int, m@),
            EngineAction::QueryDatabaseId(u) => EngineActionModel::QueryDatabaseId(u@),
            EngineAction::KeepAlive => EngineActionModel::KeepAlive,
            EngineAction::Logout => EngineActionModel::Logout,
        }
    }
}

/// Where one user's handling stands.
#[derive(Clone, Debug)]
pub enum TurnStep {
    /// Look the mapping key up.
    LookupMapping,
    /// A mapping was found: move the user into the mapped channel.
    MoveExisting { target: i64 },
    /// No usable mapping: create a channel under this name.
    Creating { name: String },
    /// The channel exists: grant the configured channel group.
    GrantPrivilege { channel: i64 },
    /// Apply the baseline permission.
    DefaultPermission { channel: i64 },
    /// Apply the permissions configured for the origin channel.
    CustomPermission { channel: i64 },
    /// Move the user into the channel just created.
    MoveCreated { channel: i64 },
    /// Tell the user they were moved.
    NotifyMoved { channel: i64, created: bool },
    /// Move the bot back out of the created channel.
    MoveSelfOut { channel: i64 },
    /// Persist the mapping.
    PersistMapping { channel: i64 },
    /// Drop the stale mapping after a target-not-found move failure.
    InvalidateMapping,
    /// The turn is over; `repoll` asks for an immediate next cycle.
    Done { repoll: bool },
    /// The turn was abandoned; the next cycle retries from scratch.
    Aborted,
    /// The session must end: the bot could not leave the new channel.
    Failed,
}

pub enum TurnStepModel {
    LookupMapping,
    MoveExisting { target: int },
    Creating { name: Seq<char> },
    GrantPrivilege { channel: int },
    DefaultPermission { channel: int },
    CustomPermission { channel: int },
    MoveCreated { channel: int },
    NotifyMoved { channel: int, created: bool },
    MoveSelfOut { channel: int },
    PersistMapping { channel: int },
    InvalidateMapping,
    Done { repoll: bool },
    Aborted,
    Failed,
}

impl View for TurnStep {
    type V = TurnStepModel;

    closed spec fn view(&self) -> TurnStepModel {
        match self {
            TurnStep::LookupMapping => TurnStepModel::LookupMapping,
            TurnStep::MoveExisting { target } => TurnStepModel::MoveExisting {
                target: *target as int,
            },
            TurnStep::Creating { name } => TurnStepModel::Creating { name: name@ },
            TurnStep::GrantPrivilege { channel } => TurnStepModel::GrantPrivilege {
                channel: *channel as int,
            },
            TurnStep::DefaultPermission { channel } => TurnStepModel::DefaultPermission {
                channel: *channel as int,
            },
            TurnStep::CustomPermission { channel } => TurnStepModel::CustomPermission {
                channel: *channel as int,
            },
            TurnStep::MoveCreated { channel } => TurnStepModel::MoveCreated {
                channel: *channel as int,
            },
            TurnStep::NotifyMoved { channel, created } => TurnStepModel::NotifyMoved {
                channel: *channel as int,
                created: *created,
            },
            TurnStep::MoveSelfOut { channel } => TurnStepModel::MoveSelfOut {
                channel: *channel as int,
            },
            TurnStep::PersistMapping { channel } => TurnStepModel::PersistMapping {
                channel: *channel as int,
            },
            TurnStep::InvalidateMapping => TurnStepModel::InvalidateMapping,
            TurnStep::Done { repoll } => TurnStepModel::Done { repoll: *repoll },
            TurnStep::Aborted => TurnStepModel::Aborted,
            TurnStep::Failed => TurnStepModel::Failed,
        }
    }
}

/// One user's handling within a poll cycle.
#[derive(Clone, Debug)]
pub struct UserTurn {
    client_id: i64,
    client_database_id: i64,
    origin_channel: i64,
    nickname: String,
    key: String,
    step: TurnStep,
}

pub struct UserTurnModel {
    pub client_id: int,
    pub client_database_id: int,
    pub origin_channel: int,
    pub nickname: Seq<char>,
    pub key: Seq<char>,
    pub step: TurnStepModel,
}

impl View for UserTurn {
    type V = UserTurnModel;

    closed spec fn view(&self) -> UserTurnModel {
        UserTurnModel {
            client_id: self.client_id as int,
            client_database_id: self.client_database_id as int,
            origin_channel: self.origin_channel as int,
            nickname: self.nickname@,
            key: self.key@,
            step: self.step@,
        }
    }
}

impl UserTurn {
    pub fn client_id(&self) -> (r: i64)
        ensures
            r as int == self@.client_id,
    {
        self.client_id
    }

    /// Where the turn stands; the driver picks the matching reply
    /// function by this.
    pub fn step(&self) -> (r: &TurnStep)
        ensures
            r@ == self@.step,
    {
        &self.step
    }

    pub fn is_done(&self) -> (r: bool)
        ensures
            r == (self@.step is Done),
    {
        matches!(self.step, TurnStep::Done { .. })
    }

    pub fn is_aborted(&self) -> (r: bool)
        ensures
            r == (self@.step is Aborted),
    {
        matches!(self.step, TurnStep::Aborted)
    }

    pub fn is_failed(&self) -> (r: bool)
        ensures
            r == (self@.step is Failed),
    {
        matches!(self.step, TurnStep::Failed)
    }

    /// Whether the finished turn asks for an immediate re-poll instead
    /// of the normal wait.
    pub fn needs_repoll(&self) -> (r: bool)
        ensures
            r == (self@.step matches TurnStepModel::Done { repoll } && repoll),
    {
        matches!(self.step, TurnStep::Done { repoll: true })
    }
}

/// The durable mapping key for one user at one monitored location.
pub open spec fn spec_mapping_key(dbid: int, server: Seq<char>, channel: int) -> Seq<char> {
    "ts_autochannel_"@ + spec_i64_dec(dbid) + "_"@ + server + "_"@ + spec_i64_dec(channel)
}

/// Builds the durable mapping key.
pub fn build_redis_key(client_database_id: i64, server_id: &str, channel_id: i64) -> (r: String)
    ensures
        r@ == spec_mapping_key(client_database_id as int, server_id@, channel_id as int),
{
    let mut s = String::from_str("ts_autochannel_");
    let d = i64_to_string(client_database_id);
    s.append(d.as_str());
    s.append("_");
    s.append(server_id);
    s.append("_");
    let c = i64_to_string(channel_id);
    s.append(c.as_str());
    proof {
        assert(s@ =~= spec_mapping_key(client_database_id as int, server_id@, channel_id as int));
    }
    s
}

/// The first name tried for a user's channel.
pub open spec fn spec_initial_name(nickname: Seq<char>) -> Seq<char> {
    nickname + "'s channel"@
}

/// The name tried after `k` collisions: the base name with `k`
/// disambiguating marks appended.
pub open spec fn candidate_name(base: Seq<char>, k: nat) -> Seq<char>
    decreases k,
{
    if k == 0 {
        base
    } else {
        candidate_name(base, (k - 1) as nat).push('1')
    }
}

/// Builds the first candidate name for a user's channel.
pub fn initial_channel_name(nickname: &str) -> (r: String)
    ensures
        r@ == spec_initial_name(nickname@),
{
    let mut s = String::from_str(nickname);
    s.append("'s channel");
    s
}

/// The decisions of one session's auto-channel cycle, fixed at session
/// start.
pub struct AutoChannelEngine {
    monitor_channels: Vec<i64>,
    privilege_group: i64,
    channel_permissions: HashMap<i64, Vec<(u64, i64)>>,
    moved_message: String,
    server_uid: String,
    bot_client_id: i64,
    bot_database_id: i64,
}

pub struct AutoChannelEngineModel {
    pub monitor_channels: Seq<int>,
    pub privilege_group: int,
    pub channel_permissions: Map<i64, Seq<(u64, i64)>>,
    pub moved_message: Seq<char>,
    pub server_uid: Seq<char>,
    pub bot_client_id: int,
    pub bot_database_id: int,
}

impl View for AutoChannelEngine {
    type V = AutoChannelEngineModel;

    closed spec fn view(&self) -> AutoChannelEngineModel {
        AutoChannelEngineModel {
            monitor_channels: self.monitor_channels@.map_values(|x: i64| x as int),
            privilege_group: self.privilege_group as int,
            channel_permissions: self.channel_permissions@.map_values(|v: Vec<(u64, i64)>| v@),
            moved_message: self.moved_message@,
            server_uid: self.server_uid@,
            bot_client_id: self.bot_client_id as int,
            bot_database_id: self.bot_database_id as int,
        }
    }
}

// ---------------------------------------------------------------------
// The spec-level transition system

/// Whether a roster entry gets a turn: not the bot itself, sitting in
/// a monitored channel, and not a query identity.
pub open spec fn spec_should_handle(e: AutoChannelEngineModel, c: crate::types::ClientModel) -> bool {
    &&& c.client_database_id != e.bot_database_id
    &&& e.monitor_channels.contains(c.channel_id)
    &&& c.client_type != 1
}

/// The fresh turn for a roster entry.
pub open spec fn spec_turn_begin(e: AutoChannelEngineModel, c: crate::types::ClientModel) -> UserTurnModel {
    UserTurnModel {
        client_id: c.client_id,
        client_database_id: c.client_database_id,
        origin_channel: c.channel_id,
        nickname: c.client_nickname,
        key: spec_mapping_key(c.client_database_id, e.server_uid, c.channel_id),
        step: TurnStepModel::LookupMapping,
    }
}

/// Whether the configuration holds a permission table for a channel.
pub open spec fn spec_has_perms(e: AutoChannelEngineModel, channel: int) -> bool {
    i64::MIN <= channel <= i64::MAX && e.channel_permissions.dom().contains(channel as i64)
}

/// The permissions configured for a monitored channel, or none.
pub open spec fn spec_perms_or_empty(e: AutoChannelEngineModel, channel: int) -> Seq<(u64, i64)> {
    if spec_has_perms(e, channel) {
        e.channel_permissions[channel as i64]
    } else {
        Seq::empty()
    }
}

/// The command the turn's current step asks for; a finished turn asks
/// for nothing.
pub open spec fn spec_turn_action(e: AutoChannelEngineModel, t: UserTurnModel) -> Option<
    EngineActionModel,
> {
    match t.step {
        TurnStepModel::LookupMapping => Some(EngineActionModel::KvGet(t.key)),
        TurnStepModel::MoveExisting { target } => Some(
            EngineActionModel::MoveClient(t.client_id, target),
        ),
        TurnStepModel::Creating { name } => Some(
            EngineActionModel::CreateChannel(name, t.origin_channel),
        ),
        TurnStepModel::GrantPrivilege { channel } => Some(
            EngineActionModel::SetChannelGroup(t.client_database_id, channel, e.privilege_group),
        ),
        TurnStepModel::DefaultPermission { channel } => Some(
            EngineActionModel::AddChannelPermission(
                channel,
                seq![(DEFAULT_PERMISSION_ID, DEFAULT_PERMISSION_VALUE)],
            ),
        ),
        TurnStepModel::CustomPermission { channel } => Some(
            EngineActionModel::AddChannelPermission(
                channel,
                spec_perms_or_empty(e, t.origin_channel),
            ),
        ),
        TurnStepModel::MoveCreated { channel } => Some(
            EngineActionModel::MoveClient(t.client_id, channel),
        ),
        TurnStepModel::NotifyMoved { .. } => Some(
            EngineActionModel::SendMessage(t.client_id, e.moved_message),
        ),
        TurnStepModel::MoveSelfOut { .. } => Some(
            EngineActionModel::MoveClient(e.bot_client_id, t.origin_channel),
        ),
        TurnStepModel::PersistMapping { channel } => Some(
            EngineActionModel::KvSet(t.key, spec_i64_dec(channel)),
        ),
        TurnStepModel::InvalidateMapping => Some(EngineActionModel::KvDelete(t.key)),
        TurnStepModel::Done { .. } => None,
        TurnStepModel::Aborted => None,
        TurnStepModel::Failed => None,
    }
}

/// Whether a stored value is a usable mapping.
pub open spec fn spec_mapping_usable(found: Option<Seq<char>>) -> bool {
    found matches Some(v) && is_i64_text(v)
}

/// The step after the mapping lookup: move to the mapped channel when
/// a usable mapping exists, else create a channel under the user's
/// name. A stored value that does not parse counts as missing, so the
/// next successful creation overwrites it.
pub open spec fn spec_on_mapping(t: UserTurnModel, found: Option<Seq<char>>) -> UserTurnModel {
    if spec_mapping_usable(found) {
        UserTurnModel { step: TurnStepModel::MoveExisting { target: i64_text_val(found->0) }, ..t }
    } else {
        UserTurnModel {
            step: TurnStepModel::Creating { name: spec_initial_name(t.nickname) },
            ..t
        }
    }
}

/// The step after a creation attempt: success configures the new
/// channel; a name collision retries under the name with one more
/// mark; anything else abandons the turn.
pub open spec fn spec_on_create_reply(t: UserTurnModel, r: Result<Option<int>, int>) -> UserTurnModel {
    match t.step {
        TurnStepModel::Creating { name } => match r {
            Result::Ok(Some(cid)) => UserTurnModel {
                step: TurnStepModel::GrantPrivilege { channel: cid },
                ..t
            },
            Result::Ok(None) => UserTurnModel { step: TurnStepModel::Aborted, ..t },
            Result::Err(code) => if code == CHANNEL_NAME_COLLISION_CODE as int {
                UserTurnModel { step: TurnStepModel::Creating { name: name.push('1') }, ..t }
            } else {
                UserTurnModel { step: TurnStepModel::Aborted, ..t }
            },
        },
        _ => t,
    }
}

/// Group grant errors are logged and ignored: configuration continues.
pub open spec fn spec_after_grant(t: UserTurnModel) -> UserTurnModel {
    match t.step {
        TurnStepModel::GrantPrivilege { channel } => UserTurnModel {
            step: TurnStepModel::DefaultPermission { channel },
            ..t
        },
        _ => t,
    }
}

/// After the baseline permission: apply the configured table if the
/// origin channel has one, else move the user in.
pub open spec fn spec_after_default_permission(
    e: AutoChannelEngineModel,
    t: UserTurnModel,
) -> UserTurnModel {
    match t.step {
        TurnStepModel::DefaultPermission { channel } => if spec_has_perms(e, t.origin_channel) {
            UserTurnModel { step: TurnStepModel::CustomPermission { channel }, ..t }
        } else {
            UserTurnModel { step: TurnStepModel::MoveCreated { channel }, ..t }
        },
        _ => t,
    }
}

/// Permission errors are logged and ignored: the user is moved in.
pub open spec fn spec_after_custom_permission(t: UserTurnModel) -> UserTurnModel {
    match t.step {
        TurnStepModel::CustomPermission { channel } => UserTurnModel {
            step: TurnStepModel::MoveCreated { channel },
            ..t
        },
        _ => t,
    }
}

/// The step after a move of the user: success notifies them; a
/// target-not-found failure invalidates the mapping; anything else
/// abandons the turn.
pub open spec fn spec_on_move_reply(t: UserTurnModel, r: Result<(), int>) -> UserTurnModel {
    match t.step {
        TurnStepModel::MoveExisting { target } => match r {
            Result::Ok(_) => UserTurnModel {
                step: TurnStepModel::NotifyMoved { channel: target, created: false },
                ..t
            },
            Result::Err(code) => if code == TARGET_NOT_FOUND_CODE as int {
                UserTurnModel { step: TurnStepModel::InvalidateMapping, ..t }
            } else {
                UserTurnModel { step: TurnStepModel::Aborted, ..t }
            },
        },
        TurnStepModel::MoveCreated { channel } => match r {
            Result::Ok(_) => UserTurnModel {
                step: TurnStepModel::NotifyMoved { channel, created: true },
                ..t
            },
            Result::Err(code) => if code == TARGET_NOT_FOUND_CODE as int {
                UserTurnModel { step: TurnStepModel::InvalidateMapping, ..t }
            } else {
                UserTurnModel { step: TurnStepModel::Aborted, ..t }
            },
        },
        _ => t,
    }
}

/// The notice is best effort: the turn continues either way. A freshly
/// created channel still needs the bot moved out and the mapping
/// persisted; a move into an existing channel is finished.
pub open spec fn spec_after_notify(t: UserTurnModel) -> UserTurnModel {
    match t.step {
        TurnStepModel::NotifyMoved { channel, created } => if created {
            UserTurnModel { step: TurnStepModel::MoveSelfOut { channel }, ..t }
        } else {
            UserTurnModel { step: TurnStepModel::Done { repoll: false }, ..t }
        },
        _ => t,
    }
}

/// The bot must leave the user's new channel; failure to do so is
/// fatal to the session.
pub open spec fn spec_on_move_self_out(t: UserTurnModel, ok: bool) -> UserTurnModel {
    match t.step {
        TurnStepModel::MoveSelfOut { channel } => if ok {
            UserTurnModel { step: TurnStepModel::PersistMapping { channel }, ..t }
        } else {
            UserTurnModel { step: TurnStepModel::Failed, ..t }
        },
        _ => t,
    }
}

/// After the stale mapping is dropped the turn ends, asking for an
/// immediate re-poll so the user is recreated without a full wait.
pub open spec fn spec_after_invalidate(t: UserTurnModel) -> UserTurnModel {
    match t.step {
        TurnStepModel::InvalidateMapping => UserTurnModel {
            step: TurnStepModel::Done { repoll: true },
            ..t
        },
        _ => t,
    }
}

/// A storage failure while persisting abandons the turn; the next
/// cycle retries.
pub open spec fn spec_on_persist(t: UserTurnModel, ok: bool) -> UserTurnModel {
    match t.step {
        TurnStepModel::PersistMapping { .. } => if ok {
            UserTurnModel { step: TurnStepModel::Done { repoll: false }, ..t }
        } else {
            UserTurnModel { step: TurnStepModel::Aborted, ..t }
        },
        _ => t,
    }
}

/// A storage failure during lookup abandons the turn.
pub open spec fn spec_on_storage_error(t: UserTurnModel) -> UserTurnModel {
    UserTurnModel { step: TurnStepModel::Aborted, ..t }
}

// ---------------------------------------------------------------------
// The executable engine

/// The model of a creation reply.
pub open spec fn create_reply_model(r: &QueryResult<Option<CreateChannel>>) -> Result<
    Option<int>,
    int,
> {
    match r {
        Result::Ok(Option::Some(c)) => Result::Ok(Some(c@.cid)),
        Result::Ok(Option::None) => Result::Ok(None),
        Result::Err(e) => Result::Err(e@.code),
    }
}

/// The model of a move reply.
pub open spec fn move_reply_model(r: &QueryResult<()>) -> Result<(), int> {
    match r {
        Result::Ok(_) => Result::Ok(()),
        Result::Err(e) => Result::Err(e@.code),
    }
}

/// The model of a looked-up mapping value.
pub open spec fn found_model(found: &Option<String>) -> Option<Seq<char>> {
    match found {
        Option::Some(s) => Some(s@),
        Option::None => None,
    }
}

impl AutoChannelEngine {
    pub fn new(
        monitor_channels: Vec<i64>,
        privilege_group: i64,
        channel_permissions: HashMap<i64, Vec<(u64, i64)>>,
        moved_message: String,
        server_uid: String,
        who_am_i: &WhoAmI,
    ) -> (r: AutoChannelEngine)
        ensures
            r@.monitor_channels == monitor_channels@.map_values(|x: i64| x as int),
            r@.privilege_group == privilege_group as int,
            r@.channel_permissions == channel_permissions@.map_values(|v: Vec<(u64, i64)>| v@),
            r@.moved_message == moved_message@,
            r@.server_uid == server_uid@,
            r@.bot_client_id == who_am_i@.client_id,
            r@.bot_database_id == who_am_i@.client_database_id,
    {
        let bot_client_id = who_am_i.client_id();
        let bot_database_id = who_am_i.client_database_id();
        AutoChannelEngine {
            monitor_channels,
            privilege_group,
            channel_permissions,
            moved_message,
            server_uid,
            bot_client_id,
            bot_database_id,
        }
    }

    /// Whether a channel is monitored.
    pub fn monitors(&self, channel_id: i64) -> (r: bool)
        ensures
            r == self@.monitor_channels.contains(channel_id as int),
    {
        let n: usize = self.monitor_channels.len();
        let mut i: usize = 0;
        while i < n
            invariant
                i <= n,
                n == self.monitor_channels@.len(),
                self@.monitor_channels == self.monitor_channels@.map_values(|x: i64| x as int),
                forall|j: int| 0 <= j < i ==> self.monitor_channels@[j] != channel_id,
            decreases n - i,
        {
            if self.monitor_channels[i] == channel_id {
                proof {
                    assert(self@.monitor_channels[i as int] == channel_id as int);
                }
                return true;
            }
            i = i + 1;
        }
        proof {
            assert forall|j: int|
                0 <= j < self@.monitor_channels.len() implies #[trigger] self@.monitor_channels[j]
                != channel_id as int by {
                assert(self@.monitor_channels[j] == self.monitor_channels@[j] as int);
            }
        }
        false
    }

    /// Whether an update event concerns a monitored channel and should
    /// wake the engine.
    pub fn wants(&self, view: &ClientBasicInfo) -> (r: bool)
        ensures
            r == self@.monitor_channels.contains(view@.channel_id),
    {
        self.monitors(view.channel_id())
    }

    /// Opens a turn for a roster entry, or none when the entry is the
    /// bot itself, unmonitored, or a query identity.
    pub fn turn_begin(&self, client: &Client) -> (r: Option<UserTurn>)
        ensures
            r is Some <==> spec_should_handle(self@, client@),
            r is Some ==> r->0@ == spec_turn_begin(self@, client@),
    {
        if client.client_database_id() == self.bot_database_id {
            return None;
        }
        if !self.monitors(client.channel_id()) {
            return None;
        }
        if client.client_type() == 1 {
            return None;
        }
        let key = build_redis_key(
            client.client_database_id(),
            self.server_uid.as_str(),
            client.channel_id(),
        );
        let nickname = String::from_str(client.client_nickname());
        Some(
            UserTurn {
                client_id: client.client_id(),
                client_database_id: client.client_database_id(),
                origin_channel: client.channel_id(),
                nickname,
                key,
                step: TurnStep::LookupMapping,
            },
        )
    }

    /// The command the turn's current step asks for.
    pub fn turn_action(&self, turn: &UserTurn) -> (r: Option<EngineAction>)
        ensures
            match spec_turn_action(self@, turn@) {
                Some(a) => r is Some && r->0@ == a,
                None => r is None,
            },
    {
        match &turn.step {
            TurnStep::LookupMapping => Some(EngineAction::KvGet(turn.key.clone())),
            TurnStep::MoveExisting { target } => Some(
                EngineAction::MoveClient(turn.client_id, *target),
            ),
            TurnStep::Creating { name } => Some(
                EngineAction::CreateChannel(name.clone(), turn.origin_channel),
            ),
            TurnStep::GrantPrivilege { channel } => Some(
                EngineAction::SetChannelGroup(
                    turn.client_database_id,
                    *channel,
                    self.privilege_group,
                ),
            ),
            TurnStep::DefaultPermission { channel } => {
                let mut perms: Vec<(u64, i64)> = Vec::new();
                perms.push((DEFAULT_PERMISSION_ID, DEFAULT_PERMISSION_VALUE));
                proof {
                    assert(perms@ =~= seq![(DEFAULT_PERMISSION_ID, DEFAULT_PERMISSION_VALUE)]);
                }
                Some(EngineAction::AddChannelPermission(*channel, perms))
            },
            TurnStep::CustomPermission { channel } => {
                let ghost k = turn.origin_channel;
                proof {
                    assert(self@.channel_permissions.contains_key(k)
                        == self.channel_permissions@.contains_key(k));
                    if self.channel_permissions@.contains_key(k) {
                        assert(self@.channel_permissions[k] == self.channel_permissions@[k]@);
                    }
                }
                let perms = match self.channel_permissions.get(&turn.origin_channel) {
                    Option::Some(p) => vstd::slice::slice_to_vec(p.as_slice()),
                    Option::None => Vec::new(),
                };
                proof {
                    assert(perms@ =~= spec_perms_or_empty(self@, turn@.origin_channel));
                }
                Some(EngineAction::AddChannelPermission(*channel, perms))
            },
            TurnStep::MoveCreated { channel } => Some(
                EngineAction::MoveClient(turn.client_id, *channel),
            ),
            TurnStep::NotifyMoved { .. } => Some(
                EngineAction::SendMessage(turn.client_id, self.moved_message.clone()),
            ),
            TurnStep::MoveSelfOut { .. } => Some(
                EngineAction::MoveClient(self.bot_client_id, turn.origin_channel),
            ),
            TurnStep::PersistMapping { channel } => Some(
                EngineAction::KvSet(turn.key.clone(), i64_to_string(*channel)),
            ),
            TurnStep::InvalidateMapping => Some(EngineAction::KvDelete(turn.key.clone())),
            TurnStep::Done { .. } => None,
            TurnStep::Aborted => None,
            TurnStep::Failed => None,
        }
    }

    /// Feeds the mapping lookup's outcome into the turn.
    pub fn on_mapping(&self, turn: UserTurn, found: &Option<String>) -> (r: UserTurn)
        requires
            turn@.step is LookupMapping,
        ensures
            r@ == spec_on_mapping(turn@, found_model(found)),
    {
        match found {
            Option::Some(s) => {
                let v = str_to_chars(s.as_str());
                match parse_i64(v.as_slice()) {
                    Option::Some(cid) => UserTurn {
                        step: TurnStep::MoveExisting { target: cid },
                        ..turn
                    },
                    Option::None => {
                        let name = initial_channel_name(turn.nickname.as_str());
                        UserTurn { step: TurnStep::Creating { name }, ..turn }
                    },
                }
            },
            Option::None => {
                let name = initial_channel_name(turn.nickname.as_str());
                UserTurn { step: TurnStep::Creating { name }, ..turn }
            },
        }
    }

    /// Feeds a creation attempt's outcome into the turn.
    pub fn on_create_reply(&self, turn: UserTurn, reply: &QueryResult<Option<CreateChannel>>) -> (r:
        UserTurn)
        requires
            turn@.step is Creating,
        ensures
            r@ == spec_on_create_reply(turn@, create_reply_model(reply)),
    {
        match reply {
            Result::Ok(Option::Some(c)) => UserTurn {
                step: TurnStep::GrantPrivilege { channel: c.cid() },
                ..turn
            },
            Result::Ok(Option::None) => UserTurn { step: TurnStep::Aborted, ..turn },
            Result::Err(e) => {
                if e.code() == CHANNEL_NAME_COLLISION_CODE {
                    match turn.step {
                        TurnStep::Creating { mut name } => {
                            crate::strutil::push_char(&mut name, '1');
                            UserTurn {
                                client_id: turn.client_id,
                                client_database_id: turn.client_database_id,
                                origin_channel: turn.origin_channel,
                                nickname: turn.nickname,
                                key: turn.key,
                                step: TurnStep::Creating { name },
                            }
                        },
                        _ => UserTurn { step: TurnStep::Aborted, ..turn },
                    }
                } else {
                    UserTurn { step: TurnStep::Aborted, ..turn }
                }
            },
        }
    }

    /// Moves past the group grant; its errors are logged and ignored.
    pub fn after_grant(&self, turn: UserTurn) -> (r: UserTurn)
        requires
            turn@.step is GrantPrivilege,
        ensures
            r@ == spec_after_grant(turn@),
    {
        match turn.step {
            TurnStep::GrantPrivilege { channel } => UserTurn {
                step: TurnStep::DefaultPermission { channel },
                ..turn
            },
            _ => turn,
        }
    }

    /// Moves past the baseline permission; errors are logged and
    /// ignored.
    pub fn after_default_permission(&self, turn: UserTurn) -> (r: UserTurn)
        requires
            turn@.step is DefaultPermission,
        ensures
            r@ == spec_after_default_permission(self@, turn@),
    {
        match turn.step {
            TurnStep::DefaultPermission { channel } => {
                let has = self.channel_permissions.contains_key(&turn.origin_channel);
                if has {
                    UserTurn { step: TurnStep::CustomPermission { channel }, ..turn }
                } else {
                    UserTurn { step: TurnStep::MoveCreated { channel }, ..turn }
                }
            },
            _ => turn,
        }
    }

    /// Moves past the configured permissions; errors are logged and
    /// ignored.
    pub fn after_custom_permission(&self, turn: UserTurn) -> (r: UserTurn)
        requires
            turn@.step is CustomPermission,
        ensures
            r@ == spec_after_custom_permission(turn@),
    {
        match turn.step {
            TurnStep::CustomPermission { channel } => UserTurn {
                step: TurnStep::MoveCreated { channel },
                ..turn
            },
            _ => turn,
        }
    }

    /// Feeds a user move's outcome into the turn.
    pub fn on_move_reply(&self, turn: UserTurn, reply: &QueryResult<()>) -> (r: UserTurn)
        requires
            turn@.step is MoveExisting || turn@.step is MoveCreated,
        ensures
            r@ == spec_on_move_reply(turn@, move_reply_model(reply)),
    {
        match &turn.step {
            TurnStep::MoveExisting { target } => {
                let t = *target;
                match reply {
                    Result::Ok(_) => UserTurn {
                        step: TurnStep::NotifyMoved { channel: t, created: false },
                        ..turn
                    },
                    Result::Err(e) => {
                        if e.code() == TARGET_NOT_FOUND_CODE {
                            UserTurn { step: TurnStep::InvalidateMapping, ..turn }
                        } else {
                            UserTurn { step: TurnStep::Aborted, ..turn }
                        }
                    },
                }
            },
            TurnStep::MoveCreated { channel } => {
                let c = *channel;
                match reply {
                    Result::Ok(_) => UserTurn {
                        step: TurnStep::NotifyMoved { channel: c, created: true },
                        ..turn
                    },
                    Result::Err(e) => {
                        if e.code() == TARGET_NOT_FOUND_CODE {
                            UserTurn { step: TurnStep::InvalidateMapping, ..turn }
                        } else {
                            UserTurn { step: TurnStep::Aborted, ..turn }
                        }
                    },
                }
            },
            _ => turn,
        }
    }

    /// Moves past the notice; it is best effort.
    pub fn after_notify(&self, turn: UserTurn) -> (r: UserTurn)
        requires
            turn@.step is NotifyMoved,
        ensures
            r@ == spec_after_notify(turn@),
    {
        match turn.step {
            TurnStep::NotifyMoved { channel, created } => {
                if created {
                    UserTurn { step: TurnStep::MoveSelfOut { channel }, ..turn }
                } else {
                    UserTurn { step: TurnStep::Done { repoll: false }, ..turn }
                }
            },
            _ => turn,
        }
    }

    /// Feeds the bot's own move out of the new channel into the turn.
    pub fn on_move_self_out(&self, turn: UserTurn, ok: bool) -> (r: UserTurn)
        requires
            turn@.step is MoveSelfOut,
        ensures
            r@ == spec_on_move_self_out(turn@, ok),
    {
        match turn.step {
            TurnStep::MoveSelfOut { channel } => {
                if ok {
                    UserTurn { step: TurnStep::PersistMapping { channel }, ..turn }
                } else {
                    UserTurn { step: TurnStep::Failed, ..turn }
                }
            },
            _ => turn,
        }
    }

    /// Finishes the invalidation of a stale mapping.
    pub fn after_invalidate(&self, turn: UserTurn) -> (r: UserTurn)
        requires
            turn@.step is InvalidateMapping,
        ensures
            r@ == spec_after_invalidate(turn@),
    {
        UserTurn { step: TurnStep::Done { repoll: true }, ..turn }
    }

    /// Feeds the persistence outcome into the turn.
    pub fn on_persist(&self, turn: UserTurn, ok: bool) -> (r: UserTurn)
        requires
            turn@.step is PersistMapping,
        ensures
            r@ == spec_on_persist(turn@, ok),
    {
        match turn.step {
            TurnStep::PersistMapping { .. } => {
                if ok {
                    UserTurn { step: TurnStep::Done { repoll: false }, ..turn }
                } else {
                    UserTurn { step: TurnStep::Aborted, ..turn }
                }
            },
            _ => turn,
        }
    }

    /// Abandons the turn after a storage failure; the next cycle
    /// retries this user from scratch.
    pub fn on_storage_error(&self, turn: UserTurn) -> (r: UserTurn)
        ensures
            r@ == spec_on_storage_error(turn@),
    {
        UserTurn { step: TurnStep::Aborted, ..turn }
    }

    /// The command that resolves a reset request's unique id.
    pub fn resolve_uid_action(&self, uid: &str) -> (r: EngineAction)
        ensures
            r@ == EngineActionModel::QueryDatabaseId(uid@),
    {
        EngineAction::QueryDatabaseId(String::from_str(uid))
    }

    /// The commands a resolved reset request triggers: one mapping
    /// deletion per monitored channel, then one acknowledgment to the
    /// invoker.
    pub fn handle_delete_resolved(&self, invoker_client_id: i64, client_database_id: i64) -> (r:
        Vec<EngineAction>)
        ensures
            r@.len() == self@.monitor_channels.len() + 1,
            forall|i: int|
                0 <= i < self@.monitor_channels.len() ==> #[trigger] r@[i]@
                    == EngineActionModel::KvDelete(
                    spec_mapping_key(
                        client_database_id as int,
                        self@.server_uid,
                        self@.monitor_channels[i],
                    ),
                ),
            r@[r@.len() - 1]@ == EngineActionModel::SendMessage(
                invoker_client_id as int,
                "Received."@,
            ),
    {
        let mut out: Vec<EngineAction> = Vec::new();
        let n: usize = self.monitor_channels.len();
        let mut i: usize = 0;
        while i < n
            invariant
                i <= n,
                n == self.monitor_channels@.len(),
                self@.monitor_channels == self.monitor_channels@.map_values(|x: i64| x as int),
                self@.server_uid == self.server_uid@,
                out@.len() == i,
                forall|j: int|
                    0 <= j < i ==> #[trigger] out@[j]@ == EngineActionModel::KvDelete(
                        spec_mapping_key(
                            client_database_id as int,
                            self@.server_uid,
                            self@.monitor_channels[j],
                        ),
                    ),
            decreases n - i,
        {
            let key = build_redis_key(
                client_database_id,
                self.server_uid.as_str(),
                self.monitor_channels[i],
            );
            out.push(EngineAction::KvDelete(key));
            i = i + 1;
        }
        out.push(EngineAction::SendMessage(invoker_client_id, String::from_str("Received.")));
        out
    }

    /// The keepalive command issued when a poll interval passes with no
    /// event.
    pub fn keepalive_action(&self) -> (r: EngineAction)
        ensures
            r@ == EngineActionModel::KeepAlive,
    {
        EngineAction::KeepAlive
    }

    /// The command a terminate event triggers.
    pub fn terminate_action(&self) -> (r: EngineAction)
        ensures
            r@ == EngineActionModel::Logout,
    {
        EngineAction::Logout
    }
}

// ---------------------------------------------------------------------
// Laws of the durable mapping

/// Whether the store holds a usable mapping under a key.
pub open spec fn mapping_valid(kv: Map<Seq<char>, Seq<char>>, key: Seq<char>) -> bool {
    kv.dom().contains(key) && is_i64_text(kv[key])
}

/// How many creations one completed cycle issues for a user: none when
/// a usable mapping exists, one otherwise. A completed cycle is one in
/// which every command succeeds at the first try.
pub open spec fn turn_creates(kv: Map<Seq<char>, Seq<char>>, key: Seq<char>) -> nat {
    if mapping_valid(kv, key) {
        0
    } else {
        1
    }
}

/// The store after one completed cycle: unchanged when the mapping was
/// used, else extended with the created channel's id.
pub open spec fn turn_kv_after(
    kv: Map<Seq<char>, Seq<char>>,
    key: Seq<char>,
    created: i64,
) -> Map<Seq<char>, Seq<char>> {
    if mapping_valid(kv, key) {
        kv
    } else {
        kv.insert(key, spec_i64_dec(created as int))
    }
}

/// The creations issued over a run of completed cycles for one user,
/// with `created` listing the channel id each creating cycle would
/// persist.
pub open spec fn creates_in_run(
    kv: Map<Seq<char>, Seq<char>>,
    key: Seq<char>,
    created: Seq<i64>,
) -> nat
    decreases created.len(),
{
    if created.len() == 0 {
        0
    } else {
        turn_creates(kv, key) + creates_in_run(
            turn_kv_after(kv, key, created[0]),
            key,
            created.skip(1),
        )
    }
}

/// Idempotent creation: over any run of completed update cycles for
/// one user at one monitored location, with no invalidation in
/// between, at most one creation is ever issued, and none at all when
/// a usable mapping already exists. (A cycle whose creation fails, by
/// collision or otherwise, is not a completed cycle: it persists
/// nothing and the next cycle starts over.)
pub proof fn lemma_idempotent_creation(
    kv: Map<Seq<char>, Seq<char>>,
    key: Seq<char>,
    created: Seq<i64>,
)
    ensures
        creates_in_run(kv, key, created) <= 1,
        mapping_valid(kv, key) ==> creates_in_run(kv, key, created) == 0,
    decreases created.len(),
{
    if created.len() > 0 {
        if mapping_valid(kv, key) {
            lemma_idempotent_creation(kv, key, created.skip(1));
        } else {
            let kv2 = turn_kv_after(kv, key, created[0]);
            lemma_i64_text_roundtrip(created[0] as int);
            assert(mapping_valid(kv2, key));
            lemma_idempotent_creation(kv2, key, created.skip(1));
        }
    }
}

/// The lookup decides between moving and creating exactly by whether
/// the store holds a usable mapping under the turn's key: a missing or
/// unreadable value leads to creation, a readable one to a move to the
/// stored channel.
pub proof fn lemma_lookup_drives_creation(t: UserTurnModel, kv: Map<Seq<char>, Seq<char>>)
    requires
        t.step is LookupMapping,
    ensures
        ({
            let found = if kv.dom().contains(t.key) {
                Some(kv[t.key])
            } else {
                None
            };
            &&& (spec_on_mapping(t, found).step is Creating <==> !mapping_valid(kv, t.key))
            &&& mapping_valid(kv, t.key) ==> spec_on_mapping(t, found).step
                == (TurnStepModel::MoveExisting { target: i64_text_val(kv[t.key]) })
        }),
{
}

/// The names a creation loop issues when the first `collisions`
/// attempts answer a name collision: attempt `i` carries the base name
/// with `i` marks appended.
pub open spec fn retry_names(base: Seq<char>, collisions: nat) -> Seq<Seq<char>>
    decreases collisions,
{
    if collisions == 0 {
        seq![base]
    } else {
        retry_names(base, (collisions - 1) as nat).push(candidate_name(base, collisions))
    }
}

/// Collision retry: starting from a turn that is creating under `base`,
/// a run of `k` collision replies followed by a success issues exactly
/// `k + 1` creation commands, whose names are the base name with 0, 1,
/// ..., `k` marks appended, in that order.
pub proof fn lemma_collision_retry(t: UserTurnModel, base: Seq<char>, k: nat)
    requires
        t.step == (TurnStepModel::Creating { name: base }),
    ensures
        retry_names(base, k).len() == k + 1,
        forall|i: int| 0 <= i <= k ==> #[trigger] retry_names(base, k)[i] == candidate_name(
            base,
            i as nat,
        ),
        creation_run(t, k).step == (TurnStepModel::Creating { name: candidate_name(base, k) }),
    decreases k,
{
    if k == 0 {
        assert(creation_run(t, 0) == t);
    } else {
        lemma_collision_retry(t, base, (k - 1) as nat);
        let prev = creation_run(t, (k - 1) as nat);
        assert(creation_run(t, k) == spec_on_create_reply(
            prev,
            Result::Err(CHANNEL_NAME_COLLISION_CODE as int),
        ));
        assert forall|i: int| 0 <= i <= k implies #[trigger] retry_names(base, k)[i]
            == candidate_name(base, i as nat) by {
            if i < k {
                assert(retry_names(base, k)[i] == retry_names(base, (k - 1) as nat)[i]);
            }
        }
    }
}

/// The turn after `k` collision replies.
pub open spec fn creation_run(t: UserTurnModel, k: nat) -> UserTurnModel
    decreases k,
{
    if k == 0 {
        t
    } else {
        spec_on_create_reply(
            creation_run(t, (k - 1) as nat),
            Result::Err(CHANNEL_NAME_COLLISION_CODE as int),
        )
    }
}

/// Mapping invalidation: when a move that uses a persisted mapping
/// answers target-not-found, the turn's next command is the deletion
/// of that mapping key, the turn then ends asking for an immediate
/// re-poll, and the next cycle's lookup, finding nothing under the
/// key, proceeds to creation rather than to a move.
pub proof fn lemma_mapping_invalidation(
    e: AutoChannelEngineModel,
    t: UserTurnModel,
    target: int,
    t2: UserTurnModel,
)
    requires
        t.step == (TurnStepModel::MoveExisting { target }),
        t2.step is LookupMapping,
    ensures
        spec_on_move_reply(t, Result::Err(TARGET_NOT_FOUND_CODE as int)).step
            == TurnStepModel::InvalidateMapping,
        spec_turn_action(
            e,
            spec_on_move_reply(t, Result::Err(TARGET_NOT_FOUND_CODE as int)),
        ) == Some(EngineActionModel::KvDelete(t.key)),
        spec_after_invalidate(
            spec_on_move_reply(t, Result::Err(TARGET_NOT_FOUND_CODE as int)),
        ).step == (TurnStepModel::Done { repoll: true }),
        spec_on_mapping(t2, None).step == (TurnStepModel::Creating {
            name: spec_initial_name(t2.nickname),
        }),
{
}

} // verus!
