//! The typed records of the query protocol: rows parsed from key=value
//! lines, the status line, and the error type that carries a decoded
//! protocol status or a transport failure.

use vstd::prelude::*;
use crate::strutil::spec_i64_dec;
use crate::strutil::i64_to_string;
use crate::strutil::str_to_chars;
use crate::wire::row_int;
use crate::wire::row_int_or;
use crate::wire::row_str_or;
use crate::wire::row_value;
use crate::wire::row_lookup_i64;
use crate::wire::row_lookup_i64_or;
use crate::wire::row_lookup_str;
use crate::wire::row_lookup_str_or;

verus! {

/// The protocol code a channel-create command answers when the channel
/// name is already taken.
pub const CHANNEL_NAME_COLLISION_CODE: i32 = 771;

/// The protocol code a move command answers when the target channel no
/// longer exists.
pub const TARGET_NOT_FOUND_CODE: i32 = 768;

/// A record type that parses itself out of one key=value row.
pub trait FromQueryString: View + Sized {
    /// Whether the row carries every field the record requires, in a
    /// form it accepts.
    spec fn row_ok(row: Seq<char>) -> bool;

    /// The record a well-formed row denotes.
    spec fn row_model(row: Seq<char>) -> Self::V;

    /// Parses one row; succeeds exactly on well-formed rows.
    fn from_query(data: &str) -> (r: Option<Self>)
        ensures
            r is Some <==> Self::row_ok(data@),
            r is Some ==> r->0@ == Self::row_model(data@),
    ;
}

// ---------------------------------------------------------------------
// WhoAmI

/// The identity of the current connection.
#[derive(Clone, Debug)]
pub struct WhoAmI {
    client_id: i64,
    client_database_id: i64,
}

pub struct WhoAmIModel {
    pub client_id: int,
    pub client_database_id: int,
}

impl View for WhoAmI {
    type V = WhoAmIModel;

    closed spec fn view(&self) -> WhoAmIModel {
        WhoAmIModel {
            client_id: self.client_id as int,
            client_database_id: self.client_database_id as int,
        }
    }
}

impl WhoAmI {
    pub fn client_database_id(&self) -> (r: i64)
        ensures
            r as int == self@.client_database_id,
    {
        self.client_database_id
    }

    pub fn client_id(&self) -> (r: i64)
        ensures
            r as int == self@.client_id,
    {
        self.client_id
    }

    pub fn new(client_id: i64, client_database_id: i64) -> (r: WhoAmI)
        ensures
            r@.client_id == client_id as int,
            r@.client_database_id == client_database_id as int,
    {
        WhoAmI { client_id, client_database_id }
    }
}

impl FromQueryString for WhoAmI {
    open spec fn row_ok(row: Seq<char>) -> bool {
        row_int(row, "client_id"@) is Some && row_int(row, "client_database_id"@) is Some
    }

    open spec fn row_model(row: Seq<char>) -> WhoAmIModel {
        WhoAmIModel {
            client_id: row_int(row, "client_id"@)->0,
            client_database_id: row_int(row, "client_database_id"@)->0,
        }
    }

    fn from_query(data: &str) -> (r: Option<WhoAmI>) {
        let row = str_to_chars(data);
        let client_id = match row_lookup_i64(row.as_slice(), "client_id") {
            Option::Some(x) => x,
            Option::None => {
                return None;
            },
        };
        let client_database_id = match row_lookup_i64(row.as_slice(), "client_database_id") {
            Option::Some(x) => x,
            Option::None => {
                return None;
            },
        };
        Some(WhoAmI { client_id, client_database_id })
    }
}

// ---------------------------------------------------------------------
// CreateChannel

/// The row a channel-create command answers: the new channel's id.
#[derive(Clone, Debug)]
pub struct CreateChannel {
    cid: i64,
}

pub struct CreateChannelModel {
    pub cid: int,
}

impl View for CreateChannel {
    type V = CreateChannelModel;

    closed spec fn view(&self) -> CreateChannelModel {
        CreateChannelModel { cid: self.cid as int }
    }
}

impl CreateChannel {
    pub fn cid(&self) -> (r: i64)
        ensures
            r as int == self@.cid,
    {
        self.cid
    }
}

impl FromQueryString for CreateChannel {
    open spec fn row_ok(row: Seq<char>) -> bool {
        row_int(row, "cid"@) is Some
    }

    open spec fn row_model(row: Seq<char>) -> CreateChannelModel {
        CreateChannelModel { cid: row_int(row, "cid"@)->0 }
    }

    fn from_query(data: &str) -> (r: Option<CreateChannel>) {
        let row = str_to_chars(data);
        match row_lookup_i64(row.as_slice(), "cid") {
            Option::Some(cid) => Some(CreateChannel { cid }),
            Option::None => None,
        }
    }
}

// ---------------------------------------------------------------------
// Channel

/// One row of a channel-list result.
#[derive(Clone, Debug)]
pub struct Channel {
    cid: i64,
    pid: i64,
    channel_order: i64,
    channel_name: String,
    total_clients: i64,
    channel_needed_subscribe_power: i64,
}

pub struct ChannelModel {
    pub cid: int,
    pub pid: int,
    pub channel_order: int,
    pub channel_name: Seq<char>,
    pub total_clients: int,
    pub channel_needed_subscribe_power: int,
}

impl View for Channel {
    type V = ChannelModel;

    closed spec fn view(&self) -> ChannelModel {
        ChannelModel {
            cid: self.cid as int,
            pid: self.pid as int,
            channel_order: self.channel_order as int,
            channel_name: self.channel_name@,
            total_clients: self.total_clients as int,
            channel_needed_subscribe_power: self.channel_needed_subscribe_power as int,
        }
    }
}

impl Channel {
    pub fn cid(&self) -> (r: i64)
        ensures
            r as int == self@.cid,
    {
        self.cid
    }

    pub fn pid(&self) -> (r: i64)
        ensures
            r as int == self@.pid,
    {
        self.pid
    }

    pub fn channel_order(&self) -> (r: i64)
        ensures
            r as int == self@.channel_order,
    {
        self.channel_order
    }

    pub fn channel_name(&self) -> (r: &str)
        ensures
            r@ == self@.channel_name,
    {
        self.channel_name.as_str()
    }

    pub fn total_clients(&self) -> (r: i64)
        ensures
            r as int == self@.total_clients,
    {
        self.total_clients
    }

    pub fn channel_needed_subscribe_power(&self) -> (r: i64)
        ensures
            r as int == self@.channel_needed_subscribe_power,
    {
        self.channel_needed_subscribe_power
    }
}

impl FromQueryString for Channel {
    open spec fn row_ok(row: Seq<char>) -> bool {
        &&& row_int(row, "cid"@) is Some
        &&& row_int(row, "pid"@) is Some
        &&& row_int(row, "channel_order"@) is Some
        &&& row_value(row, "channel_name"@) is Some
        &&& row_int(row, "total_clients"@) is Some
        &&& row_int(row, "channel_needed_subscribe_power"@) is Some
    }

    open spec fn row_model(row: Seq<char>) -> ChannelModel {
        ChannelModel {
            cid: row_int(row, "cid"@)->0,
            pid: row_int(row, "pid"@)->0,
            channel_order: row_int(row, "channel_order"@)->0,
            channel_name: row_value(row, "channel_name"@)->0,
            total_clients: row_int(row, "total_clients"@)->0,
            channel_needed_subscribe_power: row_int(row, "channel_needed_subscribe_power"@)->0,
        }
    }

    fn from_query(data: &str) -> (r: Option<Channel>) {
        let row = str_to_chars(data);
        let cid = match row_lookup_i64(row.as_slice(), "cid") {
            Option::Some(x) => x,
            Option::None => {
                return None;
            },
        };
        let pid = match row_lookup_i64(row.as_slice(), "pid") {
            Option::Some(x) => x,
            Option::None => {
                return None;
            },
        };
        let channel_order = match row_lookup_i64(row.as_slice(), "channel_order") {
            Option::Some(x) => x,
            Option::None => {
                return None;
            },
        };
        let channel_name = match row_lookup_str(row.as_slice(), "channel_name") {
            Option::Some(x) => x,
            Option::None => {
                return None;
            },
        };
        let total_clients = match row_lookup_i64(row.as_slice(), "total_clients") {
            Option::Some(x) => x,
            Option::None => {
                return None;
            },
        };
        let channel_needed_subscribe_power = match row_lookup_i64(
            row.as_slice(),
            "channel_needed_subscribe_power",
        ) {
            Option::Some(x) => x,
            Option::None => {
                return None;
            },
        };
        Some(
            Channel {
                cid,
                pid,
                channel_order,
                channel_name,
                total_clients,
                channel_needed_subscribe_power,
            },
        )
    }
}

// ---------------------------------------------------------------------
// Client

/// One row of a client-list result.
#[derive(Clone, Debug)]
pub struct Client {
    channel_id: i64,
    client_id: i64,
    client_database_id: i64,
    client_type: i64,
    client_nickname: String,
}

pub struct ClientModel {
    pub channel_id: int,
    pub client_id: int,
    pub client_database_id: int,
    pub client_type: int,
    pub client_nickname: Seq<char>,
}

impl View for Client {
    type V = ClientModel;

    closed spec fn view(&self) -> ClientModel {
        ClientModel {
            channel_id: self.channel_id as int,
            client_id: self.client_id as int,
            client_database_id: self.client_database_id as int,
            client_type: self.client_type as int,
            client_nickname: self.client_nickname@,
        }
    }
}

impl Client {
    pub fn client_id(&self) -> (r: i64)
        ensures
            r as int == self@.client_id,
    {
        self.client_id
    }

    pub fn channel_id(&self) -> (r: i64)
        ensures
            r as int == self@.channel_id,
    {
        self.channel_id
    }

    pub fn client_database_id(&self) -> (r: i64)
        ensures
            r as int == self@.client_database_id,
    {
        self.client_database_id
    }

    pub fn client_type(&self) -> (r: i64)
        ensures
            r as int == self@.client_type,
    {
        self.client_type
    }

    pub fn client_nickname(&self) -> (r: &str)
        ensures
            r@ == self@.client_nickname,
    {
        self.client_nickname.as_str()
    }

    /// The persistent identity rendered as text: the decimal database id.
    pub fn client_unique_identifier(&self) -> (r: String)
        ensures
            r@ == spec_i64_dec(self@.client_database_id),
    {
        i64_to_string(self.client_database_id)
    }

    /// Whether this entry is an ordinary voice user rather than a query
    /// or service identity.
    pub fn client_is_user(&self) -> (r: bool)
        ensures
            r == (self@.client_type == 0),
    {
        self.client_type == 0
    }

    pub fn new(channel_id: i64, client_id: i64, client_database_id: i64, client_type: i64, client_nickname: String) -> (r: Client)
        ensures
            r@ == (ClientModel {
                channel_id: channel_id as int,
                client_id: client_id as int,
                client_database_id: client_database_id as int,
                client_type: client_type as int,
                client_nickname: client_nickname@,
            }),
    {
        Client { channel_id, client_id, client_database_id, client_type, client_nickname }
    }
}

impl FromQueryString for Client {
    open spec fn row_ok(row: Seq<char>) -> bool {
        &&& row_int(row, "cid"@) is Some
        &&& row_int(row, "clid"@) is Some
        &&& row_int(row, "client_database_id"@) is Some
        &&& row_int(row, "client_type"@) is Some
        &&& row_value(row, "client_nickname"@) is Some
    }

    open spec fn row_model(row: Seq<char>) -> ClientModel {
        ClientModel {
            channel_id: row_int(row, "cid"@)->0,
            client_id: row_int(row, "clid"@)->0,
            client_database_id: row_int(row, "client_database_id"@)->0,
            client_type: row_int(row, "client_type"@)->0,
            client_nickname: row_value(row, "client_nickname"@)->0,
        }
    }

    fn from_query(data: &str) -> (r: Option<Client>) {
        let row = str_to_chars(data);
        let channel_id = match row_lookup_i64(row.as_slice(), "cid") {
            Option::Some(x) => x,
            Option::None => {
                return None;
            },
        };
        let client_id = match row_lookup_i64(row.as_slice(), "clid") {
            Option::Some(x) => x,
            Option::None => {
                return None;
            },
        };
        let client_database_id = match row_lookup_i64(row.as_slice(), "client_database_id") {
            Option::Some(x) => x,
            Option::None => {
                return None;
            },
        };
        let client_type = match row_lookup_i64(row.as_slice(), "client_type") {
            Option::Some(x) => x,
            Option::None => {
                return None;
            },
        };
        let client_nickname = match row_lookup_str(row.as_slice(), "client_nickname") {
            Option::Some(x) => x,
            Option::None => {
                return None;
            },
        };
        Some(Client { channel_id, client_id, client_database_id, client_type, client_nickname })
    }
}

// ---------------------------------------------------------------------
// ClientBasicInfo

/// The pair of ids the auto-channel engine needs from an enter or move
/// notification.
#[derive(Copy, Clone, Debug)]
pub struct ClientBasicInfo {
    channel_id: i64,
    client_id: i64,
}

pub struct ClientBasicInfoModel {
    pub channel_id: int,
    pub client_id: int,
}

impl View for ClientBasicInfo {
    type V = ClientBasicInfoModel;

    closed spec fn view(&self) -> ClientBasicInfoModel {
        ClientBasicInfoModel {
            channel_id: self.channel_id as int,
            client_id: self.client_id as int,
        }
    }
}

impl ClientBasicInfo {
    pub fn channel_id(&self) -> (r: i64)
        ensures
            r as int == self@.channel_id,
    {
        self.channel_id
    }

    pub fn client_id(&self) -> (r: i64)
        ensures
            r as int == self@.client_id,
    {
        self.client_id
    }

    pub fn new(channel_id: i64, client_id: i64) -> (r: ClientBasicInfo)
        ensures
            r@.channel_id == channel_id as int,
            r@.client_id == client_id as int,
    {
        ClientBasicInfo { channel_id, client_id }
    }

    pub fn from_moved(view: &NotifyClientMovedView) -> (r: ClientBasicInfo)
        ensures
            r@.channel_id == view@.channel_id,
            r@.client_id == view@.client_id,
    {
        ClientBasicInfo { channel_id: view.channel_id(), client_id: view.client_id() }
    }

    pub fn from_enter(view: &NotifyClientEnterView) -> (r: ClientBasicInfo)
        ensures
            r@.channel_id == view@.channel_id,
            r@.client_id == view@.client_id,
    {
        ClientBasicInfo { channel_id: view.channel_id(), client_id: view.client_id() }
    }
}

// ---------------------------------------------------------------------
// NotifyClientMovedView

/// A client-moved notification.
#[derive(Clone, Debug)]
pub struct NotifyClientMovedView {
    channel_id: i64,
    reason_id: i64,
    invoker_id: i64,
    invoker_uid: String,
    invoker_name: String,
    client_id: i64,
}

pub struct NotifyClientMovedModel {
    pub channel_id: int,
    pub reason_id: int,
    pub invoker_id: int,
    pub invoker_uid: Seq<char>,
    pub invoker_name: Seq<char>,
    pub client_id: int,
}

impl View for NotifyClientMovedView {
    type V = NotifyClientMovedModel;

    closed spec fn view(&self) -> NotifyClientMovedModel {
        NotifyClientMovedModel {
            channel_id: self.channel_id as int,
            reason_id: self.reason_id as int,
            invoker_id: self.invoker_id as int,
            invoker_uid: self.invoker_uid@,
            invoker_name: self.invoker_name@,
            client_id: self.client_id as int,
        }
    }
}

impl NotifyClientMovedView {
    pub fn channel_id(&self) -> (r: i64)
        ensures
            r as int == self@.channel_id,
    {
        self.channel_id
    }

    pub fn reason_id(&self) -> (r: i64)
        ensures
            r as int == self@.reason_id,
    {
        self.reason_id
    }

    pub fn invoker_id(&self) -> (r: i64)
        ensures
            r as int == self@.invoker_id,
    {
        self.invoker_id
    }

    pub fn invoker_uid(&self) -> (r: &str)
        ensures
            r@ == self@.invoker_uid,
    {
        self.invoker_uid.as_str()
    }

    pub fn invoker_name(&self) -> (r: &str)
        ensures
            r@ == self@.invoker_name,
    {
        self.invoker_name.as_str()
    }

    pub fn client_id(&self) -> (r: i64)
        ensures
            r as int == self@.client_id,
    {
        self.client_id
    }
}

impl FromQueryString for NotifyClientMovedView {
    open spec fn row_ok(row: Seq<char>) -> bool {
        &&& row_int(row, "ctid"@) is Some
        &&& row_int_or(row, "reasonid"@, 0) is Some
        &&& row_int_or(row, "invokerid"@, 0) is Some
        &&& row_int_or(row, "clid"@, 0) is Some
    }

    open spec fn row_model(row: Seq<char>) -> NotifyClientMovedModel {
        NotifyClientMovedModel {
            channel_id: row_int(row, "ctid"@)->0,
            reason_id: row_int_or(row, "reasonid"@, 0)->0,
            invoker_id: row_int_or(row, "invokerid"@, 0)->0,
            invoker_uid: row_str_or(row, "invokeruid"@),
            invoker_name: row_str_or(row, "invokername"@),
            client_id: row_int_or(row, "clid"@, 0)->0,
        }
    }

    fn from_query(data: &str) -> (r: Option<NotifyClientMovedView>) {
        let row = str_to_chars(data);
        let channel_id = match row_lookup_i64(row.as_slice(), "ctid") {
            Option::Some(x) => x,
            Option::None => {
                return None;
            },
        };
        let reason_id = match row_lookup_i64_or(row.as_slice(), "reasonid", 0) {
            Option::Some(x) => x,
            Option::None => {
                return None;
            },
        };
        let invoker_id = match row_lookup_i64_or(row.as_slice(), "invokerid", 0) {
            Option::Some(x) => x,
            Option::None => {
                return None;
            },
        };
        let client_id = match row_lookup_i64_or(row.as_slice(), "clid", 0) {
            Option::Some(x) => x,
            Option::None => {
                return None;
            },
        };
        let invoker_uid = row_lookup_str_or(row.as_slice(), "invokeruid");
        let invoker_name = row_lookup_str_or(row.as_slice(), "invokername");
        Some(
            NotifyClientMovedView {
                channel_id,
                reason_id,
                invoker_id,
                invoker_uid,
                invoker_name,
                client_id,
            },
        )
    }
}

// ---------------------------------------------------------------------
// NotifyClientEnterView

/// A client-entered notification.
#[derive(Clone, Debug)]
pub struct NotifyClientEnterView {
    client_id: i64,
    channel_id: i64,
    client_nickname: String,
    client_unique_identifier: String,
    client_country: String,
}

pub struct NotifyClientEnterModel {
    pub client_id: int,
    pub channel_id: int,
    pub client_nickname: Seq<char>,
    pub client_unique_identifier: Seq<char>,
    pub client_country: Seq<char>,
}

impl View for NotifyClientEnterView {
    type V = NotifyClientEnterModel;

    closed spec fn view(&self) -> NotifyClientEnterModel {
        NotifyClientEnterModel {
            client_id: self.client_id as int,
            channel_id: self.channel_id as int,
            client_nickname: self.client_nickname@,
            client_unique_identifier: self.client_unique_identifier@,
            client_country: self.client_country@,
        }
    }
}

impl NotifyClientEnterView {
    pub fn client_id(&self) -> (r: i64)
        ensures
            r as int == self@.client_id,
    {
        self.client_id
    }

    pub fn client_nickname(&self) -> (r: &str)
        ensures
            r@ == self@.client_nickname,
    {
        self.client_nickname.as_str()
    }

    pub fn client_country(&self) -> (r: &str)
        ensures
            r@ == self@.client_country,
    {
        self.client_country.as_str()
    }

    pub fn client_unique_identifier(&self) -> (r: &str)
        ensures
            r@ == self@.client_unique_identifier,
    {
        self.client_unique_identifier.as_str()
    }

    pub fn channel_id(&self) -> (r: i64)
        ensures
            r as int == self@.channel_id,
    {
        self.channel_id
    }
}

impl FromQueryString for NotifyClientEnterView {
    open spec fn row_ok(row: Seq<char>) -> bool {
        &&& row_int(row, "clid"@) is Some
        &&& row_int(row, "ctid"@) is Some
        &&& row_value(row, "client_nickname"@) is Some
        &&& row_value(row, "client_unique_identifier"@) is Some
        &&& row_value(row, "client_country"@) is Some
    }

    open spec fn row_model(row: Seq<char>) -> NotifyClientEnterModel {
        NotifyClientEnterModel {
            client_id: row_int(row, "clid"@)->0,
            channel_id: row_int(row, "ctid"@)->0,
            client_nickname: row_value(row, "client_nickname"@)->0,
            client_unique_identifier: row_value(row, "client_unique_identifier"@)->0,
            client_country: row_value(row, "client_country"@)->0,
        }
    }

    fn from_query(data: &str) -> (r: Option<NotifyClientEnterView>) {
        let row = str_to_chars(data);
        let client_id = match row_lookup_i64(row.as_slice(), "clid") {
            Option::Some(x) => x,
            Option::None => {
                return None;
            },
        };
        let channel_id = match row_lookup_i64(row.as_slice(), "ctid") {
            Option::Some(x) => x,
            Option::None => {
                return None;
            },
        };
        let client_nickname = match row_lookup_str(row.as_slice(), "client_nickname") {
            Option::Some(x) => x,
            Option::None => {
                return None;
            },
        };
        let client_unique_identifier = match row_lookup_str(
            row.as_slice(),
            "client_unique_identifier",
        ) {
            Option::Some(x) => x,
            Option::None => {
                return None;
            },
        };
        let client_country = match row_lookup_str(row.as_slice(), "client_country") {
            Option::Some(x) => x,
            Option::None => {
                return None;
            },
        };
        Some(
            NotifyClientEnterView {
                client_id,
                channel_id,
                client_nickname,
                client_unique_identifier,
                client_country,
            },
        )
    }
}

// ---------------------------------------------------------------------
// NotifyClientLeftView

/// A client-left notification. A missing reason id means an ordinary
/// disconnect.
#[derive(Clone, Debug)]
pub struct NotifyClientLeftView {
    client_id: i64,
    reason: String,
    reason_id: i64,
    invoker_uid: String,
    invoker_name: String,
}

pub struct NotifyClientLeftModel {
    pub client_id: int,
    pub reason: Seq<char>,
    pub reason_id: int,
    pub invoker_uid: Seq<char>,
    pub invoker_name: Seq<char>,
}

impl View for NotifyClientLeftView {
    type V = NotifyClientLeftModel;

    closed spec fn view(&self) -> NotifyClientLeftModel {
        NotifyClientLeftModel {
            client_id: self.client_id as int,
            reason: self.reason@,
            reason_id: self.reason_id as int,
            invoker_uid: self.invoker_uid@,
            invoker_name: self.invoker_name@,
        }
    }
}

/// The reason id assumed when a left notification carries none.
pub const DEFAULT_LEFT_REASON_ID: i64 = 8;

impl NotifyClientLeftView {
    pub fn client_id(&self) -> (r: i64)
        ensures
            r as int == self@.client_id,
    {
        self.client_id
    }

    pub fn reason(&self) -> (r: &str)
        ensures
            r@ == self@.reason,
    {
        self.reason.as_str()
    }

    pub fn reason_id(&self) -> (r: i64)
        ensures
            r as int == self@.reason_id,
    {
        self.reason_id
    }

    pub fn invoker_uid(&self) -> (r: &str)
        ensures
            r@ == self@.invoker_uid,
    {
        self.invoker_uid.as_str()
    }

    pub fn invoker_name(&self) -> (r: &str)
        ensures
            r@ == self@.invoker_name,
    {
        self.invoker_name.as_str()
    }
}

impl FromQueryString for NotifyClientLeftView {
    open spec fn row_ok(row: Seq<char>) -> bool {
        &&& row_int(row, "clid"@) is Some
        &&& row_int_or(row, "reasonid"@, DEFAULT_LEFT_REASON_ID as int) is Some
    }

    open spec fn row_model(row: Seq<char>) -> NotifyClientLeftModel {
        NotifyClientLeftModel {
            client_id: row_int(row, "clid"@)->0,
            reason: row_str_or(row, "reasonmsg"@),
            reason_id: row_int_or(row, "reasonid"@, DEFAULT_LEFT_REASON_ID as int)->0,
            invoker_uid: row_str_or(row, "invokeruid"@),
            invoker_name: row_str_or(row, "invokername"@),
        }
    }

    fn from_query(data: &str) -> (r: Option<NotifyClientLeftView>) {
        let row = str_to_chars(data);
        let client_id = match row_lookup_i64(row.as_slice(), "clid") {
            Option::Some(x) => x,
            Option::None => {
                return None;
            },
        };
        let reason_id = match row_lookup_i64_or(row.as_slice(), "reasonid", DEFAULT_LEFT_REASON_ID) {
            Option::Some(x) => x,
            Option::None => {
                return None;
            },
        };
        let reason = row_lookup_str_or(row.as_slice(), "reasonmsg");
        let invoker_uid = row_lookup_str_or(row.as_slice(), "invokeruid");
        let invoker_name = row_lookup_str_or(row.as_slice(), "invokername");
        Some(NotifyClientLeftView { client_id, reason, reason_id, invoker_uid, invoker_name })
    }
}

// ---------------------------------------------------------------------
// NotifyTextMessage

/// A private text message notification.
#[derive(Clone, Debug)]
pub struct NotifyTextMessage {
    msg: String,
    invoker_id: i64,
    invoker_name: String,
    invoker_uid: String,
}

pub struct NotifyTextMessageModel {
    pub msg: Seq<char>,
    pub invoker_id: int,
    pub invoker_name: Seq<char>,
    pub invoker_uid: Seq<char>,
}

impl View for NotifyTextMessage {
    type V = NotifyTextMessageModel;

    closed spec fn view(&self) -> NotifyTextMessageModel {
        NotifyTextMessageModel {
            msg: self.msg@,
            invoker_id: self.invoker_id as int,
            invoker_name: self.invoker_name@,
            invoker_uid: self.invoker_uid@,
        }
    }
}

impl NotifyTextMessage {
    pub fn msg(&self) -> (r: &str)
        ensures
            r@ == self@.msg,
    {
        self.msg.as_str()
    }

    pub fn invoker_name(&self) -> (r: &str)
        ensures
            r@ == self@.invoker_name,
    {
        self.invoker_name.as_str()
    }

    pub fn invoker_uid(&self) -> (r: &str)
        ensures
            r@ == self@.invoker_uid,
    {
        self.invoker_uid.as_str()
    }

    pub fn invoker_id(&self) -> (r: i64)
        ensures
            r as int == self@.invoker_id,
    {
        self.invoker_id
    }
}

impl FromQueryString for NotifyTextMessage {
    open spec fn row_ok(row: Seq<char>) -> bool {
        &&& row_value(row, "msg"@) is Some
        &&& row_int_or(row, "invokerid"@, 0) is Some
    }

    open spec fn row_model(row: Seq<char>) -> NotifyTextMessageModel {
        NotifyTextMessageModel {
            msg: row_value(row, "msg"@)->0,
            invoker_id: row_int_or(row, "invokerid"@, 0)->0,
            invoker_name: row_str_or(row, "invokername"@),
            invoker_uid: row_str_or(row, "invokeruid"@),
        }
    }

    fn from_query(data: &str) -> (r: Option<NotifyTextMessage>) {
        let row = str_to_chars(data);
        let msg = match row_lookup_str(row.as_slice(), "msg") {
            Option::Some(x) => x,
            Option::None => {
                return None;
            },
        };
        let invoker_id = match row_lookup_i64_or(row.as_slice(), "invokerid", 0) {
            Option::Some(x) => x,
            Option::None => {
                return None;
            },
        };
        let invoker_name = row_lookup_str_or(row.as_slice(), "invokername");
        let invoker_uid = row_lookup_str_or(row.as_slice(), "invokeruid");
        Some(NotifyTextMessage { msg, invoker_id, invoker_name, invoker_uid })
    }
}

// ---------------------------------------------------------------------
// ServerInfo

/// The server-info row; only the virtual server's unique identifier is
/// read, as it keys the durable channel mappings.
#[derive(Clone, Debug)]
pub struct ServerInfo {
    virtual_server_unique_identifier: String,
}

pub struct ServerInfoModel {
    pub virtual_server_unique_identifier: Seq<char>,
}

impl View for ServerInfo {
    type V = ServerInfoModel;

    closed spec fn view(&self) -> ServerInfoModel {
        ServerInfoModel {
            virtual_server_unique_identifier: self.virtual_server_unique_identifier@,
        }
    }
}

impl ServerInfo {
    pub fn virtual_server_unique_identifier(&self) -> (r: &str)
        ensures
            r@ == self@.virtual_server_unique_identifier,
    {
        self.virtual_server_unique_identifier.as_str()
    }

    pub fn new(virtual_server_unique_identifier: String) -> (r: ServerInfo)
        ensures
            r@.virtual_server_unique_identifier == virtual_server_unique_identifier@,
    {
        ServerInfo { virtual_server_unique_identifier }
    }
}

impl FromQueryString for ServerInfo {
    open spec fn row_ok(row: Seq<char>) -> bool {
        row_value(row, "virtualserver_unique_identifier"@) is Some
    }

    open spec fn row_model(row: Seq<char>) -> ServerInfoModel {
        ServerInfoModel {
            virtual_server_unique_identifier: row_value(row, "virtualserver_unique_identifier"@)->0,
        }
    }

    fn from_query(data: &str) -> (r: Option<ServerInfo>) {
        let row = str_to_chars(data);
        match row_lookup_str(row.as_slice(), "virtualserver_unique_identifier") {
            Option::Some(v) => Some(ServerInfo { virtual_server_unique_identifier: v }),
            Option::None => None,
        }
    }
}

// ---------------------------------------------------------------------
// DatabaseId

/// The row a uid-to-database-id query answers.
#[derive(Clone, Debug)]
pub struct DatabaseId {
    client_database_id: i64,
}

pub struct DatabaseIdModel {
    pub client_database_id: int,
}

impl View for DatabaseId {
    type V = DatabaseIdModel;

    closed spec fn view(&self) -> DatabaseIdModel {
        DatabaseIdModel { client_database_id: self.client_database_id as int }
    }
}

impl DatabaseId {
    pub fn client_database_id(&self) -> (r: i64)
        ensures
            r as int == self@.client_database_id,
    {
        self.client_database_id
    }
}

impl FromQueryString for DatabaseId {
    open spec fn row_ok(row: Seq<char>) -> bool {
        row_int(row, "cldbid"@) is Some
    }

    open spec fn row_model(row: Seq<char>) -> DatabaseIdModel {
        DatabaseIdModel { client_database_id: row_int(row, "cldbid"@)->0 }
    }

    fn from_query(data: &str) -> (r: Option<DatabaseId>) {
        let row = str_to_chars(data);
        match row_lookup_i64(row.as_slice(), "cldbid") {
            Option::Some(client_database_id) => Some(DatabaseId { client_database_id }),
            Option::None => None,
        }
    }
}

// ---------------------------------------------------------------------
// BanEntry

/// One row of a ban-list result.
#[derive(Clone, Debug)]
pub struct BanEntry {
    ban_id: i64,
    ip: String,
    reason: String,
    invoker_name: String,
    invoker_uid: String,
}

pub struct BanEntryModel {
    pub ban_id: int,
    pub ip: Seq<char>,
    pub reason: Seq<char>,
    pub invoker_name: Seq<char>,
    pub invoker_uid: Seq<char>,
}

impl View for BanEntry {
    type V = BanEntryModel;

    closed spec fn view(&self) -> BanEntryModel {
        BanEntryModel {
            ban_id: self.ban_id as int,
            ip: self.ip@,
            reason: self.reason@,
            invoker_name: self.invoker_name@,
            invoker_uid: self.invoker_uid@,
        }
    }
}

impl BanEntry {
    pub fn ban_id(&self) -> (r: i64)
        ensures
            r as int == self@.ban_id,
    {
        self.ban_id
    }

    pub fn ip(&self) -> (r: &str)
        ensures
            r@ == self@.ip,
    {
        self.ip.as_str()
    }

    pub fn reason(&self) -> (r: &str)
        ensures
            r@ == self@.reason,
    {
        self.reason.as_str()
    }

    pub fn invoker_name(&self) -> (r: &str)
        ensures
            r@ == self@.invoker_name,
    {
        self.invoker_name.as_str()
    }

    pub fn invoker_uid(&self) -> (r: &str)
        ensures
            r@ == self@.invoker_uid,
    {
        self.invoker_uid.as_str()
    }
}

impl FromQueryString for BanEntry {
    open spec fn row_ok(row: Seq<char>) -> bool {
        row_int(row, "banid"@) is Some
    }

    open spec fn row_model(row: Seq<char>) -> BanEntryModel {
        BanEntryModel {
            ban_id: row_int(row, "banid"@)->0,
            ip: row_str_or(row, "ip"@),
            reason: row_str_or(row, "reason"@),
            invoker_name: row_str_or(row, "invokername"@),
            invoker_uid: row_str_or(row, "invokeruid"@),
        }
    }

    fn from_query(data: &str) -> (r: Option<BanEntry>) {
        let row = str_to_chars(data);
        let ban_id = match row_lookup_i64(row.as_slice(), "banid") {
            Option::Some(x) => x,
            Option::None => {
                return None;
            },
        };
        let ip = row_lookup_str_or(row.as_slice(), "ip");
        let reason = row_lookup_str_or(row.as_slice(), "reason");
        let invoker_name = row_lookup_str_or(row.as_slice(), "invokername");
        let invoker_uid = row_lookup_str_or(row.as_slice(), "invokeruid");
        Some(BanEntry { ban_id, ip, reason, invoker_name, invoker_uid })
    }
}

// ---------------------------------------------------------------------
// ClientInfo

/// The mute- and activity-related fields of a client-info result.
/// Boolean fields arrive as `0` or `1`; any non-zero value counts as
/// set.
#[derive(Clone, Debug)]
pub struct ClientInfo {
    client_input_muted: bool,
    client_output_muted: bool,
    client_input_hardware: bool,
    client_output_hardware: bool,
    client_away: bool,
    client_idle_time: i64,
}

pub struct ClientInfoModel {
    pub client_input_muted: bool,
    pub client_output_muted: bool,
    pub client_input_hardware: bool,
    pub client_output_hardware: bool,
    pub client_away: bool,
    pub client_idle_time: int,
}

impl View for ClientInfo {
    type V = ClientInfoModel;

    closed spec fn view(&self) -> ClientInfoModel {
        ClientInfoModel {
            client_input_muted: self.client_input_muted,
            client_output_muted: self.client_output_muted,
            client_input_hardware: self.client_input_hardware,
            client_output_hardware: self.client_output_hardware,
            client_away: self.client_away,
            client_idle_time: self.client_idle_time as int,
        }
    }
}

/// Whether a client should be treated as inactive: away, muted in
/// either direction, without sound hardware, or idle beyond five
/// minutes.
pub open spec fn spec_client_muted(m: ClientInfoModel) -> bool {
    m.client_away || m.client_input_muted || m.client_output_muted || !m.client_output_hardware
        || !m.client_input_hardware || m.client_idle_time / 1000 > 300
}

impl ClientInfo {
    /// Whether the client should be treated as inactive.
    pub fn is_client_muted(&self) -> (r: bool)
        ensures
            r == spec_client_muted(self@),
    {
        self.client_away || self.client_input_muted || self.client_output_muted
            || !self.client_output_hardware || !self.client_input_hardware
            || self.client_idle_time / 1000 > 300
    }
}

impl FromQueryString for ClientInfo {
    open spec fn row_ok(row: Seq<char>) -> bool {
        &&& row_int(row, "client_input_muted"@) is Some
        &&& row_int(row, "client_output_muted"@) is Some
        &&& row_int(row, "client_input_hardware"@) is Some
        &&& row_int(row, "client_output_hardware"@) is Some
        &&& row_int(row, "client_away"@) is Some
        &&& row_int(row, "client_idle_time"@) is Some
    }

    open spec fn row_model(row: Seq<char>) -> ClientInfoModel {
        ClientInfoModel {
            client_input_muted: row_int(row, "client_input_muted"@)->0 != 0,
            client_output_muted: row_int(row, "client_output_muted"@)->0 != 0,
            client_input_hardware: row_int(row, "client_input_hardware"@)->0 != 0,
            client_output_hardware: row_int(row, "client_output_hardware"@)->0 != 0,
            client_away: row_int(row, "client_away"@)->0 != 0,
            client_idle_time: row_int(row, "client_idle_time"@)->0,
        }
    }

    fn from_query(data: &str) -> (r: Option<ClientInfo>) {
        let row = str_to_chars(data);
        let client_input_muted = match row_lookup_i64(row.as_slice(), "client_input_muted") {
            Option::Some(x) => x != 0,
            Option::None => {
                return None;
            },
        };
        let client_output_muted = match row_lookup_i64(row.as_slice(), "client_output_muted") {
            Option::Some(x) => x != 0,
            Option::None => {
                return None;
            },
        };
        let client_input_hardware = match row_lookup_i64(row.as_slice(), "client_input_hardware") {
            Option::Some(x) => x != 0,
            Option::None => {
                return None;
            },
        };
        let client_output_hardware = match row_lookup_i64(row.as_slice(), "client_output_hardware") {
            Option::Some(x) => x != 0,
            Option::None => {
                return None;
            },
        };
        let client_away = match row_lookup_i64(row.as_slice(), "client_away") {
            Option::Some(x) => x != 0,
            Option::None => {
                return None;
            },
        };
        let client_idle_time = match row_lookup_i64(row.as_slice(), "client_idle_time") {
            Option::Some(x) => x,
            Option::None => {
                return None;
            },
        };
        Some(
            ClientInfo {
                client_input_muted,
                client_output_muted,
                client_input_hardware,
                client_output_hardware,
                client_away,
                client_idle_time,
            },
        )
    }
}


// ---------------------------------------------------------------------
// Status and error

/// A status decoded from a web-style response body.
#[derive(Clone, Debug)]
pub struct WebQueryStatus {
    code: i32,
    message: String,
}

pub struct WebQueryStatusModel {
    pub code: int,
    pub message: Seq<char>,
}

impl View for WebQueryStatus {
    type V = WebQueryStatusModel;

    closed spec fn view(&self) -> WebQueryStatusModel {
        WebQueryStatusModel { code: self.code as int, message: self.message@ }
    }
}

impl WebQueryStatus {
    pub fn new(code: i32, message: String) -> (r: WebQueryStatus)
        ensures
            r@.code == code as int,
            r@.message == message@,
    {
        WebQueryStatus { code, message }
    }

    pub fn into_status(self) -> (r: QueryStatus)
        ensures
            r@.id == self@.code,
            r@.msg == self@.message,
    {
        QueryStatus { id: self.code, msg: self.message }
    }
}

/// The status line of a response: a numeric code, zero on success, and
/// a message.
#[derive(Clone, Debug)]
pub struct QueryStatus {
    id: i32,
    msg: String,
}

pub struct QueryStatusModel {
    pub id: int,
    pub msg: Seq<char>,
}

impl View for QueryStatus {
    type V = QueryStatusModel;

    closed spec fn view(&self) -> QueryStatusModel {
        QueryStatusModel { id: self.id as int, msg: self.msg@ }
    }
}

/// Whether a line is a well-formed status line: the prefix `error `
/// followed by a row binding `id` to a 32-bit number and `msg` to a
/// text.
pub open spec fn status_line_ok(line: Seq<char>) -> bool {
    let row = line.skip("error "@.len() as int);
    &&& crate::strutil::has_prefix(line, "error "@)
    &&& row_int(row, "id"@) is Some
    &&& -2147483648 <= row_int(row, "id"@)->0 <= 2147483647
    &&& row_value(row, "msg"@) is Some
}

/// The status a well-formed status line denotes.
pub open spec fn status_line_model(line: Seq<char>) -> QueryStatusModel {
    let row = line.skip("error "@.len() as int);
    QueryStatusModel { id: row_int(row, "id"@)->0, msg: row_value(row, "msg"@)->0 }
}

impl QueryStatus {
    pub fn id(&self) -> (r: i32)
        ensures
            r as int == self@.id,
    {
        self.id
    }

    pub fn msg(&self) -> (r: &str)
        ensures
            r@ == self@.msg,
    {
        self.msg.as_str()
    }

    pub fn new(id: i32, msg: String) -> (r: QueryStatus)
        ensures
            r@.id == id as int,
            r@.msg == msg@,
    {
        QueryStatus { id, msg }
    }

    /// Turns this status into the error it denotes.
    pub fn into_err(self) -> (r: QueryError)
        ensures
            r@.code == self@.id,
            r@.message == self@.msg,
    {
        QueryError { code: self.id, message: self.msg }
    }

    /// Success carries the prepared value through; any non-zero status
    /// becomes the corresponding error.
    pub fn into_result<T>(self, ret: T) -> (r: QueryResult<T>)
        ensures
            self@.id == 0 ==> r is Ok && r->Ok_0 == ret,
            self@.id != 0 ==> r is Err && r->Err_0@.code == self@.id && r->Err_0@.message
                == self@.msg,
    {
        if self.id == 0 {
            Ok(ret)
        } else {
            Err(self.into_err())
        }
    }

    /// Parses a status line; succeeds exactly on well-formed ones.
    pub fn from_status_line(line: &str) -> (r: Option<QueryStatus>)
        ensures
            r is Some <==> status_line_ok(line@),
            r is Some ==> r->0@ == status_line_model(line@),
    {
        let v = str_to_chars(line);
        let prefix = str_to_chars("error ");
        proof {
            reveal_strlit("error ");
        }
        if !crate::strutil::chars_has_prefix(v.as_slice(), prefix.as_slice()) {
            return None;
        }
        let row = vstd::slice::slice_subrange(v.as_slice(), 6, v.len());
        proof {
            assert(row@ =~= line@.skip("error "@.len() as int));
        }
        let id64 = match row_lookup_i64(row, "id") {
            Option::Some(x) => x,
            Option::None => {
                return None;
            },
        };
        if id64 < -2147483648i64 || id64 > 2147483647i64 {
            return None;
        }
        let msg = match row_lookup_str(row, "msg") {
            Option::Some(m) => m,
            Option::None => {
                return None;
            },
        };
        Some(QueryStatus { id: id64 as i32, msg })
    }
}

impl Default for QueryStatus {
    /// The successful status.
    fn default() -> (r: QueryStatus)
        ensures
            r@.id == 0,
            r@.msg == "ok"@,
    {
        QueryStatus { id: 0, msg: String::from_str("ok") }
    }
}

/// The result of a query operation.
pub type QueryResult<T> = Result<T, QueryError>;

/// An error of the query layer: a decoded non-zero status, a transport
/// failure, or the absence of an expected result.
#[derive(Clone, Debug)]
pub struct QueryError {
    code: i32,
    message: String,
}

pub struct QueryErrorModel {
    pub code: int,
    pub message: Seq<char>,
}

impl View for QueryError {
    type V = QueryErrorModel;

    closed spec fn view(&self) -> QueryErrorModel {
        QueryErrorModel { code: self.code as int, message: self.message@ }
    }
}

/// The synthetic code of the error a response without a status line
/// yields.
pub const EMPTY_RESPONSE_CODE: i32 = -1;

/// The synthetic code of an error carried up from the transport.
pub const TRANSPORT_ERROR_CODE: i32 = -2;

impl QueryError {
    /// The error a response without any status line yields.
    pub fn static_empty_response() -> (r: QueryError)
        ensures
            r@.code == EMPTY_RESPONSE_CODE as int,
            r@.message == "Expect result but none found."@,
    {
        QueryError {
            code: EMPTY_RESPONSE_CODE,
            message: String::from_str("Expect result but none found."),
        }
    }

    /// Wraps a transport failure's text under the synthetic transport
    /// code.
    pub fn from_transport(message: String) -> (r: QueryError)
        ensures
            r@.code == TRANSPORT_ERROR_CODE as int,
            r@.message == message@,
    {
        QueryError { code: TRANSPORT_ERROR_CODE, message }
    }

    pub fn code(&self) -> (r: i32)
        ensures
            r as int == self@.code,
    {
        self.code
    }

    /// The error's text.
    pub fn message(&self) -> (r: &str)
        ensures
            r@ == self@.message,
    {
        self.message.as_str()
    }
}

// ---------------------------------------------------------------------
// MessageQueue

/// A first-in, first-out queue of pending messages.
#[derive(Clone, Debug)]
pub struct MessageQueue<T> {
    items: Vec<T>,
}

impl<T> View for MessageQueue<T> {
    type V = Seq<T>;

    closed spec fn view(&self) -> Seq<T> {
        self.items@
    }
}

impl<T> MessageQueue<T> {
    pub fn is_empty(&self) -> (r: bool)
        ensures
            r == (self@.len() == 0),
    {
        self.items.len() == 0
    }

    pub fn push(&mut self, element: T)
        ensures
            final(self)@ == old(self)@.push(element),
    {
        self.items.push(element);
    }

    pub fn new() -> (r: MessageQueue<T>)
        ensures
            r@ == Seq::<T>::empty(),
    {
        MessageQueue { items: Vec::new() }
    }

    /// Takes every queued message out, leaving the queue empty.
    pub fn get_vec(&mut self) -> (r: Vec<T>)
        ensures
            r@ == old(self)@,
            final(self)@ == Seq::<T>::empty(),
    {
        let mut out: Vec<T> = Vec::new();
        core::mem::swap(&mut out, &mut self.items);
        proof {
            assert(self.items@ =~= Seq::<T>::empty());
        }
        out
    }
}

// ---------------------------------------------------------------------
// Event helper

/// The sink the observer hands roster events to; the recorder
/// integration implements it outside this crate.
pub trait EventHelperTrait {
    fn insert(
        &self,
        client_id: i32,
        user_id: Option<String>,
        nickname: Option<String>,
        channel: Option<i32>,
    ) -> Option<()>;

    fn terminate(&self) -> Option<()>;
}

/// The sink used when no recorder is configured: it accepts and
/// discards every event.
#[derive(Clone, Debug)]
pub struct PseudoEventHelper {}

impl PseudoEventHelper {
    pub fn new() -> (r: (PseudoEventHelper, PseudoEventHelper)) {
        (PseudoEventHelper {  }, PseudoEventHelper {  })
    }
}

impl EventHelperTrait for PseudoEventHelper {
    fn insert(
        &self,
        client_id: i32,
        user_id: Option<String>,
        nickname: Option<String>,
        channel: Option<i32>,
    ) -> Option<()> {
        Some(())
    }

    fn terminate(&self) -> Option<()> {
        Some(())
    }
}

} // verus!
