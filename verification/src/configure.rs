//! The per-session configuration surface: addresses and credentials,
//! monitored channels, the privilege group, permission tables, message
//! templates, the mute porter, and the identity token that correlates
//! outbound notices. Loading the file itself is the shell's job; this
//! module holds the validated values and the rules derived from them.

use vstd::prelude::*;
use std::collections::HashMap;
use crate::strutil::spec_u64_dec;
use crate::strutil::spec_i64_dec;
use crate::strutil::spec_u64_hex_pad;
use crate::strutil::chars_eq;
use crate::strutil::i64_to_string;
use crate::strutil::str_to_chars;
use crate::strutil::u64_to_string;
use crate::strutil::u64_to_hex_pad;
use crate::strutil::string_views;
use crate::strutil::clone_strings;
use crate::types::Client;
use crate::types::ClientInfo;
use crate::types::spec_client_muted;

verus! {

broadcast use vstd::std_specs::hash::group_hash_axioms;

/// One or several channel ids, as the configuration file allows both.
#[derive(Clone, Debug)]
pub enum Numbers {
    Single(i64),
    Multiple(Vec<i64>),
}

impl View for Numbers {
    type V = Seq<i64>;

    open spec fn view(&self) -> Seq<i64> {
        match self {
            Numbers::Single(x) => seq![*x],
            Numbers::Multiple(v) => v@,
        }
    }
}

impl Numbers {
    /// The ids as a list.
    pub fn get_vec(&self) -> (r: Vec<i64>)
        ensures
            r@ == self@,
    {
        match self {
            Numbers::Single(x) => {
                let mut v: Vec<i64> = Vec::new();
                v.push(*x);
                proof {
                    assert(v@ =~= self@);
                }
                v
            },
            Numbers::Multiple(v) => vstd::slice::slice_to_vec(v.as_slice()),
        }
    }

    /// The ids as a list.
    pub fn to_vec(&self) -> (r: Vec<i64>)
        ensures
            r@ == self@,
    {
        self.get_vec()
    }
}

/// A permission table bound to one or several channels.
#[derive(Clone, Debug)]
pub struct Permission {
    channel_id: Numbers,
    map: Vec<(u64, i64)>,
}

pub struct PermissionModel {
    pub channel_id: Seq<i64>,
    pub map: Seq<(u64, i64)>,
}

impl View for Permission {
    type V = PermissionModel;

    closed spec fn view(&self) -> PermissionModel {
        PermissionModel { channel_id: self.channel_id@, map: self.map@ }
    }
}

impl Permission {
    pub fn channel_id(&self) -> (r: &Numbers)
        ensures
            r@ == self@.channel_id,
    {
        &self.channel_id
    }

    pub fn map(&self) -> (r: &Vec<(u64, i64)>)
        ensures
            r@ == self@.map,
    {
        &self.map
    }

    pub fn new(channel_id: Numbers, map: Vec<(u64, i64)>) -> (r: Permission)
        ensures
            r@.channel_id == channel_id@,
            r@.map == map@,
    {
        Permission { channel_id, map }
    }
}

/// The query-protocol endpoint and credentials.
#[derive(Clone, Debug)]
pub struct RawQuery {
    server: Option<String>,
    port: Option<u16>,
    user: String,
    password: String,
}

pub struct RawQueryModel {
    pub server: Option<Seq<char>>,
    pub port: Option<u16>,
    pub user: Seq<char>,
    pub password: Seq<char>,
}

impl View for RawQuery {
    type V = RawQueryModel;

    closed spec fn view(&self) -> RawQueryModel {
        RawQueryModel {
            server: match &self.server {
                Option::Some(s) => Some(s@),
                Option::None => None,
            },
            port: self.port,
            user: self.user@,
            password: self.password@,
        }
    }
}

/// The address used when the configuration names none.
pub open spec fn spec_server_or_default(s: Option<Seq<char>>) -> Seq<char> {
    match s {
        Some(v) => v,
        None => "127.0.0.1"@,
    }
}

/// The port used when the configuration names none.
pub open spec fn spec_port_or_default(p: Option<u16>) -> u16 {
    match p {
        Some(v) => v,
        None => 10011,
    }
}

impl RawQuery {
    pub fn server(&self) -> (r: String)
        ensures
            r@ == spec_server_or_default(self@.server),
    {
        match &self.server {
            Option::Some(s) => s.clone(),
            Option::None => String::from_str("127.0.0.1"),
        }
    }

    pub fn port(&self) -> (r: u16)
        ensures
            r == spec_port_or_default(self@.port),
    {
        match self.port {
            Option::Some(p) => p,
            Option::None => 10011,
        }
    }

    pub fn user(&self) -> (r: &str)
        ensures
            r@ == self@.user,
    {
        self.user.as_str()
    }

    pub fn password(&self) -> (r: &str)
        ensures
            r@ == self@.password,
    {
        self.password.as_str()
    }

    pub fn new(server: Option<String>, port: Option<u16>, user: String, password: String) -> (r:
        RawQuery)
        ensures
            r@.server == (match server {
                Option::Some(s) => Some(s@),
                Option::None => None::<Seq<char>>,
            }),
            r@.port == port,
            r@.user == user@,
            r@.password == password@,
    {
        RawQuery { server, port, user, password }
    }
}

/// The per-server section: which virtual server, which channels to
/// monitor, the privilege group, storage addresses and filters.
#[derive(Clone, Debug)]
pub struct Server {
    server_id: Option<i64>,
    channel_id: Numbers,
    privilege_group_id: i64,
    redis_server: Option<String>,
    leveldb: Option<String>,
    ignore_user: Option<Vec<String>>,
    whitelist_ip: Option<Vec<String>>,
    track_channel_member: Option<String>,
}

pub struct ServerModel {
    pub server_id: Option<i64>,
    pub channel_id: Seq<i64>,
    pub privilege_group_id: i64,
    pub redis_server: Option<Seq<char>>,
    pub leveldb: Option<Seq<char>>,
    pub ignore_user: Option<Seq<Seq<char>>>,
    pub whitelist_ip: Option<Seq<Seq<char>>>,
    pub track_channel_member: Option<Seq<char>>,
}

impl View for Server {
    type V = ServerModel;

    closed spec fn view(&self) -> ServerModel {
        ServerModel {
            server_id: self.server_id,
            channel_id: self.channel_id@,
            privilege_group_id: self.privilege_group_id,
            redis_server: match &self.redis_server {
                Option::Some(s) => Some(s@),
                Option::None => None,
            },
            leveldb: match &self.leveldb {
                Option::Some(s) => Some(s@),
                Option::None => None,
            },
            ignore_user: match &self.ignore_user {
                Option::Some(v) => Some(string_views(v@)),
                Option::None => None,
            },
            whitelist_ip: match &self.whitelist_ip {
                Option::Some(v) => Some(string_views(v@)),
                Option::None => None,
            },
            track_channel_member: match &self.track_channel_member {
                Option::Some(s) => Some(s@),
                Option::None => None,
            },
        }
    }
}

impl Server {
    pub fn server_id(&self) -> (r: i64)
        ensures
            r == (match self@.server_id {
                Some(v) => v,
                None => 1i64,
            }),
    {
        match self.server_id {
            Option::Some(v) => v,
            Option::None => 1,
        }
    }

    pub fn channels(&self) -> (r: Vec<i64>)
        ensures
            r@ == self@.channel_id,
    {
        self.channel_id.get_vec()
    }

    pub fn privilege_group_id(&self) -> (r: i64)
        ensures
            r == self@.privilege_group_id,
    {
        self.privilege_group_id
    }

    pub fn redis_server(&self) -> (r: String)
        ensures
            r@ == (match self@.redis_server {
                Some(v) => v,
                None => "redis://127.0.0.1"@,
            }),
    {
        match &self.redis_server {
            Option::Some(s) => s.clone(),
            Option::None => String::from_str("redis://127.0.0.1"),
        }
    }

    pub fn leveldb(&self) -> (r: &Option<String>)
        ensures
            r is Some <==> self@.leveldb is Some,
            r matches Some(s) ==> self@.leveldb == Some(s@),
    {
        &self.leveldb
    }

    pub fn ignore_user_name(&self) -> (r: Vec<String>)
        ensures
            string_views(r@) == (match self@.ignore_user {
                Some(v) => v,
                None => Seq::<Seq<char>>::empty(),
            }),
    {
        match &self.ignore_user {
            Option::Some(v) => clone_strings(v),
            Option::None => {
                let out: Vec<String> = Vec::new();
                proof {
                    assert(string_views(out@) =~= Seq::<Seq<char>>::empty());
                }
                out
            },
        }
    }

    pub fn whitelist_ip(&self) -> (r: Vec<String>)
        ensures
            string_views(r@) == (match self@.whitelist_ip {
                Some(v) => v,
                None => Seq::<Seq<char>>::empty(),
            }),
    {
        match &self.whitelist_ip {
            Option::Some(v) => clone_strings(v),
            Option::None => {
                let out: Vec<String> = Vec::new();
                proof {
                    assert(string_views(out@) =~= Seq::<Seq<char>>::empty());
                }
                out
            },
        }
    }

    pub fn track_channel_member(&self) -> (r: &Option<String>)
        ensures
            r is Some <==> self@.track_channel_member is Some,
            r matches Some(s) ==> self@.track_channel_member == Some(s@),
    {
        &self.track_channel_member
    }

    pub fn new(
        server_id: Option<i64>,
        channel_id: Numbers,
        privilege_group_id: i64,
        redis_server: Option<String>,
        leveldb: Option<String>,
        ignore_user: Option<Vec<String>>,
        whitelist_ip: Option<Vec<String>>,
        track_channel_member: Option<String>,
    ) -> (r: Server)
        ensures
            r@.server_id == server_id,
            r@.channel_id == channel_id@,
            r@.privilege_group_id == privilege_group_id,
    {
        Server {
            server_id,
            channel_id,
            privilege_group_id,
            redis_server,
            leveldb,
            ignore_user,
            whitelist_ip,
            track_channel_member,
        }
    }
}

/// The user-facing message templates.
#[derive(Clone, Debug)]
pub struct Message {
    move_to_channel: Option<String>,
}

pub struct MessageModel {
    pub move_to_channel: Option<Seq<char>>,
}

impl View for Message {
    type V = MessageModel;

    closed spec fn view(&self) -> MessageModel {
        MessageModel {
            move_to_channel: match &self.move_to_channel {
                Option::Some(s) => Some(s@),
                Option::None => None,
            },
        }
    }
}

impl Message {
    pub fn move_to_channel(&self) -> (r: String)
        ensures
            r@ == (match self@.move_to_channel {
                Some(v) => v,
                None => "You have been moved into your channel."@,
            }),
    {
        match &self.move_to_channel {
            Option::Some(s) => s.clone(),
            Option::None => String::from_str("You have been moved into your channel."),
        }
    }

    pub fn new(move_to_channel: Option<String>) -> (r: Message)
        ensures
            r@.move_to_channel == (match move_to_channel {
                Option::Some(s) => Some(s@),
                Option::None => None::<Seq<char>>,
            }),
    {
        Message { move_to_channel }
    }
}

impl Default for Message {
    /// No template configured; the built-in text is used.
    fn default() -> (r: Message)
        ensures
            r@.move_to_channel is None,
    {
        Message { move_to_channel: None }
    }
}

/// The chat-relay section: the token, endpoint and target of the
/// outbound notice channel.
#[derive(Clone, Debug)]
pub struct Telegram {
    api_key: String,
    api_server: Option<String>,
    target: i64,
}

pub struct TelegramModel {
    pub api_key: Seq<char>,
    pub api_server: Option<Seq<char>>,
    pub target: i64,
}

impl View for Telegram {
    type V = TelegramModel;

    closed spec fn view(&self) -> TelegramModel {
        TelegramModel {
            api_key: self.api_key@,
            api_server: match &self.api_server {
                Option::Some(s) => Some(s@),
                Option::None => None,
            },
            target: self.target,
        }
    }
}

impl Telegram {
    pub fn api_key(&self) -> (r: &str)
        ensures
            r@ == self@.api_key,
    {
        self.api_key.as_str()
    }

    pub fn api_server(&self) -> (r: String)
        ensures
            r@ == (match self@.api_server {
                Some(v) => v,
                None => "https://api.telegram.org/"@,
            }),
    {
        match &self.api_server {
            Option::Some(s) => s.clone(),
            Option::None => String::from_str("https://api.telegram.org/"),
        }
    }

    pub fn target(&self) -> (r: i64)
        ensures
            r == self@.target,
    {
        self.target
    }

    pub fn new(api_key: String, api_server: Option<String>, target: i64) -> (r: Telegram)
        ensures
            r@.api_key == api_key@,
            r@.target == target,
    {
        Telegram { api_key, api_server, target }
    }
}

/// Assorted knobs: the poll interval and the service-mode flag.
#[derive(Clone, Debug)]
pub struct Misc {
    interval: Option<u64>,
    systemd: Option<bool>,
}

pub struct MiscModel {
    pub interval: Option<u64>,
    pub systemd: Option<bool>,
}

impl View for Misc {
    type V = MiscModel;

    closed spec fn view(&self) -> MiscModel {
        MiscModel { interval: self.interval, systemd: self.systemd }
    }
}

impl Misc {
    pub fn interval(&self) -> (r: u64)
        ensures
            r == (match self@.interval {
                Some(v) => v,
                None => 5u64,
            }),
    {
        match self.interval {
            Option::Some(v) => v,
            Option::None => 5,
        }
    }

    pub fn systemd(&self) -> (r: bool)
        ensures
            r == (match self@.systemd {
                Some(v) => v,
                None => false,
            }),
    {
        match self.systemd {
            Option::Some(v) => v,
            Option::None => false,
        }
    }

    pub fn new(interval: Option<u64>, systemd: Option<bool>) -> (r: Misc)
        ensures
            r@.interval == interval,
            r@.systemd == systemd,
    {
        Misc { interval, systemd }
    }
}

/// The mute porter: moves inactive clients out of a watched channel.
#[derive(Clone, Debug)]
pub struct MutePorter {
    enable: bool,
    monitor_channel: i64,
    target_channel: i64,
    whitelist: Vec<i64>,
}

pub struct MutePorterModel {
    pub enable: bool,
    pub monitor_channel: i64,
    pub target_channel: i64,
    pub whitelist: Seq<i64>,
}

impl View for MutePorter {
    type V = MutePorterModel;

    closed spec fn view(&self) -> MutePorterModel {
        MutePorterModel {
            enable: self.enable,
            monitor_channel: self.monitor_channel,
            target_channel: self.target_channel,
            whitelist: self.whitelist@,
        }
    }
}

/// Whether the porter moves a client: an ordinary user sitting in the
/// watched channel, not allowlisted, and counting as inactive.
pub open spec fn spec_should_port(
    p: MutePorterModel,
    c: crate::types::ClientModel,
    info: crate::types::ClientInfoModel,
) -> bool {
    &&& c.client_type == 0
    &&& c.channel_id == p.monitor_channel as int
    &&& !(exists|j: int|
        0 <= j < p.whitelist.len() && #[trigger] p.whitelist[j] as int == c.client_database_id)
    &&& spec_client_muted(info)
}

impl MutePorter {
    pub fn enable(&self) -> (r: bool)
        ensures
            r == self@.enable,
    {
        self.enable
    }

    pub fn monitor_channel(&self) -> (r: i64)
        ensures
            r == self@.monitor_channel,
    {
        self.monitor_channel
    }

    pub fn target_channel(&self) -> (r: i64)
        ensures
            r == self@.target_channel,
    {
        self.target_channel
    }

    /// Whether a persistent id stands on the porter's allowlist.
    pub fn check_whitelist(&self, client_id: i64) -> (r: bool)
        ensures
            r == self@.whitelist.contains(client_id),
    {
        let n: usize = self.whitelist.len();
        let mut i: usize = 0;
        while i < n
            invariant
                i <= n,
                n == self@.whitelist.len(),
                self@.whitelist == self.whitelist@,
                forall|j: int| 0 <= j < i ==> self@.whitelist[j] != client_id,
            decreases n - i,
        {
            if self.whitelist[i] == client_id {
                return true;
            }
            i = i + 1;
        }
        false
    }

    /// Decides whether the porter moves this client to the target
    /// channel.
    pub fn should_port(&self, client: &Client, info: &ClientInfo) -> (r: bool)
        ensures
            r == spec_should_port(self@, client@, info@),
    {
        let dbid = client.client_database_id();
        let r = client.client_is_user() && client.channel_id() == self.monitor_channel
            && !self.check_whitelist(dbid) && info.is_client_muted();
        proof {
            if self@.whitelist.contains(dbid) {
                let j = choose|j: int|
                    0 <= j < self@.whitelist.len() && self@.whitelist[j] == dbid;
                assert(self@.whitelist[j] as int == client@.client_database_id);
            }
            if exists|j: int|
                0 <= j < self@.whitelist.len() && #[trigger] self@.whitelist[j] as int
                    == client@.client_database_id {
                let j = choose|j: int|
                    0 <= j < self@.whitelist.len() && #[trigger] self@.whitelist[j] as int
                        == client@.client_database_id;
                assert(self@.whitelist[j] == dbid);
                assert(self@.whitelist.contains(dbid));
            }
        }
        r
    }

    pub fn new(enable: bool, monitor_channel: i64, target_channel: i64, whitelist: Vec<i64>) -> (r:
        MutePorter)
        ensures
            r@.enable == enable,
            r@.monitor_channel == monitor_channel,
            r@.target_channel == target_channel,
            r@.whitelist == whitelist@,
    {
        MutePorter { enable, monitor_channel, target_channel, whitelist }
    }
}

impl Default for MutePorter {
    /// The porter is off unless configured.
    fn default() -> (r: MutePorter)
        ensures
            r@.enable == false,
    {
        MutePorter { enable: false, monitor_channel: 0, target_channel: 0, whitelist: Vec::new() }
    }
}

/// One session's whole configuration.
#[derive(Clone, Debug)]
pub struct Config {
    server: Server,
    misc: Misc,
    mute_porter: MutePorter,
    custom_message: Option<Message>,
    permissions: Option<Vec<Permission>>,
    telegram: Telegram,
    raw_query: RawQuery,
    additional: Vec<String>,
}

pub struct ConfigModel {
    pub server: ServerModel,
    pub misc: MiscModel,
    pub mute_porter: MutePorterModel,
    pub custom_message: Option<MessageModel>,
    pub permissions: Option<Seq<PermissionModel>>,
    pub telegram: TelegramModel,
    pub raw_query: RawQueryModel,
    pub additional: Seq<Seq<char>>,
}

impl View for Config {
    type V = ConfigModel;

    closed spec fn view(&self) -> ConfigModel {
        ConfigModel {
            server: self.server@,
            misc: self.misc@,
            mute_porter: self.mute_porter@,
            custom_message: match &self.custom_message {
                Option::Some(m) => Some(m@),
                Option::None => None,
            },
            permissions: match &self.permissions {
                Option::Some(v) => Some(v@.map_values(|p: Permission| p@)),
                Option::None => None,
            },
            telegram: self.telegram@,
            raw_query: self.raw_query@,
            additional: string_views(self.additional@),
        }
    }
}

/// The permission map extended with one table under each of its ids.
pub open spec fn spec_insert_ids(
    m: Map<i64, Seq<(u64, i64)>>,
    ids: Seq<i64>,
    table: Seq<(u64, i64)>,
) -> Map<i64, Seq<(u64, i64)>>
    decreases ids.len(),
{
    if ids.len() == 0 {
        m
    } else {
        spec_insert_ids(m.insert(ids[0], table), ids.skip(1), table)
    }
}

/// The channel-to-permission-table map a permission list denotes.
pub open spec fn spec_channel_permissions(
    perms: Seq<PermissionModel>,
    acc: Map<i64, Seq<(u64, i64)>>,
) -> Map<i64, Seq<(u64, i64)>>
    decreases perms.len(),
{
    if perms.len() == 0 {
        acc
    } else {
        spec_channel_permissions(
            perms.skip(1),
            spec_insert_ids(acc, perms[0].channel_id, perms[0].map),
        )
    }
}

/// The parse_server rule: loopback names are hidden from the identity
/// token.
pub open spec fn spec_parse_server(server: Seq<char>) -> Seq<char> {
    if server == "localhost"@ || server == "::1"@ || server == "127.0.0.1"@ {
        Seq::empty()
    } else {
        server
    }
}

/// The identity token of a configuration: the visible address, port
/// and virtual server id.
pub open spec fn spec_get_id(c: ConfigModel) -> Seq<char> {
    spec_parse_server(spec_server_or_default(c.raw_query.server)) + ":"@ + spec_u64_dec(
        spec_port_or_default(c.raw_query.port) as nat,
    ) + "("@ + spec_i64_dec(
        match c.server.server_id {
            Some(v) => v as int,
            None => 1,
        },
    ) + ")"@
}

impl Config {
    pub fn server(&self) -> (r: &Server)
        ensures
            r@ == self@.server,
    {
        &self.server
    }

    pub fn misc(&self) -> (r: &Misc)
        ensures
            r@ == self@.misc,
    {
        &self.misc
    }

    pub fn raw_query(&self) -> (r: &RawQuery)
        ensures
            r@ == self@.raw_query,
    {
        &self.raw_query
    }

    pub fn message(&self) -> (r: Message)
        ensures
            r@ == (match self@.custom_message {
                Some(m) => m,
                None => MessageModel { move_to_channel: None },
            }),
    {
        match &self.custom_message {
            Option::Some(m) => Message {
                move_to_channel: match &m.move_to_channel {
                    Option::Some(t) => Some(t.clone()),
                    Option::None => None,
                },
            },
            Option::None => Message { move_to_channel: None },
        }
    }

    pub fn telegram(&self) -> (r: &Telegram)
        ensures
            r@ == self@.telegram,
    {
        &self.telegram
    }

    pub fn mute_porter(&self) -> (r: &MutePorter)
        ensures
            r@ == self@.mute_porter,
    {
        &self.mute_porter
    }

    pub fn additional(&self) -> (r: &Vec<String>)
        ensures
            string_views(r@) == self@.additional,
    {
        &self.additional
    }

    /// The per-channel permission tables: a later entry naming the same
    /// channel overrides an earlier one.
    pub fn channel_permissions(&self) -> (r: HashMap<i64, Vec<(u64, i64)>>)
        ensures
            r@.map_values(|v: Vec<(u64, i64)>| v@) == (match self@.permissions {
                Some(ps) => spec_channel_permissions(ps, Map::empty()),
                None => Map::<i64, Seq<(u64, i64)>>::empty(),
            }),
    {
        let mut m: HashMap<i64, Vec<(u64, i64)>> = HashMap::new();
        proof {
            assert(m@.map_values(|v: Vec<(u64, i64)>| v@) =~= Map::<i64, Seq<(u64, i64)>>::empty());
        }
        let perms = match &self.permissions {
            Option::None => {
                return m;
            },
            Option::Some(ps) => ps,
        };
        let ghost pviews = perms@.map_values(|p: Permission| p@);
        let n: usize = perms.len();
        let mut i: usize = 0;
        proof {
            assert(pviews.skip(0) =~= pviews);
        }
        while i < n
            invariant
                i <= n,
                n == pviews.len(),
                pviews == perms@.map_values(|p: Permission| p@),
                spec_channel_permissions(pviews, Map::empty()) == spec_channel_permissions(
                    pviews.skip(i as int),
                    m@.map_values(|v: Vec<(u64, i64)>| v@),
                ),
            decreases n - i,
        {
            proof {
                assert(pviews.skip(i as int)[0] == pviews[i as int]);
                assert(pviews[i as int] == perms@[i as int]@);
                assert(pviews.skip(i as int).skip(1) =~= pviews.skip(i as int + 1));
            }
            let ids = perms[i].channel_id().get_vec();
            let table = perms[i].map();
            let ghost m0 = m@.map_values(|v: Vec<(u64, i64)>| v@);
            let ghost tview = table@;
            proof {
                assert(ids@.skip(0) =~= ids@);
            }
            let k: usize = ids.len();
            let mut j: usize = 0;
            while j < k
                invariant
                    j <= k,
                    k == ids@.len(),
                    tview == table@,
                    spec_insert_ids(m0, ids@, tview) == spec_insert_ids(
                        m@.map_values(|v: Vec<(u64, i64)>| v@),
                        ids@.skip(j as int),
                        tview,
                    ),
                decreases k - j,
            {
                proof {
                    assert(ids@.skip(j as int)[0] == ids@[j as int]);
                    assert(ids@.skip(j as int).skip(1) =~= ids@.skip(j as int + 1));
                }
                let table_copy = vstd::slice::slice_to_vec(table.as_slice());
                let ghost pre = m@.map_values(|v: Vec<(u64, i64)>| v@);
                m.insert(ids[j], table_copy);
                proof {
                    assert(m@.map_values(|v: Vec<(u64, i64)>| v@) =~= pre.insert(
                        ids@[j as int],
                        tview,
                    ));
                }
                j = j + 1;
            }
            proof {
                assert(ids@.skip(k as int) =~= Seq::<i64>::empty());
                assert(spec_insert_ids(m0, pviews[i as int].channel_id, pviews[i as int].map)
                    == m@.map_values(|v: Vec<(u64, i64)>| v@));
            }
            i = i + 1;
        }
        proof {
            assert(pviews.skip(i as int) =~= Seq::<PermissionModel>::empty());
        }
        m
    }

    /// Hides loopback addresses from the identity token.
    pub fn parse_server(server: &str) -> (r: &str)
        ensures
            r@ == spec_parse_server(server@),
    {
        let v = str_to_chars(server);
        let l1 = str_to_chars("localhost");
        let l2 = str_to_chars("::1");
        let l3 = str_to_chars("127.0.0.1");
        if chars_eq(v.as_slice(), l1.as_slice()) || chars_eq(v.as_slice(), l2.as_slice())
            || chars_eq(v.as_slice(), l3.as_slice()) {
            proof {
                reveal_strlit("");
            }
            ""
        } else {
            server
        }
    }

    /// The identity token that correlates this configuration's notices.
    pub fn get_id(&self) -> (r: String)
        ensures
            r@ == spec_get_id(self@),
    {
        let server = self.raw_query.server();
        let visible = Config::parse_server(server.as_str());
        let mut s = String::from_str(visible);
        s.append(":");
        let p = u64_to_string(self.raw_query.port() as u64);
        s.append(p.as_str());
        s.append("(");
        let sid = i64_to_string(self.server.server_id());
        s.append(sid.as_str());
        s.append(")");
        proof {
            assert(s@ =~= spec_get_id(self@));
        }
        s
    }

    /// The short hexadecimal digest used as a configuration's thread
    /// id.
    pub fn config_xxhash(input: &[u8]) -> (r: String)
        ensures
            r@ == spec_u64_hex_pad(xxh3_of(input@) as nat, 8),
    {
        let h = xxhash_rust::xxh3::xxh3_64(input);
        u64_to_hex_pad(h, 8)
    }

    pub fn new(
        server: Server,
        misc: Misc,
        mute_porter: MutePorter,
        custom_message: Option<Message>,
        permissions: Option<Vec<Permission>>,
        telegram: Telegram,
        raw_query: RawQuery,
        additional: Vec<String>,
    ) -> (r: Config)
        ensures
            r@.server == server@,
            r@.misc == misc@,
            r@.mute_porter == mute_porter@,
            r@.telegram == telegram@,
            r@.raw_query == raw_query@,
    {
        Config {
            server,
            misc,
            mute_porter,
            custom_message,
            permissions,
            telegram,
            raw_query,
            additional,
        }
    }
}

/// The digest of a byte string under the xxh3 64-bit algorithm; it
/// depends on the bytes alone.
pub uninterp spec fn xxh3_of(bytes: Seq<u8>) -> u64;

/// Relies on xxhash_rust's xxh3_64: the 64-bit digest of the input
/// bytes, a function of the bytes alone.
pub assume_specification[ xxhash_rust::xxh3::xxh3_64 ](input: &[u8]) -> (r: u64)
    ensures
        r == xxh3_of(input@),
;

} // verus!
