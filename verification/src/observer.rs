//! The observer: classification and handling of the asynchronous
//! notification stream, and the private-message queue protocol.
//!
//! Each notification line is dispatched by its prefix or content to a
//! handler that parses it and decides what follows: a roster update, a
//! forward to the auto-channel engine, a notice for the chat relay, a
//! reset request, or ban-list deletions. A line that fails to parse is
//! answered with an error local to that line; the connection's own
//! failures, not the line's, end the session.

use vstd::prelude::*;
use std::collections::HashMap;
use crate::strutil::chars_eq;
use crate::strutil::chars_contains;
use crate::strutil::chars_has_prefix;
use crate::strutil::contains_seq;
use crate::strutil::has_prefix;
use crate::strutil::str_to_chars;
use crate::strutil::string_views;
use crate::types::BanEntry;
use crate::types::Client;
use crate::types::ClientBasicInfo;
use crate::types::FromQueryString;
use crate::types::NotifyClientEnterView;
use crate::types::NotifyClientLeftView;
use crate::types::NotifyClientMovedView;
use crate::types::NotifyTextMessage;
use crate::types::QueryError;
use crate::types::QueryResult;
use crate::wire::spec_split;
use crate::wire::seq_views;
use crate::wire::split_chars;

verus! {

broadcast use vstd::std_specs::hash::group_hash_axioms;

/// A request on the observer's outbound private-message queue.
#[derive(Clone, Debug)]
pub enum PrivateMessageRequest {
    /// Send this text privately to this client, fire and forget.
    Message(i64, String),
    /// Probe the connection with a no-op command.
    KeepAlive,
    /// Log out and end the observer loop.
    Terminate,
}

pub enum PrivateMessageRequestModel {
    Message(int, Seq<char>),
    KeepAlive,
    Terminate,
}

impl View for PrivateMessageRequest {
    type V = PrivateMessageRequestModel;

    open spec fn view(&self) -> PrivateMessageRequestModel {
        match self {
            PrivateMessageRequest::Message(c, m) => PrivateMessageRequestModel::Message(
                *c as int,
                m@,
            ),
            PrivateMessageRequest::KeepAlive => PrivateMessageRequestModel::KeepAlive,
            PrivateMessageRequest::Terminate => PrivateMessageRequestModel::Terminate,
        }
    }
}

/// What the observer does with one queued request.
#[derive(Clone, Debug)]
pub enum ObserverReaction {
    /// Write the private-message command, unchecked.
    SendText(i64, String),
    /// Issue the keepalive no-op and check it was answered.
    ProbeLiveness,
    /// Log out and leave the loop.
    Shutdown,
}

pub enum ObserverReactionModel {
    SendText(int, Seq<char>),
    ProbeLiveness,
    Shutdown,
}

impl View for ObserverReaction {
    type V = ObserverReactionModel;

    open spec fn view(&self) -> ObserverReactionModel {
        match self {
            ObserverReaction::SendText(c, m) => ObserverReactionModel::SendText(*c as int, m@),
            ObserverReaction::ProbeLiveness => ObserverReactionModel::ProbeLiveness,
            ObserverReaction::Shutdown => ObserverReactionModel::Shutdown,
        }
    }
}

/// The observer's handling of one queued request: messages are written
/// through, a keepalive probes the connection, and a terminate request
/// shuts the loop down with a logout.
pub open spec fn spec_on_private_request(q: PrivateMessageRequestModel) -> ObserverReactionModel {
    match q {
        PrivateMessageRequestModel::Message(c, m) => ObserverReactionModel::SendText(c, m),
        PrivateMessageRequestModel::KeepAlive => ObserverReactionModel::ProbeLiveness,
        PrivateMessageRequestModel::Terminate => ObserverReactionModel::Shutdown,
    }
}

/// Decides what one queued private-message request triggers.
pub fn on_private_request(req: PrivateMessageRequest) -> (r: ObserverReaction)
    ensures
        r@ == spec_on_private_request(req@),
{
    match req {
        PrivateMessageRequest::Message(c, m) => ObserverReaction::SendText(c, m),
        PrivateMessageRequest::KeepAlive => ObserverReaction::ProbeLiveness,
        PrivateMessageRequest::Terminate => ObserverReaction::Shutdown,
    }
}

// ---------------------------------------------------------------------
// The roster

/// What the observer remembers about a connected client.
#[derive(Clone, Debug)]
pub struct RosterEntry {
    nickname: String,
    is_filtered: bool,
}

impl RosterEntry {
    pub fn nickname(&self) -> (r: &str)
        ensures
            r@ == self@.0,
    {
        self.nickname.as_str()
    }

    pub fn is_filtered(&self) -> (r: bool)
        ensures
            r == self@.1,
    {
        self.is_filtered
    }
}

impl View for RosterEntry {
    type V = (Seq<char>, bool);

    closed spec fn view(&self) -> (Seq<char>, bool) {
        (self.nickname@, self.is_filtered)
    }
}

/// The abstract roster: client id to (nickname, filtered).
pub open spec fn roster_model(m: Map<i64, RosterEntry>) -> Map<i64, (Seq<char>, bool)> {
    m.map_values(|e: RosterEntry| e@)
}

/// Whether a unique id belongs to a query or ignored identity.
pub open spec fn spec_is_filtered(ignore: Seq<Seq<char>>, uid: Seq<char>) -> bool {
    uid == "ServerQuery"@ || ignore.contains(uid)
}

/// Tests whether a unique id is the built-in query identity or stands
/// on the configured ignore list.
pub fn is_filtered_uid(ignore_list: &Vec<String>, uid: &str) -> (r: bool)
    ensures
        r == spec_is_filtered(string_views(ignore_list@), uid@),
{
    let uv = str_to_chars(uid);
    let qv = str_to_chars("ServerQuery");
    if chars_eq(uv.as_slice(), qv.as_slice()) {
        return true;
    }
    let n: usize = ignore_list.len();
    let mut i: usize = 0;
    while i < n
        invariant
            i <= n,
            n == ignore_list@.len(),
            uv@ == uid@,
            forall|j: int| 0 <= j < i ==> string_views(ignore_list@)[j] != uid@,
        decreases n - i,
    {
        let ev = str_to_chars(ignore_list[i].as_str());
        if chars_eq(ev.as_slice(), uv.as_slice()) {
            proof {
                assert(string_views(ignore_list@)[i as int] == uid@);
            }
            return true;
        }
        i = i + 1;
    }
    proof {
        assert forall|j: int|
            0 <= j < string_views(ignore_list@).len() implies #[trigger] string_views(
            ignore_list@,
        )[j] != uid@ by {
        }
    }
    false
}

/// The roster built from a full roster query: every ordinary user, by
/// client id, unfiltered; query identities are left out.
pub open spec fn spec_build_roster(
    clients: Seq<crate::types::ClientModel>,
    acc: Map<i64, (Seq<char>, bool)>,
) -> Map<i64, (Seq<char>, bool)>
    decreases clients.len(),
{
    if clients.len() == 0 {
        acc
    } else {
        let c = clients[0];
        let acc2 = if c.client_type == 0 && i64::MIN <= c.client_id <= i64::MAX && !acc.contains_key(
            c.client_id as i64,
        ) {
            acc.insert(c.client_id as i64, (c.client_nickname, false))
        } else {
            acc
        };
        spec_build_roster(clients.skip(1), acc2)
    }
}

/// The views of a list of roster rows.
pub open spec fn client_views(v: Seq<Client>) -> Seq<crate::types::ClientModel> {
    v.map_values(|c: Client| c@)
}

/// Builds the startup roster from a full roster query.
pub fn build_roster(clients: &Vec<Client>) -> (r: HashMap<i64, RosterEntry>)
    ensures
        roster_model(r@) == spec_build_roster(client_views(clients@), Map::empty()),
{
    let mut roster: HashMap<i64, RosterEntry> = HashMap::new();
    let n: usize = clients.len();
    let mut i: usize = 0;
    proof {
        assert(client_views(clients@).skip(0) =~= client_views(clients@));
        assert(roster_model(roster@) =~= Map::<i64, (Seq<char>, bool)>::empty());
    }
    while i < n
        invariant
            i <= n,
            n == clients@.len(),
            spec_build_roster(client_views(clients@), Map::empty()) == spec_build_roster(
                client_views(clients@).skip(i as int),
                roster_model(roster@),
            ),
        decreases n - i,
    {
        let ghost pre = roster_model(roster@);
        let ghost cv = client_views(clients@);
        proof {
            assert(cv.skip(i as int)[0] == cv[i as int]);
            assert(cv[i as int] == clients@[i as int]@);
            assert(cv.skip(i as int).skip(1) =~= cv.skip(i as int + 1));
        }
        let c = &clients[i];
        if c.client_is_user() && !roster.contains_key(&c.client_id()) {
            let nickname = String::from_str(c.client_nickname());
            roster.insert(c.client_id(), RosterEntry { nickname, is_filtered: false });
            proof {
                assert(roster_model(roster@) =~= pre.insert(
                    clients@[i as int]@.client_id as i64,
                    (clients@[i as int]@.client_nickname, false),
                ));
            }
        }
        i = i + 1;
    }
    proof {
        assert(client_views(clients@).skip(i as int) =~= Seq::<crate::types::ClientModel>::empty());
    }
    roster
}

// ---------------------------------------------------------------------
// Line classification

/// The kinds of notification lines the observer reacts to.
#[derive(Copy, Clone, Debug, PartialEq, Eq, Structural)]
pub enum LineKind {
    Enter,
    Left,
    Moved,
    Text,
    BanList,
    Status,
    Other,
}

/// The dispatch rule: enter and left notices by prefix; move and text
/// notices only while the auto-channel engine is attached; ban rows by
/// prefix; status noise recognized and dropped.
pub open spec fn spec_classify(line: Seq<char>, monitor_valid: bool) -> LineKind {
    if has_prefix(line, "notifycliententerview"@) {
        LineKind::Enter
    } else if has_prefix(line, "notifyclientleftview"@) {
        LineKind::Left
    } else if contains_seq(line, "notifyclientmoved"@) && monitor_valid {
        LineKind::Moved
    } else if contains_seq(line, "notifytextmessage"@) && monitor_valid {
        LineKind::Text
    } else if has_prefix(line, "banid"@) {
        LineKind::BanList
    } else if contains_seq(line, "virtualserver_status="@) {
        LineKind::Status
    } else {
        LineKind::Other
    }
}

/// Classifies one notification line.
pub fn classify_line(line: &str, monitor_valid: bool) -> (r: LineKind)
    ensures
        r == spec_classify(line@, monitor_valid),
{
    let v = str_to_chars(line);
    let p_enter = str_to_chars("notifycliententerview");
    let p_left = str_to_chars("notifyclientleftview");
    let p_moved = str_to_chars("notifyclientmoved");
    let p_text = str_to_chars("notifytextmessage");
    let p_ban = str_to_chars("banid");
    let p_status = str_to_chars("virtualserver_status=");
    if chars_has_prefix(v.as_slice(), p_enter.as_slice()) {
        LineKind::Enter
    } else if chars_has_prefix(v.as_slice(), p_left.as_slice()) {
        LineKind::Left
    } else if chars_contains(v.as_slice(), p_moved.as_slice()) && monitor_valid {
        LineKind::Moved
    } else if chars_contains(v.as_slice(), p_text.as_slice()) && monitor_valid {
        LineKind::Text
    } else if chars_has_prefix(v.as_slice(), p_ban.as_slice()) {
        LineKind::BanList
    } else if chars_contains(v.as_slice(), p_status.as_slice()) {
        LineKind::Status
    } else {
        LineKind::Other
    }
}

// ---------------------------------------------------------------------
// Handlers

/// The handlers of the classified notification lines.
pub struct Processor;

/// The outcome of an enter notice.
#[derive(Clone, Debug)]
pub struct EnterOutcome {
    /// Whether the entrant is a query or ignored identity; nothing is
    /// forwarded for those.
    pub filtered: bool,
    /// The parsed notice, for the engine forward and the relay notice.
    pub view: NotifyClientEnterView,
}

/// The outcome of a leave notice.
#[derive(Clone, Debug)]
pub enum LeftOutcome {
    /// The client was not on the roster; nothing to do.
    Unknown,
    /// A filtered identity left; it stays on the roster and nothing is
    /// forwarded.
    Filtered,
    /// An ordinary user left: the parsed notice and the roster
    /// nickname, for the relay notice; the entry is removed.
    User(NotifyClientLeftView, String),
}

impl Processor {
    /// Handles an enter notice: records the entrant on the roster,
    /// marking query and ignored identities, and hands the parsed view
    /// back for forwarding unless the entrant is filtered.
    pub fn user_enter(
        line: &str,
        ignore_list: &Vec<String>,
        roster: &mut HashMap<i64, RosterEntry>,
    ) -> (r: QueryResult<EnterOutcome>)
        ensures
            r is Ok <==> NotifyClientEnterView::row_ok(line@),
            r matches Ok(out) ==> {
                let m = NotifyClientEnterView::row_model(line@);
                &&& out.view@ == m
                &&& out.filtered == spec_is_filtered(
                    string_views(ignore_list@),
                    m.client_unique_identifier,
                )
                &&& roster_model(final(roster)@) == roster_model(old(roster)@).insert(
                    m.client_id as i64,
                    (m.client_nickname, out.filtered),
                )
            },
            r is Err ==> final(roster)@ == old(roster)@,
    {
        let view = match NotifyClientEnterView::from_query(line) {
            Option::Some(v) => v,
            Option::None => {
                return Err(
                    QueryError::from_transport(String::from_str("Malformed enter notification.")),
                );
            },
        };
        let filtered = is_filtered_uid(ignore_list, view.client_unique_identifier());
        let nickname = String::from_str(view.client_nickname());
        let ghost pre = roster_model(roster@);
        roster.insert(view.client_id(), RosterEntry { nickname, is_filtered: filtered });
        proof {
            let m = NotifyClientEnterView::row_model(line@);
            assert(roster_model(roster@) =~= pre.insert(
                m.client_id as i64,
                (m.client_nickname, filtered),
            ));
        }
        Ok(EnterOutcome { filtered, view })
    }

    /// Handles a leave notice: recovers the nickname from the roster
    /// (the client may already be gone), drops the entry for ordinary
    /// users, and keeps filtered identities silent.
    pub fn user_left(line: &str, roster: &mut HashMap<i64, RosterEntry>) -> (r: QueryResult<
        LeftOutcome,
    >)
        ensures
            r is Ok <==> NotifyClientLeftView::row_ok(line@),
            r matches Ok(out) ==> {
                let m = NotifyClientLeftView::row_model(line@);
                let k = m.client_id as i64;
                &&& !roster_model(old(roster)@).contains_key(k) ==> out is Unknown
                    && final(roster)@ == old(roster)@
                &&& roster_model(old(roster)@).contains_key(k) && roster_model(old(roster)@)[k].1
                    ==> out is Filtered && final(roster)@ == old(roster)@
                &&& roster_model(old(roster)@).contains_key(k) && !roster_model(old(roster)@)[k].1
                    ==> {
                    &&& out matches LeftOutcome::User(v, nick) && v@ == m && nick@ == roster_model(
                        old(roster)@,
                    )[k].0
                    &&& roster_model(final(roster)@) == roster_model(old(roster)@).remove(k)
                }
            },
            r is Err ==> final(roster)@ == old(roster)@,
    {
        let view = match NotifyClientLeftView::from_query(line) {
            Option::Some(v) => v,
            Option::None => {
                return Err(
                    QueryError::from_transport(String::from_str("Malformed left notification.")),
                );
            },
        };
        let key = view.client_id();
        let entry = match roster.get(&key) {
            Option::Some(e) => e,
            Option::None => {
                return Ok(LeftOutcome::Unknown);
            },
        };
        if entry.is_filtered {
            return Ok(LeftOutcome::Filtered);
        }
        let nickname = String::from_str(entry.nickname.as_str());
        let ghost pre = roster_model(roster@);
        roster.remove(&key);
        proof {
            assert(roster_model(roster@) =~= pre.remove(key));
        }
        Ok(LeftOutcome::User(view, nickname))
    }

    /// Handles a move notice: hands the ids back for the engine
    /// forward.
    pub fn user_move(line: &str) -> (r: QueryResult<ClientBasicInfo>)
        ensures
            r is Ok <==> NotifyClientMovedView::row_ok(line@),
            r matches Ok(info) ==> {
                let m = NotifyClientMovedView::row_model(line@);
                info@.channel_id == m.channel_id && info@.client_id == m.client_id
            },
    {
        match NotifyClientMovedView::from_query(line) {
            Option::Some(v) => Ok(ClientBasicInfo::from_moved(&v)),
            Option::None => Err(
                QueryError::from_transport(String::from_str("Malformed move notification.")),
            ),
        }
    }

    /// Handles a private text message: only the exact reset command
    /// matters, and it yields the invoker's client id and unique id.
    pub fn user_text(line: &str) -> (r: QueryResult<Option<(i64, String)>>)
        ensures
            r is Ok <==> NotifyTextMessage::row_ok(line@),
            r matches Ok(out) ==> {
                let m = NotifyTextMessage::row_model(line@);
                &&& (out is Some <==> m.msg == "!reset"@)
                &&& out matches Some(p) ==> p.0 as int == m.invoker_id && p.1@ == m.invoker_uid
            },
    {
        let view = match NotifyTextMessage::from_query(line) {
            Option::Some(v) => v,
            Option::None => {
                return Err(
                    QueryError::from_transport(String::from_str("Malformed text notification.")),
                );
            },
        };
        let mv = str_to_chars(view.msg());
        let rv = str_to_chars("!reset");
        if chars_eq(mv.as_slice(), rv.as_slice()) {
            let uid = String::from_str(view.invoker_uid());
            Ok(Some((view.invoker_id(), uid)))
        } else {
            Ok(None)
        }
    }
}

/// The ban ids to delete from a ban-list line: entries whose address
/// stands on the allowlist, in order.
pub open spec fn spec_ban_dels(rows: Seq<Seq<char>>, allow: Seq<Seq<char>>) -> Seq<int>
    decreases rows.len(),
{
    if rows.len() == 0 {
        Seq::empty()
    } else {
        let head = if allow.contains(BanEntry::row_model(rows[0]).ip) {
            seq![BanEntry::row_model(rows[0]).ban_id]
        } else {
            Seq::<int>::empty()
        };
        head + spec_ban_dels(rows.skip(1), allow)
    }
}

/// Whether every row of a ban-list line parses.
pub open spec fn ban_rows_ok(rows: Seq<Seq<char>>) -> bool {
    forall|k: int| 0 <= k < rows.len() ==> #[trigger] BanEntry::row_ok(rows[k])
}

impl Processor {
    /// Handles a ban-list line: with an empty allowlist nothing is
    /// checked; otherwise every `|`-separated entry is parsed and the
    /// ids of entries banning an allowlisted address are handed back
    /// for deletion.
    pub fn ban_list(line: &str, whitelist_ip: &Vec<String>) -> (r: QueryResult<Vec<i64>>)
        ensures
            whitelist_ip@.len() == 0 ==> r is Ok && r->Ok_0@.len() == 0,
            whitelist_ip@.len() > 0 ==> {
                &&& (r is Ok <==> ban_rows_ok(spec_split(line@, '|')))
                &&& r matches Ok(ids) ==> ids@.map_values(|x: i64| x as int) == spec_ban_dels(
                    spec_split(line@, '|'),
                    string_views(whitelist_ip@),
                )
            },
    {
        if whitelist_ip.len() == 0 {
            return Ok(Vec::new());
        }
        let v = str_to_chars(line);
        let rows = split_chars(v.as_slice(), '|');
        let n: usize = rows.len();
        let ghost all = spec_split(line@, '|');
        let ghost allow = string_views(whitelist_ip@);
        let mut out: Vec<i64> = Vec::new();
        let mut i: usize = 0;
        proof {
            assert(all.skip(0) =~= all);
            assert(out@.map_values(|x: i64| x as int) =~= Seq::<int>::empty());
        }
        while i < n
            invariant
                i <= n,
                n == all.len(),
                all == spec_split(line@, '|'),
                allow == string_views(whitelist_ip@),
                whitelist_ip@.len() > 0,
                seq_views(rows@) == all,
                forall|k: int| 0 <= k < i ==> #[trigger] BanEntry::row_ok(all[k]),
                out@.map_values(|x: i64| x as int) + spec_ban_dels(all.skip(i as int), allow)
                    == spec_ban_dels(all, allow),
            decreases n - i,
        {
            proof {
                assert(all.skip(i as int)[0] == all[i as int]);
                assert(all[i as int] == rows@[i as int]@);
                assert(all.skip(i as int).skip(1) =~= all.skip(i as int + 1));
            }
            let rstr = crate::strutil::chars_to_string(rows[i].as_slice());
            let entry = match BanEntry::from_query(rstr.as_str()) {
                Option::Some(e) => e,
                Option::None => {
                    return Err(
                        QueryError::from_transport(String::from_str("Malformed ban entry.")),
                    );
                },
            };
            let mut matched = false;
            let ev = str_to_chars(entry.ip());
            let m: usize = whitelist_ip.len();
            let mut j: usize = 0;
            while j < m
                invariant
                    j <= m,
                    m == whitelist_ip@.len(),
                    allow == string_views(whitelist_ip@),
                    ev@ == entry@.ip,
                    matched == exists|q: int| 0 <= q < j && allow[q] == entry@.ip,
                decreases m - j,
            {
                let wv = str_to_chars(whitelist_ip[j].as_str());
                if chars_eq(wv.as_slice(), ev.as_slice()) {
                    proof {
                        assert(allow[j as int] == entry@.ip);
                    }
                    matched = true;
                }
                j = j + 1;
            }
            proof {
                assert(matched == allow.contains(entry@.ip));
            }
            if matched {
                out.push(entry.ban_id());
            }
            i = i + 1;
            proof {
                assert(out@.map_values(|x: i64| x as int) + spec_ban_dels(all.skip(i as int), allow)
                    =~= spec_ban_dels(all, allow));
            }
        }
        proof {
            assert(all.skip(i as int) =~= Seq::<Seq<char>>::empty());
            assert(out@.map_values(|x: i64| x as int) =~= spec_ban_dels(all, allow));
        }
        Ok(out)
    }
}

} // verus!
