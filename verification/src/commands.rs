//! Builders for the single-line commands of the query protocol, and
//! the framing predicate that decides when a buffered response is
//! complete.
//!
//! Every command is one line terminated by the fixed two-byte
//! terminator. Free-text fields (names, messages) are escaped; numeric
//! fields are rendered in decimal.

use vstd::prelude::*;
use crate::escape::escape;
use crate::escape::spec_escape;
use crate::strutil::chars_has_suffix;
use crate::strutil::chars_contains;
use crate::strutil::contains_seq;
use crate::strutil::has_suffix;
use crate::strutil::i64_to_string;
use crate::strutil::spec_i64_dec;
use crate::strutil::spec_u64_dec;
use crate::strutil::str_to_chars;
use crate::strutil::u64_to_string;

verus! {

/// The two-byte line terminator every command ends with.
pub open spec fn terminator() -> Seq<char> {
    "\n\r"@
}

/// The login command; credentials travel as given.
pub fn login_command(user: &str, password: &str) -> (r: String)
    ensures
        r@ == "login "@ + user@ + " "@ + password@ + terminator(),
{
    let mut s = String::from_str("login ");
    s.append(user);
    s.append(" ");
    s.append(password);
    s.append("\n\r");
    proof {
        assert(s@ =~= "login "@ + user@ + " "@ + password@ + terminator());
    }
    s
}

/// The command that selects the virtual server to operate on.
pub fn select_server_command(server_id: i64) -> (r: String)
    ensures
        r@ == "use "@ + spec_i64_dec(server_id as int) + terminator(),
{
    let mut s = String::from_str("use ");
    let d = i64_to_string(server_id);
    s.append(d.as_str());
    s.append("\n\r");
    proof {
        assert(s@ =~= "use "@ + spec_i64_dec(server_id as int) + terminator());
    }
    s
}

/// The identity query, also used as the keepalive no-op.
pub fn who_am_i_command() -> (r: String)
    ensures
        r@ == "whoami\n\r"@,
{
    String::from_str("whoami\n\r")
}

/// The full roster query.
pub fn client_list_command() -> (r: String)
    ensures
        r@ == "clientlist\n\r"@,
{
    String::from_str("clientlist\n\r")
}

/// The channel list query.
pub fn channel_list_command() -> (r: String)
    ensures
        r@ == "channellist\n\r"@,
{
    String::from_str("channellist\n\r")
}

/// The server information query.
pub fn server_info_command() -> (r: String)
    ensures
        r@ == "serverinfo\n\r"@,
{
    String::from_str("serverinfo\n\r")
}

/// The ban list query.
pub fn ban_list_command() -> (r: String)
    ensures
        r@ == "banlist\n\r"@,
{
    String::from_str("banlist\n\r")
}

/// The logout command.
pub fn logout_command() -> (r: String)
    ensures
        r@ == "quit\n\r"@,
{
    String::from_str("quit\n\r")
}

/// Registration for server-wide notifications.
pub fn register_server_events_command() -> (r: String)
    ensures
        r@ == "servernotifyregister event=server\n\r"@,
{
    String::from_str("servernotifyregister event=server\n\r")
}

/// Registration for private text message notifications.
pub fn register_text_private_command() -> (r: String)
    ensures
        r@ == "servernotifyregister event=textprivate\n\r"@,
{
    String::from_str("servernotifyregister event=textprivate\n\r")
}

/// Registration for channel membership notifications.
pub fn register_channel_events_command() -> (r: String)
    ensures
        r@ == "servernotifyregister event=channel id=0\n\r"@,
{
    String::from_str("servernotifyregister event=channel id=0\n\r")
}

/// A private text message to one client; the body is escaped.
pub fn send_text_message_command(client_id: i64, text: &str) -> (r: String)
    ensures
        r@ == "sendtextmessage targetmode=1 target="@ + spec_i64_dec(client_id as int) + " msg="@
            + spec_escape(text@) + terminator(),
{
    let mut s = String::from_str("sendtextmessage targetmode=1 target=");
    let d = i64_to_string(client_id);
    s.append(d.as_str());
    s.append(" msg=");
    let e = escape(text);
    s.append(e.as_str());
    s.append("\n\r");
    proof {
        assert(s@ =~= "sendtextmessage targetmode=1 target="@ + spec_i64_dec(client_id as int)
            + " msg="@ + spec_escape(text@) + terminator());
    }
    s
}

/// Creation of a channel under a parent; the name is escaped.
pub fn create_channel_command(name: &str, pid: i64) -> (r: String)
    ensures
        r@ == "channelcreate channel_name="@ + spec_escape(name@) + " cpid="@ + spec_i64_dec(
            pid as int,
        ) + " channel_codec_quality=6\n\r"@,
{
    let mut s = String::from_str("channelcreate channel_name=");
    let e = escape(name);
    s.append(e.as_str());
    s.append(" cpid=");
    let d = i64_to_string(pid);
    s.append(d.as_str());
    s.append(" channel_codec_quality=6\n\r");
    proof {
        assert(s@ =~= "channelcreate channel_name="@ + spec_escape(name@) + " cpid="@
            + spec_i64_dec(pid as int) + " channel_codec_quality=6\n\r"@);
    }
    s
}

/// Movement of a client into a channel.
pub fn move_client_command(client_id: i64, target_channel: i64) -> (r: String)
    ensures
        r@ == "clientmove clid="@ + spec_i64_dec(client_id as int) + " cid="@ + spec_i64_dec(
            target_channel as int,
        ) + terminator(),
{
    let mut s = String::from_str("clientmove clid=");
    let d = i64_to_string(client_id);
    s.append(d.as_str());
    s.append(" cid=");
    let t = i64_to_string(target_channel);
    s.append(t.as_str());
    s.append("\n\r");
    proof {
        assert(s@ =~= "clientmove clid="@ + spec_i64_dec(client_id as int) + " cid="@
            + spec_i64_dec(target_channel as int) + terminator());
    }
    s
}

/// Grant of a channel group to a client on one channel.
pub fn set_client_channel_group_command(
    client_database_id: i64,
    channel_id: i64,
    group_id: i64,
) -> (r: String)
    ensures
        r@ == "setclientchannelgroup cgid="@ + spec_i64_dec(group_id as int) + " cid="@
            + spec_i64_dec(channel_id as int) + " cldbid="@ + spec_i64_dec(
            client_database_id as int,
        ) + terminator(),
{
    let mut s = String::from_str("setclientchannelgroup cgid=");
    let g = i64_to_string(group_id);
    s.append(g.as_str());
    s.append(" cid=");
    let c = i64_to_string(channel_id);
    s.append(c.as_str());
    s.append(" cldbid=");
    let d = i64_to_string(client_database_id);
    s.append(d.as_str());
    s.append("\n\r");
    proof {
        assert(s@ =~= "setclientchannelgroup cgid="@ + spec_i64_dec(group_id as int) + " cid="@
            + spec_i64_dec(channel_id as int) + " cldbid="@ + spec_i64_dec(
            client_database_id as int,
        ) + terminator());
    }
    s
}

/// One `permid=... permvalue=...` chunk of a permission grant, with the
/// terminator the reference wire format places after each chunk.
pub open spec fn spec_perm_chunk(p: (u64, i64)) -> Seq<char> {
    "permid="@ + spec_u64_dec(p.0 as nat) + " permvalue="@ + spec_i64_dec(p.1 as int)
        + terminator()
}

/// The chunks of a permission list, joined by `|`.
pub open spec fn spec_perm_chunks(perms: Seq<(u64, i64)>) -> Seq<char>
    decreases perms.len(),
{
    if perms.len() == 0 {
        Seq::empty()
    } else if perms.len() == 1 {
        spec_perm_chunk(perms[0])
    } else {
        spec_perm_chunk(perms[0]) + "|"@ + spec_perm_chunks(perms.skip(1))
    }
}

/// Application of a permission table to one channel.
pub fn add_channel_permission_command(target_channel: i64, permissions: &[(u64, i64)]) -> (r:
    String)
    ensures
        r@ == "channeladdperm cid="@ + spec_i64_dec(target_channel as int) + " "@
            + spec_perm_chunks(permissions@),
{
    let mut s = String::from_str("channeladdperm cid=");
    let c = i64_to_string(target_channel);
    s.append(c.as_str());
    s.append(" ");
    let ghost head = "channeladdperm cid="@ + spec_i64_dec(target_channel as int) + " "@;
    proof {
        assert(s@ =~= head);
        assert(permissions@.skip(0) =~= permissions@);
    }
    let n: usize = permissions.len();
    let mut i: usize = 0;
    while i < n
        invariant
            i <= n,
            n == permissions@.len(),
            head == "channeladdperm cid="@ + spec_i64_dec(target_channel as int) + " "@,
            s@ + spec_perm_chunks(permissions@.skip(i as int)) == head + spec_perm_chunks(
                permissions@,
            ),
        decreases n - i,
    {
        let (k, val) = permissions[i];
        let kd = u64_to_string(k);
        let vd = i64_to_string(val);
        s.append("permid=");
        s.append(kd.as_str());
        s.append(" permvalue=");
        s.append(vd.as_str());
        s.append("\n\r");
        proof {
            assert(permissions@.skip(i as int)[0] == permissions@[i as int]);
            assert(permissions@.skip(i as int).skip(1) =~= permissions@.skip(i as int + 1));
        }
        if i + 1 < n {
            s.append("|");
        }
        i = i + 1;
        proof {
            assert(s@ + spec_perm_chunks(permissions@.skip(i as int)) =~= head + spec_perm_chunks(
                permissions@,
            ));
        }
    }
    proof {
        assert(permissions@.skip(n as int) =~= Seq::<(u64, i64)>::empty());
        assert(s@ =~= head + spec_perm_chunks(permissions@));
    }
    s
}

/// Change of the connection's own display name; escaped.
pub fn change_nickname_command(nickname: &str) -> (r: String)
    ensures
        r@ == "clientupdate client_nickname="@ + spec_escape(nickname@) + terminator(),
{
    let mut s = String::from_str("clientupdate client_nickname=");
    let e = escape(nickname);
    s.append(e.as_str());
    s.append("\n\r");
    proof {
        assert(s@ =~= "clientupdate client_nickname="@ + spec_escape(nickname@) + terminator());
    }
    s
}

/// Resolution of a protocol unique id to a database id.
pub fn client_get_dbid_command(uid: &str) -> (r: String)
    ensures
        r@ == "clientgetdbidfromuid cluid="@ + uid@ + terminator(),
{
    let mut s = String::from_str("clientgetdbidfromuid cluid=");
    s.append(uid);
    s.append("\n\r");
    proof {
        assert(s@ =~= "clientgetdbidfromuid cluid="@ + uid@ + terminator());
    }
    s
}

/// The detailed-information query for one client.
pub fn client_info_command(client_id: i64) -> (r: String)
    ensures
        r@ == "clientinfo clid="@ + spec_i64_dec(client_id as int) + terminator(),
{
    let mut s = String::from_str("clientinfo clid=");
    let d = i64_to_string(client_id);
    s.append(d.as_str());
    s.append("\n\r");
    proof {
        assert(s@ =~= "clientinfo clid="@ + spec_i64_dec(client_id as int) + terminator());
    }
    s
}

/// Removal of one ban list entry.
pub fn ban_del_command(ban_id: i64) -> (r: String)
    ensures
        r@ == "bandel banid="@ + spec_i64_dec(ban_id as int) + terminator(),
{
    let mut s = String::from_str("bandel banid=");
    let d = i64_to_string(ban_id);
    s.append(d.as_str());
    s.append("\n\r");
    proof {
        assert(s@ =~= "bandel banid="@ + spec_i64_dec(ban_id as int) + terminator());
    }
    s
}

/// Whether a buffered response is complete: either the last read fell
/// short of the buffer (no more data pending), or the buffer already
/// holds the status marker and ends with the terminator. Responses are
/// not length-prefixed, so this is the only way to frame them.
pub fn response_complete(buffer: &str, last_read: usize, read_capacity: usize) -> (r: bool)
    ensures
        r == (last_read < read_capacity || (contains_seq(buffer@, "error id="@) && has_suffix(
            buffer@,
            terminator(),
        ))),
{
    if last_read < read_capacity {
        return true;
    }
    let v = str_to_chars(buffer);
    let marker = str_to_chars("error id=");
    let term = str_to_chars("\n\r");
    proof {
        reveal_strlit("error id=");
        reveal_strlit("\n\r");
    }
    chars_contains(v.as_slice(), marker.as_slice()) && chars_has_suffix(
        v.as_slice(),
        term.as_slice(),
    )
}

} // verus!
