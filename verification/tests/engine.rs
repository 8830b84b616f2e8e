use std::collections::HashMap;
use ts_agent::auto_channel::{
    build_redis_key, initial_channel_name, AutoChannelEngine, EngineAction, UserTurn,
};
use ts_agent::response::decode_status_with_result;
use ts_agent::types::{Client, CreateChannel, FromQueryString, QueryError, QueryResult, QueryStatus, WhoAmI};

fn engine() -> AutoChannelEngine {
    let mut perms: HashMap<i64, Vec<(u64, i64)>> = HashMap::new();
    perms.insert(10, vec![(200, 50)]);
    AutoChannelEngine::new(
        vec![10, 20],
        7,
        perms,
        "You have been moved into your channel.".to_string(),
        "srv1".to_string(),
        &WhoAmI::new(99, 42),
    )
}

fn user(channel: i64) -> Client {
    Client::new(channel, 8, 5, 0, "alice".to_string())
}

fn err(code: i32) -> QueryError {
    QueryStatus::new(code, "err".to_string()).into_err()
}

fn created(cid: i64) -> QueryResult<Option<CreateChannel>> {
    let row = format!("cid={}", cid);
    Ok(Some(CreateChannel::from_query(&row).unwrap()))
}

#[test]
fn key_and_name_building() {
    assert_eq!(build_redis_key(5, "srv1", 10), "ts_autochannel_5_srv1_10");
    assert_eq!(initial_channel_name("alice"), "alice's channel");
}

#[test]
fn turn_begins_only_for_monitored_users() {
    let e = engine();
    assert!(e.turn_begin(&user(10)).is_some());
    assert!(e.turn_begin(&user(20)).is_some());
    // unmonitored channel
    assert!(e.turn_begin(&user(30)).is_none());
    // the bot itself
    assert!(e.turn_begin(&Client::new(10, 99, 42, 0, "bot".to_string())).is_none());
    // a query identity
    assert!(e.turn_begin(&Client::new(10, 12, 6, 1, "query".to_string())).is_none());
}

#[test]
fn existing_mapping_moves_without_create() {
    let e = engine();
    let turn = e.turn_begin(&user(10)).unwrap();
    match e.turn_action(&turn) {
        Some(EngineAction::KvGet(k)) => assert_eq!(k, "ts_autochannel_5_srv1_10"),
        other => panic!("expected mapping lookup, got {:?}", other),
    }
    let turn = e.on_mapping(turn, &Some("321".to_string()));
    match e.turn_action(&turn) {
        Some(EngineAction::MoveClient(clid, target)) => {
            assert_eq!(clid, 8);
            assert_eq!(target, 321);
        },
        other => panic!("expected move, got {:?}", other),
    }
    let turn = e.on_move_reply(turn, &Ok(()));
    match e.turn_action(&turn) {
        Some(EngineAction::SendMessage(clid, msg)) => {
            assert_eq!(clid, 8);
            assert_eq!(msg, "You have been moved into your channel.");
        },
        other => panic!("expected notice, got {:?}", other),
    }
    let turn = e.after_notify(turn);
    assert!(turn.is_done());
    assert!(!turn.needs_repoll());
}

/// Drives one full creation turn; returns the creation names issued and
/// whether the mapping was persisted.
fn drive_create_turn(
    e: &AutoChannelEngine,
    kv: &mut HashMap<String, String>,
    client: &Client,
    collisions: usize,
    new_cid: i64,
) -> Vec<String> {
    let mut creates: Vec<String> = Vec::new();
    let mut turn = e.turn_begin(client).unwrap();
    let key = match e.turn_action(&turn) {
        Some(EngineAction::KvGet(k)) => k,
        other => panic!("expected lookup, got {:?}", other),
    };
    let found = kv.get(&key).cloned();
    turn = e.on_mapping(turn, &found);
    if found.is_some() {
        // mapped: a move follows, never a creation
        match e.turn_action(&turn) {
            Some(EngineAction::MoveClient(..)) => {},
            other => panic!("expected move, got {:?}", other),
        }
        turn = e.on_move_reply(turn, &Ok(()));
        turn = e.after_notify(turn);
        assert!(turn.is_done());
        return creates;
    }
    let mut remaining = collisions;
    loop {
        match e.turn_action(&turn) {
            Some(EngineAction::CreateChannel(name, parent)) => {
                assert_eq!(parent, client.channel_id());
                creates.push(name);
                if remaining > 0 {
                    remaining -= 1;
                    turn = e.on_create_reply(turn, &Err(err(771)));
                } else {
                    turn = e.on_create_reply(turn, &created(new_cid));
                    break;
                }
            },
            other => panic!("expected creation, got {:?}", other),
        }
    }
    match e.turn_action(&turn) {
        Some(EngineAction::SetChannelGroup(dbid, channel, group)) => {
            assert_eq!(dbid, client.client_database_id());
            assert_eq!(channel, new_cid);
            assert_eq!(group, 7);
        },
        other => panic!("expected group grant, got {:?}", other),
    }
    turn = e.after_grant(turn);
    match e.turn_action(&turn) {
        Some(EngineAction::AddChannelPermission(channel, perms)) => {
            assert_eq!(channel, new_cid);
            assert_eq!(perms, vec![(133u64, 75i64)]);
        },
        other => panic!("expected baseline permission, got {:?}", other),
    }
    turn = e.after_default_permission(turn);
    turn = drive_tail(e, kv, turn, client, new_cid, &key);
    assert!(turn.is_done());
    creates
}

fn drive_tail(
    e: &AutoChannelEngine,
    kv: &mut HashMap<String, String>,
    mut turn: UserTurn,
    client: &Client,
    new_cid: i64,
    key: &str,
) -> UserTurn {
    // the origin channel 10 carries a configured permission table
    if client.channel_id() == 10 {
        match e.turn_action(&turn) {
            Some(EngineAction::AddChannelPermission(channel, perms)) => {
                assert_eq!(channel, new_cid);
                assert_eq!(perms, vec![(200u64, 50i64)]);
            },
            other => panic!("expected configured permission, got {:?}", other),
        }
        turn = e.after_custom_permission(turn);
    }
    match e.turn_action(&turn) {
        Some(EngineAction::MoveClient(clid, channel)) => {
            assert_eq!(clid, client.client_id());
            assert_eq!(channel, new_cid);
        },
        other => panic!("expected user move, got {:?}", other),
    }
    turn = e.on_move_reply(turn, &Ok(()));
    match e.turn_action(&turn) {
        Some(EngineAction::SendMessage(..)) => {},
        other => panic!("expected notice, got {:?}", other),
    }
    turn = e.after_notify(turn);
    match e.turn_action(&turn) {
        Some(EngineAction::MoveClient(bot, origin)) => {
            assert_eq!(bot, 99);
            assert_eq!(origin, client.channel_id());
        },
        other => panic!("expected bot move out, got {:?}", other),
    }
    turn = e.on_move_self_out(turn, true);
    match e.turn_action(&turn) {
        Some(EngineAction::KvSet(k, v)) => {
            assert_eq!(k, key);
            assert_eq!(v, new_cid.to_string());
            kv.insert(k, v);
        },
        other => panic!("expected persist, got {:?}", other),
    }
    e.on_persist(turn, true)
}

#[test]
fn collision_retry_names() {
    let e = engine();
    let mut kv: HashMap<String, String> = HashMap::new();
    let creates = drive_create_turn(&e, &mut kv, &user(10), 2, 555);
    assert_eq!(
        creates,
        vec![
            "alice's channel".to_string(),
            "alice's channel1".to_string(),
            "alice's channel11".to_string(),
        ],
    );
}

#[test]
fn idempotent_creation_across_cycles() {
    let e = engine();
    let mut kv: HashMap<String, String> = HashMap::new();
    let c = user(10);
    let first = drive_create_turn(&e, &mut kv, &c, 0, 555);
    assert_eq!(first.len(), 1);
    assert_eq!(kv.get("ts_autochannel_5_srv1_10").map(String::as_str), Some("555"));
    // repeated update events for the same user and location
    for _ in 0..3 {
        let again = drive_create_turn(&e, &mut kv, &c, 0, 777);
        assert_eq!(again.len(), 0);
    }
    assert_eq!(kv.get("ts_autochannel_5_srv1_10").map(String::as_str), Some("555"));
}

#[test]
fn stale_mapping_invalidated_then_recreated() {
    let e = engine();
    let c = user(10);
    let mut turn = e.turn_begin(&c).unwrap();
    turn = e.on_mapping(turn, &Some("321".to_string()));
    // the mapped channel is gone: target-not-found
    turn = e.on_move_reply(turn, &Err(err(768)));
    match e.turn_action(&turn) {
        Some(EngineAction::KvDelete(k)) => assert_eq!(k, "ts_autochannel_5_srv1_10"),
        other => panic!("expected mapping deletion, got {:?}", other),
    }
    turn = e.after_invalidate(turn);
    assert!(turn.is_done());
    assert!(turn.needs_repoll());
    // the next poll finds no mapping and attempts creation, not a move
    let turn2 = e.turn_begin(&c).unwrap();
    let turn2 = e.on_mapping(turn2, &None);
    match e.turn_action(&turn2) {
        Some(EngineAction::CreateChannel(name, parent)) => {
            assert_eq!(name, "alice's channel");
            assert_eq!(parent, 10);
        },
        other => panic!("expected creation, got {:?}", other),
    }
}

#[test]
fn move_failure_other_code_aborts_turn() {
    let e = engine();
    let mut turn = e.turn_begin(&user(10)).unwrap();
    turn = e.on_mapping(turn, &Some("321".to_string()));
    turn = e.on_move_reply(turn, &Err(err(512)));
    assert!(turn.is_aborted());
    assert!(e.turn_action(&turn).is_none());
}

#[test]
fn create_failure_other_code_aborts_turn() {
    let e = engine();
    let mut turn = e.turn_begin(&user(10)).unwrap();
    turn = e.on_mapping(turn, &None);
    turn = e.on_create_reply(turn, &Err(err(2568)));
    assert!(turn.is_aborted());
}

#[test]
fn bot_move_out_failure_is_fatal() {
    let e = engine();
    let mut turn = e.turn_begin(&user(20)).unwrap();
    turn = e.on_mapping(turn, &None);
    turn = e.on_create_reply(turn, &created(556));
    turn = e.after_grant(turn);
    turn = e.after_default_permission(turn);
    // channel 20 has no configured table: straight to the user move
    turn = e.on_move_reply(turn, &Ok(()));
    turn = e.after_notify(turn);
    turn = e.on_move_self_out(turn, false);
    assert!(turn.is_failed());
}

#[test]
fn malformed_stored_mapping_recreates() {
    let e = engine();
    let turn = e.turn_begin(&user(10)).unwrap();
    let turn = e.on_mapping(turn, &Some("not a number".to_string()));
    match e.turn_action(&turn) {
        Some(EngineAction::CreateChannel(..)) => {},
        other => panic!("expected creation on malformed mapping, got {:?}", other),
    }
}

#[test]
fn reset_scenario_deletes_two_keys_and_acknowledges_once() {
    let e = engine();
    // invoker uid resolved to database id 5, monitored locations {10, 20}
    let actions = e.handle_delete_resolved(8, 5);
    assert_eq!(actions.len(), 3);
    match &actions[0] {
        EngineAction::KvDelete(k) => assert_eq!(k, "ts_autochannel_5_srv1_10"),
        other => panic!("expected deletion, got {:?}", other),
    }
    match &actions[1] {
        EngineAction::KvDelete(k) => assert_eq!(k, "ts_autochannel_5_srv1_20"),
        other => panic!("expected deletion, got {:?}", other),
    }
    match &actions[2] {
        EngineAction::SendMessage(clid, msg) => {
            assert_eq!(*clid, 8);
            assert_eq!(msg, "Received.");
        },
        other => panic!("expected acknowledgment, got {:?}", other),
    }
}

#[test]
fn keepalive_probe_uses_clientlist_decode() {
    // a keepalive answer decodes like any other single-row response
    let data = "client_id=99 client_database_id=42\nerror id=0 msg=ok\n\r".to_string();
    let rows = decode_status_with_result::<WhoAmI>(data).unwrap().unwrap();
    assert_eq!(rows[0].client_id(), 99);
}
