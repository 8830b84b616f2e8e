use std::collections::HashMap;
use ts_agent::commands::{
    add_channel_permission_command, ban_del_command, change_nickname_command,
    client_get_dbid_command, create_channel_command, login_command, move_client_command,
    response_complete, select_server_command, send_text_message_command,
    set_client_channel_group_command, who_am_i_command,
};
use ts_agent::configure::{Config, Message, Misc, MutePorter, Numbers, Permission, RawQuery, Server, Telegram};
use ts_agent::hypervisor::{
    connection_retries, keepalive_request, on_shutdown_signal, should_retry_connect,
    terminate_request, ShutdownAction, ShutdownStage, FORCE_EXIT_CODE, KEEPALIVE_INTERVAL_SECS,
};
use ts_agent::observer::{
    build_roster, classify_line, on_private_request, LeftOutcome, LineKind, ObserverReaction,
    PrivateMessageRequest, Processor, RosterEntry,
};
use ts_agent::types::{Client, ClientInfo, FromQueryString};

#[test]
fn command_lines_are_exact() {
    assert_eq!(login_command("admin", "SECRET-REDACTED"), "login admin SECRET-REDACTED\n\r");
    assert_eq!(select_server_command(2), "use 2\n\r");
    assert_eq!(who_am_i_command(), "whoami\n\r");
    assert_eq!(move_client_command(8, 321), "clientmove clid=8 cid=321\n\r");
    assert_eq!(
        send_text_message_command(8, "you moved / ok"),
        "sendtextmessage targetmode=1 target=8 msg=you\\smoved\\s\\/\\sok\n\r",
    );
    assert_eq!(
        create_channel_command("alice's channel", 10),
        "channelcreate channel_name=alice's\\schannel cpid=10 channel_codec_quality=6\n\r",
    );
    assert_eq!(
        set_client_channel_group_command(5, 555, 7),
        "setclientchannelgroup cgid=7 cid=555 cldbid=5\n\r",
    );
    assert_eq!(
        add_channel_permission_command(555, &[(133, 75)]),
        "channeladdperm cid=555 permid=133 permvalue=75\n\r",
    );
    assert_eq!(
        add_channel_permission_command(555, &[(133, 75), (200, 50)]),
        "channeladdperm cid=555 permid=133 permvalue=75\n\r|permid=200 permvalue=50\n\r",
    );
    assert_eq!(change_nickname_command("auto channel"), "clientupdate client_nickname=auto\\schannel\n\r");
    assert_eq!(client_get_dbid_command("uid="), "clientgetdbidfromuid cluid=uid=\n\r");
    assert_eq!(ban_del_command(12), "bandel banid=12\n\r");
}

#[test]
fn framing_detects_complete_responses() {
    // a short read always completes the response
    assert!(response_complete("anything", 100, 512));
    // a full read needs the status marker and the terminator
    assert!(response_complete("row\nerror id=0 msg=ok\n\r", 512, 512));
    assert!(!response_complete("row\nerror id=0 msg=ok", 512, 512));
    assert!(!response_complete("row only\n\r", 512, 512));
}

#[test]
fn classification_rules() {
    assert_eq!(classify_line("notifycliententerview clid=3", true), LineKind::Enter);
    assert_eq!(classify_line("notifyclientleftview clid=3", true), LineKind::Left);
    assert_eq!(classify_line("notifyclientmoved ctid=5 clid=3", true), LineKind::Moved);
    assert_eq!(classify_line("notifyclientmoved ctid=5 clid=3", false), LineKind::Other);
    assert_eq!(classify_line("notifytextmessage msg=hello", true), LineKind::Text);
    assert_eq!(classify_line("notifytextmessage msg=hello", false), LineKind::Other);
    assert_eq!(classify_line("banid=5 ip=1.2.3.4", true), LineKind::BanList);
    assert_eq!(classify_line("virtualserver_status=online", true), LineKind::Status);
    assert_eq!(classify_line("something else", true), LineKind::Other);
}

#[test]
fn enter_and_left_maintain_roster() {
    let mut roster: HashMap<i64, RosterEntry> = HashMap::new();
    let ignore: Vec<String> = vec!["ignored_uid=".to_string()];
    let out = Processor::user_enter(
        "notifycliententerview clid=3 ctid=10 client_nickname=carol client_unique_identifier=carol_uid= client_country=SE",
        &ignore,
        &mut roster,
    )
    .unwrap();
    assert!(!out.filtered);
    assert_eq!(out.view.client_nickname(), "carol");
    assert_eq!(roster.get(&3).unwrap().nickname(), "carol");

    // a query identity is recorded but filtered
    let out = Processor::user_enter(
        "notifycliententerview clid=4 ctid=1 client_nickname=serveradmin client_unique_identifier=ServerQuery client_country=",
        &ignore,
        &mut roster,
    )
    .unwrap();
    assert!(out.filtered);

    // an ignored identity is filtered too
    let out = Processor::user_enter(
        "notifycliententerview clid=5 ctid=1 client_nickname=bot client_unique_identifier=ignored_uid= client_country=",
        &ignore,
        &mut roster,
    )
    .unwrap();
    assert!(out.filtered);

    // an ordinary user leaving is reported with the roster nickname
    match Processor::user_left("notifyclientleftview clid=3 reasonid=8", &mut roster).unwrap() {
        LeftOutcome::User(view, nickname) => {
            assert_eq!(view.client_id(), 3);
            assert_eq!(view.reason_id(), 8);
            assert_eq!(nickname, "carol");
        },
        other => panic!("expected a user departure, got {:?}", other),
    }
    assert!(!roster.contains_key(&3));

    // a filtered identity leaving stays silent and on the roster
    match Processor::user_left("notifyclientleftview clid=4", &mut roster).unwrap() {
        LeftOutcome::Filtered => {},
        other => panic!("expected a filtered departure, got {:?}", other),
    }
    assert!(roster.contains_key(&4));

    // an unknown client leaving is a no-op
    match Processor::user_left("notifyclientleftview clid=77", &mut roster).unwrap() {
        LeftOutcome::Unknown => {},
        other => panic!("expected an unknown departure, got {:?}", other),
    }
}

#[test]
fn left_reason_defaults_to_disconnect() {
    let mut roster: HashMap<i64, RosterEntry> = HashMap::new();
    let ignore: Vec<String> = Vec::new();
    Processor::user_enter(
        "notifycliententerview clid=9 ctid=1 client_nickname=dan client_unique_identifier=dan= client_country=DE",
        &ignore,
        &mut roster,
    )
    .unwrap();
    match Processor::user_left("notifyclientleftview clid=9", &mut roster).unwrap() {
        LeftOutcome::User(view, _) => assert_eq!(view.reason_id(), 8),
        other => panic!("expected a user departure, got {:?}", other),
    }
}

#[test]
fn startup_roster_skips_query_identities() {
    let clients = vec![
        Client::new(1, 3, 5, 0, "carol".to_string()),
        Client::new(1, 4, 6, 1, "serveradmin".to_string()),
        Client::new(2, 5, 7, 0, "dave".to_string()),
    ];
    let roster = build_roster(&clients);
    assert_eq!(roster.len(), 2);
    assert_eq!(roster.get(&3).unwrap().nickname(), "carol");
    assert!(!roster.get(&5).unwrap().is_filtered());
    assert!(!roster.contains_key(&4));
}

#[test]
fn reset_command_detected_exactly() {
    let hit = Processor::user_text(
        "notifytextmessage msg=!reset invokerid=8 invokername=alice invokeruid=alice_uid=",
    )
    .unwrap();
    assert_eq!(hit, Some((8, "alice_uid=".to_string())));
    let miss = Processor::user_text("notifytextmessage msg=hello invokerid=8").unwrap();
    assert!(miss.is_none());
    // escaped content must be unescaped before the comparison
    let escaped = Processor::user_text("notifytextmessage msg=!reset\\snow invokerid=8").unwrap();
    assert!(escaped.is_none());
}

#[test]
fn ban_list_honors_allowlist() {
    let allow = vec!["114.5.1.4".to_string()];
    let ids = Processor::ban_list(
        "banid=5 ip=9.9.9.9 reason=x|banid=12 ip=114.5.1.4 reason=Spam",
        &allow,
    )
    .unwrap();
    assert_eq!(ids, vec![12]);
    // an empty allowlist checks nothing
    let none = Processor::ban_list("banid=5 ip=9.9.9.9", &Vec::new()).unwrap();
    assert!(none.is_empty());
}

#[test]
fn queue_requests_drive_the_observer() {
    match on_private_request(PrivateMessageRequest::Message(8, "hi".to_string())) {
        ObserverReaction::SendText(clid, msg) => {
            assert_eq!(clid, 8);
            assert_eq!(msg, "hi");
        },
        other => panic!("expected a send, got {:?}", other),
    }
    assert!(matches!(
        on_private_request(PrivateMessageRequest::KeepAlive),
        ObserverReaction::ProbeLiveness
    ));
    assert!(matches!(
        on_private_request(PrivateMessageRequest::Terminate),
        ObserverReaction::Shutdown
    ));
}

#[test]
fn shutdown_escalation() {
    // the first signal requests graceful termination of every session
    let (stage, action) = on_shutdown_signal(ShutdownStage::Running);
    assert_eq!(stage, ShutdownStage::Graceful);
    assert_eq!(action, ShutdownAction::EmitTerminate);
    // the terminate request reaches the observer queue and means logout
    assert!(matches!(terminate_request(), PrivateMessageRequest::Terminate));
    assert!(matches!(
        on_private_request(terminate_request()),
        ObserverReaction::Shutdown
    ));
    // a second signal, before the first completes, forces an exit
    let (stage, action) = on_shutdown_signal(stage);
    assert_eq!(stage, ShutdownStage::Forced);
    assert_eq!(action, ShutdownAction::ForceExit);
    assert_eq!(FORCE_EXIT_CODE, 137);
}

#[test]
fn supervisor_policy() {
    assert_eq!(connection_retries(true), 3);
    assert_eq!(connection_retries(false), 1);
    assert!(should_retry_connect(true, 1));
    assert!(!should_retry_connect(true, 3));
    assert!(!should_retry_connect(false, 0));
    assert!(matches!(keepalive_request(), PrivateMessageRequest::KeepAlive));
    assert_eq!(KEEPALIVE_INTERVAL_SECS, 30);
}

fn sample_config() -> Config {
    let server = Server::new(
        None,
        Numbers::Multiple(vec![10, 20]),
        7,
        None,
        Some("./level.db".to_string()),
        Some(vec!["ignored_uid=".to_string()]),
        Some(vec!["114.5.1.4".to_string()]),
        None,
    );
    let perms = vec![
        Permission::new(Numbers::Single(10), vec![(200, 50)]),
        Permission::new(Numbers::Multiple(vec![20, 30]), vec![(201, 60)]),
    ];
    Config::new(
        server,
        Misc::new(None, Some(true)),
        MutePorter::new(true, 40, 41, vec![6]),
        Some(Message::new(None)),
        Some(perms),
        Telegram::new("123:token".to_string(), None, 99),
        RawQuery::new(None, None, "admin".to_string(), "pw".to_string()),
        Vec::new(),
    )
}

#[test]
fn config_defaults_and_id() {
    let c = sample_config();
    assert_eq!(c.raw_query().server(), "127.0.0.1");
    assert_eq!(c.raw_query().port(), 10011);
    assert_eq!(c.server().server_id(), 1);
    assert_eq!(c.server().channels(), vec![10, 20]);
    assert_eq!(c.misc().interval(), 5);
    assert!(c.misc().systemd());
    assert_eq!(c.message().move_to_channel(), "You have been moved into your channel.");
    assert_eq!(c.telegram().api_server(), "https://api.telegram.org/");
    // loopback addresses are hidden from the identity token
    assert_eq!(c.get_id(), ":10011(1)");
    assert_eq!(Config::parse_server("example.org"), "example.org");
    assert_eq!(Config::parse_server("localhost"), "");
}

#[test]
fn config_permission_tables() {
    let c = sample_config();
    let m = c.channel_permissions();
    assert_eq!(m.len(), 3);
    assert_eq!(m.get(&10).unwrap(), &vec![(200u64, 50i64)]);
    assert_eq!(m.get(&20).unwrap(), &vec![(201u64, 60i64)]);
    assert_eq!(m.get(&30).unwrap(), &vec![(201u64, 60i64)]);
}

#[test]
fn config_digest_is_stable_hex() {
    let a = Config::config_xxhash(b"example.org:10011(1)");
    let b = Config::config_xxhash(b"example.org:10011(1)");
    let c = Config::config_xxhash(b"other:10011(1)");
    assert_eq!(a, b);
    assert_ne!(a, c);
    assert!(a.len() >= 8);
    assert!(a.chars().all(|ch| ch.is_ascii_hexdigit() && !ch.is_ascii_uppercase()));
    // the digest of the empty input is a published constant of the algorithm
    assert_eq!(Config::config_xxhash(b""), "2d06800538d394c2");
}

#[test]
fn mute_porter_decision() {
    let porter = MutePorter::new(true, 40, 41, vec![6]);
    let muted = ClientInfo::from_query(
        "client_input_muted=1 client_output_muted=0 client_input_hardware=1 client_output_hardware=1 client_away=0 client_idle_time=0",
    )
    .unwrap();
    let active = ClientInfo::from_query(
        "client_input_muted=0 client_output_muted=0 client_input_hardware=1 client_output_hardware=1 client_away=0 client_idle_time=1000",
    )
    .unwrap();
    let idle = ClientInfo::from_query(
        "client_input_muted=0 client_output_muted=0 client_input_hardware=1 client_output_hardware=1 client_away=0 client_idle_time=301000",
    )
    .unwrap();
    let in_watched = Client::new(40, 8, 5, 0, "alice".to_string());
    assert!(porter.should_port(&in_watched, &muted));
    assert!(porter.should_port(&in_watched, &idle));
    assert!(!porter.should_port(&in_watched, &active));
    // allowlisted database id is never moved
    let allowlisted = Client::new(40, 9, 6, 0, "bob".to_string());
    assert!(!porter.should_port(&allowlisted, &muted));
    // elsewhere, or a query identity, is not the porter's business
    assert!(!porter.should_port(&Client::new(2, 8, 5, 0, "alice".to_string()), &muted));
    assert!(!porter.should_port(&Client::new(40, 8, 5, 1, "q".to_string()), &muted));
    assert!(porter.check_whitelist(6));
    assert!(!porter.check_whitelist(5));
    assert_eq!(porter.monitor_channel(), 40);
    assert_eq!(porter.target_channel(), 41);
    assert!(porter.enable());
}
