use ts_agent::escape::{escape, unescape};
use ts_agent::response::{decode_status, decode_status_with_result, decode_single};
use ts_agent::strutil::{i64_to_string, parse_i64, str_to_chars, u64_to_hex_pad, u64_to_string};
use ts_agent::types::{BanEntry, Client, FromQueryString, QueryStatus, QueryError, WhoAmI};
use ts_agent::types::{EMPTY_RESPONSE_CODE, TRANSPORT_ERROR_CODE};

const TEST_STRING: &str = "clid=8 cid=1 client_database_id=1 client_nickname=serveradmin client_type=1 client_unique_identifier=serveradmin";

#[test]
fn datastructures_test() {
    let result = Client::from_query(TEST_STRING).unwrap();
    assert_eq!(result.client_id(), 8);
    assert_eq!(result.channel_id(), 1);
    assert_eq!(result.client_database_id(), 1);
    assert_eq!(result.client_nickname(), "serveradmin".to_string());
    assert_eq!(result.client_type(), 1);
    assert_eq!(result.client_unique_identifier(), "1".to_string());
}

#[test]
fn types_test() {
    let result = Client::from_query(TEST_STRING).unwrap();
    assert_eq!(result.client_id(), 8);
    assert_eq!(result.channel_id(), 1);
    assert_eq!(result.client_database_id(), 1);
    assert_eq!(result.client_nickname(), "serveradmin".to_string());
    assert_eq!(result.client_type(), 1);
}

const BAN_TEST_STRING: &str = r#"banid=5 ip name uid=953jm1Ez3CvbAx7FKzb19zAQm48= mytsid
        lastnickname=باب created=1541834015 duration=0 invokername=AdminUser invokercldbid=2
        invokeruid=QuietTeamspeak= reason enforcements=0|banid=6 ip=1.1.1.1
        name uid mytsid lastnickname=باب created=1541834015 duration=0 invokername=AdminUser
        invokercldbid=2 invokeruid=QuietTeamspeak= reason enforcements=0|banid=12
        ip=114.5.1.4 name uid=+1145141919810 mytsid
        lastnickname=!\s\s\s\s\s\s\s\s\s\s\s\s\s\sValidname created=1549729305 duration=0
        invokername=AdminUser invokercldbid=2 invokeruid=QuietTeamspeak=
        reason=Spam enforcements=0"#;

#[test]
fn ban_entry_test() {
    BAN_TEST_STRING
        .split('|')
        .map(|s| BanEntry::from_query(s))
        .for_each(|entry| drop(entry));
}

#[test]
fn ban_entry_fields() {
    let entry = BanEntry::from_query("banid=12 ip=114.5.1.4 reason=Spam invokername=AdminUser invokeruid=QuietTeamspeak=").unwrap();
    assert_eq!(entry.ban_id(), 12);
    assert_eq!(entry.ip(), "114.5.1.4");
    assert_eq!(entry.reason(), "Spam");
    assert_eq!(entry.invoker_name(), "AdminUser");
    assert_eq!(entry.invoker_uid(), "QuietTeamspeak=");
}

#[test]
fn escape_basic() {
    assert_eq!(escape("a b/c\\d"), "a\\sb\\/c\\\\d");
    assert_eq!(unescape("a\\sb\\/c\\\\d"), "a b/c\\d");
    assert_eq!(escape(""), "");
    assert_eq!(unescape(""), "");
}

#[test]
fn escape_round_trip() {
    let cases = ["plain", "with space", "a/b", "back\\slash", " \\/ mixed / all \\s"];
    for x in cases {
        let once = escape(x);
        let again = escape(&unescape(&once));
        assert_eq!(again, once);
    }
}

#[test]
fn two_records_decode_in_order() {
    let data = "clid=1 cid=10 client_database_id=5 client_type=0 client_nickname=alice|clid=2 cid=10 client_database_id=6 client_type=0 client_nickname=bob\nerror id=0 msg=ok\n\r".to_string();
    let rows = decode_status_with_result::<Client>(data).unwrap().unwrap();
    assert_eq!(rows.len(), 2);
    assert_eq!(rows[0].client_id(), 1);
    assert_eq!(rows[0].client_nickname(), "alice");
    assert_eq!(rows[1].client_id(), 2);
    assert_eq!(rows[1].client_nickname(), "bob");
}

#[test]
fn nonzero_status_decodes_to_error() {
    let data = "error id=771 msg=channel\\sname\\sis\\salready\\sin\\suse\n\r".to_string();
    let err = decode_status_with_result::<Client>(data).unwrap_err();
    assert_eq!(err.code(), 771);
    assert_eq!(err.message(), "channel name is already in use");
}

#[test]
fn missing_status_is_empty_response() {
    let data = "clid=1 cid=10 client_database_id=5 client_type=0 client_nickname=alice".to_string();
    let err = decode_status_with_result::<Client>(data).unwrap_err();
    assert_eq!(err.code(), EMPTY_RESPONSE_CODE);
    let err2 = decode_status(String::new()).unwrap_err();
    assert_eq!(err2.code(), EMPTY_RESPONSE_CODE);
}

#[test]
fn status_only_success_has_no_rows() {
    let data = "error id=0 msg=ok\n\r".to_string();
    let rows = decode_status_with_result::<Client>(data).unwrap();
    assert!(rows.is_none());
}

#[test]
fn malformed_row_is_transport_error() {
    let data = "clid=notanumber cid=1 client_database_id=1 client_type=0 client_nickname=x\nerror id=0 msg=ok\n\r".to_string();
    let err = decode_status_with_result::<Client>(data).unwrap_err();
    assert_eq!(err.code(), TRANSPORT_ERROR_CODE);
}

#[test]
fn decode_single_takes_first_row() {
    let data = "client_id=7 client_database_id=3\nerror id=0 msg=ok\n\r".to_string();
    let me: WhoAmI = decode_single(data).unwrap();
    assert_eq!(me.client_id(), 7);
    assert_eq!(me.client_database_id(), 3);
}

#[test]
fn decode_single_without_rows_is_empty_response() {
    let err = decode_single::<WhoAmI>("error id=0 msg=ok\n\r".to_string()).unwrap_err();
    assert_eq!(err.code(), EMPTY_RESPONSE_CODE);
}

#[test]
fn status_line_parsing() {
    let st = QueryStatus::from_status_line("error id=0 msg=ok").unwrap();
    assert_eq!(st.id(), 0);
    assert_eq!(st.msg(), "ok");
    let st = QueryStatus::from_status_line("error id=768 msg=invalid\\schannelID").unwrap();
    assert_eq!(st.id(), 768);
    assert_eq!(st.msg(), "invalid channelID");
    assert!(QueryStatus::from_status_line("no marker here").is_none());
    assert!(QueryStatus::from_status_line("error msg=missing").is_none());
}

#[test]
fn status_into_result() {
    let ok = QueryStatus::new(0, "ok".to_string());
    assert_eq!(ok.into_result(41i64).unwrap(), 41);
    let bad = QueryStatus::new(512, "boom".to_string());
    let err = bad.into_result(41i64).unwrap_err();
    assert_eq!(err.code(), 512);
    assert_eq!(err.message(), "boom");
}

#[test]
fn query_error_sentinels() {
    let e = QueryError::static_empty_response();
    assert_eq!(e.code(), -1);
    assert_eq!(e.message(), "Expect result but none found.");
    let t = QueryError::from_transport("lost".to_string());
    assert_eq!(t.code(), -2);
}

#[test]
fn integer_rendering() {
    assert_eq!(u64_to_string(0), "0");
    assert_eq!(u64_to_string(90210), "90210");
    assert_eq!(i64_to_string(-42), "-42");
    assert_eq!(i64_to_string(i64::MIN), "-9223372036854775808");
    assert_eq!(i64_to_string(i64::MAX), "9223372036854775807");
    assert_eq!(u64_to_hex_pad(0x2a, 8), "0000002a");
    assert_eq!(u64_to_hex_pad(0x123456789a, 8), "123456789a");
}

#[test]
fn integer_parsing() {
    let p = |s: &str| parse_i64(&str_to_chars(s));
    assert_eq!(p("8"), Some(8));
    assert_eq!(p("-17"), Some(-17));
    assert_eq!(p("007"), Some(7));
    assert_eq!(p("9223372036854775807"), Some(i64::MAX));
    assert_eq!(p("-9223372036854775808"), Some(i64::MIN));
    assert_eq!(p("9223372036854775808"), None);
    assert_eq!(p("-9223372036854775809"), None);
    assert_eq!(p(""), None);
    assert_eq!(p("-"), None);
    assert_eq!(p("12a"), None);
    assert_eq!(p("99999999999999999999999"), None);
}
