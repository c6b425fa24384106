use spacetraders::client::Client;
use spacetraders::status::{body_is_active, find_field, status_is_active, ACTIVE_STATUS, STATUS_FIELD};

fn pair(name: &str, value: &str) -> (String, Option<String>) {
    (name.to_string(), Some(value.to_string()))
}

fn other(name: &str) -> (String, Option<String>) {
    (name.to_string(), None)
}

#[test]
fn server_status_active() {
    let uri = "http://127.0.0.1:8080";
    let expected_body = format!(r#"{{"status": "{}"}}"#, ACTIVE_STATUS);
    let client = Client::new(uri);
    assert_eq!(client.status_url(), format!("{}{}", uri, "/game/status"));

    let status = Client::is_server_active(Some(expected_body.as_bytes()));

    assert_eq!(true, status);
}

#[test]
fn server_status_no_server() {
    let client = Client::new("http://1.2.3.4/");
    assert_eq!(client.status_url(), "http://1.2.3.4/game/status");

    let status = Client::is_server_active(None);

    assert_eq!(false, status);
}

#[test]
fn active_status_is_the_known_sentence() {
    assert_eq!(
        ACTIVE_STATUS,
        "spacetraders is currently online and available to play"
    );
    assert_eq!(STATUS_FIELD, "status");
}

#[test]
fn other_status_is_down() {
    let body = br#"{"status": "spacetraders is down for maintenance"}"#;
    assert_eq!(false, Client::is_server_active(Some(&body[..])));
}

#[test]
fn status_is_compared_exactly() {
    let upper = format!(r#"{{"status": "{}"}}"#, ACTIVE_STATUS.to_uppercase());
    assert_eq!(false, Client::is_server_active(Some(upper.as_bytes())));
    let padded = format!(r#"{{"status": "{} "}}"#, ACTIVE_STATUS);
    assert_eq!(false, Client::is_server_active(Some(padded.as_bytes())));
    let empty = br#"{"status": ""}"#;
    assert_eq!(false, Client::is_server_active(Some(&empty[..])));
}

#[test]
fn malformed_body_is_down() {
    assert_eq!(false, Client::is_server_active(Some(&b""[..])));
    assert_eq!(false, Client::is_server_active(Some(&b"not json"[..])));
    assert_eq!(false, Client::is_server_active(Some(&b"{\"status\": "[..])));
    assert_eq!(false, Client::is_server_active(Some(&[0xff, 0xfe][..])));
}

#[test]
fn body_of_another_shape_is_down() {
    let array = format!(r#"["{}"]"#, ACTIVE_STATUS);
    assert_eq!(false, Client::is_server_active(Some(array.as_bytes())));
    let text = format!(r#""{}""#, ACTIVE_STATUS);
    assert_eq!(false, Client::is_server_active(Some(text.as_bytes())));
    let nested = format!(r#"{{"status": {{"status": "{}"}}}}"#, ACTIVE_STATUS);
    assert_eq!(false, Client::is_server_active(Some(nested.as_bytes())));
    let number = br#"{"status": 1}"#;
    assert_eq!(false, Client::is_server_active(Some(&number[..])));
}

#[test]
fn missing_field_is_down() {
    assert_eq!(false, Client::is_server_active(Some(&b"{}"[..])));
    let other = format!(r#"{{"state": "{}"}}"#, ACTIVE_STATUS);
    assert_eq!(false, Client::is_server_active(Some(other.as_bytes())));
    let case = format!(r#"{{"Status": "{}"}}"#, ACTIVE_STATUS);
    assert_eq!(false, Client::is_server_active(Some(case.as_bytes())));
}

#[test]
fn other_string_fields_do_not_matter() {
    let body = format!(
        r#"{{"version": "1", "status": "{}", "zone": "eu"}}"#,
        ACTIVE_STATUS
    );
    assert_eq!(true, Client::is_server_active(Some(body.as_bytes())));
}

#[test]
fn fields_that_are_no_strings_do_not_matter() {
    let body = format!(r#"{{"status": "{}", "players": 12}}"#, ACTIVE_STATUS);
    assert_eq!(true, Client::is_server_active(Some(body.as_bytes())));
    let body = format!(r#"{{"status": "{}", "version": 2}}"#, ACTIVE_STATUS);
    assert_eq!(true, Client::is_server_active(Some(body.as_bytes())));
    let body = format!(
        r#"{{"a": null, "b": true, "c": -1.5e3, "status": "{}", "t": [1, "x"], "u": {{"status": "down"}}}}"#,
        ACTIVE_STATUS
    );
    assert_eq!(true, Client::is_server_active(Some(body.as_bytes())));
    let down = br#"{"status": "down", "version": 2}"#;
    assert_eq!(false, Client::is_server_active(Some(&down[..])));
    let missing = br#"{"version": 2, "up": true}"#;
    assert_eq!(false, Client::is_server_active(Some(&missing[..])));
}

#[test]
fn a_status_that_is_no_string_is_down() {
    assert_eq!(false, Client::is_server_active(Some(&br#"{"status": null}"#[..])));
    assert_eq!(false, Client::is_server_active(Some(&br#"{"status": true}"#[..])));
    assert_eq!(false, Client::is_server_active(Some(&br#"{"status": 1}"#[..])));
    let listed = format!(r#"{{"status": ["{}"]}}"#, ACTIVE_STATUS);
    assert_eq!(false, Client::is_server_active(Some(listed.as_bytes())));
    let nested = format!(r#"{{"status": {{"status": "{}"}}}}"#, ACTIVE_STATUS);
    assert_eq!(false, Client::is_server_active(Some(nested.as_bytes())));
}

#[test]
fn a_body_that_is_cut_short_is_down() {
    let body = format!(r#"{{"status": "{}", "version": 2"#, ACTIVE_STATUS);
    assert_eq!(false, Client::is_server_active(Some(body.as_bytes())));
    let body = format!(r#"{{"status": "{}"}} trailing"#, ACTIVE_STATUS);
    assert_eq!(false, Client::is_server_active(Some(body.as_bytes())));
}

#[test]
fn the_last_of_two_status_fields_counts() {
    let last_active = format!(r#"{{"status": "down", "status": "{}"}}"#, ACTIVE_STATUS);
    assert_eq!(true, Client::is_server_active(Some(last_active.as_bytes())));
    let last_down = format!(r#"{{"status": "{}", "status": "down"}}"#, ACTIVE_STATUS);
    assert_eq!(false, Client::is_server_active(Some(last_down.as_bytes())));
    let last_number = format!(r#"{{"status": "{}", "status": 1}}"#, ACTIVE_STATUS);
    assert_eq!(false, Client::is_server_active(Some(last_number.as_bytes())));
    let last_string = format!(r#"{{"status": 1, "status": "{}"}}"#, ACTIVE_STATUS);
    assert_eq!(true, Client::is_server_active(Some(last_string.as_bytes())));
}

#[test]
fn body_is_active_agrees_with_the_health_check() {
    let up = format!(r#"{{"status": "{}"}}"#, ACTIVE_STATUS);
    assert!(body_is_active(up.as_bytes()));
    assert!(!body_is_active(br#"{"status": "down"}"#));
    assert!(!body_is_active(b"<html></html>"));
}

#[test]
fn find_field_takes_the_first_of_that_name() {
    let entries = vec![pair("a", "1"), pair("b", "2"), pair("a", "3")];
    assert_eq!(find_field(&entries, "a"), Some(&"1".to_string()));
    assert_eq!(find_field(&entries, "b"), Some(&"2".to_string()));
    assert_eq!(find_field(&entries, "c"), None);
    assert_eq!(find_field(&entries, ""), None);
    let none: Vec<(String, Option<String>)> = Vec::new();
    assert_eq!(find_field(&none, "a"), None);
    let mixed = vec![other("a"), pair("a", "late"), pair("b", "2"), other("c")];
    assert_eq!(find_field(&mixed, "a"), None);
    assert_eq!(find_field(&mixed, "b"), Some(&"2".to_string()));
    assert_eq!(find_field(&mixed, "c"), None);
}

#[test]
fn status_is_active_reads_the_status_field() {
    assert!(status_is_active(&vec![pair("status", ACTIVE_STATUS)]));
    assert!(status_is_active(&vec![
        pair("region", ACTIVE_STATUS),
        pair("status", ACTIVE_STATUS)
    ]));
    assert!(!status_is_active(&vec![pair("region", ACTIVE_STATUS)]));
    assert!(!status_is_active(&vec![pair("status", "down")]));
    assert!(!status_is_active(&Vec::new()));
    assert!(status_is_active(&vec![
        other("players"),
        pair("status", ACTIVE_STATUS),
        other("version")
    ]));
    assert!(!status_is_active(&vec![other("status")]));
    assert!(!status_is_active(&vec![
        other("status"),
        pair("status", ACTIVE_STATUS)
    ]));
}
