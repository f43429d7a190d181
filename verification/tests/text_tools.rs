use nexus_chat::id_list::{json_string_array, parse_id_list};
use nexus_chat::json::{extract_opt_string, get_field, string_list, JsonValue};
use nexus_chat::reducers::templates::template_channels;
use nexus_chat::text::{decimal_string, str_contains, str_lt, str_starts_with, trim_str};

#[test]
fn substring_search_finds_runs_of_characters() {
    assert!(str_contains("dm:agent-7:owner", "agent-7"));
    assert!(str_contains("abc", ""));
    assert!(str_contains("abc", "abc"));
    assert!(!str_contains("abc", "abcd"));
    assert!(!str_contains("agent", "agnt"));
    assert!(str_contains("ééa", "éa"));
}

#[test]
fn prefixes() {
    assert!(str_starts_with("swarm-bot-17", "swarm-bot-"));
    assert!(!str_starts_with("swarm-bo", "swarm-bot-"));
    assert!(!str_starts_with("xswarm-bot-1", "swarm-bot-"));
    assert!(str_starts_with("anything", ""));
}

#[test]
fn decimal_strings() {
    assert_eq!(decimal_string(0), "0");
    assert_eq!(decimal_string(7), "7");
    assert_eq!(decimal_string(1700000000123), "1700000000123");
    assert_eq!(decimal_string(u64::MAX), "18446744073709551615");
}

#[test]
fn string_order_is_by_code_point() {
    assert!(str_lt("alice", "bob"));
    assert!(!str_lt("bob", "alice"));
    assert!(str_lt("ab", "abc"));
    assert!(!str_lt("abc", "abc"));
    assert!(str_lt("Z", "a"));
    assert!(str_lt("z", "é"));
}

#[test]
fn trimming() {
    assert_eq!(trim_str("  hi there \t\n"), "hi there");
    assert_eq!(trim_str("\u{3000}x\u{a0}"), "x");
    assert_eq!(trim_str("   "), "");
}

#[test]
fn id_lists_in_brackets() {
    assert_eq!(parse_id_list("[\"a\", \"b\"]"), vec!["a".to_string(), "b".to_string()]);
    assert_eq!(parse_id_list("[]"), Vec::<String>::new());
    assert_eq!(parse_id_list("[ x , , y ]"), vec!["x".to_string(), "y".to_string()]);
}

#[test]
fn template_channel_sets() {
    assert_eq!(template_channels("swarm")[0], ("tavern", "Main gathering place for conversation"));
    assert_eq!(template_channels("team").len(), 3);
    assert_eq!(template_channels("focus-group")[2].0, "summary");
    assert_eq!(template_channels("unknown"), vec![("general", "General discussion")]);
}

#[test]
fn json_fields() {
    let v = JsonValue::Object(vec![
        ("some".to_string(), JsonValue::Str("inner".to_string())),
        ("list".to_string(), JsonValue::Array(vec![JsonValue::Str("r1".to_string()), JsonValue::Number(3), JsonValue::Str("r2".to_string())])),
    ]);
    assert_eq!(extract_opt_string(&v), Some("inner".to_string()));
    assert_eq!(extract_opt_string(&JsonValue::Null), None);
    assert_eq!(extract_opt_string(&JsonValue::Str("plain".to_string())), Some("plain".to_string()));
    let list = get_field(&v, "list").unwrap();
    assert_eq!(string_list(list), vec!["r1".to_string(), "r2".to_string()]);
    assert!(get_field(&v, "missing").is_none());
}

#[test]
fn json_string_arrays_give_their_strings_in_order() {
    assert_eq!(json_string_array(r#"["t1","t2"]"#), vec!["t1".to_string(), "t2".to_string()]);
    assert_eq!(json_string_array(r#"[ "a b" , "" ]"#), vec!["a b".to_string(), String::new()]);
    assert!(json_string_array("[]").is_empty());
    assert!(json_string_array("").is_empty());
    // A quote left open encloses nothing.
    assert_eq!(json_string_array(r#"["x","y"#), vec!["x".to_string()]);
}
