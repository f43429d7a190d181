use nexus_chat::text::validate_bot_display_name;

#[test] fn accepts_simple_alphanumeric() { assert!(validate_bot_display_name("Agent01").is_ok()); }
#[test] fn accepts_hyphen() { assert!(validate_bot_display_name("R2-D2").is_ok()); }
#[test] fn accepts_first_last_name() { assert!(validate_bot_display_name("Katharina Novikov").is_ok()); }
#[test] fn accepts_three_word_name() { assert!(validate_bot_display_name("Dr John Smith").is_ok()); }
#[test] fn accepts_hyphen_and_space() { assert!(validate_bot_display_name("Agent-01 Prime").is_ok()); }

#[test] fn rejects_too_short() { assert!(validate_bot_display_name("A").is_err()); }
#[test] fn rejects_too_long() { assert!(validate_bot_display_name(&"A".repeat(33)).is_err()); }
#[test] fn rejects_leading_hyphen() { assert!(validate_bot_display_name("-Alice").is_err()); }
#[test] fn rejects_trailing_hyphen() { assert!(validate_bot_display_name("Alice-").is_err()); }
#[test] fn rejects_leading_space() { assert!(validate_bot_display_name(" Alice").is_err()); }
#[test] fn rejects_trailing_space() { assert!(validate_bot_display_name("Alice ").is_err()); }
#[test] fn rejects_double_space() { assert!(validate_bot_display_name("Alice  Smith").is_err()); }
#[test] fn rejects_punctuation() { assert!(validate_bot_display_name("Alice.Smith").is_err()); }
#[test] fn rejects_underscore() { assert!(validate_bot_display_name("Alice_Smith").is_err()); }
#[test] fn rejects_accented_letters() { assert!(validate_bot_display_name("Renée Dupont").is_err()); }
#[test] fn rejects_cjk() { assert!(validate_bot_display_name("田中 太郎").is_err()); }
#[test] fn rejects_cyrillic() { assert!(validate_bot_display_name("Иван Петров").is_err()); }
#[test] fn rejects_emoji() { assert!(validate_bot_display_name("Alice 🦀").is_err()); }
#[test]
fn rejects_non_ascii_hyphen() {
    // An en dash is not an ASCII hyphen.
    assert!(validate_bot_display_name("Agent–01").is_err());
}

#[test]
fn error_messages_name_the_rule() {
    assert_eq!(validate_bot_display_name("A"), Err("Display name must be 2-32 characters"));
    assert_eq!(validate_bot_display_name("-Alice"), Err("Display name cannot start or end with a hyphen"));
    assert_eq!(validate_bot_display_name(" Alice"), Err("Display name cannot start or end with a space"));
    assert_eq!(validate_bot_display_name("Alice  Smith"), Err("Display name cannot contain consecutive spaces"));
    assert_eq!(
        validate_bot_display_name("Alice.Smith"),
        Err("Display name must contain only plain letters, numbers, hyphens, and spaces")
    );
}

#[test]
fn byte_length_counts_not_chars() {
    // Eleven three-byte characters are 33 bytes: too long, even though only 11 characters.
    assert_eq!(validate_bot_display_name(&"田".repeat(11)), Err("Display name must be 2-32 characters"));
    assert!(validate_bot_display_name(&"A".repeat(32)).is_ok());
    assert!(validate_bot_display_name("AB").is_ok());
}
