use karta::error::KartaError;
use karta::text::{chars_of, copy_strings, decimal_string, join, str_contains, str_starts_with};

#[test]
fn containment_and_prefixes() {
    assert!(str_contains("hello world", "lo w"));
    assert!(str_contains("abc", ""));
    assert!(!str_contains("abc", "abcd"));
    assert!(!str_contains("", "a"));
    assert!(str_contains("ünïcödé", "cöd"));
    assert!(str_starts_with("abc", "ab"));
    assert!(str_starts_with("abc", ""));
    assert!(!str_starts_with("ab", "abc"));
    assert!(!str_starts_with("abc", "b"));
}

#[test]
fn decimals_and_joins() {
    assert_eq!(decimal_string(0), "0");
    assert_eq!(decimal_string(7), "7");
    assert_eq!(decimal_string(1234567890), "1234567890");
    assert_eq!(decimal_string(u64::MAX), u64::MAX.to_string());
    let v = vec!["a".to_string(), "bc".to_string(), "".to_string()];
    assert_eq!(join(&v, ", "), v.join(", "));
    assert_eq!(join(&vec![], "-"), "");
    assert_eq!(copy_strings(&v), v);
    assert_eq!(chars_of("añb"), vec!['a', 'ñ', 'b']);
}

#[test]
fn each_error_prints_its_message() {
    let cases = vec![
        (KartaError::Config("c".to_string()), "Configuration error: c"),
        (KartaError::ProfileNotFound("p".to_string()), "Principal profile not found at: p"),
        (KartaError::Task("t".to_string()), "Task error: t"),
        (KartaError::Telephony("t".to_string()), "Telephony error: t"),
        (KartaError::VoiceEngine("v".to_string()), "Voice engine error: v"),
        (KartaError::Connection("x".to_string()), "Connection failed: x"),
        (KartaError::Api("a".to_string()), "API error: a"),
        (KartaError::Io("i".to_string()), "IO error: i"),
        (KartaError::Serialization("s".to_string()), "Serialization error: s"),
        (KartaError::TomlParse("m".to_string()), "TOML parse error: m"),
        (KartaError::Http("h".to_string()), "HTTP error: h"),
        (KartaError::Cancelled, "User cancelled operation"),
        (KartaError::EscalationRequired("e".to_string()), "Escalation required: e"),
    ];
    for (e, m) in cases {
        assert_eq!(e.message(), m);
    }
}

#[test]
fn json_strings_are_escaped_as_serde_json_escapes_them() {
    let cases = [
        ("plain", "\"plain\""),
        ("", "\"\""),
        ("quote \" and \\ backslash", "\"quote \\\" and \\\\ backslash\""),
        ("tab\tnew\nline\rcr", "\"tab\\tnew\\nline\\rcr\""),
        ("\u{0}\u{1}\u{8}\u{c}\u{1f}\u{7f}", "\"\\u0000\\u0001\\b\\f\\u001f\u{7f}\""),
        ("é ü 日本 🎉", "\"é ü 日本 🎉\""),
        ("/slash", "\"/slash\""),
    ];
    for (value, literal) in cases {
        let mut out = String::new();
        karta::json::push_string_member(&mut out, "k", value);
        assert_eq!(out, format!("\"k\":{}", literal));
    }
}
