use ytaudio::text::{lines, requote};
use ytaudio::youtube_api::{deserialize_duration, deserialize_is_live, deserialize_uploaded_at};
use ytaudio::PlayerError;

#[test]
fn requote_swaps_the_quotes() {
    assert_eq!(requote("{\x01a\x01:\x01b\x01}"), "{\"a\":\"b\"}");
}

#[test]
fn requote_turns_double_quotes_into_single_quotes() {
    assert_eq!(requote("say \"hi\""), "say 'hi'");
}

#[test]
fn requote_keeps_everything_else() {
    assert_eq!(requote("a'b\\c\u{2}d é\n"), "a'b\\c\u{2}d é\n");
    assert_eq!(requote(""), "");
}

#[test]
fn requote_does_not_requote_its_own_output() {
    assert_eq!(requote("\x01\"\x01"), "\"'\"");
}

#[test]
fn lines_keeps_order_and_drops_empty_lines() {
    assert_eq!(lines("a\nbb\n\nccc\n"), vec!["a".to_string(), "bb".to_string(), "ccc".to_string()]);
}

#[test]
fn lines_of_text_without_line_feed() {
    assert_eq!(lines("abc"), vec!["abc".to_string()]);
}

#[test]
fn lines_of_empty_text() {
    assert_eq!(lines(""), Vec::<String>::new());
    assert_eq!(lines("\n\n\n"), Vec::<String>::new());
}

#[test]
fn lines_keeps_carriage_returns_and_spaces() {
    assert_eq!(lines(" a \r\nb"), vec![" a \r".to_string(), "b".to_string()]);
}

#[test]
fn lines_with_leading_line_feed() {
    assert_eq!(lines("\nfirst\nsecond"), vec!["first".to_string(), "second".to_string()]);
}

#[test]
fn uploaded_at_reads_a_number() {
    assert_eq!(deserialize_uploaded_at("1700000000"), Some(1700000000));
    assert_eq!(deserialize_uploaded_at("0"), Some(0));
    assert_eq!(deserialize_uploaded_at("007"), Some(7));
    assert_eq!(deserialize_uploaded_at("+12"), Some(12));
}

#[test]
fn uploaded_at_trims_white_space() {
    assert_eq!(deserialize_uploaded_at("  42\n"), Some(42));
    assert_eq!(deserialize_uploaded_at("\t42\r\n"), Some(42));
    assert_eq!(deserialize_uploaded_at("\u{a0}42\u{3000}"), Some(42));
    assert_eq!(deserialize_uploaded_at("\u{2003}42\u{85}"), Some(42));
}

#[test]
fn uploaded_at_defaults_to_zero() {
    assert_eq!(deserialize_uploaded_at("NA"), Some(0));
    assert_eq!(deserialize_uploaded_at(""), Some(0));
    assert_eq!(deserialize_uploaded_at("   "), Some(0));
    assert_eq!(deserialize_uploaded_at("-5"), Some(0));
    assert_eq!(deserialize_uploaded_at("+"), Some(0));
    assert_eq!(deserialize_uploaded_at("++1"), Some(0));
    assert_eq!(deserialize_uploaded_at("4 2"), Some(0));
    assert_eq!(deserialize_uploaded_at("12.5"), Some(0));
    assert_eq!(deserialize_uploaded_at("1_000"), Some(0));
    assert_eq!(deserialize_uploaded_at("\u{200b}42"), Some(0));
    assert_eq!(deserialize_uploaded_at("\u{663}"), Some(0));
}

#[test]
fn uploaded_at_at_the_limit() {
    assert_eq!(deserialize_uploaded_at("4294967295"), Some(4294967295));
    assert_eq!(deserialize_uploaded_at("4294967296"), Some(0));
    assert_eq!(deserialize_uploaded_at("99999999999999999999999999"), Some(0));
    assert_eq!(deserialize_uploaded_at("00000000004294967295"), Some(4294967295));
}

#[test]
fn uploaded_at_agrees_with_std() {
    for text in [
        "17", " 17 ", "+17", "-17", "", "x", "4294967295", "4294967296", "0x10", "１７", "+", "++1",
        "+-1", " + 1", "\u{b}9\u{c}", "\u{1680}8\u{2028}", "\u{200b}7", "\u{feff}7", "1e3", "0",
    ] {
        let expected = match text.trim().parse::<u32>() {
            Ok(n) => Some(n),
            Err(_) => Some(0),
        };
        assert_eq!(deserialize_uploaded_at(text), expected);
    }
}

#[test]
fn duration_reads_a_number() {
    assert_eq!(deserialize_duration("215"), Some(215));
    assert_eq!(deserialize_duration("0"), Some(0));
    assert_eq!(deserialize_duration("+7"), Some(7));
    assert_eq!(deserialize_duration("0012"), Some(12));
}

#[test]
fn duration_is_absent_on_failure() {
    assert_eq!(deserialize_duration("NA"), None);
    assert_eq!(deserialize_duration(""), None);
    assert_eq!(deserialize_duration("+"), None);
    assert_eq!(deserialize_duration("-1"), None);
    assert_eq!(deserialize_duration("3.5"), None);
}

#[test]
fn duration_is_not_trimmed() {
    assert_eq!(deserialize_duration(" 215"), None);
    assert_eq!(deserialize_duration("215 "), None);
    assert_eq!(deserialize_duration("215\n"), None);
}

#[test]
fn duration_at_the_limit() {
    assert_eq!(deserialize_duration("65535"), Some(65535));
    assert_eq!(deserialize_duration("65536"), None);
    assert_eq!(deserialize_duration("4294967296"), None);
}

#[test]
fn duration_agrees_with_std() {
    for text in ["17", " 17", "+17", "-17", "", "x", "65535", "65536", "000", "+0", "+", "++1", "1+"] {
        assert_eq!(deserialize_duration(text), text.parse::<u16>().ok());
    }
}

#[test]
fn is_live_reads_true_and_false_in_any_case() {
    assert_eq!(deserialize_is_live("true"), Some(true));
    assert_eq!(deserialize_is_live("True"), Some(true));
    assert_eq!(deserialize_is_live("TRUE"), Some(true));
    assert_eq!(deserialize_is_live("tRuE"), Some(true));
    assert_eq!(deserialize_is_live("false"), Some(false));
    assert_eq!(deserialize_is_live("False"), Some(false));
    assert_eq!(deserialize_is_live("FALSE"), Some(false));
}

#[test]
fn is_live_is_absent_for_other_text() {
    assert_eq!(deserialize_is_live("NA"), None);
    assert_eq!(deserialize_is_live(""), None);
    assert_eq!(deserialize_is_live("tru"), None);
    assert_eq!(deserialize_is_live("truee"), None);
    assert_eq!(deserialize_is_live(" true"), None);
    assert_eq!(deserialize_is_live("1"), None);
    assert_eq!(deserialize_is_live("yes"), None);
    assert_eq!(deserialize_is_live("falsé"), None);
}

#[test]
fn messages_differ_by_error() {
    let all = [
        PlayerError::UrlMalformed,
        PlayerError::ToolInvocationFailed,
        PlayerError::OutputUnparsable,
        PlayerError::EmptyPlaylist,
    ];
    for (i, a) in all.iter().enumerate() {
        assert!(!a.message().is_empty());
        for b in all.iter().skip(i + 1) {
            assert_ne!(a.message(), b.message());
        }
    }
    assert_eq!(PlayerError::EmptyPlaylist.message(), "no songs are in the playlist");
    assert_eq!(PlayerError::UrlMalformed.message(), "the URL is malformed");
}

#[test]
fn uploaded_at_agrees_with_std_around_every_character() {
    for code in 0..=0x10ffffu32 {
        if let Some(c) = char::from_u32(code) {
            let text = format!("{}7{}", c, c);
            let expected = match text.trim().parse::<u32>() {
                Ok(n) => Some(n),
                Err(_) => Some(0),
            };
            assert_eq!(deserialize_uploaded_at(&text), expected, "around U+{:04X}", code);
        }
    }
}

#[test]
fn duration_agrees_with_std_before_every_character() {
    for code in 0..=0x10ffffu32 {
        if let Some(c) = char::from_u32(code) {
            let text = format!("{}5", c);
            assert_eq!(deserialize_duration(&text), text.parse::<u16>().ok(), "before U+{:04X}", code);
        }
    }
}

#[test]
fn is_live_agrees_with_unicode_lower_case() {
    for token in ["true", "false"] {
        for at in 0..token.len() {
            for code in 0..=0x10ffffu32 {
                if let Some(c) = char::from_u32(code) {
                    let mut text = String::new();
                    text.push_str(&token[..at]);
                    text.push(c);
                    text.push_str(&token[at + 1..]);
                    let expected = match text.to_lowercase().as_str() {
                        "true" => Some(true),
                        "false" => Some(false),
                        _ => None,
                    };
                    assert_eq!(deserialize_is_live(&text), expected, "U+{:04X} in {}", code, token);
                }
            }
        }
    }
}
