use broadcast_chat::command::{is_exit_command, lower, white_space};

fn as_std_does(line: &str) -> bool {
    line.trim().eq_ignore_ascii_case("exit") || line.trim().eq_ignore_ascii_case("quit")
}

#[test]
fn exit_and_quit_are_commands_in_any_case() {
    for line in ["exit", "quit", "EXIT", "QUIT", "Exit", "qUiT", "eXIt"] {
        assert!(is_exit_command(line), "{:?}", line);
    }
}

#[test]
fn white_space_around_a_command_does_not_count() {
    for line in [" exit", "exit ", "\texit\n", "  quit\r\n", "\u{a0}quit\u{3000}", "\u{2003}exit\u{85}"] {
        assert!(is_exit_command(line), "{:?}", line);
    }
}

#[test]
fn everything_else_is_no_command() {
    for line in [
        "", " ", "\n", "exi", "exit!", "exits", "e xit", "ex it", "quit it", "exit quit", "quitquit",
        "please exit", "exit\u{200b}", "\u{feff}exit", "ex\u{131}t", "\u{212a}uit", "ｅｘｉｔ", "e\u{78}i\u{74}s", "tixe",
    ] {
        assert!(!is_exit_command(line), "{:?}", line);
    }
}

#[test]
fn commands_are_told_as_the_standard_library_tells_them() {
    let pieces = ["", " ", "\t", "\n", "\u{a0}", "\u{1680}", "\u{200b}", "exit", "EXIT", "quit", "Quit", "x", "é", "exi", "t"];
    for a in pieces {
        for b in pieces {
            for c in pieces {
                let line = format!("{}{}{}", a, b, c);
                assert_eq!(is_exit_command(&line), as_std_does(&line), "{:?}", line);
            }
        }
    }
}

#[test]
fn white_space_is_what_unicode_says() {
    let mut count = 0;
    for code in 0..=0x10ffffu32 {
        if let Some(c) = char::from_u32(code) {
            assert_eq!(white_space(c), c.is_whitespace(), "U+{:04X}", code);
            if white_space(c) {
                count += 1;
            }
        }
    }
    assert_eq!(count, 25);
}

#[test]
fn only_ascii_capitals_are_made_small() {
    assert_eq!(lower('A'), 'a');
    assert_eq!(lower('Z'), 'z');
    assert_eq!(lower('q'), 'q');
    assert_eq!(lower('@'), '@');
    assert_eq!(lower('['), '[');
    assert_eq!(lower('É'), 'É');
    for code in 0..=0x10ffffu32 {
        if let Some(c) = char::from_u32(code) {
            assert_eq!(lower(c), c.to_ascii_lowercase(), "U+{:04X}", code);
        }
    }
}
