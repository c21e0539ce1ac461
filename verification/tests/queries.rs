use juhradiald::config::Config;
use juhradiald::cursor::queries::{
    monitors_bounds, parse_assignments, parse_geometry, parse_monitors, parse_pair,
    parse_screen_listing, parse_script_id, MonitorFields, PairReading, KEY_HEIGHT, KEY_WIDTH,
    KEY_X, KEY_Y,
};
use juhradiald::cursor::{CursorPosition, ScreenBounds};
use juhradiald::hidpp::scroll::{ratchet_parameters, ratchet_setting, RatchetParameters, WheelMode};
use juhradiald::parse::{
    find_char, find_word, is_whitespace, last_token, next_line, nth_token, parse_i32, skip_whitespace,
    to_chars, token_end, trim, word_at,
};
use std::path::PathBuf;

fn number(text: &str) -> Option<i32> {
    let chars = to_chars(text);
    parse_i32(&chars, 0, chars.len())
}

#[test]
fn numbers_are_read_as_the_standard_library_reads_them() {
    let samples = [
        "0", "7", "42", "-42", "+42", "007", "-0", "+0", "2147483647", "-2147483648",
        "2147483648", "-2147483649", "99999999999999999999", "-99999999999999999999", "", "+",
        "-", "+-1", "--1", "1-", "1 ", " 1", "1.0", "0x10", "١٢", "12a", "a12", "1_000", "３",
    ];
    for sample in samples {
        assert_eq!(number(sample), sample.parse::<i32>().ok(), "for {:?}", sample);
    }
    assert_eq!(number("2147483647"), Some(i32::MAX));
    assert_eq!(number("-2147483648"), Some(i32::MIN));
    assert_eq!(number("2147483648"), None);
}

#[test]
fn white_space_is_what_the_standard_library_takes_for_it() {
    for code in 0..=0x3100u32 {
        if let Some(c) = char::from_u32(code) {
            assert_eq!(is_whitespace(c), c.is_whitespace(), "for U+{:04X}", code);
        }
    }
    assert!(!is_whitespace('\u{FEFF}'));
    assert!(!is_whitespace('\u{200B}'));
}

#[test]
fn trimming_is_that_of_the_standard_library() {
    let samples = ["", " ", "a", "  a b  ", "\t\n x\r\n", "\u{A0}12\u{3000}", "x \u{2003}", " \u{85}"];
    for sample in samples {
        let chars = to_chars(sample);
        assert_eq!(chars, sample.chars().collect::<Vec<char>>());
        let (from, end) = trim(&chars, 0, chars.len());
        let trimmed: String = chars[from..end].iter().collect();
        assert_eq!(trimmed, sample.trim(), "for {:?}", sample);
    }
}

#[test]
fn tokens_are_those_of_the_standard_library() {
    let samples = ["", "  ", "one", " one two  three ", "a\tb\nc", "1920 x 1080", "x\u{A0}y"];
    for sample in samples {
        let chars = to_chars(sample);
        let expected: Vec<&str> = sample.split_whitespace().collect();
        for n in 0..expected.len() + 2 {
            let token = nth_token(&chars, 0, chars.len(), n)
                .map(|(from, end)| chars[from..end].iter().collect::<String>());
            assert_eq!(token.as_deref(), expected.get(n).copied(), "for {:?} at {}", sample, n);
        }
        let last = last_token(&chars, 0, chars.len())
            .map(|(from, end)| chars[from..end].iter().collect::<String>());
        assert_eq!(last.as_deref(), expected.last().copied(), "for {:?}", sample);
    }
}

#[test]
fn lines_are_those_of_the_standard_library() {
    let samples = ["", "a", "a\n", "a\nb", "a\r\nb\r\n", "\n\n", "a\r", "a\rb\n", "\r\n", "x\n\ny"];
    for sample in samples {
        let chars = to_chars(sample);
        let mut lines: Vec<String> = Vec::new();
        let mut from = 0;
        while from < chars.len() {
            let (stop, next) = next_line(&chars, from);
            lines.push(chars[from..stop].iter().collect());
            from = next;
        }
        let expected: Vec<String> = sample.lines().map(String::from).collect();
        assert_eq!(lines, expected, "for {:?}", sample);
    }
}

#[test]
fn searching_in_pieces() {
    let chars = to_chars("ab,cd, ef");
    assert_eq!(find_char(&chars, ',', 0, chars.len()), 2);
    assert_eq!(find_char(&chars, ',', 3, chars.len()), 5);
    assert_eq!(find_char(&chars, ',', 6, chars.len()), 9);
    assert_eq!(find_char(&chars, ',', 0, 2), 2);
    assert_eq!(skip_whitespace(&chars, 6, 9), 7);
    assert_eq!(token_end(&chars, 0, 9), 6);
    let word = to_chars("cd");
    assert!(word_at(&chars, &word, 3, 9));
    assert!(!word_at(&chars, &word, 3, 4));
    assert!(!word_at(&chars, &word, 2, 9));
    assert!(!word_at(&chars, &word, 8, 9));
    assert_eq!(find_word(&chars, &word, 0, 9), Some(3));
    assert_eq!(find_word(&chars, &word, 4, 9), None);
    assert_eq!(find_word(&chars, &word, 0, 4), None);
    assert_eq!(find_word(&chars, &[], 9, 9), Some(9));
}

#[test]
fn a_pair_of_coordinates_is_read() {
    assert_eq!(
        parse_pair("2536, 1109\n"),
        PairReading::Position(CursorPosition { x: 2536, y: 1109 })
    );
    assert_eq!(parse_pair("  -5,+7 "), PairReading::Position(CursorPosition { x: -5, y: 7 }));
    assert_eq!(parse_pair("1,2,3"), PairReading::Position(CursorPosition { x: 1, y: 2 }));
    assert_eq!(parse_pair("1,2,"), PairReading::Position(CursorPosition { x: 1, y: 2 }));
    assert_eq!(parse_pair("960 540"), PairReading::NoPair);
    assert_eq!(parse_pair(""), PairReading::NoPair);
    assert_eq!(parse_pair("1,"), PairReading::Malformed);
    assert_eq!(parse_pair(",2"), PairReading::Malformed);
    assert_eq!(parse_pair("a, 2"), PairReading::Malformed);
    assert_eq!(parse_pair("1, 2.5"), PairReading::Malformed);
    assert_eq!(parse_pair("1, 99999999999"), PairReading::Malformed);
    assert_eq!(parse_pair("1 2, 3"), PairReading::Malformed);
}

#[test]
fn shell_assignments_are_read() {
    assert_eq!(
        parse_assignments("X=100\nY=200\nSCREEN=0\nWINDOW=1234\n"),
        Some(CursorPosition { x: 100, y: 200 })
    );
    assert_eq!(parse_assignments("Y=-3\r\nX=4"), Some(CursorPosition { x: 4, y: -3 }));
    assert_eq!(parse_assignments("X=1\nX=2\nY=3"), Some(CursorPosition { x: 2, y: 3 }));
    assert_eq!(parse_assignments("X=1\nY=3\nX=oops"), None);
    assert_eq!(parse_assignments("X=1\n"), None);
    assert_eq!(parse_assignments("X= 1\nY=2"), None);
    assert_eq!(parse_assignments(" X=1\nY=2"), None);
    assert_eq!(parse_assignments(""), None);
}

#[test]
fn the_number_of_a_script_is_read() {
    let reply = "method return time=1.2 sender=:1.5 -> destination=:1.9 serial=7\n   int32 5\n";
    assert_eq!(parse_script_id(reply), Some(5));
    assert_eq!(parse_script_id("int32 12\nint32 13"), Some(12));
    assert_eq!(parse_script_id("int32 -1  "), Some(-1));
    assert_eq!(parse_script_id("int32"), None);
    assert_eq!(parse_script_id("uint32 9"), Some(9));
    assert_eq!(parse_script_id("int32 x\nint32 5"), None);
    assert_eq!(parse_script_id("int 32 5"), None);
    assert_eq!(parse_script_id(""), None);
}

#[test]
fn the_size_of_a_display_is_read() {
    assert_eq!(parse_geometry("1920 1080\n"), Some(ScreenBounds { width: 1920, height: 1080 }));
    assert_eq!(parse_geometry(" 4480\t1440 extra"), Some(ScreenBounds { width: 4480, height: 1440 }));
    assert_eq!(parse_geometry("1920"), None);
    assert_eq!(parse_geometry("1920 x"), None);
    assert_eq!(parse_geometry("1920x1080"), None);
    assert_eq!(parse_geometry(""), None);
}

#[test]
fn the_current_size_is_read_from_a_screen_listing() {
    let listing = "Screen 0: minimum 16 x 16, current 4480 x 1440, maximum 32767 x 32767\n\
                   DP-1 connected primary 2560x1440+0+0\n";
    assert_eq!(parse_screen_listing(listing), Some(ScreenBounds { width: 4480, height: 1440 }));
    assert_eq!(
        parse_screen_listing("DP-1 current 1 x 2\nScreen 0: current 800 x 600"),
        Some(ScreenBounds { width: 800, height: 600 })
    );
    assert_eq!(
        parse_screen_listing("Screen 0: current 800 y 600\nScreen 1: current 1 x 2"),
        Some(ScreenBounds { width: 1, height: 2 })
    );
    assert_eq!(
        parse_screen_listing("Screen 0: current 800 x\nScreen 1: current 3 x 4, m"),
        Some(ScreenBounds { width: 3, height: 4 })
    );
    assert_eq!(parse_screen_listing("Screen 0: current wide x 600\nScreen 1: current 1 x 2"), None);
    assert_eq!(parse_screen_listing("Screen 0: current 800 x 600x\nScreen 1: current 1 x 2"), None);
    assert_eq!(parse_screen_listing("Screen 0: current\nScreen 1: current 1 x 2"), None);
    assert_eq!(
        parse_screen_listing("Screen 0: current \nScreen 1: current 1 x 2"),
        Some(ScreenBounds { width: 1, height: 2 })
    );
    assert_eq!(parse_screen_listing("Screen 0: current\u{A0}1 x 2"), None);
    assert_eq!(parse_screen_listing(" Screen 0: current 1 x 2"), None);
    assert_eq!(parse_screen_listing("Screen 0: maximum 1 x 2"), None);
    assert_eq!(parse_screen_listing(""), None);
}

fn monitor(x: i64, y: i64, width: i64, height: i64) -> MonitorFields {
    MonitorFields { x: Some(x), y: Some(y), width: Some(width), height: Some(height) }
}

#[test]
fn monitors_span_their_bounding_box() {
    let side_by_side = vec![monitor(0, 0, 2560, 1440), monitor(2560, 0, 1920, 1080)];
    assert_eq!(monitors_bounds(&side_by_side), Some(ScreenBounds { width: 4480, height: 1440 }));
    assert_eq!(monitors_bounds(&vec![]), None);
    assert_eq!(monitors_bounds(&vec![monitor(-1920, 0, 1920, 1080)]), None);
    assert_eq!(monitors_bounds(&vec![monitor(0, -1080, 1920, 1080)]), None);
    let lacking = MonitorFields { x: Some(0), y: Some(0), width: None, height: Some(5) };
    assert_eq!(monitors_bounds(&vec![monitor(0, 0, 10, 10), lacking]), None);
    assert_eq!(
        monitors_bounds(&vec![monitor(1 << 32, 0, 10, 10)]),
        Some(ScreenBounds { width: 10, height: 10 })
    );
    assert_eq!(
        monitors_bounds(&vec![monitor(i32::MAX as i64, 0, 1, 10), monitor(0, 0, 7, 10)]),
        Some(ScreenBounds { width: 7, height: 10 })
    );
}

#[test]
fn a_json_list_of_monitors_is_read() {
    let json = "[{\"id\":0,\"name\":\"DP-1\",\"width\":2560,\"height\":1440,\"x\":0,\"y\":0},\
                {\"id\":1,\"name\":\"DP-2\",\"width\":1920,\"height\":1080,\"x\":2560,\"y\":360}]";
    assert_eq!(parse_monitors(json), Some(ScreenBounds { width: 4480, height: 1440 }));
    assert_eq!(parse_monitors("[]"), None);
    assert_eq!(parse_monitors("{\"x\":0}"), None);
    assert_eq!(parse_monitors("not json"), None);
    assert_eq!(parse_monitors("[{\"x\":0,\"y\":0,\"width\":10}]"), None);
    assert_eq!(parse_monitors("[{\"x\":0,\"y\":0,\"width\":10.5,\"height\":10}]"), None);
    assert_eq!(parse_monitors("[{\"x\":0,\"y\":0,\"width\":\"10\",\"height\":10}]"), None);
    assert_eq!(
        parse_monitors("[{\"x\":1,\"y\":2,\"width\":3,\"height\":4}]"),
        Some(ScreenBounds { width: 4, height: 6 })
    );
    assert_eq!(
        parse_monitors("[{\"x\":100,\"y\":20,\"width\":3,\"height\":4}]"),
        Some(ScreenBounds { width: 103, height: 24 })
    );
    assert_eq!(parse_monitors("[{\"X\":1,\"y\":2,\"width\":3,\"height\":4}]"), None);
    assert_eq!(parse_monitors("[{\"x\":1,\"y\":2,\"w\":3,\"h\":4}]"), None);
    assert_eq!((KEY_X, KEY_Y, KEY_WIDTH, KEY_HEIGHT), ("x", "y", "width", "height"));
}

#[test]
fn the_configuration_file_lies_below_the_configuration_directory() {
    let base = PathBuf::from("/home/user/.config");
    assert_eq!(
        Config::config_dir_under(Some(base.clone())),
        Some(PathBuf::from("/home/user/.config/juhradial"))
    );
    assert_eq!(
        Config::config_path_under(Some(base)),
        Some(PathBuf::from("/home/user/.config/juhradial/config.json"))
    );
    assert_eq!(Config::config_dir_under(None), None);
    assert_eq!(Config::config_path_under(None), None);
    if let Some(path) = Config::default_config_path() {
        assert!(path.ends_with("juhradial/config.json"));
        assert_eq!(Config::default_config_dir().as_deref(), path.parent());
    }
}

#[test]
fn a_configuration_remembers_its_file() {
    let path = PathBuf::from("/tmp/config.json");
    let fresh = Config::default_at(path.clone());
    assert_eq!(fresh.config_path, Some(path.clone()));
    assert_eq!(fresh.theme, "catppuccin-mocha");
    assert!(fresh.haptics.enabled);

    let mut parsed = Config::default();
    parsed.theme = String::from("vaporwave");
    parsed.haptics.debounce_ms = 99;
    let loaded = parsed.loaded_from(path.clone());
    assert_eq!(loaded.config_path, Some(path));
    assert_eq!(loaded.theme, "vaporwave");
    assert_eq!(loaded.haptics.debounce_ms, 99);
}

#[test]
fn the_ratchet_setting_maps_onto_wheel_parameters() {
    assert_eq!(
        ratchet_parameters(true, 12),
        RatchetParameters { mode: WheelMode::Freespin, auto_disengage: 12 }
    );
    assert_eq!(
        ratchet_parameters(false, 12),
        RatchetParameters { mode: WheelMode::Ratchet, auto_disengage: 0 }
    );
    assert_eq!(ratchet_setting(ratchet_parameters(true, 200)), (true, 200));
    assert_eq!(ratchet_setting(ratchet_parameters(false, 200)), (false, 0));
    assert_eq!(
        ratchet_setting(RatchetParameters { mode: WheelMode::Ratchet, auto_disengage: 9 }),
        (false, 9)
    );
}
