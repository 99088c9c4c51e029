use keystroke_decoder::text::{contains_nul, leading_field, split_lines};
use keystroke_decoder::{Component, KeymapBuild, KeystrokeDecoder, Rmlvo};

fn variables(pairs: &[(&str, &str)]) -> Vec<(String, String)> {
    pairs.iter().map(|(name, value)| (name.to_string(), value.to_string())).collect()
}

fn from_file(text: &str) -> Rmlvo {
    let mut names = Rmlvo::default();
    names.detect_from_etc_default_keyboard(text);
    names
}

const DEBIAN_FILE: &str = "# KEYBOARD CONFIGURATION FILE\n\
\n\
# Consult the keyboard(5) manual page.\n\
\n\
XKBMODEL=\"pc105\"\n\
XKBLAYOUT=\"us,de\"\n\
XKBVARIANT=\"\"\n\
XKBOPTIONS=\"grp:alt_shift_toggle\"\n\
\n\
BACKSPACE=\"guess\"\n";

#[test]
fn test_create() {
    let decoder = KeystrokeDecoder::new(Rmlvo::new(None, &Vec::new()), KeymapBuild::Built).unwrap();

    println!("{:#?}", decoder.layout());
}

#[test]
fn default_names_are_empty() {
    let names = Rmlvo::default();
    assert_eq!(names.rules(), "");
    assert_eq!(names.model(), "");
    assert_eq!(names.layout(), "");
    assert_eq!(names.variant(), "");
    assert_eq!(names.options(), &None);
}

#[test]
fn nothing_to_detect_gives_empty_names() {
    let names = Rmlvo::new(None, &Vec::new());
    assert_eq!(names.rules(), "");
    assert_eq!(names.model(), "");
    assert_eq!(names.layout(), "");
    assert_eq!(names.variant(), "");
    assert_eq!(names.options(), &None);
}

#[test]
fn from_names_keeps_each_name() {
    let names = Rmlvo::from_names(
        "evdev".to_string(),
        "pc105".to_string(),
        "us,de".to_string(),
        "intl".to_string(),
        Some("compose:ralt".to_string()),
    );
    assert_eq!(names.rules(), "evdev");
    assert_eq!(names.model(), "pc105");
    assert_eq!(names.layout(), "us,de");
    assert_eq!(names.variant(), "intl");
    assert_eq!(names.options(), &Some("compose:ralt".to_string()));
}

#[test]
fn file_sets_model_layout_and_options() {
    let names = from_file(DEBIAN_FILE);
    assert_eq!(names.rules(), "");
    assert_eq!(names.model(), "pc105");
    assert_eq!(names.layout(), "us");
    assert_eq!(names.variant(), "");
    assert_eq!(names.options(), &Some("grp:alt_shift_toggle".to_string()));
}

#[test]
fn file_layout_is_cut_at_the_first_comma() {
    assert_eq!(from_file("XKBLAYOUT=\"fr,us,de\"\n").layout(), "fr");
    assert_eq!(from_file("XKBLAYOUT=\"fr\"\n").layout(), "fr");
    assert_eq!(from_file("XKBLAYOUT=\",us\"\n").layout(), "");
}

#[test]
fn only_the_layout_is_cut_at_a_comma() {
    let names = from_file("XKBVARIANT=\"intl,basic\"\nXKBOPTIONS=\"a,b\"\n");
    assert_eq!(names.variant(), "intl,basic");
    assert_eq!(names.options(), &Some("a,b".to_string()));
}

#[test]
fn empty_value_sets_nothing() {
    let mut names = Rmlvo::from_names(
        String::new(),
        String::new(),
        String::new(),
        "intl".to_string(),
        None,
    );
    names.detect_from_etc_default_keyboard("XKBVARIANT=\"\"\nXKBOPTIONS=\"\"\n");
    assert_eq!(names.variant(), "intl");
    assert_eq!(names.options(), &None);
}

#[test]
fn last_matching_line_counts() {
    let names = from_file("XKBLAYOUT=\"us\"\nXKBMODEL=\"pc104\"\nXKBLAYOUT=\"de\"\n");
    assert_eq!(names.layout(), "de");
    assert_eq!(names.model(), "pc104");
}

#[test]
fn spaces_around_the_key_are_allowed() {
    let names = from_file("  XKBRULES \t=\"base\"\n");
    assert_eq!(names.rules(), "base");
}

#[test]
fn value_reaches_to_the_last_quote_of_the_line() {
    let names = from_file("XKBRULES=\"a\" XKBMODEL=\"b\"\n");
    assert_eq!(names.rules(), "a\" XKBMODEL=\"b");
    assert_eq!(names.model(), "b");
}

#[test]
fn unquoted_value_sets_nothing() {
    let names = from_file("XKBLAYOUT=us\nXKBMODEL = \"pc105\"\n");
    assert_eq!(names.layout(), "");
    assert_eq!(names.model(), "");
}

#[test]
fn file_with_carriage_returns() {
    let names = from_file("XKBMODEL=\"pc105\"\r\nXKBLAYOUT=\"gb\"\r\n");
    assert_eq!(names.model(), "pc105");
    assert_eq!(names.layout(), "gb");
}

#[test]
fn file_without_final_line_feed() {
    assert_eq!(from_file("XKBLAYOUT=\"es\"").layout(), "es");
}

#[test]
fn apply_file_setting_takes_the_captured_value() {
    let mut names = Rmlvo::default();
    names.apply_file_setting(Component::Rules, Some("evdev".to_string()));
    names.apply_file_setting(Component::Layout, Some("us,de".to_string()));
    names.apply_file_setting(Component::Options, Some("a,b".to_string()));
    names.apply_file_setting(Component::Model, None);
    assert_eq!(names.rules(), "evdev");
    assert_eq!(names.layout(), "us");
    assert_eq!(names.options(), &Some("a,b".to_string()));
    assert_eq!(names.model(), "");
}

#[test]
fn environment_sets_each_name() {
    let mut names = Rmlvo::default();
    names.detect_from_env(&variables(&[
        ("HOME", "/root"),
        ("XKB_DEFAULT_RULES", "evdev"),
        ("XKB_DEFAULT_MODEL", "pc105"),
        ("XKB_DEFAULT_LAYOUT", "us,de"),
        ("XKB_DEFAULT_VARIANT", "intl"),
        ("XKB_DEFAULT_OPTIONS", "compose:ralt"),
    ]));
    assert_eq!(names.rules(), "evdev");
    assert_eq!(names.model(), "pc105");
    assert_eq!(names.layout(), "us,de");
    assert_eq!(names.variant(), "intl");
    assert_eq!(names.options(), &Some("compose:ralt".to_string()));
}

#[test]
fn other_variables_set_nothing() {
    let mut names = Rmlvo::default();
    names.detect_from_env(&variables(&[
        ("XKB_DEFAULT_LAYOUTS", "us"),
        ("xkb_default_layout", "us"),
        ("XKBLAYOUT", "us"),
    ]));
    assert_eq!(names.layout(), "");
}

#[test]
fn last_variable_of_a_name_counts() {
    let mut names = Rmlvo::default();
    names.detect_from_env(&variables(&[
        ("XKB_DEFAULT_LAYOUT", "us"),
        ("XKB_DEFAULT_MODEL", "pc104"),
        ("XKB_DEFAULT_LAYOUT", "de"),
    ]));
    assert_eq!(names.layout(), "de");
    assert_eq!(names.model(), "pc104");
}

#[test]
fn environment_overrides_file() {
    let names = Rmlvo::new(
        Some(DEBIAN_FILE),
        &variables(&[("XKB_DEFAULT_LAYOUT", "fr"), ("XKB_DEFAULT_VARIANT", "azerty")]),
    );
    assert_eq!(names.rules(), "");
    assert_eq!(names.model(), "pc105");
    assert_eq!(names.layout(), "fr");
    assert_eq!(names.variant(), "azerty");
    assert_eq!(names.options(), &Some("grp:alt_shift_toggle".to_string()));
}

#[test]
fn with_layout_changes_the_layout_only() {
    let names = Rmlvo::new(Some(DEBIAN_FILE), &Vec::new());
    let other = names.with_layout("de".to_string());
    assert_eq!(other.layout(), "de");
    assert_eq!(other.model(), "pc105");
    assert_eq!(other.options(), &Some("grp:alt_shift_toggle".to_string()));
    assert_eq!(names.layout(), "us");
}

#[test]
fn set_changes_one_component() {
    let mut names = Rmlvo::default();
    names.set(Component::Variant, "dvorak".to_string());
    assert_eq!(names.variant(), "dvorak");
    assert_eq!(names.layout(), "");
    names.set(Component::Options, String::new());
    assert_eq!(names.options(), &Some(String::new()));
}

#[test]
fn component_of_each_variable() {
    assert_eq!(Component::by_variable(&"XKB_DEFAULT_RULES".to_string()), Some(Component::Rules));
    assert_eq!(Component::by_variable(&"XKB_DEFAULT_MODEL".to_string()), Some(Component::Model));
    assert_eq!(Component::by_variable(&"XKB_DEFAULT_LAYOUT".to_string()), Some(Component::Layout));
    assert_eq!(
        Component::by_variable(&"XKB_DEFAULT_VARIANT".to_string()),
        Some(Component::Variant)
    );
    assert_eq!(
        Component::by_variable(&"XKB_DEFAULT_OPTIONS".to_string()),
        Some(Component::Options)
    );
    assert_eq!(Component::by_variable(&"PATH".to_string()), None);
    assert_eq!(Component::Layout.variable(), "XKB_DEFAULT_LAYOUT");
    assert_eq!(Component::Layout.file_pattern(), "\\s*XKBLAYOUT\\s*=\"(.+)\"");
}

#[test]
fn nul_in_a_name_is_found() {
    let plain = Rmlvo::from_names(
        "evdev".to_string(),
        "pc105".to_string(),
        "us".to_string(),
        String::new(),
        Some("a\0b".to_string()),
    );
    assert!(!plain.holds_nul());
    assert!(plain.with_layout("u\0s".to_string()).holds_nul());
    let mut names = Rmlvo::default();
    names.set(Component::Variant, "\0".to_string());
    assert!(names.holds_nul());
}

#[test]
fn lines_are_split_as_std_splits_them() {
    let samples = [
        "",
        "\n",
        "a",
        "a\n",
        "a\nb",
        "a\r\nb\r\n",
        "a\r",
        "a\r\r\n",
        "\r\n",
        "\n\n",
        "a\n\nb\n",
        "one line\nsecond \u{e9}\u{4e2d}\r\nthird",
        "\r",
        "x\ry\n",
    ];
    for sample in samples {
        let expected: Vec<String> = sample.lines().map(|line| line.to_string()).collect();
        assert_eq!(split_lines(sample), expected, "{:?}", sample);
    }
}

#[test]
fn lines_of_a_small_text() {
    assert_eq!(split_lines("a\r\nbc\n\nd"), vec!["a", "bc", "", "d"]);
    assert_eq!(split_lines(""), Vec::<String>::new());
}

#[test]
fn leading_field_ends_at_the_first_comma() {
    assert_eq!(leading_field("us,de"), "us");
    assert_eq!(leading_field("us"), "us");
    assert_eq!(leading_field(""), "");
    assert_eq!(leading_field(","), "");
    assert_eq!(leading_field("\u{e9}t\u{e9},x,y"), "\u{e9}t\u{e9}");
}

#[test]
fn contains_nul_finds_a_nul() {
    assert!(!contains_nul(""));
    assert!(!contains_nul("us"));
    assert!(contains_nul("\0"));
    assert!(contains_nul("u\0s"));
    assert!(contains_nul("us\0"));
}
