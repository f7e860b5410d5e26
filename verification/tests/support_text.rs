use soureigate::clipboard::{
    base64_encode, clipboard_tools, copy_to_clipboard, external_outcome, osc52_sequence,
};
use soureigate::updater::Os;
use soureigate::current_version;
use soureigate::text::{decimal_string, pop_char, push_char, str_contains, trim_str};
use soureigate::version::{is_newer, parse_version};

#[test]
fn base64_of_full_group() {
    assert_eq!(base64_encode(b"Man"), "TWFu");
}

#[test]
fn base64_pads_partial_groups() {
    assert_eq!(base64_encode(b"Ma"), "TWE=");
    assert_eq!(base64_encode(b"M"), "TQ==");
    assert_eq!(base64_encode(b""), "");
    assert_eq!(base64_encode(b"hello world"), "aGVsbG8gd29ybGQ=");
}

#[test]
fn base64_length_is_four_per_started_group() {
    for n in 0..20usize {
        let input = vec![0xABu8; n];
        assert_eq!(base64_encode(&input).len(), 4 * ((n + 2) / 3));
    }
}

#[test]
fn osc52_wraps_the_encoded_text() {
    assert_eq!(osc52_sequence("hi"), "\x1b]52;c;aGk=\x07");
    assert_eq!(osc52_sequence(""), "\x1b]52;c;\x07");
}

#[test]
fn clipboard_succeeds_when_either_way_works() {
    assert!(copy_to_clipboard(true, false));
    assert!(copy_to_clipboard(false, true));
    assert!(copy_to_clipboard(true, true));
    assert!(!copy_to_clipboard(false, false));
}

#[test]
fn version_is_the_package_version() {
    assert_eq!(current_version(), "0.1.0");
}

#[test]
fn newer_versions_compare_component_by_component() {
    assert!(is_newer("1.1.0", "1.0.0"));
    assert!(is_newer("1.0.10", "1.0.9"));
    assert!(is_newer("2.0", "1.9.9"));
    assert!(is_newer("1.0.0.1", "1.0.0"));
    assert!(!is_newer("1.0.0", "1.0.0"));
    assert!(!is_newer("1.0.0", "1.1.0"));
}

#[test]
fn leading_v_is_ignored() {
    assert!(!is_newer("v1.0.0", "1.0.0"));
    assert!(!is_newer("1.0.0", "v1.0.0"));
    assert!(is_newer("v1.2.0", "1.1.9"));
    assert_eq!(parse_version("vv1.2.3"), vec![1, 2, 3]);
}

#[test]
fn pieces_that_are_not_numbers_are_dropped() {
    assert_eq!(parse_version("1.x.3"), vec![1, 3]);
    assert_eq!(parse_version("1..2"), vec![1, 2]);
    assert_eq!(parse_version("+4.5"), vec![4, 5]);
    assert_eq!(parse_version("4294967296.1"), vec![1]);
    assert_eq!(parse_version(""), Vec::<u32>::new());
}

#[test]
fn strings_helpers() {
    assert_eq!(push_char(&"ab".to_string(), 'c'), "abc");
    assert_eq!(pop_char(&"abc".to_string()), "ab");
    assert_eq!(pop_char(&String::new()), "");
    assert_eq!(trim_str("  a b \t\n"), "a b");
    assert!(str_contains("hello world", "lo w"));
    assert!(!str_contains("hello", "world"));
    assert_eq!(decimal_string(0), "0");
    assert_eq!(decimal_string(1234567890), "1234567890");
}

fn names(os: Os) -> Vec<(String, Vec<String>)> {
    clipboard_tools(os)
}

#[test]
fn clipboard_programs_per_platform() {
    let linux = names(Os::Other);
    let cmds: Vec<&str> = linux.iter().map(|(c, _)| c.as_str()).collect();
    assert_eq!(cmds, vec!["xclip", "xsel", "wl-copy", "clip.exe"]);
    assert_eq!(linux[0].1, vec!["-selection", "clipboard"]);
    assert_eq!(linux[1].1, vec!["--clipboard", "--input"]);
    assert!(linux[2].1.is_empty());
    assert_eq!(names(Os::MacOs), vec![("pbcopy".to_string(), Vec::<String>::new())]);
    assert_eq!(names(Os::Windows), vec![("clip.exe".to_string(), Vec::<String>::new())]);
}

#[test]
fn first_program_that_starts_decides() {
    assert!(!external_outcome(&vec![]));
    assert!(!external_outcome(&vec![None, None]));
    assert!(external_outcome(&vec![None, Some(true), Some(false)]));
    assert!(!external_outcome(&vec![Some(false), Some(true)]));
}
