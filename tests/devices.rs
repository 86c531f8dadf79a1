use shifter::devices::{contains_chars, is_virtual_device, is_virtual_name, name_matches};

fn chars(s: &str) -> Vec<char> {
    s.chars().collect()
}

#[test]
fn virtual_devices_by_name() {
    assert!(is_virtual_device("BlackHole 2ch"));
    assert!(is_virtual_device("SOUNDFLOWER (64ch)"));
    assert!(is_virtual_device("Loopback Audio"));
    assert!(!is_virtual_device("MacBook Pro Speakers"));
    assert!(!is_virtual_device(""));
    assert!(!is_virtual_device("Black Hole"));
}

#[test]
fn virtual_name_needs_lower_case() {
    assert!(is_virtual_name(&chars("my blackhole")));
    assert!(!is_virtual_name(&chars("my BlackHole")));
}

#[test]
fn contains_runs_of_characters() {
    assert!(contains_chars(&chars("speakers"), &chars("eak")));
    assert!(contains_chars(&chars("speakers"), &chars("")));
    assert!(contains_chars(&chars("abc"), &chars("abc")));
    assert!(!contains_chars(&chars("abc"), &chars("abcd")));
    assert!(!contains_chars(&chars("speakers"), &chars("spk")));
}

#[test]
fn names_match_ignoring_case() {
    assert!(name_matches("blackhole", "BlackHole 16ch"));
    assert!(name_matches("SPEAK", "MacBook Pro Speakers"));
    assert!(!name_matches("usb", "MacBook Pro Speakers"));
    assert!(name_matches("", "anything"));
}
