use capi_wasm::text::{concat_str, string_of_chars, trim_chars, trim_str};

#[test]
fn trims_as_str_trim_does() {
    for s in ["  ab \n", "ab", "", "   ", "\u{3000}x y\u{2028}", "\t\u{a0}z\u{85}", "a\u{200b}"] {
        assert_eq!(trim_str(s), s.trim());
    }
}

#[test]
fn trimming_twice_is_trimming_once() {
    for s in ["  ab \n", " \u{2000}q\u{2001} ", "x"] {
        let once = trim_str(s);
        assert_eq!(trim_str(&once), once);
    }
}

#[test]
fn trims_characters() {
    let chars: Vec<char> = " a b ".chars().collect();
    assert_eq!(trim_chars(&chars), vec!['a', ' ', 'b']);
}

#[test]
fn builds_and_joins_strings() {
    assert_eq!(string_of_chars(&['h', 'é', '€']), "hé€");
    assert_eq!(concat_str("ab", "cd"), "abcd");
}
