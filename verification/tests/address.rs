use rusty_browser::address::classify_address;
use rusty_browser::address::resolve_address;
use rusty_browser::address::AddressKind;
use rusty_browser::text::contains_char;
use rusty_browser::text::contains_scheme_separator;
use rusty_browser::text::contains_whitespace;
use rusty_browser::text::is_whitespace;
use rusty_browser::text::take_chars;

const ENGINE: &str = "https://duckduckgo.com/?q=";

#[test]
fn bare_domain_gets_secure_scheme() {
    assert_eq!(classify_address("example.com"), AddressKind::BareDomain);
    assert_eq!(resolve_address("example.com", ENGINE), "https://example.com");
}

#[test]
fn text_with_space_is_searched() {
    assert_eq!(classify_address("hello world"), AddressKind::SearchQuery);
    assert_eq!(
        resolve_address("hello world", ENGINE),
        "https://duckduckgo.com/?q=hello world"
    );
}

#[test]
fn full_url_passes_through_unchanged() {
    assert_eq!(classify_address("https://foo.bar/x"), AddressKind::FullUrl);
    assert_eq!(resolve_address("https://foo.bar/x", ENGINE), "https://foo.bar/x");
}

#[test]
fn dotless_word_is_searched_not_taken_for_a_domain() {
    assert_eq!(classify_address("bing"), AddressKind::SearchQuery);
    assert_eq!(resolve_address("bing", ENGINE), "https://duckduckgo.com/?q=bing");
    assert_ne!(resolve_address("bing", ENGINE), "https://bing");
}

#[test]
fn search_uses_the_engine_that_is_passed() {
    assert_eq!(
        resolve_address("rust verus", "https://www.google.com/search?q="),
        "https://www.google.com/search?q=rust verus"
    );
    assert_eq!(
        resolve_address("bing", "https://search.brave.com/search?q="),
        "https://search.brave.com/search?q=bing"
    );
}

#[test]
fn domain_with_white_space_is_searched() {
    assert_eq!(classify_address("example.com now"), AddressKind::SearchQuery);
    assert_eq!(classify_address("example.com\tnow"), AddressKind::SearchQuery);
    assert_eq!(classify_address("example.com\u{00A0}now"), AddressKind::SearchQuery);
    assert_eq!(classify_address(" example.com"), AddressKind::SearchQuery);
    assert_eq!(
        resolve_address("example.com now", ENGINE),
        "https://duckduckgo.com/?q=example.com now"
    );
}

#[test]
fn scheme_separator_wins_over_the_other_readings() {
    assert_eq!(classify_address("ftp://host"), AddressKind::FullUrl);
    assert_eq!(classify_address("about://x y"), AddressKind::FullUrl);
    assert_eq!(classify_address("://"), AddressKind::FullUrl);
    assert_eq!(resolve_address("a b://c", ENGINE), "a b://c");
}

#[test]
fn empty_text_is_a_search_for_nothing() {
    assert_eq!(classify_address(""), AddressKind::SearchQuery);
    assert_eq!(resolve_address("", ENGINE), ENGINE);
}

#[test]
fn near_misses_of_the_scheme_separator() {
    assert!(!contains_scheme_separator(""));
    assert!(!contains_scheme_separator(":/"));
    assert!(!contains_scheme_separator(":/:/"));
    assert!(!contains_scheme_separator("a:b//c"));
    assert!(!contains_scheme_separator("//:"));
    assert!(contains_scheme_separator("://"));
    assert!(contains_scheme_separator("::://"));
    assert!(contains_scheme_separator(":/://"));
    assert!(contains_scheme_separator("x:///"));
    assert!(contains_scheme_separator("\u{1F575}://y"));
    assert_eq!(classify_address("host.name:/path"), AddressKind::BareDomain);
}

#[test]
fn scheme_separator_agrees_with_substring_search() {
    let alphabet: [char; 4] = [':', '/', 'a', '.'];
    let mut code: u32 = 0;
    while code < 4096 {
        let mut text = String::new();
        let mut rest: u32 = code;
        let mut k: u32 = 0;
        while k < 6 {
            text.push(alphabet[(rest % 4) as usize]);
            rest /= 4;
            k += 1;
        }
        assert_eq!(contains_scheme_separator(&text), text.contains("://"), "{}", text);
        assert_eq!(contains_char(&text, '.'), text.contains('.'), "{}", text);
        code += 1;
    }
}

#[test]
fn white_space_is_the_unicode_property() {
    let mut code: u32 = 0;
    while code <= 0x10FFFF {
        if let Some(c) = char::from_u32(code) {
            assert_eq!(is_whitespace(c), c.is_whitespace(), "U+{:04X}", code);
        }
        code += 1;
    }
}

#[test]
fn white_space_is_found_anywhere() {
    assert!(!contains_whitespace(""));
    assert!(!contains_whitespace("example.com"));
    assert!(contains_whitespace("a b"));
    assert!(contains_whitespace("ab\n"));
    assert!(contains_whitespace("\u{3000}ab"));
    assert!(!contains_whitespace("a\u{200B}b"));
}

#[test]
fn take_chars_counts_characters_not_bytes() {
    assert_eq!(take_chars("", 15), "");
    assert_eq!(take_chars("abc", 0), "");
    assert_eq!(take_chars("abc", 2), "ab");
    assert_eq!(take_chars("abc", 3), "abc");
    assert_eq!(take_chars("abc", 4), "abc");
    assert_eq!(take_chars("\u{00E9}\u{00E9}\u{00E9}", 2), "\u{00E9}\u{00E9}");
    assert_eq!(take_chars("\u{1F575}\u{FE0F}x", 1), "\u{1F575}");
}
