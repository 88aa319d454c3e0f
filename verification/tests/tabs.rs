use rusty_browser::tab::initial_label;
use rusty_browser::tab::tab_label;
use rusty_browser::tab::window_title;
use rusty_browser::tab::ContextId;
use rusty_browser::tab::Tab;
use rusty_browser::tab::TabHandle;
use rusty_browser::tab::MAX_LABEL_CHARS;

const MARKER: &str = "\u{1F575}\u{FE0F} ";

#[test]
fn label_of_empty_title() {
    assert_eq!(tab_label("", false), "");
    assert_eq!(tab_label("", true), MARKER);
    assert_eq!(tab_label("", true).chars().count(), 3);
}

#[test]
fn label_of_500_character_title() {
    let title = "x".repeat(500);
    let plain = tab_label(&title, false);
    assert_eq!(plain, "xxxxxxxxxxxxxxx");
    assert_eq!(plain.chars().count(), 15);
    let marked = tab_label(&title, true);
    assert_eq!(marked, format!("{}{}", MARKER, "xxxxxxxxxxxxxxx"));
    assert_eq!(marked.chars().count(), 18);
}

#[test]
fn label_cuts_after_the_fifteenth_character() {
    assert_eq!(MAX_LABEL_CHARS, 15);
    assert_eq!(tab_label("fourteen chars", false), "fourteen chars");
    assert_eq!(tab_label("fifteen chars!!", false), "fifteen chars!!");
    assert_eq!(tab_label("sixteen chars!!!", false), "sixteen chars!!");
    assert_eq!(tab_label("Rust Programming Language", false), "Rust Programmin");
    assert_eq!(
        tab_label("Rust Programming Language", true),
        "\u{1F575}\u{FE0F} Rust Programmin"
    );
}

#[test]
fn label_counts_characters_of_any_width() {
    let title = "\u{00E9}".repeat(20);
    let label = tab_label(&title, false);
    assert_eq!(label, "\u{00E9}".repeat(15));
    assert_eq!(label.chars().count(), 15);
    assert_eq!(label.len(), 30);
    let wide = "\u{65E5}\u{672C}\u{8A9E}".repeat(6);
    assert_eq!(tab_label(&wide, true).chars().count(), 18);
}

#[test]
fn label_length_is_bounded_for_every_title_length() {
    let mut n: usize = 0;
    while n <= 40 {
        let title = "t".repeat(n);
        let shown: usize = if n < 15 { n } else { 15 };
        assert_eq!(tab_label(&title, false).chars().count(), shown);
        assert_eq!(tab_label(&title, true).chars().count(), shown + 3);
        assert!(tab_label(&title, true).starts_with(MARKER));
        n += 1;
    }
}

#[test]
fn label_while_loading() {
    assert_eq!(initial_label(false), "Loading...");
    assert_eq!(initial_label(true), "\u{1F575}\u{FE0F} Loading...");
}

#[test]
fn window_title_names_the_program() {
    assert_eq!(window_title(None), "Rusty Browser");
    assert_eq!(window_title(Some("Example Domain")), "Example Domain - Rusty Browser");
    assert_eq!(window_title(Some("")), " - Rusty Browser");
    let long = "y".repeat(500);
    assert_eq!(window_title(Some(&long)), format!("{} - Rusty Browser", long));
}

#[test]
fn new_tab_waits_for_its_page() {
    let tab = Tab::new(TabHandle(7), false);
    assert_eq!(tab.handle, TabHandle(7));
    assert!(!tab.incognito);
    assert_eq!(tab.label, "Loading...");
    assert_eq!(tab.uri, None);
    assert_eq!(tab.title, None);
    assert_eq!(tab.context(), ContextId::Persistent);
    let private = Tab::new(TabHandle(8), true);
    assert_eq!(private.label, "\u{1F575}\u{FE0F} Loading...");
    assert_eq!(private.context(), ContextId::Ephemeral(TabHandle(8)));
}

#[test]
fn reported_title_renews_the_label() {
    let mut tab = Tab::new(TabHandle(1), true);
    tab.note_title(Some("The Rust Programming Language"));
    assert_eq!(tab.title.as_deref(), Some("The Rust Programming Language"));
    assert_eq!(tab.label, "\u{1F575}\u{FE0F} The Rust Progra");
    tab.note_title(None);
    assert_eq!(tab.title, None);
    assert_eq!(tab.label, "\u{1F575}\u{FE0F} The Rust Progra");
    tab.note_title(Some(""));
    assert_eq!(tab.title.as_deref(), Some(""));
    assert_eq!(tab.label, MARKER);
}

#[test]
fn reported_address_leaves_the_label_alone() {
    let mut tab = Tab::new(TabHandle(1), false);
    tab.note_uri(Some("https://example.com/"));
    assert_eq!(tab.uri.as_deref(), Some("https://example.com/"));
    assert_eq!(tab.label, "Loading...");
    assert_eq!(tab.title, None);
    tab.note_uri(None);
    assert_eq!(tab.uri, None);
}
