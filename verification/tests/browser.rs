use rusty_browser::browser::Browser;
use rusty_browser::config::AppConfig;
use rusty_browser::config::SettingsForm;
use rusty_browser::model::ClosedTab;
use rusty_browser::navigation::EngineCall;
use rusty_browser::navigation::History;
use rusty_browser::navigation::NavCommand;
use rusty_browser::policy::AccelerationPolicy;
use rusty_browser::policy::SurfacePlan;
use rusty_browser::progress::ProgressUpdate;
use rusty_browser::tab::ContextId;
use rusty_browser::tab::TabHandle;

const MARKER: &str = "\u{1F575}\u{FE0F} ";

fn browser() -> Browser {
    Browser::new(AppConfig::default())
}

fn amnesia_browser() -> Browser {
    let mut config = AppConfig::default();
    config.amnesia_mode = true;
    Browser::new(config)
}

fn open(browser: &mut Browser, url: &str, incognito: bool) -> SurfacePlan {
    match browser.create_tab(url, incognito) {
        Some(plan) => plan,
        None => panic!("no handle left"),
    }
}

fn no_history() -> History {
    History { can_go_back: false, can_go_forward: false }
}

#[test]
fn starts_without_tabs() {
    let b = browser();
    assert_eq!(b.tab_count(), 0);
    assert_eq!(b.active(), None);
    assert_eq!(b.ephemeral_context_count(), 0);
    assert!(b.has_free_handle());
    assert_eq!(*b.config(), AppConfig::default());
    assert!(b.tab(TabHandle(0)).is_none());
    assert!(b.tab_at(0).is_none());
    assert_eq!(b.position(TabHandle(0)), None);
}

#[test]
fn created_tab_is_last_and_active() {
    let mut b = browser();
    let first = open(&mut b, "https://one.example/", false);
    let second = open(&mut b, "https://two.example/", false);
    assert_eq!(first.handle, TabHandle(0));
    assert_eq!(second.handle, TabHandle(1));
    assert_eq!(b.tab_count(), 2);
    assert_eq!(b.active(), Some(second.handle));
    assert_eq!(b.position(first.handle), Some(0));
    assert_eq!(b.position(second.handle), Some(1));
    assert_eq!(b.tab_at(1).map(|t| t.handle), Some(second.handle));
    assert_eq!(second.url, "https://two.example/");
    assert_eq!(second.label, "Loading...");
    let tab = b.tab(second.handle).unwrap();
    assert_eq!(tab.label, "Loading...");
    assert_eq!(tab.uri, None);
    assert_eq!(tab.title, None);
    assert!(!tab.incognito);
}

#[test]
fn incognito_tab_never_gets_the_persistent_context() {
    let mut b = browser();
    let mut round: u64 = 0;
    while round < 20 {
        let plan = open(&mut b, "https://private.example/", true);
        assert_ne!(plan.context, ContextId::Persistent);
        assert_eq!(plan.context, ContextId::Ephemeral(plan.handle));
        assert_eq!(b.tab(plan.handle).unwrap().context(), plan.context);
        assert_eq!(plan.label, "\u{1F575}\u{FE0F} Loading...");
        round += 1;
    }
    assert_eq!(b.ephemeral_context_count(), 20);
}

#[test]
fn incognito_tabs_do_not_share_a_context() {
    let mut b = browser();
    let one = open(&mut b, "https://a.example/", true);
    let two = open(&mut b, "https://b.example/", true);
    assert_ne!(one.context, two.context);
}

#[test]
fn plain_tabs_reuse_the_same_persistent_context() {
    let mut b = browser();
    let one = open(&mut b, "https://a.example/", false);
    let private = open(&mut b, "https://b.example/", true);
    let two = open(&mut b, "https://c.example/", false);
    assert_eq!(one.context, ContextId::Persistent);
    assert_eq!(two.context, ContextId::Persistent);
    assert_eq!(one.context, two.context);
    assert_ne!(private.context, one.context);
    assert_eq!(b.ephemeral_context_count(), 1);
}

#[test]
fn amnesia_mode_behaves_like_incognito() {
    for url in ["https://a.example/", "", "hello world"] {
        let mut asked = amnesia_browser();
        let mut not_asked = amnesia_browser();
        let with_flag = open(&mut asked, url, true);
        let without_flag = open(&mut not_asked, url, false);
        assert_eq!(without_flag, with_flag);
        assert_eq!(without_flag.context, ContextId::Ephemeral(TabHandle(0)));
        assert_eq!(without_flag.label, "\u{1F575}\u{FE0F} Loading...");
        assert_eq!(not_asked.tab(TabHandle(0)), asked.tab(TabHandle(0)));
        assert_eq!(not_asked.ephemeral_context_count(), 1);
        assert_eq!(not_asked.active(), asked.active());
    }
}

#[test]
fn plan_follows_the_preferences() {
    let mut b = browser();
    let plan = open(&mut b, "https://a.example/", false);
    assert!(plan.content_filter.is_some());
    assert_eq!(plan.policy.hardware_acceleration, AccelerationPolicy::Always);
    assert!(plan.policy.webgl);

    let mut config = AppConfig::default();
    config.enable_adblock = false;
    config.use_hw_accel = false;
    let mut plain = Browser::new(config);
    let plan = open(&mut plain, "https://a.example/", false);
    assert_eq!(plan.content_filter, None);
    assert_eq!(plan.policy.hardware_acceleration, AccelerationPolicy::Never);
    assert!(!plan.policy.webgl);
    assert!(plan.policy.media_stream);
    assert!(plan.policy.developer_extras);
    assert!(!plan.policy.smooth_scrolling);
}

#[test]
fn home_tab_loads_the_home_page() {
    let mut config = AppConfig::default();
    config.homepage = "https://home.example/".to_string();
    let mut b = Browser::new(config);
    let plan = b.open_home_tab(false).unwrap();
    assert_eq!(plan.url, "https://home.example/");
    assert_eq!(plan.context, ContextId::Persistent);
    let private = b.open_home_tab(true).unwrap();
    assert_eq!(private.url, "https://home.example/");
    assert_eq!(private.context, ContextId::Ephemeral(private.handle));
}

#[test]
fn closing_an_incognito_tab_releases_its_context() {
    let mut b = browser();
    let keep = open(&mut b, "https://a.example/", false);
    let private = open(&mut b, "https://b.example/", true);
    assert_eq!(b.ephemeral_context_count(), 1);
    let closed = b.close_tab(private.handle);
    assert_eq!(
        closed,
        Some(ClosedTab { released: Some(ContextId::Ephemeral(private.handle)), was_active: true })
    );
    assert_eq!(b.ephemeral_context_count(), 0);
    assert_eq!(b.tab_count(), 1);
    assert!(b.tab(private.handle).is_none());
    assert_eq!(b.position(keep.handle), Some(0));
    assert_eq!(b.active(), None);
}

#[test]
fn closing_a_plain_tab_releases_nothing() {
    let mut b = browser();
    let one = open(&mut b, "https://a.example/", false);
    let two = open(&mut b, "https://b.example/", false);
    assert_eq!(b.close_tab(one.handle), Some(ClosedTab { released: None, was_active: false }));
    assert_eq!(b.active(), Some(two.handle));
    assert_eq!(b.position(two.handle), Some(0));
    assert_eq!(b.tab_count(), 1);
}

#[test]
fn closing_an_unknown_tab_changes_nothing() {
    let mut b = browser();
    let one = open(&mut b, "https://a.example/", true);
    assert_eq!(b.close_tab(TabHandle(99)), None);
    assert_eq!(b.tab_count(), 1);
    assert_eq!(b.active(), Some(one.handle));
    assert_eq!(b.close_tab(one.handle).map(|c| c.was_active), Some(true));
    assert_eq!(b.close_tab(one.handle), None);
}

#[test]
fn repeated_open_and_close_leaks_no_context() {
    let mut b = browser();
    let keep = open(&mut b, "https://a.example/", false);
    let mut round: u64 = 0;
    while round < 200 {
        let private = open(&mut b, "https://b.example/", true);
        assert_eq!(private.handle, TabHandle(round + 1));
        assert_eq!(b.ephemeral_context_count(), 1);
        assert_eq!(b.tab_count(), 2);
        let closed = b.close_tab(private.handle).unwrap();
        assert_eq!(closed.released, Some(private.context));
        assert_eq!(b.ephemeral_context_count(), 0);
        assert_eq!(b.tab_count(), 1);
        round += 1;
    }
    assert_eq!(b.position(keep.handle), Some(0));
}

#[test]
fn handles_are_not_reused() {
    let mut b = browser();
    let one = open(&mut b, "https://a.example/", false);
    b.close_tab(one.handle);
    let two = open(&mut b, "https://a.example/", false);
    assert_ne!(one.handle, two.handle);
    assert!(b.tab(one.handle).is_none());
}

#[test]
fn address_bar_follows_the_active_tab_only() {
    let mut b = browser();
    let back = open(&mut b, "https://a.example/", false);
    let front = open(&mut b, "https://b.example/", false);
    assert_eq!(b.uri_changed(back.handle, Some("https://a.example/next")), None);
    assert_eq!(b.tab(back.handle).unwrap().uri.as_deref(), Some("https://a.example/next"));
    assert_eq!(
        b.uri_changed(front.handle, Some("https://b.example/next")).as_deref(),
        Some("https://b.example/next")
    );
    assert_eq!(b.uri_changed(front.handle, None), None);
    assert_eq!(b.tab(front.handle).unwrap().uri, None);
    assert_eq!(b.uri_changed(TabHandle(50), Some("https://c.example/")), None);
    assert_eq!(b.tab_count(), 2);
}

#[test]
fn title_renews_label_and_window_title() {
    let mut b = browser();
    let back = open(&mut b, "https://a.example/", true);
    let front = open(&mut b, "https://b.example/", false);

    let update = b.title_changed(front.handle, Some("The Rust Programming Language"));
    assert_eq!(update.label.as_deref(), Some("The Rust Progra"));
    assert_eq!(
        update.window_title.as_deref(),
        Some("The Rust Programming Language - Rusty Browser")
    );
    assert_eq!(b.tab(front.handle).unwrap().label, "The Rust Progra");

    let update = b.title_changed(back.handle, Some("Private Things To Read"));
    assert_eq!(update.label.as_deref(), Some("\u{1F575}\u{FE0F} Private Things "));
    assert_eq!(update.window_title, None);
    assert_eq!(
        b.tab(back.handle).unwrap().title.as_deref(),
        Some("Private Things To Read")
    );

    let update = b.title_changed(front.handle, None);
    assert_eq!(update.label, None);
    assert_eq!(update.window_title, None);
    assert_eq!(b.tab(front.handle).unwrap().title, None);
    assert_eq!(b.tab(front.handle).unwrap().label, "The Rust Progra");

    let update = b.title_changed(TabHandle(50), Some("Nobody"));
    assert_eq!(update.label, None);
    assert_eq!(update.window_title, None);
}

#[test]
fn label_in_the_registry_is_bounded_for_long_and_empty_titles() {
    let mut b = browser();
    let plain = open(&mut b, "https://a.example/", false);
    let private = open(&mut b, "https://b.example/", true);
    let long = "z".repeat(500);
    for title in ["", long.as_str()] {
        b.title_changed(plain.handle, Some(title));
        b.title_changed(private.handle, Some(title));
        let shown: usize = if title.is_empty() { 0 } else { 15 };
        assert_eq!(b.tab(plain.handle).unwrap().label.chars().count(), shown);
        let label = &b.tab(private.handle).unwrap().label;
        assert_eq!(label.chars().count(), shown + 3);
        assert!(label.starts_with(MARKER));
    }
}

#[test]
fn switching_brings_address_bar_and_title_in_line() {
    let mut b = browser();
    let one = open(&mut b, "https://a.example/", false);
    let two = open(&mut b, "https://b.example/", false);
    b.uri_changed(one.handle, Some("https://a.example/page"));
    b.title_changed(one.handle, Some("Page A"));

    let sync = b.switch_active_tab(one.handle).unwrap();
    assert_eq!(sync.address_bar.as_deref(), Some("https://a.example/page"));
    assert_eq!(sync.window_title, "Page A - Rusty Browser");
    assert_eq!(b.active(), Some(one.handle));

    let sync = b.switch_active_tab(two.handle).unwrap();
    assert_eq!(sync.address_bar, None);
    assert_eq!(sync.window_title, "Rusty Browser");
    assert_eq!(b.active(), Some(two.handle));

    assert_eq!(b.switch_active_tab(TabHandle(50)), None);
    assert_eq!(b.active(), Some(two.handle));
}

#[test]
fn progress_indicator_follows_the_active_tab_only() {
    let mut b = browser();
    let back = open(&mut b, "https://a.example/", false);
    let front = open(&mut b, "https://b.example/", false);
    assert_eq!(b.progress_changed(back.handle, 0.5f64.to_bits()), None);
    assert_eq!(b.progress_changed(back.handle, 1.0f64.to_bits()), None);
    assert_eq!(b.progress_changed(TabHandle(50), 0.5f64.to_bits()), None);
    assert_eq!(
        b.progress_changed(front.handle, 0.5f64.to_bits()),
        Some(ProgressUpdate { fraction_bits: 0.5f64.to_bits(), visible: true })
    );
    assert_eq!(
        b.progress_changed(front.handle, 1.0f64.to_bits()),
        Some(ProgressUpdate { fraction_bits: 1.0f64.to_bits(), visible: false })
    );
    b.close_tab(front.handle);
    assert_eq!(b.progress_changed(front.handle, 0.5f64.to_bits()), None);
}

#[test]
fn progress_indicator_hides_exactly_at_one_over_repeated_loads() {
    let mut b = browser();
    let tab = open(&mut b, "https://a.example/", false);
    let mut cycle: u32 = 0;
    while cycle < 3 {
        for (fraction, visible) in [(0.0f64, true), (0.1, true), (0.75, true), (0.999, true), (1.0, false)] {
            let update = b.progress_changed(tab.handle, fraction.to_bits()).unwrap();
            assert_eq!(update.visible, visible);
            assert_eq!(f64::from_bits(update.fraction_bits), fraction);
        }
        cycle += 1;
    }
}

#[test]
fn toolbar_commands_go_to_the_active_tab() {
    let mut b = browser();
    let back = open(&mut b, "https://a.example/", false);
    let front = open(&mut b, "https://b.example/", false);
    let free = History { can_go_back: true, can_go_forward: true };

    let n = b.navigate(&NavCommand::Reload, no_history()).unwrap();
    assert_eq!(n.tab, front.handle);
    assert_eq!(n.call, EngineCall::Reload);
    assert_eq!(b.navigate(&NavCommand::Back, no_history()), None);
    assert_eq!(b.navigate(&NavCommand::Forward, no_history()), None);
    assert_eq!(b.navigate(&NavCommand::Back, free).unwrap().call, EngineCall::GoBack);
    assert_eq!(b.navigate(&NavCommand::Forward, free).unwrap().call, EngineCall::GoForward);
    assert_eq!(
        b.navigate(&NavCommand::Back, History { can_go_back: false, can_go_forward: true }),
        None
    );
    assert_eq!(
        b.navigate(&NavCommand::Home, no_history()).unwrap().call,
        EngineCall::LoadUri("https://duckduckgo.com".to_string())
    );

    b.switch_active_tab(back.handle);
    assert_eq!(b.navigate(&NavCommand::Reload, no_history()).unwrap().tab, back.handle);
}

#[test]
fn submitted_address_is_resolved_with_the_current_engine() {
    let mut b = browser();
    open(&mut b, "https://a.example/", false);
    let submit = |b: &Browser, text: &str| -> EngineCall {
        b.navigate(&NavCommand::Submit(text.to_string()), no_history()).unwrap().call
    };
    assert_eq!(submit(&b, "example.com"), EngineCall::LoadUri("https://example.com".to_string()));
    assert_eq!(
        submit(&b, "hello world"),
        EngineCall::LoadUri("https://duckduckgo.com/?q=hello world".to_string())
    );
    assert_eq!(
        submit(&b, "https://foo.bar/x"),
        EngineCall::LoadUri("https://foo.bar/x".to_string())
    );
    assert_eq!(submit(&b, "bing"), EngineCall::LoadUri("https://duckduckgo.com/?q=bing".to_string()));

    let mut form = b.config().form();
    form.search_engine_index = 3;
    b.confirm_settings(&form);
    assert_eq!(
        submit(&b, "bing"),
        EngineCall::LoadUri("https://search.brave.com/search?q=bing".to_string())
    );
}

#[test]
fn toolbar_commands_do_nothing_without_an_active_tab() {
    let mut b = browser();
    let free = History { can_go_back: true, can_go_forward: true };
    assert_eq!(b.navigate(&NavCommand::Reload, free), None);
    assert_eq!(b.navigate(&NavCommand::Home, free), None);
    let tab = open(&mut b, "https://a.example/", false);
    b.close_tab(tab.handle);
    assert_eq!(b.navigate(&NavCommand::Reload, free), None);
    assert_eq!(b.navigate(&NavCommand::Submit("example.com".to_string()), free), None);
}

#[test]
fn confirmed_settings_pair_index_and_url_for_each_engine() {
    let urls = [
        "https://duckduckgo.com/?q=",
        "https://www.google.com/search?q=",
        "https://www.bing.com/search?q=",
        "https://search.brave.com/search?q=",
    ];
    let mut b = browser();
    let mut index: u32 = 0;
    for url in urls {
        let mut form = b.config().form();
        form.search_engine_index = index;
        let effect = b.confirm_settings(&form);
        assert_eq!(b.config().search_engine_index, index);
        assert_eq!(b.config().search_engine_url, url);
        assert_eq!(effect.document.search_engine_index, Some(index));
        assert_eq!(effect.document.search_engine_url.as_deref(), Some(url));
        index += 1;
    }
    let mut form = b.config().form();
    form.search_engine_index = u32::MAX;
    b.confirm_settings(&form);
    assert_eq!(b.config().search_engine_index, 3);
    assert_eq!(b.config().search_engine_url, "https://search.brave.com/search?q=");
}

#[test]
fn confirmed_settings_apply_to_new_tabs_only() {
    let mut b = browser();
    let before = open(&mut b, "https://a.example/", false);
    let form = SettingsForm {
        homepage: "https://home.example/".to_string(),
        use_hw_accel: false,
        enable_adblock: false,
        amnesia_mode: true,
        show_home_button: false,
        search_engine_index: 1,
    };
    let effect = b.confirm_settings(&form);
    assert!(!effect.show_home_button);
    assert_eq!(effect.document, b.config().to_document());
    assert_eq!(effect.document.homepage.as_deref(), Some("https://home.example/"));
    assert_eq!(effect.document.amnesia_mode, Some(true));

    let old_tab = b.tab(before.handle).unwrap();
    assert!(!old_tab.incognito);
    assert_eq!(old_tab.context(), ContextId::Persistent);
    assert_eq!(b.active(), Some(before.handle));
    assert_eq!(b.tab_count(), 1);

    let after = b.open_home_tab(false).unwrap();
    assert_eq!(after.url, "https://home.example/");
    assert_eq!(after.context, ContextId::Ephemeral(after.handle));
    assert_eq!(after.content_filter, None);
    assert_eq!(after.policy.hardware_acceleration, AccelerationPolicy::Never);
    assert!(!after.policy.webgl);
}
