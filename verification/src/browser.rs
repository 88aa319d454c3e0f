//! The tab registry and the decisions around it.
//!
//! A [`Browser`] holds the preferences, the open tabs in the order of
//! their headers, and which tab is active. The surrounding program reports
//! what the user and the pages did; each method moves the state on and
//! returns what the program has to do to the widgets and the engine.

use vstd::prelude::*;
use vstd::string::StringExecFns;
use crate::config::text_view;
use crate::config::AppConfig;
use crate::config::ConfigDocument;
use crate::config::SettingsForm;
use crate::model::incognito_count;
use crate::model::law_close_keeps_wf;
use crate::model::law_create_keeps_wf;
use crate::model::law_report_keeps_wf;
use crate::model::BrowserView;
use crate::model::ChromeSyncView;
use crate::model::ClosedTab;
use crate::model::NavigationView;
use crate::model::SettingsEffectView;
use crate::model::TitleUpdateView;
use crate::navigation::engine_call;
use crate::navigation::EngineCall;
use crate::navigation::History;
use crate::navigation::NavCommand;
use crate::policy::content_filter;
use crate::policy::render_policy;
use crate::policy::SurfacePlan;
use crate::progress::progress_update;
use crate::progress::ProgressUpdate;
use crate::tab::str_view;
use crate::tab::window_title;
use crate::tab::ContextId;
use crate::tab::Tab;
use crate::tab::TabHandle;
use crate::tab::TabView;

verus! {

/// The state of the browser shell.
#[derive(Debug)]
pub struct Browser {
    config: AppConfig,
    tabs: Vec<Tab>,
    active: Option<TabHandle>,
    next_id: u64,
}

/// The views of a run of tabs.
pub open spec fn tab_views(tabs: Seq<Tab>) -> Seq<TabView> {
    tabs.map_values(|t: Tab| t@)
}

impl View for Browser {
    type V = BrowserView;

    closed spec fn view(&self) -> BrowserView {
        BrowserView {
            config: self.config@,
            tabs: tab_views(self.tabs@),
            active: self.active,
            next_id: self.next_id,
        }
    }
}

/// What the window shows after a switch of tabs.
#[derive(Clone, Debug, PartialEq, Eq)]
pub struct ChromeSync {
    /// The text to put into the address bar; `None` leaves its text alone.
    pub address_bar: Option<String>,
    /// The window's title.
    pub window_title: String,
}

impl View for ChromeSync {
    type V = ChromeSyncView;

    open spec fn view(&self) -> ChromeSyncView {
        ChromeSyncView {
            address_bar: text_view(self.address_bar),
            window_title: self.window_title@,
        }
    }
}

/// What to show after a page reported a title.
#[derive(Clone, Debug, PartialEq, Eq)]
pub struct TitleUpdate {
    /// The text to put on the tab's header; `None` leaves it alone.
    pub label: Option<String>,
    /// The window's title; `None` leaves it alone.
    pub window_title: Option<String>,
}

impl View for TitleUpdate {
    type V = TitleUpdateView;

    open spec fn view(&self) -> TitleUpdateView {
        TitleUpdateView {
            label: text_view(self.label),
            window_title: text_view(self.window_title),
        }
    }
}

/// An engine call and the tab on whose surface to make it.
#[derive(Clone, Debug, PartialEq, Eq)]
pub struct Navigation {
    pub tab: TabHandle,
    pub call: EngineCall,
}

impl View for Navigation {
    type V = NavigationView;

    open spec fn view(&self) -> NavigationView {
        NavigationView { tab: self.tab, call: self.call@ }
    }
}

/// What confirming the settings form asks of the program.
#[derive(Clone, Debug, PartialEq, Eq)]
pub struct SettingsEffect {
    /// Whether the toolbar shows the home button from now on.
    pub show_home_button: bool,
    /// The document to store.
    pub document: ConfigDocument,
}

impl View for SettingsEffect {
    type V = SettingsEffectView;

    open spec fn view(&self) -> SettingsEffectView {
        SettingsEffectView { show_home_button: self.show_home_button, document: self.document@ }
    }
}

impl Browser {
    /// The shell at startup, with the loaded preferences and no tab.
    pub fn new(config: AppConfig) -> (browser: Browser)
        ensures
            browser@ == BrowserView::initial(config@),
            browser@.wf(),
    {
        let browser = Browser { config, tabs: Vec::new(), active: None, next_id: 0 };
        assert(browser@.tabs =~= Seq::empty());
        browser
    }

    /// The first position at which a tab has the handle `handle`.
    fn find(&self, handle: TabHandle) -> (found: Option<usize>)
        ensures
            found is Some <==> self@.has_tab(handle),
            found matches Some(i) ==> i < self.tabs@.len() && i == self@.position(handle),
    {
        let mut i: usize = 0;
        while i < self.tabs.len()
            invariant
                i <= self.tabs@.len(),
                forall|j: int| 0 <= j < i ==> (#[trigger] self@.tabs[j]).handle != handle,
            decreases self.tabs@.len() - i,
        {
            if self.tabs[i].handle == handle {
                assert(self@.tabs[i as int].handle == handle);
                assert(self@.is_position_of(handle, i as int));
                return Some(i);
            }
            i += 1;
        }
        None
    }

    /// The preferences.
    pub fn config(&self) -> (config: &AppConfig)
        ensures
            config@ == self@.config,
    {
        &self.config
    }

    /// How many tabs are open.
    pub fn tab_count(&self) -> (count: usize)
        ensures
            count == self@.tabs.len(),
    {
        self.tabs.len()
    }

    /// The active tab, if any.
    pub fn active(&self) -> (active: Option<TabHandle>)
        ensures
            active == self@.active,
    {
        self.active
    }

    /// Whether one more tab can be created.
    pub fn has_free_handle(&self) -> (free: bool)
        ensures
            free == self@.has_free_handle(),
    {
        self.next_id < u64::MAX
    }

    /// The position of the tab `handle` among the headers; `None` exactly
    /// when no such tab is open.
    pub fn position(&self, handle: TabHandle) -> (position: Option<usize>)
        ensures
            position is Some <==> self@.has_tab(handle),
            position matches Some(i) ==> i == self@.position(handle),
    {
        self.find(handle)
    }

    /// The tab `handle`; `None` exactly when no such tab is open.
    pub fn tab(&self, handle: TabHandle) -> (tab: Option<&Tab>)
        ensures
            tab is Some <==> self@.has_tab(handle),
            tab matches Some(t) ==> t@ == self@.tab(handle),
    {
        match self.find(handle) {
            Some(i) => Some(&self.tabs[i]),
            None => None,
        }
    }

    /// The tab at position `index`; `None` exactly when `index` is not
    /// below the number of tabs.
    pub fn tab_at(&self, index: usize) -> (tab: Option<&Tab>)
        ensures
            tab is Some <==> index < self@.tabs.len(),
            tab matches Some(t) ==> t@ == self@.tabs[index as int],
    {
        if index < self.tabs.len() {
            Some(&self.tabs[index])
        } else {
            None
        }
    }

    /// How many throwaway contexts are alive: one for each incognito tab.
    pub fn ephemeral_context_count(&self) -> (count: usize)
        ensures
            count == incognito_count(self@.tabs),
    {
        let mut count: usize = 0;
        let mut i: usize = 0;
        while i < self.tabs.len()
            invariant
                i <= self.tabs@.len(),
                count <= i,
                count == incognito_count(self@.tabs.take(i as int)),
            decreases self.tabs@.len() - i,
        {
            assert(self@.tabs.take(i + 1).drop_last() =~= self@.tabs.take(i as int));
            if self.tabs[i].incognito {
                count += 1;
            }
            i += 1;
        }
        assert(self@.tabs.take(i as int) =~= self@.tabs);
        count
    }

    /// Creates a tab for `url`.
    ///
    /// The tab browses in a throwaway context of its own if `incognito` is
    /// set or amnesia mode is on, and in the shared durable context
    /// otherwise. It is added behind the open tabs and made the active one.
    /// The returned plan says how to build its rendering surface under the
    /// current preferences. `None` is returned, and nothing changes, only
    /// where all handles are used up.
    pub fn create_tab(&mut self, url: &str, incognito: bool) -> (plan: Option<SurfacePlan>)
        ensures
            final(self)@ == old(self)@.after_create(incognito),
            match plan {
                Some(p) => old(self)@.plan(url@, incognito) == Some(p@),
                None => old(self)@.plan(url@, incognito) is None,
            },
            old(self)@.wf() ==> final(self)@.wf(),
    {
        if self.next_id == u64::MAX {
            return None;
        }
        let handle = TabHandle(self.next_id);
        let effective = incognito || self.config.amnesia_mode;
        let tab = Tab::new(handle, effective);
        let plan = SurfacePlan {
            handle,
            context: tab.context(),
            content_filter: content_filter(self.config.enable_adblock),
            policy: render_policy(self.config.use_hw_accel),
            label: tab.label.clone(),
            url: String::from_str(url),
        };
        self.tabs.push(tab);
        self.active = Some(handle);
        self.next_id = self.next_id + 1;
        proof {
            assert(self@.tabs =~= old(self)@.tabs.push(old(self)@.next_tab(incognito)));
            if old(self)@.wf() {
                law_create_keeps_wf(old(self)@, incognito);
            }
        }
        Some(plan)
    }

    /// Creates a tab for the home page.
    pub fn open_home_tab(&mut self, incognito: bool) -> (plan: Option<SurfacePlan>)
        ensures
            final(self)@ == old(self)@.after_create(incognito),
            match plan {
                Some(p) => old(self)@.plan(old(self)@.config.homepage, incognito) == Some(p@),
                None => old(self)@.plan(old(self)@.config.homepage, incognito) is None,
            },
            old(self)@.wf() ==> final(self)@.wf(),
    {
        let url = self.config.homepage.clone();
        self.create_tab(url.as_str(), incognito)
    }

    /// Closes the tab `handle`.
    ///
    /// The tab leaves the registry and its throwaway context, if it had
    /// one, is released with it. Where it was the active tab, no tab is
    /// active until the next switch. `None` is returned, and nothing
    /// changes, exactly when no such tab is open.
    pub fn close_tab(&mut self, handle: TabHandle) -> (closed: Option<ClosedTab>)
        ensures
            final(self)@ == old(self)@.after_close(handle),
            closed == old(self)@.closed(handle),
            old(self)@.wf() ==> final(self)@.wf(),
    {
        match self.find(handle) {
            Some(i) => {
                let tab = self.tabs.remove(i);
                let was_active = match self.active {
                    Some(a) => a == handle,
                    None => false,
                };
                if was_active {
                    self.active = None;
                }
                proof {
                    assert(tab@ == old(self)@.tab(handle));
                    assert(self@.tabs =~= old(self)@.tabs.remove(i as int));
                    if old(self)@.wf() {
                        law_close_keeps_wf(old(self)@, handle);
                    }
                }
                Some(
                    ClosedTab {
                        released: if tab.incognito {
                            Some(ContextId::Ephemeral(handle))
                        } else {
                            None
                        },
                        was_active,
                    },
                )
            },
            None => None,
        }
    }

    /// The user switched to the tab `handle`.
    ///
    /// The tab becomes the active one, and the returned values bring the
    /// address bar and the window title in line with what its page last
    /// reported. `None` is returned, and nothing changes, exactly when no
    /// such tab is open.
    pub fn switch_active_tab(&mut self, handle: TabHandle) -> (sync: Option<ChromeSync>)
        ensures
            final(self)@ == old(self)@.after_switch(handle),
            match sync {
                Some(c) => old(self)@.chrome_sync(handle) == Some(c@),
                None => old(self)@.chrome_sync(handle) is None,
            },
            old(self)@.wf() ==> final(self)@.wf(),
    {
        match self.find(handle) {
            Some(i) => {
                self.active = Some(handle);
                let tab = &self.tabs[i];
                let address_bar = match &tab.uri {
                    Some(u) => Some(u.clone()),
                    None => None,
                };
                let title = match &tab.title {
                    Some(t) => window_title(Some(t.as_str())),
                    None => window_title(None),
                };
                Some(ChromeSync { address_bar, window_title: title })
            },
            None => None,
        }
    }

    /// The page of the tab `handle` reported the address `uri`.
    ///
    /// The tab remembers the address. The returned text, if any, goes into
    /// the address bar: the address itself where the tab is the active one,
    /// nothing where it is in the background or not open.
    pub fn uri_changed(&mut self, handle: TabHandle, uri: Option<&str>) -> (address_bar: Option<
        String,
    >)
        ensures
            final(self)@ == old(self)@.after_uri(handle, str_view(uri)),
            text_view(address_bar) == old(self)@.address_bar_on_uri(handle, str_view(uri)),
            old(self)@.wf() ==> final(self)@.wf(),
    {
        match self.find(handle) {
            Some(i) => {
                self.tabs[i].note_uri(uri);
                proof {
                    assert(self@.tabs =~= old(self)@.tabs.update(
                        i as int,
                        old(self)@.tab(handle).with_uri(str_view(uri)),
                    ));
                    if old(self)@.wf() {
                        law_report_keeps_wf(old(self)@, handle, str_view(uri));
                    }
                }
                let is_active = match self.active {
                    Some(a) => a == handle,
                    None => false,
                };
                if is_active {
                    match uri {
                        Some(u) => Some(String::from_str(u)),
                        None => None,
                    }
                } else {
                    None
                }
            },
            None => None,
        }
    }

    /// The page of the tab `handle` reported the title `title`.
    ///
    /// The tab remembers the title, and a title that is there renews the
    /// tab's label: at most fifteen of its characters, behind the marker
    /// on an incognito tab. The returned label goes on the tab's header;
    /// the returned window title, which holds the full title, is there
    /// only where the tab is the active one.
    pub fn title_changed(&mut self, handle: TabHandle, title: Option<&str>) -> (update: TitleUpdate)
        ensures
            final(self)@ == old(self)@.after_title(handle, str_view(title)),
            update@ == old(self)@.title_update(handle, str_view(title)),
            old(self)@.wf() ==> final(self)@.wf(),
    {
        match self.find(handle) {
            Some(i) => {
                self.tabs[i].note_title(title);
                proof {
                    assert(self@.tabs =~= old(self)@.tabs.update(
                        i as int,
                        old(self)@.tab(handle).with_title(str_view(title)),
                    ));
                    if old(self)@.wf() {
                        law_report_keeps_wf(old(self)@, handle, str_view(title));
                    }
                }
                match title {
                    Some(t) => {
                        let is_active = match self.active {
                            Some(a) => a == handle,
                            None => false,
                        };
                        TitleUpdate {
                            label: Some(self.tabs[i].label.clone()),
                            window_title: if is_active {
                                Some(window_title(Some(t)))
                            } else {
                                None
                            },
                        }
                    },
                    None => TitleUpdate { label: None, window_title: None },
                }
            },
            None => TitleUpdate { label: None, window_title: None },
        }
    }

    /// The page of the tab `handle` reported its load progress, a
    /// binary64 fraction given by its bit pattern.
    ///
    /// Where the tab is the active one, the returned update shows the
    /// fraction and hides the indicator exactly when the fraction has
    /// reached one. A tab in the background, or one that is not open,
    /// gives `None`.
    pub fn progress_changed(&self, handle: TabHandle, fraction_bits: u64) -> (update: Option<
        ProgressUpdate,
    >)
        ensures
            update == self@.progress_on(handle, fraction_bits),
    {
        let is_active = match self.active {
            Some(a) => a == handle,
            None => false,
        };
        if is_active && self.find(handle).is_some() {
            Some(progress_update(fraction_bits))
        } else {
            None
        }
    }

    /// The user gave a toolbar command.
    ///
    /// Returns the engine call to make and the tab on whose surface to
    /// make it, which is the active one. `history` is what that surface's
    /// history allows.
    pub fn navigate(&self, command: &NavCommand, history: History) -> (navigation: Option<
        Navigation,
    >)
        ensures
            match navigation {
                Some(n) => self@.navigation(command@, history) == Some(n@),
                None => self@.navigation(command@, history) is None,
            },
    {
        match self.active {
            Some(handle) => {
                if self.find(handle).is_some() {
                    match engine_call(command, history, &self.config) {
                        Some(call) => Some(Navigation { tab: handle, call }),
                        None => None,
                    }
                } else {
                    None
                }
            },
            None => None,
        }
    }

    /// The user confirmed the settings form.
    ///
    /// All preferences are rewritten in one step. The open tabs are left as
    /// they are: what was chosen for rendering, filtering and amnesia holds
    /// for tabs created from now on.
    pub fn confirm_settings(&mut self, form: &SettingsForm) -> (effect: SettingsEffect)
        ensures
            final(self)@ == old(self)@.after_confirm(form@),
            effect@ == old(self)@.settings_effect(form@),
            old(self)@.wf() ==> final(self)@.wf(),
    {
        self.config.apply_settings(form);
        SettingsEffect {
            show_home_button: self.config.show_home_button,
            document: self.config.to_document(),
        }
    }
}

} // verus!
