//! The shell's state as a mathematical value, and every step it can take.
//!
//! [`BrowserView`] is what a [`crate::browser::Browser`] stands for. Each
//! event has a function that gives the state after it and one that gives
//! what the program has to show or do. The laws at the end say what holds
//! of every state that these steps can reach.

use vstd::prelude::*;
use crate::config::AppConfigView;
use crate::config::ConfigDocumentView;
use crate::config::SettingsFormView;
use crate::navigation::engine_call_for;
use crate::navigation::EngineCallView;
use crate::navigation::History;
use crate::navigation::NavCommandView;
use crate::policy::content_filter_for;
use crate::policy::render_policy_for;
use crate::policy::SurfacePlanView;
use crate::progress::load_complete;
use crate::progress::progress_update_for;
use crate::progress::ProgressUpdate;
use crate::tab::label_text;
use crate::tab::law_fresh_label_is_bounded;
use crate::tab::law_reports_keep_label_bounded;
use crate::tab::loading_label;
use crate::tab::window_title_text;
use crate::tab::ContextId;
use crate::tab::TabHandle;
use crate::tab::TabView;

verus! {

/// The mathematical value of a [`crate::browser::Browser`].
pub struct BrowserView {
    /// The preferences.
    pub config: AppConfigView,
    /// The open tabs, in the order of their headers.
    pub tabs: Seq<TabView>,
    /// The tab whose page the window shows, if any.
    pub active: Option<TabHandle>,
    /// The number in the handle of the next tab.
    pub next_id: u64,
}

/// What closing a tab did.
#[derive(Clone, Copy, PartialEq, Eq, Structural, Debug)]
pub struct ClosedTab {
    /// The throwaway context that went with the tab, if it had one. The
    /// shared context is never released.
    pub released: Option<ContextId>,
    /// Whether the tab was the active one.
    pub was_active: bool,
}

/// The mathematical value of a [`crate::browser::ChromeSync`].
pub struct ChromeSyncView {
    pub address_bar: Option<Seq<char>>,
    pub window_title: Seq<char>,
}

/// The mathematical value of a [`crate::browser::TitleUpdate`].
pub struct TitleUpdateView {
    pub label: Option<Seq<char>>,
    pub window_title: Option<Seq<char>>,
}

/// The mathematical value of a [`crate::browser::Navigation`].
pub struct NavigationView {
    pub tab: TabHandle,
    pub call: EngineCallView,
}

/// The mathematical value of a [`crate::browser::SettingsEffect`].
pub struct SettingsEffectView {
    pub show_home_button: bool,
    pub document: ConfigDocumentView,
}

/// How many tabs of `tabs` are incognito, which is how many throwaway
/// contexts are alive.
pub open spec fn incognito_count(tabs: Seq<TabView>) -> nat
    decreases tabs.len(),
{
    if tabs.len() == 0 {
        0
    } else {
        incognito_count(tabs.drop_last()) + if tabs.last().incognito {
            1nat
        } else {
            0nat
        }
    }
}

impl BrowserView {
    /// The state at startup: no tab is open.
    pub open spec fn initial(config: AppConfigView) -> BrowserView {
        BrowserView { config, tabs: Seq::empty(), active: None, next_id: 0 }
    }

    /// Whether a tab with the handle `handle` is open.
    pub open spec fn has_tab(self, handle: TabHandle) -> bool {
        exists|i: int| 0 <= i < self.tabs.len() && (#[trigger] self.tabs[i]).handle == handle
    }

    /// Whether `i` is the first position at which a tab has the handle
    /// `handle`.
    pub open spec fn is_position_of(self, handle: TabHandle, i: int) -> bool {
        &&& 0 <= i < self.tabs.len()
        &&& self.tabs[i].handle == handle
        &&& forall|j: int| 0 <= j < i ==> (#[trigger] self.tabs[j]).handle != handle
    }

    /// The position of the tab with the handle `handle`.
    pub open spec fn position(self, handle: TabHandle) -> int
        recommends
            self.has_tab(handle),
    {
        choose|i: int| self.is_position_of(handle, i)
    }

    /// The tab with the handle `handle`.
    pub open spec fn tab(self, handle: TabHandle) -> TabView
        recommends
            self.has_tab(handle),
    {
        self.tabs[self.position(handle)]
    }

    /// Whether a tab is bound to the context `context`.
    pub open spec fn context_live(self, context: ContextId) -> bool {
        exists|i: int| 0 <= i < self.tabs.len() && (#[trigger] self.tabs[i]).context() == context
    }

    /// What holds of every state that the program can reach: no two tabs
    /// share a handle, every handle in use was given out before, every
    /// label keeps its marker and bound, and the active tab is open.
    pub open spec fn wf(self) -> bool {
        &&& forall|i: int, j: int|
            0 <= i < j < self.tabs.len() ==> (#[trigger] self.tabs[i]).handle != (
            #[trigger] self.tabs[j]).handle
        &&& forall|i: int|
            0 <= i < self.tabs.len() ==> (#[trigger] self.tabs[i]).handle.0 < self.next_id
        &&& forall|i: int| 0 <= i < self.tabs.len() ==> (#[trigger] self.tabs[i]).label_bounded()
        &&& self.active matches Some(h) ==> self.has_tab(h)
    }

    /// Whether a handle is left for one more tab.
    pub open spec fn has_free_handle(self) -> bool {
        self.next_id < u64::MAX
    }

    /// Whether a new tab browses in a throwaway context: where that was
    /// asked for, and always in amnesia mode.
    pub open spec fn effective_incognito(self, incognito: bool) -> bool {
        incognito || self.config.amnesia_mode
    }

    /// The tab that the next creation adds.
    pub open spec fn next_tab(self, incognito: bool) -> TabView {
        TabView::fresh(TabHandle(self.next_id), self.effective_incognito(incognito))
    }

    /// The state after a tab is created: the new tab stands last and is
    /// active. Nothing changes where no handle is left.
    pub open spec fn after_create(self, incognito: bool) -> BrowserView {
        if self.has_free_handle() {
            BrowserView {
                tabs: self.tabs.push(self.next_tab(incognito)),
                active: Some(TabHandle(self.next_id)),
                next_id: (self.next_id + 1) as u64,
                ..self
            }
        } else {
            self
        }
    }

    /// How to build the surface of the tab that the next creation adds;
    /// `None` where no handle is left.
    pub open spec fn plan(self, url: Seq<char>, incognito: bool) -> Option<SurfacePlanView> {
        if self.has_free_handle() {
            Some(
                SurfacePlanView {
                    handle: TabHandle(self.next_id),
                    context: self.next_tab(incognito).context(),
                    content_filter: content_filter_for(self.config.enable_adblock),
                    policy: render_policy_for(self.config.use_hw_accel),
                    label: loading_label(self.effective_incognito(incognito)),
                    url,
                },
            )
        } else {
            None
        }
    }

    /// The state after the tab `handle` is closed: the tab is gone, the
    /// others keep their order, and no tab is active if that one was.
    /// Nothing changes where no such tab is open.
    pub open spec fn after_close(self, handle: TabHandle) -> BrowserView {
        if self.has_tab(handle) {
            BrowserView {
                tabs: self.tabs.remove(self.position(handle)),
                active: if self.active == Some(handle) {
                    None
                } else {
                    self.active
                },
                ..self
            }
        } else {
            self
        }
    }

    /// What closing the tab `handle` reports; `None` where no such tab is
    /// open.
    pub open spec fn closed(self, handle: TabHandle) -> Option<ClosedTab> {
        if self.has_tab(handle) {
            Some(
                ClosedTab {
                    released: if self.tab(handle).incognito {
                        Some(ContextId::Ephemeral(handle))
                    } else {
                        None
                    },
                    was_active: self.active == Some(handle),
                },
            )
        } else {
            None
        }
    }

    /// Whether the tab `handle` is open and active.
    pub open spec fn is_active(self, handle: TabHandle) -> bool {
        self.has_tab(handle) && self.active == Some(handle)
    }

    /// The state after the user switched to the tab `handle`: that tab is
    /// active. Nothing changes where no such tab is open.
    pub open spec fn after_switch(self, handle: TabHandle) -> BrowserView {
        if self.has_tab(handle) {
            BrowserView { active: Some(handle), ..self }
        } else {
            self
        }
    }

    /// What the window shows after a switch to the tab `handle`: the
    /// address bar takes the tab's address if it has one and keeps its text
    /// if not, and the window title follows the tab's title. `None` where no
    /// such tab is open.
    pub open spec fn chrome_sync(self, handle: TabHandle) -> Option<ChromeSyncView> {
        if self.has_tab(handle) {
            Some(
                ChromeSyncView {
                    address_bar: self.tab(handle).uri,
                    window_title: window_title_text(self.tab(handle).title),
                },
            )
        } else {
            None
        }
    }

    /// The state after the page of the tab `handle` reported the address
    /// `uri`: the tab remembers it. Nothing changes where no such tab is
    /// open.
    pub open spec fn after_uri(self, handle: TabHandle, uri: Option<Seq<char>>) -> BrowserView {
        if self.has_tab(handle) {
            BrowserView {
                tabs: self.tabs.update(self.position(handle), self.tab(handle).with_uri(uri)),
                ..self
            }
        } else {
            self
        }
    }

    /// The text to put into the address bar when the page of the tab
    /// `handle` reported the address `uri`: that address, if the tab is the
    /// active one.
    pub open spec fn address_bar_on_uri(self, handle: TabHandle, uri: Option<Seq<char>>) -> Option<
        Seq<char>,
    > {
        if self.is_active(handle) {
            uri
        } else {
            None
        }
    }

    /// The state after the page of the tab `handle` reported the title
    /// `title`: the tab remembers it and renews its label. Nothing changes
    /// where no such tab is open.
    pub open spec fn after_title(self, handle: TabHandle, title: Option<Seq<char>>) -> BrowserView {
        if self.has_tab(handle) {
            BrowserView {
                tabs: self.tabs.update(self.position(handle), self.tab(handle).with_title(title)),
                ..self
            }
        } else {
            self
        }
    }

    /// What to show when the page of the tab `handle` reported the title
    /// `title`: the tab's header takes the new label, and the window takes
    /// the full title if the tab is the active one. Nothing is shown where
    /// no title was reported or no such tab is open.
    pub open spec fn title_update(self, handle: TabHandle, title: Option<Seq<char>>) -> TitleUpdateView {
        match title {
            Some(t) => if self.has_tab(handle) {
                TitleUpdateView {
                    label: Some(label_text(t, self.tab(handle).incognito)),
                    window_title: if self.active == Some(handle) {
                        Some(window_title_text(Some(t)))
                    } else {
                        None
                    },
                }
            } else {
                TitleUpdateView { label: None, window_title: None }
            },
            None => TitleUpdateView { label: None, window_title: None },
        }
    }

    /// What the progress indicator shows when the page of the tab `handle`
    /// reported the fraction with the bit pattern `fraction_bits`: that
    /// fraction, if the tab is the active one; a tab in the background
    /// leaves the indicator alone.
    pub open spec fn progress_on(self, handle: TabHandle, fraction_bits: u64) -> Option<
        ProgressUpdate,
    > {
        if self.is_active(handle) {
            Some(progress_update_for(fraction_bits))
        } else {
            None
        }
    }

    /// The engine call that a toolbar command turns into, and the tab on
    /// whose surface to make it: the active one. `None` where no tab is
    /// active or the command asks for nothing.
    pub open spec fn navigation(self, command: NavCommandView, history: History) -> Option<
        NavigationView,
    > {
        match self.active {
            Some(handle) => if self.has_tab(handle) {
                match engine_call_for(command, history, self.config) {
                    Some(call) => Some(NavigationView { tab: handle, call }),
                    None => None,
                }
            } else {
                None
            },
            None => None,
        }
    }

    /// The state after the settings form `form` is confirmed: the
    /// preferences are rewritten, and the open tabs stay as they are.
    pub open spec fn after_confirm(self, form: SettingsFormView) -> BrowserView {
        BrowserView { config: self.config.confirmed(form), ..self }
    }

    /// What confirming the settings form `form` asks of the program: to
    /// show or hide the home button, and to store the new preferences.
    pub open spec fn settings_effect(self, form: SettingsFormView) -> SettingsEffectView {
        SettingsEffectView {
            show_home_button: form.show_home_button,
            document: self.config.confirmed(form).document(),
        }
    }
}

/// Among the tabs that have the handle `handle`, one stands first.
proof fn lemma_some_tab_is_first(s: BrowserView, handle: TabHandle, k: int)
    requires
        0 <= k < s.tabs.len(),
        s.tabs[k].handle == handle,
    ensures
        exists|i: int| s.is_position_of(handle, i),
    decreases k,
{
    if exists|j: int| 0 <= j < k && (#[trigger] s.tabs[j]).handle == handle {
        let j = choose|j: int| 0 <= j < k && (#[trigger] s.tabs[j]).handle == handle;
        lemma_some_tab_is_first(s, handle, j);
    } else {
        assert(s.is_position_of(handle, k));
    }
}

/// The position of an open tab is a place in the registry where its handle
/// stands, the first such place, and no other number is.
pub proof fn law_position_is_first_place(s: BrowserView, handle: TabHandle)
    requires
        s.has_tab(handle),
    ensures
        s.is_position_of(handle, s.position(handle)),
        s.tab(handle).handle == handle,
        forall|i: int| s.is_position_of(handle, i) ==> i == s.position(handle),
{
    let k = choose|k: int| 0 <= k < s.tabs.len() && (#[trigger] s.tabs[k]).handle == handle;
    lemma_some_tab_is_first(s, handle, k);
}

/// The counts of incognito tabs before and after one tab is taken out
/// differ by that tab.
proof fn lemma_count_without(tabs: Seq<TabView>, p: int)
    requires
        0 <= p < tabs.len(),
    ensures
        incognito_count(tabs) == incognito_count(tabs.remove(p)) + if tabs[p].incognito {
            1nat
        } else {
            0nat
        },
    decreases tabs.len(),
{
    if p == tabs.len() - 1 {
        assert(tabs.remove(p) =~= tabs.drop_last());
    } else {
        lemma_count_without(tabs.drop_last(), p);
        assert(tabs.remove(p).drop_last() =~= tabs.drop_last().remove(p));
        assert(tabs.remove(p).last() == tabs.last());
    }
}

/// The state at startup is well formed, whatever the preferences are.
pub proof fn law_initial_state_is_well_formed(config: AppConfigView)
    ensures
        BrowserView::initial(config).wf(),
{
}

/// Creating a tab keeps the state well formed.
pub proof fn law_create_keeps_wf(s: BrowserView, incognito: bool)
    requires
        s.wf(),
    ensures
        s.after_create(incognito).wf(),
{
    if s.has_free_handle() {
        let t = s.after_create(incognito);
        let fresh = s.next_tab(incognito);
        law_fresh_label_is_bounded(fresh.handle, fresh.incognito);
        assert(t.tabs[t.tabs.len() - 1].handle == TabHandle(s.next_id));
        assert forall|i: int| 0 <= i < t.tabs.len() implies (#[trigger] t.tabs[i]).label_bounded() by {
            if i < s.tabs.len() {
                assert(t.tabs[i] == s.tabs[i]);
            }
        }
        assert forall|i: int, j: int| 0 <= i < j < t.tabs.len() implies (#[trigger] t.tabs[i]).handle
            != (#[trigger] t.tabs[j]).handle by {
            assert(t.tabs[i] == s.tabs[i]);
            if j < s.tabs.len() {
                assert(t.tabs[j] == s.tabs[j]);
            }
        }
    }
}

/// Closing a tab keeps the state well formed.
pub proof fn law_close_keeps_wf(s: BrowserView, handle: TabHandle)
    requires
        s.wf(),
    ensures
        s.after_close(handle).wf(),
{
    if s.has_tab(handle) {
        let t = s.after_close(handle);
        let p = s.position(handle);
        law_position_is_first_place(s, handle);
        assert forall|i: int| 0 <= i < t.tabs.len() implies (#[trigger] t.tabs[i]) == s.tabs[if i
            < p {
            i
        } else {
            i + 1
        }] by {}
        match t.active {
            Some(a) => {
                let k = choose|k: int| 0 <= k < s.tabs.len() && (#[trigger] s.tabs[k]).handle == a;
                assert(k != p);
                let k2 = if k < p {
                    k
                } else {
                    k - 1
                };
                assert(t.tabs[k2].handle == a);
            },
            None => {},
        }
    }
}

/// A switch of tabs keeps the state well formed, and so does a confirmed
/// settings form.
pub proof fn law_switch_and_confirm_keep_wf(
    s: BrowserView,
    handle: TabHandle,
    form: SettingsFormView,
)
    requires
        s.wf(),
    ensures
        s.after_switch(handle).wf(),
        s.after_confirm(form).wf(),
{
}

/// What a page reports keeps the state well formed: an address changes no
/// handle and no label, and a title of any length renews the label within
/// its bound.
pub proof fn law_report_keeps_wf(s: BrowserView, handle: TabHandle, reported: Option<Seq<char>>)
    requires
        s.wf(),
    ensures
        s.after_uri(handle, reported).wf(),
        s.after_title(handle, reported).wf(),
{
    if s.has_tab(handle) {
        let p = s.position(handle);
        law_position_is_first_place(s, handle);
        law_reports_keep_label_bounded(s.tab(handle), reported);
        let u = s.after_uri(handle, reported);
        let t = s.after_title(handle, reported);
        assert forall|i: int| 0 <= i < s.tabs.len() implies (#[trigger] u.tabs[i]).handle
            == s.tabs[i].handle && (#[trigger] t.tabs[i]).handle == s.tabs[i].handle by {}
        match s.active {
            Some(a) => {
                let k = choose|k: int| 0 <= k < s.tabs.len() && (#[trigger] s.tabs[k]).handle == a;
                assert(u.tabs[k].handle == a);
                assert(t.tabs[k].handle == a);
            },
            None => {},
        }
    }
}

/// A created tab is open, stands last, is the active one and has a handle
/// that no tab had before.
pub proof fn law_created_tab_is_registered(s: BrowserView, incognito: bool)
    requires
        s.wf(),
        s.has_free_handle(),
    ensures
        ({
            let t = s.after_create(incognito);
            let handle = TabHandle(s.next_id);
            &&& !s.has_tab(handle)
            &&& t.has_tab(handle)
            &&& t.is_active(handle)
            &&& t.position(handle) == s.tabs.len()
            &&& t.tab(handle) == s.next_tab(incognito)
            &&& t.tabs.len() == s.tabs.len() + 1
            &&& forall|i: int| 0 <= i < s.tabs.len() ==> t.tabs[i] == s.tabs[i]
        }),
{
    let t = s.after_create(incognito);
    let handle = TabHandle(s.next_id);
    law_create_keeps_wf(s, incognito);
    assert(t.tabs[s.tabs.len() as int].handle == handle);
    law_position_is_first_place(t, handle);
}

/// A tab that is asked to be incognito is never bound to the shared
/// context: it gets a context of its own, which no other tab has or had.
pub proof fn law_incognito_tab_gets_own_context(s: BrowserView, url: Seq<char>)
    requires
        s.wf(),
        s.has_free_handle(),
    ensures
        ({
            let created = s.next_tab(true);
            &&& created.context() == ContextId::Ephemeral(created.handle)
            &&& created.context() != ContextId::Persistent
            &&& s.plan(url, true)->0.context == created.context()
            &&& !s.context_live(created.context())
            &&& s.after_create(true).context_live(created.context())
        }),
{
    let created = s.next_tab(true);
    let t = s.after_create(true);
    assert(t.tabs[s.tabs.len() as int] == created);
}

/// Tabs that are not asked to be incognito, created while amnesia mode is
/// off, all share one context, the durable one: any two such creations,
/// whatever the states they happen in, bind their tabs to the same
/// context.
pub proof fn law_plain_tabs_share_persistent_context(
    first: BrowserView,
    second: BrowserView,
    first_url: Seq<char>,
    second_url: Seq<char>,
)
    requires
        !first.config.amnesia_mode,
        !second.config.amnesia_mode,
        first.has_free_handle(),
        second.has_free_handle(),
    ensures
        first.next_tab(false).context() == ContextId::Persistent,
        first.plan(first_url, false)->0.context == ContextId::Persistent,
        first.next_tab(false).context() == second.next_tab(false).context(),
        first.plan(first_url, false)->0.context == second.plan(second_url, false)->0.context,
{
}

/// In amnesia mode a creation that is not asked to be incognito does
/// exactly what one that is asked does: the same state follows and the
/// same surface is planned, for every address.
pub proof fn law_amnesia_makes_every_tab_incognito(s: BrowserView, url: Seq<char>)
    requires
        s.config.amnesia_mode,
    ensures
        s.after_create(false) == s.after_create(true),
        s.plan(url, false) == s.plan(url, true),
        s.has_free_handle() ==> s.plan(url, false)->0.context == ContextId::Ephemeral(
            TabHandle(s.next_id),
        ),
{
}

/// Closing an incognito tab releases its context: the close reports that
/// context, no tab is bound to it afterwards, one throwaway context fewer
/// is alive, and every other context is as alive as before.
pub proof fn law_close_releases_ephemeral_context(s: BrowserView, handle: TabHandle)
    requires
        s.wf(),
        s.has_tab(handle),
        s.tab(handle).incognito,
    ensures
        ({
            let t = s.after_close(handle);
            let context = ContextId::Ephemeral(handle);
            &&& s.closed(handle)->0.released == Some(context)
            &&& s.context_live(context)
            &&& !t.context_live(context)
            &&& !t.has_tab(handle)
            &&& incognito_count(t.tabs) + 1 == incognito_count(s.tabs)
            &&& forall|other: ContextId| other != context ==> t.context_live(other) == s.context_live(other)
        }),
{
    let t = s.after_close(handle);
    let p = s.position(handle);
    let context = ContextId::Ephemeral(handle);
    law_position_is_first_place(s, handle);
    lemma_count_without(s.tabs, p);
    assert(s.tabs[p].context() == context);
    assert forall|i: int| 0 <= i < t.tabs.len() implies (#[trigger] t.tabs[i]) == s.tabs[if i < p {
        i
    } else {
        i + 1
    }] by {}
    assert forall|other: ContextId| other != context implies t.context_live(other)
        == s.context_live(other) by {
        if s.context_live(other) {
            let k = choose|k: int| 0 <= k < s.tabs.len() && (#[trigger] s.tabs[k]).context() == other;
            assert(k != p);
            let k2 = if k < p {
                k
            } else {
                k - 1
            };
            assert(t.tabs[k2].context() == other);
        }
        if t.context_live(other) {
            let k = choose|k: int| 0 <= k < t.tabs.len() && (#[trigger] t.tabs[k]).context() == other;
            let k2 = if k < p {
                k
            } else {
                k + 1
            };
            assert(s.tabs[k2].context() == other);
        }
    }
}

/// Closing a tab that is not incognito releases no context: the shared
/// context outlives every tab.
pub proof fn law_close_keeps_persistent_context(s: BrowserView, handle: TabHandle)
    requires
        s.has_tab(handle),
        !s.tab(handle).incognito,
    ensures
        s.closed(handle)->0.released is None,
        incognito_count(s.after_close(handle).tabs) == incognito_count(s.tabs),
{
    law_position_is_first_place(s, handle);
    lemma_count_without(s.tabs, s.position(handle));
}

/// Opening a tab and closing it again leaves nothing behind: the registry
/// holds the tabs it held before, as many throwaway contexts are alive as
/// before, and the handle that was used is never given out again.
pub proof fn law_open_then_close_leaks_nothing(s: BrowserView, incognito: bool)
    requires
        s.wf(),
        s.has_free_handle(),
    ensures
        ({
            let handle = TabHandle(s.next_id);
            let t = s.after_create(incognito).after_close(handle);
            &&& t.tabs == s.tabs
            &&& t.config == s.config
            &&& t.active is None
            &&& t.next_id == s.next_id + 1
            &&& incognito_count(t.tabs) == incognito_count(s.tabs)
            &&& !t.context_live(ContextId::Ephemeral(handle))
            &&& t.wf()
        }),
{
    let handle = TabHandle(s.next_id);
    let m = s.after_create(incognito);
    let t = m.after_close(handle);
    law_created_tab_is_registered(s, incognito);
    law_create_keeps_wf(s, incognito);
    law_close_keeps_wf(m, handle);
    assert(t.tabs =~= s.tabs);
}

/// The state after `rounds` rounds of opening an incognito tab and closing
/// it again.
pub open spec fn after_rounds(s: BrowserView, rounds: nat) -> BrowserView
    decreases rounds,
{
    if rounds == 0 {
        s
    } else {
        after_rounds(
            s.after_create(true).after_close(TabHandle(s.next_id)),
            (rounds - 1) as nat,
        )
    }
}

/// However often an incognito tab is opened and closed again, nothing
/// piles up: the registry holds the tabs it held at the start and as many
/// throwaway contexts are alive as at the start.
pub proof fn law_repeated_open_close_leaks_nothing(s: BrowserView, rounds: nat)
    requires
        s.wf(),
        s.next_id + rounds <= u64::MAX,
    ensures
        after_rounds(s, rounds).tabs == s.tabs,
        after_rounds(s, rounds).next_id == s.next_id + rounds,
        incognito_count(after_rounds(s, rounds).tabs) == incognito_count(s.tabs),
        after_rounds(s, rounds).wf(),
    decreases rounds,
{
    if rounds > 0 {
        law_open_then_close_leaks_nothing(s, true);
        let t = s.after_create(true).after_close(TabHandle(s.next_id));
        law_repeated_open_close_leaks_nothing(t, (rounds - 1) as nat);
    }
}

/// The progress indicator follows the active tab alone, and is hidden
/// exactly when that tab's fraction has reached one: each report of the
/// active tab shows its fraction and is visible if and only if the
/// fraction is below one, so the indicator comes back when a new load
/// starts; a report of any other tab changes nothing.
pub proof fn law_progress_hidden_exactly_when_complete(
    s: BrowserView,
    handle: TabHandle,
    fraction_bits: u64,
)
    ensures
        s.is_active(handle) ==> s.progress_on(handle, fraction_bits) == Some(
            ProgressUpdate { fraction_bits, visible: !load_complete(fraction_bits) },
        ),
        !s.is_active(handle) ==> s.progress_on(handle, fraction_bits) is None,
        load_complete(crate::progress::ONE_BITS),
        !load_complete(0),
{
}

/// After a switch to an open tab, that tab is the active one, and the
/// address bar and window title that the switch asks for are those a
/// report of the same address and title would now ask for.
pub proof fn law_switch_brings_chrome_in_line(s: BrowserView, handle: TabHandle)
    requires
        s.has_tab(handle),
    ensures
        ({
            let t = s.after_switch(handle);
            let sync = s.chrome_sync(handle)->0;
            &&& t.is_active(handle)
            &&& t.tabs == s.tabs
            &&& sync.address_bar == t.address_bar_on_uri(handle, s.tab(handle).uri)
            &&& s.tab(handle).title is Some ==> Some(sync.window_title) == t.title_update(
                handle,
                s.tab(handle).title,
            ).window_title
            &&& s.tab(handle).title is None ==> sync.window_title == crate::tab::app_name()
        }),
{
    let t = s.after_switch(handle);
    assert(t.has_tab(handle));
}

/// A confirmed settings form changes the preferences and nothing else:
/// the open tabs, with their contexts and labels, and the active tab stay
/// as they are.
pub proof fn law_confirm_leaves_tabs_alone(s: BrowserView, form: SettingsFormView)
    ensures
        s.after_confirm(form).tabs == s.tabs,
        s.after_confirm(form).active == s.active,
        s.after_confirm(form).next_id == s.next_id,
        forall|c: ContextId| s.after_confirm(form).context_live(c) == s.context_live(c),
{
}

} // verus!
