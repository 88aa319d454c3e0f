//! One tab: its handle, the browsing context it is bound to, the label on
//! its header and the last address and title its page reported.

use vstd::prelude::*;
use vstd::string::StringExecFns;
use crate::config::text_view;
use crate::text::prefix;
use crate::text::take_chars;

verus! {

/// The most characters of a page title that a tab label shows.
pub const MAX_LABEL_CHARS: usize = 15;

/// Names a tab for as long as the program runs. Handles are never reused,
/// so a handle kept after its tab was closed names nothing.
#[derive(Clone, Copy, PartialEq, Eq, Structural, Debug)]
pub struct TabHandle(pub u64);

/// Names a browsing context: the storage domain that a page's cookies and
/// cache live in.
#[derive(Clone, Copy, PartialEq, Eq, Structural, Debug)]
pub enum ContextId {
    /// The one durable context, shared by all tabs that are not incognito.
    Persistent,
    /// The throwaway context of one incognito tab, which lives and dies
    /// with that tab.
    Ephemeral(TabHandle),
}

/// What an incognito tab's label starts with: a detective, shown as an
/// emoji, and a space.
pub open spec fn incognito_marker() -> Seq<char> {
    "\u{1F575}\u{FE0F} "@
}

/// What a tab's label starts with.
pub open spec fn label_marker(incognito: bool) -> Seq<char> {
    if incognito {
        incognito_marker()
    } else {
        Seq::empty()
    }
}

/// The label of a tab whose page has the title `title`: the marker, then
/// at most [`MAX_LABEL_CHARS`] characters of the title.
pub open spec fn label_text(title: Seq<char>, incognito: bool) -> Seq<char> {
    label_marker(incognito) + prefix(title, MAX_LABEL_CHARS as nat)
}

/// The label of a tab whose page has not reported a title yet.
pub open spec fn loading_label(incognito: bool) -> Seq<char> {
    label_marker(incognito) + "Loading..."@
}

/// The program's name, as window titles show it.
pub open spec fn app_name() -> Seq<char> {
    "Rusty Browser"@
}

/// The window title while the active tab's page has the title `title`, or
/// none.
pub open spec fn window_title_text(title: Option<Seq<char>>) -> Seq<char> {
    match title {
        Some(t) => t + " - "@ + app_name(),
        None => app_name(),
    }
}

/// The view of an optional borrowed text.
pub open spec fn str_view(text: Option<&str>) -> Option<Seq<char>> {
    match text {
        Some(t) => Some(t@),
        None => None,
    }
}

/// The label for a page title.
pub fn tab_label(title: &str, incognito: bool) -> (label: String)
    ensures
        label@ == label_text(title@, incognito),
        label@.len() <= MAX_LABEL_CHARS + label_marker(incognito).len(),
{
    let shown = take_chars(title, MAX_LABEL_CHARS);
    if incognito {
        String::from_str("\u{1F575}\u{FE0F} ").concat(shown.as_str())
    } else {
        assert(Seq::<char>::empty() + shown@ =~= shown@);
        shown
    }
}

/// The label of a tab that is still waiting for its page's title.
pub fn initial_label(incognito: bool) -> (label: String)
    ensures
        label@ == loading_label(incognito),
{
    if incognito {
        String::from_str("\u{1F575}\u{FE0F} ").concat("Loading...")
    } else {
        assert(Seq::<char>::empty() + "Loading..."@ =~= "Loading..."@);
        String::from_str("Loading...")
    }
}

/// The window title for the active tab's page title.
pub fn window_title(title: Option<&str>) -> (text: String)
    ensures
        text@ == window_title_text(str_view(title)),
{
    match title {
        Some(t) => String::from_str(t).concat(" - ").concat("Rusty Browser"),
        None => String::from_str("Rusty Browser"),
    }
}

/// A tab of the registry.
#[derive(Clone, Debug, PartialEq, Eq)]
pub struct Tab {
    /// The tab's name.
    pub handle: TabHandle,
    /// Whether the tab browses in a throwaway context; fixed at creation.
    pub incognito: bool,
    /// The text on the tab's header.
    pub label: String,
    /// The address that the page last reported, if any.
    pub uri: Option<String>,
    /// The title that the page last reported, if any.
    pub title: Option<String>,
}

/// The mathematical value of a [`Tab`].
pub struct TabView {
    pub handle: TabHandle,
    pub incognito: bool,
    pub label: Seq<char>,
    pub uri: Option<Seq<char>>,
    pub title: Option<Seq<char>>,
}

impl View for Tab {
    type V = TabView;

    open spec fn view(&self) -> TabView {
        TabView {
            handle: self.handle,
            incognito: self.incognito,
            label: self.label@,
            uri: text_view(self.uri),
            title: text_view(self.title),
        }
    }
}

impl TabView {
    /// A tab as it is created: waiting for its page.
    pub open spec fn fresh(handle: TabHandle, incognito: bool) -> TabView {
        TabView { handle, incognito, label: loading_label(incognito), uri: None, title: None }
    }

    /// The context that the tab is bound to: its own throwaway context
    /// where it is incognito, the shared durable one where it is not.
    pub open spec fn context(self) -> ContextId {
        if self.incognito {
            ContextId::Ephemeral(self.handle)
        } else {
            ContextId::Persistent
        }
    }

    /// The tab after its page reported the address `uri`.
    pub open spec fn with_uri(self, uri: Option<Seq<char>>) -> TabView {
        TabView { uri, ..self }
    }

    /// The tab after its page reported the title `title`: a title renews
    /// the label, the lack of one leaves the label as it was.
    pub open spec fn with_title(self, title: Option<Seq<char>>) -> TabView {
        match title {
            Some(t) => TabView { title, label: label_text(t, self.incognito), ..self },
            None => TabView { title, ..self },
        }
    }

    /// The label starts with the tab's marker and shows at most
    /// [`MAX_LABEL_CHARS`] characters after it.
    pub open spec fn label_bounded(self) -> bool {
        let marker = label_marker(self.incognito);
        &&& marker.len() <= self.label.len() <= marker.len() + MAX_LABEL_CHARS
        &&& self.label.take(marker.len() as int) == marker
    }
}

impl Tab {
    /// A new tab, waiting for its page.
    pub fn new(handle: TabHandle, incognito: bool) -> (tab: Tab)
        ensures
            tab@ == TabView::fresh(handle, incognito),
    {
        Tab { handle, incognito, label: initial_label(incognito), uri: None, title: None }
    }

    /// The context that the tab is bound to.
    pub fn context(&self) -> (context: ContextId)
        ensures
            context == self@.context(),
    {
        if self.incognito {
            ContextId::Ephemeral(self.handle)
        } else {
            ContextId::Persistent
        }
    }

    /// Records the address that the tab's page reported.
    pub fn note_uri(&mut self, uri: Option<&str>)
        ensures
            final(self)@ == old(self)@.with_uri(str_view(uri)),
    {
        match uri {
            Some(u) => {
                self.uri = Some(String::from_str(u));
            },
            None => {
                self.uri = None;
            },
        }
    }

    /// Records the title that the tab's page reported and renews the label
    /// from it.
    pub fn note_title(&mut self, title: Option<&str>)
        ensures
            final(self)@ == old(self)@.with_title(str_view(title)),
    {
        match title {
            Some(t) => {
                self.label = tab_label(t, self.incognito);
                self.title = Some(String::from_str(t));
            },
            None => {
                self.title = None;
            },
        }
    }
}

/// A label never shows more than [`MAX_LABEL_CHARS`] characters of the
/// title, however long the title is; an incognito label has the
/// three-character marker in front and a plain label has nothing. A title
/// that fits is shown whole.
pub proof fn law_label_is_bounded(title: Seq<char>, incognito: bool)
    ensures
        incognito_marker().len() == 3,
        label_text(title, false).len() <= MAX_LABEL_CHARS,
        label_text(title, true).len() <= MAX_LABEL_CHARS + 3,
        label_text(title, incognito).len() == label_marker(incognito).len() + if title.len()
            <= MAX_LABEL_CHARS {
            title.len()
        } else {
            MAX_LABEL_CHARS as nat
        },
        title.len() <= MAX_LABEL_CHARS ==> label_text(title, false) == title,
        label_text(title, true).take(3) == incognito_marker(),
{
    reveal_strlit("\u{1F575}\u{FE0F} ");
    assert(label_text(title, false) =~= prefix(title, MAX_LABEL_CHARS as nat));
    assert(label_text(title, true).take(3) =~= incognito_marker());
}

/// A tab starts out with a label that has its marker and keeps the bound.
pub proof fn law_fresh_label_is_bounded(handle: TabHandle, incognito: bool)
    ensures
        TabView::fresh(handle, incognito).label_bounded(),
{
    reveal_strlit("\u{1F575}\u{FE0F} ");
    reveal_strlit("Loading...");
    let fresh = TabView::fresh(handle, incognito);
    let marker = label_marker(incognito);
    assert(fresh.label.take(marker.len() as int) =~= marker);
}

/// Whatever a page reports, a tab's label keeps its marker and its bound:
/// a reported address leaves the label alone, and a reported title, of any
/// length, renews it within the bound.
pub proof fn law_reports_keep_label_bounded(tab: TabView, reported: Option<Seq<char>>)
    requires
        tab.label_bounded(),
    ensures
        tab.with_uri(reported).label_bounded(),
        tab.with_title(reported).label_bounded(),
{
    match reported {
        Some(t) => {
            let titled = tab.with_title(reported);
            let marker = label_marker(tab.incognito);
            assert(titled.label.take(marker.len() as int) =~= marker);
        },
        None => {},
    }
}

} // verus!
