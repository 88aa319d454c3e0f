//! User preferences: the closed list of search engines, the preference
//! record, the stored document it is read from, and the settings form
//! that rewrites it.

use vstd::prelude::*;
use vstd::string::StringExecFns;

verus! {

/// The search engines a user can choose from, in the order in which the
/// settings form lists them.
#[derive(Clone, Copy, PartialEq, Eq, Structural, Debug)]
pub enum SearchEngine {
    DuckDuckGo,
    Google,
    Bing,
    Brave,
}

/// How many search engines there are.
pub const SEARCH_ENGINE_COUNT: u32 = 4;

impl SearchEngine {
    /// The engine's position in the list.
    pub open spec fn index_spec(self) -> u32 {
        match self {
            SearchEngine::DuckDuckGo => 0,
            SearchEngine::Google => 1,
            SearchEngine::Bing => 2,
            SearchEngine::Brave => 3,
        }
    }

    /// The engine at position `index`, if there is one.
    pub open spec fn from_index_spec(index: u32) -> Option<SearchEngine> {
        if index == 0 {
            Some(SearchEngine::DuckDuckGo)
        } else if index == 1 {
            Some(SearchEngine::Google)
        } else if index == 2 {
            Some(SearchEngine::Bing)
        } else if index == 3 {
            Some(SearchEngine::Brave)
        } else {
            None
        }
    }

    /// The engine's query prefix: a search for `q` loads this text followed
    /// by `q`.
    pub open spec fn url_spec(self) -> Seq<char> {
        match self {
            SearchEngine::DuckDuckGo => "https://duckduckgo.com/?q="@,
            SearchEngine::Google => "https://www.google.com/search?q="@,
            SearchEngine::Bing => "https://www.bing.com/search?q="@,
            SearchEngine::Brave => "https://search.brave.com/search?q="@,
        }
    }

    /// The engine's display name.
    pub open spec fn name_spec(self) -> Seq<char> {
        match self {
            SearchEngine::DuckDuckGo => "DuckDuckGo"@,
            SearchEngine::Google => "Google"@,
            SearchEngine::Bing => "Bing"@,
            SearchEngine::Brave => "Brave"@,
        }
    }

    /// The engine's position in the list.
    pub fn index(self) -> (index: u32)
        ensures
            index == self.index_spec(),
            index < SEARCH_ENGINE_COUNT,
    {
        match self {
            SearchEngine::DuckDuckGo => 0,
            SearchEngine::Google => 1,
            SearchEngine::Bing => 2,
            SearchEngine::Brave => 3,
        }
    }

    /// The engine at position `index`; `None` exactly when `index` is not
    /// below [`SEARCH_ENGINE_COUNT`].
    pub fn from_index(index: u32) -> (engine: Option<SearchEngine>)
        ensures
            engine == Self::from_index_spec(index),
            engine is Some <==> index < SEARCH_ENGINE_COUNT,
            engine matches Some(e) ==> e.index_spec() == index,
    {
        if index == 0 {
            Some(SearchEngine::DuckDuckGo)
        } else if index == 1 {
            Some(SearchEngine::Google)
        } else if index == 2 {
            Some(SearchEngine::Bing)
        } else if index == 3 {
            Some(SearchEngine::Brave)
        } else {
            None
        }
    }

    /// The engine's query prefix.
    pub fn url(self) -> (url: String)
        ensures
            url@ == self.url_spec(),
    {
        match self {
            SearchEngine::DuckDuckGo => String::from_str("https://duckduckgo.com/?q="),
            SearchEngine::Google => String::from_str("https://www.google.com/search?q="),
            SearchEngine::Bing => String::from_str("https://www.bing.com/search?q="),
            SearchEngine::Brave => String::from_str("https://search.brave.com/search?q="),
        }
    }

    /// The engine's display name.
    pub fn name(self) -> (name: String)
        ensures
            name@ == self.name_spec(),
    {
        match self {
            SearchEngine::DuckDuckGo => String::from_str("DuckDuckGo"),
            SearchEngine::Google => String::from_str("Google"),
            SearchEngine::Bing => String::from_str("Bing"),
            SearchEngine::Brave => String::from_str("Brave"),
        }
    }

    /// The engines in the order of the list: the engine at position `i` is
    /// the one with the index `i`.
    pub fn all() -> (engines: Vec<SearchEngine>)
        ensures
            engines@.len() == SEARCH_ENGINE_COUNT,
            forall|i: int|
                0 <= i < engines@.len() ==> Self::from_index_spec(i as u32) == Some(
                    #[trigger] engines@[i],
                ),
    {
        let mut engines: Vec<SearchEngine> = Vec::new();
        engines.push(SearchEngine::DuckDuckGo);
        engines.push(SearchEngine::Google);
        engines.push(SearchEngine::Bing);
        engines.push(SearchEngine::Brave);
        engines
    }
}

/// The user's preferences.
#[derive(Debug, PartialEq, Eq)]
pub struct AppConfig {
    /// Where the home button and every new tab go.
    pub homepage: String,
    /// One switch for accelerated compositing and WebGL together.
    pub use_hw_accel: bool,
    /// Whether new tabs get the ad-hiding style sheet.
    pub enable_adblock: bool,
    /// Whether every new tab browses in a throwaway context.
    pub amnesia_mode: bool,
    /// Whether the toolbar shows the home button.
    pub show_home_button: bool,
    /// The query prefix of the chosen search engine.
    pub search_engine_url: String,
    /// The chosen search engine's position in the list.
    pub search_engine_index: u32,
}

/// The mathematical value of an [`AppConfig`].
pub struct AppConfigView {
    pub homepage: Seq<char>,
    pub use_hw_accel: bool,
    pub enable_adblock: bool,
    pub amnesia_mode: bool,
    pub show_home_button: bool,
    pub search_engine_url: Seq<char>,
    pub search_engine_index: u32,
}

impl View for AppConfig {
    type V = AppConfigView;

    open spec fn view(&self) -> AppConfigView {
        AppConfigView {
            homepage: self.homepage@,
            use_hw_accel: self.use_hw_accel,
            enable_adblock: self.enable_adblock,
            amnesia_mode: self.amnesia_mode,
            show_home_button: self.show_home_button,
            search_engine_url: self.search_engine_url@,
            search_engine_index: self.search_engine_index,
        }
    }
}

/// The preferences of a fresh installation.
pub open spec fn default_config() -> AppConfigView {
    AppConfigView {
        homepage: "https://duckduckgo.com"@,
        use_hw_accel: true,
        enable_adblock: true,
        amnesia_mode: false,
        show_home_button: true,
        search_engine_url: SearchEngine::DuckDuckGo.url_spec(),
        search_engine_index: 0,
    }
}

impl AppConfigView {
    /// The index names an engine of the list and the URL is that engine's.
    pub open spec fn engine_consistent(self) -> bool {
        match SearchEngine::from_index_spec(self.search_engine_index) {
            Some(engine) => self.search_engine_url == engine.url_spec(),
            None => false,
        }
    }

    /// The preferences after the settings form `form` is confirmed.
    ///
    /// Every field is taken from the form. The engine index and URL change
    /// together, to the chosen engine's, or not at all where the form's
    /// selection names no engine.
    pub open spec fn confirmed(self, form: SettingsFormView) -> AppConfigView {
        AppConfigView {
            homepage: form.homepage,
            use_hw_accel: form.use_hw_accel,
            enable_adblock: form.enable_adblock,
            amnesia_mode: form.amnesia_mode,
            show_home_button: form.show_home_button,
            search_engine_url: match SearchEngine::from_index_spec(form.search_engine_index) {
                Some(engine) => engine.url_spec(),
                None => self.search_engine_url,
            },
            search_engine_index: match SearchEngine::from_index_spec(form.search_engine_index) {
                Some(engine) => form.search_engine_index,
                None => self.search_engine_index,
            },
        }
    }

    /// The settings form filled in from these preferences.
    pub open spec fn form(self) -> SettingsFormView {
        SettingsFormView {
            homepage: self.homepage,
            use_hw_accel: self.use_hw_accel,
            enable_adblock: self.enable_adblock,
            amnesia_mode: self.amnesia_mode,
            show_home_button: self.show_home_button,
            search_engine_index: self.search_engine_index,
        }
    }

    /// The stored document that holds these preferences.
    pub open spec fn document(self) -> ConfigDocumentView {
        ConfigDocumentView {
            homepage: Some(self.homepage),
            use_hw_accel: Some(self.use_hw_accel),
            enable_adblock: Some(self.enable_adblock),
            amnesia_mode: Some(self.amnesia_mode),
            show_home_button: Some(self.show_home_button),
            search_engine_url: Some(self.search_engine_url),
            search_engine_index: Some(self.search_engine_index),
        }
    }
}

impl Default for AppConfig {
    fn default() -> (config: AppConfig)
        ensures
            config@ == default_config(),
    {
        AppConfig {
            homepage: String::from_str("https://duckduckgo.com"),
            use_hw_accel: true,
            enable_adblock: true,
            amnesia_mode: false,
            show_home_button: true,
            search_engine_url: SearchEngine::DuckDuckGo.url(),
            search_engine_index: 0,
        }
    }
}

impl Clone for AppConfig {
    fn clone(&self) -> (copy: AppConfig)
        ensures
            copy@ == self@,
    {
        AppConfig {
            homepage: self.homepage.clone(),
            use_hw_accel: self.use_hw_accel,
            enable_adblock: self.enable_adblock,
            amnesia_mode: self.amnesia_mode,
            show_home_button: self.show_home_button,
            search_engine_url: self.search_engine_url.clone(),
            search_engine_index: self.search_engine_index,
        }
    }
}

/// The view of an optional text.
pub open spec fn text_view(text: Option<String>) -> Option<Seq<char>> {
    match text {
        Some(t) => Some(t@),
        None => None,
    }
}

/// A stored preference document as it was read: each field is present or
/// missing on its own.
#[derive(Clone, Debug, PartialEq, Eq)]
pub struct ConfigDocument {
    pub homepage: Option<String>,
    pub use_hw_accel: Option<bool>,
    pub enable_adblock: Option<bool>,
    pub amnesia_mode: Option<bool>,
    pub show_home_button: Option<bool>,
    pub search_engine_url: Option<String>,
    pub search_engine_index: Option<u32>,
}

/// The mathematical value of a [`ConfigDocument`].
pub struct ConfigDocumentView {
    pub homepage: Option<Seq<char>>,
    pub use_hw_accel: Option<bool>,
    pub enable_adblock: Option<bool>,
    pub amnesia_mode: Option<bool>,
    pub show_home_button: Option<bool>,
    pub search_engine_url: Option<Seq<char>>,
    pub search_engine_index: Option<u32>,
}

impl View for ConfigDocument {
    type V = ConfigDocumentView;

    open spec fn view(&self) -> ConfigDocumentView {
        ConfigDocumentView {
            homepage: text_view(self.homepage),
            use_hw_accel: self.use_hw_accel,
            enable_adblock: self.enable_adblock,
            amnesia_mode: self.amnesia_mode,
            show_home_button: self.show_home_button,
            search_engine_url: text_view(self.search_engine_url),
            search_engine_index: self.search_engine_index,
        }
    }
}

impl ConfigDocumentView {
    /// No field is missing.
    pub open spec fn complete(self) -> bool {
        &&& self.homepage is Some
        &&& self.use_hw_accel is Some
        &&& self.enable_adblock is Some
        &&& self.amnesia_mode is Some
        &&& self.show_home_button is Some
        &&& self.search_engine_url is Some
        &&& self.search_engine_index is Some
    }

    /// The preferences that a complete document holds.
    pub open spec fn config(self) -> AppConfigView
        recommends
            self.complete(),
    {
        AppConfigView {
            homepage: self.homepage->0,
            use_hw_accel: self.use_hw_accel->0,
            enable_adblock: self.enable_adblock->0,
            amnesia_mode: self.amnesia_mode->0,
            show_home_button: self.show_home_button->0,
            search_engine_url: self.search_engine_url->0,
            search_engine_index: self.search_engine_index->0,
        }
    }
}

/// The name of the directory, below the user's configuration directory,
/// in which the preference file lies.
pub open spec fn config_dir_text() -> Seq<char> {
    "rusty_browser"@
}

/// The name of the preference file.
pub open spec fn config_file_text() -> Seq<char> {
    "settings.json"@
}

/// The name of the directory, below the user's configuration directory,
/// in which the preference file lies.
pub fn config_dir_name() -> (name: &'static str)
    ensures
        name@ == config_dir_text(),
{
    "rusty_browser"
}

/// The name of the preference file.
pub fn config_file_name() -> (name: &'static str)
    ensures
        name@ == config_file_text(),
{
    "settings.json"
}

/// The view of an optional document.
pub open spec fn document_view(document: Option<ConfigDocument>) -> Option<ConfigDocumentView> {
    match document {
        Some(d) => Some(d@),
        None => None,
    }
}

/// The preferences that loading yields.
///
/// `None` stands for a document that is absent or unreadable. A document is
/// taken whole or not at all: with every field present it is the
/// preferences, with any field missing the defaults apply to all fields.
pub open spec fn loaded(document: Option<ConfigDocumentView>) -> AppConfigView {
    match document {
        Some(d) => if d.complete() {
            d.config()
        } else {
            default_config()
        },
        None => default_config(),
    }
}

/// Turns what was read from the preference file into preferences.
pub fn load_config(document: Option<ConfigDocument>) -> (config: AppConfig)
    ensures
        config@ == loaded(document_view(document)),
{
    match document {
        Some(
            ConfigDocument {
                homepage: Some(homepage),
                use_hw_accel: Some(use_hw_accel),
                enable_adblock: Some(enable_adblock),
                amnesia_mode: Some(amnesia_mode),
                show_home_button: Some(show_home_button),
                search_engine_url: Some(search_engine_url),
                search_engine_index: Some(search_engine_index),
            },
        ) => AppConfig {
            homepage,
            use_hw_accel,
            enable_adblock,
            amnesia_mode,
            show_home_button,
            search_engine_url,
            search_engine_index,
        },
        _ => AppConfig::default(),
    }
}

/// The values of the settings form at the moment it is confirmed.
#[derive(Clone, Debug, PartialEq, Eq)]
pub struct SettingsForm {
    pub homepage: String,
    pub use_hw_accel: bool,
    pub enable_adblock: bool,
    pub amnesia_mode: bool,
    pub show_home_button: bool,
    /// The selected row of the engine list; any value at or above
    /// [`SEARCH_ENGINE_COUNT`] means that no row is selected.
    pub search_engine_index: u32,
}

/// The mathematical value of a [`SettingsForm`].
pub struct SettingsFormView {
    pub homepage: Seq<char>,
    pub use_hw_accel: bool,
    pub enable_adblock: bool,
    pub amnesia_mode: bool,
    pub show_home_button: bool,
    pub search_engine_index: u32,
}

impl View for SettingsForm {
    type V = SettingsFormView;

    open spec fn view(&self) -> SettingsFormView {
        SettingsFormView {
            homepage: self.homepage@,
            use_hw_accel: self.use_hw_accel,
            enable_adblock: self.enable_adblock,
            amnesia_mode: self.amnesia_mode,
            show_home_button: self.show_home_button,
            search_engine_index: self.search_engine_index,
        }
    }
}

impl AppConfig {
    /// The settings form as it opens: every control shows the current
    /// preference.
    pub fn form(&self) -> (form: SettingsForm)
        ensures
            form@ == self@.form(),
    {
        SettingsForm {
            homepage: self.homepage.clone(),
            use_hw_accel: self.use_hw_accel,
            enable_adblock: self.enable_adblock,
            amnesia_mode: self.amnesia_mode,
            show_home_button: self.show_home_button,
            search_engine_index: self.search_engine_index,
        }
    }

    /// Takes over the values of a confirmed settings form.
    pub fn apply_settings(&mut self, form: &SettingsForm)
        ensures
            final(self)@ == old(self)@.confirmed(form@),
    {
        self.homepage = form.homepage.clone();
        self.use_hw_accel = form.use_hw_accel;
        self.enable_adblock = form.enable_adblock;
        self.amnesia_mode = form.amnesia_mode;
        self.show_home_button = form.show_home_button;
        match SearchEngine::from_index(form.search_engine_index) {
            Some(engine) => {
                self.search_engine_index = form.search_engine_index;
                self.search_engine_url = engine.url();
            },
            None => {},
        }
    }

    /// The document to store for these preferences.
    pub fn to_document(&self) -> (document: ConfigDocument)
        ensures
            document@ == self@.document(),
    {
        ConfigDocument {
            homepage: Some(self.homepage.clone()),
            use_hw_accel: Some(self.use_hw_accel),
            enable_adblock: Some(self.enable_adblock),
            amnesia_mode: Some(self.amnesia_mode),
            show_home_button: Some(self.show_home_button),
            search_engine_url: Some(self.search_engine_url.clone()),
            search_engine_index: Some(self.search_engine_index),
        }
    }
}

/// A document with any field missing loads as the defaults, whatever its
/// other fields hold; so does an absent document.
pub proof fn law_incomplete_document_loads_defaults(document: ConfigDocumentView)
    requires
        !document.complete(),
    ensures
        loaded(Some(document)) == default_config(),
        loaded(None) == default_config(),
{
}

/// A complete document loads as exactly the preferences it holds, and the
/// document stored for any preferences loads back as those preferences.
pub proof fn law_stored_document_loads_back(config: AppConfigView)
    ensures
        config.document().complete(),
        loaded(Some(config.document())) == config,
{
}

/// After a settings form that selects one of the listed engines is
/// confirmed, the stored index is the selection and the stored URL is that
/// engine's, whatever the preferences were before.
pub proof fn law_confirm_pairs_engine_index_and_url(before: AppConfigView, form: SettingsFormView)
    requires
        form.search_engine_index < SEARCH_ENGINE_COUNT,
    ensures
        before.confirmed(form).engine_consistent(),
        before.confirmed(form).search_engine_index == form.search_engine_index,
{
}

/// Confirming a settings form never pulls the engine index and URL apart:
/// preferences in which they agree stay so under every form, also one
/// whose selection names no engine.
pub proof fn law_confirm_preserves_engine_consistency(
    before: AppConfigView,
    form: SettingsFormView,
)
    requires
        before.engine_consistent(),
    ensures
        before.confirmed(form).engine_consistent(),
{
}

/// The defaults pair the first engine with its own URL.
pub proof fn law_defaults_are_engine_consistent()
    ensures
        default_config().engine_consistent(),
{
}

} // verus!
