//! The toolbar's commands and the engine calls they turn into.

use vstd::prelude::*;
use crate::address::address_target;
use crate::address::resolve_address;
use crate::config::AppConfig;
use crate::config::AppConfigView;

verus! {

/// What the user asked for on the toolbar.
#[derive(Clone, Debug, PartialEq, Eq)]
pub enum NavCommand {
    Back,
    Forward,
    Reload,
    Home,
    /// The address bar was submitted with this text.
    Submit(String),
}

/// The mathematical value of a [`NavCommand`].
pub enum NavCommandView {
    Back,
    Forward,
    Reload,
    Home,
    Submit(Seq<char>),
}

impl View for NavCommand {
    type V = NavCommandView;

    open spec fn view(&self) -> NavCommandView {
        match self {
            NavCommand::Back => NavCommandView::Back,
            NavCommand::Forward => NavCommandView::Forward,
            NavCommand::Reload => NavCommandView::Reload,
            NavCommand::Home => NavCommandView::Home,
            NavCommand::Submit(text) => NavCommandView::Submit(text@),
        }
    }
}

/// What the active surface's history allows, as the engine reports it.
#[derive(Clone, Copy, PartialEq, Eq, Structural, Debug)]
pub struct History {
    pub can_go_back: bool,
    pub can_go_forward: bool,
}

/// A call to make on a rendering surface.
#[derive(Clone, Debug, PartialEq, Eq)]
pub enum EngineCall {
    GoBack,
    GoForward,
    Reload,
    LoadUri(String),
}

/// The mathematical value of an [`EngineCall`].
pub enum EngineCallView {
    GoBack,
    GoForward,
    Reload,
    LoadUri(Seq<char>),
}

impl View for EngineCall {
    type V = EngineCallView;

    open spec fn view(&self) -> EngineCallView {
        match self {
            EngineCall::GoBack => EngineCallView::GoBack,
            EngineCall::GoForward => EngineCallView::GoForward,
            EngineCall::Reload => EngineCallView::Reload,
            EngineCall::LoadUri(uri) => EngineCallView::LoadUri(uri@),
        }
    }
}

/// The view of an optional engine call.
pub open spec fn call_view(call: Option<EngineCall>) -> Option<EngineCallView> {
    match call {
        Some(c) => Some(c@),
        None => None,
    }
}

/// The engine call that a command turns into, if any.
///
/// Back and forward are made only where the history allows them. Reload is
/// always made. Home loads the home page. A submitted text loads what the
/// address bar's reading of it gives under the current search engine.
pub open spec fn engine_call_for(
    command: NavCommandView,
    history: History,
    config: AppConfigView,
) -> Option<EngineCallView> {
    match command {
        NavCommandView::Back => if history.can_go_back {
            Some(EngineCallView::GoBack)
        } else {
            None
        },
        NavCommandView::Forward => if history.can_go_forward {
            Some(EngineCallView::GoForward)
        } else {
            None
        },
        NavCommandView::Reload => Some(EngineCallView::Reload),
        NavCommandView::Home => Some(EngineCallView::LoadUri(config.homepage)),
        NavCommandView::Submit(text) => Some(
            EngineCallView::LoadUri(address_target(text, config.search_engine_url)),
        ),
    }
}

/// Turns a toolbar command into the call to make on the active surface.
pub fn engine_call(command: &NavCommand, history: History, config: &AppConfig) -> (call: Option<
    EngineCall,
>)
    ensures
        call_view(call) == engine_call_for(command@, history, config@),
{
    match command {
        NavCommand::Back => if history.can_go_back {
            Some(EngineCall::GoBack)
        } else {
            None
        },
        NavCommand::Forward => if history.can_go_forward {
            Some(EngineCall::GoForward)
        } else {
            None
        },
        NavCommand::Reload => Some(EngineCall::Reload),
        NavCommand::Home => Some(EngineCall::LoadUri(config.homepage.clone())),
        NavCommand::Submit(text) => Some(
            EngineCall::LoadUri(resolve_address(text.as_str(), config.search_engine_url.as_str())),
        ),
    }
}

} // verus!
