//! What a new rendering surface is configured with: where its storage
//! lives, which style sheet is injected, and how it renders.

use vstd::prelude::*;
use vstd::string::StringExecFns;
use crate::config::text_view;
use crate::tab::ContextId;
use crate::tab::TabHandle;

verus! {

/// When the engine may composite on the GPU.
#[derive(Clone, Copy, PartialEq, Eq, Structural, Debug)]
pub enum AccelerationPolicy {
    Always,
    Never,
}

/// The engine settings of one rendering surface.
#[derive(Clone, Debug, PartialEq, Eq)]
pub struct RenderPolicy {
    pub hardware_acceleration: AccelerationPolicy,
    pub webgl: bool,
    pub media_stream: bool,
    pub media_source: bool,
    pub smooth_scrolling: bool,
    pub developer_extras: bool,
    pub user_agent: String,
}

/// The mathematical value of a [`RenderPolicy`].
pub struct RenderPolicyView {
    pub hardware_acceleration: AccelerationPolicy,
    pub webgl: bool,
    pub media_stream: bool,
    pub media_source: bool,
    pub smooth_scrolling: bool,
    pub developer_extras: bool,
    pub user_agent: Seq<char>,
}

impl View for RenderPolicy {
    type V = RenderPolicyView;

    open spec fn view(&self) -> RenderPolicyView {
        RenderPolicyView {
            hardware_acceleration: self.hardware_acceleration,
            webgl: self.webgl,
            media_stream: self.media_stream,
            media_source: self.media_source,
            smooth_scrolling: self.smooth_scrolling,
            developer_extras: self.developer_extras,
            user_agent: self.user_agent@,
        }
    }
}

/// The user agent that every surface reports: that of a desktop browser,
/// whatever the engine's own would be.
pub open spec fn user_agent_text() -> Seq<char> {
    "Mozilla/5.0 (X11; Linux x86_64) AppleWebKit/537.36 (KHTML, like Gecko) Chrome/120.0.0.0 Safari/537.36"@
}

/// The engine settings under the preference `use_hw_accel`.
///
/// The preference switches accelerated compositing and WebGL together.
/// The rest is fixed: media capture and media sources on, smooth scrolling
/// off, developer tools on, and the desktop user agent.
pub open spec fn render_policy_for(use_hw_accel: bool) -> RenderPolicyView {
    RenderPolicyView {
        hardware_acceleration: if use_hw_accel {
            AccelerationPolicy::Always
        } else {
            AccelerationPolicy::Never
        },
        webgl: use_hw_accel,
        media_stream: true,
        media_source: true,
        smooth_scrolling: false,
        developer_extras: true,
        user_agent: user_agent_text(),
    }
}

/// The style sheet that hides the page elements which usually hold
/// advertisements.
pub open spec fn adblock_css() -> Seq<char> {
    "iframe[src*='ads'], div[class*='ad-'], div[id*='google_ads'], .adsbygoogle, .ad-banner { display: none !important; }"@
}

/// The style sheet to inject into every frame of a new surface, if any,
/// under the preference `enable_adblock`.
pub open spec fn content_filter_for(enable_adblock: bool) -> Option<Seq<char>> {
    if enable_adblock {
        Some(adblock_css())
    } else {
        None
    }
}

/// Computes the engine settings for a new surface.
pub fn render_policy(use_hw_accel: bool) -> (policy: RenderPolicy)
    ensures
        policy@ == render_policy_for(use_hw_accel),
{
    RenderPolicy {
        hardware_acceleration: if use_hw_accel {
            AccelerationPolicy::Always
        } else {
            AccelerationPolicy::Never
        },
        webgl: use_hw_accel,
        media_stream: true,
        media_source: true,
        smooth_scrolling: false,
        developer_extras: true,
        user_agent: String::from_str(
            "Mozilla/5.0 (X11; Linux x86_64) AppleWebKit/537.36 (KHTML, like Gecko) Chrome/120.0.0.0 Safari/537.36",
        ),
    }
}

/// Computes the style sheet to inject into every frame of a new surface.
pub fn content_filter(enable_adblock: bool) -> (css: Option<String>)
    ensures
        text_view(css) == content_filter_for(enable_adblock),
{
    if enable_adblock {
        Some(
            String::from_str(
                "iframe[src*='ads'], div[class*='ad-'], div[id*='google_ads'], .adsbygoogle, .ad-banner { display: none !important; }",
            ),
        )
    } else {
        None
    }
}

/// Everything needed to build the rendering surface of a new tab.
#[derive(Clone, Debug, PartialEq, Eq)]
pub struct SurfacePlan {
    /// The tab that the surface belongs to.
    pub handle: TabHandle,
    /// The context to bind the surface to: the shared one, or a new one
    /// made for this surface alone.
    pub context: ContextId,
    /// The style sheet to inject into all frames, if any.
    pub content_filter: Option<String>,
    /// The engine settings.
    pub policy: RenderPolicy,
    /// The text to put on the tab's header.
    pub label: String,
    /// The address to load once the surface's signals are connected.
    pub url: String,
}

/// The mathematical value of a [`SurfacePlan`].
pub struct SurfacePlanView {
    pub handle: TabHandle,
    pub context: ContextId,
    pub content_filter: Option<Seq<char>>,
    pub policy: RenderPolicyView,
    pub label: Seq<char>,
    pub url: Seq<char>,
}

impl View for SurfacePlan {
    type V = SurfacePlanView;

    open spec fn view(&self) -> SurfacePlanView {
        SurfacePlanView {
            handle: self.handle,
            context: self.context,
            content_filter: text_view(self.content_filter),
            policy: self.policy@,
            label: self.label@,
            url: self.url@,
        }
    }
}

/// Accelerated compositing and WebGL are never apart: under either value
/// of the preference both are on or both are off. Nothing else in the
/// engine settings depends on the preference.
pub proof fn law_acceleration_and_webgl_are_coupled(use_hw_accel: bool)
    ensures
        ({
            let policy = render_policy_for(use_hw_accel);
            let other = render_policy_for(!use_hw_accel);
            &&& policy.webgl == use_hw_accel
            &&& policy.webgl <==> policy.hardware_acceleration == AccelerationPolicy::Always
            &&& !policy.webgl <==> policy.hardware_acceleration == AccelerationPolicy::Never
            &&& policy.media_stream && policy.media_source && policy.developer_extras
            &&& !policy.smooth_scrolling
            &&& policy.user_agent == user_agent_text()
            &&& other == (RenderPolicyView {
                hardware_acceleration: other.hardware_acceleration,
                webgl: other.webgl,
                ..policy
            })
        }),
{
}

} // verus!
