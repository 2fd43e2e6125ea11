use vstd::prelude::*;

use crate::geometry::Size;

verus! {

/// Where a window stands between creation and presentation.
#[derive(Clone, Copy, Debug, PartialEq, Eq, Structural)]
pub enum VisibilityState {
    /// Neither ready nor asked to show.
    NotReady,
    /// Asked to show before the application declared it ready.
    ShowRequested,
    /// Ready, never presented, not asked to show.
    ReadyHidden,
    /// Ready and asked to show: waiting for rendered content of the right size.
    Showing,
    Visible,
    /// Presented once, then hidden.
    Hidden,
}

/// What the host must do after a client call.
#[derive(Clone, Copy, Debug, PartialEq, Eq, Structural)]
pub enum VisibilityAction {
    Nothing,
    /// Run the show protocol: schedule the first content check.
    StartPolling,
    /// Order the window out and notify the delegate that it is no longer visible.
    Hide,
}

/// What the host must do after one content check of the show protocol.
#[derive(Clone, Copy, Debug, PartialEq, Eq, Structural)]
pub enum PollOutcome {
    /// Present the window (as a sheet of its parent where modal) and notify
    /// the delegate that it is visible.
    Present { as_sheet: bool },
    /// Check again on the next display refresh.
    Reschedule,
    /// The show protocol was cancelled: schedule nothing more.
    Stop,
}

/// What the renderer currently shows in the window's content view.
#[derive(Clone, Copy, Debug, PartialEq, Eq, Structural)]
pub struct SurfaceReport {
    pub has_content: bool,
    pub width: i64,
    pub height: i64,
}

pub open spec fn spec_on_ready(s: VisibilityState) -> (VisibilityState, VisibilityAction) {
    match s {
        VisibilityState::NotReady => (VisibilityState::ReadyHidden, VisibilityAction::Nothing),
        VisibilityState::ShowRequested => (VisibilityState::Showing, VisibilityAction::StartPolling),
        _ => (s, VisibilityAction::Nothing),
    }
}

pub open spec fn spec_on_show(s: VisibilityState) -> (VisibilityState, VisibilityAction) {
    match s {
        VisibilityState::NotReady => (VisibilityState::ShowRequested, VisibilityAction::Nothing),
        VisibilityState::ShowRequested => (s, VisibilityAction::Nothing),
        VisibilityState::Showing => (s, VisibilityAction::Nothing),
        _ => (VisibilityState::Showing, VisibilityAction::StartPolling),
    }
}

pub open spec fn spec_on_hide(s: VisibilityState) -> (VisibilityState, VisibilityAction) {
    match s {
        VisibilityState::NotReady => (s, VisibilityAction::Nothing),
        VisibilityState::ShowRequested => (VisibilityState::NotReady, VisibilityAction::Nothing),
        VisibilityState::ReadyHidden => (s, VisibilityAction::Nothing),
        VisibilityState::Showing => (VisibilityState::ReadyHidden, VisibilityAction::Nothing),
        _ => (VisibilityState::Hidden, VisibilityAction::Hide),
    }
}

/// The rendered surface is there and has exactly the content size at the
/// backing scale factor.
pub open spec fn content_matches(surface: SurfaceReport, scale: i64, content: Size) -> bool {
    surface.has_content && surface.width == scale * content.width && surface.height == scale
        * content.height
}

pub open spec fn spec_on_poll(s: VisibilityState, surface: SurfaceReport, scale: i64, content: Size, modal: bool) -> (
    VisibilityState,
    PollOutcome,
) {
    if s == VisibilityState::Showing {
        if content_matches(surface, scale, content) {
            (VisibilityState::Visible, PollOutcome::Present { as_sheet: modal })
        } else {
            (s, PollOutcome::Reschedule)
        }
    } else {
        (s, PollOutcome::Stop)
    }
}

pub fn on_ready(s: VisibilityState) -> (r: (VisibilityState, VisibilityAction))
    ensures
        r == spec_on_ready(s),
{
    match s {
        VisibilityState::NotReady => (VisibilityState::ReadyHidden, VisibilityAction::Nothing),
        VisibilityState::ShowRequested => (VisibilityState::Showing, VisibilityAction::StartPolling),
        _ => (s, VisibilityAction::Nothing),
    }
}

pub fn on_show(s: VisibilityState) -> (r: (VisibilityState, VisibilityAction))
    ensures
        r == spec_on_show(s),
{
    match s {
        VisibilityState::NotReady => (VisibilityState::ShowRequested, VisibilityAction::Nothing),
        VisibilityState::ShowRequested => (s, VisibilityAction::Nothing),
        VisibilityState::Showing => (s, VisibilityAction::Nothing),
        _ => (VisibilityState::Showing, VisibilityAction::StartPolling),
    }
}

pub fn on_hide(s: VisibilityState) -> (r: (VisibilityState, VisibilityAction))
    ensures
        r == spec_on_hide(s),
{
    match s {
        VisibilityState::NotReady => (s, VisibilityAction::Nothing),
        VisibilityState::ShowRequested => (VisibilityState::NotReady, VisibilityAction::Nothing),
        VisibilityState::ReadyHidden => (s, VisibilityAction::Nothing),
        VisibilityState::Showing => (VisibilityState::ReadyHidden, VisibilityAction::Nothing),
        _ => (VisibilityState::Hidden, VisibilityAction::Hide),
    }
}

/// Whether the rendered surface matches the content size at the given scale.
pub fn surface_matches(surface: SurfaceReport, scale: i64, content: Size) -> (b: bool)
    ensures
        b == content_matches(surface, scale, content),
{
    proof {
        lemma_product_fits(scale as int, content.width as int);
        lemma_product_fits(scale as int, content.height as int);
    }
    let expected_width: i128 = (scale as i128) * (content.width as i128);
    let expected_height: i128 = (scale as i128) * (content.height as i128);
    surface.has_content && surface.width as i128 == expected_width && surface.height as i128
        == expected_height
}

proof fn lemma_product_fits(a: int, b: int)
    requires
        i64::MIN <= a <= i64::MAX,
        i64::MIN <= b <= i64::MAX,
    ensures
        i128::MIN <= a * b <= i128::MAX,
{
    assert(-0x4000_0000_0000_0000_0000_0000_0000_0000 <= a * b <= 0x4000_0000_0000_0000_0000_0000_0000_0000) by (nonlinear_arith)
        requires
            -0x8000_0000_0000_0000 <= a <= 0x7fff_ffff_ffff_ffff,
            -0x8000_0000_0000_0000 <= b <= 0x7fff_ffff_ffff_ffff,
    ;
}

pub fn on_poll(s: VisibilityState, surface: SurfaceReport, scale: i64, content: Size, modal: bool) -> (r: (
    VisibilityState,
    PollOutcome,
))
    ensures
        r == spec_on_poll(s, surface, scale, content, modal),
{
    if s == VisibilityState::Showing {
        if surface_matches(surface, scale, content) {
            (VisibilityState::Visible, PollOutcome::Present { as_sheet: modal })
        } else {
            (s, PollOutcome::Reschedule)
        }
    } else {
        (s, PollOutcome::Stop)
    }
}

pub open spec fn starts(a: VisibilityAction) -> int {
    if a == VisibilityAction::StartPolling {
        1
    } else {
        0
    }
}

/// Readiness and a show request lead to exactly one run of the show protocol,
/// in whichever order they come; a show request cancelled before readiness
/// leads to none, and the protocol then stops at its next check.
pub proof fn lemma_show_sequencing(surface: SurfaceReport, scale: i64, content: Size, modal: bool)
    ensures
        ({
            let (s1, a1) = spec_on_show(VisibilityState::NotReady);
            let (s2, a2) = spec_on_ready(s1);
            starts(a1) + starts(a2) == 1 && s2 == VisibilityState::Showing
        }),
        ({
            let (s1, a1) = spec_on_ready(VisibilityState::NotReady);
            let (s2, a2) = spec_on_show(s1);
            starts(a1) + starts(a2) == 1 && s2 == VisibilityState::Showing
        }),
        ({
            let (s1, a1) = spec_on_show(VisibilityState::NotReady);
            let (s2, a2) = spec_on_hide(s1);
            let (s3, a3) = spec_on_ready(s2);
            &&& starts(a1) + starts(a2) + starts(a3) == 0
            &&& spec_on_poll(s3, surface, scale, content, modal).1 == PollOutcome::Stop
        }),
{
}

/// While the show protocol runs, further show requests and further readiness
/// start no second run.
pub proof fn lemma_single_protocol_run()
    ensures
        spec_on_show(VisibilityState::Showing) == (VisibilityState::Showing, VisibilityAction::Nothing),
        spec_on_ready(VisibilityState::Showing) == (VisibilityState::Showing, VisibilityAction::Nothing),
{
}

} // verus!
