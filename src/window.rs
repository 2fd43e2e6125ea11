use vstd::prelude::*;

use crate::events::{
    hover_move_after, is_latest, pointer_kinds, release_after, button_kinds, valid_ledger,
    EventLedger, NativeEvent, PointerState, Recorded, LEFT_MOUSE_DOWN, MOUSE_ENTERED, MOUSE_EXITED,
};
use crate::geometry::{
    logical_origin, point_in_range, rect_in_range, spec_logical_origin, in_range,
    Point, Rect, Size,
};
use crate::style::{spec_style_settings, style_settings, StyleSettings, WindowStyle};
use crate::visibility::{
    on_hide, on_poll, on_ready, on_show, spec_on_hide, spec_on_poll, spec_on_ready, spec_on_show,
    PollOutcome, SurfaceReport, VisibilityAction, VisibilityState,
};

verus! {

#[derive(Clone, Copy, Debug, PartialEq, Eq, Structural)]
pub enum PlatformError {
    /// The operation needs a recent input event and none was recorded.
    NoEventFound,
    /// The host has no such feature.
    NotAvailable,
}

/// Geometry fields, each present or not. A request carries the fields to set;
/// a reading carries every field.
#[derive(Clone, Copy, Debug, PartialEq, Eq, Structural)]
pub struct WindowGeometry {
    pub frame_origin: Option<Point>,
    pub frame_size: Option<Size>,
    pub content_origin: Option<Point>,
    pub content_size: Option<Size>,
    pub min_frame_size: Option<Size>,
    pub max_frame_size: Option<Size>,
    pub min_content_size: Option<Size>,
    pub max_content_size: Option<Size>,
}

/// Which geometry fields were (or can be) applied.
#[derive(Clone, Copy, Debug, PartialEq, Eq, Structural)]
pub struct WindowGeometryFlags {
    pub frame_origin: bool,
    pub frame_size: bool,
    pub content_origin: bool,
    pub content_size: bool,
    pub min_frame_size: bool,
    pub max_frame_size: bool,
    pub min_content_size: bool,
    pub max_content_size: bool,
}

/// The fields of a geometry request that the host is to apply, and the flags
/// reported back to the caller.
#[derive(Clone, Copy, Debug, PartialEq, Eq, Structural)]
pub struct GeometryPlan {
    pub apply: WindowGeometry,
    pub flags: WindowGeometryFlags,
}

/// What the host reports of a window's geometry, in native space.
#[derive(Clone, Copy, Debug, PartialEq, Eq, Structural)]
pub struct NativeGeometry {
    pub screen_height: i64,
    pub frame: Rect,
    pub content: Rect,
    pub min_frame_size: Size,
    pub max_frame_size: Size,
    pub min_content_size: Size,
    pub max_content_size: Size,
}

/// What to do with an incoming native event.
#[derive(Clone, Copy, Debug, PartialEq, Eq, Structural)]
pub struct EventDecision {
    /// Forward the event to normal dispatch.
    pub dispatch: bool,
    /// An event to inject into the window's event path in its place.
    pub synthesized: Option<NativeEvent>,
}

/// The press that starts a drag session, and the release to inject after the
/// session has taken over the press.
#[derive(Clone, Copy, Debug, PartialEq, Eq, Structural)]
pub struct DragStart {
    pub press: NativeEvent,
    pub release: Option<NativeEvent>,
}

#[derive(Clone, Copy, Debug, PartialEq, Eq, Structural)]
pub struct PopupMenuResponse {
    pub item_selected: bool,
}

/// What follows the closing of a popup menu: the response for the caller and
/// the hover move that restores pointer feedback.
#[derive(Clone, Copy, Debug, PartialEq, Eq, Structural)]
pub struct PopupOutcome {
    pub response: PopupMenuResponse,
    pub hover_move: Option<NativeEvent>,
}

pub open spec fn is_hover(kind: u64) -> bool {
    kind == MOUSE_ENTERED || kind == MOUSE_EXITED
}

pub open spec fn only_if<T>(c: bool, v: Option<T>) -> Option<T> {
    if c {
        v
    } else {
        None
    }
}

pub open spec fn spec_supported_geometry(modal: bool) -> WindowGeometryFlags {
    WindowGeometryFlags {
        frame_origin: !modal,
        frame_size: true,
        content_origin: !modal,
        content_size: true,
        min_frame_size: true,
        max_frame_size: true,
        min_content_size: true,
        max_content_size: true,
    }
}

/// The fields applied from `request`: all that are present, but the origins
/// of a modal window, which the host positions itself.
pub open spec fn spec_applied(request: WindowGeometry, modal: bool) -> WindowGeometry {
    WindowGeometry {
        frame_origin: only_if(!modal, request.frame_origin),
        content_origin: only_if(!modal, request.content_origin),
        ..request
    }
}

pub open spec fn spec_flags_of(g: WindowGeometry) -> WindowGeometryFlags {
    WindowGeometryFlags {
        frame_origin: g.frame_origin is Some,
        frame_size: g.frame_size is Some,
        content_origin: g.content_origin is Some,
        content_size: g.content_size is Some,
        min_frame_size: g.min_frame_size is Some,
        max_frame_size: g.max_frame_size is Some,
        min_content_size: g.min_content_size is Some,
        max_content_size: g.max_content_size is Some,
    }
}

pub open spec fn spec_plan(request: WindowGeometry, modal: bool) -> GeometryPlan {
    GeometryPlan {
        apply: spec_applied(request, modal),
        flags: spec_flags_of(spec_applied(request, modal)),
    }
}

pub open spec fn native_geometry_in_range(g: NativeGeometry) -> bool {
    in_range(g.screen_height as int) && rect_in_range(g.frame) && rect_in_range(g.content)
}

pub open spec fn point_of(p: (int, int)) -> Point {
    Point { x: p.0 as i64, y: p.1 as i64 }
}

pub open spec fn spec_geometry_of(g: NativeGeometry) -> WindowGeometry {
    WindowGeometry {
        frame_origin: Some(point_of(spec_logical_origin(g.frame, g.screen_height as int))),
        frame_size: Some(g.frame.size),
        content_origin: Some(point_of(spec_logical_origin(g.content, g.screen_height as int))),
        content_size: Some(g.content.size),
        min_frame_size: Some(g.min_frame_size),
        max_frame_size: Some(g.max_frame_size),
        min_content_size: Some(g.min_content_size),
        max_content_size: Some(g.max_content_size),
    }
}

/// The decision on one event, for a window that ignores hover events stamped
/// before `ignore_until`, given the latest pointer event it recorded.
pub open spec fn spec_decision(
    ignore_until: u64,
    event: NativeEvent,
    pointer: PointerState,
    content: Rect,
    latest_pointer: Option<Recorded>,
) -> EventDecision {
    if is_hover(event.kind) && event.timestamp < ignore_until {
        EventDecision { dispatch: false, synthesized: hover_move_after(latest_pointer, pointer, content) }
    } else {
        EventDecision { dispatch: true, synthesized: None }
    }
}

/// The control state of one native window. `C` is the completion callback of
/// a modal session.
pub struct PlatformWindow<C> {
    ledger: EventLedger,
    visibility: VisibilityState,
    modal_close_callback: Option<C>,
    ignore_enter_leave_until: u64,
    has_parent: bool,
}

impl<C> PlatformWindow<C> {
    pub closed spec fn events(&self) -> Map<u64, Recorded> {
        self.ledger@
    }

    /// The stamp the next recorded event gets.
    pub closed spec fn event_stamp(&self) -> u64 {
        self.ledger.stamp()
    }

    pub closed spec fn state(&self) -> VisibilityState {
        self.visibility
    }

    pub closed spec fn callback(&self) -> Option<C> {
        self.modal_close_callback
    }

    pub open spec fn modal(&self) -> bool {
        self.callback() is Some
    }

    /// Hover events stamped before this time are not dispatched.
    pub closed spec fn ignore_until(&self) -> u64 {
        self.ignore_enter_leave_until
    }

    pub closed spec fn parent(&self) -> bool {
        self.has_parent
    }

    pub closed spec fn wf(&self) -> bool {
        self.ledger.wf()
    }

    /// The recorded events of a well-formed window are consistent with its
    /// next stamp.
    pub proof fn lemma_events_valid(&self)
        requires
            self.wf(),
        ensures
            valid_ledger(self.events(), self.event_stamp()),
    {
        self.ledger.lemma_wf();
    }

    /// A new window: nothing recorded, not ready, not modal.
    pub fn new(has_parent: bool) -> (r: Self)
        ensures
            r.wf(),
            r.events() == Map::<u64, Recorded>::empty(),
            r.event_stamp() == 0,
            r.state() == VisibilityState::NotReady,
            r.callback() is None,
            r.ignore_until() == 0,
            r.parent() == has_parent,
    {
        PlatformWindow {
            ledger: EventLedger::new(),
            visibility: VisibilityState::NotReady,
            modal_close_callback: None,
            ignore_enter_leave_until: 0,
            has_parent,
        }
    }

    pub fn is_modal(&self) -> (r: bool)
        ensures
            r == self.modal(),
    {
        self.modal_close_callback.is_some()
    }

    pub fn visibility(&self) -> (r: VisibilityState)
        ensures
            r == self.state(),
    {
        self.visibility
    }

    /// The stamp the next recorded event gets; events can be recorded while it
    /// is below `u64::MAX`.
    pub fn events_recorded(&self) -> (r: u64)
        ensures
            r == self.event_stamp(),
    {
        self.ledger.next_stamp()
    }

    pub fn ignore_hover_until(&self) -> (r: u64)
        ensures
            r == self.ignore_until(),
    {
        self.ignore_enter_leave_until
    }

    /// The latest recorded event of the given kind.
    pub fn last_event_of(&self, kind: u64) -> (r: Option<Recorded>)
        ensures
            r == (if self.events().contains_key(kind) {
                Some(self.events()[kind])
            } else {
                None
            }),
    {
        self.ledger.last_of(kind)
    }

    pub fn supported_geometry(&self) -> (r: WindowGeometryFlags)
        ensures
            r == spec_supported_geometry(self.modal()),
    {
        let modal = self.is_modal();
        WindowGeometryFlags {
            frame_origin: !modal,
            frame_size: true,
            content_origin: !modal,
            content_size: true,
            min_frame_size: true,
            max_frame_size: true,
            min_content_size: true,
            max_content_size: true,
        }
    }

    /// Splits a geometry request into the fields the host applies and the
    /// flags reported to the caller; a modal window applies no origin.
    pub fn set_geometry(&self, request: WindowGeometry) -> (r: GeometryPlan)
        ensures
            r == spec_plan(request, self.modal()),
    {
        let modal = self.is_modal();
        let frame_origin = if modal {
            None
        } else {
            request.frame_origin
        };
        let content_origin = if modal {
            None
        } else {
            request.content_origin
        };
        let apply = WindowGeometry { frame_origin, content_origin, ..request };
        let flags = WindowGeometryFlags {
            frame_origin: apply.frame_origin.is_some(),
            frame_size: apply.frame_size.is_some(),
            content_origin: apply.content_origin.is_some(),
            content_size: apply.content_size.is_some(),
            min_frame_size: apply.min_frame_size.is_some(),
            max_frame_size: apply.max_frame_size.is_some(),
            min_content_size: apply.min_content_size.is_some(),
            max_content_size: apply.max_content_size.is_some(),
        };
        GeometryPlan { apply, flags }
    }

    /// The logical geometry of the window, from what the host reports.
    pub fn get_geometry(&self, native: NativeGeometry) -> (r: WindowGeometry)
        requires
            native_geometry_in_range(native),
        ensures
            r == spec_geometry_of(native),
    {
        let frame_origin = logical_origin(native.frame, native.screen_height);
        let content_origin = logical_origin(native.content, native.screen_height);
        WindowGeometry {
            frame_origin: Some(frame_origin),
            frame_size: Some(native.frame.size),
            content_origin: Some(content_origin),
            content_size: Some(native.content.size),
            min_frame_size: Some(native.min_frame_size),
            max_frame_size: Some(native.max_frame_size),
            min_content_size: Some(native.min_content_size),
            max_content_size: Some(native.max_content_size),
        }
    }

    /// The native settings for a style, given the current collection behaviour.
    pub fn set_style(&self, style: WindowStyle, current_behavior: u64) -> (r: StyleSettings)
        ensures
            r == spec_style_settings(style, current_behavior),
    {
        style_settings(style, current_behavior)
    }

    /// The application declares the window ready.
    pub fn ready_to_show(&mut self) -> (r: VisibilityAction)
        ensures
            (final(self).state(), r) == spec_on_ready(old(self).state()),
            final(self).events() == old(self).events(),
            final(self).event_stamp() == old(self).event_stamp(),
            final(self).callback() == old(self).callback(),
            final(self).ignore_until() == old(self).ignore_until(),
            final(self).parent() == old(self).parent(),
            final(self).wf() == old(self).wf(),
    {
        let (s, a) = on_ready(self.visibility);
        self.visibility = s;
        a
    }

    /// The application asks to show the window.
    pub fn show(&mut self) -> (r: VisibilityAction)
        ensures
            (final(self).state(), r) == spec_on_show(old(self).state()),
            final(self).events() == old(self).events(),
            final(self).event_stamp() == old(self).event_stamp(),
            final(self).callback() == old(self).callback(),
            final(self).ignore_until() == old(self).ignore_until(),
            final(self).parent() == old(self).parent(),
            final(self).wf() == old(self).wf(),
    {
        let (s, a) = on_show(self.visibility);
        self.visibility = s;
        a
    }

    /// The application asks to hide the window.
    pub fn hide_window(&mut self) -> (r: VisibilityAction)
        ensures
            (final(self).state(), r) == spec_on_hide(old(self).state()),
            final(self).events() == old(self).events(),
            final(self).event_stamp() == old(self).event_stamp(),
            final(self).callback() == old(self).callback(),
            final(self).ignore_until() == old(self).ignore_until(),
            final(self).parent() == old(self).parent(),
            final(self).wf() == old(self).wf(),
    {
        let (s, a) = on_hide(self.visibility);
        self.visibility = s;
        a
    }

    /// One content check of the show protocol, with what the renderer shows,
    /// the backing scale factor and the logical content size.
    pub fn show_when_ready(&mut self, surface: SurfaceReport, scale: i64, content: Size) -> (r: PollOutcome)
        ensures
            (final(self).state(), r) == spec_on_poll(old(self).state(), surface, scale, content, old(self).modal()),
            final(self).events() == old(self).events(),
            final(self).event_stamp() == old(self).event_stamp(),
            final(self).callback() == old(self).callback(),
            final(self).ignore_until() == old(self).ignore_until(),
            final(self).parent() == old(self).parent(),
            final(self).wf() == old(self).wf(),
    {
        let modal = self.is_modal();
        let (s, o) = on_poll(self.visibility, surface, scale, content, modal);
        self.visibility = s;
        o
    }

    /// Starts a modal session with `done` as its completion callback (a
    /// second call replaces the first callback), then asks to show the window
    /// as a sheet of its parent.
    pub fn show_modal(&mut self, done: C) -> (r: VisibilityAction)
        requires
            old(self).parent(),
        ensures
            final(self).callback() == Some(done),
            (final(self).state(), r) == spec_on_show(old(self).state()),
            final(self).events() == old(self).events(),
            final(self).event_stamp() == old(self).event_stamp(),
            final(self).ignore_until() == old(self).ignore_until(),
            final(self).parent() == old(self).parent(),
            final(self).wf() == old(self).wf(),
    {
        self.modal_close_callback = Some(done);
        self.show()
    }

    /// Ends the modal session: hands out its callback, to be called once with
    /// the result before the window closes. The window is no longer modal.
    pub fn close_with_result(&mut self) -> (r: Option<C>)
        ensures
            r == old(self).callback(),
            final(self).callback() is None,
            final(self).state() == old(self).state(),
            final(self).events() == old(self).events(),
            final(self).event_stamp() == old(self).event_stamp(),
            final(self).ignore_until() == old(self).ignore_until(),
            final(self).parent() == old(self).parent(),
            final(self).wf() == old(self).wf(),
    {
        self.modal_close_callback.take()
    }

    /// Decides whether `event` goes on to dispatch: a hover enter or exit
    /// stamped before the ignore threshold does not, and a hover move is
    /// synthesized in its place where the pointer is inside the content.
    pub fn should_send_event(&self, event: NativeEvent, pointer: PointerState, content: Rect) -> (r: EventDecision)
        requires
            rect_in_range(content),
            point_in_range(pointer.location),
        ensures
            r.dispatch == !(is_hover(event.kind) && event.timestamp < self.ignore_until()),
            exists|l: Option<Recorded>|
                is_latest(self.events(), pointer_kinds(), l) && r == spec_decision(
                    self.ignore_until(),
                    event,
                    pointer,
                    content,
                    l,
                ),
    {
        if (event.kind == MOUSE_ENTERED || event.kind == MOUSE_EXITED) && event.timestamp
            < self.ignore_enter_leave_until {
            let synthesized = self.ledger.synthesize_hover_move_if_needed(pointer, content);
            EventDecision { dispatch: false, synthesized }
        } else {
            let r = EventDecision { dispatch: true, synthesized: None };
            proof {
                let l = choose|l: Option<Recorded>| is_latest(self.events(), pointer_kinds(), l);
                lemma_some_latest(self.events(), pointer_kinds());
                assert(is_latest(self.events(), pointer_kinds(), l) && r == spec_decision(
                    self.ignore_until(),
                    event,
                    pointer,
                    content,
                    l,
                ));
            }
            r
        }
    }

    /// Every event reaching the window: it is recorded as the latest of its
    /// kind, then the dispatch decision is made.
    pub fn send_event(&mut self, event: NativeEvent, pointer: PointerState, content: Rect) -> (r: EventDecision)
        requires
            old(self).wf(),
            old(self).event_stamp() < u64::MAX,
            rect_in_range(content),
            point_in_range(pointer.location),
        ensures
            final(self).wf(),
            final(self).events() == old(self).events().insert(
                event.kind,
                Recorded { event, seq: old(self).event_stamp() },
            ),
            final(self).event_stamp() == old(self).event_stamp() + 1,
            r.dispatch == !(is_hover(event.kind) && event.timestamp < old(self).ignore_until()),
            exists|l: Option<Recorded>|
                is_latest(final(self).events(), pointer_kinds(), l) && r == spec_decision(
                    old(self).ignore_until(),
                    event,
                    pointer,
                    content,
                    l,
                ),
            final(self).state() == old(self).state(),
            final(self).callback() == old(self).callback(),
            final(self).ignore_until() == old(self).ignore_until(),
            final(self).parent() == old(self).parent(),
    {
        self.ledger.record(event);
        self.should_send_event(event, pointer, content)
    }

    /// The latest left press, for the host to start a window drag with.
    pub fn perform_window_drag(&self) -> (r: Result<NativeEvent, PlatformError>)
        ensures
            self.events().contains_key(LEFT_MOUSE_DOWN) ==> r == Ok::<NativeEvent, PlatformError>(
                self.events()[LEFT_MOUSE_DOWN].event,
            ),
            !self.events().contains_key(LEFT_MOUSE_DOWN) ==> r == Err::<NativeEvent, PlatformError>(
                PlatformError::NoEventFound,
            ),
    {
        match self.ledger.last_of(LEFT_MOUSE_DOWN) {
            Some(rec) => Ok(rec.event),
            None => Err(PlatformError::NoEventFound),
        }
    }

    /// The press a drag session starts from, and the release to inject once
    /// the session has taken the press over.
    pub fn begin_drag_session(&self) -> (r: Result<DragStart, PlatformError>)
        ensures
            !self.events().contains_key(LEFT_MOUSE_DOWN) ==> r == Err::<DragStart, PlatformError>(
                PlatformError::NoEventFound,
            ),
            self.events().contains_key(LEFT_MOUSE_DOWN) ==> r is Ok && r->Ok_0.press
                == self.events()[LEFT_MOUSE_DOWN].event && exists|l: Option<Recorded>|
                is_latest(self.events(), button_kinds(), l) && r->Ok_0.release == release_after(l),
    {
        match self.ledger.last_of(LEFT_MOUSE_DOWN) {
            Some(rec) => {
                let release = self.ledger.synthesize_release_for_last_press();
                Ok(DragStart { press: rec.event, release })
            },
            None => Err(PlatformError::NoEventFound),
        }
    }

    /// The release to inject before a popup menu is scheduled: the host
    /// swallows the button-up of the press that opened it.
    pub fn show_popup_menu(&self) -> (r: Option<NativeEvent>)
        ensures
            exists|l: Option<Recorded>| is_latest(self.events(), button_kinds(), l) && r == release_after(l),
    {
        self.ledger.synthesize_release_for_last_press()
    }

    /// After a popup menu closed: hover events stamped before `pointer.now`
    /// are ignored from now on, and a hover move restores pointer feedback.
    pub fn popup_menu_closed(&mut self, item_selected: bool, pointer: PointerState, content: Rect) -> (r: PopupOutcome)
        requires
            rect_in_range(content),
            point_in_range(pointer.location),
        ensures
            r.response == (PopupMenuResponse { item_selected }),
            final(self).ignore_until() == pointer.now,
            exists|l: Option<Recorded>|
                is_latest(old(self).events(), pointer_kinds(), l) && r.hover_move == hover_move_after(
                    l,
                    pointer,
                    content,
                ),
            final(self).events() == old(self).events(),
            final(self).event_stamp() == old(self).event_stamp(),
            final(self).state() == old(self).state(),
            final(self).callback() == old(self).callback(),
            final(self).parent() == old(self).parent(),
            final(self).wf() == old(self).wf(),
    {
        self.ignore_enter_leave_until = pointer.now;
        let hover_move = self.ledger.synthesize_hover_move_if_needed(pointer, content);
        PopupOutcome { response: PopupMenuResponse { item_selected }, hover_move }
    }

    /// This host has no system menu.
    pub fn show_system_menu(&self) -> (r: Result<(), PlatformError>)
        ensures
            r == Err::<(), PlatformError>(PlatformError::NotAvailable),
    {
        Err(PlatformError::NotAvailable)
    }
}

/// Some value is the latest among any kinds.
proof fn lemma_some_latest(m: Map<u64, Recorded>, kinds: Seq<u64>)
    ensures
        exists|l: Option<Recorded>| is_latest(m, kinds, l),
    decreases kinds.len(),
{
    if kinds.len() == 0 {
        assert(is_latest(m, kinds, None));
    } else {
        let rest = kinds.drop_last();
        lemma_some_latest(m, rest);
        let l = choose|l: Option<Recorded>| is_latest(m, rest, l);
        let k = kinds.last();
        assert(forall|j: int| 0 <= j < rest.len() ==> kinds[j] == rest[j]);
        if !m.contains_key(k) {
            assert(is_latest(m, kinds, l));
        } else {
            match l {
                Some(rec) => {
                    if rec.seq < m[k].seq {
                        assert(is_latest(m, kinds, Some(m[k])));
                    } else {
                        assert(is_latest(m, kinds, l));
                    }
                },
                None => {
                    assert(is_latest(m, kinds, Some(m[k])));
                },
            }
        }
    }
}

/// While a modal session is pending, a request's frame origin is reported as
/// not applied and its content size as applied.
pub proof fn lemma_modal_gating(request: WindowGeometry)
    requires
        request.frame_origin is Some,
        request.content_size is Some,
    ensures
        !spec_plan(request, true).flags.frame_origin,
        spec_plan(request, true).flags.content_size,
        spec_plan(request, true).apply.content_size == request.content_size,
        spec_plan(request, false).flags.frame_origin,
{
}

/// A hover enter or exit stamped strictly before the threshold is never
/// dispatched; one stamped at or after it always is.
pub proof fn lemma_hover_suppression(
    ignore_until: u64,
    event: NativeEvent,
    pointer: PointerState,
    content: Rect,
    l: Option<Recorded>,
)
    requires
        is_hover(event.kind),
    ensures
        spec_decision(ignore_until, event, pointer, content, l).dispatch == (ignore_until
            <= event.timestamp),
{
}

} // verus!
