use std::cell::Cell;
use std::rc::Rc;

use window_core::events::{
    release_for, EventLedger, NativeEvent, PointerState, LEFT_MOUSE_DOWN, LEFT_MOUSE_UP,
    MOUSE_ENTERED, MOUSE_EXITED, MOUSE_MOVED, RIGHT_MOUSE_DOWN, RIGHT_MOUSE_UP,
};
use window_core::geometry::{
    contains_strictly, logical_origin, native_content_rect, native_top_left, Point, Rect, Size,
};
use window_core::style::{
    style_settings, WindowFrame, WindowStyle, CLOSABLE, FULL_SCREEN_NONE, FULL_SIZE_CONTENT_VIEW,
    MINIATURIZABLE, RESIZABLE, TITLED,
};
use window_core::visibility::{PollOutcome, SurfaceReport, VisibilityAction, VisibilityState};
use window_core::window::{NativeGeometry, PlatformError, PlatformWindow, WindowGeometry};

fn event(kind: u64, x: i64, y: i64, timestamp: u64, event_number: i64) -> NativeEvent {
    NativeEvent {
        kind,
        location: Point { x, y },
        modifiers: 0x100,
        timestamp,
        window_number: 7,
        event_number,
    }
}

fn content() -> Rect {
    Rect { origin: Point { x: 100, y: 100 }, size: Size { width: 400, height: 300 } }
}

fn pointer(x: i64, y: i64, now: u64) -> PointerState {
    PointerState { location: Point { x, y }, modifiers: 0, now }
}

fn empty_request() -> WindowGeometry {
    WindowGeometry {
        frame_origin: None,
        frame_size: None,
        content_origin: None,
        content_size: None,
        min_frame_size: None,
        max_frame_size: None,
        min_content_size: None,
        max_content_size: None,
    }
}

type Callback = Box<dyn FnOnce(i32)>;

fn window() -> PlatformWindow<Callback> {
    PlatformWindow::new(true)
}

#[test]
fn content_rect_round_trip() {
    let origin = Point { x: 30, y: 50 };
    let size = Size { width: 640, height: 480 };
    let native = native_content_rect(origin, size, 1080);
    assert_eq!(native.origin, Point { x: 30, y: 1080 - (50 + 480) });
    assert_eq!(native.size, size);
    assert_eq!(logical_origin(native, 1080), origin);
}

#[test]
fn frame_origin_round_trip() {
    let origin = Point { x: -20, y: 200 };
    let top_left = native_top_left(origin, 900);
    assert_eq!(top_left, Point { x: -20, y: 700 });
    let frame = Rect { origin: Point { x: -20, y: 700 - 250 }, size: Size { width: 300, height: 250 } };
    assert_eq!(logical_origin(frame, 900), origin);
}

#[test]
fn get_geometry_reads_logical_values() {
    let w = window();
    let native = NativeGeometry {
        screen_height: 1000,
        frame: Rect { origin: Point { x: 10, y: 400 }, size: Size { width: 500, height: 330 } },
        content: Rect { origin: Point { x: 10, y: 400 }, size: Size { width: 500, height: 300 } },
        min_frame_size: Size { width: 1, height: 2 },
        max_frame_size: Size { width: 3, height: 4 },
        min_content_size: Size { width: 5, height: 6 },
        max_content_size: Size { width: 7, height: 8 },
    };
    let g = w.get_geometry(native);
    assert_eq!(g.frame_origin, Some(Point { x: 10, y: 270 }));
    assert_eq!(g.content_origin, Some(Point { x: 10, y: 300 }));
    assert_eq!(g.frame_size, Some(Size { width: 500, height: 330 }));
    assert_eq!(g.content_size, Some(Size { width: 500, height: 300 }));
    assert_eq!(g.max_content_size, Some(Size { width: 7, height: 8 }));
}

#[test]
fn ledger_overwrites_same_kind() {
    let mut ledger = EventLedger::new();
    ledger.record(event(LEFT_MOUSE_DOWN, 1, 1, 10, 1));
    ledger.record(event(LEFT_MOUSE_DOWN, 2, 2, 20, 2));
    let last = ledger.last_of(LEFT_MOUSE_DOWN).unwrap();
    assert_eq!(last.event.location, Point { x: 2, y: 2 });
    assert_eq!(last.seq, 1);
    assert_eq!(ledger.next_stamp(), 2);
    assert!(ledger.last_of(LEFT_MOUSE_UP).is_none());
}

#[test]
fn hover_before_threshold_is_suppressed() {
    let mut w = window();
    w.popup_menu_closed(false, pointer(0, 0, 1000), content());
    let inside = pointer(200, 200, 1200);
    let early = w.send_event(event(MOUSE_ENTERED, 0, 0, 999, 5), inside, content());
    assert!(!early.dispatch);
    let synthesized = early.synthesized.unwrap();
    assert_eq!(synthesized.kind, MOUSE_MOVED);
    assert_eq!(synthesized.location, Point { x: 200, y: 200 });
    assert_eq!(synthesized.timestamp, 1200);
    assert_eq!(synthesized.event_number, 5);
    let at = w.send_event(event(MOUSE_EXITED, 0, 0, 1000, 6), inside, content());
    assert!(at.dispatch);
    assert!(at.synthesized.is_none());
    let press = w.send_event(event(LEFT_MOUSE_DOWN, 0, 0, 1, 7), inside, content());
    assert!(press.dispatch);
}

#[test]
fn hover_move_needs_pointer_strictly_inside() {
    let mut ledger = EventLedger::new();
    assert!(ledger.synthesize_hover_move_if_needed(pointer(200, 200, 5), content()).is_none());
    ledger.record(event(MOUSE_MOVED, 0, 0, 1, 3));
    assert!(ledger.synthesize_hover_move_if_needed(pointer(100, 200, 5), content()).is_none());
    assert!(ledger.synthesize_hover_move_if_needed(pointer(500, 200, 5), content()).is_none());
    assert!(ledger.synthesize_hover_move_if_needed(pointer(200, 400, 5), content()).is_none());
    let m = ledger.synthesize_hover_move_if_needed(pointer(101, 399, 5), content()).unwrap();
    assert_eq!(m.location, Point { x: 101, y: 399 });
    assert!(contains_strictly(content(), Point { x: 499, y: 101 }));
    assert!(!contains_strictly(content(), Point { x: 499, y: 100 }));
}

#[test]
fn release_synthesized_once_for_press() {
    let mut w = window();
    let p = pointer(0, 0, 0);
    w.send_event(event(LEFT_MOUSE_DOWN, 40, 60, 77, 9), p, content());
    let release = w.show_popup_menu().unwrap();
    assert_eq!(release.kind, LEFT_MOUSE_UP);
    assert_eq!(release.location, Point { x: 40, y: 60 });
    assert_eq!(release.modifiers, 0x100);
    assert_eq!(release.timestamp, 77);
    assert_eq!(release.window_number, 7);
    w.send_event(release, p, content());
    assert!(w.show_popup_menu().is_none());
}

#[test]
fn release_follows_latest_button_event() {
    let mut ledger = EventLedger::new();
    assert!(ledger.synthesize_release_for_last_press().is_none());
    ledger.record(event(RIGHT_MOUSE_DOWN, 1, 2, 3, 4));
    assert_eq!(ledger.synthesize_release_for_last_press().unwrap().kind, RIGHT_MOUSE_UP);
    ledger.record(event(LEFT_MOUSE_UP, 1, 2, 3, 5));
    assert!(ledger.synthesize_release_for_last_press().is_none());
    assert!(release_for(event(MOUSE_MOVED, 0, 0, 0, 0)).is_none());
}

#[test]
fn show_then_ready_starts_one_protocol() {
    let mut w = window();
    assert_eq!(w.show(), VisibilityAction::Nothing);
    assert_eq!(w.visibility(), VisibilityState::ShowRequested);
    assert_eq!(w.ready_to_show(), VisibilityAction::StartPolling);
    assert_eq!(w.show(), VisibilityAction::Nothing);
    assert_eq!(w.ready_to_show(), VisibilityAction::Nothing);
}

#[test]
fn ready_then_show_starts_one_protocol() {
    let mut w = window();
    assert_eq!(w.ready_to_show(), VisibilityAction::Nothing);
    assert_eq!(w.visibility(), VisibilityState::ReadyHidden);
    assert_eq!(w.show(), VisibilityAction::StartPolling);
    assert_eq!(w.visibility(), VisibilityState::Showing);
}

#[test]
fn hide_before_ready_cancels_show() {
    let mut w = window();
    assert_eq!(w.show(), VisibilityAction::Nothing);
    assert_eq!(w.hide_window(), VisibilityAction::Nothing);
    assert_eq!(w.ready_to_show(), VisibilityAction::Nothing);
    let surface = SurfaceReport { has_content: true, width: 800, height: 600 };
    assert_eq!(w.show_when_ready(surface, 2, Size { width: 400, height: 300 }), PollOutcome::Stop);
}

#[test]
fn show_gated_on_content() {
    let mut w = window();
    w.show();
    assert_eq!(w.ready_to_show(), VisibilityAction::StartPolling);
    let size = Size { width: 400, height: 300 };
    let empty = SurfaceReport { has_content: false, width: 0, height: 0 };
    for _ in 0..3 {
        assert_eq!(w.show_when_ready(empty, 2, size), PollOutcome::Reschedule);
    }
    let ready = SurfaceReport { has_content: true, width: 800, height: 600 };
    assert_eq!(w.show_when_ready(ready, 2, size), PollOutcome::Present { as_sheet: false });
    assert_eq!(w.visibility(), VisibilityState::Visible);
    assert_eq!(w.show_when_ready(ready, 2, size), PollOutcome::Stop);
}

#[test]
fn mismatched_surface_reschedules() {
    let mut w = window();
    w.ready_to_show();
    w.show();
    let size = Size { width: 400, height: 300 };
    let resizing = SurfaceReport { has_content: true, width: 400, height: 300 };
    assert_eq!(w.show_when_ready(resizing, 2, size), PollOutcome::Reschedule);
}

#[test]
fn hide_visible_window_notifies() {
    let mut w = window();
    w.ready_to_show();
    w.show();
    let ready = SurfaceReport { has_content: true, width: 400, height: 300 };
    w.show_when_ready(ready, 1, Size { width: 400, height: 300 });
    assert_eq!(w.hide_window(), VisibilityAction::Hide);
    assert_eq!(w.visibility(), VisibilityState::Hidden);
    assert_eq!(w.show(), VisibilityAction::StartPolling);
}

#[test]
fn modal_gates_origin() {
    let mut w = window();
    let cb: Callback = Box::new(|_| {});
    w.show_modal(cb);
    assert!(w.is_modal());
    let request = WindowGeometry {
        frame_origin: Some(Point { x: 1, y: 2 }),
        content_size: Some(Size { width: 300, height: 200 }),
        ..empty_request()
    };
    let plan = w.set_geometry(request);
    assert!(!plan.flags.frame_origin);
    assert!(plan.flags.content_size);
    assert!(plan.apply.frame_origin.is_none());
    assert!(!w.supported_geometry().content_origin);
    assert!(w.supported_geometry().frame_size);
}

#[test]
fn non_modal_applies_origin() {
    let w = window();
    let request = WindowGeometry {
        frame_origin: Some(Point { x: 1, y: 2 }),
        content_origin: Some(Point { x: 3, y: 4 }),
        min_frame_size: Some(Size { width: 10, height: 10 }),
        ..empty_request()
    };
    let plan = w.set_geometry(request);
    assert!(plan.flags.frame_origin);
    assert!(plan.flags.content_origin);
    assert!(plan.flags.min_frame_size);
    assert!(!plan.flags.max_content_size);
    assert_eq!(plan.apply, request);
}

#[test]
fn close_with_result_consumes_callback() {
    let seen = Rc::new(Cell::new(0));
    let seen2 = seen.clone();
    let mut w = window();
    let cb: Callback = Box::new(move |v| seen2.set(v));
    w.show_modal(cb);
    let taken = w.close_with_result().unwrap();
    taken(42);
    assert_eq!(seen.get(), 42);
    assert!(!w.is_modal());
    assert!(w.close_with_result().is_none());
}

#[test]
fn modal_presents_as_sheet() {
    let mut w = window();
    w.ready_to_show();
    let cb: Callback = Box::new(|_| {});
    assert_eq!(w.show_modal(cb), VisibilityAction::StartPolling);
    let ready = SurfaceReport { has_content: true, width: 10, height: 20 };
    assert_eq!(
        w.show_when_ready(ready, 1, Size { width: 10, height: 20 }),
        PollOutcome::Present { as_sheet: true }
    );
}

#[test]
fn popup_round_trip() {
    let mut w = window();
    let p = pointer(200, 200, 10);
    w.send_event(event(RIGHT_MOUSE_DOWN, 150, 150, 10, 3), p, content());
    let release = w.show_popup_menu().unwrap();
    assert_eq!(release.kind, RIGHT_MOUSE_UP);
    let scheduled_at: u64 = 500;
    let outcome = w.popup_menu_closed(true, pointer(200, 200, 650), content());
    assert!(outcome.response.item_selected);
    assert!(w.ignore_hover_until() >= scheduled_at);
    assert_eq!(w.ignore_hover_until(), 650);
    let moved = outcome.hover_move.unwrap();
    assert_eq!(moved.kind, MOUSE_MOVED);
    assert_eq!(moved.timestamp, 650);
}

#[test]
fn drag_needs_a_press() {
    let mut w = window();
    assert_eq!(w.perform_window_drag(), Err(PlatformError::NoEventFound));
    assert_eq!(w.begin_drag_session(), Err(PlatformError::NoEventFound));
    let p = pointer(0, 0, 0);
    w.send_event(event(LEFT_MOUSE_DOWN, 5, 6, 1, 1), p, content());
    assert_eq!(w.perform_window_drag().unwrap().location, Point { x: 5, y: 6 });
    let start = w.begin_drag_session().unwrap();
    assert_eq!(start.press.kind, LEFT_MOUSE_DOWN);
    assert_eq!(start.release.unwrap().kind, LEFT_MOUSE_UP);
}

#[test]
fn system_menu_not_available() {
    let w = window();
    assert_eq!(w.show_system_menu(), Err(PlatformError::NotAvailable));
}

#[test]
fn style_mask_for_each_frame() {
    let mut style = WindowStyle {
        frame: WindowFrame::Regular,
        can_resize: true,
        can_close: true,
        can_minimize: false,
        can_full_screen: false,
    };
    let s = style_settings(style, 0x3);
    assert_eq!(s.style_mask, TITLED | CLOSABLE | RESIZABLE);
    assert!(s.movable && !s.titlebar_transparent && s.has_shadow);
    assert_eq!(s.collection_behavior, 0x3 | FULL_SCREEN_NONE);
    style.frame = WindowFrame::NoTitle;
    style.can_minimize = true;
    style.can_full_screen = true;
    let s = style_settings(style, 0x203);
    assert_eq!(s.style_mask, FULL_SIZE_CONTENT_VIEW | TITLED | CLOSABLE | RESIZABLE | MINIATURIZABLE);
    assert!(!s.movable && s.titlebar_transparent);
    assert_eq!(s.collection_behavior, 0x3);
    style.frame = WindowFrame::NoFrame;
    let s = window().set_style(style, 0);
    assert_eq!(s.style_mask, 0);
    assert!(!s.has_shadow);
}
