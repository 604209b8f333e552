//! Frames, fonts, the render queues and the arbitration engine.

use unicorn_core::apps::AppId;
use unicorn_core::color::Rgb;
use unicorn_core::controller::AppControllerState;
use unicorn_core::display::DisplayState;
use unicorn_core::engine::{Engine, RenderPhase, StepEvent};
use unicorn_core::fonts::draw_digit;
use unicorn_core::frame::Frame;
use unicorn_core::queue::RenderQueues;
use unicorn_core::request::{
    GraphicsRequest, Origin, RenderRequest, TextRequest, DEFAULT_TEXT_DURATION_MS,
};
use unicorn_core::{DISPLAY_HEIGHT, DISPLAY_WIDTH};

fn app_text(text: &str, ms: u64) -> RenderRequest {
    RenderRequest::Text(TextRequest::from_app(text, None, None, Some(ms)))
}

fn remote_text(text: &str) -> RenderRequest {
    RenderRequest::Text(TextRequest::from_mqtt(text, None, None))
}

fn pix_at(f: &Frame, x: usize, y: usize) -> Rgb {
    f.pixels[y * DISPLAY_WIDTH + x]
}

#[test]
fn frame_fill_and_set_pixel() {
    let mut f = Frame::new();
    assert_eq!(f.pixels.len(), DISPLAY_WIDTH * DISPLAY_HEIGHT);
    assert_eq!(pix_at(&f, 0, 0), Rgb::black());
    f.set_pixel(5, 3, Rgb::new(1, 2, 3));
    assert_eq!(pix_at(&f, 5, 3), Rgb::new(1, 2, 3));
    // out-of-range positions are ignored
    f.set_pixel(53, 0, Rgb::new(9, 9, 9));
    f.set_pixel(0, 11, Rgb::new(9, 9, 9));
    assert_eq!(f.pixels.len(), DISPLAY_WIDTH * DISPLAY_HEIGHT);
    f.fill(Rgb::new(5, 5, 5));
    assert_eq!(pix_at(&f, 52, 10), Rgb::new(5, 5, 5));
    assert!(f.is_match(52, 10, Rgb::new(5, 5, 5)));
}

#[test]
fn frame_replace_color() {
    let mut f = Frame::new();
    f.set_pixel(1, 1, Rgb::new(10, 0, 0));
    f.set_pixel(2, 2, Rgb::new(0, 10, 0));
    f.replace_color_with_new(Rgb::new(10, 0, 0), Rgb::new(0, 0, 10));
    assert_eq!(pix_at(&f, 1, 1), Rgb::new(0, 0, 10));
    assert_eq!(pix_at(&f, 2, 2), Rgb::new(0, 10, 0));
    assert_eq!(pix_at(&f, 3, 3), Rgb::black());
}

#[test]
fn digit_one_lights_its_stem() {
    let mut f = Frame::new();
    let c = Rgb::new(200, 0, 0);
    draw_digit(&mut f, 1, 0, c);
    // the one's full-height stem sits in the cell's fourth column
    for y in 0..DISPLAY_HEIGHT {
        assert_eq!(pix_at(&f, 3, y), c);
    }
    // nothing outside the six-wide cell is touched
    for y in 0..DISPLAY_HEIGHT {
        assert_eq!(pix_at(&f, 6, y), Rgb::black());
    }
    // the top-left of the cell is dark for a one
    assert_eq!(pix_at(&f, 0, 0), Rgb::black());
}

#[test]
fn queue_priority_interrupt_first() {
    let mut q = RenderQueues::new();
    assert!(q.send(app_text("app", 100)).is_ok());
    assert!(q.send(remote_text("remote")).is_ok());
    let mut stop = false;
    q.send_and_show_now(app_text("urgent", 100), &mut stop);
    assert!(stop);

    let first = q.poll_next().expect("a request is pending");
    match first {
        RenderRequest::Text(t) => {
            assert_eq!(t.origin, Origin::Interrupt);
            assert_eq!(t.text, "urgent");
        }
        _ => panic!("expected the interrupt text"),
    }
    let second = q.poll_next().expect("a request is pending");
    match second {
        RenderRequest::Text(t) => {
            assert_eq!(t.origin, Origin::Remote);
            assert_eq!(t.text, "remote");
        }
        _ => panic!("expected the remote text"),
    }
    let third = q.poll_next().expect("a request is pending");
    match third {
        RenderRequest::Text(t) => assert_eq!(t.origin, Origin::App),
        _ => panic!("expected the app text"),
    }
    assert!(q.poll_next().is_none());
}

#[test]
fn send_and_replace_leaves_exactly_the_last() {
    let mut q = RenderQueues::new();
    for i in 0..5 {
        q.send_and_replace_queue(app_text(&format!("msg {i}"), 100));
    }
    assert_eq!(q.app.len(), 1);
    match q.poll_next().expect("one request pending") {
        RenderRequest::Text(t) => assert_eq!(t.text, "msg 4"),
        _ => panic!("expected text"),
    }
    assert!(q.poll_next().is_none());
}

#[test]
fn full_queue_hands_the_request_back() {
    let mut q = RenderQueues::new();
    for _ in 0..8 {
        assert!(q.send(app_text("x", 1)).is_ok());
    }
    assert!(q.send(app_text("y", 1)).is_err());
    assert_eq!(q.app.len(), 8);
}

#[test]
fn fitting_text_is_static_and_respects_min_duration() {
    // 8 characters * 6 px = 48 px <= 53: no scrolling
    let mut e = Engine::new();
    e.queues.send_and_replace_queue(app_text("12345678", 3000));
    assert_eq!(e.step(1000, None, Rgb::boot_color()), StepEvent::Started);
    let r = e.current.as_ref().expect("rendering");
    assert_eq!(r.phase, RenderPhase::Static);
    assert_eq!(r.first_shown, 1000);
    // still owed time: 3000 ms not yet passed
    assert_eq!(e.step(4000, None, Rgb::boot_color()), StepEvent::Ticked);
    assert_eq!(e.step(4001, None, Rgb::boot_color()), StepEvent::Completed);
    assert!(e.current.is_none());
}

#[test]
fn wide_text_scrolls_from_off_screen() {
    // 9 characters * 6 px = 54 px > 53: scrolling
    let mut e = Engine::new();
    e.queues.send_and_replace_queue(app_text("123456789", 1000));
    e.step(0, None, Rgb::boot_color());
    match e.current.as_ref().expect("rendering").phase {
        RenderPhase::Scrolling { offset_centi } => assert_eq!(offset_centi, -5300),
        other => panic!("expected a scroll, got {other:?}"),
    }
    e.step(1, None, Rgb::boot_color());
    match e.current.as_ref().expect("rendering").phase {
        RenderPhase::Scrolling { offset_centi } => assert_eq!(offset_centi, -5295),
        other => panic!("expected a scroll, got {other:?}"),
    }
}

#[test]
fn scroll_adopts_latest_color_without_reset() {
    let mut e = Engine::new();
    e.queues.send_and_replace_queue(app_text("123456789", 1000));
    e.step(0, None, Rgb::boot_color());
    // two broadcasts during the scroll: the second (latest) wins, the
    // offset keeps advancing
    e.step(1, Some(Rgb::new(1, 1, 1)), Rgb::boot_color());
    assert_eq!(e.current.as_ref().unwrap().style, Rgb::new(1, 1, 1));
    e.step(2, Some(Rgb::new(2, 2, 2)), Rgb::boot_color());
    let r = e.current.as_ref().unwrap();
    assert_eq!(r.style, Rgb::new(2, 2, 2));
    match r.phase {
        RenderPhase::Scrolling { offset_centi } => assert_eq!(offset_centi, -5290),
        other => panic!("expected a scroll, got {other:?}"),
    }
}

#[test]
fn explicit_color_ignores_broadcasts() {
    let mut e = Engine::new();
    let t = TextRequest::from_app("123456789", Some(Rgb::new(7, 7, 7)), None, Some(1000));
    e.queues.send_and_replace_queue(RenderRequest::Text(t));
    e.step(0, None, Rgb::boot_color());
    e.step(1, Some(Rgb::new(1, 1, 1)), Rgb::boot_color());
    assert_eq!(e.current.as_ref().unwrap().style, Rgb::new(7, 7, 7));
}

#[test]
fn interrupt_request_preempts_within_one_tick() {
    let mut e = Engine::new();
    e.queues.send_and_replace_queue(app_text("background", 60_000));
    e.step(0, None, Rgb::boot_color());
    assert!(e.current.is_some());

    // a show-now request raises the cancellation flag ...
    let mut stop = e.stop_requested;
    e.queues.send_and_show_now(remote_text("urgent"), &mut stop);
    e.stop_requested = stop;

    // ... the current render is abandoned at its next tick ...
    assert_eq!(e.step(1, None, Rgb::boot_color()), StepEvent::Completed);
    assert!(!e.stop_requested);

    // ... and the interrupt request is what renders next
    assert_eq!(e.step(2, None, Rgb::boot_color()), StepEvent::Started);
    match &e.current.as_ref().unwrap().req {
        RenderRequest::Text(t) => {
            assert_eq!(t.origin, Origin::Interrupt);
            assert_eq!(t.text, "urgent");
        }
        _ => panic!("expected the interrupt text"),
    }
}

#[test]
fn graphics_request_honours_duration_and_cancel() {
    let mut e = Engine::new();
    let g = GraphicsRequest::from_app(Frame::new(), 50);
    e.queues.send_and_replace_queue(RenderRequest::Graphics(g));
    e.step(100, None, Rgb::boot_color());
    assert_eq!(e.current.as_ref().unwrap().phase, RenderPhase::GraphicsShown);
    assert_eq!(e.step(150, None, Rgb::boot_color()), StepEvent::Ticked);
    e.stop_requested = true;
    assert_eq!(e.step(151, None, Rgb::boot_color()), StepEvent::Completed);
}

#[test]
fn engine_idles_when_nothing_is_pending() {
    let mut e = Engine::new();
    assert_eq!(e.step(0, None, Rgb::boot_color()), StepEvent::Idle);
    assert!(e.current.is_none());
}

#[test]
fn app_switch_cancels_and_queues_blank_handoff() {
    // end to end: active=Clock, its content queued with a 3 s minimum;
    // a SwitchB short press switches to Effects
    let mut s = AppControllerState::boot();
    s.change_app(AppId::Clock);

    let mut e = Engine::new();
    e.queues.send_and_replace_queue(app_text("clock face", 3000));
    e.step(0, None, Rgb::boot_color());

    let out = s.change_app(AppId::Effects);
    assert_eq!(out.stopped, Some(AppId::Clock));
    assert_eq!(out.started, Some(AppId::Effects));
    assert_eq!(s.active, AppId::Effects);
    assert_eq!(s.previous, AppId::Clock);
    assert!(out.broadcast.is_some());

    // the engine observes the broadcast
    e.on_app_change();
    assert!(e.stop_requested);
    assert_eq!(e.queues.app.len(), 1);
    match &e.queues.app[0] {
        RenderRequest::Graphics(g) => {
            assert_eq!(g.min_ms, 10);
            assert!(g.frame.pixels.iter().all(|p| *p == Rgb::black()));
        }
        _ => panic!("expected the blank hand-off frame"),
    }

    // the stale clock render is abandoned on the next tick, and the blank
    // frame is what renders next
    assert_eq!(e.step(1, None, Rgb::boot_color()), StepEvent::Completed);
    assert_eq!(e.step(2, None, Rgb::boot_color()), StepEvent::Started);
    match &e.current.as_ref().unwrap().req {
        RenderRequest::Graphics(g) => assert_eq!(g.min_ms, 10),
        _ => panic!("expected the blank hand-off frame"),
    }
}

#[test]
fn text_requests_carry_their_defaults() {
    let t = TextRequest::from_mqtt("hello", None, None);
    assert_eq!(t.origin, Origin::Remote);
    assert_eq!(t.min_ms, DEFAULT_TEXT_DURATION_MS);
    assert_eq!(t.x, 0);
    assert_eq!(t.y, 5);
    assert!(t.first_shown.is_none());

    let t = TextRequest::from_app("hi", None, Some((3, 4)), None);
    assert_eq!(t.origin, Origin::App);
    assert_eq!(t.min_ms, DEFAULT_TEXT_DURATION_MS);
    assert_eq!((t.x, t.y), (3, 4));
}

#[test]
fn oversized_text_becomes_the_overflow_notice() {
    let long = "x".repeat(65);
    let t = TextRequest::from_mqtt(&long, None, None);
    assert_eq!(t.text, "Too many characters!");
    let exact = "y".repeat(64);
    let t = TextRequest::from_mqtt(&exact, None, None);
    assert_eq!(t.text, exact);
}

#[test]
fn text_bound_counts_bytes_not_characters() {
    // forty two-byte characters: eighty bytes, only forty characters
    let wide = "\u{e9}".repeat(40);
    assert_eq!(wide.chars().count(), 40);
    assert_eq!(wide.len(), 80);
    let t = TextRequest::from_mqtt(&wide, None, None);
    assert_eq!(t.text, "Too many characters!");
    // thirty of them fit the sixty-four byte bound
    let narrow = "\u{e9}".repeat(30);
    let t = TextRequest::from_mqtt(&narrow, None, None);
    assert_eq!(t.text, narrow);
}

#[test]
fn min_duration_is_strict_and_needs_first_shown() {
    let mut t = TextRequest::from_app("hi", None, None, Some(100));
    assert!(!t.has_min_duration_passed(1_000_000));
    t.set_first_shown(1000);
    t.set_first_shown(2000);
    assert_eq!(t.first_shown, Some(1000));
    assert!(!t.has_min_duration_passed(1100));
    assert!(t.has_min_duration_passed(1101));

    let mut g = GraphicsRequest::from_app(Frame::new(), 100);
    assert!(!g.has_min_duration_passed(1_000_000));
    g.set_first_shown(0);
    assert!(!g.has_min_duration_passed(100));
    assert!(g.has_min_duration_passed(101));
}

#[test]
fn display_state_transitions() {
    let mut d = DisplayState::new(0);
    assert_eq!(d.get_brightness(), 255);
    assert_eq!(d.get_color(), Rgb::boot_color());

    // turning the display off disables auto-brightness
    assert_eq!(d.set_brightness(0), Some(false));
    d.set_auto_brightness(false);
    assert!(!d.auto_brightness.enabled);
    assert!(d.toggled_auto());

    // waking it re-enables auto-brightness on the default interval
    assert_eq!(d.set_brightness(80), Some(true));
    d.set_auto_brightness(true);
    assert!(d.auto_brightness.enabled);
    assert_eq!(d.set_brightness(90), None);

    // a color change repaints exactly the old color in the mirrored frame
    let mut f = Frame::new();
    f.set_pixel(2, 2, d.get_color());
    f.set_pixel(4, 4, Rgb::new(9, 9, 9));
    d.set_graphics(f);
    let broadcast = d.set_color(Rgb::new(0, 50, 0));
    assert_eq!(broadcast, Rgb::new(0, 50, 0));
    assert_eq!(d.get_color(), Rgb::new(0, 50, 0));
    assert_eq!(pix_at(&d.current_graphics, 2, 2), Rgb::new(0, 50, 0));
    assert_eq!(pix_at(&d.current_graphics, 4, 4), Rgb::new(9, 9, 9));
}
