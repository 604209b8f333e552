//! The display arbitration engine: one request at a time is taken from the
//! queues in strict priority order and rendered tick by tick until its
//! minimum duration has passed or a cooperative cancellation is observed.
//!
//! A single render request moves Queued -> FirstShown -> one of
//! {Static, Scrolling, GraphicsShown} -> Completed, and is never re-queued.

use vstd::prelude::*;

use crate::color::Rgb;
use crate::frame::Frame;
use crate::queue::RenderQueues;
use crate::request::{GraphicsRequest, RenderRequest, TextRequest};
use crate::DISPLAY_WIDTH;

verus! {

/// Width of one font character in pixels.
pub const FONT_WIDTH_PX: usize = 6;

/// Scroll offset a pass starts from, in hundredths of a pixel: one display
/// width off-screen to the left.
pub const SCROLL_START_CENTI: i32 = -5300;

/// The fixed sub-pixel scroll step per tick, in hundredths of a pixel.
pub const SCROLL_STEP_CENTI: i32 = 5;

/// Minimum duration of the blank hand-off frame queued on an app switch.
pub const BLANK_HANDOFF_MS: u64 = 10;

/// Rendered width of a text, in pixels.
pub open spec fn spec_text_width_px(text: Seq<char>) -> int {
    text.len() * FONT_WIDTH_PX
}

/// How a request currently on the display is being rendered.
#[derive(Clone, Copy, PartialEq, Eq, Structural, Debug)]
pub enum RenderPhase {
    /// Text that fits the display: drawn once, centred; no animation.
    Static,
    /// Text wider than the display: scrolled leftward, the current offset
    /// in hundredths of a pixel.
    Scrolling { offset_centi: i32 },
    /// A pixel frame pushed to the hardware.
    GraphicsShown,
}

/// One request being rendered: the request, its phase, the color its text
/// is currently styled with, and when it was first drawn.
pub struct ActiveRender {
    /// The request on the display.
    pub req: RenderRequest,
    /// The rendering phase.
    pub phase: RenderPhase,
    /// The color the text is drawn with right now. Starts as the explicit
    /// override, or the active display color; a color broadcast restyles a
    /// scroll that has no override.
    pub style: Rgb,
    /// The instant the request was first drawn.
    pub first_shown: u64,
}

impl ActiveRender {
    /// The phase fits the request, and a scroll offset stays within one
    /// pass of the text's width.
    pub open spec fn wf(self) -> bool {
        &&& self.req.wf()
        &&& match self.req {
            RenderRequest::Graphics(_) => self.phase is GraphicsShown,
            RenderRequest::Text(t) => match self.phase {
                RenderPhase::Static => spec_text_width_px(t.text@) <= DISPLAY_WIDTH,
                RenderPhase::Scrolling { offset_centi } => {
                    &&& spec_text_width_px(t.text@) > DISPLAY_WIDTH
                    &&& SCROLL_START_CENTI <= offset_centi
                    &&& offset_centi <= spec_text_width_px(t.text@) * 100 + SCROLL_STEP_CENTI
                },
                RenderPhase::GraphicsShown => false,
            },
        }
    }
}

/// Starting to render `req` at `now`: the first-shown instant is recorded,
/// text that fits is static, wider text starts a scroll one display width
/// off-screen, and the style is the explicit override or the active color.
pub open spec fn spec_start_render(req: RenderRequest, now: u64, active_color: Rgb)
    -> ActiveRender {
    match req {
        RenderRequest::Graphics(g) => ActiveRender {
            req: RenderRequest::Graphics(GraphicsRequest { first_shown: Some(now), ..g }),
            phase: RenderPhase::GraphicsShown,
            style: active_color,
            first_shown: now,
        },
        RenderRequest::Text(t) => ActiveRender {
            req: RenderRequest::Text(TextRequest { first_shown: Some(now), ..t }),
            phase: if spec_text_width_px(t.text@) <= DISPLAY_WIDTH {
                RenderPhase::Static
            } else {
                RenderPhase::Scrolling { offset_centi: SCROLL_START_CENTI }
            },
            style: match t.color {
                Some(c) => c,
                None => active_color,
            },
            first_shown: now,
        },
    }
}

/// Begin rendering `req` at `now`.
pub fn start_render(req: RenderRequest, now: u64, active_color: Rgb) -> (r: ActiveRender)
    requires
        req.wf(),
    ensures
        r == spec_start_render(req, now, active_color),
        r.wf(),
        r.first_shown == now,
{
    match req {
        RenderRequest::Graphics(mut g) => {
            g.first_shown = Some(now);
            ActiveRender {
                req: RenderRequest::Graphics(g),
                phase: RenderPhase::GraphicsShown,
                style: active_color,
                first_shown: now,
            }
        },
        RenderRequest::Text(mut t) => {
            t.first_shown = Some(now);
            let width_px = t.text.unicode_len() * FONT_WIDTH_PX;
            let style = match t.color {
                Some(c) => c,
                None => active_color,
            };
            let phase = if width_px <= DISPLAY_WIDTH {
                RenderPhase::Static
            } else {
                RenderPhase::Scrolling { offset_centi: SCROLL_START_CENTI }
            };
            ActiveRender { req: RenderRequest::Text(t), phase, style, first_shown: now }
        },
    }
}

/// Whether the request's minimum duration has passed by `now`, measured
/// from the instant it was first drawn.
pub open spec fn spec_min_passed(r: ActiveRender, now: u64) -> bool {
    now - r.first_shown > r.req.min_ms()
}

/// One render tick. `cancelled` is the disjunction of the cooperative
/// cancellation flag and the app-changed broadcast; `color_update` is the
/// latest color broadcast, if one arrived since the previous tick.
///
/// A static text or a graphics frame completes exactly when cancelled or
/// when its minimum duration has passed. A scroll that has run off-screen
/// completes only if its minimum duration has also passed, else it restarts
/// the pass; then cancellation is honoured; a continuing scroll with no
/// explicit color override adopts the broadcast color — without resetting
/// its offset — and advances one step.
pub open spec fn spec_render_tick(r: ActiveRender, now: u64, cancelled: bool, color_update:
    Option<Rgb>) -> (ActiveRender, bool) {
    match r.phase {
        RenderPhase::GraphicsShown => (r, cancelled || spec_min_passed(r, now)),
        RenderPhase::Static => (r, cancelled || spec_min_passed(r, now)),
        RenderPhase::Scrolling { offset_centi } => {
            let width_centi = spec_text_width_px(r.req->Text_0.text@) * 100;
            if offset_centi > width_centi && spec_min_passed(r, now) {
                (r, true)
            } else {
                let off1: i32 = if offset_centi > width_centi {
                    SCROLL_START_CENTI
                } else {
                    offset_centi
                };
                if cancelled {
                    (ActiveRender { phase: RenderPhase::Scrolling { offset_centi: off1 }, ..r },
                    true)
                } else {
                    let style = match (r.req->Text_0.color, color_update) {
                        (None, Some(c)) => c,
                        _ => r.style,
                    };
                    (
                        ActiveRender {
                            phase: RenderPhase::Scrolling {
                                offset_centi: (off1 + SCROLL_STEP_CENTI) as i32,
                            },
                            style,
                            ..r
                        },
                        false,
                    )
                }
            }
        },
    }
}

impl ActiveRender {
    /// Perform one render tick; returns whether the request completed.
    pub fn render_tick(&mut self, now: u64, cancelled: bool, color_update: Option<Rgb>) -> (done:
        bool)
        requires
            old(self).wf(),
            old(self).first_shown <= now,
        ensures
            (*final(self), done) == spec_render_tick(*old(self), now, cancelled, color_update),
            final(self).wf(),
            final(self).first_shown == old(self).first_shown,
            final(self).req == old(self).req,
            !(old(self).phase is Scrolling) ==> (done == (cancelled || spec_min_passed(
                *old(self),
                now,
            )) && *final(self) == *old(self)),
    {
        let fs = self.first_shown;
        match self.phase {
            RenderPhase::GraphicsShown => {
                let min_passed = now - fs > self.min_ms_of_req();
                cancelled || min_passed
            },
            RenderPhase::Static => {
                let min_passed = now - fs > self.min_ms_of_req();
                cancelled || min_passed
            },
            RenderPhase::Scrolling { offset_centi } => {
                let min_passed = now - fs > self.min_ms_of_req();
                let width_centi = self.text_width_centi();
                if offset_centi > width_centi && min_passed {
                    return true;
                }
                let off1: i32 = if offset_centi > width_centi {
                    SCROLL_START_CENTI
                } else {
                    offset_centi
                };
                if cancelled {
                    self.phase = RenderPhase::Scrolling { offset_centi: off1 };
                    return true;
                }
                match (self.text_color(), color_update) {
                    (None, Some(c)) => {
                        self.style = c;
                    },
                    _ => {},
                }
                self.phase = RenderPhase::Scrolling { offset_centi: off1 + SCROLL_STEP_CENTI };
                false
            },
        }
    }

    /// The minimum duration of the carried request.
    fn min_ms_of_req(&self) -> (r: u64)
        ensures
            r == self.req.min_ms(),
    {
        match &self.req {
            RenderRequest::Text(t) => t.min_ms,
            RenderRequest::Graphics(g) => g.min_ms,
        }
    }

    /// The explicit color override of a text request, if any.
    fn text_color(&self) -> (r: Option<Rgb>)
        requires
            self.req is Text,
        ensures
            r == self.req->Text_0.color,
    {
        match &self.req {
            RenderRequest::Text(t) => t.color,
            RenderRequest::Graphics(_) => None,
        }
    }

    /// The rendered width of a scrolling text, in hundredths of a pixel.
    fn text_width_centi(&self) -> (r: i32)
        requires
            self.req is Text,
            self.req.wf(),
        ensures
            r == spec_text_width_px(self.req->Text_0.text@) * 100,
    {
        let len = match &self.req {
            RenderRequest::Text(t) => t.text.unicode_len(),
            RenderRequest::Graphics(_) => 0,
        };
        (len * FONT_WIDTH_PX * 100) as i32
    }
}

/// The arbitration engine: the three queues, the request being rendered,
/// and the cooperative cancellation flag that switches and "show now"
/// requests raise.
pub struct Engine {
    /// The three origin queues.
    pub queues: RenderQueues,
    /// The request on the display, if any.
    pub current: Option<ActiveRender>,
    /// The cooperative cancellation flag; polled once per tick, reset when
    /// a render completes.
    pub stop_requested: bool,
}

/// What one engine step did.
#[derive(Clone, Copy, PartialEq, Eq, Structural, Debug)]
pub enum StepEvent {
    /// Nothing pending and nothing rendering; the caller may sleep.
    Idle,
    /// A request was taken from the queues and its rendering began.
    Started,
    /// The current request advanced one tick.
    Ticked,
    /// The current request completed and left the display.
    Completed,
}

impl Engine {
    /// Queues and the current render are well-formed.
    pub open spec fn wf(self) -> bool {
        &&& self.queues.wf()
        &&& match self.current {
            Some(r) => r.wf(),
            None => true,
        }
    }

    /// An idle engine with empty queues.
    pub fn new() -> (e: Engine)
        ensures
            e.wf(),
            e.current is None,
            !e.stop_requested,
            e.queues.interrupt@.len() == 0,
            e.queues.remote@.len() == 0,
            e.queues.app@.len() == 0,
    {
        Engine { queues: RenderQueues::new(), current: None, stop_requested: false }
    }

    /// One pass of the arbitration loop. When idle, the next request is
    /// taken in strict priority order — a pending interrupt request is
    /// always the one whose rendering starts. When rendering, the current
    /// request advances one tick; on completion it is discarded, never
    /// re-queued, and the cancellation flag is reset.
    pub fn step(&mut self, now: u64, color_update: Option<Rgb>, active_color: Rgb) -> (ev:
        StepEvent)
        requires
            old(self).wf(),
            old(self).current matches Some(r) ==> r.first_shown <= now,
        ensures
            final(self).wf(),
            old(self).current is None && old(self).queues.interrupt@.len() == 0 && old(self).queues.remote@.len() == 0 && old(self).queues.app@.len() == 0 ==> ev is Idle
                && *final(self) == *old(self),
            old(self).current is None ==> final(self).stop_requested == old(
                self,
            ).stop_requested,
            old(self).current is None && old(self).queues.interrupt@.len() > 0 ==> ev is Started
                && final(self).current == Some(
                spec_start_render(old(self).queues.interrupt@[0], now, active_color),
            ) && final(self).queues.interrupt@ == old(self).queues.interrupt@.skip(1) && final(self).queues.remote@ == old(self).queues.remote@ && final(self).queues.app@ == old(self).queues.app@,
            old(self).current is None && old(self).queues.interrupt@.len() == 0 && old(self).queues.remote@.len() > 0 ==> ev is Started && final(self).current == Some(
                spec_start_render(old(self).queues.remote@[0], now, active_color),
            ) && final(self).queues.remote@ == old(self).queues.remote@.skip(1) && final(self).queues.interrupt@ == old(self).queues.interrupt@ && final(self).queues.app@ == old(self).queues.app@,
            old(self).current is None && old(self).queues.interrupt@.len() == 0 && old(self).queues.remote@.len() == 0 && old(self).queues.app@.len() > 0 ==> ev is Started
                && final(self).current == Some(
                spec_start_render(old(self).queues.app@[0], now, active_color),
            ) && final(self).queues.app@ == old(self).queues.app@.skip(1) && final(self).queues.interrupt@ == old(self).queues.interrupt@ && final(self).queues.remote@ == old(self).queues.remote@,
            old(self).current matches Some(r) ==> {
                let (r2, done) = spec_render_tick(
                    r,
                    now,
                    old(self).stop_requested,
                    color_update,
                );
                &&& final(self).queues == old(self).queues
                &&& done ==> ev is Completed && final(self).current is None && !final(self).stop_requested
                &&& !done ==> ev is Ticked && final(self).current == Some(r2) && final(self).stop_requested == old(self).stop_requested
            },
    {
        let stop = self.stop_requested;
        match &mut self.current {
            Some(r) => {
                let done = r.render_tick(now, stop, color_update);
                if done {
                    self.current = None;
                    self.stop_requested = false;
                    StepEvent::Completed
                } else {
                    StepEvent::Ticked
                }
            },
            None => {
                match self.queues.poll_next() {
                    Some(req) => {
                        self.current = Some(start_render(req, now, active_color));
                        StepEvent::Started
                    },
                    None => StepEvent::Idle,
                }
            },
        }
    }

    /// Observe an app-changed broadcast: raise the cancellation flag so the
    /// current render is abandoned at its next tick, and leave a short
    /// blank hand-off frame as the only pending app request, so no stale
    /// content from the previous app lingers.
    pub fn on_app_change(&mut self) -> (blank: Ghost<RenderRequest>)
        requires
            old(self).wf(),
        ensures
            final(self).wf(),
            final(self).stop_requested,
            final(self).current == old(self).current,
            final(self).queues.interrupt@ == old(self).queues.interrupt@,
            final(self).queues.remote@ == old(self).queues.remote@,
            final(self).queues.app@ =~= seq![blank@],
            blank@ matches RenderRequest::Graphics(g) && g.min_ms == BLANK_HANDOFF_MS
                && g.origin is App && forall|i: int|
                0 <= i < g.frame.view().len() ==> g.frame.view()[i] == Rgb::black_spec(),
    {
        self.stop_requested = true;
        let frame = Frame::new();
        let req = RenderRequest::Graphics(GraphicsRequest::from_app(frame, BLANK_HANDOFF_MS));
        self.queues.send_and_replace_queue(req);
        Ghost(req)
    }
}

/// A text whose rendered width fits the display never enters the scrolling
/// branch, and, uncancelled, stays on the display until its minimum
/// duration has passed: its render completes only at an instant strictly
/// later than first-shown plus the minimum duration.
pub proof fn lemma_fitting_text_never_scrolls(t: TextRequest, now: u64, later: u64, active_color:
    Rgb, color_update: Option<Rgb>)
    requires
        t.wf(),
        spec_text_width_px(t.text@) <= DISPLAY_WIDTH,
    ensures
        spec_start_render(RenderRequest::Text(t), now, active_color).phase is Static,
        ({
            let r = spec_start_render(RenderRequest::Text(t), now, active_color);
            spec_render_tick(r, later, false, color_update).1 ==> later > now + t.min_ms
        }),
{
}

/// An in-flight scroll with no explicit color override adopts the latest
/// broadcast color on its next tick and keeps its scroll offset advancing:
/// two broadcasts over two ticks leave the text styled with the second
/// color, the offset stepped twice and never reset.
pub proof fn lemma_scroll_adopts_latest_color(r: ActiveRender, now1: u64, now2: u64, c1: Rgb, c2:
    Rgb)
    requires
        r.wf(),
        r.phase matches RenderPhase::Scrolling { offset_centi } && offset_centi
            <= spec_text_width_px(r.req->Text_0.text@) * 100 - SCROLL_STEP_CENTI,
        r.req->Text_0.color is None,
        r.first_shown <= now1 <= now2,
    ensures
        ({
            let (ra, done_a) = spec_render_tick(r, now1, false, Some(c1));
            let (rb, done_b) = spec_render_tick(ra, now2, false, Some(c2));
            &&& !done_a && !done_b
            &&& ra.style == c1
            &&& rb.style == c2
            &&& ra.phase == (RenderPhase::Scrolling {
                offset_centi: (r.phase->Scrolling_offset_centi + SCROLL_STEP_CENTI) as i32,
            })
            &&& rb.phase == (RenderPhase::Scrolling {
                offset_centi: (r.phase->Scrolling_offset_centi + 2 * SCROLL_STEP_CENTI) as i32,
            })
        }),
{
}

} // verus!
