//! Render requests: the unit of display work the arbitration engine
//! schedules. A request is text or a pixel frame, carries the origin that
//! decides its queue and priority, a minimum display duration, and the
//! instant it was first drawn, set lazily when rendering starts.

use vstd::prelude::*;

use vstd::string::StringSliceAdditionalSpecFns;
use vstd::utf8::{encode_scalar, encode_utf8, is_ascii_chars, is_ascii_chars_encode_utf8};

use crate::color::Rgb;
use crate::frame::Frame;

verus! {

/// Which priority class a request travels through. Fixed at construction.
#[derive(Clone, Copy, PartialEq, Eq, Structural, Debug)]
pub enum Origin {
    /// Shown at once, preempting everything pending.
    Interrupt,
    /// Queued remote-control (MQTT) work.
    Remote,
    /// Queued work from the active app.
    App,
}

/// The longest text a request can carry, measured in UTF-8 bytes.
pub const MAX_TEXT_BYTES: usize = 64;

/// Byte length of a text in its UTF-8 encoding.
pub open spec fn spec_text_bytes(s: Seq<char>) -> nat {
    encode_utf8(s).len()
}

/// Every character takes at least one byte, so a byte-bounded text is
/// character-bounded too.
pub proof fn lemma_text_bytes_at_least_chars(s: Seq<char>)
    ensures
        spec_text_bytes(s) >= s.len(),
    decreases s.len(),
{
    if s.len() > 0 {
        lemma_text_bytes_at_least_chars(s.drop_first());
        assert(encode_scalar(s[0] as u32).len() >= 1);
    }
}

/// Minimum display duration used when a constructor is given none.
pub const DEFAULT_TEXT_DURATION_MS: u64 = 3000;

/// Vertical centre of the display; the default text anchor row.
pub const DEFAULT_ANCHOR_Y: i32 = 5;

/// The text a request ends up carrying: the given text when it fits the
/// bounded buffer of [`MAX_TEXT_BYTES`] bytes, else the fixed overflow
/// notice.
pub open spec fn spec_bounded_text(s: Seq<char>) -> Seq<char> {
    if spec_text_bytes(s) <= MAX_TEXT_BYTES {
        s
    } else {
        "Too many characters!"@
    }
}

/// Copy `text` into a request's bounded text: input over the byte bound is
/// replaced by the fixed overflow notice.
pub fn bounded_text(text: &str) -> (out: String)
    ensures
        out@ == spec_bounded_text(text@),
        spec_text_bytes(out@) <= MAX_TEXT_BYTES,
        out@.len() <= MAX_TEXT_BYTES,
{
    proof {
        reveal_strlit("Too many characters!");
        assert(is_ascii_chars("Too many characters!"@));
        is_ascii_chars_encode_utf8("Too many characters!"@);
        lemma_text_bytes_at_least_chars(text@);
        assert(text.spec_bytes() == encode_utf8(text@));
    }
    let byte_len = text.as_bytes().len();
    proof {
        assert(byte_len == encode_utf8(text@).len());
    }
    if byte_len <= MAX_TEXT_BYTES {
        String::from_str(text)
    } else {
        String::from_str("Too many characters!")
    }
}

/// A request to show text.
pub struct TextRequest {
    /// The text to show; at most [`MAX_TEXT_BYTES`] bytes.
    pub text: String,
    /// Explicit color override; when absent the active display color is
    /// used, and color broadcasts restyle an in-flight scroll.
    pub color: Option<Rgb>,
    /// Horizontal anchor the text starts from.
    pub x: i32,
    /// Vertical anchor row.
    pub y: i32,
    /// Minimum time the text must remain visible, in milliseconds.
    pub min_ms: u64,
    /// When the text was first drawn; set once, at that instant.
    pub first_shown: Option<u64>,
    /// The priority class the request travels through.
    pub origin: Origin,
}

impl TextRequest {
    /// The bounded-text invariant: the text fits the byte bound, and so
    /// holds no more characters than that either.
    pub open spec fn wf(self) -> bool {
        spec_text_bytes(self.text@) <= MAX_TEXT_BYTES && self.text@.len() <= MAX_TEXT_BYTES
    }

    /// A remote-control text request: travels through the remote queue and
    /// shows for at least the default duration. A missing anchor centres
    /// the text vertically at the left edge.
    pub fn from_mqtt(text: &str, color: Option<Rgb>, point: Option<(i32, i32)>) -> (r:
        TextRequest)
        ensures
            r.wf(),
            r.text@ == spec_bounded_text(text@),
            r.color == color,
            point matches Some(p) ==> r.x == p.0 && r.y == p.1,
            point is None ==> r.x == 0 && r.y == DEFAULT_ANCHOR_Y,
            r.min_ms == DEFAULT_TEXT_DURATION_MS,
            r.first_shown is None,
            r.origin is Remote,
    {
        let (x, y): (i32, i32) = match point {
            Some(p) => p,
            None => (0, DEFAULT_ANCHOR_Y),
        };
        TextRequest {
            text: bounded_text(text),
            color,
            x,
            y,
            min_ms: DEFAULT_TEXT_DURATION_MS,
            first_shown: None,
            origin: Origin::Remote,
        }
    }

    /// An app text request: travels through the app queue; a missing
    /// duration falls back to the default.
    pub fn from_app(text: &str, color: Option<Rgb>, point: Option<(i32, i32)>, duration_ms:
        Option<u64>) -> (r: TextRequest)
        ensures
            r.wf(),
            r.text@ == spec_bounded_text(text@),
            r.color == color,
            point matches Some(p) ==> r.x == p.0 && r.y == p.1,
            point is None ==> r.x == 0 && r.y == DEFAULT_ANCHOR_Y,
            duration_ms matches Some(d) ==> r.min_ms == d,
            duration_ms is None ==> r.min_ms == DEFAULT_TEXT_DURATION_MS,
            r.first_shown is None,
            r.origin is App,
    {
        let (x, y): (i32, i32) = match point {
            Some(p) => p,
            None => (0, DEFAULT_ANCHOR_Y),
        };
        let min_ms = match duration_ms {
            Some(d) => d,
            None => DEFAULT_TEXT_DURATION_MS,
        };
        TextRequest {
            text: bounded_text(text),
            color,
            x,
            y,
            min_ms,
            first_shown: None,
            origin: Origin::App,
        }
    }

    /// Record that the text is on the display now; only the first such
    /// instant is kept.
    pub fn set_first_shown(&mut self, now: u64)
        ensures
            old(self).first_shown is None ==> *final(self) == (TextRequest {
                first_shown: Some(now),
                ..*old(self)
            }),
            old(self).first_shown is Some ==> *final(self) == *old(self),
    {
        if self.first_shown.is_none() {
            self.first_shown = Some(now);
        }
    }

    /// Whether the minimum display duration has passed by `now`. False
    /// while the text has never been drawn.
    pub fn has_min_duration_passed(&self, now: u64) -> (r: bool)
        requires
            self.first_shown matches Some(fs) ==> fs <= now,
        ensures
            r == (self.first_shown matches Some(fs) && now - fs > self.min_ms),
    {
        match self.first_shown {
            None => false,
            Some(fs) => now - fs > self.min_ms,
        }
    }
}

/// A request to show a full pixel frame.
pub struct GraphicsRequest {
    /// The frame to push to the matrix.
    pub frame: Frame,
    /// Minimum time the frame must remain visible, in milliseconds.
    pub min_ms: u64,
    /// When the frame was first drawn; set once, at that instant.
    pub first_shown: Option<u64>,
    /// The priority class the request travels through.
    pub origin: Origin,
}

impl GraphicsRequest {
    /// The frame invariant.
    pub open spec fn wf(self) -> bool {
        self.frame.wf()
    }

    /// An app graphics request: travels through the app queue and shows for
    /// at least `duration_ms`.
    pub fn from_app(frame: Frame, duration_ms: u64) -> (r: GraphicsRequest)
        requires
            frame.wf(),
        ensures
            r.wf(),
            r.frame.view() == frame.view(),
            r.min_ms == duration_ms,
            r.first_shown is None,
            r.origin is App,
    {
        GraphicsRequest { frame, min_ms: duration_ms, first_shown: None, origin: Origin::App }
    }

    /// Record that the frame is on the display now; only the first such
    /// instant is kept.
    pub fn set_first_shown(&mut self, now: u64)
        ensures
            old(self).first_shown is None ==> *final(self) == (GraphicsRequest {
                first_shown: Some(now),
                ..*old(self)
            }),
            old(self).first_shown is Some ==> *final(self) == *old(self),
    {
        if self.first_shown.is_none() {
            self.first_shown = Some(now);
        }
    }

    /// Whether the minimum display duration has passed by `now`. False
    /// while the frame has never been drawn.
    pub fn has_min_duration_passed(&self, now: u64) -> (r: bool)
        requires
            self.first_shown matches Some(fs) ==> fs <= now,
        ensures
            r == (self.first_shown matches Some(fs) && now - fs > self.min_ms),
    {
        match self.first_shown {
            None => false,
            Some(fs) => now - fs > self.min_ms,
        }
    }
}

/// A unit of display work: text or a pixel frame.
pub enum RenderRequest {
    Text(TextRequest),
    Graphics(GraphicsRequest),
}

impl RenderRequest {
    /// Well-formedness of the carried request.
    pub open spec fn wf(self) -> bool {
        match self {
            RenderRequest::Text(t) => t.wf(),
            RenderRequest::Graphics(g) => g.wf(),
        }
    }

    /// The priority class the request travels through.
    pub open spec fn origin(self) -> Origin {
        match self {
            RenderRequest::Text(t) => t.origin,
            RenderRequest::Graphics(g) => g.origin,
        }
    }

    /// The request's minimum display duration.
    pub open spec fn min_ms(self) -> u64 {
        match self {
            RenderRequest::Text(t) => t.min_ms,
            RenderRequest::Graphics(g) => g.min_ms,
        }
    }

    /// The same request converted to interrupt priority.
    pub open spec fn spec_as_interrupt(self) -> RenderRequest {
        match self {
            RenderRequest::Text(t) => RenderRequest::Text(
                TextRequest { origin: Origin::Interrupt, ..t },
            ),
            RenderRequest::Graphics(g) => RenderRequest::Graphics(
                GraphicsRequest { origin: Origin::Interrupt, ..g },
            ),
        }
    }

    /// Convert the request to interrupt priority; everything else is kept.
    pub fn into_interrupt(self) -> (r: RenderRequest)
        ensures
            r == self.spec_as_interrupt(),
            r.origin() is Interrupt,
            r.wf() == self.wf(),
    {
        match self {
            RenderRequest::Text(t) => RenderRequest::Text(
                TextRequest { origin: Origin::Interrupt, ..t },
            ),
            RenderRequest::Graphics(g) => RenderRequest::Graphics(
                GraphicsRequest { origin: Origin::Interrupt, ..g },
            ),
        }
    }
}

} // verus!
