//! The process-wide, time-bounded error surface shown in the bottom bar.
//!
//! The band holds at most one error text, stamped with the time it was set.
//! There is no timer: decay happens lazily when the render path reads the
//! band.  All times are milliseconds on one monotonic clock, handed in by
//! the caller.

use crate::constant::ERROR_DISPLAY_MS;
use vstd::prelude::*;

verus! {

/// The single error slot: a text and the time it was set, both present or
/// both absent.
#[derive(Debug, Clone)]
pub struct ErrorBand {
    pub text: Option<String>,
    pub set_at: Option<u64>,
}

impl ErrorBand {
    /// A text is present exactly when its timestamp is.
    pub open spec fn wf(self) -> bool {
        self.text is Some <==> self.set_at is Some
    }

    /// Whether a read at `now_ms` clears the band: an error is present and
    /// has been shown for the full display window.
    pub open spec fn spec_expired(self, now_ms: u64) -> bool {
        self.set_at matches Some(t) && now_ms >= t + ERROR_DISPLAY_MS
    }

    /// The band after a read at `now_ms`: cleared when expired, else as it
    /// was.
    pub open spec fn spec_after_read(self, now_ms: u64) -> ErrorBand {
        if self.spec_expired(now_ms) {
            ErrorBand { text: None, set_at: None }
        } else {
            self
        }
    }

    /// The text a read at `now_ms` shows: none once expired, else whatever
    /// is present.
    pub open spec fn spec_shown(self, now_ms: u64) -> Option<Seq<char>> {
        if self.spec_expired(now_ms) {
            None
        } else {
            match self.text {
                Some(t) => Some(t@),
                None => None,
            }
        }
    }

    /// An empty band.
    pub fn new() -> (b: Self)
        ensures
            b.text is None,
            b.set_at is None,
            b.wf(),
    {
        ErrorBand { text: None, set_at: None }
    }

    /// Replaces the band's content with `text`, stamped `now_ms`.
    pub fn set_error(&mut self, text: String, now_ms: u64)
        ensures
            final(self).text == Some(text),
            final(self).set_at == Some(now_ms),
            final(self).wf(),
    {
        self.text = Some(text);
        self.set_at = Some(now_ms);
    }

    /// Reads the band for display at `now_ms`, clearing it first when the
    /// display window has passed.
    pub fn current(&mut self, now_ms: u64) -> (shown: Option<String>)
        requires
            old(self).wf(),
        ensures
            final(self).wf(),
            *final(self) == old(self).spec_after_read(now_ms),
            (match shown {
                Some(s) => old(self).spec_shown(now_ms) == Some(s@),
                None => old(self).spec_shown(now_ms) is None,
            }),
    {
        let expired = match self.set_at {
            Some(t) => now_ms >= t && now_ms - t >= ERROR_DISPLAY_MS,
            None => false,
        };
        if expired {
            self.text = None;
            self.set_at = None;
            return None;
        }
        match &self.text {
            Some(t) => Some(t.clone()),
            None => None,
        }
    }
}

/// The error band pairs its fields: a text is present exactly when the time
/// it was set is present, and once the display window has passed, a read
/// clears both and shows nothing.
pub proof fn law_error_band(b: ErrorBand, now_ms: u64)
    requires
        b.wf(),
    ensures
        b.text is Some <==> b.set_at is Some,
        b.spec_expired(now_ms) ==> b.spec_after_read(now_ms).text is None
            && b.spec_after_read(now_ms).set_at is None
            && b.spec_shown(now_ms) is None,
        b.spec_after_read(now_ms).wf(),
{
}

} // verus!
