//! The decisions of `watch`: which line to print for each stream event and
//! for each tick of the spinner timer. The stream and the timer run in the
//! program, which hands each event to `WatchState::step`.

use vstd::prelude::*;

use crate::format::{render, spec_is_busy, spec_render, Format};
use crate::model::Snapshot;
use crate::spinner::{Anim, AnimateMode};

verus! {

/// What the program hands to `watch`.
pub enum WatchEvent {
    /// The stream pushed a snapshot.
    Snap(Snapshot),
    /// The stream ended or could not be opened (it is retried shortly).
    Disconnected,
    /// The spinner frame timer fired.
    Tick,
}

/// What `watch` remembers between events.
pub struct WatchState {
    /// The last snapshot shown, if any.
    pub last: Option<Snapshot>,
    /// The stream dropped since `last` arrived; `last` is still shown.
    pub stale: bool,
    /// The animation settings, with the current frame counter.
    pub anim: Anim,
}

/// The frame counter after one tick (wrapping at the top).
pub open spec fn next_tick(t: usize) -> usize {
    if t == usize::MAX {
        0
    } else {
        (t + 1) as usize
    }
}

/// One step of `watch`: the new (last snapshot, stale, animation) and the
/// line to print, if any.
///
/// - A snapshot is shown at once and becomes the last one.
/// - A first drop of the stream keeps showing the last snapshot (the
///   reconnect follows about two seconds later); a drop with nothing shown,
///   or a second drop in a row, prints the empty module and forgets it.
/// - A timer tick advances the spinner and re-prints, but only under the
///   glyph animation while the last snapshot is busy.
pub open spec fn spec_step(
    last: Option<Snapshot>,
    stale: bool,
    anim: Anim,
    fmt: Format,
    ev: WatchEvent,
) -> (Option<Snapshot>, bool, Anim, Option<Seq<char>>) {
    match ev {
        WatchEvent::Snap(s) => (Some(s), false, anim, Some(spec_render(fmt, Some(&s), anim))),
        WatchEvent::Disconnected => if last is Some && !stale {
            (last, true, anim, None)
        } else {
            (None, false, anim, Some(spec_render(fmt, None, anim)))
        },
        WatchEvent::Tick => match last {
            Some(s) => if anim.mode == AnimateMode::Glyph && spec_is_busy(&s) {
                let a = Anim { tick: next_tick(anim.tick), ..anim };
                (last, stale, a, Some(spec_render(fmt, Some(&s), a)))
            } else {
                (last, stale, anim, None)
            },
            None => (last, stale, anim, None),
        },
    }
}

/// The view of an optional line.
pub open spec fn line_view(o: Option<String>) -> Option<Seq<char>> {
    match o {
        Some(s) => Some(s@),
        None => None,
    }
}

impl WatchState {
    /// Nothing shown yet.
    pub fn new(anim: Anim) -> (r: WatchState)
        ensures
            r.last is None,
            !r.stale,
            r.anim == anim,
    {
        WatchState { last: None, stale: false, anim }
    }

    /// Handles one event in format `fmt`; returns the line to print.
    pub fn step(&mut self, fmt: Format, ev: WatchEvent) -> (r: Option<String>)
        ensures
            (final(self).last, final(self).stale, final(self).anim, line_view(r)) == spec_step(
                old(self).last,
                old(self).stale,
                old(self).anim,
                fmt,
                ev,
            ),
    {
        match ev {
            WatchEvent::Snap(s) => {
                let line = render(fmt, Some(&s), self.anim);
                self.last = Some(s);
                self.stale = false;
                Some(line)
            },
            WatchEvent::Disconnected => {
                if self.last.is_some() && !self.stale {
                    self.stale = true;
                    None
                } else {
                    self.last = None;
                    self.stale = false;
                    Some(render(fmt, None, self.anim))
                }
            },
            WatchEvent::Tick => {
                let go = match &self.last {
                    Some(s) => {
                        match self.anim.mode {
                            AnimateMode::Glyph => crate::format::is_busy(s),
                            _ => false,
                        }
                    },
                    None => false,
                };
                if go {
                    let t = if self.anim.tick == usize::MAX { 0 } else { self.anim.tick + 1 };
                    self.anim = Anim { tick: t, ..self.anim };
                    match &self.last {
                        Some(s) => Some(render(fmt, Some(s), self.anim)),
                        None => None,
                    }
                } else {
                    None
                }
            },
        }
    }
}

/// A brief drop of the stream does not blank the bar: after a snapshot and
/// one disconnect nothing is printed and the snapshot is kept; a second
/// disconnect in a row prints the empty module.
pub proof fn lemma_brief_drop_holds(s: Snapshot, stale: bool, anim: Anim, fmt: Format, prev: Option<Snapshot>)
    ensures
        ({
            let a = spec_step(prev, stale, anim, fmt, WatchEvent::Snap(s));
            let b = spec_step(a.0, a.1, a.2, fmt, WatchEvent::Disconnected);
            let c = spec_step(b.0, b.1, b.2, fmt, WatchEvent::Disconnected);
            &&& b.0 == Some(s) && b.3 is None
            &&& c.0 is None && c.3 == Some(spec_render(fmt, None, anim))
        }),
{
}

/// The timer only ever prints while the glyph animation runs on a busy
/// snapshot; otherwise a tick changes nothing.
pub proof fn lemma_tick_quiet_unless_busy_glyph(last: Option<Snapshot>, stale: bool, anim: Anim, fmt: Format)
    requires
        !(anim.mode == AnimateMode::Glyph && (last matches Some(s) && spec_is_busy(&s))),
    ensures
        spec_step(last, stale, anim, fmt, WatchEvent::Tick) == (last, stale, anim, None::<Seq<char>>),
{
}


/// A pushed snapshot is printed at once, in the chosen format and with the
/// current frame, and becomes the one remembered, fresh; a drop with
/// nothing shown prints the empty module right away.
pub proof fn lemma_snapshot_printed_at_once(
    prev: Option<Snapshot>,
    stale: bool,
    anim: Anim,
    fmt: Format,
    s: Snapshot,
)
    ensures
        spec_step(prev, stale, anim, fmt, WatchEvent::Snap(s)) == (
            Some(s),
            false,
            anim,
            Some(spec_render(fmt, Some(&s), anim)),
        ),
        spec_step(None, stale, anim, fmt, WatchEvent::Disconnected) == (
            None::<Snapshot>,
            false,
            anim,
            Some(spec_render(fmt, None, anim)),
        ),
{
}

/// Under the glyph animation a tick on a busy snapshot moves the frame
/// counter on by one (back to 0 after the largest value), keeps the other
/// settings and the snapshot, and prints the snapshot with the new frame.
pub proof fn lemma_tick_advances_frame(s: Snapshot, stale: bool, anim: Anim, fmt: Format)
    requires
        anim.mode == AnimateMode::Glyph,
        spec_is_busy(&s),
    ensures
        ({
            let r = spec_step(Some(s), stale, anim, fmt, WatchEvent::Tick);
            &&& r.0 == Some(s) && r.1 == stale
            &&& r.2.mode == anim.mode && r.2.spinner == anim.spinner
            &&& anim.tick < usize::MAX ==> r.2.tick == anim.tick + 1
            &&& anim.tick == usize::MAX ==> r.2.tick == 0
            &&& r.3 == Some(spec_render(fmt, Some(&s), r.2))
        }),
{
}

} // verus!
