//! Spinner frame sets and the animation settings for the "Working" state.
//!
//! Two animation styles, both selectable from the command line:
//!   --animate glyph   a spinner frame prefixed to the bar text (for `watch`)
//!   --animate pulse   a `pulse` CSS class so the bar opacity-pulses
//!   --animate off     no animation (the default)

use vstd::prelude::*;

verus! {

/// How the busy state is animated.
#[derive(Debug, Clone, Copy, PartialEq, Eq, Structural)]
pub enum AnimateMode {
    Off,
    Glyph,
    Pulse,
}

/// The animation mode named by a command-line value, if any.
pub open spec fn spec_parse_animate(s: Seq<char>) -> Option<AnimateMode> {
    if s == "off"@ || s == "none"@ {
        Some(AnimateMode::Off)
    } else if s == "glyph"@ {
        Some(AnimateMode::Glyph)
    } else if s == "pulse"@ {
        Some(AnimateMode::Pulse)
    } else {
        None
    }
}

impl AnimateMode {
    /// `off`/`none`, `glyph` or `pulse`.
    pub fn parse(s: &str) -> (r: Option<AnimateMode>)
        ensures
            r == spec_parse_animate(s@),
    {
        if crate::text::str_eq(s, "off") || crate::text::str_eq(s, "none") {
            Some(AnimateMode::Off)
        } else if crate::text::str_eq(s, "glyph") {
            Some(AnimateMode::Glyph)
        } else if crate::text::str_eq(s, "pulse") {
            Some(AnimateMode::Pulse)
        } else {
            None
        }
    }
}

/// The frame set of the glyph animation.
#[derive(Debug, Clone, Copy, PartialEq, Eq, Structural)]
pub enum SpinnerStyle {
    Braille,
    Shimmer,
    Dots,
    Ring,
    RingComet,
}

/// The spinner style named by a command-line value, if any.
pub open spec fn spec_parse_spinner(s: Seq<char>) -> Option<SpinnerStyle> {
    if s == "braille"@ {
        Some(SpinnerStyle::Braille)
    } else if s == "shimmer"@ {
        Some(SpinnerStyle::Shimmer)
    } else if s == "dots"@ {
        Some(SpinnerStyle::Dots)
    } else if s == "ring"@ {
        Some(SpinnerStyle::Ring)
    } else if s == "ring-comet"@ || s == "ringcomet"@ {
        Some(SpinnerStyle::RingComet)
    } else {
        None
    }
}

/// Hollow "0" ring: a single dot orbits a 4-wide by 4-tall dot rectangle
/// drawn as two braille cells, clockwise from the top-left corner.
pub open spec fn ring_seq() -> Seq<Seq<char>> {
    seq![
        "⠁⠀"@, "⠈⠀"@, "⠀⠁"@, "⠀⠈"@, "⠀⠐"@, "⠀⠠"@,
        "⠀⢀"@, "⠀⡀"@, "⢀⠀"@, "⡀⠀"@, "⠄⠀"@, "⠂⠀"@,
    ]
}

/// The same ring with a comet (head and trailing dots) orbiting it.
pub open spec fn ring_comet_seq() -> Seq<Seq<char>> {
    seq![
        "⡇⠀"@, "⠏⠀"@, "⠋⠁"@, "⠉⠉"@, "⠈⠙"@, "⠀⠹"@,
        "⠀⢸"@, "⠀⣰"@, "⢀⣠"@, "⣀⣀"@, "⣄⡀"@, "⣆⠀"@,
    ]
}

/// The frames of each spinner style, in animation order.
pub open spec fn spec_frames(style: SpinnerStyle) -> Seq<Seq<char>> {
    match style {
        SpinnerStyle::Braille => seq!["⠋"@, "⠙"@, "⠸"@, "⢰"@, "⣠"@, "⣄"@, "⡆"@, "⠇"@],
        SpinnerStyle::Shimmer => seq!["⣾"@, "⣽"@, "⣻"@, "⢿"@, "⡿"@, "⣟"@, "⣯"@, "⣷"@],
        SpinnerStyle::Dots => seq!["⠋"@, "⠙"@, "⠚"@, "⠞"@, "⠖"@, "⠦"@, "⠴"@, "⠲"@, "⠳"@, "⠓"@],
        SpinnerStyle::Ring => ring_seq(),
        SpinnerStyle::RingComet => ring_comet_seq(),
    }
}

/// The frame shown at a tick: the frames repeat, so the tick wraps around.
pub open spec fn spec_frame(style: SpinnerStyle, tick: nat) -> Seq<char> {
    spec_frames(style)[(tick % spec_frames(style).len()) as int]
}

/// The views of a list of static strings.
pub open spec fn str_views(v: Seq<&str>) -> Seq<Seq<char>> {
    v.map_values(|f: &str| f@)
}

impl SpinnerStyle {
    /// `braille`, `shimmer`, `dots`, `ring` or `ring-comet` (also `ringcomet`).
    pub fn parse(s: &str) -> (r: Option<SpinnerStyle>)
        ensures
            r == spec_parse_spinner(s@),
    {
        if crate::text::str_eq(s, "braille") {
            Some(SpinnerStyle::Braille)
        } else if crate::text::str_eq(s, "shimmer") {
            Some(SpinnerStyle::Shimmer)
        } else if crate::text::str_eq(s, "dots") {
            Some(SpinnerStyle::Dots)
        } else if crate::text::str_eq(s, "ring") {
            Some(SpinnerStyle::Ring)
        } else if crate::text::str_eq(s, "ring-comet") || crate::text::str_eq(s, "ringcomet") {
            Some(SpinnerStyle::RingComet)
        } else {
            None
        }
    }

    /// The frames of this style, in animation order.
    pub fn frames(self) -> (r: &'static [&'static str])
        ensures
            str_views(r@) == spec_frames(self),
    {
        match self {
            // A gapless 3-dot comet circling the cell clockwise.
            SpinnerStyle::Braille => {
                let r: &'static [&'static str] = &["⠋", "⠙", "⠸", "⢰", "⣠", "⣄", "⡆", "⠇"];
                assert(str_views(r@) =~= spec_frames(self));
                r
            },
            // The filled mass sweeping around the perimeter.
            SpinnerStyle::Shimmer => {
                let r: &'static [&'static str] = &["⣾", "⣽", "⣻", "⢿", "⡿", "⣟", "⣯", "⣷"];
                assert(str_views(r@) =~= spec_frames(self));
                r
            },
            // Two opposite orbiting dots.
            SpinnerStyle::Dots => {
                let r: &'static [&'static str] = &["⠋", "⠙", "⠚", "⠞", "⠖", "⠦", "⠴", "⠲", "⠳", "⠓"];
                assert(str_views(r@) =~= spec_frames(self));
                r
            },
            SpinnerStyle::Ring => ring_frames(),
            SpinnerStyle::RingComet => ring_comet_frames(),
        }
    }

    /// The frame for a given tick counter (wraps).
    pub fn frame(self, tick: usize) -> (r: &'static str)
        ensures
            r@ == spec_frame(self, tick as nat),
    {
        let f = self.frames();
        proof {
            assert(f@.len() == spec_frames(self).len());
            assert(f@.len() > 0);
        }
        let i = tick % f.len();
        assert(f@[i as int]@ == str_views(f@)[i as int]);
        f[i]
    }
}

/// Frames of the "ring" spinner (hollow 0, one orbiting dot).
fn ring_frames() -> (r: &'static [&'static str])
    ensures
        str_views(r@) == ring_seq(),
{
    let r: &'static [&'static str] = &[
        "⠁⠀",  // (0,0) top-left
        "⠈⠀",  // (1,0)
        "⠀⠁",  // (2,0)
        "⠀⠈",  // (3,0) top-right
        "⠀⠐",  // (3,1)
        "⠀⠠",  // (3,2)
        "⠀⢀",  // (3,3) bottom-right
        "⠀⡀",  // (2,3)
        "⢀⠀",  // (1,3)
        "⡀⠀",  // (0,3) bottom-left
        "⠄⠀",  // (0,2)
        "⠂⠀",  // (0,1)
    ];
    assert(str_views(r@) =~= ring_seq());
    r
}

/// Frames of the "ring-comet" spinner (hollow 0, orbiting comet).
fn ring_comet_frames() -> (r: &'static [&'static str])
    ensures
        str_views(r@) == ring_comet_seq(),
{
    let r: &'static [&'static str] = &[
        "⡇⠀", "⠏⠀", "⠋⠁", "⠉⠉", "⠈⠙", "⠀⠹", "⠀⢸", "⠀⣰", "⢀⣠", "⣀⣀", "⣄⡀", "⣆⠀",
    ];
    assert(str_views(r@) =~= ring_comet_seq());
    r
}

/// The full static hollow-0 ring outline (all perimeter dots lit).
pub const RING_OUTLINE: &'static str = "⣏⣹";

/// Animation settings resolved from the command line.
#[derive(Debug, Clone, Copy)]
pub struct Anim {
    pub mode: AnimateMode,
    pub spinner: SpinnerStyle,
    /// Current frame counter (advanced by the `watch` ticker). Ignored unless
    /// mode == Glyph.
    pub tick: usize,
}

impl Default for Anim {
    fn default() -> (r: Anim)
        ensures
            r.mode == AnimateMode::Off,
            r.spinner == SpinnerStyle::Braille,
            r.tick == 0,
    {
        Anim { mode: AnimateMode::Off, spinner: SpinnerStyle::Braille, tick: 0 }
    }
}

/// The glyph prefixed to the bar text while busy: the current spinner
/// frame under the glyph animation, nothing otherwise.
pub open spec fn spec_anim_glyph(anim: Anim) -> Option<Seq<char>> {
    if anim.mode == AnimateMode::Glyph {
        Some(spec_frame(anim.spinner, anim.tick as nat))
    } else {
        None
    }
}

impl Anim {
    /// The spinner glyph to prefix to the bar text while busy, if any.
    pub fn glyph(&self) -> (r: Option<&'static str>)
        ensures
            r is Some <==> self.mode == AnimateMode::Glyph,
            r matches Some(g) ==> spec_anim_glyph(*self) == Some(g@),
    {
        match self.mode {
            AnimateMode::Glyph => Some(self.spinner.frame(self.tick)),
            _ => None,
        }
    }

    /// Whether to emit the `pulse` CSS class.
    pub fn pulse(&self) -> (r: bool)
        ensures
            r == (self.mode == AnimateMode::Pulse),
    {
        match self.mode {
            AnimateMode::Pulse => true,
            _ => false,
        }
    }
}


/// Neighbouring frames differ all around the cycle (the last frame is
/// followed by the first).
pub open spec fn steps_differ(f: Seq<Seq<char>>) -> bool {
    forall|k: int| 0 <= k < f.len() ==> #[trigger] f[k] != f[(k + 1) % (f.len() as int)]
}

proof fn lemma_tick_step(f: Seq<Seq<char>>, tick: nat)
    requires
        f.len() > 0,
        steps_differ(f),
    ensures
        f[(tick % f.len()) as int] != f[((tick + 1) % f.len()) as int],
{
    let n = f.len() as int;
    let i = (tick as int) % n;
    let j = (tick as int + 1) % n;
    assert(0 <= i < n && j == (i + 1) % n) by (nonlinear_arith)
        requires
            n > 0,
            i == (tick as int) % n,
            j == (tick as int + 1) % n,
    ;
    assert(f[i] != f[(i + 1) % n]);
}

proof fn lemma_table_steps(style: SpinnerStyle)
    ensures
        steps_differ(spec_frames(style)),
{
    let f = spec_frames(style);
    let n = f.len() as int;
    if style == SpinnerStyle::Braille {
        assert(n == 8);
        reveal_strlit("⠋");
        reveal_strlit("⠙");
        reveal_strlit("⠸");
        reveal_strlit("⢰");
        reveal_strlit("⣠");
        reveal_strlit("⣄");
        reveal_strlit("⡆");
        reveal_strlit("⠇");
        assert forall|k: int| 0 <= k < n implies #[trigger] f[k] != f[(k + 1) % n] by {
            if k == 0 {
                assert((k + 1) % n == 1);
                assert(f[0][0] != f[1][0]);
            } else if k == 1 {
                assert((k + 1) % n == 2);
                assert(f[1][0] != f[2][0]);
            } else if k == 2 {
                assert((k + 1) % n == 3);
                assert(f[2][0] != f[3][0]);
            } else if k == 3 {
                assert((k + 1) % n == 4);
                assert(f[3][0] != f[4][0]);
            } else if k == 4 {
                assert((k + 1) % n == 5);
                assert(f[4][0] != f[5][0]);
            } else if k == 5 {
                assert((k + 1) % n == 6);
                assert(f[5][0] != f[6][0]);
            } else if k == 6 {
                assert((k + 1) % n == 7);
                assert(f[6][0] != f[7][0]);
            } else if k == 7 {
                assert((k + 1) % n == 0);
                assert(f[7][0] != f[0][0]);
            }
        }
    }
    if style == SpinnerStyle::Shimmer {
        assert(n == 8);
        reveal_strlit("⣾");
        reveal_strlit("⣽");
        reveal_strlit("⣻");
        reveal_strlit("⢿");
        reveal_strlit("⡿");
        reveal_strlit("⣟");
        reveal_strlit("⣯");
        reveal_strlit("⣷");
        assert forall|k: int| 0 <= k < n implies #[trigger] f[k] != f[(k + 1) % n] by {
            if k == 0 {
                assert((k + 1) % n == 1);
                assert(f[0][0] != f[1][0]);
            } else if k == 1 {
                assert((k + 1) % n == 2);
                assert(f[1][0] != f[2][0]);
            } else if k == 2 {
                assert((k + 1) % n == 3);
                assert(f[2][0] != f[3][0]);
            } else if k == 3 {
                assert((k + 1) % n == 4);
                assert(f[3][0] != f[4][0]);
            } else if k == 4 {
                assert((k + 1) % n == 5);
                assert(f[4][0] != f[5][0]);
            } else if k == 5 {
                assert((k + 1) % n == 6);
                assert(f[5][0] != f[6][0]);
            } else if k == 6 {
                assert((k + 1) % n == 7);
                assert(f[6][0] != f[7][0]);
            } else if k == 7 {
                assert((k + 1) % n == 0);
                assert(f[7][0] != f[0][0]);
            }
        }
    }
    if style == SpinnerStyle::Dots {
        assert(n == 10);
        reveal_strlit("⠋");
        reveal_strlit("⠙");
        reveal_strlit("⠚");
        reveal_strlit("⠞");
        reveal_strlit("⠖");
        reveal_strlit("⠦");
        reveal_strlit("⠴");
        reveal_strlit("⠲");
        reveal_strlit("⠳");
        reveal_strlit("⠓");
        assert forall|k: int| 0 <= k < n implies #[trigger] f[k] != f[(k + 1) % n] by {
            if k == 0 {
                assert((k + 1) % n == 1);
                assert(f[0][0] != f[1][0]);
            } else if k == 1 {
                assert((k + 1) % n == 2);
                assert(f[1][0] != f[2][0]);
            } else if k == 2 {
                assert((k + 1) % n == 3);
                assert(f[2][0] != f[3][0]);
            } else if k == 3 {
                assert((k + 1) % n == 4);
                assert(f[3][0] != f[4][0]);
            } else if k == 4 {
                assert((k + 1) % n == 5);
                assert(f[4][0] != f[5][0]);
            } else if k == 5 {
                assert((k + 1) % n == 6);
                assert(f[5][0] != f[6][0]);
            } else if k == 6 {
                assert((k + 1) % n == 7);
                assert(f[6][0] != f[7][0]);
            } else if k == 7 {
                assert((k + 1) % n == 8);
                assert(f[7][0] != f[8][0]);
            } else if k == 8 {
                assert((k + 1) % n == 9);
                assert(f[8][0] != f[9][0]);
            } else if k == 9 {
                assert((k + 1) % n == 0);
                assert(f[9][0] != f[0][0]);
            }
        }
    }
    if style == SpinnerStyle::Ring {
        assert(n == 12);
        reveal_strlit("⠁⠀");
        reveal_strlit("⠈⠀");
        reveal_strlit("⠀⠁");
        reveal_strlit("⠀⠈");
        reveal_strlit("⠀⠐");
        reveal_strlit("⠀⠠");
        reveal_strlit("⠀⢀");
        reveal_strlit("⠀⡀");
        reveal_strlit("⢀⠀");
        reveal_strlit("⡀⠀");
        reveal_strlit("⠄⠀");
        reveal_strlit("⠂⠀");
        assert forall|k: int| 0 <= k < n implies #[trigger] f[k] != f[(k + 1) % n] by {
            if k == 0 {
                assert((k + 1) % n == 1);
                assert(f[0][0] != f[1][0]);
            } else if k == 1 {
                assert((k + 1) % n == 2);
                assert(f[1][0] != f[2][0]);
            } else if k == 2 {
                assert((k + 1) % n == 3);
                assert(f[2][1] != f[3][1]);
            } else if k == 3 {
                assert((k + 1) % n == 4);
                assert(f[3][1] != f[4][1]);
            } else if k == 4 {
                assert((k + 1) % n == 5);
                assert(f[4][1] != f[5][1]);
            } else if k == 5 {
                assert((k + 1) % n == 6);
                assert(f[5][1] != f[6][1]);
            } else if k == 6 {
                assert((k + 1) % n == 7);
                assert(f[6][1] != f[7][1]);
            } else if k == 7 {
                assert((k + 1) % n == 8);
                assert(f[7][0] != f[8][0]);
            } else if k == 8 {
                assert((k + 1) % n == 9);
                assert(f[8][0] != f[9][0]);
            } else if k == 9 {
                assert((k + 1) % n == 10);
                assert(f[9][0] != f[10][0]);
            } else if k == 10 {
                assert((k + 1) % n == 11);
                assert(f[10][0] != f[11][0]);
            } else if k == 11 {
                assert((k + 1) % n == 0);
                assert(f[11][0] != f[0][0]);
            }
        }
    }
    if style == SpinnerStyle::RingComet {
        assert(n == 12);
        reveal_strlit("⡇⠀");
        reveal_strlit("⠏⠀");
        reveal_strlit("⠋⠁");
        reveal_strlit("⠉⠉");
        reveal_strlit("⠈⠙");
        reveal_strlit("⠀⠹");
        reveal_strlit("⠀⢸");
        reveal_strlit("⠀⣰");
        reveal_strlit("⢀⣠");
        reveal_strlit("⣀⣀");
        reveal_strlit("⣄⡀");
        reveal_strlit("⣆⠀");
        assert forall|k: int| 0 <= k < n implies #[trigger] f[k] != f[(k + 1) % n] by {
            if k == 0 {
                assert((k + 1) % n == 1);
                assert(f[0][0] != f[1][0]);
            } else if k == 1 {
                assert((k + 1) % n == 2);
                assert(f[1][0] != f[2][0]);
            } else if k == 2 {
                assert((k + 1) % n == 3);
                assert(f[2][0] != f[3][0]);
            } else if k == 3 {
                assert((k + 1) % n == 4);
                assert(f[3][0] != f[4][0]);
            } else if k == 4 {
                assert((k + 1) % n == 5);
                assert(f[4][0] != f[5][0]);
            } else if k == 5 {
                assert((k + 1) % n == 6);
                assert(f[5][1] != f[6][1]);
            } else if k == 6 {
                assert((k + 1) % n == 7);
                assert(f[6][1] != f[7][1]);
            } else if k == 7 {
                assert((k + 1) % n == 8);
                assert(f[7][0] != f[8][0]);
            } else if k == 8 {
                assert((k + 1) % n == 9);
                assert(f[8][0] != f[9][0]);
            } else if k == 9 {
                assert((k + 1) % n == 10);
                assert(f[9][0] != f[10][0]);
            } else if k == 10 {
                assert((k + 1) % n == 11);
                assert(f[10][0] != f[11][0]);
            } else if k == 11 {
                assert((k + 1) % n == 0);
                assert(f[11][0] != f[0][0]);
            }
        }
    }
}

/// Consecutive frames of every spinner differ, so the glyph visibly moves
/// at each tick (the last frame is followed by the first).
pub proof fn lemma_frame_advances(style: SpinnerStyle, tick: nat)
    ensures
        spec_frame(style, tick) != spec_frame(style, tick + 1),
{
    lemma_table_steps(style);
    lemma_tick_step(spec_frames(style), tick);
}

/// The frame sequence repeats: a tick and the tick one full cycle later
/// show the same frame.
pub proof fn lemma_frame_wraps(style: SpinnerStyle, tick: nat)
    ensures
        spec_frames(style).len() > 0,
        spec_frame(style, tick + spec_frames(style).len()) == spec_frame(style, tick),
{
    let n = spec_frames(style).len();
    assert(n > 0);
    assert((tick + n) % n == tick % n) by (nonlinear_arith)
        requires
            n > 0,
    ;
}

/// The ring spinners are two braille cells wide in every frame.
pub proof fn lemma_ring_frames_two_cells(i: int)
    requires
        0 <= i < 12,
    ensures
        ring_seq()[i].len() == 2,
        ring_comet_seq()[i].len() == 2,
{

    reveal_strlit("⠁⠀");
    reveal_strlit("⠈⠀");
    reveal_strlit("⠀⠁");
    reveal_strlit("⠀⠈");
    reveal_strlit("⠀⠐");
    reveal_strlit("⠀⠠");
    reveal_strlit("⠀⢀");
    reveal_strlit("⠀⡀");
    reveal_strlit("⢀⠀");
    reveal_strlit("⡀⠀");
    reveal_strlit("⠄⠀");
    reveal_strlit("⠂⠀");
    reveal_strlit("⡇⠀");
    reveal_strlit("⠏⠀");
    reveal_strlit("⠋⠁");
    reveal_strlit("⠉⠉");
    reveal_strlit("⠈⠙");
    reveal_strlit("⠀⠹");
    reveal_strlit("⠀⢸");
    reveal_strlit("⠀⣰");
    reveal_strlit("⢀⣠");
    reveal_strlit("⣀⣀");
    reveal_strlit("⣄⡀");
    reveal_strlit("⣆⠀");
}


/// Point `k` (0 to 11) of the clockwise path around the hollow 4-wide by
/// 4-tall dot rectangle, as (column, row), starting at the top-left corner.
pub open spec fn ring_point(k: int) -> (int, int) {
    if k < 4 {
        (k, 0)
    } else if k < 7 {
        (3, k - 3)
    } else if k < 10 {
        (9 - k, 3)
    } else {
        (0, 12 - k)
    }
}

/// The bit of a dot in a braille cell (U+2800 plus the bits of the lit
/// dots), by its column (0, 1) and row (0 to 3) in the cell.
pub open spec fn dot_bit(col: int, row: int) -> int {
    if col == 0 {
        if row == 0 { 0x01 } else if row == 1 { 0x02 } else if row == 2 { 0x04 } else { 0x40 }
    } else {
        if row == 0 { 0x08 } else if row == 1 { 0x10 } else if row == 2 { 0x20 } else { 0x80 }
    }
}

/// The dot bits of cell `c` (0 left, 1 right) when the path points `k`,
/// `k - 1`, ..., `k - n + 1` (around the path) are lit.
pub open spec fn ring_bits(c: int, k: int, n: nat) -> int
    decreases n,
{
    if n == 0 {
        0
    } else {
        let p = ring_point((k - (n - 1)) % 12);
        ring_bits(c, k, (n - 1) as nat) + if p.0 / 2 == c { dot_bit(p.0 % 2, p.1) } else { 0 }
    }
}

/// A two-cell braille frame with the path points `k`, ..., `k - n + 1` lit.
pub open spec fn ring_frame_lights(f: Seq<char>, k: int, n: nat) -> bool {
    &&& f.len() == 2
    &&& f[0] as int == 0x2800 + ring_bits(0, k, n)
    &&& f[1] as int == 0x2800 + ring_bits(1, k, n)
}

/// The ring spinners trace the hollow 0: frame `k` of `ring` lights path
/// point `k`, frame `k` of `ring-comet` lights points `k` to `k - 3` (head
/// and three trailing dots), and the outline ⣏⣹ lights all twelve.
pub proof fn lemma_ring_frames_trace_path(k: int)
    requires
        0 <= k < 12,
    ensures
        ring_frame_lights(ring_seq()[k], k, 1),
        ring_frame_lights(ring_comet_seq()[k], k, 4),
        ring_frame_lights(RING_OUTLINE@, 11, 12),
{
    reveal_with_fuel(ring_bits, 13);
    reveal_strlit("⣏⣹");

    if k == 0 {
        reveal_strlit("⠁⠀");
        reveal_strlit("⡇⠀");
    } else if k == 1 {
        reveal_strlit("⠈⠀");
        reveal_strlit("⠏⠀");
    } else if k == 2 {
        reveal_strlit("⠀⠁");
        reveal_strlit("⠋⠁");
    } else if k == 3 {
        reveal_strlit("⠀⠈");
        reveal_strlit("⠉⠉");
    } else if k == 4 {
        reveal_strlit("⠀⠐");
        reveal_strlit("⠈⠙");
    } else if k == 5 {
        reveal_strlit("⠀⠠");
        reveal_strlit("⠀⠹");
    } else if k == 6 {
        reveal_strlit("⠀⢀");
        reveal_strlit("⠀⢸");
    } else if k == 7 {
        reveal_strlit("⠀⡀");
        reveal_strlit("⠀⣰");
    } else if k == 8 {
        reveal_strlit("⢀⠀");
        reveal_strlit("⢀⣠");
    } else if k == 9 {
        reveal_strlit("⡀⠀");
        reveal_strlit("⣀⣀");
    } else if k == 10 {
        reveal_strlit("⠄⠀");
        reveal_strlit("⣄⡀");
    } else if k == 11 {
        reveal_strlit("⠂⠀");
        reveal_strlit("⣆⠀");
    }
}


/// Point `k` (0 to 7) of the clockwise path around the edge of one braille
/// cell, as (column, row), starting at the top of the right column.
pub open spec fn cell_point(k: int) -> (int, int) {
    if k < 4 {
        (1, k)
    } else {
        (0, 7 - k)
    }
}

/// The dot bits of one cell when the path points `k`, `k - 1`, ...,
/// `k - n + 1` (around the path) are lit.
pub open spec fn cell_bits(k: int, n: nat) -> int
    decreases n,
{
    if n == 0 {
        0
    } else {
        let p = cell_point((k - (n - 1)) % 8);
        cell_bits(k, (n - 1) as nat) + dot_bit(p.0, p.1)
    }
}

/// The braille spinner is a gapless 3-dot comet in a single cell: frame
/// `k` lights path points `k`, `k - 1` and `k - 2`, which are neighbours.
pub proof fn lemma_braille_comet(k: int)
    requires
        0 <= k < 8,
    ensures
        spec_frames(SpinnerStyle::Braille)[k].len() == 1,
        spec_frames(SpinnerStyle::Braille)[k][0] as int == 0x2800 + cell_bits(k, 3),
{
    reveal_with_fuel(cell_bits, 4);
    if k == 0 {
        reveal_strlit("⠋");
    } else if k == 1 {
        reveal_strlit("⠙");
    } else if k == 2 {
        reveal_strlit("⠸");
    } else if k == 3 {
        reveal_strlit("⢰");
    } else if k == 4 {
        reveal_strlit("⣠");
    } else if k == 5 {
        reveal_strlit("⣄");
    } else if k == 6 {
        reveal_strlit("⡆");
    } else if k == 7 {
        reveal_strlit("⠇");
    }
}

} // verus!
