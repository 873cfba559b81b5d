//! The status line: one segment per visible metric, shown side by side in
//! list mode or one at a time in rotation mode.

use vstd::prelude::*;
use vstd::arithmetic::div_mod::lemma_add_mod_noop_right;
use vstd::string::StringExecFns;

use crate::config::{DisplayMode, TrayConfig};
use crate::level::{default_policies, AlertLevel, Metric, Millisecond, Percent};
use crate::snapshot::{ms_entry, pct_entry, ClassifiedSnapshot, MetricsSnapshot};
use crate::text::{decimal, decimal_text};

verus! {

/// The text shown in rotation mode when no metric is visible.
pub open spec fn fallback_text() -> Seq<char> {
    seq!['\u{2014}']
}

/// The prefix of a segment: the level's icon and a space when icons are on,
/// nothing when they are off.
pub open spec fn icon_prefix(alert: bool, level: AlertLevel) -> Seq<char> {
    if alert {
        level.spec_icon() + " "@
    } else {
        Seq::empty()
    }
}

/// One metric's segment: `<icon> <label> <value><unit>`, or `<label> --`
/// without icon when there is no reading.
pub open spec fn segment(label: Seq<char>, unit: Seq<char>, m: Option<Metric<u64>>, alert: bool) -> Seq<char> {
    match m {
        None => label + " --"@,
        Some(x) => icon_prefix(alert, x.level) + label + " "@ + decimal(x.value as nat) + unit,
    }
}

/// `part` as a one-element list when `shown`, else the empty list.
pub open spec fn shown_if(shown: bool, part: Seq<char>) -> Seq<Seq<char>> {
    if shown {
        seq![part]
    } else {
        Seq::empty()
    }
}

/// The segments of the visible metrics, in the order CPU, memory, network.
pub open spec fn visible_segments(c: TrayConfig, s: ClassifiedSnapshot) -> Seq<Seq<char>> {
    shown_if(c.show_cpu, segment("CPU"@, "%"@, pct_entry(s.cpu), c.is_alert))
        + shown_if(c.show_mem, segment("Mem"@, "%"@, pct_entry(s.mem), c.is_alert))
        + shown_if(c.show_nw, segment("NW"@, "ms"@, ms_entry(s.nw), c.is_alert))
}

/// The number of visible metrics.
pub open spec fn visible_count(c: TrayConfig) -> nat {
    (if c.show_cpu { 1nat } else { 0nat }) + (if c.show_mem { 1nat } else { 0nat }) + (if c.show_nw {
        1nat
    } else {
        0nat
    })
}

/// `parts` joined by single spaces.
pub open spec fn join(parts: Seq<Seq<char>>) -> Seq<char>
    decreases parts.len(),
{
    if parts.len() == 0 {
        Seq::empty()
    } else if parts.len() == 1 {
        parts[0]
    } else {
        join(parts.drop_last()) + " "@ + parts.last()
    }
}

/// The list-mode line.
pub open spec fn list_text(c: TrayConfig, s: ClassifiedSnapshot) -> Seq<char> {
    join(visible_segments(c, s))
}

/// The position shown for `cursor` among `n` items: `cursor` modulo `n`,
/// and 0 when there is nothing to show.
pub open spec fn shown_position(cursor: nat, n: nat) -> nat {
    if n == 0 {
        0
    } else {
        cursor % n
    }
}

/// The cursor after one rotation tick with `n` visible metrics: one step
/// on, modulo `n`, or modulo 1 when none is visible.
pub open spec fn next_cursor(cursor: nat, n: nat) -> nat {
    if n == 0 {
        0
    } else {
        (cursor + 1) % n
    }
}

/// The rotation-mode line: the segment at the cursor, or the fallback
/// glyph when no metric is visible.
pub open spec fn rotation_text(c: TrayConfig, s: ClassifiedSnapshot, cursor: nat) -> Seq<char> {
    let parts = visible_segments(c, s);
    if parts.len() == 0 {
        fallback_text()
    } else {
        parts[shown_position(cursor, parts.len()) as int]
    }
}

/// The line for the preferences' mode.
pub open spec fn title_text(c: TrayConfig, s: ClassifiedSnapshot, cursor: nat) -> Seq<char> {
    match c.mode {
        DisplayMode::List => list_text(c, s),
        DisplayMode::Rotation => rotation_text(c, s, cursor),
    }
}

proof fn lemma_visible_len(c: TrayConfig, s: ClassifiedSnapshot)
    ensures
        visible_segments(c, s).len() == visible_count(c),
{
}

/// The icon shown for `level` under the preferences: none when icons are
/// off.
pub fn icon(cfg: &TrayConfig, level: AlertLevel) -> (r: &'static str)
    ensures
        r@ == (if cfg.is_alert { level.spec_icon() } else { Seq::empty() }),
{
    if cfg.is_alert {
        level.icon()
    } else {
        proof { reveal_strlit(""); }
        ""
    }
}

fn segment_text(cfg: &TrayConfig, label: &str, unit: &str, m: Option<Metric<u64>>) -> (r: String)
    ensures
        r@ == segment(label@, unit@, m, cfg.is_alert),
{
    match m {
        None => {
            let mut t = String::from_str(label);
            t.append(" --");
            t
        },
        Some(x) => {
            let mut t = String::from_str(icon(cfg, x.level));
            if cfg.is_alert {
                t.append(" ");
            }
            t.append(label);
            t.append(" ");
            let digits = decimal_text(x.value);
            t.append(digits.as_str());
            t.append(unit);
            proof {
                assert(t@ =~= icon_prefix(cfg.is_alert, x.level) + label@ + " "@ + decimal(x.value as nat) + unit@);
            }
            t
        },
    }
}

fn pct_value(m: Option<Metric<Percent>>) -> (r: Option<Metric<u64>>)
    ensures
        r == pct_entry(m),
{
    match m {
        Some(x) => Some(Metric { value: x.value.0, level: x.level }),
        None => None,
    }
}

fn ms_value(m: Option<Metric<Millisecond>>) -> (r: Option<Metric<u64>>)
    ensures
        r == ms_entry(m),
{
    match m {
        Some(x) => Some(Metric { value: x.value.0, level: x.level }),
        None => None,
    }
}

/// The segments of the visible metrics, in the order CPU, memory, network.
fn visible_parts(cfg: &TrayConfig, s: &ClassifiedSnapshot) -> (r: Vec<String>)
    ensures
        r@.len() == visible_segments(*cfg, *s).len(),
        forall|i: int| 0 <= i < r@.len() ==> #[trigger] r@[i]@ == visible_segments(*cfg, *s)[i],
{
    let ghost segs = visible_segments(*cfg, *s);
    let ghost a = shown_if(cfg.show_cpu, segment("CPU"@, "%"@, pct_entry(s.cpu), cfg.is_alert));
    let ghost b = shown_if(cfg.show_mem, segment("Mem"@, "%"@, pct_entry(s.mem), cfg.is_alert));
    let mut parts: Vec<String> = Vec::new();
    if cfg.show_cpu {
        parts.push(segment_text(cfg, "CPU", "%", pct_value(s.cpu)));
    }
    assert(parts@.len() == a.len());
    assert(forall|i: int| 0 <= i < parts@.len() ==> #[trigger] parts@[i]@ == a[i]);
    if cfg.show_mem {
        parts.push(segment_text(cfg, "Mem", "%", pct_value(s.mem)));
    }
    assert(parts@.len() == (a + b).len());
    assert(forall|i: int| 0 <= i < parts@.len() ==> #[trigger] parts@[i]@ == (a + b)[i]);
    if cfg.show_nw {
        parts.push(segment_text(cfg, "NW", "ms", ms_value(s.nw)));
    }
    assert(segs == a + b + shown_if(cfg.show_nw, segment("NW"@, "ms"@, ms_entry(s.nw), cfg.is_alert)));
    parts
}

/// `parts` joined by single spaces.
fn join_parts(parts: &Vec<String>) -> (r: String)
    ensures
        r@ == join(parts@.map_values(|p: String| p@)),
{
    let ghost views = parts@.map_values(|p: String| p@);
    let mut out = String::new();
    let mut i: usize = 0;
    while i < parts.len()
        invariant
            i <= parts@.len(),
            views == parts@.map_values(|p: String| p@),
            out@ == join(views.take(i as int)),
        decreases parts@.len() - i,
    {
        proof {
            assert(views.take(i + 1).drop_last() =~= views.take(i as int));
        }
        if i > 0 {
            out.append(" ");
        }
        out.append(parts[i].as_str());
        i = i + 1;
    }
    proof {
        assert(views.take(parts@.len() as int) =~= views);
    }
    out
}

/// The list-mode line: the visible segments joined by single spaces; empty
/// when no metric is visible.
fn format_list(cfg: &TrayConfig, s: &ClassifiedSnapshot) -> (r: String)
    ensures
        r@ == list_text(*cfg, *s),
{
    let parts = visible_parts(cfg, s);
    let out = join_parts(&parts);
    proof {
        assert(parts@.map_values(|p: String| p@) =~= visible_segments(*cfg, *s));
    }
    out
}

/// The rotation-mode line: the visible segment at `cursor` modulo their
/// number, or the fallback glyph when no metric is visible.
fn format_rotation(cfg: &TrayConfig, s: &ClassifiedSnapshot, cursor: usize) -> (r: String)
    ensures
        r@ == rotation_text(*cfg, *s, cursor as nat),
{
    let items = visible_parts(cfg, s);
    if items.len() == 0 {
        proof { reveal_strlit("\u{2014}"); }
        return String::from_str("\u{2014}");
    }
    items[cursor % items.len()].clone()
}

/// The status line for the preferences' mode; in rotation mode it shows the
/// metric at `cursor`. Rendering never moves the cursor: only a rotation
/// tick does.
pub fn format_title(cfg: &TrayConfig, s: &ClassifiedSnapshot, cursor: usize) -> (r: String)
    ensures
        r@ == title_text(*cfg, *s, cursor as nat),
{
    match cfg.mode {
        DisplayMode::List => format_list(cfg, s),
        DisplayMode::Rotation => format_rotation(cfg, s, cursor),
    }
}

/// The number of visible metrics.
pub fn visible_metric_count(cfg: &TrayConfig) -> (r: usize)
    ensures
        r == visible_count(*cfg),
{
    let mut n: usize = 0;
    if cfg.show_cpu {
        n = n + 1;
    }
    if cfg.show_mem {
        n = n + 1;
    }
    if cfg.show_nw {
        n = n + 1;
    }
    n
}

/// The cursor after one rotation tick: one step on, modulo the number of
/// visible metrics (modulo 1 when none is visible).
pub fn advance_rotation(cursor: usize, cfg: &TrayConfig) -> (r: usize)
    ensures
        r == next_cursor(cursor as nat, visible_count(*cfg)),
{
    let n = visible_metric_count(cfg);
    if n == 0 {
        return 0;
    }
    let m = cursor % n;
    proof {
        lemma_add_mod_noop_right(1, cursor as int, n as int);
    }
    (m + 1) % n
}

/// The render loop's own state: the rotation cursor.
#[derive(Clone, Copy, Debug)]
pub struct TrayRenderer {
    pub cursor: usize,
}

impl TrayRenderer {
    /// A renderer whose cursor is at the first visible metric.
    pub fn new() -> (r: Self)
        ensures
            r.cursor == 0,
    {
        TrayRenderer { cursor: 0 }
    }

    /// On a render tick: classifies the snapshot under the default policies
    /// and returns the status line for the preferences. The cursor is only
    /// read.
    pub fn on_render_tick(&self, cfg: &TrayConfig, snap: &MetricsSnapshot) -> (r: String)
        ensures
            exists|cs: ClassifiedSnapshot|
                cs.matches(*snap, default_policies()) && r@ == title_text(*cfg, cs, self.cursor as nat),
    {
        let cs = ClassifiedSnapshot::new(*snap);
        format_title(cfg, &cs, self.cursor)
    }

    /// On a rotation tick, whatever the mode: moves the cursor one step on.
    pub fn on_rotation_tick(&mut self, cfg: &TrayConfig)
        ensures
            final(self).cursor == next_cursor(old(self).cursor as nat, visible_count(*cfg)),
    {
        self.cursor = advance_rotation(self.cursor, cfg);
    }
}

/// The cursor after `k` rotation ticks from `cursor` with `n` visible
/// metrics.
pub open spec fn cursor_after_ticks(cursor: nat, n: nat, k: nat) -> nat
    decreases k,
{
    if k == 0 {
        cursor
    } else {
        next_cursor(cursor_after_ticks(cursor, n, (k - 1) as nat), n)
    }
}

/// With exactly two visible metrics, successive rotation ticks from the
/// first one move the cursor 0, 1, 0, 1, ...
pub proof fn lemma_rotation_alternates(c: TrayConfig, k: nat)
    requires
        visible_count(c) == 2,
    ensures
        cursor_after_ticks(0, visible_count(c), k) == k % 2,
    decreases k,
{
    if k > 0 {
        lemma_rotation_alternates(c, (k - 1) as nat);
    }
}

/// Once only one metric is visible, whatever the cursor was (say 1, left
/// over from a rotation over two), rotation mode shows that metric's
/// segment, and a rotation tick brings the cursor to 0.
pub proof fn lemma_rotation_single_visible(c: TrayConfig, s: ClassifiedSnapshot, cursor: nat)
    requires
        visible_count(c) == 1,
    ensures
        visible_segments(c, s).len() == 1,
        rotation_text(c, s, cursor) == visible_segments(c, s)[0],
        next_cursor(cursor, visible_count(c)) == 0,
{
    lemma_visible_len(c, s);
}

} // verus!
