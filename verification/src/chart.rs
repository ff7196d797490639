//! Deterministic chart rendering: a pure mapping from a history snapshot and
//! a canvas size to an ordered list of drawing commands. The host executes
//! the commands on its surface; nothing here touches a toolkit.

use vstd::arithmetic::div_mod::{lemma_div_by_multiple, lemma_div_is_ordered};
use vstd::arithmetic::mul::lemma_mul_inequality;
use vstd::prelude::*;

verus! {

/// An RGB color with 8-bit channels; the host scales them to its drawing API.
#[derive(Clone, Copy, PartialEq, Eq, Structural, Debug)]
pub struct Rgb {
    pub r: u8,
    pub g: u8,
    pub b: u8,
}

/// A point in pixel coordinates, origin at the top-left of the surface.
#[derive(Clone, Copy, PartialEq, Eq, Structural, Debug)]
pub struct Point {
    pub x: i64,
    pub y: i64,
}

/// One drawing command. A renderer run yields the commands in drawing order;
/// executing them in that order repaints the full surface.
#[derive(PartialEq, Eq, Debug)]
pub enum DrawCmd {
    /// Fill the whole surface with `color`.
    Fill { color: Rgb },
    /// Stroke the open polyline through `points`.
    Path { points: Vec<Point>, color: Rgb, stroke_width: u8 },
    /// Draw the chart title at (`x`, `y`).
    Title { x: i64, y: i64, text: String },
    /// Draw the numeric label of an axis tick at (`x`, `y`).
    TickLabel { x: i64, y: i64, value: i64 },
}

pub open spec fn spec_black() -> Rgb {
    Rgb { r: 0, g: 0, b: 0 }
}

/// Background of a chart that is not highlighted.
pub open spec fn spec_neutral_background() -> Rgb {
    Rgb { r: 255, g: 255, b: 255 }
}

/// Background tint of a highlighted chart.
pub open spec fn spec_alert_tint() -> Rgb {
    Rgb { r: 255, g: 204, b: 230 }
}

/// The alert predicate of the dashboard: the chart titled "BUILDING count"
/// is highlighted exactly when its most recent sample exceeds 15. An empty
/// snapshot never highlights.
pub open spec fn spec_highlight(title: Seq<char>, snap: Seq<i64>) -> bool {
    title == "BUILDING count"@ && snap.len() > 0 && snap.last() > 15
}

pub open spec fn spec_background(title: Seq<char>, snap: Seq<i64>) -> Rgb {
    if spec_highlight(title, snap) {
        spec_alert_tint()
    } else {
        spec_neutral_background()
    }
}

/// The vertical scale of a chart: the largest sample, floored at 1 so that
/// scaling never divides by zero (an empty snapshot scales against 1).
pub open spec fn spec_max_value(s: Seq<i64>) -> int
    decreases s.len(),
{
    if s.len() == 0 {
        1
    } else {
        let rest = spec_max_value(s.drop_last());
        if s.last() > rest {
            s.last() as int
        } else {
            rest
        }
    }
}

/// The scale is at least 1 and bounds every sample of a non-negative
/// snapshot.
pub proof fn lemma_max_value_bounds(s: Seq<i64>)
    ensures
        1 <= spec_max_value(s),
        forall|i: int| 0 <= i < s.len() ==> #[trigger] s[i] <= spec_max_value(s),
    decreases s.len(),
{
    if s.len() > 0 {
        lemma_max_value_bounds(s.drop_last());
        assert forall|i: int| 0 <= i < s.len() implies #[trigger] s[i] <= spec_max_value(s) by {
            if i < s.len() - 1 {
                assert(s.drop_last()[i] == s[i]);
            }
        }
    }
}

/// The labeled value of tick `i` of a chart whose full scale is `max_value`:
/// `max_value * i / 5` (tick 0 is the zero baseline, tick 5 the full scale).
pub open spec fn spec_tick_value(max_value: int, i: int) -> int {
    (max_value * i) / 5
}

/// The vertical pixel of `value` on a chart of height `height` whose full
/// scale is `max_value`: linear interpolation between the baseline at
/// `height - 20` and the top of the plot area at `20`.
pub open spec fn spec_scale_y(value: int, max_value: int, height: int) -> int {
    height - 20 - (value * (height - 40)) / max_value
}

/// The vertical pixel of tick `i`.
pub open spec fn spec_tick_y(max_value: int, height: int, i: int) -> int {
    spec_scale_y(spec_tick_value(max_value, i), max_value, height)
}

/// Horizontal spacing between consecutive polyline points: the plot width
/// divided by the number of samples (at least 1).
pub open spec fn spec_step(width: int, n: nat) -> int {
    (width - 40) / (if n == 0 {
        1
    } else {
        n as int
    })
}

/// The horizontal pixel of sample `i` of `n`.
pub open spec fn spec_point_x(width: int, n: nat, i: int) -> int {
    30 + i * spec_step(width, n)
}

/// The tick mark of tick `i`: a short horizontal stroke just left of the
/// vertical axis, at the tick's height.
pub open spec fn is_tick_mark(cmd: DrawCmd, max_value: int, height: int, i: int) -> bool {
    cmd matches DrawCmd::Path { points, color, stroke_width }
        && points@.len() == 2
        && points@[0].x == 25
        && points@[0].y == spec_tick_y(max_value, height, i)
        && points@[1].x == 30
        && points@[1].y == spec_tick_y(max_value, height, i)
        && color == spec_black()
        && stroke_width == 1
}

/// The numeric label of tick `i`, drawn slightly below the tick's height at
/// the left edge.
pub open spec fn is_tick_label(cmd: DrawCmd, max_value: int, height: int, i: int) -> bool {
    cmd matches DrawCmd::TickLabel { x, y, value }
        && x == 5
        && y == spec_tick_y(max_value, height, i) + 4
        && value == spec_tick_value(max_value, i)
}

/// The three commands every rendering starts with: the background fill, the
/// L-shaped axis (margins: 30 left, 20 bottom, 10 right, 10 top), and the
/// title anchored near the top-left of the plot area.
pub open spec fn header_cmds(
    cmds: Seq<DrawCmd>,
    title: Seq<char>,
    snap: Seq<i64>,
    width: int,
    height: int,
) -> bool {
    &&& cmds.len() >= 3
    &&& (cmds[0] matches DrawCmd::Fill { color } && color == spec_background(title, snap))
    &&& (cmds[1] matches DrawCmd::Path { points, color, stroke_width } && points@.len() == 3
        && points@[0].x == 30 && points@[0].y == 10 && points@[1].x == 30 && points@[1].y
        == height - 20 && points@[2].x == width - 10 && points@[2].y == height - 20 && color
        == spec_black() && stroke_width == 1)
    &&& (cmds[2] matches DrawCmd::Title { x, y, text } && x == 40 && y == 20 && text@ == title)
}

/// Whether the chart titled `title` must be drawn with the alert background
/// for the given snapshot.
pub fn highlight(title: &String, snapshot: &Vec<i64>) -> (r: bool)
    ensures
        r == spec_highlight(title@, snapshot@),
{
    let alert_title = String::from_str("BUILDING count");
    if *title == alert_title {
        if snapshot.len() > 0 {
            snapshot[snapshot.len() - 1] > 15
        } else {
            false
        }
    } else {
        false
    }
}

/// The vertical scale of `snapshot`: its largest sample, floored at 1.
pub fn max_value(snapshot: &Vec<i64>) -> (m: i64)
    ensures
        m == spec_max_value(snapshot@),
{
    let mut m: i64 = 1;
    let mut i: usize = 0;
    while i < snapshot.len()
        invariant
            i <= snapshot@.len(),
            m == spec_max_value(snapshot@.take(i as int)),
        decreases snapshot@.len() - i,
    {
        let v = snapshot[i];
        proof {
            assert(snapshot@.take(i as int + 1).drop_last() =~= snapshot@.take(i as int));
            assert(snapshot@.take(i as int + 1).last() == snapshot@[i as int]);
        }
        if v > m {
            m = v;
        }
        i = i + 1;
    }
    proof {
        assert(snapshot@.take(snapshot@.len() as int) =~= snapshot@);
    }
    m
}

/// The labeled value of tick `i`.
pub fn tick_value(max_value: i64, i: usize) -> (v: i64)
    requires
        1 <= max_value,
        i <= 5,
    ensures
        v == spec_tick_value(max_value as int, i as int),
        0 <= v <= max_value,
{
    proof {
        assert((max_value as int) * (i as int) <= 0x7fff_ffff_ffff_ffff * 5) by (nonlinear_arith)
            requires
                0 <= i as int <= 5,
                0 <= max_value as int <= 0x7fff_ffff_ffff_ffff,
        ;
    }
    let num: u128 = (max_value as u128) * (i as u128);
    let q: u128 = num / 5;
    proof {
        lemma_mul_inequality(i as int, 5, max_value as int);
        lemma_div_is_ordered((max_value as int) * (i as int), (max_value as int) * 5, 5);
        lemma_div_by_multiple(max_value as int, 5);
    }
    q as i64
}

/// The vertical pixel of a sample of `value` on a chart of height `height`
/// whose full scale is `max_value`.
pub fn scale_y(value: i64, max_value: i64, height: i64) -> (y: i64)
    requires
        1 <= max_value,
        0 <= value <= max_value,
        40 <= height <= 100_000,
    ensures
        y == spec_scale_y(value as int, max_value as int, height as int),
        20 <= y <= height - 20,
{
    proof {
        assert(0 <= (value as int) * ((height - 40) as int) <= 0x7fff_ffff_ffff_ffff * 100_000)
            by (nonlinear_arith)
            requires
                0 <= value as int <= 0x7fff_ffff_ffff_ffff,
                0 <= (height - 40) as int <= 100_000,
        ;
    }
    let plot_h: u128 = ((height - 40) as u64) as u128;
    let num: u128 = (value as u128) * plot_h;
    let q: u128 = num / (max_value as u128);
    proof {
        lemma_mul_inequality(value as int, max_value as int, (height - 40) as int);
        lemma_div_is_ordered(
            (value as int) * ((height - 40) as int),
            (max_value as int) * ((height - 40) as int),
            max_value as int,
        );
        lemma_div_by_multiple((height - 40) as int, max_value as int);
    }
    height - 20 - (q as i64)
}

/// Horizontal spacing between consecutive polyline points.
pub fn point_step(width: i64, n: usize) -> (s: i64)
    requires
        40 <= width <= 100_000,
        n <= 100_000,
    ensures
        s == spec_step(width as int, n as nat),
        0 <= s <= width - 40,
{
    let plot_w: u64 = (width - 40) as u64;
    let divisor: u64 = if n == 0 {
        1
    } else {
        n as u64
    };
    let s64: u64 = plot_w / divisor;
    proof {
        lemma_div_is_ordered(0, plot_w as int, divisor as int);
        assert((plot_w as int) / (divisor as int) <= plot_w as int) by (nonlinear_arith)
            requires
                1 <= divisor as int,
                0 <= plot_w as int,
        ;
    }
    s64 as i64
}

/// Renders one chart: the background (alert tint exactly when the highlight
/// predicate holds), the axis, the title, six axis ticks labeled
/// `max_value * i / 5` for `i` in `0..=5`, and the polyline through all
/// samples, scaled so the largest sample reaches the top of the plot area.
/// An empty snapshot degrades to background, axis, title and ticks with an
/// empty polyline.
#[verifier::loop_isolation(false)]
pub fn render(
    snapshot: &Vec<i64>,
    width: i64,
    height: i64,
    series_color: Rgb,
    title: &String,
) -> (cmds: Vec<DrawCmd>)
    requires
        40 <= width <= 100_000,
        40 <= height <= 100_000,
        snapshot@.len() <= 100_000,
        forall|i: int| 0 <= i < snapshot@.len() ==> 0 <= #[trigger] snapshot@[i],
    ensures
        cmds@.len() == 16,
        header_cmds(cmds@, title@, snapshot@, width as int, height as int),
        forall|i: int| 0 <= i < 6 ==> is_tick_mark(
            #[trigger] cmds@[3 + 2 * i],
            spec_max_value(snapshot@),
            height as int,
            i,
        ),
        forall|i: int| 0 <= i < 6 ==> is_tick_label(
            #[trigger] cmds@[4 + 2 * i],
            spec_max_value(snapshot@),
            height as int,
            i,
        ),
        cmds@[15] matches DrawCmd::Path { points, color, stroke_width } && color == series_color
            && stroke_width == 2 && points@.len() == snapshot@.len() && (forall|j: int|
            0 <= j < snapshot@.len() ==> (#[trigger] points@[j]).x == spec_point_x(
                width as int,
                snapshot@.len(),
                j,
            ) && points@[j].y == spec_scale_y(
                snapshot@[j] as int,
                spec_max_value(snapshot@),
                height as int,
            )),
{
    let maxv = max_value(snapshot);
    proof {
        lemma_max_value_bounds(snapshot@);
    }
    let mut cmds: Vec<DrawCmd> = Vec::new();

    let hl = highlight(title, snapshot);
    let bg = if hl {
        Rgb { r: 255, g: 204, b: 230 }
    } else {
        Rgb { r: 255, g: 255, b: 255 }
    };
    cmds.push(DrawCmd::Fill { color: bg });

    let mut axis: Vec<Point> = Vec::new();
    axis.push(Point { x: 30, y: 10 });
    axis.push(Point { x: 30, y: height - 20 });
    axis.push(Point { x: width - 10, y: height - 20 });
    cmds.push(DrawCmd::Path { points: axis, color: Rgb { r: 0, g: 0, b: 0 }, stroke_width: 1 });

    cmds.push(DrawCmd::Title { x: 40, y: 20, text: title.clone() });

    let mut i: usize = 0;
    while i < 6
        invariant
            i <= 6,
            cmds@.len() == 3 + 2 * i,
            header_cmds(cmds@, title@, snapshot@, width as int, height as int),
            forall|j: int| 0 <= j < i ==> is_tick_mark(
                #[trigger] cmds@[3 + 2 * j],
                spec_max_value(snapshot@),
                height as int,
                j,
            ),
            forall|j: int| 0 <= j < i ==> is_tick_label(
                #[trigger] cmds@[4 + 2 * j],
                spec_max_value(snapshot@),
                height as int,
                j,
            ),
        decreases 6 - i,
    {
        let tv = tick_value(maxv, i);
        let y = scale_y(tv, maxv, height);
        let mut mark: Vec<Point> = Vec::new();
        mark.push(Point { x: 25, y });
        mark.push(Point { x: 30, y });
        cmds.push(DrawCmd::Path { points: mark, color: Rgb { r: 0, g: 0, b: 0 }, stroke_width: 1 });
        cmds.push(DrawCmd::TickLabel { x: 5, y: y + 4, value: tv });
        i = i + 1;
    }

    let step = point_step(width, snapshot.len());
    let mut pts: Vec<Point> = Vec::new();
    let mut j: usize = 0;
    while j < snapshot.len()
        invariant
            j <= snapshot@.len(),
            pts@.len() == j,
            forall|k: int| 0 <= k < j ==> (#[trigger] pts@[k]).x == spec_point_x(
                width as int,
                snapshot@.len(),
                k,
            ) && pts@[k].y == spec_scale_y(
                snapshot@[k] as int,
                spec_max_value(snapshot@),
                height as int,
            ),
        decreases snapshot@.len() - j,
    {
        let v = snapshot[j];
        let y = scale_y(v, maxv, height);
        proof {
            assert(0 <= (j as int) * (step as int) <= 100_000 * 100_000) by (nonlinear_arith)
                requires
                    0 <= j as int <= 100_000,
                    0 <= step as int <= 100_000,
            ;
        }
        let x: i64 = 30 + (j as i64) * step;
        pts.push(Point { x, y });
        j = j + 1;
    }
    cmds.push(DrawCmd::Path { points: pts, color: series_color, stroke_width: 2 });
    cmds
}

} // verus!
