//! Display-space analyzer graphs: which curves are drawn, how, and from which
//! bins.

use vstd::prelude::*;

use crate::text::decimal_text;

verus! {

/// Fewest points of a drawn curve.
pub const MIN_DISPLAY_POINTS: usize = 256;

/// Most points of a drawn curve.
pub const MAX_DISPLAY_POINTS: usize = 2048;

/// How strongly a drawn curve is smoothed.
#[derive(Clone, Copy, PartialEq, Eq, Structural, Debug)]
pub enum DisplaySmoothing {
    Off,
    Light,
    Medium,
    Heavy,
}

impl DisplaySmoothing {
    /// The strengths, in the order they are offered.
    pub const ALL: [DisplaySmoothing; 4] = [
        DisplaySmoothing::Off,
        DisplaySmoothing::Light,
        DisplaySmoothing::Medium,
        DisplaySmoothing::Heavy,
    ];

    /// The name of the strength.
    pub fn label(self) -> (label: &'static str)
        ensures
            label@ == match self {
                DisplaySmoothing::Off => "Off"@,
                DisplaySmoothing::Light => "Light"@,
                DisplaySmoothing::Medium => "Med"@,
                DisplaySmoothing::Heavy => "Heavy"@,
            },
    {
        match self {
            DisplaySmoothing::Off => "Off",
            DisplaySmoothing::Light => "Light",
            DisplaySmoothing::Medium => "Med",
            DisplaySmoothing::Heavy => "Heavy",
        }
    }

    /// How many neighbours on each side take part.
    pub open spec fn reach(self) -> nat {
        match self {
            DisplaySmoothing::Off => 0,
            DisplaySmoothing::Light => 2,
            DisplaySmoothing::Medium => 4,
            DisplaySmoothing::Heavy => 8,
        }
    }

    /// How many neighbours on each side take part.
    pub fn radius(self) -> (radius: usize)
        ensures
            radius == self.reach(),
    {
        match self {
            DisplaySmoothing::Off => 0,
            DisplaySmoothing::Light => 2,
            DisplaySmoothing::Medium => 4,
            DisplaySmoothing::Heavy => 8,
        }
    }

    /// Whether a curve of a length is smoothed at all.
    pub fn smooths(self, len: usize) -> (smooths: bool)
        ensures
            smooths == (self != DisplaySmoothing::Off && len >= 3),
    {
        self.radius() > 0 && len >= 3
    }
}

impl Default for DisplaySmoothing {
    fn default() -> (smoothing: DisplaySmoothing)
        ensures
            smoothing == DisplaySmoothing::Light,
    {
        DisplaySmoothing::Light
    }
}

/// How curves are drawn.
#[derive(Clone, Copy, PartialEq, Eq, Structural, Debug)]
pub enum GraphStyle {
    Fill,
    Line,
    FillAndLine,
    Overlay,
}

impl GraphStyle {
    /// The styles, in the order they are offered.
    pub const ALL: [GraphStyle; 4] = [
        GraphStyle::Fill,
        GraphStyle::Line,
        GraphStyle::FillAndLine,
        GraphStyle::Overlay,
    ];

    /// The name of the style.
    pub fn label(self) -> (label: &'static str)
        ensures
            label@ == match self {
                GraphStyle::Fill => "Fill"@,
                GraphStyle::Line => "Line"@,
                GraphStyle::FillAndLine => "Both"@,
                GraphStyle::Overlay => "Cmp"@,
            },
    {
        match self {
            GraphStyle::Fill => "Fill",
            GraphStyle::Line => "Line",
            GraphStyle::FillAndLine => "Both",
            GraphStyle::Overlay => "Cmp",
        }
    }

    /// Whether curves are filled.
    pub fn fill(self) -> (fill: bool)
        ensures
            fill == (self != GraphStyle::Line),
    {
        match self {
            GraphStyle::Line => false,
            _ => true,
        }
    }

    /// Whether curves are outlined.
    pub fn line(self) -> (line: bool)
        ensures
            line == (self != GraphStyle::Fill),
    {
        match self {
            GraphStyle::Fill => false,
            _ => true,
        }
    }

    /// Whether curves are laid over each other to be compared.
    pub fn overlay(self) -> (overlay: bool)
        ensures
            overlay == (self == GraphStyle::Overlay),
    {
        match self {
            GraphStyle::Overlay => true,
            _ => false,
        }
    }
}

impl Default for GraphStyle {
    fn default() -> (style: GraphStyle)
        ensures
            style == GraphStyle::FillAndLine,
    {
        GraphStyle::FillAndLine
    }
}

// ----------------------------------------------------------------- layers

/// What a curve shows.
#[derive(Clone, Copy, PartialEq, Eq, Structural, Debug)]
pub enum LayerTone {
    Input,
    Average,
    Hold,
    Profile,
    Floor,
}

impl LayerTone {
    /// The name of the curve.
    pub fn label(self) -> (label: &'static str)
        ensures
            label@ == match self {
                LayerTone::Input => "In"@,
                LayerTone::Average => "Avg"@,
                LayerTone::Hold => "Hold"@,
                LayerTone::Profile => "Profile"@,
                LayerTone::Floor => "Floor"@,
            },
    {
        match self {
            LayerTone::Input => "In",
            LayerTone::Average => "Avg",
            LayerTone::Hold => "Hold",
            LayerTone::Profile => "Profile",
            LayerTone::Floor => "Floor",
        }
    }
}

/// A curve of a plot.
pub struct SpectrumLayer<T> {
    pub tone: LayerTone,
    pub db: Vec<T>,
    pub line: bool,
    pub fill: bool,
}

/// How a curve is painted.
#[derive(Clone, Copy, PartialEq, Eq, Structural, Debug)]
pub struct LayerPaint {
    /// Which curve of the plot this is.
    pub index: usize,
    pub fill: bool,
    /// The fill is lighter than usual, so that the first curve stays readable.
    pub dimmed: bool,
    pub line: bool,
}

/// How the curve at `index` is painted.
pub open spec fn layer_paint<T>(style: GraphStyle, index: int, layer: SpectrumLayer<T>) -> LayerPaint {
    let overlay = style == GraphStyle::Overlay;
    let fill = layer.fill && style != GraphStyle::Line && (index == 0 || overlay);
    LayerPaint {
        index: index as usize,
        fill,
        dimmed: fill && overlay && index > 0,
        line: layer.line && (style != GraphStyle::Fill || index > 0),
    }
}

/// How the curves of a plot are painted, in order; empty ones are not.
pub open spec fn painted<T>(style: GraphStyle, layers: Seq<SpectrumLayer<T>>) -> Seq<LayerPaint>
    decreases layers.len(),
{
    if layers.len() == 0 {
        Seq::empty()
    } else {
        let before = painted(style, layers.drop_last());
        if layers.last().db@.len() == 0 {
            before
        } else {
            before.push(layer_paint(style, layers.len() - 1, layers.last()))
        }
    }
}

/// How the curves of a plot are painted, in order; empty ones are not.
pub fn paint_plan<T>(style: GraphStyle, layers: &Vec<SpectrumLayer<T>>) -> (plan: Vec<LayerPaint>)
    ensures
        plan@ == painted(style, layers@),
{
    let mut plan: Vec<LayerPaint> = Vec::new();
    let mut index: usize = 0;
    proof {
        assert(layers@.take(0) =~= Seq::empty());
    }
    while index < layers.len()
        invariant
            index <= layers@.len(),
            plan@ == painted(style, layers@.take(index as int)),
        decreases layers@.len() - index,
    {
        proof {
            assert(layers@.take(index as int + 1).drop_last() =~= layers@.take(index as int));
        }
        let layer = &layers[index];
        if layer.db.len() > 0 {
            let overlay = style.overlay();
            let fill = layer.fill && style.fill() && (index == 0 || overlay);
            plan.push(
                LayerPaint {
                    index,
                    fill,
                    dimmed: fill && overlay && index > 0,
                    line: layer.line && (style.line() || overlay || index > 0),
                },
            );
        }
        index += 1;
    }
    proof {
        assert(layers@.take(index as int) =~= layers@);
    }
    plan
}

// ------------------------------------------------------------------- bins

/// How many points of a curve a scaled width is drawn with.
pub fn display_points(scaled_width: usize) -> (points: usize)
    ensures
        points == if scaled_width < MIN_DISPLAY_POINTS {
            MIN_DISPLAY_POINTS
        } else if scaled_width > MAX_DISPLAY_POINTS {
            MAX_DISPLAY_POINTS
        } else {
            scaled_width
        },
{
    if scaled_width < MIN_DISPLAY_POINTS {
        MIN_DISPLAY_POINTS
    } else if scaled_width > MAX_DISPLAY_POINTS {
        MAX_DISPLAY_POINTS
    } else {
        scaled_width
    }
}

/// What a point of a curve is made from.
#[derive(Clone, Copy, PartialEq, Eq, Structural, Debug)]
pub enum BinPlan {
    /// A value between two bins.
    Interpolate,
    /// The highest of several bins, so that resonances survive.
    Peak { start: usize, end: usize },
}

/// What a point of a curve is made from, given the bins it starts and ends at.
pub fn bin_plan(first: usize, end: usize, bins: usize) -> (plan: BinPlan)
    requires
        bins > 0,
    ensures
        ({
            let from = if first < bins - 1 {
                first as int
            } else {
                bins - 1
            };
            let until = if end < bins {
                end as int
            } else {
                bins as int
            };
            plan == if until <= from + 1 {
                BinPlan::Interpolate
            } else {
                BinPlan::Peak { start: from as usize, end: until as usize }
            }
        }),
{
    let from: usize = if first < bins - 1 { first } else { bins - 1 };
    let until: usize = if end < bins { end } else { bins };
    if until <= from + 1 {
        BinPlan::Interpolate
    } else {
        BinPlan::Peak { start: from, end: until }
    }
}

/// The four bins that a value between bin `i` and the next is made from.
pub fn interp_taps(i: usize, len: usize) -> (taps: (usize, usize, usize, usize))
    requires
        i < len,
    ensures
        taps.0 == if i == 0 {
            0
        } else {
            i - 1
        },
        taps.1 == i,
        taps.2 == if i + 1 < len {
            i + 1
        } else {
            i as int
        },
        taps.3 == if i + 2 < len {
            i + 2
        } else {
            len - 1
        },
{
    let last: usize = len - 1;
    (
        if i == 0 {
            0
        } else {
            i - 1
        },
        i,
        if i < last {
            i + 1
        } else {
            i
        },
        if i < last && i + 1 < last {
            i + 2
        } else {
            last
        },
    )
}

/// The value that tap `k` of a smoothing kernel reads for the point at `i`:
/// the ends of the curve are held.
pub fn kernel_tap(i: usize, k: usize, radius: usize, len: usize) -> (tap: usize)
    requires
        i < len,
        k <= 2 * radius,
        radius <= 8,
    ensures
        tap < len,
        tap == if i + k < radius {
            0
        } else if i + k - radius > len - 1 {
            len - 1
        } else {
            i + k - radius
        },
{
    if k < radius {
        let back: usize = radius - k;
        if i < back {
            0
        } else {
            i - back
        }
    } else {
        let ahead: usize = k - radius;
        if ahead > len - 1 - i {
            len - 1
        } else {
            i + ahead
        }
    }
}

// ------------------------------------------------------------------ ticks

/// The frequencies marked on the axis of a plot, in hertz.
pub open spec fn tick_hz() -> Seq<u32> {
    seq![20u32, 50, 100, 200, 500, 1_000, 2_000, 5_000, 10_000, 20_000]
}

/// The frequencies marked on the axis of a plot, with their labels.
pub fn frequency_ticks() -> (ticks: Vec<(u32, String)>)
    ensures
        ticks@.len() == tick_hz().len(),
        forall|i: int|
            0 <= i < ticks@.len() ==> (#[trigger] ticks@[i]).0 == tick_hz()[i] && ticks@[i].1@
                == crate::canvas::hz_text(tick_hz()[i]),
{
    let table: [u32; 10] = [20, 50, 100, 200, 500, 1_000, 2_000, 5_000, 10_000, 20_000];
    let mut ticks: Vec<(u32, String)> = Vec::new();
    let mut i: usize = 0;
    proof {
        assert(table@ =~= tick_hz());
    }
    while i < 10
        invariant
            table@ == tick_hz(),
            i <= 10,
            ticks@.len() == i,
            forall|j: int|
                0 <= j < ticks@.len() ==> (#[trigger] ticks@[j]).0 == tick_hz()[j]
                    && ticks@[j].1@ == crate::canvas::hz_text(tick_hz()[j]),
        decreases 10 - i,
    {
        let hz: u32 = table[i];
        let label = if hz >= 1000 {
            decimal_text((hz / 1000) as u64).concat("k")
        } else {
            decimal_text(hz as u64)
        };
        ticks.push((hz, label));
        i += 1;
    }
    ticks
}

/// A level marked on the axis of a plot.
pub struct LevelTick {
    /// Decibels below full scale.
    pub below: u32,
    pub label: String,
    /// The line of the grid stands out.
    pub major: bool,
}

/// The levels marked on the axis of a plot, in decibels below full scale.
pub open spec fn tick_levels() -> Seq<u32> {
    seq![0u32, 12, 24, 48, 72, 96]
}

/// The label of a level.
pub open spec fn level_text(below: u32) -> Seq<char> {
    if below == 0 {
        "0"@
    } else {
        "-"@ + crate::text::decimal(below as nat)
    }
}

/// The levels marked on the axis of a plot.
pub fn level_ticks() -> (ticks: Vec<LevelTick>)
    ensures
        ticks@.len() == tick_levels().len(),
        forall|i: int|
            0 <= i < ticks@.len() ==> {
                &&& (#[trigger] ticks@[i]).below == tick_levels()[i]
                &&& ticks@[i].label@ == level_text(tick_levels()[i])
                &&& ticks@[i].major == (tick_levels()[i] == 0 || tick_levels()[i] == 24
                    || tick_levels()[i] == 48)
            },
{
    let table: [u32; 6] = [0, 12, 24, 48, 72, 96];
    let mut ticks: Vec<LevelTick> = Vec::new();
    let mut i: usize = 0;
    proof {
        assert(table@ =~= tick_levels());
    }
    while i < 6
        invariant
            table@ == tick_levels(),
            i <= 6,
            ticks@.len() == i,
            forall|j: int|
                0 <= j < ticks@.len() ==> {
                    &&& (#[trigger] ticks@[j]).below == tick_levels()[j]
                    &&& ticks@[j].label@ == level_text(tick_levels()[j])
                    &&& ticks@[j].major == (tick_levels()[j] == 0 || tick_levels()[j] == 24
                        || tick_levels()[j] == 48)
                },
        decreases 6 - i,
    {
        let below: u32 = table[i];
        let label = if below == 0 {
            "0".to_owned()
        } else {
            "-".to_owned().concat(&decimal_text(below as u64))
        };
        ticks.push(LevelTick { below, label, major: below == 0 || below == 24 || below == 48 });
        i += 1;
    }
    ticks
}

// ------------------------------------------------------------------- laws

/// A curve behind the first is outlined even where the style only fills, so
/// that it can be told apart.
pub proof fn law_later_curves_are_always_outlined<T>(
    style: GraphStyle,
    index: int,
    layer: SpectrumLayer<T>,
)
    requires
        index > 0,
        layer.line,
    ensures
        layer_paint(style, index, layer).line,
{
}

/// Without comparing, only the first curve is filled.
pub proof fn law_only_the_first_curve_is_filled_without_comparing<T>(
    style: GraphStyle,
    index: int,
    layer: SpectrumLayer<T>,
)
    requires
        style != GraphStyle::Overlay,
        index > 0,
    ensures
        !layer_paint(style, index, layer).fill,
{
}

/// Every curve with values is painted, and no other is; the curves are painted
/// in order, each of them once.
pub proof fn law_painted_curves_have_values<T>(style: GraphStyle, layers: Seq<SpectrumLayer<T>>, i: int)
    requires
        0 <= i < layers.len() <= usize::MAX,
    ensures
        (layers[i].db@.len() > 0) == painted(style, layers).contains(
            layer_paint(style, i, layers[i]),
        ),
        forall|k: int, l: int|
            0 <= k < l < painted(style, layers).len() ==> (#[trigger] painted(
                style,
                layers,
            )[k]).index < (#[trigger] painted(style, layers)[l]).index,
    decreases layers.len(),
{
    let front = layers.drop_last();
    let before = painted(style, front);
    let plan = painted(style, layers);
    let paint = layer_paint(style, i, layers[i]);
    lemma_painted_indices(style, layers);
    if i < front.len() {
        law_painted_curves_have_values(style, front, i);
        assert(front[i] == layers[i]);
        if before.contains(paint) {
            let k = choose|k: int| 0 <= k < before.len() && before[k] == paint;
            assert(plan[k] == paint);
        }
        if plan.contains(paint) {
            let k = choose|k: int| 0 <= k < plan.len() && plan[k] == paint;
            if k < before.len() {
                assert(before[k] == paint);
            } else {
                assert(plan[k].index == layers.len() - 1);
            }
        }
    } else {
        if front.len() > 0 {
            law_painted_curves_have_values(style, front, 0);
        }
        if layers[i].db@.len() > 0 {
            assert(plan[plan.len() - 1] == paint);
        } else if plan.contains(paint) {
            lemma_painted_indices(style, front);
            let k = choose|k: int| 0 <= k < plan.len() && plan[k] == paint;
            assert(before[k] == paint);
        }
    }
}

proof fn lemma_painted_indices<T>(style: GraphStyle, layers: Seq<SpectrumLayer<T>>)
    requires
        layers.len() <= usize::MAX,
    ensures
        forall|k: int|
            0 <= k < painted(style, layers).len() ==> (#[trigger] painted(
                style,
                layers,
            )[k]).index < layers.len(),
        forall|k: int, l: int|
            0 <= k < l < painted(style, layers).len() ==> (#[trigger] painted(
                style,
                layers,
            )[k]).index < (#[trigger] painted(style, layers)[l]).index,
    decreases layers.len(),
{
    if layers.len() > 0 {
        let before = painted(style, layers.drop_last());
        let plan = painted(style, layers);
        lemma_painted_indices(style, layers.drop_last());
        assert forall|k: int| 0 <= k < plan.len() implies (#[trigger] plan[k]).index
            < layers.len() by {
            if k < before.len() {
                assert(plan[k] == before[k]);
            }
        }
        assert forall|k: int, l: int| 0 <= k < l < plan.len() implies (#[trigger] plan[k]).index
            < (#[trigger] plan[l]).index by {
            assert(plan[k] == before[k]);
            if l < before.len() {
                assert(plan[l] == before[l]);
            }
        }
    }
}

/// The first curve is filled wherever the style fills, and outlined wherever the
/// style outlines; a curve that asks for neither gets neither.
pub proof fn law_the_first_curve_follows_the_style<T>(
    style: GraphStyle,
    index: int,
    layer: SpectrumLayer<T>,
)
    requires
        0 <= index <= usize::MAX,
    ensures
        ({
            let first = layer_paint(style, 0, layer);
            let paint = layer_paint(style, index, layer);
            &&& first.fill <==> layer.fill && !(style is Line)
            &&& first.line <==> layer.line && !(style is Fill)
            &&& !first.dimmed
            &&& !layer.fill ==> !paint.fill && !paint.dimmed
            &&& !layer.line ==> !paint.line
            &&& paint.index == index
        }),
{
}

/// Where curves are compared, every filled curve is filled, and those behind the
/// first are dimmed.
pub proof fn law_compared_curves_are_dimmed_behind_the_first<T>(
    index: int,
    layer: SpectrumLayer<T>,
)
    requires
        index > 0,
        layer.fill,
    ensures
        layer_paint(GraphStyle::Overlay, index, layer).fill,
        layer_paint(GraphStyle::Overlay, index, layer).dimmed,
{
}

/// A curve is painted as its place and its own wishes say, and only curves with
/// values are painted.
pub proof fn law_each_curve_is_painted_at_its_place<T>(
    style: GraphStyle,
    layers: Seq<SpectrumLayer<T>>,
    k: int,
)
    requires
        layers.len() <= usize::MAX,
        0 <= k < painted(style, layers).len(),
    ensures
        ({
            let paint = painted(style, layers)[k];
            &&& paint.index < layers.len()
            &&& layers[paint.index as int].db@.len() > 0
            &&& paint.fill ==> layers[paint.index as int].fill && !(style is Line)
            &&& paint.line ==> layers[paint.index as int].line
        }),
    decreases layers.len(),
{
    let front = painted(style, layers.drop_last());
    if k < front.len() {
        law_each_curve_is_painted_at_its_place(style, layers.drop_last(), k);
        assert(painted(style, layers)[k] == front[k]);
    }
}

/// Stronger smoothing reaches further, and each step twice as far as the one
/// before it.
pub proof fn law_smoothing_reaches_further(smoothing: DisplaySmoothing)
    ensures
        DisplaySmoothing::Off.reach() == 0,
        DisplaySmoothing::Light.reach() == 2,
        DisplaySmoothing::Medium.reach() == 2 * DisplaySmoothing::Light.reach(),
        DisplaySmoothing::Heavy.reach() == 2 * DisplaySmoothing::Medium.reach(),
        smoothing.reach() <= 8,
{
}

/// The marked frequencies climb in steps of two or two and a half, from 20 Hz to
/// 20 kHz.
pub proof fn law_the_marked_frequencies_climb(i: int)
    requires
        0 <= i < tick_hz().len() - 1,
    ensures
        tick_hz()[i + 1] == 2 * tick_hz()[i] || 2 * tick_hz()[i + 1] == 5 * tick_hz()[i],
        tick_hz()[0] == 20,
        tick_hz()[tick_hz().len() - 1] == 20_000,
{
}

/// The marked levels fall from full scale, in multiples of twelve decibels.
pub proof fn law_the_marked_levels_fall(i: int)
    requires
        0 <= i < tick_levels().len() - 1,
    ensures
        tick_levels()[i] < tick_levels()[i + 1] <= 96,
        tick_levels()[i] % 12 == 0,
        tick_levels()[0] == 0,
        tick_levels()[tick_levels().len() - 1] == 96,
{
}

/// A level is labelled with its decibels, below full scale with a minus sign.
pub proof fn law_a_level_says_its_decibels(below: u32)
    ensures
        below == 0 ==> crate::text::number(level_text(below)) == 0 && level_text(below).len() == 1,
        below > 0 ==> level_text(below).len() > 1 && level_text(below)[0] == '-'
            && crate::text::number(level_text(below).skip(1)) == below,
{
    reveal_strlit("-");
    reveal_strlit("0");
    crate::text::law_a_number_is_read_back(below as nat);
    if below > 0 {
        assert(level_text(below).skip(1) =~= crate::text::decimal(below as nat));
    } else {
        assert(level_text(below).drop_last() =~= Seq::empty());
        assert(crate::text::number(level_text(below).drop_last()) == 0);
    }
}

/// A curve is drawn with 256 to 2048 points.
pub proof fn law_curves_are_bounded()
    ensures
        MIN_DISPLAY_POINTS == 256,
        MAX_DISPLAY_POINTS == 8 * MIN_DISPLAY_POINTS,
{
}

} // verus!
