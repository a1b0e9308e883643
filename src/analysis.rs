use vstd::prelude::*;

use crate::color::{channels, Color, ColorSrc};

verus! {

/// The largest squared distance between two colors: `3 * 255 * 255`.
pub const MAX_DISTANCE2: i32 = 195075;

/// A reference color given as three `i32` channels, each in `0..=255`.
pub open spec fn is_reference(t: (i32, i32, i32)) -> bool {
    &&& 0 <= t.0 <= 255
    &&& 0 <= t.1 <= 255
    &&& 0 <= t.2 <= 255
}

pub open spec fn square(v: int) -> int {
    v * v
}

/// Squared Euclidean distance of two RGB triples.
pub open spec fn rgb_distance2(a: (int, int, int), b: (int, int, int)) -> int {
    square(a.0 - b.0) + square(a.1 - b.1) + square(a.2 - b.2)
}

/// Squared distance of sampled channels to a reference color.
pub open spec fn sample_distance2(c: (u8, u8, u8), t: (i32, i32, i32)) -> int {
    rgb_distance2((c.0 as int, c.1 as int, c.2 as int), (t.0 as int, t.1 as int, t.2 as int))
}

/// Sum of the distances to `t` of the `n` pixels that start at `(x, y)` and
/// run rightwards.
pub open spec fn span_sum<C: ColorSrc>(src: &C, t: (i32, i32, i32), x: int, y: int, n: nat) -> int
    decreases n,
{
    if n == 0 {
        0
    } else {
        span_sum(src, t, x, y, (n - 1) as nat) + sample_distance2(src.color_at(x + n - 1, y), t)
    }
}

/// The truncated mean distance over a span of `n` pixels.
pub open spec fn span_average<C: ColorSrc>(src: &C, t: (i32, i32, i32), x: int, y: int, n: nat) -> int {
    span_sum(src, t, x, y, n) / (n as int)
}

/// Every pixel of the span of `n` pixels at `(x, y)` lies on the source.
pub open spec fn span_covered<C: ColorSrc>(src: &C, x: int, y: int, n: int) -> bool {
    forall|i: int| 0 <= i < n ==> #[trigger] src.contains(x + i, y)
}

/// A span whose `n` pixels all fit in `i32` coordinates and on the source.
pub open spec fn valid_span<C: ColorSrc>(src: &C, x: int, y: int, n: int) -> bool {
    &&& 0 < n
    &&& x + n - 1 <= i32::MAX
    &&& span_covered(src, x, y, n)
}

proof fn lemma_distance_bounds(c: (u8, u8, u8), t: (i32, i32, i32))
    requires
        is_reference(t),
    ensures
        0 <= sample_distance2(c, t) <= MAX_DISTANCE2,
{
    let d0 = c.0 - t.0;
    let d1 = c.1 - t.1;
    let d2 = c.2 - t.2;
    assert(0 <= d0 * d0 <= 65025) by (nonlinear_arith)
        requires
            -255 <= d0 <= 255,
    ;
    assert(0 <= d1 * d1 <= 65025) by (nonlinear_arith)
        requires
            -255 <= d1 <= 255,
    ;
    assert(0 <= d2 * d2 <= 65025) by (nonlinear_arith)
        requires
            -255 <= d2 <= 255,
    ;
}

proof fn lemma_span_sum_bounds<C: ColorSrc>(src: &C, t: (i32, i32, i32), x: int, y: int, n: nat)
    requires
        is_reference(t),
    ensures
        0 <= span_sum(src, t, x, y, n) <= n * MAX_DISTANCE2,
    decreases n,
{
    if n > 0 {
        lemma_span_sum_bounds(src, t, x, y, (n - 1) as nat);
        lemma_distance_bounds(src.color_at(x + n - 1, y), t);
    }
}

proof fn lemma_average_bounds<C: ColorSrc>(src: &C, t: (i32, i32, i32), x: int, y: int, n: nat)
    requires
        is_reference(t),
        n > 0,
    ensures
        0 <= span_average(src, t, x, y, n) <= MAX_DISTANCE2,
{
    lemma_span_sum_bounds(src, t, x, y, n);
    let s = span_sum(src, t, x, y, n);
    let m = MAX_DISTANCE2 as int;
    assert(0 <= s / (n as int) <= m) by (nonlinear_arith)
        requires
            0 <= s <= n * m,
            n > 0,
    {
        vstd::arithmetic::div_mod::lemma_div_is_ordered(s, n * m, n as int);
        vstd::arithmetic::div_mod::lemma_div_multiples_vanish(m, n as int);
    }
}

/// Squared RGB distance between a color and a reference color.
pub fn color_distance2<C: Color>(c: C, target: &(i32, i32, i32)) -> (r: i32)
    requires
        is_reference(*target),
    ensures
        r == sample_distance2(channels(c), *target),
        0 <= r <= MAX_DISTANCE2,
{
    let dr = c.get_red() as i32 - target.0;
    let dg = c.get_green() as i32 - target.1;
    let db = c.get_blue() as i32 - target.2;
    proof {
        lemma_distance_bounds(channels(c), *target);
        assert(0 <= dr * dr <= 65025) by (nonlinear_arith)
            requires
                -255 <= dr <= 255,
        ;
        assert(0 <= dg * dg <= 65025) by (nonlinear_arith)
            requires
                -255 <= dg <= 255,
        ;
        assert(0 <= db * db <= 65025) by (nonlinear_arith)
            requires
                -255 <= db <= 255,
        ;
    }
    dr * dr + dg * dg + db * db
}

/// Mean distance to `target_color`, truncated, over the `span` pixels that
/// start at `(x, y)` and run rightwards.
pub fn average_distance2<C: ColorSrc>(
    bitmap: &C,
    target_color: &(i32, i32, i32),
    x: i32,
    y: i32,
    span: i32,
) -> (r: i32)
    requires
        is_reference(*target_color),
        valid_span(bitmap, x as int, y as int, span as int),
    ensures
        r == span_average(bitmap, *target_color, x as int, y as int, span as nat),
        0 <= r <= MAX_DISTANCE2,
{
    let mut sum: i64 = 0;
    let mut i: i32 = 0;
    while i < span
        invariant
            is_reference(*target_color),
            valid_span(bitmap, x as int, y as int, span as int),
            0 <= i <= span,
            sum == span_sum(bitmap, *target_color, x as int, y as int, i as nat),
            0 <= sum <= i * MAX_DISTANCE2,
        decreases span - i,
    {
        assert(bitmap.contains(x + i, y as int));
        let color = bitmap.get_pixel(x + i, y);
        let d = color_distance2(color, target_color);
        sum = sum + d as i64;
        i = i + 1;
    }
    proof {
        lemma_average_bounds(bitmap, *target_color, x as int, y as int, span as nat);
    }
    (sum / (span as i64)) as i32
}

/// Where and how the classifier samples, and how strict it is.
///
/// `permitted_deviation_ppm` is the tolerated relative gap between the left
/// and the right distance, in millionths: `30_000` lets the right distance
/// differ from the left one by 3% of the right one.
pub struct AnalysisOptions {
    pub left: i32,
    /// The x coordinate at which the right span starts.
    pub right: i32,
    pub y: i32,
    pub span: i32,
    pub permitted_deviation_ppm: u32,
    pub max_distance: i32,
}

impl AnalysisOptions {
    /// Both spans are non-empty, fit in `i32` coordinates and lie on `src`.
    pub open spec fn valid_for<C: ColorSrc>(&self, src: &C) -> bool {
        &&& valid_span(src, self.left as int, self.y as int, self.span as int)
        &&& valid_span(src, self.right as int, self.y as int, self.span as int)
    }

    /// Whether both spans can be sampled on `src`.
    pub fn fits<C: ColorSrc>(&self, src: &C) -> (r: bool)
        ensures
            r == self.valid_for(src),
    {
        if self.span <= 0 || self.left > i32::MAX - (self.span - 1) || self.right > i32::MAX - (
        self.span - 1) {
            return false;
        }
        let mut i: i32 = 0;
        while i < self.span
            invariant
                0 <= i <= self.span,
                self.left + self.span - 1 <= i32::MAX,
                self.right + self.span - 1 <= i32::MAX,
                span_covered(src, self.left as int, self.y as int, i as int),
                span_covered(src, self.right as int, self.y as int, i as int),
            decreases self.span - i,
        {
            if !src.contains_pixel(self.left + i, self.y) {
                return false;
            }
            if !src.contains_pixel(self.right + i, self.y) {
                return false;
            }
            i = i + 1;
        }
        true
    }

    /// Mean distance of the left span to `t`.
    pub open spec fn left_distance<C: ColorSrc>(&self, src: &C, t: (i32, i32, i32)) -> int {
        span_average(src, t, self.left as int, self.y as int, self.span as nat)
    }

    /// Mean distance of the right span to `t`.
    pub open spec fn right_distance<C: ColorSrc>(&self, src: &C, t: (i32, i32, i32)) -> int {
        span_average(src, t, self.right as int, self.y as int, self.span as nat)
    }

    /// Whether the reference color `t` passes both the symmetry test and the
    /// distance ceiling.
    pub open spec fn accepts<C: ColorSrc>(&self, src: &C, t: (i32, i32, i32)) -> bool {
        &&& !deviation_exceeds(
            self.left_distance(src, t),
            self.right_distance(src, t),
            self.permitted_deviation_ppm as int,
        )
        &&& self.left_distance(src, t) <= self.max_distance
    }
}

/// Whether `|1 - left / right|` exceeds `ppm` millionths. A zero right
/// distance is exceeded by any non-zero left distance and matched by zero.
pub open spec fn deviation_exceeds(left: int, right: int, ppm: int) -> bool {
    if right == 0 {
        left != 0
    } else {
        let gap = if right >= left {
            right - left
        } else {
            left - right
        };
        gap * 1_000_000 > ppm * right
    }
}

/// No entry of `table` is accepted.
pub open spec fn no_match<C: ColorSrc, T>(
    opts: &AnalysisOptions,
    src: &C,
    table: Seq<((i32, i32, i32), T)>,
) -> bool {
    forall|i: int| 0 <= i < table.len() ==> !opts.accepts(src, #[trigger] table[i].0)
}

/// Entry `i` is accepted, no accepted entry is closer on the left, and every
/// accepted entry before it is farther.
pub open spec fn is_best<C: ColorSrc, T>(
    opts: &AnalysisOptions,
    src: &C,
    table: Seq<((i32, i32, i32), T)>,
    i: int,
) -> bool {
    &&& 0 <= i < table.len()
    &&& opts.accepts(src, table[i].0)
    &&& forall|j: int|
        0 <= j < table.len() && opts.accepts(src, #[trigger] table[j].0) ==> opts.left_distance(
            src,
            table[i].0,
        ) <= opts.left_distance(src, table[j].0)
    &&& forall|j: int|
        0 <= j < i && opts.accepts(src, #[trigger] table[j].0) ==> opts.left_distance(
            src,
            table[i].0,
        ) < opts.left_distance(src, table[j].0)
}

pub open spec fn all_references<T>(table: Seq<((i32, i32, i32), T)>) -> bool {
    forall|i: int| 0 <= i < table.len() ==> is_reference(#[trigger] table[i].0)
}

fn deviation_too_large(left: i32, right: i32, ppm: u32) -> (r: bool)
    requires
        0 <= left <= MAX_DISTANCE2,
        0 <= right <= MAX_DISTANCE2,
    ensures
        r == deviation_exceeds(left as int, right as int, ppm as int),
{
    if right == 0 {
        left != 0
    } else {
        let gap: i64 = if right >= left {
            (right - left) as i64
        } else {
            (left - right) as i64
        };
        proof {
            assert(ppm * right <= 4294967295 * 195075) by (nonlinear_arith)
                requires
                    0 <= ppm <= 4294967295,
                    0 <= right <= 195075,
            ;
        }
        gap * 1_000_000 > (ppm as i64) * (right as i64)
    }
}

/// Which entry of `checking` the spans show: among the accepted entries, the
/// one with the smallest left distance, the earliest on a tie; `None` when no
/// entry is accepted.
///
/// An entry is accepted when its left distance is within `max_distance` and
/// its right distance is close to the left one. This is an approximate test
/// for a fixed layout, not a general color classifier: a large gap between
/// the two spots means the left one does not show a clean instance of the
/// color.
pub fn analyze_bitmap<T: Clone, C: ColorSrc>(
    opts: &AnalysisOptions,
    checking: &[((i32, i32, i32), T)],
    bitmap: &C,
) -> (r: Option<T>)
    requires
        opts.valid_for(bitmap),
        all_references(checking@),
    ensures
        r is None <==> no_match(opts, bitmap, checking@),
        r matches Some(v) ==> exists|i: int|
            is_best(opts, bitmap, checking@, i) && cloned(#[trigger] checking@[i].1, v),
{
    let mut best: Option<(i32, usize)> = None;
    let mut k: usize = 0;
    while k < checking.len()
        invariant
            opts.valid_for(bitmap),
            all_references(checking@),
            0 <= k <= checking@.len(),
            match best {
                None => no_match(opts, bitmap, checking@.take(k as int)),
                Some((d, i)) => {
                    &&& is_best(opts, bitmap, checking@.take(k as int), i as int)
                    &&& d == opts.left_distance(bitmap, checking@[i as int].0)
                },
            },
        decreases checking@.len() - k,
    {
        let color = &checking[k].0;
        let left_dist = average_distance2(bitmap, color, opts.left, opts.y, opts.span);
        let right_dist = average_distance2(bitmap, color, opts.right, opts.y, opts.span);
        let rejected = deviation_too_large(left_dist, right_dist, opts.permitted_deviation_ppm)
            || left_dist > opts.max_distance;
        let ghost before = checking@.take(k as int);
        let ghost after = checking@.take(k + 1);
        assert(after == before.push(checking@[k as int]));
        assert(forall|j: int| 0 <= j < k ==> after[j] == before[j]);
        if !rejected {
            match best {
                None => {
                    best = Some((left_dist, k));
                },
                Some((prev, _)) => {
                    if left_dist < prev {
                        best = Some((left_dist, k));
                    }
                },
            }
        }
        k = k + 1;
    }
    assert(checking@.take(checking@.len() as int) == checking@);
    match best {
        None => None,
        Some((_, i)) => Some(checking[i].1.clone()),
    }
}

/// A color is at distance zero from itself.
pub proof fn lemma_distance_to_self(c: (int, int, int))
    ensures
        rgb_distance2(c, c) == 0,
{
}

/// The squared distance does not depend on the order of its arguments.
pub proof fn lemma_distance_symmetric(a: (int, int, int), b: (int, int, int))
    ensures
        rgb_distance2(a, b) == rgb_distance2(b, a),
{
    assert(square(a.0 - b.0) == square(b.0 - a.0)) by (nonlinear_arith);
    assert(square(a.1 - b.1) == square(b.1 - a.1)) by (nonlinear_arith);
    assert(square(a.2 - b.2) == square(b.2 - a.2)) by (nonlinear_arith);
}

proof fn lemma_uniform_span_sum<C: ColorSrc>(
    src: &C,
    t: (i32, i32, i32),
    x: int,
    y: int,
    n: nat,
    c: (u8, u8, u8),
)
    requires
        forall|i: int| 0 <= i < n ==> #[trigger] src.color_at(x + i, y) == c,
    ensures
        span_sum(src, t, x, y, n) == n * sample_distance2(c, t),
    decreases n,
{
    if n > 0 {
        lemma_uniform_span_sum(src, t, x, y, (n - 1) as nat, c);
        assert(src.color_at(x + (n - 1), y) == c);
        let d = sample_distance2(c, t);
        assert(n * d == (n - 1) * d + d) by (nonlinear_arith);
    } else {
        let d = sample_distance2(c, t);
        assert(n * d == 0) by (nonlinear_arith)
            requires
                n == 0,
        ;
    }
}

/// Averaging a span of one color loses nothing: the mean is that color's
/// distance.
pub proof fn lemma_uniform_span_average<C: ColorSrc>(
    src: &C,
    t: (i32, i32, i32),
    x: int,
    y: int,
    n: nat,
    c: (u8, u8, u8),
)
    requires
        n > 0,
        forall|i: int| 0 <= i < n ==> #[trigger] src.color_at(x + i, y) == c,
    ensures
        span_average(src, t, x, y, n) == sample_distance2(c, t),
{
    lemma_uniform_span_sum(src, t, x, y, n, c);
    vstd::arithmetic::div_mod::lemma_div_multiples_vanish(sample_distance2(c, t), n as int);
}

/// When every entry's left distance is above the ceiling, nothing matches,
/// whatever the right distances are.
pub proof fn lemma_all_too_far<C: ColorSrc, T>(
    opts: &AnalysisOptions,
    src: &C,
    table: Seq<((i32, i32, i32), T)>,
)
    requires
        forall|i: int|
            0 <= i < table.len() ==> opts.left_distance(src, #[trigger] table[i].0)
                > opts.max_distance,
    ensures
        no_match(opts, src, table),
{
}

/// When every entry has a zero right distance and a non-zero left distance,
/// nothing matches.
pub proof fn lemma_zero_right_distance<C: ColorSrc, T>(
    opts: &AnalysisOptions,
    src: &C,
    table: Seq<((i32, i32, i32), T)>,
)
    requires
        forall|i: int|
            0 <= i < table.len() ==> opts.right_distance(src, #[trigger] table[i].0) == 0
                && opts.left_distance(src, table[i].0) != 0,
    ensures
        no_match(opts, src, table),
{
}

} // verus!
