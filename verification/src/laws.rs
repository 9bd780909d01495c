//! What holds of every bar: how the counts of cells behave at the boundaries and in
//! between, and how each part of the configuration shows in the rendered line.

use vstd::prelude::*;
use crate::bar::{Bar, BarView};
use crate::cells::{
    ceil_div, empty_count, filled_count, lemma_ceil_div_is_least, lemma_ceil_div_unique, shown,
};
use crate::glyphs::run;

verus! {

/// At its maximum a bar is complete: every cell of the width is completed and none
/// remains. This needs a maximum other than zero, against which no value is measured.
pub proof fn lemma_complete_at_max(width: int, max: int)
    requires
        max != 0,
    ensures
        filled_count(width, max, max) == width,
        empty_count(width, max, max) == 0,
{
    if max > 0 {
        assert((width - 1) * max < width * max <= width * max) by (nonlinear_arith)
            requires
                max > 0,
        ;
        lemma_ceil_div_unique(width * max, max, width);
    } else {
        assert((width - 1) * (-max) < -(width * max) <= width * (-max)) by (nonlinear_arith)
            requires
                max < 0,
        ;
        lemma_ceil_div_unique(-(width * max), -max, width);
    }
}

/// At zero a bar is untouched: no cell is completed and the whole width remains.
pub proof fn lemma_untouched_at_zero(width: int, max: int)
    ensures
        filled_count(width, 0, max) == 0,
        empty_count(width, 0, max) == width,
{
    assert(width * 0 == 0) by (nonlinear_arith);
    if max > 0 {
        assert((0 - 1) * max < 0 <= 0 * max) by (nonlinear_arith)
            requires
                max > 0,
        ;
        lemma_ceil_div_unique(0, max, 0);
    } else if max < 0 {
        assert((0 - 1) * (-max) < 0 <= 0 * (-max)) by (nonlinear_arith)
            requires
                max < 0,
        ;
        lemma_ceil_div_unique(0, -max, 0);
    }
}

/// Any progress shows: with a positive width and maximum, a positive value completes
/// at least one cell.
pub proof fn lemma_progress_shows(width: int, value: int, max: int)
    requires
        width > 0,
        max > 0,
        value > 0,
    ensures
        filled_count(width, value, max) >= 1,
{
    let q = ceil_div(width * value, max);
    lemma_ceil_div_is_least(width * value, max);
    assert(q >= 1) by (nonlinear_arith)
        requires
            q * max >= width * value,
            width > 0,
            value > 0,
            max > 0,
    ;
}

/// For a bar in progress (a width that is not negative, a positive maximum, a value
/// from zero to the maximum) the completed and the remaining cells share the width
/// between them.
pub proof fn lemma_counts_share_width(width: int, value: int, max: int)
    requires
        width >= 0,
        max > 0,
        0 <= value <= max,
    ensures
        0 <= filled_count(width, value, max) <= width,
        0 <= empty_count(width, value, max) <= width,
        filled_count(width, value, max) + empty_count(width, value, max) == width,
{
    let q = ceil_div(width * value, max);
    lemma_ceil_div_is_least(width * value, max);
    assert(0 <= q <= width) by (nonlinear_arith)
        requires
            q * max >= width * value,
            (q - 1) * max < width * value,
            width >= 0,
            max > 0,
            0 <= value <= max,
    ;
}

/// A greater value never completes fewer cells, for a width that is not negative and
/// a positive maximum.
pub proof fn lemma_filled_count_monotonic(width: int, low: int, high: int, max: int)
    requires
        width >= 0,
        max > 0,
        low <= high,
    ensures
        filled_count(width, low, max) <= filled_count(width, high, max),
{
    let a = ceil_div(width * low, max);
    let b = ceil_div(width * high, max);
    lemma_ceil_div_is_least(width * low, max);
    lemma_ceil_div_is_least(width * high, max);
    assert(width * low <= width * high) by (nonlinear_arith)
        requires
            width >= 0,
            low <= high,
    ;
    assert(a <= b) by (nonlinear_arith)
        requires
            (a - 1) * max < width * low,
            width * low <= width * high,
            width * high <= b * max,
            max > 0,
    ;
}

/// Rendering is repeatable: whatever two lines `render` returns for one bar, they
/// are the same text.
pub proof fn lemma_render_repeatable(bar: Bar, first: String, second: String)
    requires
        first@ == bar@.rendered(),
        second@ == bar@.rendered(),
    ensures
        first@ == second@,
{
}

/// The line of a bar in progress holds as many cells as the bar is wide.
pub proof fn lemma_rendered_len(bar: Bar)
    requires
        bar@.width >= 0,
        bar@.max > 0,
        0 <= bar@.value <= bar@.max,
    ensures
        bar@.rendered().len() == bar@.start.len() + bar@.width + bar@.end.len()
            + bar@.trailer().len(),
{
    bar.lemma_view_fits();
    lemma_counts_share_width(bar@.width, bar@.value, bar@.max);
}

/// The line of a bar at its maximum: the cells are all completed ones.
pub proof fn lemma_rendered_at_max(bar: BarView)
    requires
        bar.max != 0,
        bar.value == bar.max,
    ensures
        bar.rendered() == bar.start + run(bar.filled, shown(bar.width)) + bar.end + bar.trailer(),
{
    lemma_complete_at_max(bar.width, bar.max);
    assert(run(bar.empty, 0) =~= Seq::<char>::empty());
    assert(bar.rendered() =~= bar.start + run(bar.filled, shown(bar.width)) + bar.end
        + bar.trailer());
}

/// The line of a bar at zero: the cells are all remaining ones.
pub proof fn lemma_rendered_at_zero(bar: BarView)
    requires
        bar.value == 0,
    ensures
        bar.rendered() == bar.start + run(bar.empty, shown(bar.width)) + bar.end + bar.trailer(),
{
    lemma_untouched_at_zero(bar.width, bar.max);
    assert(run(bar.filled, 0) =~= Seq::<char>::empty());
    assert(bar.rendered() =~= bar.start + run(bar.empty, shown(bar.width)) + bar.end
        + bar.trailer());
}

/// A token or a text that is set shows in the line at its place, and the rest of the
/// line stays: the cells, and the tokens that were not set.
pub proof fn lemma_tokens_round_trip(bar: BarView, token: Seq<char>)
    ensures
        (BarView { start: token, ..bar }).rendered() == token + bar.rendered().skip(
            bar.start.len() as int,
        ),
        (BarView { end: token, ..bar }).rendered() == bar.rendered().take(
            bar.rendered().len() - bar.end.len() - bar.trailer().len(),
        ) + token + bar.trailer(),
        (BarView { text: token, ..bar }).rendered() == bar.rendered().take(
            bar.rendered().len() - bar.trailer().len(),
        ) + (BarView { text: token, ..bar }).trailer(),
{
    let filled = run(bar.filled, shown(bar.filled_count()));
    let empty = run(bar.empty, shown(bar.empty_count()));
    assert(bar.rendered() =~= bar.start + filled + empty + bar.end + bar.trailer());
    assert((BarView { start: token, ..bar }).rendered() =~= token + bar.rendered().skip(
        bar.start.len() as int,
    ));
    assert((BarView { end: token, ..bar }).rendered() =~= bar.rendered().take(
        bar.rendered().len() - bar.end.len() - bar.trailer().len(),
    ) + token + bar.trailer());
    assert((BarView { text: token, ..bar }).rendered() =~= bar.rendered().take(
        bar.rendered().len() - bar.trailer().len(),
    ) + (BarView { text: token, ..bar }).trailer());
}

/// A glyph that is set is the one the cells of its kind are drawn with, in the same
/// numbers as before.
pub proof fn lemma_glyphs_round_trip(bar: BarView, glyph: char)
    ensures
        (BarView { filled: glyph, ..bar }).rendered() == bar.start + run(
            glyph,
            shown(bar.filled_count()),
        ) + run(bar.empty, shown(bar.empty_count())) + bar.end + bar.trailer(),
        (BarView { empty: glyph, ..bar }).rendered() == bar.start + run(
            bar.filled,
            shown(bar.filled_count()),
        ) + run(glyph, shown(bar.empty_count())) + bar.end + bar.trailer(),
{
}

/// A width, a maximum or a value that is set is the one the cells are counted from,
/// and tokens, glyphs and text stay.
pub proof fn lemma_numbers_round_trip(bar: BarView, number: int)
    ensures
        (BarView { width: number, ..bar }).rendered() == bar.drawn(
            shown(filled_count(number, bar.value, bar.max)),
            shown(empty_count(number, bar.value, bar.max)),
        ),
        (BarView { max: number, ..bar }).rendered() == bar.drawn(
            shown(filled_count(bar.width, bar.value, number)),
            shown(empty_count(bar.width, bar.value, number)),
        ),
        (BarView { value: number, ..bar }).rendered() == bar.drawn(
            shown(filled_count(bar.width, number, bar.max)),
            shown(empty_count(bar.width, number, bar.max)),
        ),
{
}

} // verus!
