//! The progress bar: its configuration, its setters and its rendering.

use vstd::prelude::*;
use vstd::string::StringExecFns;
use crate::cells::{empty_cells, empty_count, filled_cells, filled_count, shown, shown_cells};
use crate::glyphs::{push_run, run};

verus! {

/// What a [`Bar`] is to its contracts: its tokens as sequences of characters and its
/// numbers as mathematical integers.
pub struct BarView {
    /// The token before the cells.
    pub start: Seq<char>,
    /// The token after the cells.
    pub end: Seq<char>,
    /// The glyph of a completed cell.
    pub filled: char,
    /// The glyph of a remaining cell.
    pub empty: char,
    /// The value at which the bar is complete.
    pub max: int,
    /// The number of cells.
    pub width: int,
    /// The current value.
    pub value: int,
    /// The text after the bar; none where it is empty.
    pub text: Seq<char>,
}

impl BarView {
    /// The configuration of a new bar: `|` at both ends, a full block for a completed
    /// cell and a light shade for a remaining one, ten cells, a maximum of 100, a
    /// value of 0 and no text.
    pub open spec fn initial() -> BarView {
        BarView {
            start: seq!['|'],
            end: seq!['|'],
            filled: '\u{2588}',
            empty: '\u{2591}',
            max: 100,
            width: 10,
            value: 0,
            text: Seq::empty(),
        }
    }

    /// Whether the numbers are ones that a [`Bar`] can hold: a width of 32 bits, a
    /// maximum and a value of 64 bits, all signed.
    pub open spec fn fits(self) -> bool {
        &&& i32::MIN <= self.width <= i32::MAX
        &&& i64::MIN <= self.max <= i64::MAX
        &&& i64::MIN <= self.value <= i64::MAX
    }

    /// The number of completed cells, before it is clamped for drawing.
    pub open spec fn filled_count(self) -> int {
        filled_count(self.width, self.value, self.max)
    }

    /// The number of remaining cells, before it is clamped for drawing.
    pub open spec fn empty_count(self) -> int {
        empty_count(self.width, self.value, self.max)
    }

    /// What follows the end token: nothing for an empty text, else a space and the text.
    pub open spec fn trailer(self) -> Seq<char> {
        if self.text.len() == 0 {
            Seq::empty()
        } else {
            seq![' '] + self.text
        }
    }

    /// The bar drawn around given numbers of completed and remaining cells.
    pub open spec fn drawn(self, filled: nat, empty: nat) -> Seq<char> {
        self.start + run(self.filled, filled) + run(self.empty, empty) + self.end + self.trailer()
    }

    /// The line of text that shows the bar: the start token, the completed cells, the
    /// remaining cells, the end token and the trailer.
    pub open spec fn rendered(self) -> Seq<char> {
        self.drawn(shown(self.filled_count()), shown(self.empty_count()))
    }
}

/// The message of the one error a bar returns, for a value above the maximum.
pub open spec fn out_of_range() -> Seq<char> {
    "value exceeds maximum"@
}

/// A progress bar.
///
/// The value and the maximum are whole numbers of any unit; the progress shown is
/// the ratio of the two. Each setter takes the bar and gives it back with one part
/// replaced.
pub struct Bar {
    /// The token before the cells.
    start: String,
    /// The token after the cells.
    end: String,
    /// The glyph of a completed cell.
    filled: char,
    /// The glyph of a remaining cell.
    empty: char,
    /// The value at which the bar is complete.
    max: i64,
    /// The number of cells.
    width: i32,
    /// The current value.
    value: i64,
    /// The text after the bar.
    text: String,
}

impl View for Bar {
    type V = BarView;

    closed spec fn view(&self) -> BarView {
        BarView {
            start: self.start@,
            end: self.end@,
            filled: self.filled,
            empty: self.empty,
            max: self.max as int,
            width: self.width as int,
            value: self.value as int,
            text: self.text@,
        }
    }
}

impl Bar {
    /// A bar in its initial configuration.
    pub fn new() -> (bar: Self)
        ensures
            bar@ == BarView::initial(),
    {
        proof {
            reveal_strlit("|");
            reveal_strlit("");
            assert("|"@ =~= seq!['|']);
            assert(""@ =~= Seq::<char>::empty());
        }
        Bar {
            start: "|".to_owned(),
            end: "|".to_owned(),
            filled: '\u{2588}',
            empty: '\u{2591}',
            text: "".to_owned(),
            width: 10,
            max: 100,
            value: 0,
        }
    }

    /// The numbers of any bar are ones that a bar can hold.
    pub proof fn lemma_view_fits(self)
        ensures
            self@.fits(),
    {
    }

    /// Replaces the start token.
    pub fn start(self, token: &str) -> (bar: Self)
        ensures
            bar@ == (BarView { start: token@, ..self@ }),
    {
        Bar { start: token.to_owned(), ..self }
    }

    /// Replaces the end token.
    pub fn end(self, token: &str) -> (bar: Self)
        ensures
            bar@ == (BarView { end: token@, ..self@ }),
    {
        Bar { end: token.to_owned(), ..self }
    }

    /// Replaces the glyph of a completed cell.
    pub fn filled(self, token: char) -> (bar: Self)
        ensures
            bar@ == (BarView { filled: token, ..self@ }),
    {
        Bar { filled: token, ..self }
    }

    /// Replaces the glyph of a remaining cell.
    pub fn empty(self, token: char) -> (bar: Self)
        ensures
            bar@ == (BarView { empty: token, ..self@ }),
    {
        Bar { empty: token, ..self }
    }

    /// Replaces the maximum. The current value stays as it is, also where it now
    /// exceeds the maximum.
    pub fn max(self, token: i64) -> (bar: Self)
        ensures
            bar@ == (BarView { max: token as int, ..self@ }),
    {
        Bar { max: token, ..self }
    }

    /// Replaces the width. Any width is accepted, also one that is not positive.
    pub fn width(self, token: i32) -> (bar: Self)
        ensures
            bar@ == (BarView { width: token as int, ..self@ }),
    {
        Bar { width: token, ..self }
    }

    /// Replaces the trailing text.
    pub fn text(self, text: &str) -> (bar: Self)
        ensures
            bar@ == (BarView { text: text@, ..self@ }),
    {
        Bar { text: text.to_owned(), ..self }
    }

    /// Replaces the current value, unless it exceeds the maximum. A negative value is
    /// accepted.
    pub fn value(self, val: i64) -> (result: Result<Self, String>)
        ensures
            result is Err <==> val > self@.max,
            result matches Ok(bar) ==> bar@ == (BarView { value: val as int, ..self@ }),
            result matches Err(message) ==> message@ == out_of_range(),
    {
        if val > self.max {
            return Err("value exceeds maximum".to_owned());
        }
        Ok(Bar { value: val, ..self })
    }

    /// Draws the bar around `filled` completed and `empty` remaining cells, whatever
    /// its value and maximum are.
    pub fn draw(&self, filled: usize, empty: usize) -> (line: String)
        ensures
            line@ == self@.drawn(filled as nat, empty as nat),
    {
        let mut line = self.start.clone();
        push_run(&mut line, self.filled, filled);
        push_run(&mut line, self.empty, empty);
        line.append(self.end.as_str());
        if !self.text.as_str().is_empty() {
            proof {
                reveal_strlit(" ");
                assert(" "@ =~= seq![' ']);
            }
            line.append(" ");
            line.append(self.text.as_str());
        }
        proof {
            assert(line@ =~= self@.drawn(filled as nat, empty as nat));
        }
        line
    }

    /// Renders the bar as one line of text. A count of cells that is negative draws
    /// no cell.
    pub fn render(&self) -> (line: String)
        ensures
            line@ == self@.rendered(),
    {
        let filled = shown_cells(filled_cells(self.width, self.value, self.max));
        let empty = shown_cells(empty_cells(self.width, self.value, self.max));
        self.draw(filled, empty)
    }
}

} // verus!
