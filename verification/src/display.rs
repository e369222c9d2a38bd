//! The two modes of a bar and the status line that each of them shows.

use vstd::prelude::*;
use vstd::string::StringExecFns;
use crate::progress::ProgressBar;
use crate::layout::{
    bar_fits, bar_width, empty_columns, filled_columns, filled_of, fits, percent, percent_of,
    width_of,
};
use crate::text::{decimal, push_decimal, push_run, run};

verus! {

/// Glyph of a filled column.
pub const FILLED: char = '\u{2593}';

/// Glyph of an empty column.
pub const EMPTY: char = '\u{2591}';

/// What every frame starts with: erase from the cursor to the end of the
/// screen, then move the cursor up one line, so that the frame overwrites
/// the one before it.
pub const CLEAR: &'static str = "\x1b[0J\x1b[1A";

/// A frame: the control sequence, then the status line.
pub open spec fn frame_text(line: Seq<char>) -> Seq<char> {
    CLEAR@ + line
}

/// What an unbounded status line holds before the elapsed time: the
/// counter.
pub open spec fn unbounded_lead(index: nat) -> Seq<char> {
    "["@ + decimal(index) + " in "@
}

/// What an unbounded status line holds behind the elapsed time.
pub open spec fn unbounded_tail() -> Seq<char> {
    " Secs]"@
}

/// The status line while the total is unknown.
pub open spec fn unbounded_line(index: nat, elapsed: Seq<char>) -> Seq<char> {
    unbounded_lead(index) + elapsed + unbounded_tail()
}

/// The bar between its delimiters: the filled columns, then the empty ones.
pub open spec fn bar(index: nat, total: nat, delims: (char, char)) -> Seq<char> {
    seq![delims.0] + run(FILLED, filled_columns(index, total)) + run(
        EMPTY,
        empty_columns(index, total),
    ) + seq![delims.1]
}

/// What a bounded status line holds before the elapsed time: the percentage,
/// the bar, and the counter over the total.
pub open spec fn bounded_lead(index: nat, total: nat, delims: (char, char)) -> Seq<char> {
    decimal(percent(index, total)) + "% "@ + bar(index, total, delims) + " "@ + decimal(index)
        + "/"@ + decimal(total) + " "@
}

/// What a bounded status line holds behind the elapsed time.
pub open spec fn bounded_tail() -> Seq<char> {
    " Secs"@
}

/// The status line once the total is known.
pub open spec fn bounded_line(
    index: nat,
    total: nat,
    delims: (char, char),
    elapsed: Seq<char>,
) -> Seq<char> {
    bounded_lead(index, total, delims) + elapsed + bounded_tail()
}

/// Where the opening delimiter stands in a bounded status line: behind the
/// percentage, its sign and a space.
pub open spec fn bar_start(index: nat, total: nat) -> nat {
    decimal(percent(index, total)).len() + "% "@.len()
}

/// How a mode turns the state of a bar into a frame.
pub trait ProgressBarDisplay: Sized {
    /// Whether the mode has a status line for this counter.
    spec fn shows(&self, index: nat) -> bool;

    /// The status line for a counter and the text of the elapsed time.
    spec fn status_line(&self, index: nat, elapsed: Seq<char>) -> Seq<char>;

    /// Decides whether `progress` can be shown.
    fn can_display<Iter>(&self, progress: &ProgressBar<Iter, Self>) -> (ok: bool)
        ensures
            ok == self.shows(progress.counter()),
    ;

    /// Renders the frame for `progress`, with `elapsed` as the text of the
    /// elapsed time in seconds.
    fn display<Iter>(&self, progress: &ProgressBar<Iter, Self>, elapsed: &str) -> (frame: String)
        requires
            self.shows(progress.counter()),
        ensures
            frame@ == frame_text(self.status_line(progress.counter(), elapsed@)),
    ;
}

/// The mode of a bar whose total is unknown.
pub struct Unbounded;

impl ProgressBarDisplay for Unbounded {
    open spec fn shows(&self, index: nat) -> bool {
        true
    }

    open spec fn status_line(&self, index: nat, elapsed: Seq<char>) -> Seq<char> {
        unbounded_line(index, elapsed)
    }

    fn can_display<Iter>(&self, progress: &ProgressBar<Iter, Self>) -> (ok: bool) {
        true
    }

    fn display<Iter>(&self, progress: &ProgressBar<Iter, Self>, elapsed: &str) -> (frame: String) {
        let mut frame = String::new();
        frame.append(CLEAR);
        frame.append("[");
        push_decimal(&mut frame, progress.index());
        frame.append(" in ");
        frame.append(elapsed);
        frame.append(" Secs]");
        assert(frame@ =~= frame_text(unbounded_line(progress.counter(), elapsed@)));
        frame
    }
}

/// The mode of a bar whose total is known.
pub struct Bounded {
    bound: usize,
    delims: (char, char),
}

impl Bounded {
    /// Number of elements that the sequence had when the total was fixed.
    pub closed spec fn total(&self) -> nat {
        self.bound as nat
    }

    /// The characters that open and close the bar.
    pub closed spec fn delimiters(&self) -> (char, char) {
        self.delims
    }

    /// A bounded mode for `total` elements, its bar between `[` and `]`.
    pub(crate) fn new(total: usize) -> (mode: Self)
        ensures
            mode.total() == total,
            mode.delimiters() == ('[', ']'),
    {
        Bounded { bound: total, delims: ('[', ']') }
    }

    /// The same mode with its bar between `delims.0` and `delims.1`.
    pub(crate) fn with_delims(self, delims: (char, char)) -> (mode: Self)
        ensures
            mode.total() == self.total(),
            mode.delimiters() == delims,
    {
        Bounded { bound: self.bound, delims }
    }
}

impl ProgressBarDisplay for Bounded {
    open spec fn shows(&self, index: nat) -> bool {
        fits(index, self.total())
    }

    open spec fn status_line(&self, index: nat, elapsed: Seq<char>) -> Seq<char> {
        bounded_line(index, self.total(), self.delimiters(), elapsed)
    }

    fn can_display<Iter>(&self, progress: &ProgressBar<Iter, Self>) -> (ok: bool) {
        bar_fits(progress.index(), self.bound)
    }

    fn display<Iter>(&self, progress: &ProgressBar<Iter, Self>, elapsed: &str) -> (frame: String) {
        let index = progress.index();
        let share = percent_of(index, self.bound);
        let filled = filled_of(index, self.bound);
        let empty = width_of(self.bound) - filled;
        let mut frame = String::new();
        frame.append(CLEAR);
        push_decimal(&mut frame, share);
        frame.append("% ");
        frame.push(self.delims.0);
        push_run(&mut frame, FILLED, filled);
        push_run(&mut frame, EMPTY, empty);
        frame.push(self.delims.1);
        frame.append(" ");
        push_decimal(&mut frame, index);
        frame.append("/");
        push_decimal(&mut frame, self.bound);
        frame.append(" ");
        frame.append(elapsed);
        frame.append(" Secs");
        assert(frame@ =~= frame_text(
            bounded_line(index as nat, self.total(), self.delimiters(), elapsed@),
        ));
        frame
    }
}

/// Whether `one` and `other` are the same text but for a field that begins
/// after `lead` characters and has `tail` characters behind it, and hold
/// `first` and `second` in that field.
pub open spec fn same_but_for_field(
    one: Seq<char>,
    other: Seq<char>,
    lead: nat,
    tail: nat,
    first: Seq<char>,
    second: Seq<char>,
) -> bool {
    &&& one.len() == lead + first.len() + tail
    &&& other.len() == lead + second.len() + tail
    &&& one.subrange(0, lead as int) == other.subrange(0, lead as int)
    &&& one.subrange(lead as int, one.len() - tail) == first
    &&& other.subrange(lead as int, other.len() - tail) == second
    &&& one.subrange(one.len() - tail, one.len() as int) == other.subrange(
        other.len() - tail,
        other.len() as int,
    )
}

/// Texts that are put together from the same parts around a field differ
/// in that field only.
proof fn lemma_field_is_the_only_difference(
    lead: Seq<char>,
    tail: Seq<char>,
    first: Seq<char>,
    second: Seq<char>,
)
    ensures
        same_but_for_field(
            lead + first + tail,
            lead + second + tail,
            lead.len(),
            tail.len(),
            first,
            second,
        ),
{
    let one = lead + first + tail;
    let other = lead + second + tail;
    assert(one.subrange(0, lead.len() as int) =~= lead);
    assert(other.subrange(0, lead.len() as int) =~= lead);
    assert(one.subrange(lead.len() as int, one.len() - tail.len()) =~= first);
    assert(other.subrange(lead.len() as int, other.len() - tail.len()) =~= second);
    assert(one.subrange(one.len() - tail.len(), one.len() as int) =~= tail);
    assert(other.subrange(other.len() - tail.len(), other.len() as int) =~= tail);
}

/// Rendering is a function of the counter and the elapsed time: two
/// unbounded frames for one counter are the same text but for the elapsed
/// time, which stands in each as it was given.
pub proof fn lemma_unbounded_frames_differ_in_elapsed_only(
    index: nat,
    first: Seq<char>,
    second: Seq<char>,
)
    ensures
        same_but_for_field(
            frame_text(unbounded_line(index, first)),
            frame_text(unbounded_line(index, second)),
            frame_text(unbounded_lead(index)).len(),
            unbounded_tail().len(),
            first,
            second,
        ),
        first == second ==> frame_text(unbounded_line(index, first)) == frame_text(
            unbounded_line(index, second),
        ),
{
    let lead = frame_text(unbounded_lead(index));
    lemma_field_is_the_only_difference(lead, unbounded_tail(), first, second);
    assert(frame_text(unbounded_line(index, first)) =~= lead + first + unbounded_tail());
    assert(frame_text(unbounded_line(index, second)) =~= lead + second + unbounded_tail());
}

/// Rendering is a function of the counter, the total, the delimiters and
/// the elapsed time: two bounded frames that agree in the first three are
/// the same text but for the elapsed time, which stands in each as it was
/// given.
pub proof fn lemma_bounded_frames_differ_in_elapsed_only(
    index: nat,
    total: nat,
    delims: (char, char),
    first: Seq<char>,
    second: Seq<char>,
)
    ensures
        same_but_for_field(
            frame_text(bounded_line(index, total, delims, first)),
            frame_text(bounded_line(index, total, delims, second)),
            frame_text(bounded_lead(index, total, delims)).len(),
            bounded_tail().len(),
            first,
            second,
        ),
        first == second ==> frame_text(bounded_line(index, total, delims, first)) == frame_text(
            bounded_line(index, total, delims, second),
        ),
{
    let lead = frame_text(bounded_lead(index, total, delims));
    lemma_field_is_the_only_difference(lead, bounded_tail(), first, second);
    assert(frame_text(bounded_line(index, total, delims, first)) =~= lead + first
        + bounded_tail());
    assert(frame_text(bounded_line(index, total, delims, second)) =~= lead + second
        + bounded_tail());
}

/// In a bounded status line the bar stands between the two delimiters that
/// the mode was given, wherever it got them: the opening one follows the
/// percentage, the closing one stands a bar's width behind it, and the
/// columns between them are the filled glyphs followed by the empty ones.
pub proof fn lemma_delimiters_enclose_bar(
    index: nat,
    total: nat,
    delims: (char, char),
    elapsed: Seq<char>,
)
    requires
        fits(index, total),
    ensures
        ({
            let line = bounded_line(index, total, delims, elapsed);
            let open = bar_start(index, total);
            let close = open + 1 + bar_width(total);
            &&& close < line.len()
            &&& line[open as int] == delims.0
            &&& line[close as int] == delims.1
            &&& forall|column: int|
                0 <= column < bar_width(total) ==> #[trigger] line[open + 1 + column] == (if column
                    < filled_columns(index, total) {
                    FILLED
                } else {
                    EMPTY
                })
        }),
{
    let strip = bar(index, total, delims);
    let rest = " "@ + decimal(index) + "/"@ + decimal(total) + " "@ + elapsed + bounded_tail();
    let line = bounded_line(index, total, delims, elapsed);
    let open = bar_start(index, total);
    assert(line =~= decimal(percent(index, total)) + "% "@ + strip + rest);
    assert forall|column: int| 0 <= column < strip.len() implies line[open + column]
        == strip[column] by {}
    let width = bar_width(total) as int;
    assert(line[open + 0int] == strip[0]);
    assert(line[open + (1 + width)] == strip[1 + width]);
    assert forall|column: int| 0 <= column < bar_width(total) implies #[trigger] line[open + 1
        + column] == (if column < filled_columns(index, total) {
        FILLED
    } else {
        EMPTY
    }) by {
        assert(line[open + (1 + column)] == strip[1 + column]);
    }
}

} // verus!
