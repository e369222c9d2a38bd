//! The bar itself: an iterator, the number of elements taken from it, the
//! clock reading at which the current mode began, and the mode.
//!
//! The bar keeps no clock of its own. Whoever drives it passes the reading
//! of one clock, in ticks of any length that never run backwards, to the
//! functions that start a mode, and gets the ticks that have passed since
//! from [`ProgressBar::elapsed`].

use vstd::prelude::*;
use vstd::std_specs::iter::IteratorSpec;
use crate::display::{frame_text, Bounded, ProgressBarDisplay, Unbounded};

verus! {

/// An iterator together with what is needed to report on its progress.
///
/// `Bound` is the mode of the bar: [`Unbounded`] while the number of
/// elements is unknown, [`crate::display::Bounded`] once it has been fixed.
pub struct ProgressBar<Iter, Bound> {
    iter: Iter,
    index: usize,
    start: u64,
    bound: Bound,
}

impl<Iter, Bound> ProgressBar<Iter, Bound> {
    /// Number of elements that have been asked for so far.
    pub closed spec fn counter(&self) -> nat {
        self.index as nat
    }

    /// Clock reading at which the current mode began.
    pub closed spec fn started(&self) -> nat {
        self.start as nat
    }

    /// The mode of the bar.
    pub closed spec fn mode(&self) -> Bound {
        self.bound
    }

    /// The wrapped iterator.
    pub closed spec fn producer(&self) -> Iter {
        self.iter
    }

    /// Time that has passed in the current mode when the clock reads `now`.
    /// A reading from before the mode began counts as no time at all.
    pub open spec fn elapsed_at(&self, now: nat) -> nat {
        if now >= self.started() {
            (now - self.started()) as nat
        } else {
            0
        }
    }

    /// Number of elements that have been asked for so far.
    pub fn index(&self) -> (index: usize)
        ensures
            index == self.counter(),
    {
        self.index
    }

    /// The mode of the bar.
    pub fn bound(&self) -> (bound: &Bound)
        ensures
            *bound == self.mode(),
    {
        &self.bound
    }

    /// Time that has passed in the current mode when the clock reads `now`.
    pub fn elapsed(&self, now: u64) -> (ticks: u64)
        ensures
            ticks == self.elapsed_at(now as nat),
    {
        if now >= self.start {
            now - self.start
        } else {
            0
        }
    }
}

impl<Iter: Iterator> ProgressBar<Iter, Unbounded> {
    /// Wraps `iter` in a bar whose total is unknown. `now` is the current
    /// reading of the caller's clock; elapsed time is counted from it.
    pub fn new(iter: Iter, now: u64) -> (bar: Self)
        ensures
            bar.counter() == 0,
            bar.started() == now,
            bar.mode() == Unbounded,
            bar.producer() == iter,
    {
        ProgressBar { iter, index: 0, start: now, bound: Unbounded }
    }
}

/// `ExactSizeIterator::len` reports how many elements the iterator says it
/// has left. How it arrives at the number is up to the iterator, so nothing
/// is claimed of it.
#[verifier::external_body]
fn remaining_len<Iter: ExactSizeIterator>(iter: &Iter) -> (len: usize) {
    iter.len()
}

impl<Iter: ExactSizeIterator> ProgressBar<Iter, Unbounded> {
    /// Fixes the total at the number of elements that the iterator reports
    /// as left, and starts the clock anew at `now`: no time has passed in
    /// the new mode, however long the bar was unbounded. The counter is
    /// kept, and the bar stands between `[` and `]`.
    pub fn with_bounds(self, now: u64) -> (bar: ProgressBar<Iter, Bounded>)
        ensures
            bar.counter() == self.counter(),
            bar.started() == now,
            bar.elapsed_at(now as nat) == 0,
            bar.mode().delimiters() == ('[', ']'),
            bar.producer() == self.producer(),
    {
        let total = remaining_len(&self.iter);
        self.with_total(total, now)
    }

    /// Fixes the total at `total` and starts the clock anew at `now`: no
    /// time has passed in the new mode, however long the bar was unbounded.
    /// The counter is kept, and the bar stands between `[` and `]`.
    pub fn with_total(self, total: usize, now: u64) -> (bar: ProgressBar<Iter, Bounded>)
        ensures
            bar.counter() == self.counter(),
            bar.started() == now,
            bar.elapsed_at(now as nat) == 0,
            bar.mode().total() == total,
            bar.mode().delimiters() == ('[', ']'),
            bar.producer() == self.producer(),
    {
        ProgressBar { iter: self.iter, index: self.index, start: now, bound: Bounded::new(total) }
    }
}

impl<Iter: ExactSizeIterator> ProgressBar<Iter, Bounded> {
    /// Puts the bar between `delims.0` and `delims.1`.
    pub fn with_delims(self, delims: (char, char)) -> (bar: Self)
        ensures
            bar.counter() == self.counter(),
            bar.started() == self.started(),
            bar.mode().total() == self.mode().total(),
            bar.mode().delimiters() == delims,
            bar.producer() == self.producer(),
    {
        ProgressBar {
            iter: self.iter,
            index: self.index,
            start: self.start,
            bound: self.bound.with_delims(delims),
        }
    }
}

impl<Iter: Iterator, Bound: ProgressBarDisplay> ProgressBar<Iter, Bound> {
    /// Renders the frame that belongs before the next element is taken, with
    /// `elapsed` as the text of the elapsed time in seconds. There is none
    /// where the mode has no status line for the counter.
    pub fn render(&self, elapsed: &str) -> (frame: Option<String>)
        ensures
            match frame {
                Some(text) => self.mode().shows(self.counter()) && text@ == frame_text(
                    self.mode().status_line(self.counter(), elapsed@),
                ),
                None => !self.mode().shows(self.counter()),
            },
    {
        if self.bound.can_display(self) {
            Some(self.bound.display(self, elapsed))
        } else {
            None
        }
    }

    /// Takes the next element from the wrapped iterator and counts the
    /// request, whether or not an element came.
    pub fn next(&mut self) -> (item: Option<Iter::Item>)
        requires
            old(self).counter() < usize::MAX,
        ensures
            final(self).counter() == old(self).counter() + 1,
            final(self).counter() == counter_after(old(self).counter(), 1),
            final(self).started() == old(self).started(),
            final(self).mode() == old(self).mode(),
            final(self).producer().obeys_prophetic_iter_laws() == old(
                self,
            ).producer().obeys_prophetic_iter_laws(),
            final(self).producer().obeys_prophetic_iter_laws() ==> (if old(
                self,
            ).producer().remaining().len() > 0 {
                &&& item == Some(old(self).producer().remaining()[0])
                &&& final(self).producer().remaining() == old(
                    self,
                ).producer().remaining().drop_first()
            } else {
                &&& item is None
                &&& final(self).producer().remaining() == old(self).producer().remaining()
            }),
    {
        proof {
            lemma_counter_counts_retrievals(self.counter(), 1);
        }
        self.index += 1;
        self.iter.next()
    }
}

/// The counter of a bar that stood at `first`, after `retrievals` calls of
/// [`ProgressBar::next`]: each call adds one.
pub open spec fn counter_after(first: nat, retrievals: nat) -> nat
    decreases retrievals,
{
    if retrievals == 0 {
        first
    } else {
        counter_after(first, (retrievals - 1) as nat) + 1
    }
}

/// The counter has risen by the number of retrievals.
pub proof fn lemma_counter_counts_retrievals(first: nat, retrievals: nat)
    ensures
        counter_after(first, retrievals) == first + retrievals,
    decreases retrievals,
{
    if retrievals > 0 {
        lemma_counter_counts_retrievals(first, (retrievals - 1) as nat);
    }
}

/// A frame is rendered before its element is taken. So the frame of the
/// `nth` retrieval from a new bar, whose counter starts at zero, sees the
/// counter after `nth - 1` retrievals, and that is `nth - 1`, in whatever
/// mode the bar is by then.
pub proof fn lemma_nth_frame_shows_retrievals_before<Bound: ProgressBarDisplay>(
    mode: Bound,
    nth: nat,
    elapsed: Seq<char>,
)
    requires
        nth >= 1,
    ensures
        counter_after(0, (nth - 1) as nat) == nth - 1,
        mode.status_line(counter_after(0, (nth - 1) as nat), elapsed) == mode.status_line(
            (nth - 1) as nat,
            elapsed,
        ),
{
    lemma_counter_counts_retrievals(0, (nth - 1) as nat);
}

} // verus!
