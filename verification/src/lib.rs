//! Progress reporting for a loop that walks a sequence.
//!
//! A [`ProgressBar`] wraps an iterator. Before each element is taken, the
//! bar renders one status frame: the elapsed time and the number of
//! elements taken so far and, once the total is known, a percentage and a
//! bar of glyphs. A frame begins with the control sequence that lets it
//! overwrite the frame before it.
//!
//! The crate computes the frames and forwards the elements. Writing the
//! frames to a terminal, reading the clock and putting the elapsed seconds
//! into text are left to the caller:
//!
//! ```text
//! let mut bar = ProgressBar::new(items.iter(), clock()).with_bounds(clock());
//! loop {
//!     let seconds = in_seconds(bar.elapsed(clock()));
//!     if let Some(frame) = bar.render(&seconds) {
//!         println!("{}", frame);
//!     }
//!     match bar.next() {
//!         Some(item) => work_on(item),
//!         None => break,
//!     }
//! }
//! ```
//!
//! The modules: [`layout`] holds the arithmetic of the bar, [`text`] the
//! pieces of text, [`display`] the two modes and their status lines, and
//! [`progress`] the bar itself.

pub mod display;
pub mod layout;
pub mod progress;
pub mod text;

pub use display::{Bounded, ProgressBarDisplay, Unbounded};
pub use progress::ProgressBar;
