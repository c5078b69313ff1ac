//! Editable colour cards: per-channel value/text cells, a closed sum over the
//! supported colour spaces, and the workspace of cards that a picker edits.
//!
//! Channel values are single-precision numbers. The library stores and moves
//! them but never computes with them: each arrives as a [`Number`], its bit
//! pattern together with its decimal rendering, and the conversions between
//! spaces are computed by the caller.

pub mod channel;
pub mod colorspace;
pub mod lazy;
pub mod picker;

pub use channel::{Channel, Number, ONE_BITS};
pub use colorspace::{ColorSpace, ColorSpaceCombo, ColorSpaceMessage};
pub use lazy::Lazy;
pub use picker::{key_action, Action, ColorPicker, Message, Task};
