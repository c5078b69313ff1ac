//! A single editable channel: a typed number and the text the user sees.

use vstd::prelude::*;

verus! {

/// A single-precision channel value, carried as its IEEE-754 bit pattern
/// together with its canonical decimal rendering.
///
/// The library never computes with the value: it stores it, moves it between
/// cells and prints its rendering.
pub struct Number {
    pub bits: u32,
    pub text: String,
}

/// Bit pattern of the single-precision value one.
pub const ONE_BITS: u32 = 0x3F80_0000;

impl Number {
    /// The value one, rendered as `1`.
    pub fn one() -> (r: Number)
        ensures
            r.bits == ONE_BITS,
            r.text@ == seq!['1'],
    {
        let text = String::from_str("1");
        proof {
            reveal_strlit("1");
        }
        Number { bits: ONE_BITS, text }
    }

    /// A copy of this number.
    pub fn duplicate(&self) -> (r: Number)
        ensures
            r == *self,
    {
        Number { bits: self.bits, text: self.text.clone() }
    }
}

/// An editable channel: the authoritative value and the last text shown for it.
///
/// A numeric edit rewrites the text from the value; a text edit keeps the
/// text verbatim and moves the value only when the text parsed.
pub struct Channel {
    pub value: Number,
    pub text: String,
}

impl Channel {
    /// A channel holding `value`, showing its rendering.
    pub fn new(value: Number) -> (r: Channel)
        ensures
            r.value == value,
            r.text@ == value.text@,
    {
        let text = value.text.clone();
        Channel { value, text }
    }

    /// Sets the value and regenerates the text from it.
    pub fn set_value(&mut self, value: Number)
        ensures
            final(self).value == value,
            final(self).text@ == value.text@,
    {
        self.text = value.text.clone();
        self.value = value;
    }

    /// Stores `text` verbatim. `parsed` is what `text` reads as a number, if
    /// it reads as one; only then does the value change.
    pub fn set_text(&mut self, text: String, parsed: Option<Number>)
        ensures
            final(self).text == text,
            final(self).value == (match parsed {
                Some(v) => v,
                None => old(self).value,
            }),
    {
        if let Some(v) = parsed {
            self.value = v;
        }
        self.text = text;
    }
}

} // verus!
