//! The colour spaces a card can be shown in, and a card's channels.

use vstd::prelude::*;

use crate::channel::{Channel, Number, ONE_BITS};

verus! {

/// The supported colour spaces, as offered in the space selector.
#[derive(Clone, Copy, Debug, PartialEq, Eq, Structural)]
pub enum ColorSpaceCombo {
    Rgb,
    Hsv,
    Oklab,
    Oklch,
    Cmyk,
}

impl ColorSpaceCombo {
    /// The spaces in the order the space selector offers them.
    pub fn all() -> (r: Vec<ColorSpaceCombo>)
        ensures
            r@ == seq![
                ColorSpaceCombo::Rgb,
                ColorSpaceCombo::Hsv,
                ColorSpaceCombo::Oklab,
                ColorSpaceCombo::Oklch,
                ColorSpaceCombo::Cmyk,
            ],
    {
        let r = vec![
            ColorSpaceCombo::Rgb,
            ColorSpaceCombo::Hsv,
            ColorSpaceCombo::Oklab,
            ColorSpaceCombo::Oklch,
            ColorSpaceCombo::Cmyk,
        ];
        assert(r@ =~= seq![
            ColorSpaceCombo::Rgb,
            ColorSpaceCombo::Hsv,
            ColorSpaceCombo::Oklab,
            ColorSpaceCombo::Oklch,
            ColorSpaceCombo::Cmyk,
        ]);
        r
    }

    /// How many channels a card of this space has.
    pub open spec fn spec_channel_count(self) -> nat {
        match self {
            ColorSpaceCombo::Cmyk => 4,
            _ => 3,
        }
    }

    /// How many channels a card of this space has.
    pub fn channel_count(&self) -> (r: usize)
        ensures
            r == self.spec_channel_count(),
    {
        match self {
            ColorSpaceCombo::Cmyk => 4,
            _ => 3,
        }
    }
}

/// The text that `,`-and-space separated `parts` make.
pub open spec fn joined(parts: Seq<Seq<char>>) -> Seq<char>
    decreases parts.len(),
{
    if parts.len() == 0 {
        Seq::empty()
    } else if parts.len() == 1 {
        parts[0]
    } else {
        joined(parts.drop_last()) + seq![',', ' '] + parts.last()
    }
}

/// Whether `cells` are the cells freshly made from `values`: each holds its
/// value and shows that value's rendering.
pub open spec fn fresh_cells(cells: Seq<Channel>, values: Seq<Number>) -> bool {
    &&& cells.len() == values.len()
    &&& forall|i: int| 0 <= i < cells.len() ==> (#[trigger] cells[i]).value == values[i]
        && cells[i].text@ == values[i].text@
}

/// Whether `after` is `before` with a numeric edit of cell `index` to `value`.
pub open spec fn value_edited(before: Seq<Channel>, after: Seq<Channel>, index: int, value: Number) -> bool {
    &&& 0 <= index < before.len()
    &&& after == before.update(index, after[index])
    &&& after[index].value == value
    &&& after[index].text@ == value.text@
}

/// Whether `after` is `before` with a text edit of cell `index` to `text`,
/// which read as `parsed`.
pub open spec fn text_edited(
    before: Seq<Channel>,
    after: Seq<Channel>,
    index: int,
    text: String,
    parsed: Option<Number>,
) -> bool {
    &&& 0 <= index < before.len()
    &&& after == before.update(index, after[index])
    &&& after[index].text == text
    &&& after[index].value == (match parsed {
        Some(v) => v,
        None => before[index].value,
    })
}

fn edit_value<const N: usize>(cells: &mut [Channel; N], index: usize, value: Number)
    requires
        index < N,
    ensures
        value_edited(old(cells)@, final(cells)@, index as int, value),
{
    cells[index] = Channel::new(value);
    assert(final(cells)@ == old(cells)@.update(index as int, final(cells)@[index as int]));
}

fn edit_text<const N: usize>(
    cells: &mut [Channel; N],
    index: usize,
    text: String,
    parsed: Option<Number>,
)
    requires
        index < N,
    ensures
        text_edited(old(cells)@, final(cells)@, index as int, text, parsed),
{
    let value = match parsed {
        Some(v) => v,
        None => cells[index].value.duplicate(),
    };
    cells[index] = Channel { value, text };
}

/// The value texts of `cells`, `,`-and-space separated.
fn join_values<const N: usize>(cells: &[Channel; N]) -> (r: String)
    ensures
        r@ == joined(value_texts(cells@)),
{
    let mut out = String::new();
    let mut i: usize = 0;
    while i < N
        invariant
            i <= N,
            N == cells@.len(),
            out@ == joined(value_texts(cells@).take(i as int)),
        decreases N - i,
    {
        let ghost parts = value_texts(cells@);
        assert(parts.take(i + 1).drop_last() == parts.take(i as int));
        if i > 0 {
            out.append(", ");
            proof {
                reveal_strlit(", ");
            }
        }
        out.append(cells[i].value.text.as_str());
        i = i + 1;
    }
    assert(value_texts(cells@).take(N as int) == value_texts(cells@));
    out
}

/// The rendered values of `cells`, in order.
pub open spec fn value_texts(cells: Seq<Channel>) -> Seq<Seq<char>> {
    cells.map_values(|c: Channel| c.value.text@)
}

/// A colour card in one of the supported spaces: one cell per channel, in the
/// space's channel order.
pub enum ColorSpace {
    /// Red, green, blue.
    Rgb([Channel; 3]),
    /// Hue in degrees, saturation, value.
    Hsv([Channel; 3]),
    /// Lightness, green-red, blue-yellow.
    Oklab([Channel; 3]),
    /// Lightness, chroma, hue in degrees.
    Oklch([Channel; 3]),
    /// Cyan, magenta, yellow, black.
    Cmyk([Channel; 4]),
}

impl ColorSpace {
    /// The space this card is shown in.
    pub open spec fn spec_kind(self) -> ColorSpaceCombo {
        match self {
            ColorSpace::Rgb(_) => ColorSpaceCombo::Rgb,
            ColorSpace::Hsv(_) => ColorSpaceCombo::Hsv,
            ColorSpace::Oklab(_) => ColorSpaceCombo::Oklab,
            ColorSpace::Oklch(_) => ColorSpaceCombo::Oklch,
            ColorSpace::Cmyk(_) => ColorSpaceCombo::Cmyk,
        }
    }

    /// The card's cells in channel order.
    pub open spec fn cells(self) -> Seq<Channel> {
        match self {
            ColorSpace::Rgb(c) => c@,
            ColorSpace::Hsv(c) => c@,
            ColorSpace::Oklab(c) => c@,
            ColorSpace::Oklch(c) => c@,
            ColorSpace::Cmyk(c) => c@,
        }
    }

    /// The card's channel values in channel order.
    pub open spec fn values(self) -> Seq<Number> {
        self.cells().map_values(|c: Channel| c.value)
    }

    /// A card of space `kind` whose channels hold `values`, in channel order,
    /// each showing its value's rendering.
    pub fn from_values(kind: ColorSpaceCombo, values: Vec<Number>) -> (r: ColorSpace)
        requires
            values@.len() == kind.spec_channel_count(),
        ensures
            r.spec_kind() == kind,
            fresh_cells(r.cells(), values@),
    {
        let ghost vs = values@;
        let mut rest = values;
        let a = Channel::new(rest.remove(0));
        let b = Channel::new(rest.remove(0));
        let c = Channel::new(rest.remove(0));
        let r = match kind {
            ColorSpaceCombo::Rgb => ColorSpace::Rgb([a, b, c]),
            ColorSpaceCombo::Hsv => ColorSpace::Hsv([a, b, c]),
            ColorSpaceCombo::Oklab => ColorSpace::Oklab([a, b, c]),
            ColorSpaceCombo::Oklch => ColorSpace::Oklch([a, b, c]),
            ColorSpaceCombo::Cmyk => {
                let d = Channel::new(rest.remove(0));
                ColorSpace::Cmyk([a, b, c, d])
            },
        };
        assert(fresh_cells(r.cells(), vs));
        r
    }

    /// Rebuilds the card's channels, in the same space, from `values`: the
    /// channel values of this space for a colour that arrived from elsewhere.
    pub fn set_values(&mut self, values: Vec<Number>)
        requires
            values@.len() == old(self).spec_kind().spec_channel_count(),
        ensures
            final(self).spec_kind() == old(self).spec_kind(),
            fresh_cells(final(self).cells(), values@),
    {
        let kind = self.kind();
        *self = ColorSpace::from_values(kind, values);
    }

    /// Whether this is an opaque white RGB card: every channel holds one
    /// and shows `1`.
    pub open spec fn is_white(self) -> bool {
        &&& self.spec_kind() == ColorSpaceCombo::Rgb
        &&& forall|i: int| 0 <= i < self.cells().len() ==> (#[trigger] self.cells()[i]).value.bits == ONE_BITS
            && self.cells()[i].value.text@ == seq!['1']
            && self.cells()[i].text@ == seq!['1']
    }

    /// The space this card is shown in.
    pub fn kind(&self) -> (r: ColorSpaceCombo)
        ensures
            r == self.spec_kind(),
    {
        match self {
            ColorSpace::Rgb(_) => ColorSpaceCombo::Rgb,
            ColorSpace::Hsv(_) => ColorSpaceCombo::Hsv,
            ColorSpace::Oklab(_) => ColorSpaceCombo::Oklab,
            ColorSpace::Oklch(_) => ColorSpaceCombo::Oklch,
            ColorSpace::Cmyk(_) => ColorSpaceCombo::Cmyk,
        }
    }

    /// The cell of channel `index`.
    pub fn channel(&self, index: usize) -> (r: &Channel)
        requires
            index < self.spec_kind().spec_channel_count(),
        ensures
            *r == self.cells()[index as int],
    {
        match self {
            ColorSpace::Rgb(c) => &c[index],
            ColorSpace::Hsv(c) => &c[index],
            ColorSpace::Oklab(c) => &c[index],
            ColorSpace::Oklch(c) => &c[index],
            ColorSpace::Cmyk(c) => &c[index],
        }
    }

    /// Sets channel `index` to `value` and shows its rendering there.
    pub fn change_value(&mut self, index: usize, value: Number)
        requires
            index < old(self).spec_kind().spec_channel_count(),
        ensures
            final(self).spec_kind() == old(self).spec_kind(),
            value_edited(old(self).cells(), final(self).cells(), index as int, value),
    {
        match self {
            ColorSpace::Rgb(c) => edit_value(c, index, value),
            ColorSpace::Hsv(c) => edit_value(c, index, value),
            ColorSpace::Oklab(c) => edit_value(c, index, value),
            ColorSpace::Oklch(c) => edit_value(c, index, value),
            ColorSpace::Cmyk(c) => edit_value(c, index, value),
        }
    }

    /// Shows `string` in channel `index`; its value becomes `parsed` when the
    /// string read as a number and stays as it was otherwise.
    pub fn change_string(&mut self, index: usize, string: String, parsed: Option<Number>)
        requires
            index < old(self).spec_kind().spec_channel_count(),
        ensures
            final(self).spec_kind() == old(self).spec_kind(),
            text_edited(old(self).cells(), final(self).cells(), index as int, string, parsed),
    {
        match self {
            ColorSpace::Rgb(c) => edit_text(c, index, string, parsed),
            ColorSpace::Hsv(c) => edit_text(c, index, string, parsed),
            ColorSpace::Oklab(c) => edit_text(c, index, string, parsed),
            ColorSpace::Oklch(c) => edit_text(c, index, string, parsed),
            ColorSpace::Cmyk(c) => edit_text(c, index, string, parsed),
        }
    }

    /// The clipboard form of the card: its channel values in channel order,
    /// `,`-and-space separated.
    pub fn copy_to_clipboard(&self) -> (r: String)
        ensures
            r@ == joined(value_texts(self.cells())),
    {
        match self {
            ColorSpace::Rgb(c) => join_values(c),
            ColorSpace::Hsv(c) => join_values(c),
            ColorSpace::Oklab(c) => join_values(c),
            ColorSpace::Oklch(c) => join_values(c),
            ColorSpace::Cmyk(c) => join_values(c),
        }
    }
}

/// An edit of one channel of a card.
pub enum ColorSpaceMessage {
    /// A new value for channel `index`, from a slider.
    ChangeValue { index: usize, value: Number },
    /// New text for channel `index`, from a text field; `parsed` is what the
    /// text reads as a number, if it reads as one.
    ChangeString { index: usize, string: String, parsed: Option<Number> },
}

impl ColorSpaceMessage {
    /// The channel the edit is for.
    pub open spec fn channel(self) -> usize {
        match self {
            ColorSpaceMessage::ChangeValue { index, .. } => index,
            ColorSpaceMessage::ChangeString { index, .. } => index,
        }
    }
}

impl ColorSpace {
    /// Whether `after` is this card with `message` applied.
    pub open spec fn edited(self, after: ColorSpace, message: ColorSpaceMessage) -> bool {
        &&& after.spec_kind() == self.spec_kind()
        &&& match message {
            ColorSpaceMessage::ChangeValue { index, value } => value_edited(
                self.cells(),
                after.cells(),
                index as int,
                value,
            ),
            ColorSpaceMessage::ChangeString { index, string, parsed } => text_edited(
                self.cells(),
                after.cells(),
                index as int,
                string,
                parsed,
            ),
        }
    }

    /// Applies an edit of one of the card's channels.
    pub fn apply(&mut self, message: ColorSpaceMessage)
        requires
            message.channel() < old(self).spec_kind().spec_channel_count(),
        ensures
            old(self).edited(*final(self), message),
    {
        match message {
            ColorSpaceMessage::ChangeValue { index, value } => self.change_value(index, value),
            ColorSpaceMessage::ChangeString { index, string, parsed } => self.change_string(
                index,
                string,
                parsed,
            ),
        }
    }
}

impl Default for ColorSpace {
    /// An opaque white RGB card.
    fn default() -> (r: ColorSpace)
        ensures
            r.is_white(),
    {
        ColorSpace::Rgb([Channel::new(Number::one()), Channel::new(Number::one()), Channel::new(Number::one())])
    }
}

} // verus!
