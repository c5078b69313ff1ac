//! The workspace of colour cards and the decisions a picker takes on each
//! message: what changes in the cards, and what outside work to start.

use vstd::prelude::*;

use crate::channel::Number;
use crate::colorspace::{
    fresh_cells, joined, value_texts, ColorSpace, ColorSpaceCombo, ColorSpaceMessage,
};

verus! {

/// A menu or shortcut action.
#[derive(Clone, Copy, Debug, PartialEq, Eq, Structural)]
pub enum Action {
    ToggleGraphs,
    About,
}

impl Action {
    /// The message that performs the action.
    pub fn message(&self) -> (r: Message)
        ensures
            r == (match self {
                Action::ToggleGraphs => Message::ToggleGraphs,
                Action::About => Message::ToggleAboutPage,
            }),
    {
        match self {
            Action::ToggleGraphs => Message::ToggleGraphs,
            Action::About => Message::ToggleAboutPage,
        }
    }
}

/// The key binding of the menu actions: control and `g` toggles the graphs.
pub open spec fn spec_key_action(character: char, ctrl: bool) -> Option<Action> {
    if ctrl && character == 'g' {
        Some(Action::ToggleGraphs)
    } else {
        None
    }
}

/// The menu action bound to `character`, pressed with control alone when
/// `ctrl` holds.
pub fn key_action(character: char, ctrl: bool) -> (r: Option<Action>)
    ensures
        r == spec_key_action(character, ctrl),
{
    if ctrl && character == 'g' {
        Some(Action::ToggleGraphs)
    } else {
        None
    }
}

/// What a picker is told: user input, and the answers of outside work.
pub enum Message {
    Nothing,
    /// An edit of a channel of card `index`.
    ColorSpace { index: usize, message: ColorSpaceMessage },
    /// Show card `index` in space `selected`; `values` are the channel values
    /// in that space of the colour the card shows.
    ChangeColorSpace { index: usize, selected: ColorSpaceCombo, values: Vec<Number> },
    AddSpace,
    RemoveSpace(usize),
    ToggleGraphs,
    ToggleAboutPage,
    LaunchUrl(String),
    CopyToClipboard(usize),
    /// Ask for a colour picked from the screen, for card `index`.
    PickScreenRequest(usize),
    /// The picked colour for card `index`, as channel values of space `kind`.
    PickScreenResponse { index: usize, kind: ColorSpaceCombo, values: Vec<Number> },
    /// A character key pressed; `ctrl` when control alone was held.
    Key { character: char, ctrl: bool },
}

/// Outside work that a message calls for.
pub enum Task {
    Nothing,
    /// Put this text on the clipboard.
    SetClipboard(String),
    /// Ask the desktop for a colour from the screen, for card `index`.
    PickScreen(usize),
    /// Open this address in a browser.
    LaunchUrl(String),
}

/// The cards a user has open, in display order, and what the picker shows.
pub struct ColorPicker {
    /// The cards; a card's position is its index.
    pub spaces: Vec<ColorSpace>,
    /// The card that was edited last: the target of the copy shortcut.
    pub last_edited: usize,
    /// Whether the cards show their colour graphs.
    pub show_graphs: bool,
    /// Whether the about page is open.
    pub show_about: bool,
}

impl ColorPicker {
    /// A picker with one opaque white RGB card.
    pub fn new() -> (r: ColorPicker)
        ensures
            r.spaces@.len() == 1,
            r.spaces@[0].is_white(),
            r.last_edited == 0,
            !r.show_graphs,
            !r.show_about,
    {
        let mut spaces: Vec<ColorSpace> = Vec::new();
        spaces.push(ColorSpace::default());
        ColorPicker { spaces, last_edited: 0, show_graphs: false, show_about: false }
    }

    /// Appends an opaque white RGB card.
    pub fn add(&mut self)
        ensures
            final(self).spaces@.len() == old(self).spaces@.len() + 1,
            final(self).spaces@.drop_last() == old(self).spaces@,
            final(self).spaces@.last().is_white(),
            final(self).last_edited == old(self).last_edited,
            final(self).show_graphs == old(self).show_graphs,
            final(self).show_about == old(self).show_about,
    {
        self.spaces.push(ColorSpace::default());
        assert(self.spaces@.drop_last() == old(self).spaces@);
    }

    /// Removes card `index`; the cards after it move down by one.
    pub fn remove(&mut self, index: usize)
        requires
            index < old(self).spaces@.len(),
        ensures
            final(self).spaces@ == old(self).spaces@.remove(index as int),
            final(self).last_edited == old(self).last_edited,
            final(self).show_graphs == old(self).show_graphs,
            final(self).show_about == old(self).show_about,
    {
        self.spaces.remove(index);
    }

    /// Replaces card `index` by a card of space `selected` holding `values`,
    /// the channel values in that space of the colour the card showed.
    pub fn change_space(&mut self, index: usize, selected: ColorSpaceCombo, values: Vec<Number>)
        requires
            index < old(self).spaces@.len(),
            values@.len() == selected.spec_channel_count(),
        ensures
            final(self).spaces@ == old(self).spaces@.update(index as int, final(self).spaces@[index as int]),
            final(self).spaces@[index as int].spec_kind() == selected,
            fresh_cells(final(self).spaces@[index as int].cells(), values@),
            final(self).last_edited == old(self).last_edited,
            final(self).show_graphs == old(self).show_graphs,
            final(self).show_about == old(self).show_about,
    {
        let card = ColorSpace::from_values(selected, values);
        self.spaces.set(index, card);
    }

    /// Rebuilds card `index` from a colour picked outside the picker:
    /// `values` are that colour's channel values in space `kind`. The pick may
    /// arrive after its card was removed or moved to another space; it is then
    /// dropped. Returns whether the card was rebuilt.
    pub fn pick_response(&mut self, index: usize, kind: ColorSpaceCombo, values: Vec<Number>) -> (r: bool)
        ensures
            r == (index < old(self).spaces@.len()
                && old(self).spaces@[index as int].spec_kind() == kind
                && values@.len() == kind.spec_channel_count()),
            r ==> final(self).spaces@ == old(self).spaces@.update(index as int, final(self).spaces@[index as int]),
            r ==> final(self).spaces@[index as int].spec_kind() == kind,
            r ==> fresh_cells(final(self).spaces@[index as int].cells(), values@),
            !r ==> *final(self) == *old(self),
            final(self).last_edited == old(self).last_edited,
            final(self).show_graphs == old(self).show_graphs,
            final(self).show_about == old(self).show_about,
    {
        if index >= self.spaces.len() || values.len() != kind.channel_count() {
            return false;
        }
        if self.spaces[index].kind() != kind {
            return false;
        }
        self.spaces[index].set_values(values);
        true
    }

    /// The clipboard form of card `index`.
    pub fn clipboard_text_for(&self, index: usize) -> (r: String)
        requires
            index < self.spaces@.len(),
        ensures
            r@ == joined(value_texts(self.spaces@[index as int].cells())),
    {
        self.spaces[index].copy_to_clipboard()
    }

    /// Applies an edit to card `index`, which becomes the last edited card.
    pub fn edit(&mut self, index: usize, message: ColorSpaceMessage)
        requires
            index < old(self).spaces@.len(),
            message.channel() < old(self).spaces@[index as int].spec_kind().spec_channel_count(),
        ensures
            final(self).spaces@ == old(self).spaces@.update(index as int, final(self).spaces@[index as int]),
            old(self).spaces@[index as int].edited(final(self).spaces@[index as int], message),
            final(self).last_edited == index,
            final(self).show_graphs == old(self).show_graphs,
            final(self).show_about == old(self).show_about,
    {
        self.spaces[index].apply(message);
        self.last_edited = index;
    }
}

impl ColorPicker {
    /// Whether `after` keeps the last edited card and both display flags.
    pub open spec fn same_flags(self, after: ColorPicker) -> bool {
        &&& after.last_edited == self.last_edited
        &&& after.show_graphs == self.show_graphs
        &&& after.show_about == self.show_about
    }

    /// Whether `after` is this picker with card `index` rebuilt in space
    /// `kind` from `values`.
    pub open spec fn card_rebuilt(
        self,
        after: ColorPicker,
        index: int,
        kind: ColorSpaceCombo,
        values: Seq<Number>,
    ) -> bool {
        &&& 0 <= index < self.spaces@.len()
        &&& after.spaces@ == self.spaces@.update(index, after.spaces@[index])
        &&& after.spaces@[index].spec_kind() == kind
        &&& fresh_cells(after.spaces@[index].cells(), values)
        &&& self.same_flags(after)
    }

    /// Whether `task` puts card `index`'s clipboard form on the clipboard.
    pub open spec fn copies(self, index: int, task: Task) -> bool {
        &&& 0 <= index < self.spaces@.len()
        &&& task matches Task::SetClipboard(text)
        &&& text@ == joined(value_texts(self.spaces@[index].cells()))
    }

    /// This picker after `action`: it toggles the graphs or the about page.
    pub open spec fn performed(self, action: Action) -> ColorPicker {
        match action {
            Action::ToggleGraphs => ColorPicker { show_graphs: !self.show_graphs, ..self },
            Action::About => ColorPicker { show_about: !self.show_about, ..self },
        }
    }

    /// Whether the picker can take `message`: the card and channel indices it
    /// names exist, and converted values fit the target space.
    pub open spec fn accepts(self, message: Message) -> bool {
        match message {
            Message::ColorSpace { index, message } => index < self.spaces@.len()
                && message.channel() < self.spaces@[index as int].spec_kind().spec_channel_count(),
            Message::ChangeColorSpace { index, selected, values } => index < self.spaces@.len()
                && values@.len() == selected.spec_channel_count(),
            Message::RemoveSpace(index) => index < self.spaces@.len(),
            Message::CopyToClipboard(index) => index < self.spaces@.len(),
            _ => true,
        }
    }

    /// Whether the picker can take `message`: see [`ColorPicker::accepts`].
    pub fn can_take(&self, message: &Message) -> (r: bool)
        ensures
            r == self.accepts(*message),
    {
        match message {
            Message::ColorSpace { index, message } => *index < self.spaces.len() && match message {
                ColorSpaceMessage::ChangeValue { index: channel, .. } => *channel
                    < self.spaces[*index].kind().channel_count(),
                ColorSpaceMessage::ChangeString { index: channel, .. } => *channel
                    < self.spaces[*index].kind().channel_count(),
            },
            Message::ChangeColorSpace { index, selected, values } => *index < self.spaces.len()
                && values.len() == selected.channel_count(),
            Message::RemoveSpace(index) => *index < self.spaces.len(),
            Message::CopyToClipboard(index) => *index < self.spaces.len(),
            _ => true,
        }
    }

    /// Whether `after` and `task` are what the picker in state `self` comes
    /// to on `message`.
    pub open spec fn step(self, message: Message, after: ColorPicker, task: Task) -> bool {
        match message {
            Message::Nothing => after == self && task is Nothing,
            Message::ColorSpace { index, message } => {
                &&& after.spaces@ == self.spaces@.update(index as int, after.spaces@[index as int])
                &&& self.spaces@[index as int].edited(after.spaces@[index as int], message)
                &&& after.last_edited == index
                &&& after.show_graphs == self.show_graphs
                &&& after.show_about == self.show_about
                &&& task is Nothing
            },
            Message::ChangeColorSpace { index, selected, values } => self.card_rebuilt(
                after,
                index as int,
                selected,
                values@,
            ) && task is Nothing,
            Message::AddSpace => {
                &&& after.spaces@.len() == self.spaces@.len() + 1
                &&& after.spaces@.drop_last() == self.spaces@
                &&& after.spaces@.last().is_white()
                &&& self.same_flags(after)
                &&& task is Nothing
            },
            Message::RemoveSpace(index) => {
                &&& after.spaces@ == self.spaces@.remove(index as int)
                &&& self.same_flags(after)
                &&& task is Nothing
            },
            Message::ToggleGraphs => after == self.performed(Action::ToggleGraphs) && task is Nothing,
            Message::ToggleAboutPage => after == self.performed(Action::About) && task is Nothing,
            Message::LaunchUrl(url) => after == self && task == Task::LaunchUrl(url),
            Message::CopyToClipboard(index) => after == self && self.copies(index as int, task),
            Message::PickScreenRequest(index) => after == self && task == Task::PickScreen(index),
            Message::PickScreenResponse { index, kind, values } => {
                &&& if index < self.spaces@.len() && self.spaces@[index as int].spec_kind() == kind
                    && values@.len() == kind.spec_channel_count() {
                    self.card_rebuilt(after, index as int, kind, values@)
                } else {
                    after == self
                }
                &&& task is Nothing
            },
            Message::Key { character, ctrl } => if spec_key_action(character, ctrl) is Some {
                after == self.performed(spec_key_action(character, ctrl)->0) && task is Nothing
            } else if ctrl && character == 'c' && self.last_edited < self.spaces@.len() {
                after == self && self.copies(self.last_edited as int, task)
            } else {
                after == self && task is Nothing
            },
        }
    }

    /// Takes `message`: changes the cards and flags as it says, and returns
    /// the outside work it calls for.
    pub fn update(&mut self, message: Message) -> (r: Task)
        requires
            old(self).accepts(message),
        ensures
            old(self).step(message, *final(self), r),
    {
        match message {
            Message::Nothing => Task::Nothing,
            Message::ColorSpace { index, message } => {
                self.edit(index, message);
                Task::Nothing
            },
            Message::ChangeColorSpace { index, selected, values } => {
                self.change_space(index, selected, values);
                Task::Nothing
            },
            Message::AddSpace => {
                self.add();
                Task::Nothing
            },
            Message::RemoveSpace(index) => {
                self.remove(index);
                Task::Nothing
            },
            Message::ToggleGraphs => {
                self.show_graphs = !self.show_graphs;
                Task::Nothing
            },
            Message::ToggleAboutPage => {
                self.show_about = !self.show_about;
                Task::Nothing
            },
            Message::LaunchUrl(url) => Task::LaunchUrl(url),
            Message::CopyToClipboard(index) => Task::SetClipboard(self.clipboard_text_for(index)),
            Message::PickScreenRequest(index) => Task::PickScreen(index),
            Message::PickScreenResponse { index, kind, values } => {
                self.pick_response(index, kind, values);
                Task::Nothing
            },
            Message::Key { character, ctrl } => {
                if let Some(action) = key_action(character, ctrl) {
                    match action {
                        Action::ToggleGraphs => self.show_graphs = !self.show_graphs,
                        Action::About => self.show_about = !self.show_about,
                    }
                    Task::Nothing
                } else if ctrl && character == 'c' && self.last_edited < self.spaces.len() {
                    Task::SetClipboard(self.clipboard_text_for(self.last_edited))
                } else {
                    Task::Nothing
                }
            },
        }
    }
}

/// Removing a card keeps the cards before it where they were and moves every
/// card after it down by one index.
pub proof fn lemma_remove_shifts(before: ColorPicker, after: ColorPicker, index: int)
    requires
        0 <= index < before.spaces@.len(),
        after.spaces@ == before.spaces@.remove(index),
    ensures
        after.spaces@.len() == before.spaces@.len() - 1,
        forall|j: int| 0 <= j < index ==> after.spaces@[j] == before.spaces@[j],
        forall|j: int| index <= j < after.spaces@.len() ==> after.spaces@[j] == before.spaces@[j + 1],
{
}

} // verus!
