//! The selection and toggle engine: which setting is selected, and what one
//! input event asks of the backing files.

use crate::input::InputEvent;
use crate::setting::{SettingView, Settings};
use crate::value::{SettingValue, ValueView};
use vstd::prelude::*;

verus! {

/// What an event wants done to the value of one setting.
#[derive(Debug, Clone, Copy, PartialEq, Eq, Structural)]
pub enum Change {
    /// Write `Off`, whatever the value is.
    SetLow,
    /// Write `On`, whatever the value is.
    SetHigh,
    /// Write the flipped value, if the value is recognized.
    Toggle,
}

/// What the outer loop has to do after the engine took one event.
#[derive(Debug, Clone, Copy, PartialEq, Eq, Structural)]
pub enum Step {
    /// Stop the loop.
    Quit,
    /// Nothing touches a backing file.
    Idle,
    /// Read the value of `setting`, and write what `change` makes of it.
    Update { setting: usize, change: Change },
}

/// The position after `selected` among `count` settings, the first one
/// following the last.
pub open spec fn next_index(selected: int, count: int) -> int {
    (selected + 1) % count
}

/// The position before `selected` among `count` settings, the last one
/// preceding the first.
pub open spec fn previous_index(selected: int, count: int) -> int {
    (selected + count - 1) % count
}

/// The selection after one event: only the two moves change it.
pub open spec fn selection_after(selected: int, count: int, event: InputEvent) -> int {
    match event {
        InputEvent::MoveNext => next_index(selected, count),
        InputEvent::MovePrevious => previous_index(selected, count),
        _ => selected,
    }
}

/// The selection after a sequence of events, taken one at a time in order.
pub open spec fn selection_after_all(selected: int, count: int, events: Seq<InputEvent>) -> int
    decreases events.len(),
{
    if events.len() == 0 {
        selected
    } else {
        selection_after_all(
            selection_after(selected, count, events[0]),
            count,
            events.drop_first(),
        )
    }
}

/// What one event asks of the outer loop while `selected` is selected.
pub open spec fn step_for(selected: usize, event: InputEvent) -> Step {
    match event {
        InputEvent::Quit => Step::Quit,
        InputEvent::SetLow => Step::Update { setting: selected, change: Change::SetLow },
        InputEvent::SetHigh => Step::Update { setting: selected, change: Change::SetHigh },
        InputEvent::Confirm => Step::Update { setting: selected, change: Change::Toggle },
        _ => Step::Idle,
    }
}

impl Change {
    /// The value to write where the setting holds `current`, or `None`
    /// where nothing is to be written.
    pub open spec fn target(self, current: ValueView) -> Option<ValueView> {
        match self {
            Change::SetLow => Some(ValueView::Off),
            Change::SetHigh => Some(ValueView::On),
            Change::Toggle => if current.is_recognized() {
                Some(current.toggle())
            } else {
                None
            },
        }
    }

    /// Decides what to write for this change, given the value that the
    /// setting holds now. Setting low or high writes `Off` or `On` whatever
    /// the value is. A toggle writes the flipped value, and writes nothing
    /// where the value is unrecognized.
    pub fn resolve(self, current: &SettingValue) -> (write: Option<SettingValue>)
        ensures
            write is Some <==> self.target(current@) is Some,
            write matches Some(value) ==> Some(value@) == self.target(current@),
    {
        match self {
            Change::SetLow => Some(SettingValue::Off),
            Change::SetHigh => Some(SettingValue::On),
            Change::Toggle => match current {
                SettingValue::Off => Some(SettingValue::On),
                SettingValue::On => Some(SettingValue::Off),
                SettingValue::Unrecognized(_) => None,
            },
        }
    }
}

/// The engine of a panel: the catalogue of settings and the position of the
/// selected one, which is a position in the catalogue at all times.
#[derive(Debug)]
pub struct Engine {
    settings: Settings,
    selected: usize,
}

impl Engine {
    #[verifier::type_invariant]
    spec fn inv(self) -> bool {
        self.selected < self.settings@.len()
    }

    /// The catalogue that the engine was made with.
    pub closed spec fn catalogue(self) -> Seq<SettingView> {
        self.settings@
    }

    /// The position of the selected setting.
    pub closed spec fn selection(self) -> usize {
        self.selected
    }

    /// An engine over `settings`, with the first setting selected.
    pub fn new(settings: Settings) -> (engine: Engine)
        ensures
            engine.catalogue() == settings@,
            engine.selection() == 0,
    {
        // The catalogue is never empty, so the first position exists.
        let _ = settings.len();
        Engine { settings, selected: 0 }
    }

    /// The position of the selected setting in the catalogue.
    pub fn selected(&self) -> (index: usize)
        ensures
            index == self.selection(),
            index < self.catalogue().len(),
    {
        proof {
            use_type_invariant(self);
        }
        self.selected
    }

    /// The catalogue of settings.
    pub fn settings(&self) -> (settings: &Settings)
        ensures
            settings@ == self.catalogue(),
    {
        &self.settings
    }

    /// Selects the next setting; after the last comes the first.
    pub fn select_next(&mut self)
        ensures
            final(self).catalogue() == old(self).catalogue(),
            final(self).selection() == next_index(
                old(self).selection() as int,
                old(self).catalogue().len() as int,
            ),
    {
        proof {
            use_type_invariant(&*self);
            lemma_next_index(self.selected as int, self.settings@.len() as int);
        }
        let count = self.settings.len();
        if self.selected + 1 == count {
            self.selected = 0;
        } else {
            self.selected = self.selected + 1;
        }
    }

    /// Selects the previous setting; before the first comes the last.
    pub fn select_previous(&mut self)
        ensures
            final(self).catalogue() == old(self).catalogue(),
            final(self).selection() == previous_index(
                old(self).selection() as int,
                old(self).catalogue().len() as int,
            ),
    {
        proof {
            use_type_invariant(&*self);
            lemma_previous_index(self.selected as int, self.settings@.len() as int);
        }
        let count = self.settings.len();
        if self.selected == 0 {
            self.selected = count - 1;
        } else {
            self.selected = self.selected - 1;
        }
    }

    /// Takes one event. A move changes the selection and nothing else; every
    /// other event leaves the engine as it is. The result says what the
    /// outer loop has to do: stop, nothing, or one update of the setting that
    /// is selected.
    pub fn step(&mut self, event: InputEvent) -> (step: Step)
        ensures
            final(self).catalogue() == old(self).catalogue(),
            final(self).selection() == selection_after(
                old(self).selection() as int,
                old(self).catalogue().len() as int,
                event,
            ),
            final(self).selection() < final(self).catalogue().len(),
            step == step_for(old(self).selection(), event),
            step matches Step::Update { setting, .. } ==> setting == final(self).selection(),
    {
        proof {
            use_type_invariant(&*self);
        }
        let selected = self.selected;
        match event {
            InputEvent::Quit => Step::Quit,
            InputEvent::MoveNext => {
                self.select_next();
                proof {
                    use_type_invariant(&*self);
                }
                Step::Idle
            },
            InputEvent::MovePrevious => {
                self.select_previous();
                proof {
                    use_type_invariant(&*self);
                }
                Step::Idle
            },
            InputEvent::SetLow => Step::Update { setting: selected, change: Change::SetLow },
            InputEvent::SetHigh => Step::Update { setting: selected, change: Change::SetHigh },
            InputEvent::Confirm => Step::Update { setting: selected, change: Change::Toggle },
            InputEvent::Ignore => Step::Idle,
        }
    }
}

/// The next position is the following one, and the first after the last.
pub proof fn lemma_next_index(selected: int, count: int)
    requires
        0 <= selected < count,
    ensures
        next_index(selected, count) == if selected + 1 == count {
            0
        } else {
            selected + 1
        },
        0 <= next_index(selected, count) < count,
{
    if selected + 1 == count {
        vstd::arithmetic::div_mod::lemma_mod_self_0(count);
    } else {
        vstd::arithmetic::div_mod::lemma_small_mod((selected + 1) as nat, count as nat);
    }
}

/// The previous position is the preceding one, and the last before the
/// first.
pub proof fn lemma_previous_index(selected: int, count: int)
    requires
        0 <= selected < count,
    ensures
        previous_index(selected, count) == if selected == 0 {
            count - 1
        } else {
            selected - 1
        },
        0 <= previous_index(selected, count) < count,
{
    if selected == 0 {
        vstd::arithmetic::div_mod::lemma_small_mod((count - 1) as nat, count as nat);
    } else {
        vstd::arithmetic::div_mod::lemma_mod_add_multiples_vanish(selected - 1, count);
        vstd::arithmetic::div_mod::lemma_small_mod((selected - 1) as nat, count as nat);
    }
}

/// Moving back from the first setting lands on the last, and moving on from
/// the last lands on the first.
pub proof fn lemma_selection_wraps(count: int)
    requires
        count > 0,
    ensures
        previous_index(0, count) == count - 1,
        next_index(count - 1, count) == 0,
        selection_after(0, count, InputEvent::MovePrevious) == count - 1,
        selection_after(count - 1, count, InputEvent::MoveNext) == 0,
{
    lemma_previous_index(0, count);
    lemma_next_index(count - 1, count);
}

/// The two moves undo each other.
pub proof fn lemma_moves_are_inverse(selected: int, count: int)
    requires
        0 <= selected < count,
    ensures
        previous_index(next_index(selected, count), count) == selected,
        next_index(previous_index(selected, count), count) == selected,
{
    lemma_next_index(selected, count);
    lemma_previous_index(selected, count);
    lemma_previous_index(next_index(selected, count), count);
    lemma_next_index(previous_index(selected, count), count);
}

/// With two settings both moves go to the other setting.
pub proof fn lemma_two_settings_alternate(selected: int)
    requires
        0 <= selected < 2,
    ensures
        next_index(selected, 2) == 1 - selected,
        previous_index(selected, 2) == 1 - selected,
{
    lemma_next_index(selected, 2);
    lemma_previous_index(selected, 2);
}

/// Whatever the event, a valid selection stays valid.
pub proof fn lemma_selection_stays_valid(selected: int, count: int, event: InputEvent)
    requires
        0 <= selected < count,
    ensures
        0 <= selection_after(selected, count, event) < count,
{
    lemma_next_index(selected, count);
    lemma_previous_index(selected, count);
}

/// Whatever the sequence of events, a valid selection stays valid.
pub proof fn lemma_selection_always_valid(selected: int, count: int, events: Seq<InputEvent>)
    requires
        0 <= selected < count,
    ensures
        0 <= selection_after_all(selected, count, events) < count,
    decreases events.len(),
{
    if events.len() > 0 {
        lemma_selection_stays_valid(selected, count, events[0]);
        lemma_selection_always_valid(
            selection_after(selected, count, events[0]),
            count,
            events.drop_first(),
        );
    }
}

/// Only an update touches a backing file, and it names the setting that is
/// selected when the event arrives; the moves, a quit and an ignored event
/// ask for no read and no write.
pub proof fn lemma_step_touches_selected_only(selected: usize, event: InputEvent)
    ensures
        step_for(selected, event) matches Step::Update { setting, .. } ==> setting == selected,
        step_for(selected, event) is Update <==> event == InputEvent::SetLow || event
            == InputEvent::SetHigh || event == InputEvent::Confirm,
        step_for(selected, event) is Quit <==> event == InputEvent::Quit,
{
}

} // verus!
