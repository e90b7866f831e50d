//! The tri-state value of a setting and its textual form.

use vstd::prelude::*;

verus! {

/// The value of a setting as read from its backing file.
#[derive(Debug, Clone, PartialEq, Eq)]
pub enum SettingValue {
    /// The file holds `0`.
    Off,
    /// The file holds `1`.
    On,
    /// The file holds anything else; the text is kept as it was read.
    Unrecognized(String),
}

/// Mathematical model of a [`SettingValue`].
pub ghost enum ValueView {
    Off,
    On,
    Unrecognized(Seq<char>),
}

/// The text that stands for `Off` in a backing file.
pub open spec fn off_text() -> Seq<char> {
    seq!['0']
}

/// The text that stands for `On` in a backing file.
pub open spec fn on_text() -> Seq<char> {
    seq!['1']
}

impl ValueView {
    /// `Off` or `On`.
    pub open spec fn is_recognized(self) -> bool {
        !(self is Unrecognized)
    }

    /// An unrecognized value never holds a text that stands for `Off` or `On`.
    pub open spec fn wf(self) -> bool {
        self matches ValueView::Unrecognized(raw) ==> raw != off_text() && raw != on_text()
    }

    /// The value that a file with contents `text` holds.
    pub open spec fn parse(text: Seq<char>) -> ValueView {
        if text == off_text() {
            ValueView::Off
        } else if text == on_text() {
            ValueView::On
        } else {
            ValueView::Unrecognized(text)
        }
    }

    /// The text that is shown for the value, and written for it.
    pub open spec fn text(self) -> Seq<char> {
        match self {
            ValueView::Off => off_text(),
            ValueView::On => on_text(),
            ValueView::Unrecognized(raw) => raw,
        }
    }

    /// `On` becomes `Off`, `Off` becomes `On`, anything else stays.
    pub open spec fn toggle(self) -> ValueView {
        match self {
            ValueView::Off => ValueView::On,
            ValueView::On => ValueView::Off,
            ValueView::Unrecognized(raw) => ValueView::Unrecognized(raw),
        }
    }
}

impl View for SettingValue {
    type V = ValueView;

    open spec fn view(&self) -> ValueView {
        match *self {
            SettingValue::Off => ValueView::Off,
            SettingValue::On => ValueView::On,
            SettingValue::Unrecognized(raw) => ValueView::Unrecognized(raw@),
        }
    }
}

impl SettingValue {
    /// Reads the contents of a backing file as a value: `0` is `Off`, `1` is
    /// `On`, and every other text is kept verbatim as `Unrecognized`.
    pub fn parse(text: &str) -> (value: SettingValue)
        ensures
            value@ == ValueView::parse(text@),
            value@.wf(),
    {
        if text.unicode_len() == 1 {
            let c = text.get_char(0);
            if c == '0' {
                assert(text@ =~= off_text());
                return SettingValue::Off;
            }
            if c == '1' {
                assert(text@ =~= on_text());
                return SettingValue::On;
            }
        }
        SettingValue::Unrecognized(text.to_owned())
    }

    /// The text that is shown for the value and that stands for it in a
    /// backing file: `0`, `1`, or the unrecognized text as it was read.
    pub fn text(&self) -> (text: String)
        ensures
            text@ == self@.text(),
    {
        match self {
            SettingValue::Off => {
                proof {
                    reveal_strlit("0");
                }
                assert("0"@ =~= off_text());
                String::from_str("0")
            },
            SettingValue::On => {
                proof {
                    reveal_strlit("1");
                }
                assert("1"@ =~= on_text());
                String::from_str("1")
            },
            SettingValue::Unrecognized(raw) => raw.clone(),
        }
    }

    /// Whether the value is `Off` or `On`.
    pub fn is_recognized(&self) -> (recognized: bool)
        ensures
            recognized == self@.is_recognized(),
    {
        match self {
            SettingValue::Unrecognized(_) => false,
            _ => true,
        }
    }

    /// Flips a recognized value and hands any other back as it came.
    pub fn toggle(self) -> (toggled: SettingValue)
        ensures
            toggled@ == self@.toggle(),
    {
        match self {
            SettingValue::Off => SettingValue::On,
            SettingValue::On => SettingValue::Off,
            SettingValue::Unrecognized(raw) => SettingValue::Unrecognized(raw),
        }
    }
}

/// The toggle on the text of a backing file: `0` becomes `1`, `1` becomes
/// `0`, and every other text stays as it is.
pub open spec fn toggle_text(text: Seq<char>) -> Seq<char> {
    ValueView::parse(text).toggle().text()
}

/// Toggles the contents of a backing file without ever failing: the text of
/// the flipped value for `0` and `1`, the same text for anything else.
pub fn toggle_value(value: String) -> (toggled: String)
    ensures
        toggled@ == toggle_text(value@),
{
    let current = SettingValue::parse(value.as_str());
    match current {
        SettingValue::Unrecognized(_) => value,
        recognized => recognized.toggle().text(),
    }
}

/// Toggling a recognized value twice gives the value back.
pub proof fn lemma_toggle_twice(value: ValueView)
    requires
        value.is_recognized(),
    ensures
        value.toggle().toggle() == value,
{
}

/// Toggling keeps a recognized value recognized and an unrecognized value
/// exactly as it is.
pub proof fn lemma_toggle_preserves_kind(value: ValueView)
    ensures
        value.toggle().is_recognized() == value.is_recognized(),
        !value.is_recognized() ==> value.toggle() == value,
        value.is_recognized() ==> value.toggle() != value,
        value.wf() ==> value.toggle().wf(),
{
}

/// Reading a text and writing the value back gives the same text, whatever
/// the text is.
pub proof fn lemma_text_of_parse(text: Seq<char>)
    ensures
        ValueView::parse(text).text() == text,
        ValueView::parse(text).wf(),
{
}

/// Writing a well-formed value and reading it again gives the same value.
pub proof fn lemma_parse_of_text(value: ValueView)
    requires
        value.wf(),
    ensures
        ValueView::parse(value.text()) == value,
{
    assert(off_text()[0] != on_text()[0]);
}

/// Toggling the text of a backing file twice gives the text back.
pub proof fn lemma_toggle_text_twice(text: Seq<char>)
    ensures
        toggle_text(toggle_text(text)) == text,
{
    assert(off_text()[0] != on_text()[0]);
}

} // verus!
