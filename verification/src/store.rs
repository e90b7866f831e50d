//! The store side of the engine: what a read of a backing file means, what is
//! written for a change, and what a failed write becomes.
//!
//! The files themselves are touched by the caller. This module holds the
//! decisions around them, and a model of the files in which the effect of a
//! change can be stated.

use crate::engine::Change;
use crate::value::{off_text, on_text, SettingValue, ValueView};
use vstd::prelude::*;

verus! {

/// One write to the backing file of a setting.
#[derive(Debug, Clone, PartialEq, Eq)]
pub struct WriteRequest {
    /// The position of the setting in the catalogue.
    pub setting: usize,
    /// The whole text to write, with nothing added.
    pub text: String,
}

/// Mathematical model of a [`WriteRequest`].
pub ghost struct WriteRequestView {
    pub setting: usize,
    pub text: Seq<char>,
}

impl View for WriteRequest {
    type V = WriteRequestView;

    open spec fn view(&self) -> WriteRequestView {
        WriteRequestView { setting: self.setting, text: self.text@ }
    }
}

/// A write that the store could not do.
#[derive(Debug, Clone, PartialEq, Eq)]
pub struct WriteError {
    /// The position of the setting whose file was not written.
    pub setting: usize,
    /// What the store said about the failure.
    pub reason: String,
}

/// Mathematical model of a [`WriteError`].
pub ghost struct WriteErrorView {
    pub setting: usize,
    pub reason: Seq<char>,
}

impl View for WriteError {
    type V = WriteErrorView;

    open spec fn view(&self) -> WriteErrorView {
        WriteErrorView { setting: self.setting, reason: self.reason@ }
    }
}

/// The contents that a read gave, as a sequence of characters.
pub open spec fn read_view(read: Option<String>) -> Option<Seq<char>> {
    match read {
        Some(text) => Some(text@),
        None => None,
    }
}

/// The value that a read stands for: the parsed contents, and the
/// unrecognized empty text where the read failed.
pub open spec fn value_read(read: Option<Seq<char>>) -> ValueView {
    match read {
        Some(text) => ValueView::parse(text),
        None => ValueView::Unrecognized(Seq::empty()),
    }
}

/// The write that `change` asks for on the setting at `setting`, where a
/// read of its file gave `read`.
pub open spec fn planned(setting: usize, change: Change, read: Option<Seq<char>>) -> Option<
    WriteRequestView,
> {
    match change.target(value_read(read)) {
        Some(value) => Some(WriteRequestView { setting, text: value.text() }),
        None => None,
    }
}

/// Turns what a read of a backing file gave into a value. A read that
/// failed, for whatever reason, counts as the unrecognized empty text.
pub fn value_of_read(read: Option<String>) -> (value: SettingValue)
    ensures
        value@ == value_read(read_view(read)),
        value@.wf(),
{
    match read {
        Some(text) => SettingValue::parse(text.as_str()),
        None => {
            let empty = String::new();
            assert(empty@.len() == 0);
            SettingValue::Unrecognized(empty)
        },
    }
}

/// Plans the one write of an update: `change` on the setting at `setting`,
/// whose file was just read with the result `read`. Setting low or high
/// always writes, `0` or `1`. A toggle writes the other of `0` and `1` where
/// the file holds one of them, and writes nothing otherwise.
pub fn plan_write(setting: usize, change: Change, read: Option<String>) -> (request: Option<
    WriteRequest,
>)
    ensures
        request is Some <==> planned(setting, change, read_view(read)) is Some,
        request matches Some(write) ==> Some(write@) == planned(setting, change, read_view(read)),
        request matches Some(write) ==> write.text@ == off_text() || write.text@ == on_text(),
{
    let current = value_of_read(read);
    match change.resolve(&current) {
        Some(value) => Some(WriteRequest { setting, text: value.text() }),
        None => None,
    }
}

impl WriteRequest {
    /// Reports how the write ended: a write that was done is no error, and
    /// one that the store refused is an error that names the setting and
    /// carries the store's reason.
    pub fn report(&self, outcome: Result<(), String>) -> (report: Result<(), WriteError>)
        ensures
            outcome is Ok <==> report is Ok,
            outcome matches Err(reason) ==> report matches Err(error) && error@ == (
            WriteErrorView { setting: self.setting, reason: reason@ }),
    {
        match outcome {
            Ok(()) => Ok(()),
            Err(reason) => Err(WriteError { setting: self.setting, reason }),
        }
    }
}

/// The text of the value that a read stands for is the contents that were
/// read, verbatim, and the empty text where the read failed.
pub proof fn lemma_read_keeps_contents(read: Option<Seq<char>>)
    ensures
        value_read(read).text() == match read {
            Some(text) => text,
            None => Seq::empty(),
        },
        value_read(read).wf(),
        read is None ==> value_read(read) == ValueView::parse(Seq::empty()),
{
    assert(off_text().len() == 1 && on_text().len() == 1);
}

/// The backing files after one write: the file of the request holds the
/// text of the request where the write was done, and nothing changes where
/// it failed or where there was nothing to write.
pub open spec fn files_after_write(
    files: Seq<Seq<char>>,
    request: Option<WriteRequestView>,
    done: bool,
) -> Seq<Seq<char>> {
    match request {
        Some(write) => if done && write.setting < files.len() {
            files.update(write.setting as int, write.text)
        } else {
            files
        },
        None => files,
    }
}

/// The backing files after one update of the setting at `setting`: its file
/// is read, and the write planned for `change` is made, with success or not.
pub open spec fn files_after(
    files: Seq<Seq<char>>,
    setting: usize,
    change: Change,
    done: bool,
) -> Seq<Seq<char>> {
    files_after_write(files, planned(setting, change, Some(files[setting as int])), done)
}

/// Setting low or high is idempotent: a second update of the same kind
/// leaves the files as the first one left them.
pub proof fn lemma_set_is_idempotent(files: Seq<Seq<char>>, setting: usize, change: Change)
    requires
        setting < files.len(),
        change == Change::SetLow || change == Change::SetHigh,
    ensures
        files_after(files_after(files, setting, change, true), setting, change, true)
            == files_after(files, setting, change, true),
        files_after(files, setting, change, true)[setting as int] == if change == Change::SetLow {
            off_text()
        } else {
            on_text()
        },
{
    let once = files_after(files, setting, change, true);
    assert(files_after(once, setting, change, true) =~= once);
}

/// A toggle of a setting whose file holds neither `0` nor `1` plans no
/// write and leaves every file as it is.
pub proof fn lemma_toggle_keeps_unrecognized(files: Seq<Seq<char>>, setting: usize, done: bool)
    requires
        setting < files.len(),
        !ValueView::parse(files[setting as int]).is_recognized(),
    ensures
        planned(setting, Change::Toggle, Some(files[setting as int])) is None,
        files_after(files, setting, Change::Toggle, done) == files,
{
}

/// A toggle of a setting whose file holds `0` or `1` writes the other of
/// the two, and a second toggle brings the files back.
pub proof fn lemma_toggle_flips_recognized(files: Seq<Seq<char>>, setting: usize)
    requires
        setting < files.len(),
        ValueView::parse(files[setting as int]).is_recognized(),
    ensures
        files_after(files, setting, Change::Toggle, true)[setting as int] == if files[setting as int]
            == off_text() {
            on_text()
        } else {
            off_text()
        },
        files_after(
            files_after(files, setting, Change::Toggle, true),
            setting,
            Change::Toggle,
            true,
        ) == files,
{
    assert(off_text()[0] != on_text()[0]);
    let once = files_after(files, setting, Change::Toggle, true);
    assert(files_after(once, setting, Change::Toggle, true) =~= files);
}

/// An update touches no file but that of its setting, and a write that
/// failed touches none at all.
pub proof fn lemma_update_is_local(
    files: Seq<Seq<char>>,
    setting: usize,
    change: Change,
    done: bool,
)
    requires
        setting < files.len(),
    ensures
        files_after(files, setting, change, done).len() == files.len(),
        forall|other: int|
            0 <= other < files.len() && other != setting ==> #[trigger] files_after(
                files,
                setting,
                change,
                done,
            )[other] == files[other],
        !done ==> files_after(files, setting, change, done) == files,
{
}

} // verus!
