//! The rows that one frame shows: one per setting, in catalogue order.

use crate::engine::Engine;
use crate::setting::SettingView;
use crate::value::{SettingValue, ValueView};
use vstd::prelude::*;

verus! {

/// One row of a frame, ready to be drawn.
#[derive(Debug, Clone, PartialEq, Eq)]
pub struct ViewRow {
    /// The label of the setting.
    pub label: String,
    /// The value of the setting as text.
    pub value: String,
    /// Whether the row shows the selected setting.
    pub is_selected: bool,
}

/// Mathematical model of a [`ViewRow`].
pub ghost struct RowView {
    pub label: Seq<char>,
    pub value: Seq<char>,
    pub is_selected: bool,
}

impl View for ViewRow {
    type V = RowView;

    open spec fn view(&self) -> RowView {
        RowView { label: self.label@, value: self.value@, is_selected: self.is_selected }
    }
}

/// The models of a list of values, in the same order.
pub open spec fn value_views(values: Seq<SettingValue>) -> Seq<ValueView> {
    Seq::new(values.len(), |i: int| values[i]@)
}

/// The models of a list of rows, in the same order.
pub open spec fn row_views(rows: Seq<ViewRow>) -> Seq<RowView> {
    Seq::new(rows.len(), |i: int| rows[i]@)
}

/// The row of one setting: its label, the text of its value, and whether it
/// is the selected one.
pub open spec fn row_for(setting: SettingView, value: ValueView, is_selected: bool) -> RowView {
    RowView { label: setting.label, value: value.text(), is_selected }
}

/// The rows of a frame: one per setting, in catalogue order, with the row at
/// `selected` marked.
pub open spec fn rows_for(
    settings: Seq<SettingView>,
    values: Seq<ValueView>,
    selected: int,
) -> Seq<RowView> {
    Seq::new(settings.len(), |i: int| row_for(settings[i], values[i], i == selected))
}

/// How many of the rows are marked as selected.
pub open spec fn selected_count(rows: Seq<RowView>) -> nat
    decreases rows.len(),
{
    if rows.len() == 0 {
        0
    } else {
        selected_count(rows.drop_last()) + if rows.last().is_selected {
            1nat
        } else {
            0nat
        }
    }
}

/// Builds the rows of one frame from the engine's catalogue and selection
/// and from the values just read, `values[i]` being that of the setting at
/// position `i`. Nothing is changed. There is one row per setting, each with
/// the setting's label and the text of its value, and exactly one row, that of
/// the selected setting, is marked.
pub fn build_view(engine: &Engine, values: &Vec<SettingValue>) -> (rows: Vec<ViewRow>)
    requires
        values@.len() == engine.catalogue().len(),
    ensures
        row_views(rows@) == rows_for(
            engine.catalogue(),
            value_views(values@),
            engine.selection() as int,
        ),
        rows@.len() == engine.catalogue().len(),
        selected_count(row_views(rows@)) == 1,
{
    let items = engine.settings().items();
    let selected = engine.selected();
    let count = items.len();
    let mut rows: Vec<ViewRow> = Vec::new();
    let mut i: usize = 0;
    while i < count
        invariant
            i <= count,
            count == items@.len(),
            count == values@.len(),
            rows@.len() == i,
            forall|j: int|
                0 <= j < i ==> rows@[j]@ == row_for(
                    #[trigger] items@[j]@,
                    values@[j]@,
                    j == selected,
                ),
        decreases count - i,
    {
        let row = ViewRow {
            label: items[i].label.clone(),
            value: values[i].text(),
            is_selected: i == selected,
        };
        rows.push(row);
        i = i + 1;
    }
    proof {
        let expected = rows_for(
            engine.catalogue(),
            value_views(values@),
            engine.selection() as int,
        );
        assert(row_views(rows@) =~= expected);
        lemma_one_row_selected(engine.catalogue(), value_views(values@), selected as int);
    }
    rows
}

/// Among rows of which exactly the one at `selected` is marked, the marked
/// ones number one where `selected` is a position of a row, and none
/// otherwise.
pub proof fn lemma_selected_count(rows: Seq<RowView>, selected: int)
    requires
        forall|i: int| 0 <= i < rows.len() ==> #[trigger] rows[i].is_selected == (i == selected),
    ensures
        selected_count(rows) == if 0 <= selected < rows.len() {
            1nat
        } else {
            0nat
        },
    decreases rows.len(),
{
    if rows.len() > 0 {
        let front = rows.drop_last();
        assert forall|i: int| 0 <= i < front.len() implies #[trigger] front[i].is_selected == (i
            == selected) by {
            assert(front[i] == rows[i]);
        }
        lemma_selected_count(front, selected);
    }
}

/// Every frame over a valid selection has one row per setting and exactly
/// one selected row, whatever the values are.
pub proof fn lemma_one_row_selected(
    settings: Seq<SettingView>,
    values: Seq<ValueView>,
    selected: int,
)
    requires
        0 <= selected < settings.len(),
    ensures
        rows_for(settings, values, selected).len() == settings.len(),
        selected_count(rows_for(settings, values, selected)) == 1,
        rows_for(settings, values, selected)[selected].is_selected,
{
    lemma_selected_count(rows_for(settings, values, selected), selected);
}

} // verus!
