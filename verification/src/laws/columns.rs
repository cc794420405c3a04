//! What is promised of the columns of the two lists.
use super::sorting::{addon_ahead, addons_are_sorted_by_what_is_shown};
use super::words::{asks_nothing, asks_to_save, is_arranged, own_addons, same_elsewhere};
use crate::config::{CatalogColumnKey, ColumnConfigV2, ColumnKey, ConfigView, Key, Length};
use crate::list::{first_where, first_where_finds_the_first, is_first};
use crate::message::{Interaction, Message, ResizeEvent};
use crate::state::{AjourView, ColumnState, Directories, ExpandView, HeaderView, SortDirection};
use crate::update::columns::{
    catalog_column_resized, column_resized, column_sorted, columns_saved, of_column, resized,
};
use crate::update::transition;
use vstd::prelude::*;

verus! {

/// The first column with the key stands at the position.
pub open spec fn is_first_column<K>(columns: Seq<ColumnState<K>>, key: K, i: int) -> bool {
    &&& 0 <= i < columns.len()
    &&& columns[i].key == key
    &&& forall|j: int| 0 <= j < i ==> (#[trigger] columns[j]).key != key
}

/// The columns are those that there were. The first one with each of the two keys is as wide as
/// asked for, unless it is the column of titles, and all others are as wide as before.
pub open spec fn are_resized<K>(
    before: Seq<ColumnState<K>>,
    after: Seq<ColumnState<K>>,
    title: K,
    left: K,
    left_width: u16,
    right: K,
    right_width: u16,
) -> bool {
    &&& after.len() == before.len()
    &&& forall|k: int|
        0 <= k < before.len() ==> #[trigger] after[k] == (ColumnState {
            width: if before[k].key == title {
                before[k].width
            } else if is_first_column(before, right, k) {
                Length::Units(right_width)
            } else if is_first_column(before, left, k) {
                Length::Units(left_width)
            } else {
                before[k].width
            },
            ..before[k]
        })
}

/// What is kept of the columns is what they are, how wide they are, and whether they are hidden.
pub open spec fn are_kept<K>(columns: Seq<ColumnState<K>>, kept: Seq<ColumnConfigV2<K>>) -> bool {
    &&& kept.len() == columns.len()
    &&& forall|k: int|
        0 <= k < columns.len() ==> {
            &&& (#[trigger] kept[k]).key == columns[k].key
            &&& kept[k].width == columns[k].width
            &&& kept[k].hidden == columns[k].hidden
        }
}

/// A click on a column of the list of addons sorts the list of the chosen flavor by it: in the
/// other direction where it was the last one, and otherwise in ascending order. A list that was
/// never sorted counts as sorted by its titles. The window is tidied, and all else stays.
pub proof fn sorting_a_column_puts_the_list_in_sequence(
    ajour: AjourView,
    dirs: Directories,
    column: ColumnKey,
)
    ensures
        ({
            let result = transition(
                ajour,
                dirs,
                Message::Interaction(Interaction::SortColumn(column)),
            );
            let after = result.ajour;
            let header = ajour.header;
            let again = header.previous_column_key == Some(column)
                && header.previous_sort_direction == Some(SortDirection::Asc);
            let first = header.previous_column_key is None && column == ColumnKey::Title;
            let direction = if again || first {
                SortDirection::Desc
            } else {
                SortDirection::Asc
            };
            &&& after == (AjourView {
                addons: after.addons,
                header: HeaderView {
                    previous_column_key: Some(column),
                    previous_sort_direction: Some(direction),
                    ..header
                },
                is_showing_settings: false,
                expanded_type: ExpandView::Nothing,
                ..ajour
            })
            &&& same_elsewhere(after.addons, ajour.addons, ajour.config.flavor)
            &&& is_arranged(
                own_addons(ajour),
                own_addons(after),
                addon_ahead(column, direction, ajour.collation),
            )
            &&& asks_nothing(result.step)
        }),
{
    reveal(column_sorted);
    let direction = crate::update::columns::next_direction(ajour.header, column);
    addons_are_sorted_by_what_is_shown(
        own_addons(ajour),
        column,
        direction,
        ajour.collation,
    );
}

proof fn lemma_resized<K: Key>(columns: Seq<ColumnState<K>>, key: K, width: u16)
    ensures
        ({
            let after = resized(columns, key, width);
            &&& after.len() == columns.len()
            &&& forall|k: int|
                0 <= k < columns.len() ==> #[trigger] after[k] == (ColumnState {
                    width: if key != K::title() && is_first_column(columns, key, k) {
                        Length::Units(width)
                    } else {
                        columns[k].width
                    },
                    ..columns[k]
                })
        }),
{
    first_where_finds_the_first(columns, of_column(key));
    let after = resized(columns, key, width);
    assert forall|k: int| 0 <= k < columns.len() implies #[trigger] after[k] == (ColumnState {
        width: if key != K::title() && is_first_column(columns, key, k) {
            Length::Units(width)
        } else {
            columns[k].width
        },
        ..columns[k]
    }) by {
        if is_first_column(columns, key, k) {
            assert(is_first(columns, of_column(key), k));
        } else if first_where(columns, of_column(key)) == Some(k) {
            assert forall|j: int| 0 <= j < k implies (#[trigger] columns[j]).key != key by {
                assert(!of_column(key)(columns[j]));
            }
            assert(is_first_column(columns, key, k));
        }
    }
}

proof fn lemma_both_resized<K: Key>(
    columns: Seq<ColumnState<K>>,
    left: K,
    left_width: u16,
    right: K,
    right_width: u16,
)
    ensures
        are_resized(
            columns,
            resized(resized(columns, left, left_width), right, right_width),
            K::title(),
            left,
            left_width,
            right,
            right_width,
        ),
{
    let middle = resized(columns, left, left_width);
    lemma_resized(columns, left, left_width);
    lemma_resized(middle, right, right_width);
    assert forall|k: int| 0 <= k < columns.len() implies is_first_column(middle, right, k)
        == #[trigger] is_first_column(columns, right, k) by {
        assert(middle[k].key == columns[k].key);
        if is_first_column(columns, right, k) {
            assert forall|j: int| 0 <= j < k implies (#[trigger] middle[j]).key != right by {
                assert(columns[j].key != right);
            }
        }
        if is_first_column(middle, right, k) {
            assert forall|j: int| 0 <= j < k implies (#[trigger] columns[j]).key != right by {
                assert(middle[j].key != right);
            }
        }
    }
    let after = resized(middle, right, right_width);
    assert forall|k: int| 0 <= k < columns.len() implies #[trigger] after[k] == (ColumnState {
        width: if columns[k].key == K::title() {
            columns[k].width
        } else if is_first_column(columns, right, k) {
            Length::Units(right_width)
        } else if is_first_column(columns, left, k) {
            Length::Units(left_width)
        } else {
            columns[k].width
        },
        ..columns[k]
    }) by {
        assert(middle[k].key == columns[k].key);
        assert(is_first_column(middle, right, k) == is_first_column(columns, right, k));
    }
}

/// A change of the widths of columns of the list of addons makes them as wide as asked for. All
/// else stays, and nothing is done.
pub proof fn columns_of_addons_are_resized(
    ajour: AjourView,
    dirs: Directories,
    left: ColumnKey,
    left_width: u16,
    right: ColumnKey,
    right_width: u16,
)
    ensures
        ({
            let event = ResizeEvent::ResizeColumn { left, left_width, right, right_width };
            let result = transition(
                ajour,
                dirs,
                Message::Interaction(Interaction::ResizeColumn(event)),
            );
            let after = result.ajour;
            &&& after == (AjourView {
                header: HeaderView { columns: after.header.columns, ..ajour.header },
                ..ajour
            })
            &&& are_resized(
                ajour.header.columns,
                after.header.columns,
                ColumnKey::Title,
                left,
                left_width,
                right,
                right_width,
            )
            &&& asks_nothing(result.step)
        }),
{
    reveal(column_resized);
    lemma_both_resized(ajour.header.columns, left, left_width, right, right_width);
}

/// A change of the widths of columns of the catalog makes them as wide as asked for. All else
/// stays, and nothing is done.
pub proof fn columns_of_the_catalog_are_resized(
    ajour: AjourView,
    dirs: Directories,
    left: CatalogColumnKey,
    left_width: u16,
    right: CatalogColumnKey,
    right_width: u16,
)
    ensures
        ({
            let event = ResizeEvent::ResizeColumn { left, left_width, right, right_width };
            let result = transition(
                ajour,
                dirs,
                Message::Interaction(Interaction::ResizeCatalogColumn(event)),
            );
            let after = result.ajour;
            &&& after == (AjourView {
                catalog_header: HeaderView {
                    columns: after.catalog_header.columns,
                    ..ajour.catalog_header
                },
                ..ajour
            })
            &&& are_resized(
                ajour.catalog_header.columns,
                after.catalog_header.columns,
                CatalogColumnKey::Title,
                left,
                left_width,
                right,
                right_width,
            )
            &&& asks_nothing(result.step)
        }),
{
    reveal(catalog_column_resized);
    lemma_both_resized(ajour.catalog_header.columns, left, left_width, right, right_width);
}

/// Once a change of widths is done with, in either list, the columns of both lists are kept and the
/// settings saved. All else stays. Keeping the columns at any other time comes to the same.
pub proof fn columns_are_kept(ajour: AjourView, dirs: Directories, interaction: Interaction)
    requires
        interaction == Interaction::ResizeColumn(ResizeEvent::Finished) || interaction
            == Interaction::ResizeCatalogColumn(ResizeEvent::Finished),
    ensures
        ({
            let result = transition(ajour, dirs, Message::Interaction(interaction));
            let after = result.ajour;
            let kept = after.config.column_config;
            &&& result == columns_saved(ajour)
            &&& after == (AjourView {
                config: ConfigView { column_config: kept, ..ajour.config },
                ..ajour
            })
            &&& kept is V3
            &&& are_kept(ajour.header.columns, kept->my_addons_columns)
            &&& are_kept(ajour.catalog_header.columns, kept->catalog_columns)
            &&& asks_to_save(result.step)
        }),
{
    reveal(column_resized);
    reveal(catalog_column_resized);
    reveal(columns_saved);
}

} // verus!
