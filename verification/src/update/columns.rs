//! Reactions that concern the columns of the two lists.
use super::addons::{current_addons, with_addons};
use super::outcome::{only, outcome, settings_closed, tidied, Outcome};
use crate::config::{
    CatalogColumnKey, ColumnConfig, ColumnConfigV2, ColumnConfigView, ColumnKey, ConfigView, Key, Length,
};
use crate::list::{first_where, first_where_finds_the_first, is_first, Condition};
use crate::message::ResizeEvent;
use crate::order::stable_sort;
use crate::search::{query_and_sort_catalog, searched};
use crate::sort::{addon_order, sort_addons};
use crate::state::{
    Ajour, AjourView, ColumnState, ExpandType, HeaderState, HeaderView, SortDirection,
};
use crate::task::{idle, Save, Step, StepView};
use vstd::prelude::*;

verus! {

/// The direction in which a click on a column sorts: the other one where the list is sorted by the
/// column, or else the ascending one. A list that has never been sorted counts as sorted by its
/// titles.
pub open spec fn next_direction<K: Key>(header: HeaderView<K>, key: K) -> SortDirection {
    match header.previous_column_key {
        Some(previous) => if previous == key && header.previous_sort_direction is Some {
            header.previous_sort_direction->0.spec_toggle()
        } else {
            SortDirection::Asc
        },
        None => if key == K::title() {
            SortDirection::Desc
        } else {
            SortDirection::Asc
        },
    }
}

/// The head of a list that is sorted.
pub open spec fn sorted_by<K>(header: HeaderView<K>, key: K, direction: SortDirection) -> HeaderView<
    K,
> {
    HeaderView {
        previous_sort_direction: Some(direction),
        previous_column_key: Some(key),
        ..header
    }
}

/// The direction in which a click on a column sorts.
pub fn sort_direction<K: Key>(header: &HeaderState<K>, key: K) -> (direction: SortDirection)
    ensures
        direction == next_direction(header.deep_view(), key),
{
    match header.previous_column_key {
        Some(previous) => {
            if key.is_same(previous) {
                if let Some(direction) = header.previous_sort_direction {
                    return direction.toggle();
                }
            }
            SortDirection::Asc
        },
        None => if key.is_title() {
            SortDirection::Desc
        } else {
            SortDirection::Asc
        },
    }
}

/// The addons of the flavor that is chosen are sorted by a column.
#[verifier::opaque]
pub open spec fn column_sorted(ajour: AjourView, key: ColumnKey) -> Outcome {
    let direction = next_direction(ajour.header, key);
    only(
        AjourView {
            header: sorted_by(ajour.header, key, direction),
            ..with_addons(
                tidied(ajour),
                ajour.config.flavor,
                stable_sort(
                    current_addons(ajour),
                    addon_order(key, direction, ajour.collation),
                ),
            )
        },
    )
}

/// Reacts to a click on a column of the list of addons.
pub fn sort_column(ajour: &mut Ajour, key: ColumnKey) -> (step: Step)
    ensures
        outcome(*final(ajour), step) == column_sorted(old(ajour).deep_view(), key),
{
    proof {
        reveal(column_sorted);
    }
    ajour.is_showing_settings = false;
    ajour.expanded_type = ExpandType::Nothing;
    let direction = sort_direction(&ajour.header_state, key);
    let flavor = ajour.config.wow.flavor;
    let addons = ajour.addons.list_mut(flavor);
    sort_addons(addons, direction, key, &ajour.collation);
    ajour.header_state.previous_sort_direction = Some(direction);
    ajour.header_state.previous_column_key = Some(key);
    Step::none()
}

/// The catalog is sorted by a column, and searched anew.
#[verifier::opaque]
pub open spec fn catalog_column_sorted(ajour: AjourView, key: CatalogColumnKey) -> Outcome {
    let direction = next_direction(ajour.catalog_header, key);
    only(
        searched(
            AjourView {
                catalog_header: sorted_by(ajour.catalog_header, key, direction),
                ..settings_closed(ajour)
            },
        ),
    )
}

/// Reacts to a click on a column of the catalog.
pub fn sort_catalog_column(ajour: &mut Ajour, key: CatalogColumnKey) -> (step: Step)
    ensures
        outcome(*final(ajour), step) == catalog_column_sorted(old(ajour).deep_view(), key),
{
    proof {
        reveal(catalog_column_sorted);
    }
    ajour.is_showing_settings = false;
    let direction = sort_direction(&ajour.catalog_header_state, key);
    ajour.catalog_header_state.previous_sort_direction = Some(direction);
    ajour.catalog_header_state.previous_column_key = Some(key);
    query_and_sort_catalog(ajour);
    Step::none()
}

/// Being the column.
pub open spec fn of_column<K>(key: K) -> Condition<ColumnState<K>> {
    |column: ColumnState<K>| column.key == key
}

/// The columns with the one of the given key that wide. The column of titles keeps its width.
pub open spec fn resized<K: Key>(columns: Seq<ColumnState<K>>, key: K, width: u16) -> Seq<
    ColumnState<K>,
> {
    match first_where(columns, of_column(key)) {
        Some(i) if key != K::title() => columns.update(
            i,
            ColumnState { width: Length::Units(width), ..columns[i] },
        ),
        _ => columns,
    }
}

/// The columns as they are kept.
pub open spec fn kept<K>(columns: Seq<ColumnState<K>>) -> Seq<ColumnConfigV2<K>> {
    Seq::new(
        columns.len(),
        |i: int|
            ColumnConfigV2 {
                key: columns[i].key,
                width: columns[i].width,
                hidden: columns[i].hidden,
            },
    )
}

/// The columns of the two lists are kept.
#[verifier::opaque]
pub open spec fn columns_saved(ajour: AjourView) -> Outcome {
    Outcome {
        ajour: AjourView {
            config: ConfigView {
                column_config: ColumnConfigView::V3 {
                    my_addons_columns: kept(ajour.header.columns),
                    catalog_columns: kept(ajour.catalog_header.columns),
                },
                ..ajour.config
            },
            ..ajour
        },
        step: StepView { save: Save::Attempt, ..idle() },
    }
}

fn keep_columns<K: Copy>(columns: &Vec<ColumnState<K>>) -> (configs: Vec<ColumnConfigV2<K>>)
    ensures
        configs@ == kept(columns@),
{
    let mut configs: Vec<ColumnConfigV2<K>> = Vec::new();
    let mut i: usize = 0;
    while i < columns.len()
        invariant
            i <= columns@.len(),
            configs@ =~= kept(columns@).take(i as int),
        decreases columns@.len() - i,
    {
        let column = columns[i];
        configs.push(
            ColumnConfigV2 { key: column.key, width: column.width, hidden: column.hidden },
        );
        i = i + 1;
    }
    configs
}

/// Keeps the columns of the two lists.
pub fn save_column_configs(ajour: &mut Ajour) -> (step: Step)
    ensures
        outcome(*final(ajour), step) == columns_saved(old(ajour).deep_view()),
{
    proof {
        reveal(columns_saved);
    }
    let my_addons_columns = keep_columns(&ajour.header_state.columns);
    let catalog_columns = keep_columns(&ajour.catalog_header_state.columns);
    ajour.config.column_config = ColumnConfig::V3 { my_addons_columns, catalog_columns };
    Step::save(Save::Attempt)
}

/// Columns of the list of addons are made wider or narrower, or that is done with and the columns
/// are kept.
#[verifier::opaque]
pub open spec fn column_resized(ajour: AjourView, event: ResizeEvent<ColumnKey>) -> Outcome {
    match event {
        ResizeEvent::ResizeColumn { left, left_width, right, right_width } => only(
            AjourView {
                header: HeaderView {
                    columns: resized(
                        resized(ajour.header.columns, left, left_width),
                        right,
                        right_width,
                    ),
                    ..ajour.header
                },
                ..ajour
            },
        ),
        ResizeEvent::Finished => columns_saved(ajour),
    }
}

/// Columns of the catalog are made wider or narrower, or that is done with and the columns are
/// kept.
#[verifier::opaque]
pub open spec fn catalog_column_resized(
    ajour: AjourView,
    event: ResizeEvent<CatalogColumnKey>,
) -> Outcome {
    match event {
        ResizeEvent::ResizeColumn { left, left_width, right, right_width } => only(
            AjourView {
                catalog_header: HeaderView {
                    columns: resized(
                        resized(ajour.catalog_header.columns, left, left_width),
                        right,
                        right_width,
                    ),
                    ..ajour.catalog_header
                },
                ..ajour
            },
        ),
        ResizeEvent::Finished => columns_saved(ajour),
    }
}

fn resize<K: Key>(columns: &mut Vec<ColumnState<K>>, key: K, width: u16)
    ensures
        final(columns)@ == resized(old(columns)@, key, width),
{
    let ghost before = columns@;
    proof {
        first_where_finds_the_first(before, of_column(key));
    }
    let mut i: usize = 0;
    while i < columns.len()
        invariant
            i <= columns@.len(),
            columns@ == before,
            before == old(columns)@,
            forall|j: int|
                0 <= j < i ==> (#[trigger] before[j]).key != key || key == K::title(),
        decreases columns@.len() - i,
    {
        if key.is_same(columns[i].key) && !key.is_title() {
            proof {
                first_where_finds_the_first(before, of_column(key));
                assert(is_first(before, of_column(key), i as int));
            }
            columns[i].width = Length::Units(width);
            return ;
        }
        i = i + 1;
    }
}

/// Reacts to a change of the columns of the list of addons.
pub fn resize_column(ajour: &mut Ajour, event: ResizeEvent<ColumnKey>) -> (step: Step)
    ensures
        outcome(*final(ajour), step) == column_resized(old(ajour).deep_view(), event),
{
    proof {
        reveal(column_resized);
    }
    match event {
        ResizeEvent::ResizeColumn { left, left_width, right, right_width } => {
            resize(&mut ajour.header_state.columns, left, left_width);
            resize(&mut ajour.header_state.columns, right, right_width);
            Step::none()
        },
        ResizeEvent::Finished => save_column_configs(ajour),
    }
}

/// Reacts to a change of the columns of the catalog.
pub fn resize_column_of_catalog(ajour: &mut Ajour, event: ResizeEvent<CatalogColumnKey>) -> (step:
    Step)
    ensures
        outcome(*final(ajour), step) == catalog_column_resized(old(ajour).deep_view(), event),
{
    proof {
        reveal(catalog_column_resized);
    }
    match event {
        ResizeEvent::ResizeColumn { left, left_width, right, right_width } => {
            resize(&mut ajour.catalog_header_state.columns, left, left_width);
            resize(&mut ajour.catalog_header_state.columns, right, right_width);
            Step::none()
        },
        ResizeEvent::Finished => save_column_configs(ajour),
    }
}

} // verus!
