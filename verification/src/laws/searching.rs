//! What is promised of searches in the catalog.
use super::sorting::{entries_are_sorted_by_what_is_shown, entry_ahead};
use super::texts::{
    comes_before, in_lowercase, is_part_of, lowered_texts_are_lowercase,
    texts_are_found_between_the_rest, texts_compare_by_their_first_difference,
};
use super::words::{asks_nothing, asks_to_save, is_arranged};
use crate::catalog::{Catalog, CatalogAddonView, CatalogSource, CategoryView};
use crate::config::{CatalogColumnKey, ConfigView};
use crate::message::{Interaction, Message};
use crate::order::{ascending, stable_sort, Order};
use crate::search::{
    category_choices, category_names, each_category_can_be_chosen, found_by, is_made_for,
    search_order, search_result,
};
use crate::state::{
    AjourView, Directories, ExpandView, HeaderView, Mode, SearchView, SortDirection, State,
};
use crate::text::{by_text, lowered};
use crate::update::catalog::{catalog_downloaded, search_changed};
use crate::update::columns::catalog_column_sorted;
use crate::update::listing::flavor_selected;
use crate::update::transition;
use crate::wow::Flavor;
use vstd::prelude::*;

verus! {

/// The flavor whose game versions count for a flavor.
pub open spec fn base_of(flavor: Flavor) -> Flavor {
    if flavor == Flavor::ClassicEra {
        Flavor::ClassicEra
    } else if flavor == Flavor::ClassicTbc || flavor == Flavor::ClassicPtr || flavor
        == Flavor::ClassicBeta {
        Flavor::ClassicTbc
    } else {
        Flavor::Retail
    }
}

/// Being sought: the query, in lowercase, is part of the entry's name and summary in lowercase with
/// a space between them; the entry is made for the flavor's base, comes from the chosen service,
/// and is in the chosen category.
pub open spec fn is_sought(search: SearchView, flavor: Flavor) -> spec_fn(CatalogAddonView) -> bool {
    |entry: CatalogAddonView|
        {
            &&& search.query is Some ==> is_part_of(
                in_lowercase(search.query->0),
                in_lowercase(entry.name) + " "@ + in_lowercase(entry.summary),
            )
            &&& exists|i: int|
                0 <= i < entry.game_versions.len() && (#[trigger] entry.game_versions[i]).flavor
                    == base_of(flavor)
            &&& search.source == CatalogSource::Choice(entry.source)
            &&& search.category is Choice ==> entry.categories.contains(search.category->0)
        }
}

/// One entry comes before another in the column and the direction that were chosen last. Without a
/// choice the entry with more downloads comes first.
pub open spec fn row_ahead(ajour: AjourView) -> spec_fn(CatalogAddonView, CatalogAddonView) -> bool {
    let column = match ajour.catalog_header.previous_column_key {
        Some(column) => column,
        None => CatalogColumnKey::NumDownloads,
    };
    let direction = match ajour.catalog_header.previous_sort_direction {
        Some(direction) => direction,
        None => SortDirection::Desc,
    };
    entry_ahead(column, direction, ajour.config.flavor, ajour.collation)
}

/// The rows are what is sought in the catalog, in sequence: all of it, or the first of it, as many
/// as are asked for.
pub open spec fn are_rows_of(
    ajour: AjourView,
    catalog: Seq<CatalogAddonView>,
    rows: Seq<CatalogAddonView>,
) -> bool {
    let sought = catalog.filter(is_sought(ajour.search, ajour.config.flavor));
    let most = ajour.search.result_size.rows as int;
    exists|sorted: Seq<CatalogAddonView>| #[trigger]
        is_arranged(sought, sorted, row_ahead(ajour)) && rows == sorted.take(
            if sorted.len() < most {
                sorted.len() as int
            } else {
                most
            },
        )
}

/// Without a catalog the rows are those that there were before, and otherwise those that are
/// sought.
pub open spec fn shows_what_is_sought(before: AjourView, after: AjourView) -> bool {
    match after.catalog {
        Some(catalog) => are_rows_of(after, catalog, after.search.catalog_rows),
        None => after.search.catalog_rows == before.search.catalog_rows,
    }
}

proof fn lemma_sought(search: SearchView, flavor: Flavor, entry: CatalogAddonView)
    ensures
        found_by(search, flavor)(entry) == is_sought(search, flavor)(entry),
{
    lowered_texts_are_lowercase(entry.name);
    lowered_texts_are_lowercase(entry.summary);
    if let Some(query) = search.query {
        lowered_texts_are_lowercase(query);
        texts_are_found_between_the_rest(
            lowered(query),
            lowered(entry.name) + " "@ + lowered(entry.summary),
        );
    }
    if is_sought(search, flavor)(entry) {
        let i = choose|i: int|
            0 <= i < entry.game_versions.len() && (#[trigger] entry.game_versions[i]).flavor
                == base_of(flavor);
        assert(entry.game_versions[i].flavor == flavor.spec_base_flavor());
        assert(is_made_for(entry, flavor.spec_base_flavor()));
    }
}

proof fn lemma_searched(ajour: AjourView, catalog: Seq<CatalogAddonView>)
    ensures
        are_rows_of(ajour, catalog, search_result(ajour, catalog)),
{
    let search = ajour.search;
    let flavor = ajour.config.flavor;
    assert forall|entry: CatalogAddonView| #[trigger]
        found_by(search, flavor)(entry) == is_sought(search, flavor)(entry) by {
        lemma_sought(search, flavor, entry);
    }
    assert(found_by(search, flavor) =~= is_sought(search, flavor));
    let sought = catalog.filter(is_sought(search, flavor));
    let column = match ajour.catalog_header.previous_column_key {
        Some(column) => column,
        None => CatalogColumnKey::NumDownloads,
    };
    let direction = match ajour.catalog_header.previous_sort_direction {
        Some(direction) => direction,
        None => SortDirection::Desc,
    };
    entries_are_sorted_by_what_is_shown(sought, column, direction, flavor, ajour.collation);
    let sorted = stable_sort(sought, search_order(ajour));
    assert(is_arranged(sought, sorted, row_ahead(ajour)));
    assert(sorted.take(sorted.len() as int) =~= sorted);
}

/// What a search shows is in the catalog and is sought, whatever the query, the category, the
/// service and the flavor are. There are no more rows than are asked for, and none stands after one
/// that it comes before. What is sought is shown, unless there are as many rows as are asked for
/// and none of them comes after it.
pub proof fn searches_show_what_is_sought(
    ajour: AjourView,
    catalog: Seq<CatalogAddonView>,
    entry: CatalogAddonView,
)
    ensures
        ({
            let rows = search_result(ajour, catalog);
            let ahead = row_ahead(ajour);
            &&& are_rows_of(ajour, catalog, rows)
            &&& rows.len() <= ajour.search.result_size.rows
            &&& rows.contains(entry) ==> catalog.contains(entry) && is_sought(
                ajour.search,
                ajour.config.flavor,
            )(entry)
            &&& forall|i: int, j: int|
                0 <= i < j < rows.len() ==> !#[trigger] ahead(rows[j], rows[i])
            &&& catalog.contains(entry) && is_sought(ajour.search, ajour.config.flavor)(entry)
                && !rows.contains(entry) ==> {
                &&& rows.len() == ajour.search.result_size.rows
                &&& forall|i: int| 0 <= i < rows.len() ==> !ahead(entry, #[trigger] rows[i])
            }
        }),
{
    lemma_searched(ajour, catalog);
    let condition = is_sought(ajour.search, ajour.config.flavor);
    let ahead = row_ahead(ajour);
    let sought = catalog.filter(condition);
    let rows = search_result(ajour, catalog);
    let most = ajour.search.result_size.rows as int;
    let sorted = choose|sorted: Seq<CatalogAddonView>| #[trigger]
        is_arranged(sought, sorted, ahead) && rows == sorted.take(
            if sorted.len() < most {
                sorted.len() as int
            } else {
                most
            },
        );
    sought.to_multiset_ensures();
    sorted.to_multiset_ensures();
    assert(sought.to_multiset().count(entry) == sorted.to_multiset().count(entry));
    if rows.contains(entry) {
        let i = choose|i: int| 0 <= i < rows.len() && rows[i] == entry;
        assert(sorted[i] == entry);
        assert(sorted.contains(entry));
        assert(sought.contains(entry));
        let j = choose|j: int| 0 <= j < sought.len() && sought[j] == entry;
        catalog.lemma_filter_pred(condition, j);
        catalog.lemma_filter_contains_rev(condition, entry);
    }
    assert forall|i: int, j: int| 0 <= i < j < rows.len() implies !#[trigger] ahead(
        rows[j],
        rows[i],
    ) by {
        assert(!ahead(sorted[j], sorted[i]));
    }
    if catalog.contains(entry) && condition(entry) && !rows.contains(entry) {
        let c = choose|c: int| 0 <= c < catalog.len() && catalog[c] == entry;
        catalog.lemma_filter_contains(condition, c);
        assert(sorted.contains(entry));
        let place = choose|place: int| 0 <= place < sorted.len() && sorted[place] == entry;
        if place < rows.len() {
            assert(rows[place] == entry);
        }
        assert forall|i: int| 0 <= i < rows.len() implies !ahead(entry, #[trigger] rows[i]) by {
            assert(!ahead(sorted[place], sorted[i]));
        }
    }
}

/// A change of what is sought is taken over, and what is then sought is shown. The settings are
/// closed, and all else stays.
pub proof fn changes_of_a_search_show_what_is_sought(
    ajour: AjourView,
    dirs: Directories,
    message: Interaction,
)
    requires
        message is CatalogQuery || message is CatalogCategorySelected || message
            is CatalogResultSizeSelected || message is CatalogSourceSelected,
    ensures
        ({
            let result = transition(ajour, dirs, Message::Interaction(message));
            let after = result.ajour;
            let chosen = match message {
                Interaction::CatalogQuery(query) => SearchView {
                    query: Some(query@),
                    ..ajour.search
                },
                Interaction::CatalogCategorySelected(category) => SearchView {
                    category: category.deep_view(),
                    ..ajour.search
                },
                Interaction::CatalogResultSizeSelected(size) => SearchView {
                    result_size: size,
                    ..ajour.search
                },
                Interaction::CatalogSourceSelected(source) => SearchView {
                    source,
                    ..ajour.search
                },
                _ => ajour.search,
            };
            &&& after == (AjourView {
                search: SearchView { catalog_rows: after.search.catalog_rows, ..chosen },
                is_showing_settings: false,
                ..ajour
            })
            &&& shows_what_is_sought(ajour, after)
            &&& asks_nothing(result.step)
        }),
{
    reveal(search_changed);
    let after = transition(ajour, dirs, Message::Interaction(message)).ajour;
    if let Some(catalog) = ajour.catalog {
        lemma_rows_do_not_matter(after, ajour.search.catalog_rows, catalog);
    }
}

/// What is shown does not count in a search.
proof fn lemma_rows_do_not_matter(
    after: AjourView,
    rows: Seq<CatalogAddonView>,
    catalog: Seq<CatalogAddonView>,
)
    ensures
        ({
            let before = AjourView {
                search: SearchView { catalog_rows: rows, ..after.search },
                ..after
            };
            after.search.catalog_rows == search_result(before, catalog) ==> are_rows_of(
                after,
                catalog,
                after.search.catalog_rows,
            )
        }),
{
    let before = AjourView { search: SearchView { catalog_rows: rows, ..after.search }, ..after };
    lemma_searched(before, catalog);
    assert(is_sought(before.search, before.config.flavor) =~= is_sought(
        after.search,
        after.config.flavor,
    ));
    assert(row_ahead(before) == row_ahead(after));
}

/// A flavor that is chosen is kept and shown, unless the catalog is shown, and what is then sought
/// in the catalog is shown. The window is tidied, and all else stays.
pub proof fn choosing_a_flavor_shows_what_is_sought(
    ajour: AjourView,
    dirs: Directories,
    flavor: Flavor,
)
    ensures
        ({
            let result = transition(
                ajour,
                dirs,
                Message::Interaction(Interaction::FlavorSelected(flavor)),
            );
            let after = result.ajour;
            &&& after == (AjourView {
                config: ConfigView { flavor, ..ajour.config },
                mode: if ajour.mode == Mode::Catalog {
                    Mode::Catalog
                } else {
                    Mode::MyAddons(flavor)
                },
                search: SearchView { catalog_rows: after.search.catalog_rows, ..ajour.search },
                is_showing_settings: false,
                expanded_type: ExpandView::Nothing,
                ..ajour
            })
            &&& shows_what_is_sought(ajour, after)
            &&& asks_to_save(result.step)
        }),
{
    reveal(flavor_selected);
    let message = Message::Interaction(Interaction::FlavorSelected(flavor));
    let after = transition(ajour, dirs, message).ajour;
    if let Some(catalog) = ajour.catalog {
        lemma_rows_do_not_matter(after, ajour.search.catalog_rows, catalog);
    }
}

/// A click on a column of the catalog sorts by it: in the other direction where it was the last
/// one, and otherwise in ascending order. A catalog that was never sorted counts as sorted by its
/// names. What is sought is shown in that order. The settings are closed, and all else stays.
pub proof fn sorting_the_catalog_shows_what_is_sought(
    ajour: AjourView,
    dirs: Directories,
    column: CatalogColumnKey,
)
    ensures
        ({
            let result = transition(
                ajour,
                dirs,
                Message::Interaction(Interaction::SortCatalogColumn(column)),
            );
            let after = result.ajour;
            let header = ajour.catalog_header;
            let again = header.previous_column_key == Some(column)
                && header.previous_sort_direction == Some(SortDirection::Asc);
            let first = header.previous_column_key is None && column == CatalogColumnKey::Title;
            &&& after == (AjourView {
                catalog_header: HeaderView {
                    previous_column_key: Some(column),
                    previous_sort_direction: Some(
                        if again || first {
                            SortDirection::Desc
                        } else {
                            SortDirection::Asc
                        },
                    ),
                    ..header
                },
                search: SearchView { catalog_rows: after.search.catalog_rows, ..ajour.search },
                is_showing_settings: false,
                ..ajour
            })
            &&& shows_what_is_sought(ajour, after)
            &&& asks_nothing(result.step)
        }),
{
    reveal(catalog_column_sorted);
    let message = Message::Interaction(Interaction::SortCatalogColumn(column));
    let after = transition(ajour, dirs, message).ajour;
    if let Some(catalog) = ajour.catalog {
        lemma_rows_do_not_matter(after, ajour.search.catalog_rows, catalog);
    }
}

/// A catalog that was downloaded takes the place of the one that there was. The categories to
/// choose from are all of them together and then each that an entry has, once and in ascending
/// order. What is sought is shown, the catalog is ready, and all else stays.
pub proof fn a_downloaded_catalog_is_shown(
    ajour: AjourView,
    dirs: Directories,
    catalog: Catalog,
    name: Seq<char>,
)
    ensures
        ({
            let entries = catalog.addons.deep_view();
            let result = transition(ajour, dirs, Message::CatalogDownloaded(Ok(catalog)));
            let after = result.ajour;
            let choices = after.search.categories;
            &&& after == (AjourView {
                catalog: Some(entries),
                state: after.state,
                search: SearchView {
                    categories: choices,
                    catalog_rows: after.search.catalog_rows,
                    ..ajour.search
                },
                ..ajour
            })
            &&& after.state == ajour.state.insert(Mode::Catalog, State::Ready)
            &&& are_rows_of(after, entries, after.search.catalog_rows)
            &&& choices.len() > 0
            &&& choices[0] == CategoryView::All
            &&& choices.contains(CategoryView::Choice(name)) <==> exists|i: int|
                0 <= i < entries.len() && (#[trigger] entries[i]).categories.contains(name)
            &&& forall|i: int|
                0 < i < choices.len() ==> (#[trigger] choices[i]) is Choice
            &&& forall|i: int, j: int|
                0 < i < j < choices.len() ==> comes_before(
                    (#[trigger] choices[i])->0,
                    (#[trigger] choices[j])->0,
                )
            &&& asks_nothing(result.step)
        }),
{
    reveal(catalog_downloaded);
    let entries = catalog.addons.deep_view();
    let after = transition(ajour, dirs, Message::CatalogDownloaded(Ok(catalog))).ajour;
    lemma_rows_do_not_matter(after, ajour.search.catalog_rows, entries);
    each_category_can_be_chosen(entries, name);
    let names = category_names(entries);
    let choices = category_choices(entries);
    assert forall|i: int, j: int| 0 < i < j < choices.len() implies comes_before(
        (#[trigger] choices[i])->0,
        (#[trigger] choices[j])->0,
    ) by {
        assert(choices[i] != choices[j]);
        assert(by_text()(names[i - 1], names[j - 1]) != Order::Greater);
        texts_compare_by_their_first_difference(names[i - 1], names[j - 1]);
    }
}

} // verus!
