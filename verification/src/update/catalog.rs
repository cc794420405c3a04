//! Reactions that concern the catalog.
use super::outcome::{only, outcome, settings_closed, Outcome};
use super::window::failed;
use crate::catalog::{
    Catalog, CatalogAddonView, CatalogCategory, CatalogResultSize, CatalogSource,
};
use crate::search::{catalog_categories, category_choices, query_and_sort_catalog, searched};
use crate::state::{Ajour, AjourView, Mode, SearchView, State};
use crate::task::Step;
use vstd::prelude::*;

verus! {

/// The catalog is there: its categories can be chosen, and it is searched.
#[verifier::opaque]
pub open spec fn catalog_downloaded(
    ajour: AjourView,
    catalog: Seq<CatalogAddonView>,
) -> Outcome {
    only(
        searched(
            AjourView {
                catalog: Some(catalog),
                state: ajour.state.insert(Mode::Catalog, State::Ready),
                search: SearchView { categories: category_choices(catalog), ..ajour.search },
                ..ajour
            },
        ),
    )
}

/// Reacts to the catalog having been downloaded.
pub fn show_catalog(ajour: &mut Ajour, result: Result<Catalog, String>) -> (step: Step)
    ensures
        outcome(*final(ajour), step) == match result {
            Ok(catalog) => catalog_downloaded(old(ajour).deep_view(), catalog.deep_view()),
            Err(error) => failed(old(ajour).deep_view(), error@),
        },
{
    proof {
        reveal(catalog_downloaded);
    }
    match result {
        Ok(catalog) => {
            ajour.catalog_search_state.categories = catalog_categories(&catalog);
            ajour.catalog = Some(catalog);
            ajour.state.insert(Mode::Catalog, State::Ready);
            query_and_sort_catalog(ajour);
        },
        Err(error) => {
            ajour.error = Some(error);
        },
    }
    Step::none()
}

/// The catalog is searched for something else.
#[verifier::opaque]
pub open spec fn search_changed(ajour: AjourView, search: SearchView) -> Outcome {
    only(searched(AjourView { search, ..settings_closed(ajour) }))
}

/// Reacts to a text to search for.
pub fn query_catalog(ajour: &mut Ajour, query: String) -> (step: Step)
    ensures
        outcome(*final(ajour), step) == search_changed(
            old(ajour).deep_view(),
            SearchView { query: Some(query@), ..old(ajour).deep_view().search },
        ),
{
    proof {
        reveal(search_changed);
    }
    ajour.is_showing_settings = false;
    ajour.catalog_search_state.query = Some(query);
    query_and_sort_catalog(ajour);
    Step::none()
}

/// Reacts to a category to search in.
pub fn select_category(ajour: &mut Ajour, category: CatalogCategory) -> (step: Step)
    ensures
        outcome(*final(ajour), step) == search_changed(
            old(ajour).deep_view(),
            SearchView { category: category.deep_view(), ..old(ajour).deep_view().search },
        ),
{
    proof {
        reveal(search_changed);
    }
    ajour.is_showing_settings = false;
    ajour.catalog_search_state.category = category;
    query_and_sort_catalog(ajour);
    Step::none()
}

/// Reacts to a number of rows to show.
pub fn select_result_size(ajour: &mut Ajour, size: CatalogResultSize) -> (step: Step)
    ensures
        outcome(*final(ajour), step) == search_changed(
            old(ajour).deep_view(),
            SearchView { result_size: size, ..old(ajour).deep_view().search },
        ),
{
    proof {
        reveal(search_changed);
    }
    ajour.is_showing_settings = false;
    ajour.catalog_search_state.result_size = size;
    query_and_sort_catalog(ajour);
    Step::none()
}

/// Reacts to a service to search.
pub fn select_source(ajour: &mut Ajour, source: CatalogSource) -> (step: Step)
    ensures
        outcome(*final(ajour), step) == search_changed(
            old(ajour).deep_view(),
            SearchView { source, ..old(ajour).deep_view().search },
        ),
{
    proof {
        reveal(search_changed);
    }
    ajour.is_showing_settings = false;
    ajour.catalog_search_state.source = source;
    query_and_sort_catalog(ajour);
    Step::none()
}

} // verus!
