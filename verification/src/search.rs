//! Searching the catalog.
use crate::catalog::{
    Catalog, CatalogAddon, CatalogAddonView, CatalogCategory, CatalogResultSize, CatalogRow,
    CatalogSource, CategoryView,
};
use crate::config::{CatalogColumnKey, ConfigView};
use crate::list::{any, filter_of_pushed, Condition, Test};
use crate::order::{
    ascending, sort_items, sorted_values_ascend, sorting_adds_no_repeats,
    sorting_keeps_every_value, sorting_keeps_membership, stable_sort, total_preorder, Comparator,
    Comparison, Order,
};
use crate::sort::{
    catalog_order, catalog_order_is_total_preorder, only_game_versions_depend_on_the_flavor,
    sort_catalog_addons, MadeFor,
};
use crate::state::{Ajour, AjourView, SearchView, SortDirection};
use crate::text::{
    by_text, by_text_is_total_preorder, compare_text, contains_text, lower, lowered, occurs_in,
    occurs_at,
};
use crate::wow::Flavor;
use vstd::prelude::*;
use vstd::string::StringExecFns;

verus! {

/// The text of an entry that is searched, given its name and its summary in lowercase.
pub open spec fn cleaned_text(name: Seq<char>, summary: Seq<char>) -> Seq<char> {
    name + " "@ + summary
}

/// Whether the query occurs in an entry's text. All three are in lowercase.
pub fn cleaned_text_matches(name: String, summary: &String, query: &String) -> (matches: bool)
    ensures
        matches == occurs_in(query@, cleaned_text(name@, summary@)),
{
    let text = name.concat(" ").concat(summary.as_str());
    contains_text(text.as_str(), query.as_str())
}

/// The entry has the text that is searched for, whatever the case of its letters.
pub open spec fn has_text(addon: CatalogAddonView, query: Option<Seq<char>>) -> bool {
    match query {
        Some(query) => occurs_in(
            lowered(query),
            cleaned_text(lowered(addon.name), lowered(addon.summary)),
        ),
        None => true,
    }
}

/// The entry is made for the flavor.
pub open spec fn is_made_for(addon: CatalogAddonView, flavor: Flavor) -> bool {
    exists|i: int|
        0 <= i < addon.game_versions.len() && (#[trigger] addon.game_versions[i]).flavor == flavor
}

/// The entry is in the category.
pub open spec fn is_in_category(addon: CatalogAddonView, category: CategoryView) -> bool {
    match category {
        CategoryView::All => true,
        CategoryView::Choice(name) => addon.categories.contains(name),
    }
}

/// Being found by a search in the catalog for the flavor.
pub open spec fn found_by(search: SearchView, flavor: Flavor) -> Condition<CatalogAddonView> {
    |addon: CatalogAddonView|
        {
            &&& addon.game_versions.len() > 0
            &&& has_text(addon, search.query)
            &&& is_made_for(addon, flavor.spec_base_flavor())
            &&& search.source == CatalogSource::Choice(addon.source)
            &&& is_in_category(addon, search.category)
        }
}

/// The order in which a search shows what is found: that of the column that was chosen last, or
/// else the entries with the most downloads first.
pub open spec fn search_order(ajour: AjourView) -> Comparison<CatalogAddonView> {
    let direction = match ajour.catalog_header.previous_sort_direction {
        Some(direction) => direction,
        None => SortDirection::Desc,
    };
    let column = match ajour.catalog_header.previous_column_key {
        Some(column) => column,
        None => CatalogColumnKey::NumDownloads,
    };
    catalog_order(column, direction, ajour.config.flavor, ajour.collation)
}

/// The rows that a search shows: what is found, in order, as many as are asked for.
pub open spec fn search_result(ajour: AjourView, catalog: Seq<CatalogAddonView>) -> Seq<
    CatalogAddonView,
> {
    let sorted = stable_sort(
        catalog.filter(found_by(ajour.search, ajour.config.flavor)),
        search_order(ajour),
    );
    if ajour.search.result_size.rows < sorted.len() {
        sorted.take(ajour.search.result_size.rows as int)
    } else {
        sorted
    }
}

/// The program once the catalog has been searched. Without a catalog nothing changes.
pub open spec fn searched(ajour: AjourView) -> AjourView {
    AjourView {
        search: SearchView {
            catalog_rows: match ajour.catalog {
                Some(catalog) => search_result(ajour, catalog),
                None => ajour.search.catalog_rows,
            },
            ..ajour.search
        },
        ..ajour
    }
}

struct SameText<'a> {
    text: &'a String,
}

impl<'a> Test<String> for SameText<'a> {
    closed spec fn condition(&self) -> Condition<Seq<char>> {
        |text: Seq<char>| text == self.text@
    }

    fn holds(&self, item: &String) -> (result: bool) {
        *item == *self.text
    }
}

/// Whether the text is in the list.
pub fn contains_string(texts: &Vec<String>, text: &String) -> (contained: bool)
    ensures
        contained == texts.deep_view().contains(text@),
{
    let test = SameText { text };
    let found = any(texts, &test);
    proof {
        if texts.deep_view().contains(text@) {
            let i = choose|i: int|
                0 <= i < texts.deep_view().len() && texts.deep_view()[i] == text@;
            assert((test.condition())(texts.deep_view()[i]));
        }
    }
    found
}

fn is_found(
    addon: &CatalogAddon,
    query: &Option<String>,
    flavor: Flavor,
    source: CatalogSource,
    category: &CatalogCategory,
    Ghost(search): Ghost<SearchView>,
) -> (found: bool)
    requires
        search.query is Some <==> query is Some,
        query is Some ==> query->0@ == lowered(search.query->0),
        source == search.source,
        category.deep_view() == search.category,
    ensures
        found == found_by(search, flavor)(addon.deep_view()),
{
    if addon.game_versions.len() == 0 {
        return false;
    }
    if let Some(query) = query {
        let name = lower(addon.name.as_str());
        let summary = lower(addon.summary.as_str());
        if !cleaned_text_matches(name, &summary, query) {
            return false;
        }
    }
    let base = flavor.base_flavor();
    let test = MadeFor { flavor: base };
    let made = any(&addon.game_versions, &test);
    proof {
        assert(made == is_made_for(addon.deep_view(), base)) by {
            if is_made_for(addon.deep_view(), base) {
                let i = choose|i: int|
                    0 <= i < addon.game_versions.deep_view().len() && (
                    #[trigger] addon.game_versions.deep_view()[i]).flavor == base;
                assert((test.condition())(addon.game_versions.deep_view()[i]));
            }
        }
    }
    if !made {
        return false;
    }
    let CatalogSource::Choice(source) = source;
    if addon.source != source {
        return false;
    }
    match category {
        CatalogCategory::All => true,
        CatalogCategory::Choice(name) => contains_string(&addon.categories, name),
    }
}

/// Searches the catalog, if there is one, and shows what is found.
pub fn query_and_sort_catalog(ajour: &mut Ajour)
    ensures
        final(ajour).deep_view() == searched(old(ajour).deep_view()),
{
    let ghost before = ajour.deep_view();
    if let Some(catalog) = &ajour.catalog {
        let query = match &ajour.catalog_search_state.query {
            Some(query) => Some(lower(query.as_str())),
            None => None,
        };
        let flavor = ajour.config.wow.flavor;
        let source = ajour.catalog_search_state.source;
        let result_size = ajour.catalog_search_state.result_size.as_usize();
        let ghost found = found_by(before.search, flavor);
        let ghost entries = catalog.addons.deep_view();

        let mut catalog_rows: Vec<CatalogRow> = Vec::new();
        proof {
            assert(entries.take(0) =~= Seq::empty());
            reveal(Seq::filter);
            assert(catalog_rows.deep_view() =~= entries.take(0).filter(found));
        }
        let mut i: usize = 0;
        while i < catalog.addons.len()
            invariant
                i <= catalog.addons@.len(),
                entries == catalog.addons.deep_view(),
                before.search.query is Some <==> query is Some,
                query is Some ==> query->0@ == lowered(before.search.query->0),
                source == before.search.source,
                ajour.catalog_search_state.category.deep_view() == before.search.category,
                found == found_by(before.search, flavor),
                catalog_rows.deep_view() == entries.take(i as int).filter(found),
            decreases catalog.addons@.len() - i,
        {
            let addon = &catalog.addons[i];
            proof {
                assert(entries.take(i + 1) =~= entries.take(i as int).push(entries[i as int]));
                filter_of_pushed(entries.take(i as int), entries[i as int], found);
            }
            if is_found(
                addon,
                &query,
                flavor,
                source,
                &ajour.catalog_search_state.category,
                Ghost(before.search),
            ) {
                let ghost rows_before = catalog_rows.deep_view();
                catalog_rows.push(CatalogRow { addon: addon.clone() });
                assert(catalog_rows.deep_view() =~= rows_before.push(entries[i as int]));
            }
            i = i + 1;
        }
        assert(entries.take(i as int) =~= entries);

        let sort_direction = match ajour.catalog_header_state.previous_sort_direction {
            Some(direction) => direction,
            None => SortDirection::Desc,
        };
        let column_key = match ajour.catalog_header_state.previous_column_key {
            Some(column) => column,
            None => CatalogColumnKey::NumDownloads,
        };

        sort_catalog_addons(
            &mut catalog_rows,
            sort_direction,
            column_key,
            flavor,
            &ajour.collation,
        );
        let ghost sorted = catalog_rows.deep_view();

        catalog_rows.truncate(result_size);
        proof {
            if result_size < sorted.len() {
                assert(catalog_rows.deep_view() =~= sorted.take(result_size as int));
            } else {
                assert(catalog_rows.deep_view() =~= sorted);
            }
        }

        ajour.catalog_search_state.catalog_rows = catalog_rows;
    }
}

/// The texts without those that occurred before.
pub open spec fn without_repeats(texts: Seq<Seq<char>>) -> Seq<Seq<char>>
    decreases texts.len(),
{
    if texts.len() == 0 {
        Seq::empty()
    } else {
        let earlier = without_repeats(texts.drop_last());
        if earlier.contains(texts.last()) {
            earlier
        } else {
            earlier.push(texts.last())
        }
    }
}

/// The categories of all entries, one entry after the other.
pub open spec fn all_categories(catalog: Seq<CatalogAddonView>) -> Seq<Seq<char>>
    decreases catalog.len(),
{
    if catalog.len() == 0 {
        Seq::empty()
    } else {
        all_categories(catalog.drop_last()) + catalog.last().categories
    }
}

/// The names of the categories that occur, in ascending order.
pub open spec fn category_names(catalog: Seq<CatalogAddonView>) -> Seq<Seq<char>> {
    stable_sort(without_repeats(all_categories(catalog)), by_text())
}

/// The categories to choose from: all of them together, then each by itself.
pub open spec fn category_choices(catalog: Seq<CatalogAddonView>) -> Seq<CategoryView> {
    let names = category_names(catalog);
    Seq::new(
        names.len() + 1,
        |i: int|
            if i == 0 {
                CategoryView::All
            } else {
                CategoryView::Choice(names[i - 1])
            },
    )
}

struct TextComparator {}

impl Comparator<String> for TextComparator {
    closed spec fn order(&self) -> Comparison<Seq<char>> {
        by_text()
    }

    proof fn order_is_total_preorder(&self) {
        by_text_is_total_preorder();
    }

    fn compare(&self, a: &String, b: &String) -> (result: Order) {
        compare_text(a.as_str(), b.as_str())
    }
}

/// The categories to choose from in the catalog.
pub fn catalog_categories(catalog: &Catalog) -> (choices: Vec<CatalogCategory>)
    ensures
        choices.deep_view() == category_choices(catalog.deep_view()),
{
    let ghost entries = catalog.addons.deep_view();
    let mut names: Vec<String> = Vec::new();
    assert(entries.take(0) =~= Seq::empty());
    assert(names.deep_view() =~= without_repeats(all_categories(entries.take(0))));
    let mut i: usize = 0;
    while i < catalog.addons.len()
        invariant
            i <= catalog.addons@.len(),
            entries == catalog.addons.deep_view(),
            names.deep_view() == without_repeats(all_categories(entries.take(i as int))),
        decreases catalog.addons@.len() - i,
    {
        let categories = &catalog.addons[i].categories;
        let ghost earlier = all_categories(entries.take(i as int));
        let ghost added = categories.deep_view();
        assert(earlier + added.take(0) =~= earlier);
        let mut j: usize = 0;
        while j < categories.len()
            invariant
                j <= categories@.len(),
                added == categories.deep_view(),
                names.deep_view() == without_repeats(earlier + added.take(j as int)),
            decreases categories@.len() - j,
        {
            let category = &categories[j];
            proof {
                let longer = earlier + added.take(j + 1);
                assert(longer.drop_last() =~= earlier + added.take(j as int));
                assert(longer.last() == category@);
            }
            if !contains_string(&names, category) {
                let ghost names_before = names.deep_view();
                names.push(category.clone());
                assert(names.deep_view() =~= names_before.push(category@));
            }
            j = j + 1;
        }
        proof {
            assert(added.take(j as int) =~= added);
            assert(entries.take(i + 1).drop_last() =~= entries.take(i as int));
            assert(entries.take(i + 1).last() == entries[i as int]);
        }
        i = i + 1;
    }
    assert(entries.take(i as int) =~= entries);
    sort_items(&mut names, &TextComparator {  });

    let mut choices: Vec<CatalogCategory> = Vec::new();
    choices.push(CatalogCategory::All);
    let mut k: usize = 0;
    while k < names.len()
        invariant
            k <= names@.len(),
            names.deep_view() == category_names(entries),
            choices@.len() == k + 1,
            choices.deep_view() =~= category_choices(entries).take(k + 1),
        decreases names@.len() - k,
    {
        let ghost choices_before = choices.deep_view();
        choices.push(CatalogCategory::Choice(names[k].clone()));
        assert(choices.deep_view() =~= choices_before.push(
            CategoryView::Choice(names.deep_view()[k as int]),
        ));
        k = k + 1;
    }
    assert(category_choices(entries).take(k + 1) =~= category_choices(entries));
    choices
}

proof fn lemma_search_order_is_total_preorder(ajour: AjourView)
    ensures
        total_preorder(search_order(ajour)),
{
    let direction = match ajour.catalog_header.previous_sort_direction {
        Some(direction) => direction,
        None => SortDirection::Desc,
    };
    let column = match ajour.catalog_header.previous_column_key {
        Some(column) => column,
        None => CatalogColumnKey::NumDownloads,
    };
    catalog_order_is_total_preorder(column, direction, ajour.config.flavor, ajour.collation);
}

/// A search shows entries of the catalog, all of which it finds, in order, and no more of them than
/// are asked for.
pub proof fn searches_show_what_they_find(ajour: AjourView, catalog: Seq<CatalogAddonView>)
    ensures
        search_result(ajour, catalog).len() <= ajour.search.result_size.rows,
        ascending(search_result(ajour, catalog), search_order(ajour)),
        forall|i: int|
            #![trigger search_result(ajour, catalog)[i]]
            0 <= i < search_result(ajour, catalog).len() ==> catalog.contains(
                search_result(ajour, catalog)[i],
            ) && found_by(ajour.search, ajour.config.flavor)(search_result(ajour, catalog)[i]),
{
    let condition = found_by(ajour.search, ajour.config.flavor);
    let found = catalog.filter(condition);
    let order = search_order(ajour);
    let sorted = stable_sort(found, order);
    let rows = search_result(ajour, catalog);
    lemma_search_order_is_total_preorder(ajour);
    sorted_values_ascend(found, order);
    assert forall|i: int| #![trigger rows[i]] 0 <= i < rows.len() implies catalog.contains(rows[i])
        && condition(rows[i]) by {
        assert(rows[i] == sorted[i]);
        sorting_keeps_membership(found, order, rows[i]);
        catalog.lemma_filter_contains_rev(condition, rows[i]);
        let j = choose|j: int| 0 <= j < found.len() && found[j] == rows[i];
        catalog.lemma_filter_pred(condition, j);
    }
    assert forall|i: int, j: int| 0 <= i < j < rows.len() implies #[trigger] order(rows[i], rows[j])
        != Order::Greater by {
        assert(order(sorted[i], sorted[j]) != Order::Greater);
    }
}

/// A search that may show enough rows shows everything that it finds, each as often as it is in the
/// catalog. One that may not leaves out nothing that comes before something that it shows.
pub proof fn searches_leave_out_only_the_last(
    ajour: AjourView,
    catalog: Seq<CatalogAddonView>,
    entry: CatalogAddonView,
)
    requires
        catalog.contains(entry),
        found_by(ajour.search, ajour.config.flavor)(entry),
    ensures
        catalog.filter(found_by(ajour.search, ajour.config.flavor)).len()
            <= ajour.search.result_size.rows ==> search_result(ajour, catalog).to_multiset()
            == catalog.filter(found_by(ajour.search, ajour.config.flavor)).to_multiset(),
        search_result(ajour, catalog).contains(entry) || forall|i: int|
            0 <= i < search_result(ajour, catalog).len() ==> search_order(ajour)(
                #[trigger] search_result(ajour, catalog)[i],
                entry,
            ) != Order::Greater,
{
    let condition = found_by(ajour.search, ajour.config.flavor);
    let found = catalog.filter(condition);
    let order = search_order(ajour);
    let sorted = stable_sort(found, order);
    let rows = search_result(ajour, catalog);
    lemma_search_order_is_total_preorder(ajour);
    sorted_values_ascend(found, order);
    sorting_keeps_every_value(found, order);
    let i = choose|i: int| 0 <= i < catalog.len() && catalog[i] == entry;
    catalog.lemma_filter_contains(condition, i);
    sorting_keeps_membership(found, order, entry);
    let place = choose|place: int| 0 <= place < sorted.len() && sorted[place] == entry;
    if place < rows.len() {
        assert(rows[place] == entry);
    } else {
        assert forall|k: int| 0 <= k < rows.len() implies order(#[trigger] rows[k], entry)
            != Order::Greater by {
            assert(order(sorted[k], sorted[place]) != Order::Greater);
        }
    }
}

/// Searching once more shows the same rows.
pub proof fn searching_is_idempotent(ajour: AjourView)
    ensures
        searched(searched(ajour)) == searched(ajour),
{
    if let Some(catalog) = ajour.catalog {
        let once = searched(ajour);
        assert(found_by(once.search, ajour.config.flavor) =~= found_by(
            ajour.search,
            ajour.config.flavor,
        ));
    }
}

/// The queries ask for the same: their letters differ in case at most. An empty query asks for as
/// much as none.
pub open spec fn same_query(a: Option<Seq<char>>, b: Option<Seq<char>>) -> bool {
    match (a, b) {
        (Some(a), Some(b)) => lowered(a) == lowered(b),
        (Some(query), None) | (None, Some(query)) => query.len() == 0,
        (None, None) => true,
    }
}

/// Searches that differ in their queries only, and whose queries ask for the same, show the same
/// rows.
pub proof fn the_case_of_a_query_does_not_matter(ajour: AjourView, query: Option<Seq<char>>)
    requires
        same_query(ajour.search.query, query),
    ensures
        searched(
            AjourView { search: SearchView { query, ..ajour.search }, ..ajour },
        ).search.catalog_rows == searched(ajour).search.catalog_rows,
{
    let other = AjourView { search: SearchView { query, ..ajour.search }, ..ajour };
    let flavor = ajour.config.flavor;
    assert forall|addon: CatalogAddonView| #[trigger]
        found_by(ajour.search, flavor)(addon) == found_by(other.search, flavor)(addon) by {
        let text = cleaned_text(lowered(addon.name), lowered(addon.summary));
        assert(text.subrange(0, 0) =~= Seq::empty());
        assert(occurs_at(Seq::empty(), text, 0));
    }
    assert(found_by(ajour.search, flavor) =~= found_by(other.search, flavor));
}

/// A search that may show fewer rows shows the first ones of a search that may show more.
pub proof fn fewer_rows_are_the_first_of_more(
    ajour: AjourView,
    catalog: Seq<CatalogAddonView>,
    fewer: CatalogResultSize,
)
    requires
        fewer.rows <= ajour.search.result_size.rows,
    ensures
        ({
            let narrowed = AjourView {
                search: SearchView { result_size: fewer, ..ajour.search },
                ..ajour
            };
            search_result(narrowed, catalog).is_prefix_of(search_result(ajour, catalog))
        }),
{
    let narrowed = AjourView { search: SearchView { result_size: fewer, ..ajour.search }, ..ajour };
    let flavor = ajour.config.flavor;
    assert(found_by(narrowed.search, flavor) =~= found_by(ajour.search, flavor));
    let less = search_result(narrowed, catalog);
    let more = search_result(ajour, catalog);
    assert(less =~= more.subrange(0, less.len() as int));
}

/// Flavors of one base show the same rows, unless these are sorted by game versions.
pub proof fn flavors_of_one_base_show_the_same_rows(ajour: AjourView, flavor: Flavor)
    requires
        flavor.spec_base_flavor() == ajour.config.flavor.spec_base_flavor(),
        ajour.catalog_header.previous_column_key != Some(CatalogColumnKey::GameVersion),
    ensures
        searched(
            AjourView { config: ConfigView { flavor, ..ajour.config }, ..ajour },
        ).search.catalog_rows == searched(ajour).search.catalog_rows,
{
    let other = AjourView { config: ConfigView { flavor, ..ajour.config }, ..ajour };
    let direction = match ajour.catalog_header.previous_sort_direction {
        Some(direction) => direction,
        None => SortDirection::Desc,
    };
    let column = match ajour.catalog_header.previous_column_key {
        Some(column) => column,
        None => CatalogColumnKey::NumDownloads,
    };
    only_game_versions_depend_on_the_flavor(
        column,
        direction,
        flavor,
        ajour.config.flavor,
        ajour.collation,
    );
    assert(found_by(other.search, flavor) =~= found_by(ajour.search, ajour.config.flavor));
}

proof fn lemma_without_repeats(texts: Seq<Seq<char>>)
    ensures
        without_repeats(texts).no_duplicates(),
        forall|text: Seq<char>| #[trigger]
            without_repeats(texts).contains(text) <==> texts.contains(text),
    decreases texts.len(),
{
    if texts.len() > 0 {
        let rest = texts.drop_last();
        let last = texts.last();
        let earlier = without_repeats(rest);
        lemma_without_repeats(rest);
        assert(texts =~= rest.push(last));
        assert forall|text: Seq<char>| #[trigger]
            without_repeats(texts).contains(text) <==> texts.contains(text) by {
            assert(texts.contains(text) <==> rest.contains(text) || text == last) by {
                if rest.contains(text) {
                    let i = choose|i: int| 0 <= i < rest.len() && rest[i] == text;
                    assert(texts[i] == text);
                }
                if text == last {
                    assert(texts[texts.len() - 1] == text);
                }
            }
            assert(earlier.push(last).contains(text) <==> earlier.contains(text) || text == last)
                by {
                let longer = earlier.push(last);
                if earlier.contains(text) {
                    let i = choose|i: int| 0 <= i < earlier.len() && earlier[i] == text;
                    assert(longer[i] == text);
                }
                if text == last {
                    assert(longer[longer.len() - 1] == text);
                }
            }
            assert(earlier.contains(text) <==> rest.contains(text));
            assert(earlier.contains(last) <==> rest.contains(last));
        }
    }
}

proof fn lemma_all_categories(catalog: Seq<CatalogAddonView>, name: Seq<char>)
    ensures
        all_categories(catalog).contains(name) <==> exists|i: int|
            0 <= i < catalog.len() && (#[trigger] catalog[i]).categories.contains(name),
    decreases catalog.len(),
{
    if catalog.len() > 0 {
        let rest = catalog.drop_last();
        let earlier = all_categories(rest);
        let last = catalog.last().categories;
        lemma_all_categories(rest, name);
        let all = all_categories(catalog);
        assert(all == earlier + last);
        if all.contains(name) {
            let i = choose|i: int| 0 <= i < all.len() && all[i] == name;
            if i < earlier.len() {
                assert(earlier[i] == name);
                let j = choose|j: int|
                    0 <= j < rest.len() && (#[trigger] rest[j]).categories.contains(name);
                assert(catalog[j].categories.contains(name));
            } else {
                assert(last[i - earlier.len()] == name);
                assert(catalog[catalog.len() - 1].categories.contains(name));
            }
        }
        if exists|i: int|
            0 <= i < catalog.len() && (#[trigger] catalog[i]).categories.contains(name) {
            let i = choose|i: int|
                0 <= i < catalog.len() && (#[trigger] catalog[i]).categories.contains(name);
            if i < rest.len() {
                assert(rest[i].categories.contains(name));
                let j = choose|j: int| 0 <= j < earlier.len() && earlier[j] == name;
                assert(all[j] == name);
            } else {
                let j = choose|j: int| 0 <= j < last.len() && last[j] == name;
                assert(all[earlier.len() + j] == name);
            }
        }
    }
}

/// The categories to choose from are the ones that occur in the catalog, each of them once and in
/// ascending order, after the choice of all of them.
pub proof fn each_category_can_be_chosen(catalog: Seq<CatalogAddonView>, name: Seq<char>)
    ensures
        category_choices(catalog)[0] == CategoryView::All,
        category_choices(catalog).contains(CategoryView::Choice(name)) <==> exists|i: int|
            0 <= i < catalog.len() && (#[trigger] catalog[i]).categories.contains(name),
        category_choices(catalog).no_duplicates(),
        ascending(category_names(catalog), by_text()),
{
    let all = all_categories(catalog);
    let once = without_repeats(all);
    let names = category_names(catalog);
    let choices = category_choices(catalog);
    by_text_is_total_preorder();
    sorted_values_ascend(once, by_text());
    lemma_without_repeats(all);
    sorting_adds_no_repeats(once, by_text());
    sorting_keeps_membership(once, by_text(), name);
    lemma_all_categories(catalog, name);
    assert(once.contains(name) <==> all.contains(name));
    assert(choices.contains(CategoryView::Choice(name)) <==> names.contains(name)) by {
        if names.contains(name) {
            let i = choose|i: int| 0 <= i < names.len() && names[i] == name;
            assert(choices[i + 1] == CategoryView::Choice(name));
        }
        if choices.contains(CategoryView::Choice(name)) {
            let i = choose|i: int|
                0 <= i < choices.len() && choices[i] == CategoryView::Choice(name);
            assert(names[i - 1] == name);
        }
    }
}

} // verus!
