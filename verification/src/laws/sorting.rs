//! What is promised of the orders of the lists.
use super::addons::standings_decide;
use super::texts::{
    comes_before, in_lowercase, lowered_texts_are_lowercase,
    texts_compare_by_their_first_difference,
};
use super::words::{is_arranged, is_first_on, is_off, level_with};
use crate::addon::{AddonView, PackageView, Repository, StateView};
use crate::catalog::{CatalogAddonView, GameVersion, Source};
use crate::config::{CatalogColumnKey, ColumnKey};
use crate::list::{first_where, first_where_finds_the_first, is_first};
use crate::order::{
    sorted_values_ascend, sorting_keeps_every_value, sorting_keeps_the_order_of_ties, stable_sort,
    ties_with, total_preorder, Comparison, Order,
};
use crate::sort::{
    addon_order, addon_order_is_total_preorder, by_theme, catalog_order,
    catalog_order_is_total_preorder, game_version_rank, made_for,
};
use crate::state::{Collation, ServiceRanks, SortDirection, StateRanks, ThemeView};
use crate::text::lowered;
use crate::wow::Flavor;
use vstd::prelude::*;

verus! {

/// One optional text comes before another. A missing one comes first.
pub open spec fn text_before(a: Option<Seq<char>>, b: Option<Seq<char>>) -> bool {
    match (a, b) {
        (None, Some(_)) => true,
        (Some(a), Some(b)) => comes_before(a, b),
        _ => false,
    }
}

/// One optional number comes before another. A missing one comes first.
pub open spec fn number_before(a: Option<int>, b: Option<int>) -> bool {
    match (a, b) {
        (None, Some(_)) => true,
        (Some(a), Some(b)) => a < b,
        _ => false,
    }
}

/// The release that an addon's channel offers.
pub open spec fn release_of(addon: AddonView) -> Option<PackageView> {
    if is_off(addon.standings, addon.release_channel) {
        None
    } else {
        addon.standings[choose|k: int| #[trigger]
            is_first_on(addon.standings, addon.release_channel, k)].package
    }
}

/// The place among addons that an addon's channel gives it.
pub open spec fn place_of(addon: AddonView) -> int {
    if is_off(addon.standings, addon.release_channel) {
        addon.rank as int
    } else {
        addon.standings[choose|k: int| #[trigger]
            is_first_on(addon.standings, addon.release_channel, k)].rank as int
    }
}

/// The place of the release that an addon's channel offers.
pub open spec fn release_place(addon: AddonView) -> Option<int> {
    match release_of(addon) {
        Some(package) => Some(package.rank as int),
        None => None,
    }
}

/// One release came out before another. No release comes first, then one without a date.
pub open spec fn released_before(a: Option<PackageView>, b: Option<PackageView>) -> bool {
    match (a, b) {
        (None, Some(_)) => true,
        (Some(a), Some(b)) => match (a.date_time, b.date_time) {
            (None, Some(_)) => true,
            (Some(a), Some(b)) => a < b,
            _ => false,
        },
        _ => false,
    }
}

/// One state comes before another: by the places that are given to states, then by what they are,
/// then by the texts that they hold.
pub open spec fn state_before(places: StateRanks, a: StateView, b: StateView) -> bool {
    let (x, y) = (state_place(places, a), state_place(places, b));
    ||| x.0 < y.0
    ||| x.0 == y.0 && x.1 < y.1
    ||| x.0 == y.0 && x.1 == y.1 && match (a, b) {
        (StateView::Ajour(a), StateView::Ajour(b)) => text_before(a, b),
        (StateView::Other(a, _), StateView::Other(b, _)) => comes_before(a, b),
        _ => false,
    }
}

/// The place that is given to a state, and a number that tells states of one place apart.
pub open spec fn state_place(places: StateRanks, state: StateView) -> (int, int) {
    match state {
        StateView::Ajour(_) => (places.ajour as int, 0),
        StateView::Corrupted => (places.corrupted as int, 1),
        StateView::Downloading => (places.downloading as int, 2),
        StateView::Fingerprint => (places.fingerprint as int, 3),
        StateView::Ignored => (places.ignored as int, 4),
        StateView::Unpacking => (places.unpacking as int, 5),
        StateView::Updatable => (places.updatable as int, 6),
        StateView::Other(_, place) => (place as int, 7),
    }
}

/// One repository comes before another. A missing one comes first.
pub open spec fn repository_before(
    places: ServiceRanks,
    a: Option<Repository>,
    b: Option<Repository>,
) -> bool {
    match (a, b) {
        (None, Some(_)) => true,
        (Some(Repository::Curse), Some(Repository::Tukui)) => places.curse <= places.tukui,
        (Some(Repository::Curse), Some(Repository::WowI)) => places.curse <= places.wowi,
        (Some(Repository::Tukui), Some(Repository::WowI)) => places.tukui <= places.wowi,
        (Some(Repository::Tukui), Some(Repository::Curse)) => places.tukui < places.curse,
        (Some(Repository::WowI), Some(Repository::Curse)) => places.wowi < places.curse,
        (Some(Repository::WowI), Some(Repository::Tukui)) => places.wowi < places.tukui,
        _ => false,
    }
}

/// One service comes before another.
pub open spec fn source_before(places: ServiceRanks, a: Source, b: Source) -> bool {
    match (a, b) {
        (Source::Curse, Source::Tukui) => places.curse <= places.tukui,
        (Source::Curse, Source::WowI) => places.curse <= places.wowi,
        (Source::Tukui, Source::WowI) => places.tukui <= places.wowi,
        (Source::Tukui, Source::Curse) => places.tukui < places.curse,
        (Source::WowI, Source::Curse) => places.wowi < places.curse,
        (Source::WowI, Source::Tukui) => places.wowi < places.tukui,
        _ => false,
    }
}

/// What the column shows of one addon comes before what it shows of another.
pub open spec fn shown_before(
    column: ColumnKey,
    collation: Collation,
    a: AddonView,
    b: AddonView,
) -> bool {
    match column {
        ColumnKey::Title => comes_before(in_lowercase(a.title), in_lowercase(b.title)),
        ColumnKey::LocalVersion => text_before(a.version, b.version),
        ColumnKey::RemoteVersion => number_before(release_place(a), release_place(b)),
        ColumnKey::Status => state_before(collation.states, a.state, b.state),
        ColumnKey::Channel => comes_before(a.release_channel, b.release_channel),
        ColumnKey::Author => text_before(a.author, b.author),
        ColumnKey::GameVersion => text_before(a.game_version, b.game_version),
        ColumnKey::DateReleased => released_before(release_of(a), release_of(b)),
        ColumnKey::Source => repository_before(
            collation.repositories,
            a.active_repository,
            b.active_repository,
        ),
    }
}

/// One addon comes before another in the list where the column shows the same of both.
pub open spec fn ahead_in_a_tie(
    column: ColumnKey,
    direction: SortDirection,
    a: AddonView,
    b: AddonView,
) -> bool {
    match (column, direction) {
        (ColumnKey::Title, SortDirection::Desc) => number_before(
            release_place(a),
            release_place(b),
        ),
        (ColumnKey::LocalVersion, _) => comes_before(a.title, b.title),
        (ColumnKey::RemoteVersion, _) => place_of(a) < place_of(b),
        (ColumnKey::Status, _) => place_of(a) < place_of(b),
        _ => false,
    }
}

/// One addon comes before another in the list that is sorted by the column.
pub open spec fn addon_ahead(
    column: ColumnKey,
    direction: SortDirection,
    collation: Collation,
) -> spec_fn(AddonView, AddonView) -> bool {
    |a: AddonView, b: AddonView|
        {
            let less = shown_before(column, collation, a, b);
            let more = shown_before(column, collation, b, a);
            ||| (if direction == SortDirection::Asc { less } else { more })
            ||| !less && !more && ahead_in_a_tie(column, direction, a, b)
        }
}

/// The first game version that an entry names for the flavor stands at the position.
pub open spec fn is_first_version(versions: Seq<GameVersion>, flavor: Flavor, k: int) -> bool {
    &&& 0 <= k < versions.len()
    &&& versions[k].flavor == flavor
    &&& forall|j: int| 0 <= j < k ==> (#[trigger] versions[j]).flavor != flavor
}

/// The place of the first game version that an entry names for the flavor.
pub open spec fn version_place(entry: CatalogAddonView, flavor: Flavor) -> Option<int> {
    if exists|k: int| #[trigger] is_first_version(entry.game_versions, flavor, k) {
        Some(
            entry.game_versions[choose|k: int| #[trigger]
                is_first_version(entry.game_versions, flavor, k)].rank as int,
        )
    } else {
        None
    }
}

/// What the column shows of one entry comes before what it shows of another.
pub open spec fn entry_before(
    column: CatalogColumnKey,
    flavor: Flavor,
    collation: Collation,
    a: CatalogAddonView,
    b: CatalogAddonView,
) -> bool {
    match column {
        CatalogColumnKey::Title => comes_before(a.name, b.name),
        CatalogColumnKey::Description => comes_before(a.summary, b.summary),
        CatalogColumnKey::Source => source_before(collation.sources, a.source, b.source),
        CatalogColumnKey::NumDownloads => a.number_of_downloads < b.number_of_downloads,
        CatalogColumnKey::Install => false,
        CatalogColumnKey::DateReleased => match (a.date_released, b.date_released) {
            (None, Some(_)) => true,
            (Some(a), Some(b)) => a < b,
            _ => false,
        },
        CatalogColumnKey::GameVersion => number_before(
            version_place(a, flavor),
            version_place(b, flavor),
        ),
    }
}

/// One entry comes before another in the catalog that is sorted by the column.
pub open spec fn entry_ahead(
    column: CatalogColumnKey,
    direction: SortDirection,
    flavor: Flavor,
    collation: Collation,
) -> spec_fn(CatalogAddonView, CatalogAddonView) -> bool {
    |a: CatalogAddonView, b: CatalogAddonView|
        if direction == SortDirection::Asc {
            entry_before(column, flavor, collation, a, b)
        } else {
            entry_before(column, flavor, collation, b, a)
        }
}

pub(crate) proof fn lemma_arranged<V>(
    values: Seq<V>,
    order: Comparison<V>,
    ahead: spec_fn(V, V) -> bool,
)
    requires
        total_preorder(order),
        forall|a: V, b: V|
            (#[trigger] order(a, b) == Order::Less <==> ahead(a, b)) && (order(a, b)
                == Order::Greater <==> ahead(b, a)),
    ensures
        is_arranged(values, stable_sort(values, order), ahead),
{
    let sorted = stable_sort(values, order);
    sorted_values_ascend(values, order);
    sorting_keeps_every_value(values, order);
    assert forall|i: int, j: int| 0 <= i < j < sorted.len() implies !#[trigger] ahead(
        sorted[j],
        sorted[i],
    ) by {
        assert(order(sorted[i], sorted[j]) != Order::Greater);
    }
    assert forall|value: V|
        #[trigger] sorted.filter(level_with(ahead, value)) == values.filter(
            level_with(ahead, value),
        ) by {
        sorting_keeps_the_order_of_ties(values, order, value);
        assert forall|other: V| ties_with(value, order)(other) == #[trigger] level_with(
            ahead,
            value,
        )(other) by {
            let compared = order(other, value);
            assert(compared == Order::Less || compared == Order::Equal || compared
                == Order::Greater);
        }
        assert(ties_with(value, order) =~= level_with(ahead, value));
    }
}

/// The release that an addon's channel offers, and the place that it gives the addon, are those of
/// its first standing on the channel.
pub proof fn releases_and_places_come_from_standings(addon: AddonView)
    ensures
        addon.relevant_package() == release_of(addon),
        addon.place() == place_of(addon),
{
    let standings = addon.standings;
    let channel = addon.release_channel;
    standings_decide(addon, 0);
    if !is_off(standings, channel) {
        let j = choose|j: int| 0 <= j < standings.len() && standings[j].channel == channel;
        lemma_some_is_first(addon, j);
        let k = choose|k: int| #[trigger] is_first_on(standings, channel, k);
        standings_decide(addon, k);
    }
}

proof fn lemma_some_is_first(addon: AddonView, j: int)
    requires
        0 <= j < addon.standings.len(),
        addon.standings[j].channel == addon.release_channel,
    ensures
        exists|k: int| #[trigger] is_first_on(addon.standings, addon.release_channel, k),
    decreases j,
{
    if !is_first_on(addon.standings, addon.release_channel, j) {
        let i = choose|i: int|
            0 <= i < j && (#[trigger] addon.standings[i]).channel == addon.release_channel;
        lemma_some_is_first(addon, i);
    }
}

proof fn lemma_texts(a: Option<Seq<char>>, b: Option<Seq<char>>)
    ensures
        (a is Some && b is Some) ==> {
            let order = crate::text::text_order(a->0, b->0);
            &&& order == Order::Less <==> comes_before(a->0, b->0)
            &&& order == Order::Greater <==> comes_before(b->0, a->0)
            &&& !(comes_before(a->0, b->0) && comes_before(b->0, a->0))
        },
{
    if a is Some && b is Some {
        texts_compare_by_their_first_difference(a->0, b->0);
    }
}

#[verifier::spinoff_prover]
proof fn lemma_addon_order(
    column: ColumnKey,
    direction: SortDirection,
    collation: Collation,
    a: AddonView,
    b: AddonView,
)
    ensures
        addon_order(column, direction, collation)(a, b) == Order::Less <==> addon_ahead(
            column,
            direction,
            collation,
        )(a, b),
        addon_order(column, direction, collation)(a, b) == Order::Greater <==> addon_ahead(
            column,
            direction,
            collation,
        )(b, a),
{
    releases_and_places_come_from_standings(a);
    releases_and_places_come_from_standings(b);
    match column {
        ColumnKey::Title => {
            lowered_texts_are_lowercase(a.title);
            lowered_texts_are_lowercase(b.title);
            lemma_texts(Some(lowered(a.title)), Some(lowered(b.title)));
        },
        ColumnKey::LocalVersion => {
            lemma_texts(a.version, b.version);
            lemma_texts(Some(a.title), Some(b.title));
        },
        ColumnKey::RemoteVersion => {},
        ColumnKey::Status => {
            match (a.state, b.state) {
                (StateView::Ajour(x), StateView::Ajour(y)) => {
                    lemma_texts(x, y);
                },
                (StateView::Other(x, _), StateView::Other(y, _)) => {
                    lemma_texts(Some(x), Some(y));
                },
                _ => {},
            }
        },
        ColumnKey::Channel => {
            lemma_texts(Some(a.release_channel), Some(b.release_channel));
        },
        ColumnKey::Author => {
            lemma_texts(a.author, b.author);
        },
        ColumnKey::GameVersion => {
            lemma_texts(a.game_version, b.game_version);
        },
        ColumnKey::DateReleased => {},
        ColumnKey::Source => {},
    }
}

/// Sorting the addons by a column keeps them all and puts them in the sequence of what the column
/// shows, ascending or descending. Where it shows the same of two addons, their titles, releases or
/// places decide in some columns. Otherwise they stay as they stood.
pub proof fn addons_are_sorted_by_what_is_shown(
    addons: Seq<AddonView>,
    column: ColumnKey,
    direction: SortDirection,
    collation: Collation,
)
    ensures
        is_arranged(
            addons,
            stable_sort(addons, addon_order(column, direction, collation)),
            addon_ahead(column, direction, collation),
        ),
{
    let order = addon_order(column, direction, collation);
    let ahead = addon_ahead(column, direction, collation);
    addon_order_is_total_preorder(column, direction, collation);
    assert forall|a: AddonView, b: AddonView|
        (#[trigger] order(a, b) == Order::Less <==> ahead(a, b)) && (order(a, b) == Order::Greater
            <==> ahead(b, a)) by {
        lemma_addon_order(column, direction, collation, a, b);
    }
    lemma_arranged(addons, order, ahead);
}

proof fn lemma_version_place(entry: CatalogAddonView, flavor: Flavor)
    ensures
        game_version_rank(entry, flavor) == version_place(entry, flavor),
{
    let versions = entry.game_versions;
    let condition = made_for(flavor);
    first_where_finds_the_first(versions, condition);
    if first_where(versions, condition) is Some {
        let k = first_where(versions, condition)->0;
        assert forall|j: int| 0 <= j < k implies (#[trigger] versions[j]).flavor != flavor by {
            assert(!condition(versions[j]));
        }
        assert(is_first_version(versions, flavor, k));
    }
    if exists|k: int| #[trigger] is_first_version(versions, flavor, k) {
        let k = choose|k: int| #[trigger] is_first_version(versions, flavor, k);
        assert(is_first(versions, condition, k));
    }
}

proof fn lemma_catalog_order(
    column: CatalogColumnKey,
    direction: SortDirection,
    flavor: Flavor,
    collation: Collation,
    a: CatalogAddonView,
    b: CatalogAddonView,
)
    ensures
        catalog_order(column, direction, flavor, collation)(a, b) == Order::Less <==> entry_ahead(
            column,
            direction,
            flavor,
            collation,
        )(a, b),
        catalog_order(column, direction, flavor, collation)(a, b) == Order::Greater
            <==> entry_ahead(column, direction, flavor, collation)(b, a),
{
    lemma_texts(Some(a.name), Some(b.name));
    lemma_texts(Some(a.summary), Some(b.summary));
    lemma_version_place(a, flavor);
    lemma_version_place(b, flavor);
}

/// Sorting the catalog by a column keeps its entries and puts them in the sequence of what the
/// column shows: names, summaries, services, numbers of downloads, dates, or versions of the game,
/// ascending or descending. Entries of which it shows the same stay as they stood, and so does
/// every entry in the column of the install buttons.
pub proof fn entries_are_sorted_by_what_is_shown(
    entries: Seq<CatalogAddonView>,
    column: CatalogColumnKey,
    direction: SortDirection,
    flavor: Flavor,
    collation: Collation,
)
    ensures
        is_arranged(
            entries,
            stable_sort(entries, catalog_order(column, direction, flavor, collation)),
            entry_ahead(column, direction, flavor, collation),
        ),
{
    let order = catalog_order(column, direction, flavor, collation);
    let ahead = entry_ahead(column, direction, flavor, collation);
    catalog_order_is_total_preorder(column, direction, flavor, collation);
    assert forall|a: CatalogAddonView, b: CatalogAddonView|
        (#[trigger] order(a, b) == Order::Less <==> ahead(a, b)) && (order(a, b) == Order::Greater
            <==> ahead(b, a)) by {
        lemma_catalog_order(column, direction, flavor, collation, a, b);
    }
    lemma_arranged(entries, order, ahead);
}

/// Two entries tie in a column of the catalog exactly where it shows the same of both. In the
/// column of the install buttons every two entries tie.
pub proof fn entries_tie_where_the_same_is_shown(
    column: CatalogColumnKey,
    direction: SortDirection,
    flavor: Flavor,
    collation: Collation,
    a: CatalogAddonView,
    b: CatalogAddonView,
)
    ensures
        catalog_order(column, direction, flavor, collation)(a, b) == Order::Equal <==> match column {
            CatalogColumnKey::Title => a.name == b.name,
            CatalogColumnKey::Description => a.summary == b.summary,
            CatalogColumnKey::Source => a.source == b.source,
            CatalogColumnKey::NumDownloads => a.number_of_downloads == b.number_of_downloads,
            CatalogColumnKey::Install => true,
            CatalogColumnKey::DateReleased => a.date_released == b.date_released,
            CatalogColumnKey::GameVersion => version_place(a, flavor) == version_place(b, flavor),
        },
{
    texts_compare_by_their_first_difference(a.name, b.name);
    texts_compare_by_their_first_difference(a.summary, b.summary);
    lemma_version_place(a, flavor);
    lemma_version_place(b, flavor);
}

/// Sorting themes puts them in the sequence of their places.
pub proof fn themes_are_sorted_by_their_places(themes: Seq<ThemeView>)
    ensures
        is_arranged(
            themes,
            stable_sort(themes, by_theme()),
            |a: ThemeView, b: ThemeView| a.rank < b.rank,
        ),
{
    crate::order::by_size_is_total_preorder();
    crate::order::by_key_is_total_preorder(
        |theme: ThemeView| theme.rank as int,
        crate::order::by_size(),
    );
    lemma_arranged(themes, by_theme(), |a: ThemeView, b: ThemeView| a.rank < b.rank);
}

} // verus!
