//! The orders of the two lists.
use crate::addon::{Addon, AddonState, AddonView, Repository, StateView};
use crate::catalog::{CatalogAddonView, CatalogRow, GameVersion, Source};
use crate::config::{CatalogColumnKey, ColumnKey};
use crate::list::{find, first_where, Condition, Test};
use crate::order::{
    ascending, by_key, by_key_is_total_preorder, by_size, by_size_is_total_preorder, chained,
    chained_is_total_preorder, optional, optional_is_total_preorder, reversed,
    reversed_is_total_preorder, sort_items, sorting_leaves_ascending_values, stable_sort,
    tie_breaks_are_for_ties, total_preorder, untied_values_sort_in_reverse, without_ties,
    Comparator, Comparison, Order,
};
use crate::state::{
    Collation, ServiceRanks, SortDirection, StateRanks, Theme, ThemeView,
};
use crate::text::{
    by_text, by_text_is_total_preorder, compare_text, lower, lowered, only_equal_texts_tie,
};
use crate::wow::Flavor;
use vstd::prelude::*;

verus! {

/// The place that the ranks give to a state.
pub open spec fn state_rank(ranks: StateRanks, state: StateView) -> int {
    match state {
        StateView::Ajour(_) => ranks.ajour as int,
        StateView::Corrupted => ranks.corrupted as int,
        StateView::Downloading => ranks.downloading as int,
        StateView::Fingerprint => ranks.fingerprint as int,
        StateView::Ignored => ranks.ignored as int,
        StateView::Unpacking => ranks.unpacking as int,
        StateView::Updatable => ranks.updatable as int,
        StateView::Other(_, rank) => rank as int,
    }
}

/// The place of a state among states of the same rank.
pub open spec fn state_index(state: StateView) -> int {
    match state {
        StateView::Ajour(_) => 0,
        StateView::Corrupted => 1,
        StateView::Downloading => 2,
        StateView::Fingerprint => 3,
        StateView::Ignored => 4,
        StateView::Unpacking => 5,
        StateView::Updatable => 6,
        StateView::Other(_, _) => 7,
    }
}

/// The text that a state holds.
pub open spec fn state_text(state: StateView) -> Option<Seq<char>> {
    match state {
        StateView::Ajour(note) => note,
        StateView::Other(name, _) => Some(name),
        _ => None,
    }
}

/// States, by their ranks. States of one kind are compared by their texts.
pub open spec fn state_order(ranks: StateRanks) -> Comparison<StateView> {
    chained(
        by_key(|state: StateView| state_rank(ranks, state), by_size()),
        chained(
            by_key(|state: StateView| state_index(state), by_size()),
            by_key(|state: StateView| state_text(state), optional(by_text())),
        ),
    )
}

/// Two states tie only where they are the same.
pub proof fn only_equal_states_tie(ranks: StateRanks, a: StateView, b: StateView)
    ensures
        state_order(ranks)(a, b) == Order::Equal <==> a == b,
{
    match (state_text(a), state_text(b)) {
        (Some(x), Some(y)) => {
            only_equal_texts_tie(x, y);
        },
        _ => {},
    }
}

/// The place that the ranks give to a repository, and its place among those of the same rank.
pub open spec fn repository_rank(ranks: ServiceRanks, repository: Repository) -> (int, int) {
    match repository {
        Repository::Curse => (ranks.curse as int, 0),
        Repository::Tukui => (ranks.tukui as int, 1),
        Repository::WowI => (ranks.wowi as int, 2),
    }
}

/// The place that the ranks give to a source, and its place among those of the same rank.
pub open spec fn source_rank(ranks: ServiceRanks, source: Source) -> (int, int) {
    match source {
        Source::Curse => (ranks.curse as int, 0),
        Source::Tukui => (ranks.tukui as int, 1),
        Source::WowI => (ranks.wowi as int, 2),
    }
}

/// Compares pairs of integers by size, the first ones first.
pub open spec fn by_pair() -> Comparison<(int, int)> {
    chained(
        by_key(|pair: (int, int)| pair.0, by_size()),
        by_key(|pair: (int, int)| pair.1, by_size()),
    )
}

/// Comparison of pairs is a total preorder.
pub proof fn by_pair_is_total_preorder()
    ensures
        total_preorder(by_pair()),
{
    by_size_is_total_preorder();
    by_key_is_total_preorder(|pair: (int, int)| pair.0, by_size());
    by_key_is_total_preorder(|pair: (int, int)| pair.1, by_size());
    chained_is_total_preorder(
        by_key(|pair: (int, int)| pair.0, by_size()),
        by_key(|pair: (int, int)| pair.1, by_size()),
    );
}

/// The comparison of states is a total preorder.
pub proof fn state_order_is_total_preorder(ranks: StateRanks)
    ensures
        total_preorder(state_order(ranks)),
{
    by_size_is_total_preorder();
    by_text_is_total_preorder();
    optional_is_total_preorder(by_text());
    let rank = |state: StateView| state_rank(ranks, state);
    let index = |state: StateView| state_index(state);
    let text = |state: StateView| state_text(state);
    by_key_is_total_preorder(rank, by_size());
    by_key_is_total_preorder(index, by_size());
    by_key_is_total_preorder(text, optional(by_text()));
    let rest = chained(by_key(index, by_size()), by_key(text, optional(by_text())));
    chained_is_total_preorder(by_key(index, by_size()), by_key(text, optional(by_text())));
    chained_is_total_preorder(by_key(rank, by_size()), rest);
}

fn compare_pair(a: (i64, u8), b: (i64, u8)) -> (result: Order)
    ensures
        result == by_pair()((a.0 as int, a.1 as int), (b.0 as int, b.1 as int)),
{
    compare_size(a.0 as i128, b.0 as i128).or_else(compare_size(a.1 as i128, b.1 as i128))
}

fn state_key(ranks: &StateRanks, state: &AddonState) -> (key: (i64, u8))
    ensures
        key.0 == state_rank(*ranks, state.deep_view()),
        key.1 == state_index(state.deep_view()),
{
    match state {
        AddonState::Ajour(_) => (ranks.ajour, 0),
        AddonState::Corrupted => (ranks.corrupted, 1),
        AddonState::Downloading => (ranks.downloading, 2),
        AddonState::Fingerprint => (ranks.fingerprint, 3),
        AddonState::Ignored => (ranks.ignored, 4),
        AddonState::Unpacking => (ranks.unpacking, 5),
        AddonState::Updatable => (ranks.updatable, 6),
        AddonState::Other(_, rank) => (*rank, 7),
    }
}

fn compare_state_texts(a: &AddonState, b: &AddonState) -> (result: Order)
    ensures
        state_index(a.deep_view()) == state_index(b.deep_view()) ==> result == optional(by_text())(
            state_text(a.deep_view()),
            state_text(b.deep_view()),
        ),
{
    match (a, b) {
        (AddonState::Ajour(a), AddonState::Ajour(b)) => compare_optional_text(a, b),
        (AddonState::Other(a, _), AddonState::Other(b, _)) => compare_text(a.as_str(), b.as_str()),
        _ => Order::Equal,
    }
}

fn repository_key(ranks: &ServiceRanks, repository: Repository) -> (key: (i64, u8))
    ensures
        (key.0 as int, key.1 as int) == repository_rank(*ranks, repository),
{
    match repository {
        Repository::Curse => (ranks.curse, 0),
        Repository::Tukui => (ranks.tukui, 1),
        Repository::WowI => (ranks.wowi, 2),
    }
}

fn source_key(ranks: &ServiceRanks, source: Source) -> (key: (i64, u8))
    ensures
        (key.0 as int, key.1 as int) == source_rank(*ranks, source),
{
    match source {
        Source::Curse => (ranks.curse, 0),
        Source::Tukui => (ranks.tukui, 1),
        Source::WowI => (ranks.wowi, 2),
    }
}

/// The comparison as it stands, or the opposite one for descending order.
pub open spec fn directed<V>(direction: SortDirection, order: Comparison<V>) -> Comparison<V> {
    match direction {
        SortDirection::Asc => order,
        SortDirection::Desc => reversed(order),
    }
}

/// A comparison is a total preorder in either direction.
pub proof fn directed_is_total_preorder<V>(direction: SortDirection, order: Comparison<V>)
    requires
        total_preorder(order),
    ensures
        total_preorder(directed(direction, order)),
{
    reversed_is_total_preorder(order);
}

fn compare_size(a: i128, b: i128) -> (result: Order)
    ensures
        result == by_size()(a as int, b as int),
{
    if a < b {
        Order::Less
    } else if a == b {
        Order::Equal
    } else {
        Order::Greater
    }
}

fn compare_optional_size(a: Option<i128>, b: Option<i128>) -> (result: Order)
    ensures
        result == optional(by_size())(optional_size(a), optional_size(b)),
{
    match (a, b) {
        (None, None) => Order::Equal,
        (None, Some(_)) => Order::Less,
        (Some(_), None) => Order::Greater,
        (Some(a), Some(b)) => compare_size(a, b),
    }
}

/// A machine number as an integer.
pub open spec fn optional_size(number: Option<i128>) -> Option<int> {
    match number {
        Some(number) => Some(number as int),
        None => None,
    }
}

fn compare_optional_text(a: &Option<String>, b: &Option<String>) -> (result: Order)
    ensures
        result == optional(by_text())(a.deep_view(), b.deep_view()),
{
    match (a, b) {
        (None, None) => Order::Equal,
        (None, Some(_)) => Order::Less,
        (Some(_), None) => Order::Greater,
        (Some(a), Some(b)) => compare_text(a.as_str(), b.as_str()),
    }
}

fn directed_result(direction: SortDirection, order: Order) -> (result: Order)
    ensures
        result == match direction {
            SortDirection::Asc => order,
            SortDirection::Desc => order.spec_reverse(),
        },
{
    match direction {
        SortDirection::Asc => order,
        SortDirection::Desc => order.reverse(),
    }
}

/// Titles, whatever the case of their letters.
pub open spec fn by_lowercase_title() -> Comparison<AddonView> {
    by_key(|addon: AddonView| lowered(addon.title), by_text())
}

/// Titles.
pub open spec fn by_title() -> Comparison<AddonView> {
    by_key(|addon: AddonView| addon.title, by_text())
}

/// The releases that the addons would be updated to.
pub open spec fn by_package() -> Comparison<AddonView> {
    by_key(
        |addon: AddonView|
            match addon.relevant_package() {
                Some(package) => Some(package.rank as int),
                None => None,
            },
        optional(by_size()),
    )
}

/// When the releases came out that the addons would be updated to. No release comes first, then
/// releases without a date.
pub open spec fn by_release_date() -> Comparison<AddonView> {
    by_key(
        |addon: AddonView|
            match addon.relevant_package() {
                Some(package) => Some(optional_size(package.date_time)),
                None => None,
            },
        optional(optional(by_size())),
    )
}

/// The addons' places among addons.
pub open spec fn by_rank() -> Comparison<AddonView> {
    by_key(|addon: AddonView| addon.place(), by_size())
}

/// What is going on with the addons.
pub open spec fn by_state(collation: Collation) -> Comparison<AddonView> {
    by_key(|addon: AddonView| addon.state, state_order(collation.states))
}

/// The repositories that the addons come from.
pub open spec fn by_repository(collation: Collation) -> Comparison<AddonView> {
    by_key(
        |addon: AddonView|
            match addon.active_repository {
                Some(repository) => Some(repository_rank(collation.repositories, repository)),
                None => None,
            },
        optional(by_pair()),
    )
}

/// The values of a column, in ascending order.
pub open spec fn column_order(column: ColumnKey, collation: Collation) -> Comparison<AddonView> {
    match column {
        ColumnKey::Title => by_lowercase_title(),
        ColumnKey::LocalVersion => by_key(|addon: AddonView| addon.version, optional(by_text())),
        ColumnKey::RemoteVersion => by_package(),
        ColumnKey::Status => by_state(collation),
        ColumnKey::Channel => by_key(|addon: AddonView| addon.release_channel, by_text()),
        ColumnKey::Author => by_key(|addon: AddonView| addon.author, optional(by_text())),
        ColumnKey::GameVersion => by_key(
            |addon: AddonView| addon.game_version,
            optional(by_text()),
        ),
        ColumnKey::DateReleased => by_release_date(),
        ColumnKey::Source => by_repository(collation),
    }
}

/// How the list of installed addons is sorted by a column: by the column's values, and in some
/// columns by something else where these tie.
pub open spec fn addon_order(
    column: ColumnKey,
    direction: SortDirection,
    collation: Collation,
) -> Comparison<AddonView> {
    let values = directed(direction, column_order(column, collation));
    match (column, direction) {
        (ColumnKey::Title, SortDirection::Desc) => chained(values, by_package()),
        (ColumnKey::LocalVersion, _) => chained(values, by_title()),
        (ColumnKey::RemoteVersion, _) => chained(values, by_rank()),
        (ColumnKey::Status, _) => chained(values, by_rank()),
        _ => values,
    }
}

/// The values of each column are compared by a total preorder.
pub proof fn column_order_is_total_preorder(column: ColumnKey, collation: Collation)
    ensures
        total_preorder(column_order(column, collation)),
        total_preorder(by_package()),
        total_preorder(by_title()),
        total_preorder(by_rank()),
{
    by_text_is_total_preorder();
    by_size_is_total_preorder();
    by_pair_is_total_preorder();
    state_order_is_total_preorder(collation.states);
    optional_is_total_preorder(by_text());
    optional_is_total_preorder(by_size());
    optional_is_total_preorder(optional(by_size()));
    optional_is_total_preorder(by_pair());
    let packages = |addon: AddonView|
        match addon.relevant_package() {
            Some(package) => Some(package.rank as int),
            None => None,
        };
    let dates = |addon: AddonView|
        match addon.relevant_package() {
            Some(package) => Some(optional_size(package.date_time)),
            None => None,
        };
    let repositories = |addon: AddonView|
        match addon.active_repository {
            Some(repository) => Some(repository_rank(collation.repositories, repository)),
            None => None,
        };
    by_key_is_total_preorder(|addon: AddonView| addon.title, by_text());
    by_key_is_total_preorder(|addon: AddonView| lowered(addon.title), by_text());
    by_key_is_total_preorder(packages, optional(by_size()));
    by_key_is_total_preorder(dates, optional(optional(by_size())));
    by_key_is_total_preorder(|addon: AddonView| addon.place(), by_size());
    by_key_is_total_preorder(|addon: AddonView| addon.state, state_order(collation.states));
    by_key_is_total_preorder(repositories, optional(by_pair()));
    by_key_is_total_preorder(|addon: AddonView| addon.version, optional(by_text()));
    by_key_is_total_preorder(|addon: AddonView| addon.release_channel, by_text());
    by_key_is_total_preorder(|addon: AddonView| addon.author, optional(by_text()));
    by_key_is_total_preorder(|addon: AddonView| addon.game_version, optional(by_text()));
}

/// Each order of the list of installed addons is a total preorder.
pub proof fn addon_order_is_total_preorder(
    column: ColumnKey,
    direction: SortDirection,
    collation: Collation,
)
    ensures
        total_preorder(addon_order(column, direction, collation)),
{
    let values = directed(direction, column_order(column, collation));
    column_order_is_total_preorder(column, collation);
    directed_is_total_preorder(direction, column_order(column, collation));
    chained_is_total_preorder(values, by_package());
    chained_is_total_preorder(values, by_title());
    chained_is_total_preorder(values, by_rank());
}

/// The addons have the same value in the column. Releases count as the same where their ranks are
/// equal.
pub open spec fn same_value(column: ColumnKey, a: AddonView, b: AddonView) -> bool {
    match column {
        ColumnKey::Title => lowered(a.title) == lowered(b.title),
        ColumnKey::LocalVersion => a.version == b.version,
        ColumnKey::RemoteVersion => match (a.relevant_package(), b.relevant_package()) {
            (Some(a), Some(b)) => a.rank == b.rank,
            (None, None) => true,
            _ => false,
        },
        ColumnKey::Status => a.state == b.state,
        ColumnKey::Channel => a.release_channel == b.release_channel,
        ColumnKey::Author => a.author == b.author,
        ColumnKey::GameVersion => a.game_version == b.game_version,
        ColumnKey::DateReleased => match (a.relevant_package(), b.relevant_package()) {
            (Some(a), Some(b)) => a.date_time == b.date_time,
            (None, None) => true,
            _ => false,
        },
        ColumnKey::Source => a.active_repository == b.active_repository,
    }
}

proof fn lemma_only_equal_optional_texts_tie(a: Option<Seq<char>>, b: Option<Seq<char>>)
    ensures
        optional(by_text())(a, b) == Order::Equal <==> a == b,
{
    if let (Some(x), Some(y)) = (a, b) {
        only_equal_texts_tie(x, y);
    }
}

/// Two addons tie in a column exactly where they have the same value in it.
pub proof fn only_equal_values_tie(
    column: ColumnKey,
    collation: Collation,
    a: AddonView,
    b: AddonView,
)
    ensures
        column_order(column, collation)(a, b) == Order::Equal <==> same_value(column, a, b),
{
    match column {
        ColumnKey::Title => {
            only_equal_texts_tie(lowered(a.title), lowered(b.title));
        },
        ColumnKey::LocalVersion => {
            lemma_only_equal_optional_texts_tie(a.version, b.version);
        },
        ColumnKey::Status => {
            only_equal_states_tie(collation.states, a.state, b.state);
        },
        ColumnKey::Channel => {
            only_equal_texts_tie(a.release_channel, b.release_channel);
        },
        ColumnKey::Author => {
            lemma_only_equal_optional_texts_tie(a.author, b.author);
        },
        ColumnKey::GameVersion => {
            lemma_only_equal_optional_texts_tie(a.game_version, b.game_version);
        },
        ColumnKey::RemoteVersion => {},
        ColumnKey::DateReleased => {},
        ColumnKey::Source => {},
    }
}

/// Where every two addons have different values in a column, the descending order is the ascending
/// one backwards.
pub proof fn descending_is_ascending_backwards(
    addons: Seq<AddonView>,
    column: ColumnKey,
    collation: Collation,
)
    requires
        forall|i: int, j: int|
            0 <= i < addons.len() && 0 <= j < addons.len() && i != j ==> !(#[trigger] same_value(
                column,
                addons[i],
                addons[j],
            )),
    ensures
        stable_sort(addons, addon_order(column, SortDirection::Desc, collation)) == stable_sort(
            addons,
            addon_order(column, SortDirection::Asc, collation),
        ).reverse(),
{
    let order = column_order(column, collation);
    let opposite = reversed(order);
    column_order_is_total_preorder(column, collation);
    assert forall|i: int, j: int|
        0 <= i < addons.len() && 0 <= j < addons.len() && i != j implies #[trigger] order(
        addons[i],
        addons[j],
    ) != Order::Equal by {
        assert(!same_value(column, addons[i], addons[j]));
        only_equal_values_tie(column, collation, addons[i], addons[j]);
    }
    assert forall|i: int, j: int|
        0 <= i < addons.len() && 0 <= j < addons.len() && i != j implies #[trigger] opposite(
        addons[i],
        addons[j],
    ) != Order::Equal by {
        assert(order(addons[i], addons[j]) != Order::Equal);
    }
    untied_values_sort_in_reverse(addons, order);
    tie_breaks_are_for_ties(addons, opposite, by_package());
    tie_breaks_are_for_ties(addons, order, by_title());
    tie_breaks_are_for_ties(addons, opposite, by_title());
    tie_breaks_are_for_ties(addons, order, by_rank());
    tie_breaks_are_for_ties(addons, opposite, by_rank());
}

struct AddonComparator<'a> {
    column: ColumnKey,
    direction: SortDirection,
    collation: &'a Collation,
}

fn compare_lowercase_titles(a: &Addon, b: &Addon) -> (result: Order)
    ensures
        result == by_lowercase_title()(a.deep_view(), b.deep_view()),
{
    let a = lower(a.title.as_str());
    let b = lower(b.title.as_str());
    compare_text(a.as_str(), b.as_str())
}

fn compare_packages(a: &Addon, b: &Addon) -> (result: Order)
    ensures
        result == by_package()(a.deep_view(), b.deep_view()),
{
    match (a.relevant_release_package(), b.relevant_release_package()) {
        (None, None) => Order::Equal,
        (None, Some(_)) => Order::Less,
        (Some(_), None) => Order::Greater,
        (Some(a), Some(b)) => compare_size(a.rank as i128, b.rank as i128),
    }
}

fn compare_release_dates(a: &Addon, b: &Addon) -> (result: Order)
    ensures
        result == by_release_date()(a.deep_view(), b.deep_view()),
{
    match (a.relevant_release_package(), b.relevant_release_package()) {
        (None, None) => Order::Equal,
        (None, Some(_)) => Order::Less,
        (Some(_), None) => Order::Greater,
        (Some(a), Some(b)) => compare_optional_size(a.date_time, b.date_time),
    }
}

fn compare_ranks(a: &Addon, b: &Addon) -> (result: Order)
    ensures
        result == by_rank()(a.deep_view(), b.deep_view()),
{
    compare_size(a.place() as i128, b.place() as i128)
}

fn compare_states(a: &Addon, b: &Addon, collation: &Collation) -> (result: Order)
    ensures
        result == by_state(*collation)(a.deep_view(), b.deep_view()),
{
    let kinds = compare_pair(
        state_key(&collation.states, &a.state),
        state_key(&collation.states, &b.state),
    );
    kinds.or_else(compare_state_texts(&a.state, &b.state))
}

fn compare_repositories(a: &Addon, b: &Addon, collation: &Collation) -> (result: Order)
    ensures
        result == by_repository(*collation)(a.deep_view(), b.deep_view()),
{
    match (a.active_repository, b.active_repository) {
        (None, None) => Order::Equal,
        (None, Some(_)) => Order::Less,
        (Some(_), None) => Order::Greater,
        (Some(a), Some(b)) => compare_pair(
            repository_key(&collation.repositories, a),
            repository_key(&collation.repositories, b),
        ),
    }
}

impl<'a> Comparator<Addon> for AddonComparator<'a> {
    closed spec fn order(&self) -> Comparison<AddonView> {
        addon_order(self.column, self.direction, *self.collation)
    }

    proof fn order_is_total_preorder(&self) {
        addon_order_is_total_preorder(self.column, self.direction, *self.collation);
    }

    fn compare(&self, a: &Addon, b: &Addon) -> (result: Order) {
        match (self.column, self.direction) {
            (ColumnKey::Title, SortDirection::Asc) => compare_lowercase_titles(a, b),
            (ColumnKey::Title, SortDirection::Desc) => {
                compare_lowercase_titles(a, b).reverse().or_else(compare_packages(a, b))
            },
            (ColumnKey::LocalVersion, direction) => {
                directed_result(direction, compare_optional_text(&a.version, &b.version)).or_else(
                    compare_text(a.title.as_str(), b.title.as_str()),
                )
            },
            (ColumnKey::RemoteVersion, direction) => {
                directed_result(direction, compare_packages(a, b)).or_else(compare_ranks(a, b))
            },
            (ColumnKey::Status, direction) => {
                directed_result(direction, compare_states(a, b, self.collation)).or_else(
                    compare_ranks(a, b),
                )
            },
            (ColumnKey::Channel, direction) => {
                directed_result(
                    direction,
                    compare_text(a.release_channel.name.as_str(), b.release_channel.name.as_str()),
                )
            },
            (ColumnKey::Author, direction) => {
                directed_result(direction, compare_optional_text(&a.author, &b.author))
            },
            (ColumnKey::GameVersion, direction) => {
                directed_result(direction, compare_optional_text(&a.game_version, &b.game_version))
            },
            (ColumnKey::DateReleased, direction) => {
                directed_result(direction, compare_release_dates(a, b))
            },
            (ColumnKey::Source, direction) => {
                directed_result(direction, compare_repositories(a, b, self.collation))
            },
        }
    }
}

/// Sorts the list of installed addons by a column.
pub fn sort_addons(
    addons: &mut Vec<Addon>,
    sort_direction: SortDirection,
    column_key: ColumnKey,
    collation: &Collation,
)
    ensures
        final(addons).deep_view() == stable_sort(
            old(addons).deep_view(),
            addon_order(column_key, sort_direction, *collation),
        ),
{
    sort_items(
        addons,
        &AddonComparator { column: column_key, direction: sort_direction, collation },
    );
}

/// Being made for the flavor.
pub open spec fn made_for(flavor: Flavor) -> Condition<GameVersion> {
    |version: GameVersion| version.flavor == flavor
}

/// Tests [`made_for`].
pub struct MadeFor {
    pub flavor: Flavor,
}

impl Test<GameVersion> for MadeFor {
    open spec fn condition(&self) -> Condition<GameVersion> {
        made_for(self.flavor)
    }

    fn holds(&self, item: &GameVersion) -> (result: bool) {
        item.flavor == self.flavor
    }
}

/// The rank of the first game version that an entry names for the flavor.
pub open spec fn game_version_rank(addon: CatalogAddonView, flavor: Flavor) -> Option<int> {
    match first_where(addon.game_versions, made_for(flavor)) {
        Some(i) => Some(addon.game_versions[i].rank as int),
        None => None,
    }
}

/// How the list of catalog entries is sorted by a column, in ascending order. The column of the
/// install buttons leaves every two entries tied.
pub open spec fn ascending_catalog_order(
    column: CatalogColumnKey,
    flavor: Flavor,
    collation: Collation,
) -> Comparison<CatalogAddonView> {
    match column {
        CatalogColumnKey::Title => by_key(|addon: CatalogAddonView| addon.name, by_text()),
        CatalogColumnKey::Description => by_key(
            |addon: CatalogAddonView| addon.summary,
            by_text(),
        ),
        CatalogColumnKey::Source => by_key(
            |addon: CatalogAddonView| source_rank(collation.sources, addon.source),
            by_pair(),
        ),
        CatalogColumnKey::NumDownloads => by_key(
            |addon: CatalogAddonView| addon.number_of_downloads as int,
            by_size(),
        ),
        CatalogColumnKey::Install => by_key(|addon: CatalogAddonView| 0int, by_size()),
        CatalogColumnKey::DateReleased => by_key(
            |addon: CatalogAddonView| optional_size(addon.date_released),
            optional(by_size()),
        ),
        CatalogColumnKey::GameVersion => by_key(
            |addon: CatalogAddonView| game_version_rank(addon, flavor),
            optional(by_size()),
        ),
    }
}

/// How the list of catalog entries is sorted by a column.
pub open spec fn catalog_order(
    column: CatalogColumnKey,
    direction: SortDirection,
    flavor: Flavor,
    collation: Collation,
) -> Comparison<CatalogAddonView> {
    directed(direction, ascending_catalog_order(column, flavor, collation))
}

/// Each order of the list of catalog entries is a total preorder.
pub proof fn catalog_order_is_total_preorder(
    column: CatalogColumnKey,
    direction: SortDirection,
    flavor: Flavor,
    collation: Collation,
)
    ensures
        total_preorder(catalog_order(column, direction, flavor, collation)),
{
    by_text_is_total_preorder();
    by_size_is_total_preorder();
    by_pair_is_total_preorder();
    optional_is_total_preorder(by_size());
    by_key_is_total_preorder(|addon: CatalogAddonView| addon.name, by_text());
    by_key_is_total_preorder(|addon: CatalogAddonView| addon.summary, by_text());
    by_key_is_total_preorder(
        |addon: CatalogAddonView| source_rank(collation.sources, addon.source),
        by_pair(),
    );
    by_key_is_total_preorder(
        |addon: CatalogAddonView| addon.number_of_downloads as int,
        by_size(),
    );
    by_key_is_total_preorder(|addon: CatalogAddonView| 0int, by_size());
    by_key_is_total_preorder(
        |addon: CatalogAddonView| optional_size(addon.date_released),
        optional(by_size()),
    );
    by_key_is_total_preorder(
        |addon: CatalogAddonView| game_version_rank(addon, flavor),
        optional(by_size()),
    );
    directed_is_total_preorder(direction, ascending_catalog_order(column, flavor, collation));
}

struct CatalogComparator<'a> {
    column: CatalogColumnKey,
    direction: SortDirection,
    flavor: Flavor,
    collation: &'a Collation,
}

fn compare_game_versions(a: &CatalogRow, b: &CatalogRow, flavor: Flavor) -> (result: Order)
    ensures
        result == optional(by_size())(
            game_version_rank(a.deep_view(), flavor),
            game_version_rank(b.deep_view(), flavor),
        ),
{
    let a_position = find(&a.addon.game_versions, &MadeFor { flavor });
    let b_position = find(&b.addon.game_versions, &MadeFor { flavor });
    match (a_position, b_position) {
        (None, None) => Order::Equal,
        (None, Some(_)) => Order::Less,
        (Some(_), None) => Order::Greater,
        (Some(i), Some(j)) => compare_size(
            a.addon.game_versions[i].rank as i128,
            b.addon.game_versions[j].rank as i128,
        ),
    }
}

impl<'a> Comparator<CatalogRow> for CatalogComparator<'a> {
    closed spec fn order(&self) -> Comparison<CatalogAddonView> {
        catalog_order(self.column, self.direction, self.flavor, *self.collation)
    }

    proof fn order_is_total_preorder(&self) {
        catalog_order_is_total_preorder(
            self.column,
            self.direction,
            self.flavor,
            *self.collation,
        );
    }

    fn compare(&self, a: &CatalogRow, b: &CatalogRow) -> (result: Order) {
        let ascending = match self.column {
            CatalogColumnKey::Title => compare_text(a.addon.name.as_str(), b.addon.name.as_str()),
            CatalogColumnKey::Description => {
                compare_text(a.addon.summary.as_str(), b.addon.summary.as_str())
            },
            CatalogColumnKey::Source => {
                compare_pair(
                    source_key(&self.collation.sources, a.addon.source),
                    source_key(&self.collation.sources, b.addon.source),
                )
            },
            CatalogColumnKey::NumDownloads => {
                compare_size(
                    a.addon.number_of_downloads as i128,
                    b.addon.number_of_downloads as i128,
                )
            },
            CatalogColumnKey::Install => Order::Equal,
            CatalogColumnKey::DateReleased => {
                compare_optional_size(a.addon.date_released, b.addon.date_released)
            },
            CatalogColumnKey::GameVersion => compare_game_versions(a, b, self.flavor),
        };
        directed_result(self.direction, ascending)
    }
}

/// Sorts the list of catalog entries by a column. The column of the install buttons leaves the
/// list as it is.
pub fn sort_catalog_addons(
    addons: &mut Vec<CatalogRow>,
    sort_direction: SortDirection,
    column_key: CatalogColumnKey,
    flavor: Flavor,
    collation: &Collation,
)
    ensures
        final(addons).deep_view() == stable_sort(
            old(addons).deep_view(),
            catalog_order(column_key, sort_direction, flavor, *collation),
        ),
{
    sort_items(
        addons,
        &CatalogComparator { column: column_key, direction: sort_direction, flavor, collation },
    );
}

/// Where no two entries tie in a column of the catalog, the descending order is the ascending one
/// backwards.
pub proof fn catalog_descending_is_ascending_backwards(
    entries: Seq<CatalogAddonView>,
    column: CatalogColumnKey,
    flavor: Flavor,
    collation: Collation,
)
    requires
        without_ties(entries, ascending_catalog_order(column, flavor, collation)),
    ensures
        stable_sort(
            entries,
            catalog_order(column, SortDirection::Desc, flavor, collation),
        ) == stable_sort(
            entries,
            catalog_order(column, SortDirection::Asc, flavor, collation),
        ).reverse(),
{
    catalog_order_is_total_preorder(column, SortDirection::Asc, flavor, collation);
    untied_values_sort_in_reverse(entries, ascending_catalog_order(column, flavor, collation));
}

/// The flavor matters to the order of the catalog only in the column of game versions.
pub proof fn only_game_versions_depend_on_the_flavor(
    column: CatalogColumnKey,
    direction: SortDirection,
    a: Flavor,
    b: Flavor,
    collation: Collation,
)
    requires
        column != CatalogColumnKey::GameVersion,
    ensures
        catalog_order(column, direction, a, collation) == catalog_order(
            column,
            direction,
            b,
            collation,
        ),
{
}

/// Sorting by the column of the install buttons leaves the list as it is.
pub proof fn install_column_keeps_the_list(
    entries: Seq<CatalogAddonView>,
    direction: SortDirection,
    flavor: Flavor,
    collation: Collation,
)
    ensures
        stable_sort(
            entries,
            catalog_order(CatalogColumnKey::Install, direction, flavor, collation),
        ) == entries,
{
    let order = catalog_order(CatalogColumnKey::Install, direction, flavor, collation);
    assert(ascending(entries, order));
    sorting_leaves_ascending_values(entries, order);
}

/// Themes, by their places among themes.
pub open spec fn by_theme() -> Comparison<ThemeView> {
    by_key(|theme: ThemeView| theme.rank as int, by_size())
}

struct ThemeComparator {}

impl Comparator<Theme> for ThemeComparator {
    closed spec fn order(&self) -> Comparison<ThemeView> {
        by_theme()
    }

    proof fn order_is_total_preorder(&self) {
        by_size_is_total_preorder();
        by_key_is_total_preorder(|theme: ThemeView| theme.rank as int, by_size());
    }

    fn compare(&self, a: &Theme, b: &Theme) -> (result: Order) {
        compare_size(a.rank as i128, b.rank as i128)
    }
}

/// Sorts themes.
pub fn sort_themes(themes: &mut Vec<Theme>)
    ensures
        final(themes).deep_view() == stable_sort(old(themes).deep_view(), by_theme()),
{
    sort_items(themes, &ThemeComparator {  });
}

} // verus!
