//! The orders of the lists.
use ajour::addon::{Addon, AddonState, ReleaseChannel, RemotePackage, Repository, Standing};
use ajour::catalog::{CatalogAddon, CatalogRow, GameVersion, Source};
use ajour::config::{CatalogColumnKey, ColumnKey};
use ajour::sort::{sort_addons, sort_catalog_addons, sort_themes};
use ajour::state::{Collation, ServiceRanks, SortDirection, StateRanks, Theme};
use ajour::wow::Flavor;

fn collation() -> Collation {
    Collation {
        states: StateRanks {
            ajour: 0,
            corrupted: 1,
            ignored: 2,
            updatable: 3,
            downloading: 4,
            fingerprint: 5,
            unpacking: 6,
        },
        repositories: ServiceRanks { wowi: 0, tukui: 1, curse: 2 },
        sources: ServiceRanks { curse: 0, tukui: 1, wowi: 2 },
    }
}

fn addon(title: &str) -> Addon {
    Addon {
        handle: 0,
        primary_folder_id: title.to_owned(),
        title: title.to_owned(),
        author: None,
        version: None,
        game_version: None,
        file_id: None,
        repository_id: None,
        active_repository: None,
        cacheable: false,
        folders: vec![],
        release_channel: ReleaseChannel { name: "Stable".to_owned() },
        remote_packages: vec![],
        standings: vec![],
        rank: 0,
        state: AddonState::Ajour(None),
    }
}

fn ranked(title: &str, package_rank: i64, date_time: Option<i128>, rank: i64) -> Addon {
    let mut addon = addon(title);
    addon.standings = vec![Standing {
        channel: ReleaseChannel { name: "Stable".to_owned() },
        package: Some(RemotePackage {
            version: "2".to_owned(),
            file_id: None,
            date_time,
            rank: package_rank,
        }),
        updatable: false,
        rank,
    }];
    addon
}

fn sorted(mut addons: Vec<Addon>, direction: SortDirection, key: ColumnKey) -> Vec<String> {
    sort_addons(&mut addons, direction, key, &collation());
    addons.into_iter().map(|a| a.title).collect()
}

#[test]
fn titles_are_sorted_whatever_their_case() {
    let addons = || vec![addon("beta"), addon("Alpha"), addon("gamma"), addon("BETA")];
    assert_eq!(
        sorted(addons(), SortDirection::Asc, ColumnKey::Title),
        ["Alpha", "beta", "BETA", "gamma"]
    );
    assert_eq!(
        sorted(addons(), SortDirection::Desc, ColumnKey::Title),
        ["gamma", "beta", "BETA", "Alpha"]
    );
}

#[test]
fn equal_titles_are_sorted_by_their_releases_when_descending() {
    let addons = || vec![ranked("a", 3, None, 0), ranked("A", 1, None, 0), addon("a")];
    assert_eq!(sorted(addons(), SortDirection::Desc, ColumnKey::Title), ["a", "A", "a"]);
    let mut list = addons();
    sort_addons(&mut list, SortDirection::Desc, ColumnKey::Title, &collation());
    assert!(list[0].standings.is_empty());
    let mut list = addons();
    sort_addons(&mut list, SortDirection::Asc, ColumnKey::Title, &collation());
    assert!(list[2].standings.is_empty());
}

#[test]
fn local_versions_are_sorted_with_titles_as_tie_breaks() {
    let versioned = |title: &str, version: Option<&str>| {
        let mut addon = addon(title);
        addon.version = version.map(|v| v.to_owned());
        addon
    };
    let addons = || {
        vec![
            versioned("c", Some("2")),
            versioned("b", Some("1")),
            versioned("a", Some("2")),
            versioned("d", None),
        ]
    };
    assert_eq!(
        sorted(addons(), SortDirection::Asc, ColumnKey::LocalVersion),
        ["d", "b", "a", "c"]
    );
    assert_eq!(
        sorted(addons(), SortDirection::Desc, ColumnKey::LocalVersion),
        ["a", "c", "b", "d"]
    );
}

#[test]
fn remote_versions_are_sorted_with_ranks_as_tie_breaks() {
    let addons = || {
        vec![
            ranked("a", 2, None, 5),
            ranked("b", 2, None, 4),
            ranked("c", 1, None, 9),
            addon("d"),
        ]
    };
    assert_eq!(
        sorted(addons(), SortDirection::Asc, ColumnKey::RemoteVersion),
        ["d", "c", "b", "a"]
    );
    assert_eq!(
        sorted(addons(), SortDirection::Desc, ColumnKey::RemoteVersion),
        ["b", "a", "c", "d"]
    );
}

#[test]
fn states_are_sorted_as_they_are_listed() {
    let in_state = |title: &str, state: AddonState, rank: i64| {
        let mut addon = ranked(title, 0, None, rank);
        addon.state = state;
        addon
    };
    let addons = || {
        vec![
            in_state("a", AddonState::Ignored, 3),
            in_state("b", AddonState::Updatable, 2),
            in_state("c", AddonState::Ajour(None), 1),
            in_state("d", AddonState::Updatable, 0),
            in_state("e", AddonState::Other("Unknown".to_owned(), 9), 0),
        ]
    };
    assert_eq!(
        sorted(addons(), SortDirection::Asc, ColumnKey::Status),
        ["c", "a", "d", "b", "e"]
    );
    assert_eq!(
        sorted(addons(), SortDirection::Desc, ColumnKey::Status),
        ["e", "d", "b", "a", "c"]
    );
}

#[test]
fn different_states_do_not_tie() {
    let in_state = |title: &str, state: AddonState, rank: i64| {
        let mut addon = ranked(title, 0, None, rank);
        addon.state = state;
        addon
    };
    let note = |text: &str| AddonState::Ajour(Some(text.to_owned()));
    let other = |name: &str| AddonState::Other(name.to_owned(), 0);
    let addons = || {
        vec![
            in_state("a", other("Unknown"), 0),
            in_state("b", note("Error"), 1),
            in_state("c", other("Retry"), 2),
            in_state("d", note("Completed"), 3),
            in_state("e", AddonState::Ajour(None), 4),
        ]
    };
    assert_eq!(
        sorted(addons(), SortDirection::Asc, ColumnKey::Status),
        ["e", "d", "b", "c", "a"]
    );
    assert_eq!(
        sorted(addons(), SortDirection::Desc, ColumnKey::Status),
        ["a", "c", "b", "d", "e"]
    );
}

#[test]
fn equal_states_are_sorted_by_the_places_of_the_addons() {
    let placed = |title: &str, rank: i64| {
        let mut addon = addon(title);
        addon.rank = rank;
        addon
    };
    let addons = || vec![placed("a", 3), placed("b", 1), ranked("c", 0, None, 2)];
    for direction in [SortDirection::Asc, SortDirection::Desc] {
        assert_eq!(sorted(addons(), direction, ColumnKey::Status), ["b", "c", "a"]);
    }
    assert_eq!(
        sorted(addons(), SortDirection::Asc, ColumnKey::RemoteVersion),
        ["b", "a", "c"]
    );
}

#[test]
fn different_values_are_sorted_backwards_when_descending() {
    let addons = || {
        let mut list = vec![
            ranked("b", 3, Some(1), 0),
            ranked("D", 1, Some(4), 0),
            ranked("a", 4, None, 0),
            ranked("C", 2, Some(2), 0),
        ];
        list[0].active_repository = Some(Repository::Curse);
        list[1].active_repository = Some(Repository::Tukui);
        list[2].active_repository = Some(Repository::WowI);
        let states = [
            AddonState::Updatable,
            AddonState::Ajour(None),
            AddonState::Ajour(Some("Error".to_owned())),
            AddonState::Ignored,
        ];
        for (i, state) in states.into_iter().enumerate() {
            list[i].state = state;
            list[i].version = Some(format!("{}", (i + 2) % 4));
            list[i].author = Some(format!("{}", (i + 3) % 4));
            list[i].game_version = Some(format!("{}", (i + 1) % 4));
            list[i].release_channel = ReleaseChannel { name: "Stable".to_owned() };
        }
        list
    };
    for key in [
        ColumnKey::Title,
        ColumnKey::LocalVersion,
        ColumnKey::RemoteVersion,
        ColumnKey::Status,
        ColumnKey::Author,
        ColumnKey::GameVersion,
        ColumnKey::DateReleased,
        ColumnKey::Source,
    ] {
        let mut backwards = sorted(addons(), SortDirection::Asc, key);
        backwards.reverse();
        assert_eq!(sorted(addons(), SortDirection::Desc, key), backwards);
    }
}

#[test]
fn channels_authors_and_game_versions_are_sorted_as_texts() {
    let addons = || {
        let mut list = vec![addon("a"), addon("b"), addon("c")];
        for (i, text) in ["Beta", "Stable", "Alpha"].iter().enumerate() {
            list[i].release_channel = ReleaseChannel { name: (*text).to_owned() };
        }
        list[0].author = Some("x".to_owned());
        list[1].author = Some("w".to_owned());
        list[0].game_version = Some("9.0".to_owned());
        list[2].game_version = Some("10.0".to_owned());
        list
    };
    assert_eq!(sorted(addons(), SortDirection::Asc, ColumnKey::Channel), ["c", "a", "b"]);
    assert_eq!(sorted(addons(), SortDirection::Desc, ColumnKey::Channel), ["b", "a", "c"]);
    assert_eq!(sorted(addons(), SortDirection::Asc, ColumnKey::Author), ["c", "b", "a"]);
    assert_eq!(sorted(addons(), SortDirection::Desc, ColumnKey::Author), ["a", "b", "c"]);
    assert_eq!(sorted(addons(), SortDirection::Asc, ColumnKey::GameVersion), ["b", "c", "a"]);
    assert_eq!(sorted(addons(), SortDirection::Desc, ColumnKey::GameVersion), ["a", "c", "b"]);
}

#[test]
fn release_dates_are_sorted_with_missing_ones_first() {
    let addons = || {
        vec![
            ranked("a", 0, Some(20), 0),
            ranked("b", 0, None, 0),
            addon("c"),
            ranked("d", 0, Some(10), 0),
        ]
    };
    assert_eq!(
        sorted(addons(), SortDirection::Asc, ColumnKey::DateReleased),
        ["c", "b", "d", "a"]
    );
    assert_eq!(
        sorted(addons(), SortDirection::Desc, ColumnKey::DateReleased),
        ["a", "d", "b", "c"]
    );
}

#[test]
fn sources_are_sorted_as_they_are_listed() {
    let addons = || {
        let mut list = vec![addon("a"), addon("b"), addon("c")];
        list[0].active_repository = Some(Repository::Curse);
        list[1].active_repository = Some(Repository::WowI);
        list
    };
    assert_eq!(sorted(addons(), SortDirection::Asc, ColumnKey::Source), ["c", "b", "a"]);
    assert_eq!(sorted(addons(), SortDirection::Desc, ColumnKey::Source), ["a", "b", "c"]);
}

#[test]
fn sorting_twice_changes_nothing_more() {
    let mut once = vec![addon("b"), addon("A"), addon("a")];
    sort_addons(&mut once, SortDirection::Asc, ColumnKey::Title, &collation());
    let mut twice: Vec<Addon> = once.clone();
    sort_addons(&mut twice, SortDirection::Asc, ColumnKey::Title, &collation());
    assert_eq!(once, twice);
}

fn row(name: &str, downloads: u64) -> CatalogRow {
    CatalogRow {
        addon: CatalogAddon {
            id: 1,
            name: name.to_owned(),
            summary: format!("about {}", name),
            source: Source::Curse,
            categories: vec![],
            number_of_downloads: downloads,
            game_versions: vec![],
            date_released: None,
        },
    }
}

fn sorted_rows(
    mut rows: Vec<CatalogRow>,
    direction: SortDirection,
    key: CatalogColumnKey,
) -> Vec<String> {
    sort_catalog_addons(&mut rows, direction, key, Flavor::Retail, &collation());
    rows.into_iter().map(|r| r.addon.name).collect()
}

#[test]
fn catalog_entries_are_sorted_by_names_and_summaries() {
    let rows = || vec![row("b", 1), row("a", 2), row("B", 3)];
    for key in [CatalogColumnKey::Title, CatalogColumnKey::Description] {
        assert_eq!(sorted_rows(rows(), SortDirection::Asc, key), ["B", "a", "b"]);
        assert_eq!(sorted_rows(rows(), SortDirection::Desc, key), ["b", "a", "B"]);
    }
}

#[test]
fn catalog_entries_are_sorted_by_downloads_and_dates() {
    let rows = || {
        let mut rows = vec![row("a", 5), row("b", 9), row("c", 5)];
        rows[0].addon.date_released = Some(-1);
        rows[2].addon.date_released = Some(1);
        rows
    };
    assert_eq!(
        sorted_rows(rows(), SortDirection::Asc, CatalogColumnKey::NumDownloads),
        ["a", "c", "b"]
    );
    assert_eq!(
        sorted_rows(rows(), SortDirection::Desc, CatalogColumnKey::NumDownloads),
        ["b", "a", "c"]
    );
    assert_eq!(
        sorted_rows(rows(), SortDirection::Asc, CatalogColumnKey::DateReleased),
        ["b", "a", "c"]
    );
    assert_eq!(
        sorted_rows(rows(), SortDirection::Desc, CatalogColumnKey::DateReleased),
        ["c", "a", "b"]
    );
}

#[test]
fn catalog_entries_are_sorted_by_sources_and_game_versions() {
    let rows = || {
        let mut rows = vec![row("a", 0), row("b", 0), row("c", 0)];
        rows[0].addon.source = Source::WowI;
        rows[0].addon.game_versions = vec![
            GameVersion { flavor: Flavor::ClassicEra, rank: 9 },
            GameVersion { flavor: Flavor::Retail, rank: 2 },
            GameVersion { flavor: Flavor::Retail, rank: 0 },
        ];
        rows[1].addon.game_versions = vec![GameVersion { flavor: Flavor::Retail, rank: 1 }];
        rows[2].addon.game_versions = vec![GameVersion { flavor: Flavor::ClassicEra, rank: 5 }];
        rows
    };
    assert_eq!(sorted_rows(rows(), SortDirection::Asc, CatalogColumnKey::Source), ["b", "c", "a"]);
    assert_eq!(
        sorted_rows(rows(), SortDirection::Desc, CatalogColumnKey::Source),
        ["a", "b", "c"]
    );
    assert_eq!(
        sorted_rows(rows(), SortDirection::Asc, CatalogColumnKey::GameVersion),
        ["c", "b", "a"]
    );
    assert_eq!(
        sorted_rows(rows(), SortDirection::Desc, CatalogColumnKey::GameVersion),
        ["a", "b", "c"]
    );
}

#[test]
fn the_install_column_leaves_the_catalog_as_it_is() {
    let rows = || vec![row("b", 1), row("a", 9), row("c", 3)];
    assert_eq!(
        sorted_rows(rows(), SortDirection::Asc, CatalogColumnKey::Install),
        ["b", "a", "c"]
    );
    assert_eq!(
        sorted_rows(rows(), SortDirection::Desc, CatalogColumnKey::Install),
        ["b", "a", "c"]
    );
}

#[test]
fn themes_are_sorted_by_their_ranks() {
    let theme = |name: &str, rank: i64| Theme { name: name.to_owned(), rank };
    let mut themes = vec![theme("c", 2), theme("a", -1), theme("b", 2)];
    sort_themes(&mut themes);
    let names: Vec<String> = themes.into_iter().map(|t| t.name).collect();
    assert_eq!(names, ["a", "c", "b"]);
}
