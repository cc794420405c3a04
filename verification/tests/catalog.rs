//! Searching the catalog and installing from it.
use ajour::catalog::{
    Catalog, CatalogAddon, CatalogCategory, CatalogResultSize, CatalogSource, GameVersion, Source,
};
use ajour::config::{AddonsConfig, CatalogColumnKey, ColumnConfig, Config};
use ajour::flavor_map::FlavorMap;
use ajour::message::{Interaction, Message};
use ajour::search::{catalog_categories, cleaned_text_matches, query_and_sort_catalog};
use ajour::state::{
    Ajour, BackupState, CatalogSearchState, Collation, Directories, ExpandType, HeaderState, Mode,
    ModeMap, Platform, Renderer, SelfUpdateState, ServiceRanks, SortDirection, State, StateRanks,
};
use ajour::task::{Save, Step};
use ajour::update::handle_message;
use ajour::wow::{Flavor, Wow};

fn collation() -> Collation {
    Collation {
        states: StateRanks {
            ajour: 0,
            corrupted: 1,
            ignored: 2,
            updatable: 3,
            downloading: 4,
            fingerprint: 5,
            unpacking: 6,
        },
        repositories: ServiceRanks { wowi: 0, tukui: 1, curse: 2 },
        sources: ServiceRanks { curse: 0, tukui: 1, wowi: 2 },
    }
}

fn program() -> Ajour {
    Ajour {
        state: ModeMap { my_addons: FlavorMap::new(), catalog: None },
        mode: Mode::MyAddons(Flavor::Retail),
        error: None,
        addons: FlavorMap::new(),
        catalog: None,
        catalog_install_addons: FlavorMap::new(),
        catalog_search_state: CatalogSearchState {
            catalog_rows: vec![],
            query: None,
            result_size: CatalogResultSize { rows: 25 },
            categories: vec![],
            category: CatalogCategory::All,
            source: CatalogSource::Choice(Source::Curse),
        },
        config: Config {
            wow: Wow::default(),
            addons: AddonsConfig {
                ignored: FlavorMap::new(),
                release_channels: FlavorMap::new(),
            },
            backup_directory: None,
            column_config: ColumnConfig::Earlier,
            window_size: None,
        },
        valid_flavors: vec![],
        expanded_type: ExpandType::Nothing,
        is_showing_settings: true,
        self_update_state: SelfUpdateState { latest_release: None, status: None },
        backup_state: BackupState { backing_up: false, last_backup: None },
        themes: vec![],
        fingerprint_cache: None,
        addon_cache: None,
        header_state: HeaderState {
            columns: vec![],
            previous_sort_direction: None,
            previous_column_key: None,
        },
        catalog_header_state: HeaderState {
            columns: vec![],
            previous_sort_direction: None,
            previous_column_key: None,
        },
        collation: collation(),
        platform: Platform::Linux,
        renderer: Renderer::Wgpu,
    }
}

fn entry(id: i32, name: &str, summary: &str, downloads: u64) -> CatalogAddon {
    CatalogAddon {
        id,
        name: name.to_owned(),
        summary: summary.to_owned(),
        source: Source::Curse,
        categories: vec![],
        number_of_downloads: downloads,
        game_versions: vec![GameVersion { flavor: Flavor::Retail, rank: 0 }],
        date_released: None,
    }
}

fn with_catalog(addons: Vec<CatalogAddon>) -> Ajour {
    let mut ajour = program();
    ajour.catalog = Some(Catalog { addons });
    ajour
}

fn shown(ajour: &Ajour) -> Vec<i32> {
    ajour.catalog_search_state.catalog_rows.iter().map(|r| r.addon.id).collect()
}

fn interact(ajour: &mut Ajour, interaction: Interaction) -> Step {
    let dirs = Directories { addons: FlavorMap::new(), downloads: FlavorMap::new() };
    handle_message(ajour, &dirs, Message::Interaction(interaction))
}

#[test]
fn entries_with_the_most_downloads_are_shown_first() {
    let mut ajour = with_catalog(vec![
        entry(1, "a", "", 5),
        entry(2, "b", "", 9),
        entry(3, "c", "", 7),
        entry(4, "d", "", 9),
    ]);
    query_and_sort_catalog(&mut ajour);
    assert_eq!(shown(&ajour), [2, 4, 3, 1]);
}

#[test]
fn no_more_rows_are_shown_than_asked_for() {
    let mut ajour =
        with_catalog(vec![entry(1, "a", "", 5), entry(2, "b", "", 9), entry(3, "c", "", 7)]);
    ajour.is_showing_settings = true;
    interact(
        &mut ajour,
        Interaction::CatalogResultSizeSelected(CatalogResultSize { rows: 2 }),
    );
    assert_eq!(shown(&ajour), [2, 3]);
    assert!(!ajour.is_showing_settings);
    interact(
        &mut ajour,
        Interaction::CatalogResultSizeSelected(CatalogResultSize { rows: 0 }),
    );
    assert!(shown(&ajour).is_empty());
}

#[test]
fn fewer_rows_are_the_first_of_more() {
    let catalog = || {
        vec![
            entry(1, "a", "", 5),
            entry(2, "b", "", 9),
            entry(3, "c", "", 5),
            entry(4, "d", "", 7),
        ]
    };
    let rows = |size: usize| {
        let mut ajour = with_catalog(catalog());
        ajour.catalog_search_state.result_size = CatalogResultSize { rows: size };
        query_and_sort_catalog(&mut ajour);
        shown(&ajour)
    };
    assert_eq!(rows(9), [2, 4, 1, 3]);
    for size in 0..4 {
        assert_eq!(rows(size), rows(9)[..size]);
    }
}

#[test]
fn flavors_of_one_base_show_the_same_rows() {
    let catalog = || {
        let mut a = entry(1, "a", "", 1);
        a.game_versions = vec![
            GameVersion { flavor: Flavor::Retail, rank: 1 },
            GameVersion { flavor: Flavor::RetailPtr, rank: 9 },
        ];
        let mut b = entry(2, "b", "", 2);
        b.game_versions = vec![GameVersion { flavor: Flavor::Retail, rank: 5 }];
        vec![a, b, entry(3, "c", "", 3)]
    };
    let rows = |flavor: Flavor, key: Option<CatalogColumnKey>| {
        let mut ajour = with_catalog(catalog());
        ajour.config.wow.flavor = flavor;
        ajour.catalog_header_state.previous_column_key = key;
        query_and_sort_catalog(&mut ajour);
        shown(&ajour)
    };
    for key in [None, Some(CatalogColumnKey::Title), Some(CatalogColumnKey::Install)] {
        assert_eq!(rows(Flavor::RetailPtr, key), rows(Flavor::Retail, key));
        assert_eq!(rows(Flavor::RetailBeta, key), rows(Flavor::Retail, key));
    }
    let key = Some(CatalogColumnKey::GameVersion);
    assert_eq!(rows(Flavor::Retail, key), [2, 1, 3]);
    assert_eq!(rows(Flavor::RetailPtr, key), [1, 2, 3]);
}

#[test]
fn queries_ignore_the_case_of_letters() {
    let mut ajour = with_catalog(vec![
        entry(1, "Deadly BOSS Mods", "", 1),
        entry(2, "Other", "about bosses", 2),
        entry(3, "Other", "about bags", 3),
        entry(4, "End", "start", 4),
    ]);
    interact(&mut ajour, Interaction::CatalogQuery("Boss".to_owned()));
    assert_eq!(shown(&ajour), [2, 1]);
    interact(&mut ajour, Interaction::CatalogQuery("END START".to_owned()));
    assert_eq!(shown(&ajour), [4]);
    interact(&mut ajour, Interaction::CatalogQuery("nothing".to_owned()));
    assert!(shown(&ajour).is_empty());
}

#[test]
fn an_empty_query_finds_what_no_query_finds() {
    let catalog = || vec![entry(1, "a", "", 1), entry(2, "", "", 2), entry(3, "c", "d", 3)];
    let mut without = with_catalog(catalog());
    query_and_sort_catalog(&mut without);
    let mut empty = with_catalog(catalog());
    empty.catalog_search_state.query = Some(String::new());
    query_and_sort_catalog(&mut empty);
    assert_eq!(shown(&without), [3, 2, 1]);
    assert_eq!(shown(&empty), shown(&without));
}

#[test]
fn queries_in_lowercase_are_looked_for_in_name_and_summary() {
    assert!(cleaned_text_matches("ab".to_owned(), &"cd".to_owned(), &"b c".to_owned()));
    assert!(!cleaned_text_matches("ab".to_owned(), &"cd".to_owned(), &"bc".to_owned()));
    assert!(!cleaned_text_matches("AB".to_owned(), &"".to_owned(), &"a".to_owned()));
}

#[test]
fn entries_are_shown_for_the_base_flavor() {
    let mut tbc = entry(2, "b", "", 2);
    tbc.game_versions = vec![GameVersion { flavor: Flavor::ClassicTbc, rank: 0 }];
    let mut none = entry(3, "c", "", 3);
    none.game_versions = vec![];
    let mut ajour = with_catalog(vec![entry(1, "a", "", 1), tbc, none]);
    let step = interact(&mut ajour, Interaction::FlavorSelected(Flavor::RetailBeta));
    assert_eq!(step.save, Save::Attempt);
    assert_eq!(ajour.mode, Mode::MyAddons(Flavor::RetailBeta));
    assert_eq!(shown(&ajour), [1]);
    ajour.mode = Mode::Catalog;
    interact(&mut ajour, Interaction::FlavorSelected(Flavor::ClassicPtr));
    assert_eq!(ajour.mode, Mode::Catalog);
    assert_eq!(shown(&ajour), [2]);
}

#[test]
fn entries_are_shown_of_the_source_and_the_category() {
    let mut tukui = entry(2, "b", "", 2);
    tukui.source = Source::Tukui;
    let mut bags = entry(3, "c", "", 3);
    bags.categories = vec!["Bags".to_owned(), "Bank".to_owned()];
    let mut ajour = with_catalog(vec![entry(1, "a", "", 1), tukui, bags]);
    interact(
        &mut ajour,
        Interaction::CatalogSourceSelected(CatalogSource::Choice(Source::Tukui)),
    );
    assert_eq!(shown(&ajour), [2]);
    interact(
        &mut ajour,
        Interaction::CatalogSourceSelected(CatalogSource::Choice(Source::Curse)),
    );
    assert_eq!(shown(&ajour), [3, 1]);
    interact(
        &mut ajour,
        Interaction::CatalogCategorySelected(CatalogCategory::Choice("Bank".to_owned())),
    );
    assert_eq!(shown(&ajour), [3]);
    interact(&mut ajour, Interaction::CatalogCategorySelected(CatalogCategory::All));
    assert_eq!(shown(&ajour), [3, 1]);
}

#[test]
fn searching_once_more_shows_the_same_rows() {
    let mut ajour =
        with_catalog(vec![entry(1, "a", "", 5), entry(2, "b", "", 9), entry(3, "c", "", 7)]);
    ajour.catalog_search_state.result_size = CatalogResultSize { rows: 2 };
    query_and_sort_catalog(&mut ajour);
    let once = shown(&ajour);
    query_and_sort_catalog(&mut ajour);
    assert_eq!(shown(&ajour), once);
}

#[test]
fn without_a_catalog_nothing_is_searched() {
    let mut ajour = program();
    interact(&mut ajour, Interaction::CatalogQuery("a".to_owned()));
    assert_eq!(ajour.catalog_search_state.query, Some("a".to_owned()));
    assert!(shown(&ajour).is_empty());
}

#[test]
fn clicks_on_catalog_columns_turn_the_direction_round() {
    let mut ajour =
        with_catalog(vec![entry(1, "b", "", 5), entry(2, "a", "", 9), entry(3, "c", "", 7)]);
    interact(&mut ajour, Interaction::SortCatalogColumn(CatalogColumnKey::Title));
    assert_eq!(shown(&ajour), [3, 1, 2]);
    assert_eq!(
        ajour.catalog_header_state.previous_sort_direction,
        Some(SortDirection::Desc)
    );
    interact(&mut ajour, Interaction::SortCatalogColumn(CatalogColumnKey::Title));
    assert_eq!(shown(&ajour), [2, 1, 3]);
    interact(&mut ajour, Interaction::SortCatalogColumn(CatalogColumnKey::NumDownloads));
    assert_eq!(shown(&ajour), [1, 3, 2]);
    interact(&mut ajour, Interaction::SortCatalogColumn(CatalogColumnKey::Install));
    assert_eq!(shown(&ajour), [1, 2, 3]);
    assert_eq!(
        ajour.catalog_header_state.previous_column_key,
        Some(CatalogColumnKey::Install)
    );
}

#[test]
fn categories_are_listed_once_and_in_order() {
    let mut a = entry(1, "a", "", 1);
    a.categories = vec!["Raid".to_owned(), "Bags".to_owned()];
    let mut b = entry(2, "b", "", 2);
    b.categories = vec!["Bags".to_owned(), "Action Bars".to_owned(), "bags".to_owned()];
    let choice = |name: &str| CatalogCategory::Choice(name.to_owned());
    assert_eq!(
        catalog_categories(&Catalog { addons: vec![a, b] }),
        vec![
            CatalogCategory::All,
            choice("Action Bars"),
            choice("Bags"),
            choice("Raid"),
            choice("bags"),
        ]
    );
    assert_eq!(catalog_categories(&Catalog { addons: vec![] }), vec![CatalogCategory::All]);
}

#[test]
fn a_downloaded_catalog_is_shown() {
    let mut ajour = program();
    let dirs = Directories { addons: FlavorMap::new(), downloads: FlavorMap::new() };
    let mut a = entry(1, "a", "", 1);
    a.categories = vec!["Raid".to_owned()];
    let catalog = Catalog { addons: vec![a, entry(2, "b", "", 2)] };
    let step = handle_message(&mut ajour, &dirs, Message::CatalogDownloaded(Ok(catalog)));
    assert_eq!(step, Step::none());
    assert_eq!(shown(&ajour), [2, 1]);
    assert_eq!(ajour.state.catalog, Some(State::Ready));
    assert_eq!(
        ajour.catalog_search_state.categories,
        vec![CatalogCategory::All, CatalogCategory::Choice("Raid".to_owned())]
    );
    let error = Message::CatalogDownloaded(Err("no network".to_owned()));
    handle_message(&mut ajour, &dirs, error);
    assert_eq!(ajour.error, Some("no network".to_owned()));
    assert_eq!(shown(&ajour), [2, 1]);
}
