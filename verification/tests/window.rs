//! Reactions that concern the window, its columns, backups and updates of the program.
use ajour::addon::{
    Addon, AddonFolder, AddonState, ReleaseChannel, RemotePackage, Repository, Standing,
};
use ajour::catalog::{CatalogCategory, CatalogResultSize, CatalogSource, Source};
use ajour::config::{
    CatalogColumnKey, ColumnConfigV2, ColumnKey, Length, AddonsConfig, ColumnConfig, Config,
};
use ajour::flavor_map::FlavorMap;
use ajour::message::{
    Component, DirectoryType, DownloadReason, ResizeEvent, Unpacked, Interaction, Message,
};
use ajour::state::{
    AddonDirectory, AddonVersionKey, Ajour, BackupState, CatalogSearchState, Changelog,
    ChangelogPayload, Collation, ColumnState, Directories, ExpandType, HeaderState, Mode, ModeMap,
    Platform, Release, Renderer, SelfUpdateState, SelfUpdateStatus, ServiceRanks, SortDirection,
    StateRanks, Theme,
};
use ajour::task::{Save, Step, Task};
use ajour::update::{save_column_configs, can_handle, handle_message};
use ajour::wow::{Flavor, Wow};
use std::path::PathBuf;

use ajour::perform::{
    latest_addon_service, open_directory, perform_download_addon, perform_fetch_curse_changelog,
    perform_fetch_latest_addon, perform_fetch_tukui_changelog, perform_fetch_wowi_changelog,
    perform_hash_addon, perform_read_addon_directory, perform_unpack_addon,
};
use ajour::update::upkeep::{bin_name, restart_arguments};
fn collation() -> Collation {
    Collation {
        states: StateRanks {
            ajour: 0,
            corrupted: 1,
            ignored: 2,
            updatable: 3,
            downloading: 4,
            fingerprint: 5,
            unpacking: 6,
        },
        repositories: ServiceRanks { wowi: 0, tukui: 1, curse: 2 },
        sources: ServiceRanks { curse: 0, tukui: 1, wowi: 2 },
    }
}

fn program() -> Ajour {
    Ajour {
        state: ModeMap { my_addons: FlavorMap::new(), catalog: None },
        mode: Mode::MyAddons(Flavor::Retail),
        error: None,
        addons: FlavorMap::new(),
        catalog: None,
        catalog_install_addons: FlavorMap::new(),
        catalog_search_state: CatalogSearchState {
            catalog_rows: vec![],
            query: None,
            result_size: CatalogResultSize { rows: 25 },
            categories: vec![],
            category: CatalogCategory::All,
            source: CatalogSource::Choice(Source::Curse),
        },
        config: Config {
            wow: Wow::default(),
            addons: AddonsConfig {
                ignored: FlavorMap::new(),
                release_channels: FlavorMap::new(),
            },
            backup_directory: None,
            column_config: ColumnConfig::Earlier,
            window_size: None,
        },
        valid_flavors: vec![],
        expanded_type: ExpandType::Nothing,
        is_showing_settings: true,
        self_update_state: SelfUpdateState { latest_release: None, status: None },
        backup_state: BackupState { backing_up: false, last_backup: None },
        themes: vec![],
        fingerprint_cache: None,
        addon_cache: None,
        header_state: HeaderState {
            columns: vec![],
            previous_sort_direction: None,
            previous_column_key: None,
        },
        catalog_header_state: HeaderState {
            columns: vec![],
            previous_sort_direction: None,
            previous_column_key: None,
        },
        collation: collation(),
        platform: Platform::Linux,
        renderer: Renderer::Wgpu,
    }
}

fn channel(name: &str) -> ReleaseChannel {
    ReleaseChannel { name: name.to_owned() }
}

fn package(version: &str, file_id: Option<i64>) -> RemotePackage {
    RemotePackage { version: version.to_owned(), file_id, date_time: None, rank: 0 }
}

fn standing(name: &str, version: &str, updatable: bool) -> Standing {
    Standing {
        channel: channel(name),
        package: Some(package(version, Some(7))),
        updatable,
        rank: 0,
    }
}

fn addon(id: &str) -> Addon {
    Addon {
        handle: 0,
        primary_folder_id: id.to_owned(),
        title: id.to_owned(),
        author: None,
        version: Some("1".to_owned()),
        game_version: None,
        file_id: None,
        repository_id: None,
        active_repository: None,
        cacheable: false,
        folders: vec![AddonFolder { id: id.to_owned(), key: 1 }],
        release_channel: channel("Stable"),
        remote_packages: vec![],
        standings: vec![standing("Stable", "2", true), standing("Beta", "1", false)],
        rank: 0,
        state: AddonState::Ajour(None),
    }
}

fn with_addons(addons: Vec<Addon>) -> Ajour {
    let mut ajour = program();
    ajour.addons.insert(Flavor::Retail, addons);
    ajour
}

fn listed(ajour: &Ajour) -> &Vec<Addon> {
    ajour.addons.get(Flavor::Retail).unwrap()
}

fn directories() -> Directories {
    let mut dirs = Directories { addons: FlavorMap::new(), downloads: FlavorMap::new() };
    *dirs.addons.slot_mut(Flavor::Retail) =
        Some(AddonDirectory { path: PathBuf::from("/wow/addons"), exists: true });
    *dirs.downloads.slot_mut(Flavor::Retail) = Some(PathBuf::from("/wow/downloads"));
    dirs
}

fn nowhere() -> Directories {
    Directories { addons: FlavorMap::new(), downloads: FlavorMap::new() }
}

fn react(ajour: &mut Ajour, dirs: &Directories, message: Message) -> Step {
    assert!(can_handle(ajour, dirs, &message));
    handle_message(ajour, dirs, message)
}

fn interact(ajour: &mut Ajour, interaction: Interaction) -> Step {
    react(ajour, &directories(), Message::Interaction(interaction))
}

fn from(repository: Repository, id: Option<&str>) -> Addon {
    let mut addon = addon("a");
    addon.active_repository = Some(repository);
    addon.repository_id = id.map(|id| id.to_owned());
    addon.file_id = Some(3);
    addon
}

fn request(addon: Addon, key: AddonVersionKey) -> Interaction {
    Interaction::Expand(ExpandType::Changelog(Changelog::Request(addon, key)))
}

#[test]
fn details_are_unfolded_and_folded_up() {
    let mut ajour = program();
    interact(&mut ajour, Interaction::Expand(ExpandType::Details(addon("a"))));
    assert_eq!(ajour.expanded_type, ExpandType::Details(addon("a")));
    assert!(!ajour.is_showing_settings);
    interact(&mut ajour, Interaction::Expand(ExpandType::Details(addon("b"))));
    assert_eq!(ajour.expanded_type, ExpandType::Details(addon("b")));
    interact(&mut ajour, Interaction::Expand(ExpandType::Details(addon("b"))));
    assert_eq!(ajour.expanded_type, ExpandType::Nothing);
    interact(&mut ajour, Interaction::Expand(ExpandType::Nothing));
    assert_eq!(ajour.expanded_type, ExpandType::Nothing);
}

#[test]
fn changelogs_are_fetched_from_curse() {
    let mut ajour = program();
    let own = || from(Repository::Curse, Some("123"));
    let step = interact(&mut ajour, request(own(), AddonVersionKey::Local));
    assert_eq!(
        step.tasks,
        vec![Task::FetchCurseChangelog {
            addon: own(),
            key: AddonVersionKey::Local,
            id: 123,
            file_id: 3,
        }]
    );
    assert_eq!(
        ajour.expanded_type,
        ExpandType::Changelog(Changelog::Loading(own(), AddonVersionKey::Local))
    );
    let step = interact(&mut ajour, request(own(), AddonVersionKey::Remote));
    assert!(matches!(step.tasks[0], Task::FetchCurseChangelog { file_id: 7, .. }));
}

#[test]
fn a_changelog_without_a_file_is_not_fetched_from_curse() {
    let mut ajour = program();
    let mut own = from(Repository::Curse, Some("not a number"));
    own.file_id = None;
    let step = interact(&mut ajour, request(own, AddonVersionKey::Local));
    assert_eq!(step, Step::none());
    assert_eq!(ajour.expanded_type, ExpandType::Nothing);
    let step = interact(
        &mut ajour,
        request(from(Repository::Curse, None), AddonVersionKey::Local),
    );
    assert_eq!(step, Step::none());
}

#[test]
fn a_number_at_curse_must_be_readable() {
    let ajour = program();
    let message = Message::Interaction(request(
        from(Repository::Curse, Some("not a number")),
        AddonVersionKey::Local,
    ));
    assert!(!can_handle(&ajour, &directories(), &message));
}

#[test]
fn changelogs_are_fetched_from_the_other_services() {
    let mut ajour = program();
    let own = || from(Repository::Tukui, Some("-2"));
    let step = interact(&mut ajour, request(own(), AddonVersionKey::Remote));
    assert_eq!(
        step.tasks,
        vec![Task::FetchTukuiChangelog {
            addon: own(),
            id: "-2".to_owned(),
            flavor: Flavor::Retail,
            key: AddonVersionKey::Remote,
        }]
    );
    let own = || from(Repository::WowI, Some("x"));
    let step = interact(&mut ajour, request(own(), AddonVersionKey::Remote));
    assert_eq!(
        step.tasks,
        vec![Task::FetchWowiChangelog {
            addon: own(),
            id: "x".to_owned(),
            key: AddonVersionKey::Remote,
        }]
    );
    let step = interact(&mut ajour, request(addon("a"), AddonVersionKey::Remote));
    assert_eq!(step, Step::none());
}

#[test]
fn a_fetched_changelog_is_unfolded_and_folded_up() {
    let mut ajour = program();
    let own = || from(Repository::Tukui, Some("2"));
    let message = Message::FetchedChangelog(
        own(),
        AddonVersionKey::Remote,
        Ok(("fixed".to_owned(), "https://example.org".to_owned())),
    );
    react(&mut ajour, &directories(), message);
    let loaded = || {
        ExpandType::Changelog(Changelog::Loaded(
            own(),
            ChangelogPayload {
                changelog: "fixed".to_owned(),
                url: "https://example.org".to_owned(),
            },
            AddonVersionKey::Remote,
        ))
    };
    assert_eq!(ajour.expanded_type, loaded());
    interact(&mut ajour, Interaction::Expand(loaded()));
    assert_eq!(ajour.expanded_type, loaded());
    let step = interact(&mut ajour, request(own(), AddonVersionKey::Remote));
    assert_eq!(step, Step::none());
    assert_eq!(ajour.expanded_type, ExpandType::Nothing);
}

#[test]
fn a_changelog_that_cannot_be_fetched_is_folded_up() {
    let mut ajour = program();
    let loading = || {
        ExpandType::Changelog(Changelog::Loading(addon("a"), AddonVersionKey::Local))
    };
    interact(&mut ajour, Interaction::Expand(loading()));
    assert_eq!(ajour.expanded_type, loading());
    let message =
        Message::FetchedChangelog(addon("a"), AddonVersionKey::Local, Err("gone".to_owned()));
    react(&mut ajour, &directories(), message);
    assert_eq!(ajour.expanded_type, ExpandType::Nothing);
    assert_eq!(ajour.error, None);
}

#[test]
fn clicks_on_columns_turn_the_direction_round() {
    let titles = |ajour: &Ajour| -> Vec<String> {
        listed(ajour).iter().map(|a| a.title.clone()).collect()
    };
    let mut ajour = with_addons(vec![addon("b"), addon("c"), addon("a")]);
    interact(&mut ajour, Interaction::SortColumn(ColumnKey::Title));
    assert_eq!(titles(&ajour), ["c", "b", "a"]);
    interact(&mut ajour, Interaction::SortColumn(ColumnKey::Title));
    assert_eq!(titles(&ajour), ["a", "b", "c"]);
    assert_eq!(ajour.header_state.previous_sort_direction, Some(SortDirection::Asc));
    interact(&mut ajour, Interaction::SortColumn(ColumnKey::Author));
    assert_eq!(ajour.header_state.previous_sort_direction, Some(SortDirection::Asc));
    assert_eq!(ajour.header_state.previous_column_key, Some(ColumnKey::Author));
    interact(&mut ajour, Interaction::SortColumn(ColumnKey::Title));
    assert_eq!(ajour.header_state.previous_sort_direction, Some(SortDirection::Asc));
    let mut ajour = program();
    interact(&mut ajour, Interaction::SortColumn(ColumnKey::Source));
    assert_eq!(ajour.header_state.previous_sort_direction, Some(SortDirection::Asc));
}

#[test]
fn directions_turn_round() {
    assert_eq!(SortDirection::Asc.toggle(), SortDirection::Desc);
    assert_eq!(SortDirection::Desc.toggle(), SortDirection::Asc);
}

fn column<K>(key: K) -> ColumnState<K> {
    ColumnState { key, width: Length::Fill, hidden: false }
}

#[test]
fn columns_are_resized_except_the_titles() {
    let mut ajour = program();
    ajour.header_state.columns =
        vec![column(ColumnKey::Title), column(ColumnKey::Status), column(ColumnKey::Author)];
    ajour.catalog_header_state.columns =
        vec![column(CatalogColumnKey::Title), column(CatalogColumnKey::Source)];
    let step = interact(
        &mut ajour,
        Interaction::ResizeColumn(ResizeEvent::ResizeColumn {
            left: ColumnKey::Title,
            left_width: 10,
            right: ColumnKey::Status,
            right_width: 20,
        }),
    );
    assert_eq!(step, Step::none());
    let widths: Vec<Length> = ajour.header_state.columns.iter().map(|c| c.width).collect();
    assert_eq!(widths, [Length::Fill, Length::Units(20), Length::Fill]);
    interact(
        &mut ajour,
        Interaction::ResizeCatalogColumn(ResizeEvent::ResizeColumn {
            left: CatalogColumnKey::Source,
            left_width: 30,
            right: CatalogColumnKey::Title,
            right_width: 40,
        }),
    );
    let widths: Vec<Length> =
        ajour.catalog_header_state.columns.iter().map(|c| c.width).collect();
    assert_eq!(widths, [Length::Fill, Length::Units(30)]);
    assert_eq!(ajour.config.column_config, ColumnConfig::Earlier);

    let step = interact(&mut ajour, Interaction::ResizeColumn(ResizeEvent::Finished));
    assert_eq!(step, Step::save(Save::Attempt));
    let kept = |key: ColumnKey, width: Length| ColumnConfigV2 { key, width, hidden: false };
    let kept_catalog =
        |key: CatalogColumnKey, width: Length| ColumnConfigV2 { key, width, hidden: false };
    let expected = || ColumnConfig::V3 {
        my_addons_columns: vec![
            kept(ColumnKey::Title, Length::Fill),
            kept(ColumnKey::Status, Length::Units(20)),
            kept(ColumnKey::Author, Length::Fill),
        ],
        catalog_columns: vec![
            kept_catalog(CatalogColumnKey::Title, Length::Fill),
            kept_catalog(CatalogColumnKey::Source, Length::Units(30)),
        ],
    };
    assert_eq!(ajour.config.column_config, expected());
    ajour.config.column_config = ColumnConfig::Earlier;
    assert_eq!(save_column_configs(&mut ajour), Step::save(Save::Attempt));
    assert_eq!(ajour.config.column_config, expected());
}

#[test]
fn settings_are_opened_and_closed() {
    let mut ajour = program();
    ajour.expanded_type = ExpandType::Details(addon("a"));
    interact(&mut ajour, Interaction::Settings);
    assert!(!ajour.is_showing_settings);
    assert_eq!(ajour.expanded_type, ExpandType::Nothing);
    interact(&mut ajour, Interaction::Settings);
    assert!(ajour.is_showing_settings);
    let step = react(
        &mut ajour,
        &nowhere(),
        Message::Component(Component::Settings(6)),
    );
    assert_eq!(step.tasks, vec![Task::UpdateSettings(6)]);
}

#[test]
fn only_some_doings_of_the_user_leave_the_settings_open() {
    for (interaction, open) in [
        (Interaction::Unignore("a".to_owned()), true),
        (Interaction::OpenLink("https://example.org".to_owned()), true),
        (Interaction::UpdateAjour, true),
        (Interaction::ResizeColumn(ResizeEvent::Finished), true),
        (Interaction::Ignore("a".to_owned()), false),
        (Interaction::UpdateAll, false),
        (Interaction::SortColumn(ColumnKey::Title), false),
        (Interaction::CatalogQuery("a".to_owned()), false),
    ] {
        let mut ajour = program();
        interact(&mut ajour, interaction);
        assert_eq!(ajour.is_showing_settings, open);
    }
    let mut ajour = program();
    react(&mut ajour, &nowhere(), Message::Parse);
    assert!(ajour.is_showing_settings);
}

#[test]
fn the_mode_is_chosen() {
    let mut ajour = program();
    interact(&mut ajour, Interaction::ModeSelected(Mode::Catalog));
    assert_eq!(ajour.mode, Mode::Catalog);
    assert!(!ajour.is_showing_settings);
}

#[test]
fn folders_and_pages_are_opened() {
    let mut ajour = program();
    let step = interact(&mut ajour, Interaction::OpenDirectory(DirectoryType::Backup));
    assert_eq!(step.tasks, vec![Task::OpenDirectory(DirectoryType::Backup)]);
    let step = interact(&mut ajour, Interaction::OpenLink("https://example.org".to_owned()));
    assert_eq!(step.tasks, vec![Task::OpenLink("https://example.org".to_owned())]);
    assert!(ajour.is_showing_settings);
}

#[test]
fn themes_are_added_in_order() {
    let theme = |name: &str, rank: i64| Theme { name: name.to_owned(), rank };
    let mut ajour = program();
    react(&mut ajour, &nowhere(), Message::ThemesLoaded(vec![theme("z", 5)]));
    react(
        &mut ajour,
        &nowhere(),
        Message::ThemesLoaded(vec![theme("b", 2), theme("a", 1)]),
    );
    assert_eq!(
        ajour.themes,
        vec![
            ("z".to_owned(), theme("z", 5)),
            ("a".to_owned(), theme("a", 1)),
            ("b".to_owned(), theme("b", 2)),
        ]
    );
}

#[test]
fn the_size_of_the_window_is_kept() {
    let mut ajour = program();
    let step = react(&mut ajour, &nowhere(), Message::WindowResized(800, 600));
    assert_eq!(step, Step::save(Save::Attempt));
    assert_eq!(ajour.config.window_size, Some((800, 600)));
}

#[test]
fn backups_are_looked_for_and_noted() {
    let mut ajour = program();
    let path = PathBuf::from("/backups");
    let step = react(
        &mut ajour,
        &nowhere(),
        Message::UpdateBackupDirectory(Some(path.clone())),
    );
    assert_eq!(step.save, Save::Attempt);
    assert_eq!(step.tasks, vec![Task::LatestBackup(path.clone())]);
    assert_eq!(ajour.config.backup_directory, Some(path));
    let step = react(&mut ajour, &nowhere(), Message::UpdateBackupDirectory(None));
    assert_eq!(step, Step::none());
    react(&mut ajour, &nowhere(), Message::LatestBackup(Some(5)));
    assert_eq!(ajour.backup_state.last_backup, Some(5));
    ajour.backup_state.backing_up = true;
    react(&mut ajour, &nowhere(), Message::BackupFinished(Ok(6)));
    assert_eq!(ajour.backup_state, BackupState { backing_up: false, last_backup: Some(6) });
    ajour.backup_state.backing_up = true;
    react(&mut ajour, &nowhere(), Message::BackupFinished(Err("disk full".to_owned())));
    assert_eq!(ajour.backup_state, BackupState { backing_up: false, last_backup: Some(6) });
    assert_eq!(ajour.error, Some("disk full".to_owned()));
}

#[test]
fn the_program_is_updated() {
    let mut ajour = program();
    assert_eq!(interact(&mut ajour, Interaction::UpdateAjour), Step::none());
    assert_eq!(ajour.self_update_state.status, None);
    let release = Release { handle: 9 };
    react(&mut ajour, &nowhere(), Message::LatestRelease(Some(release)));
    let step = interact(&mut ajour, Interaction::UpdateAjour);
    assert_eq!(
        step.tasks,
        vec![Task::DownloadUpdate { bin_name: "ajour.AppImage".to_owned(), release }]
    );
    assert_eq!(ajour.self_update_state.status, Some(SelfUpdateStatus::InProgress));
    let path = PathBuf::from("/tmp/ajour");
    let step = react(
        &mut ajour,
        &nowhere(),
        Message::AjourUpdateDownloaded(Ok(("ajour".to_owned(), path.clone()))),
    );
    assert_eq!(step.tasks, vec![Task::Restart { bin_name: "ajour".to_owned(), path }]);
}

#[test]
fn a_failed_update_of_the_program_is_shown() {
    for message in [
        Message::AjourUpdateDownloaded(Err("no".to_owned())),
        Message::AjourRestartFailed("no".to_owned()),
    ] {
        let mut ajour = program();
        assert_eq!(react(&mut ajour, &nowhere(), message), Step::none());
        assert_eq!(ajour.error, Some("no".to_owned()));
        assert_eq!(ajour.self_update_state.status, Some(SelfUpdateStatus::Failed));
    }
}

#[test]
fn names_of_the_programs_files() {
    assert_eq!(bin_name(Platform::Windows, Renderer::OpenGl), "ajour-opengl.exe");
    assert_eq!(bin_name(Platform::Windows, Renderer::Wgpu), "ajour.exe");
    assert_eq!(bin_name(Platform::MacOs, Renderer::OpenGl), "ajour-opengl");
    assert_eq!(bin_name(Platform::MacOs, Renderer::Wgpu), "ajour");
    assert_eq!(bin_name(Platform::Linux, Renderer::OpenGl), "ajour-opengl.AppImage");
    assert_eq!(bin_name(Platform::Linux, Renderer::Wgpu), "ajour.AppImage");
}

#[test]
fn arguments_of_a_new_release() {
    let texts = |texts: &[&str]| -> Vec<String> {
        texts.iter().map(|text| (*text).to_owned()).collect()
    };
    assert_eq!(
        restart_arguments(&texts(&["/usr/bin/ajour", "--data", "x"]), &"ajour".to_owned()),
        ["--data", "x", "--self-update-temp", "ajour"]
    );
    assert_eq!(
        restart_arguments(&texts(&[]), &"ajour".to_owned()),
        ["--self-update-temp", "ajour"]
    );
}

#[test]
fn errors_are_shown() {
    for message in [
        Message::Error("no".to_owned()),
        Message::AddonCacheUpdated(Err("no".to_owned())),
    ] {
        let mut ajour = program();
        assert_eq!(react(&mut ajour, &nowhere(), message), Step::none());
        assert_eq!(ajour.error, Some("no".to_owned()));
    }
}

#[test]
fn some_messages_change_nothing() {
    for message in [
        Message::AddonCacheUpdated(Ok(())),
        Message::AddonCacheEntryRemoved,
        Message::RuntimeEvent,
        Message::Nothing,
    ] {
        let mut ajour = program();
        assert_eq!(react(&mut ajour, &nowhere(), message), Step::none());
        assert_eq!(ajour, program());
    }
}

#[test]
fn addons_are_fetched_from_the_service_of_their_entry() {
    assert_eq!(latest_addon_service(Source::Curse), Repository::Curse);
    assert_eq!(latest_addon_service(Source::Tukui), Repository::Tukui);
    assert_eq!(latest_addon_service(Source::WowI), Repository::WowI);
}

#[test]
fn tasks_end_in_messages() {
    let path = || Some(PathBuf::from("/games"));
    assert_eq!(
        open_directory(DirectoryType::Wow, path()),
        Message::UpdateWowDirectory(path())
    );
    assert_eq!(
        open_directory(DirectoryType::Backup, path()),
        Message::UpdateBackupDirectory(path())
    );
    assert_eq!(
        perform_read_addon_directory(Flavor::Retail, Ok(vec![addon("a")])),
        Message::ParsedAddons(Flavor::Retail, Ok(vec![addon("a")]))
    );
    let changelog = || Ok(("text".to_owned(), "url".to_owned()));
    let fetched =
        || Message::FetchedChangelog(addon("a"), AddonVersionKey::Remote, changelog());
    assert_eq!(
        perform_fetch_tukui_changelog(addon("a"), AddonVersionKey::Remote, changelog()),
        fetched()
    );
    assert_eq!(
        perform_fetch_curse_changelog(addon("a"), AddonVersionKey::Remote, changelog()),
        fetched()
    );
    assert_eq!(
        perform_fetch_wowi_changelog(addon("a"), "url".to_owned(), AddonVersionKey::Local),
        Message::FetchedChangelog(
            addon("a"),
            AddonVersionKey::Local,
            Ok((
                "Please view this changelog in the browser by pressing 'Full Changelog' to the right"
                    .to_owned(),
                "url".to_owned(),
            )),
        )
    );
    assert_eq!(
        perform_download_addon(
            DownloadReason::Update,
            Flavor::Retail,
            &addon("a"),
            Err("no".to_owned()),
        ),
        Message::DownloadedAddon(
            DownloadReason::Update,
            Flavor::Retail,
            "a".to_owned(),
            Err("no".to_owned()),
        )
    );
    assert_eq!(
        perform_hash_addon("a".to_owned(), Flavor::Retail, Ok(())),
        Message::UpdateFingerprint(Flavor::Retail, "a".to_owned(), Ok(()))
    );
    let unpacked = || Ok(Unpacked { folders: vec![], updated: None });
    assert_eq!(
        perform_unpack_addon(
            DownloadReason::Install,
            Flavor::Retail,
            &addon("a"),
            unpacked(),
        ),
        Message::UnpackedAddon(
            DownloadReason::Install,
            Flavor::Retail,
            "a".to_owned(),
            unpacked(),
        )
    );
    assert_eq!(
        perform_fetch_latest_addon(4, Flavor::Retail, Ok(addon("a"))),
        Message::CatalogInstallAddonFetched(Flavor::Retail, 4, Ok(addon("a")))
    );
}
