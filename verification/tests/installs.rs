//! Reactions that concern downloading, unpacking and installing addons.
use ajour::addon::{
    Addon, AddonFolder, AddonState, ReleaseChannel, RemotePackage, Repository, Standing,
};
use ajour::catalog::{
    CatalogInstallAddon, CatalogInstallStatus, CatalogCategory, CatalogResultSize, CatalogSource,
    Source,
};
use ajour::config::{AddonsConfig, ColumnConfig, Config};
use ajour::flavor_map::FlavorMap;
use ajour::message::{DownloadReason, Unpacked, Interaction, Message};
use ajour::state::{
    AddonDirectory, Ajour, BackupState, CatalogSearchState, Collation, Directories, ExpandType,
    HeaderState, Mode, ModeMap, Platform, Renderer, SelfUpdateState, ServiceRanks, StateRanks,
};
use ajour::task::{Step, Task};
use ajour::update::{unpack_target, can_handle, handle_message};
use ajour::wow::{Flavor, Wow};
use std::path::PathBuf;

fn collation() -> Collation {
    Collation {
        states: StateRanks {
            ajour: 0,
            corrupted: 1,
            ignored: 2,
            updatable: 3,
            downloading: 4,
            fingerprint: 5,
            unpacking: 6,
        },
        repositories: ServiceRanks { wowi: 0, tukui: 1, curse: 2 },
        sources: ServiceRanks { curse: 0, tukui: 1, wowi: 2 },
    }
}

fn program() -> Ajour {
    Ajour {
        state: ModeMap { my_addons: FlavorMap::new(), catalog: None },
        mode: Mode::MyAddons(Flavor::Retail),
        error: None,
        addons: FlavorMap::new(),
        catalog: None,
        catalog_install_addons: FlavorMap::new(),
        catalog_search_state: CatalogSearchState {
            catalog_rows: vec![],
            query: None,
            result_size: CatalogResultSize { rows: 25 },
            categories: vec![],
            category: CatalogCategory::All,
            source: CatalogSource::Choice(Source::Curse),
        },
        config: Config {
            wow: Wow::default(),
            addons: AddonsConfig {
                ignored: FlavorMap::new(),
                release_channels: FlavorMap::new(),
            },
            backup_directory: None,
            column_config: ColumnConfig::Earlier,
            window_size: None,
        },
        valid_flavors: vec![],
        expanded_type: ExpandType::Nothing,
        is_showing_settings: true,
        self_update_state: SelfUpdateState { latest_release: None, status: None },
        backup_state: BackupState { backing_up: false, last_backup: None },
        themes: vec![],
        fingerprint_cache: None,
        addon_cache: None,
        header_state: HeaderState {
            columns: vec![],
            previous_sort_direction: None,
            previous_column_key: None,
        },
        catalog_header_state: HeaderState {
            columns: vec![],
            previous_sort_direction: None,
            previous_column_key: None,
        },
        collation: collation(),
        platform: Platform::Linux,
        renderer: Renderer::Wgpu,
    }
}

fn channel(name: &str) -> ReleaseChannel {
    ReleaseChannel { name: name.to_owned() }
}

fn package(version: &str, file_id: Option<i64>) -> RemotePackage {
    RemotePackage { version: version.to_owned(), file_id, date_time: None, rank: 0 }
}

fn standing(name: &str, version: &str, updatable: bool) -> Standing {
    Standing {
        channel: channel(name),
        package: Some(package(version, Some(7))),
        updatable,
        rank: 0,
    }
}

fn addon(id: &str) -> Addon {
    Addon {
        handle: 0,
        primary_folder_id: id.to_owned(),
        title: id.to_owned(),
        author: None,
        version: Some("1".to_owned()),
        game_version: None,
        file_id: None,
        repository_id: None,
        active_repository: None,
        cacheable: false,
        folders: vec![AddonFolder { id: id.to_owned(), key: 1 }],
        release_channel: channel("Stable"),
        remote_packages: vec![],
        standings: vec![standing("Stable", "2", true), standing("Beta", "1", false)],
        rank: 0,
        state: AddonState::Ajour(None),
    }
}

fn in_state(id: &str, state: AddonState) -> Addon {
    let mut addon = addon(id);
    addon.state = state;
    addon
}

fn with_addons(addons: Vec<Addon>) -> Ajour {
    let mut ajour = program();
    ajour.addons.insert(Flavor::Retail, addons);
    ajour
}

fn listed(ajour: &Ajour) -> &Vec<Addon> {
    ajour.addons.get(Flavor::Retail).unwrap()
}

fn directories() -> Directories {
    let mut dirs = Directories { addons: FlavorMap::new(), downloads: FlavorMap::new() };
    *dirs.addons.slot_mut(Flavor::Retail) =
        Some(AddonDirectory { path: PathBuf::from("/wow/addons"), exists: true });
    *dirs.downloads.slot_mut(Flavor::Retail) = Some(PathBuf::from("/wow/downloads"));
    dirs
}

fn nowhere() -> Directories {
    Directories { addons: FlavorMap::new(), downloads: FlavorMap::new() }
}

fn react(ajour: &mut Ajour, dirs: &Directories, message: Message) -> Step {
    assert!(can_handle(ajour, dirs, &message));
    handle_message(ajour, dirs, message)
}

fn interact(ajour: &mut Ajour, interaction: Interaction) -> Step {
    react(ajour, &directories(), Message::Interaction(interaction))
}

fn installs(ajour: &Ajour) -> &Vec<CatalogInstallAddon> {
    ajour.catalog_install_addons.get(Flavor::Retail).unwrap()
}

fn install(id: i32, status: CatalogInstallStatus, addon: Option<Addon>) -> CatalogInstallAddon {
    CatalogInstallAddon { id, status, addon }
}

fn folder(id: &str, key: u64) -> AddonFolder {
    AddonFolder { id: id.to_owned(), key }
}

fn unpacked(folders: Vec<AddonFolder>) -> Result<Unpacked, String> {
    Ok(Unpacked { folders, updated: None })
}

#[test]
fn an_entry_is_fetched_to_be_installed() {
    let mut ajour = program();
    ajour.catalog_install_addons.insert(
        Flavor::Retail,
        vec![
            install(1, CatalogInstallStatus::Retry, None),
            install(2, CatalogInstallStatus::Unavilable, None),
        ],
    );
    let step = interact(
        &mut ajour,
        Interaction::CatalogInstall(Source::Tukui, Flavor::Retail, 1),
    );
    assert_eq!(
        step.tasks,
        vec![Task::FetchLatestAddon { source: Source::Tukui, id: 1, flavor: Flavor::Retail }]
    );
    assert_eq!(
        installs(&ajour),
        &vec![
            install(2, CatalogInstallStatus::Unavilable, None),
            install(1, CatalogInstallStatus::Downloading, None),
        ]
    );
}

#[test]
fn a_fetched_addon_is_downloaded() {
    let mut ajour = program();
    interact(
        &mut ajour,
        Interaction::CatalogInstall(Source::Curse, Flavor::Retail, 1),
    );
    let message = Message::CatalogInstallAddonFetched(Flavor::Retail, 1, Ok(addon("a")));
    assert!(!can_handle(&ajour, &nowhere(), &message));
    let step = react(&mut ajour, &directories(), message);
    let downloading = in_state("a", AddonState::Downloading);
    assert_eq!(
        step.tasks,
        vec![Task::DownloadAddon {
            reason: DownloadReason::Install,
            flavor: Flavor::Retail,
            addon: downloading.clone(),
            to_directory: PathBuf::from("/wow/downloads"),
        }]
    );
    assert_eq!(
        installs(&ajour),
        &vec![install(1, CatalogInstallStatus::Downloading, Some(downloading))]
    );
}

#[test]
fn an_addon_that_cannot_be_fetched_is_unavailable() {
    let mut ajour = program();
    interact(
        &mut ajour,
        Interaction::CatalogInstall(Source::Curse, Flavor::Retail, 1),
    );
    let message =
        Message::CatalogInstallAddonFetched(Flavor::Retail, 1, Err("not found".to_owned()));
    assert_eq!(react(&mut ajour, &nowhere(), message), Step::none());
    assert_eq!(
        installs(&ajour),
        &vec![install(1, CatalogInstallStatus::Unavilable, None)]
    );
    assert_eq!(ajour.error, None);
}

#[test]
fn an_addon_that_is_not_awaited_changes_nothing() {
    let mut ajour = program();
    let message = Message::CatalogInstallAddonFetched(Flavor::Retail, 1, Ok(addon("a")));
    assert_eq!(react(&mut ajour, &nowhere(), message), Step::none());
    assert!(installs(&ajour).is_empty());
}

#[test]
fn a_downloaded_update_is_unpacked() {
    let mut ajour = with_addons(vec![in_state("a", AddonState::Downloading)]);
    let message = || {
        Message::DownloadedAddon(DownloadReason::Update, Flavor::Retail, "a".to_owned(), Ok(()))
    };
    assert!(!can_handle(&ajour, &nowhere(), &message()));
    let step = react(&mut ajour, &directories(), message());
    assert_eq!(
        step.tasks,
        vec![Task::UnpackAddon {
            reason: DownloadReason::Update,
            flavor: Flavor::Retail,
            addon: in_state("a", AddonState::Unpacking),
            from_directory: PathBuf::from("/wow/downloads"),
            to_directory: PathBuf::from("/wow/addons"),
        }]
    );
    assert_eq!(listed(&ajour)[0].state, AddonState::Unpacking);
    // It no longer waits for that.
    assert_eq!(react(&mut ajour, &directories(), message()), Step::none());
}

#[test]
fn a_download_that_is_of_no_use_needs_no_folders() {
    let mut ajour = program();
    for reason in [DownloadReason::Update, DownloadReason::Install] {
        let message =
            Message::DownloadedAddon(reason, Flavor::Retail, "a".to_owned(), Ok(()));
        assert_eq!(react(&mut ajour, &nowhere(), message), Step::none());
    }
    assert!(listed(&ajour).is_empty());
    assert!(installs(&ajour).is_empty());
}

#[test]
fn a_downloaded_install_is_unpacked() {
    let mut ajour = program();
    let downloading = in_state("a", AddonState::Downloading);
    ajour.catalog_install_addons.insert(
        Flavor::Retail,
        vec![
            install(1, CatalogInstallStatus::Downloading, None),
            install(2, CatalogInstallStatus::Downloading, Some(downloading)),
        ],
    );
    let message =
        Message::DownloadedAddon(DownloadReason::Install, Flavor::Retail, "a".to_owned(), Ok(()));
    let step = react(&mut ajour, &directories(), message);
    assert_eq!(step.tasks.len(), 1);
    assert_eq!(
        installs(&ajour)[1],
        install(
            2,
            CatalogInstallStatus::Unpacking,
            Some(in_state("a", AddonState::Unpacking)),
        )
    );
    assert_eq!(installs(&ajour)[0].status, CatalogInstallStatus::Downloading);
}

#[test]
fn a_failed_install_can_be_tried_again() {
    for message in [
        Message::DownloadedAddon(
            DownloadReason::Install,
            Flavor::Retail,
            "-12".to_owned(),
            Err("no network".to_owned()),
        ),
        Message::UnpackedAddon(
            DownloadReason::Install,
            Flavor::Retail,
            "-12".to_owned(),
            Err("no network".to_owned()),
        ),
    ] {
        let mut ajour = program();
        ajour.catalog_install_addons.insert(
            Flavor::Retail,
            vec![
                install(12, CatalogInstallStatus::Downloading, None),
                install(-12, CatalogInstallStatus::Downloading, None),
            ],
        );
        assert_eq!(react(&mut ajour, &nowhere(), message), Step::none());
        assert_eq!(ajour.error, Some("no network".to_owned()));
        assert_eq!(installs(&ajour)[0].status, CatalogInstallStatus::Downloading);
        assert_eq!(installs(&ajour)[1].status, CatalogInstallStatus::Retry);
    }
}

#[test]
fn a_failed_update_is_shown() {
    let mut ajour = with_addons(vec![in_state("a", AddonState::Downloading)]);
    ajour
        .catalog_install_addons
        .insert(Flavor::Retail, vec![install(1, CatalogInstallStatus::Downloading, None)]);
    let message = Message::DownloadedAddon(
        DownloadReason::Update,
        Flavor::Retail,
        "1".to_owned(),
        Err("no network".to_owned()),
    );
    assert_eq!(react(&mut ajour, &nowhere(), message), Step::none());
    assert_eq!(ajour.error, Some("no network".to_owned()));
    assert_eq!(installs(&ajour)[0].status, CatalogInstallStatus::Downloading);
    assert_eq!(listed(&ajour)[0].state, AddonState::Downloading);
}

#[test]
fn an_unpacked_update_is_settled() {
    let mut own = in_state("a", AddonState::Unpacking);
    own.active_repository = Some(Repository::WowI);
    own.cacheable = true;
    own.folders = vec![folder("a", 1), folder("b", 2)];
    let mut ajour = with_addons(vec![own.clone()]);
    ajour.addon_cache = Some(1);
    ajour.fingerprint_cache = Some(2);
    let message = Message::UnpackedAddon(
        DownloadReason::Update,
        Flavor::Retail,
        "a".to_owned(),
        unpacked(vec![folder("a", 1)]),
    );
    assert!(!can_handle(&ajour, &nowhere(), &message));
    let step = react(&mut ajour, &directories(), message);
    let mut settled = own;
    settled.state = AddonState::Fingerprint;
    settled.version = Some("2".to_owned());
    assert_eq!(listed(&ajour), &vec![settled.clone()]);
    let hash = |id: &str| Task::HashAddon {
        directory: PathBuf::from("/wow/addons"),
        folder_id: id.to_owned(),
        cache: 2,
        flavor: Flavor::Retail,
    };
    assert_eq!(
        step.tasks,
        vec![
            Task::UpdateAddonCache { cache: 1, addon: settled, flavor: Flavor::Retail },
            hash("a"),
            hash("b"),
        ]
    );
}

#[test]
fn the_folders_that_were_given_to_an_addon_count() {
    let mut ajour = with_addons(vec![in_state("a", AddonState::Unpacking)]);
    ajour.addon_cache = Some(1);
    ajour.fingerprint_cache = Some(2);
    let folders = vec![folder("x", 9)];
    let mut updated = unpack_target(
        &ajour,
        DownloadReason::Update,
        Flavor::Retail,
        &"a".to_owned(),
        &folders,
    )
    .unwrap();
    assert_eq!(updated, in_state("a", AddonState::Unpacking));
    updated.folders = vec![folder("x", 9)];
    updated.active_repository = Some(Repository::Curse);
    updated.cacheable = true;
    let message = Message::UnpackedAddon(
        DownloadReason::Update,
        Flavor::Retail,
        "a".to_owned(),
        Ok(Unpacked { folders, updated: Some(updated) }),
    );
    let step = react(&mut ajour, &directories(), message);
    assert_eq!(listed(&ajour)[0].folders, vec![folder("x", 9)]);
    assert_eq!(listed(&ajour)[0].version, Some("2".to_owned()));
    assert_eq!(step.tasks.len(), 2);
    assert!(matches!(step.tasks[0], Task::RemoveAddonCacheEntry { cache: 1, .. }));
    assert!(matches!(step.tasks[1], Task::HashAddon { cache: 2, .. }));
}

#[test]
fn an_unpacked_install_takes_the_place_of_the_same_folders() {
    let mut old = addon("old");
    old.folders = vec![folder("x", 1)];
    let mut other = addon("other");
    other.folders = vec![folder("x", 1), folder("y", 2)];
    let mut ajour = with_addons(vec![old, other.clone()]);
    let mut own = in_state("a", AddonState::Unpacking);
    own.standings = vec![];
    ajour.catalog_install_addons.insert(
        Flavor::Retail,
        vec![
            install(1, CatalogInstallStatus::Unpacking, Some(own.clone())),
            install(2, CatalogInstallStatus::Downloading, None),
        ],
    );
    let message = Message::UnpackedAddon(
        DownloadReason::Install,
        Flavor::Retail,
        "a".to_owned(),
        unpacked(vec![folder("new", 1)]),
    );
    // Without caches nothing is left to do, and no folder is needed.
    let step = react(&mut ajour, &nowhere(), message);
    assert_eq!(step, Step::none());
    own.state = AddonState::Fingerprint;
    assert_eq!(listed(&ajour), &vec![other, own]);
    assert_eq!(
        installs(&ajour),
        &vec![install(2, CatalogInstallStatus::Downloading, None)]
    );
}

#[test]
fn an_install_that_folders_were_given_to_is_listed() {
    let mut ajour = program();
    let own = in_state("a", AddonState::Unpacking);
    ajour.catalog_install_addons.insert(
        Flavor::Retail,
        vec![install(1, CatalogInstallStatus::Unpacking, Some(own))],
    );
    let folders = vec![folder("x", 9)];
    let mut updated = unpack_target(
        &ajour,
        DownloadReason::Install,
        Flavor::Retail,
        &"a".to_owned(),
        &folders,
    )
    .unwrap();
    updated.folders = vec![folder("x", 9)];
    updated.standings = vec![standing("Stable", "5", true)];
    let message = Message::UnpackedAddon(
        DownloadReason::Install,
        Flavor::Retail,
        "a".to_owned(),
        Ok(Unpacked { folders, updated: Some(updated) }),
    );
    react(&mut ajour, &directories(), message);
    assert_eq!(listed(&ajour).len(), 1);
    assert_eq!(listed(&ajour)[0].state, AddonState::Fingerprint);
    assert_eq!(listed(&ajour)[0].version, Some("5".to_owned()));
    assert_eq!(listed(&ajour)[0].folders, vec![folder("x", 9)]);
    assert!(installs(&ajour).is_empty());
}

#[test]
fn an_install_that_is_unknown_is_not_listed() {
    let mut ajour = with_addons(vec![addon("a")]);
    let target = unpack_target(
        &ajour,
        DownloadReason::Install,
        Flavor::Retail,
        &"a".to_owned(),
        &vec![],
    );
    assert_eq!(target, None);
    let message = Message::UnpackedAddon(
        DownloadReason::Install,
        Flavor::Retail,
        "a".to_owned(),
        unpacked(vec![folder("a", 1)]),
    );
    assert_eq!(react(&mut ajour, &nowhere(), message), Step::none());
    assert_eq!(listed(&ajour), &vec![addon("a")]);
}

#[test]
fn an_update_runs_its_course() {
    let mut ajour = with_addons(vec![addon("b"), in_state("a", AddonState::Updatable)]);
    ajour.fingerprint_cache = Some(1);
    let id = || "a".to_owned();
    interact(&mut ajour, Interaction::Update(id()));
    assert_eq!(listed(&ajour)[1].state, AddonState::Downloading);
    let downloaded =
        Message::DownloadedAddon(DownloadReason::Update, Flavor::Retail, id(), Ok(()));
    react(&mut ajour, &directories(), downloaded);
    assert_eq!(listed(&ajour)[1].state, AddonState::Unpacking);
    let message = Message::UnpackedAddon(
        DownloadReason::Update,
        Flavor::Retail,
        id(),
        unpacked(vec![folder("a", 1)]),
    );
    react(&mut ajour, &directories(), message);
    assert_eq!(listed(&ajour)[1].state, AddonState::Fingerprint);
    assert_eq!(listed(&ajour)[1].version, Some("2".to_owned()));
    react(
        &mut ajour,
        &directories(),
        Message::UpdateFingerprint(Flavor::Retail, id(), Ok(())),
    );
    assert_eq!(listed(&ajour)[1].state, AddonState::Ajour(Some("Completed".to_owned())));
    assert_eq!(listed(&ajour)[0], addon("b"));
}
