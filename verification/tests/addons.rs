//! Reactions that concern single addons.
use ajour::addon::{
    Addon, AddonFolder, AddonState, Offer, ReleaseChannel, RemotePackage, Repository, Standing,
};
use ajour::catalog::{CatalogCategory, CatalogResultSize, CatalogSource, Source};
use ajour::config::{AddonsConfig, ColumnConfig, Config};
use ajour::flavor_map::FlavorMap;
use ajour::message::{Interaction, Message};
use ajour::state::{
    AddonDirectory, Ajour, BackupState, CatalogSearchState, Collation, Directories, ExpandType,
    HeaderState, Mode, ModeMap, Platform, Renderer, SelfUpdateState, ServiceRanks, StateRanks,
};
use ajour::task::{Save, Step, Task};
use ajour::update::{can_handle, handle_message};
use ajour::wow::{Flavor, Wow};
use std::path::PathBuf;

fn collation() -> Collation {
    Collation {
        states: StateRanks {
            ajour: 0,
            corrupted: 1,
            ignored: 2,
            updatable: 3,
            downloading: 4,
            fingerprint: 5,
            unpacking: 6,
        },
        repositories: ServiceRanks { wowi: 0, tukui: 1, curse: 2 },
        sources: ServiceRanks { curse: 0, tukui: 1, wowi: 2 },
    }
}

fn program() -> Ajour {
    Ajour {
        state: ModeMap { my_addons: FlavorMap::new(), catalog: None },
        mode: Mode::MyAddons(Flavor::Retail),
        error: None,
        addons: FlavorMap::new(),
        catalog: None,
        catalog_install_addons: FlavorMap::new(),
        catalog_search_state: CatalogSearchState {
            catalog_rows: vec![],
            query: None,
            result_size: CatalogResultSize { rows: 25 },
            categories: vec![],
            category: CatalogCategory::All,
            source: CatalogSource::Choice(Source::Curse),
        },
        config: Config {
            wow: Wow::default(),
            addons: AddonsConfig {
                ignored: FlavorMap::new(),
                release_channels: FlavorMap::new(),
            },
            backup_directory: None,
            column_config: ColumnConfig::Earlier,
            window_size: None,
        },
        valid_flavors: vec![],
        expanded_type: ExpandType::Nothing,
        is_showing_settings: true,
        self_update_state: SelfUpdateState { latest_release: None, status: None },
        backup_state: BackupState { backing_up: false, last_backup: None },
        themes: vec![],
        fingerprint_cache: None,
        addon_cache: None,
        header_state: HeaderState {
            columns: vec![],
            previous_sort_direction: None,
            previous_column_key: None,
        },
        catalog_header_state: HeaderState {
            columns: vec![],
            previous_sort_direction: None,
            previous_column_key: None,
        },
        collation: collation(),
        platform: Platform::Linux,
        renderer: Renderer::Wgpu,
    }
}

fn channel(name: &str) -> ReleaseChannel {
    ReleaseChannel { name: name.to_owned() }
}

fn package(version: &str, file_id: Option<i64>) -> RemotePackage {
    RemotePackage { version: version.to_owned(), file_id, date_time: None, rank: 0 }
}

fn standing(name: &str, version: &str, updatable: bool) -> Standing {
    Standing {
        channel: channel(name),
        package: Some(package(version, Some(7))),
        updatable,
        rank: 0,
    }
}

fn addon(id: &str) -> Addon {
    Addon {
        handle: 0,
        primary_folder_id: id.to_owned(),
        title: id.to_owned(),
        author: None,
        version: Some("1".to_owned()),
        game_version: None,
        file_id: None,
        repository_id: None,
        active_repository: None,
        cacheable: false,
        folders: vec![AddonFolder { id: id.to_owned(), key: 1 }],
        release_channel: channel("Stable"),
        remote_packages: vec![],
        standings: vec![standing("Stable", "2", true), standing("Beta", "1", false)],
        rank: 0,
        state: AddonState::Ajour(None),
    }
}

fn in_state(id: &str, state: AddonState) -> Addon {
    let mut addon = addon(id);
    addon.state = state;
    addon
}

fn with_addons(addons: Vec<Addon>) -> Ajour {
    let mut ajour = program();
    ajour.addons.insert(Flavor::Retail, addons);
    ajour
}

fn listed(ajour: &Ajour) -> &Vec<Addon> {
    ajour.addons.get(Flavor::Retail).unwrap()
}

fn directories() -> Directories {
    let mut dirs = Directories { addons: FlavorMap::new(), downloads: FlavorMap::new() };
    *dirs.addons.slot_mut(Flavor::Retail) =
        Some(AddonDirectory { path: PathBuf::from("/wow/addons"), exists: true });
    *dirs.downloads.slot_mut(Flavor::Retail) = Some(PathBuf::from("/wow/downloads"));
    dirs
}

fn nowhere() -> Directories {
    Directories { addons: FlavorMap::new(), downloads: FlavorMap::new() }
}

fn react(ajour: &mut Ajour, dirs: &Directories, message: Message) -> Step {
    assert!(can_handle(ajour, dirs, &message));
    handle_message(ajour, dirs, message)
}

fn interact(ajour: &mut Ajour, interaction: Interaction) -> Step {
    react(ajour, &directories(), Message::Interaction(interaction))
}

#[test]
fn an_ignored_addon_is_noted() {
    let mut ajour = with_addons(vec![addon("a"), addon("b")]);
    ajour.expanded_type = ExpandType::Details(addon("a"));
    let step = interact(&mut ajour, Interaction::Ignore("b".to_owned()));
    assert_eq!(step, Step::save(Save::Attempt));
    assert_eq!(listed(&ajour)[0].state, AddonState::Ajour(None));
    assert_eq!(listed(&ajour)[1].state, AddonState::Ignored);
    assert_eq!(
        ajour.config.addons.ignored.get(Flavor::Retail),
        Some(&vec!["b".to_owned()])
    );
    assert!(!ajour.is_showing_settings);
    assert_eq!(ajour.expanded_type, ExpandType::Nothing);
}

#[test]
fn an_unknown_addon_cannot_be_ignored() {
    let mut ajour = program();
    let step = interact(&mut ajour, Interaction::Ignore("b".to_owned()));
    assert_eq!(step, Step::none());
    assert_eq!(ajour.config.addons.ignored.get(Flavor::Retail), None);
    assert_eq!(ajour.addons.get(Flavor::Retail), Some(&vec![]));
}

#[test]
fn unignoring_takes_ignoring_back() {
    let mut ajour = with_addons(vec![addon("a"), addon("b")]);
    ajour.config.addons.ignored.insert(Flavor::Retail, vec!["x".to_owned()]);
    interact(&mut ajour, Interaction::Ignore("b".to_owned()));
    let step = interact(&mut ajour, Interaction::Unignore("b".to_owned()));
    assert_eq!(step, Step::save(Save::Attempt));
    assert_eq!(
        ajour.config.addons.ignored.get(Flavor::Retail),
        Some(&vec!["x".to_owned()])
    );
    assert_eq!(listed(&ajour)[1].state, AddonState::Updatable);
    assert_eq!(listed(&ajour)[0], addon("a"));
}

#[test]
fn an_addon_without_an_update_is_looked_after_once_it_is_unignored() {
    let mut current = in_state("a", AddonState::Ignored);
    current.release_channel = channel("Beta");
    let mut unknown = in_state("b", AddonState::Ignored);
    unknown.release_channel = channel("Alpha");
    let mut ajour = with_addons(vec![current, unknown]);
    interact(&mut ajour, Interaction::Unignore("a".to_owned()));
    interact(&mut ajour, Interaction::Unignore("b".to_owned()));
    assert_eq!(listed(&ajour)[0].state, AddonState::Ajour(None));
    assert_eq!(listed(&ajour)[1].state, AddonState::Ignored);
}

#[test]
fn a_deleted_addon_leaves_the_list() {
    let mut ajour = with_addons(vec![addon("a"), addon("b"), addon("c")]);
    let step = interact(&mut ajour, Interaction::Delete("b".to_owned()));
    assert_eq!(step.delete, vec![AddonFolder { id: "b".to_owned(), key: 1 }]);
    assert!(step.tasks.is_empty());
    assert_eq!(step.save, Save::Skip);
    assert_eq!(listed(&ajour), &vec![addon("a"), addon("c")]);
    let step = interact(&mut ajour, Interaction::Delete("b".to_owned()));
    assert_eq!(step, Step::none());
}

#[test]
fn the_cache_entry_of_a_deleted_addon_is_removed() {
    for (repository, cacheable, removed) in [
        (Some(Repository::Tukui), true, true),
        (Some(Repository::WowI), true, true),
        (Some(Repository::Curse), true, false),
        (Some(Repository::Tukui), false, false),
        (None, true, false),
    ] {
        let mut own = addon("a");
        own.active_repository = repository;
        own.cacheable = cacheable;
        let mut ajour = with_addons(vec![own.clone()]);
        ajour.addon_cache = Some(5);
        let step = interact(&mut ajour, Interaction::Delete("a".to_owned()));
        let expected = if removed {
            vec![Task::RemoveAddonCacheEntry { cache: 5, addon: own, flavor: Flavor::Retail }]
        } else {
            vec![]
        };
        assert_eq!(step.tasks, expected);
    }
}

#[test]
fn an_addon_is_downloaded_to_be_updated() {
    let mut ajour = with_addons(vec![addon("a"), addon("b")]);
    let step = interact(&mut ajour, Interaction::Update("b".to_owned()));
    assert_eq!(
        step.tasks,
        vec![Task::DownloadAddon {
            reason: ajour::message::DownloadReason::Update,
            flavor: Flavor::Retail,
            addon: in_state("b", AddonState::Downloading),
            to_directory: PathBuf::from("/wow/downloads"),
        }]
    );
    assert_eq!(listed(&ajour)[1].state, AddonState::Downloading);
    assert_eq!(
        interact(&mut ajour, Interaction::Update("c".to_owned())),
        Step::none()
    );
}

#[test]
fn updating_needs_a_folder_to_download_to() {
    let ajour = with_addons(vec![addon("a")]);
    let message = Message::Interaction(Interaction::Update("a".to_owned()));
    assert!(!can_handle(&ajour, &nowhere(), &message));
    assert!(can_handle(&ajour, &directories(), &message));
}

#[test]
fn everything_is_updated_that_is_due() {
    let addons = || {
        vec![
            in_state("a", AddonState::Updatable),
            in_state("b", AddonState::Updatable),
            in_state("c", AddonState::Corrupted),
            in_state("d", AddonState::Updatable),
        ]
    };
    let mut ajour = with_addons(addons());
    ajour.config.addons.ignored.insert(Flavor::Retail, vec!["b".to_owned()]);
    let step = interact(&mut ajour, Interaction::UpdateAll);
    let started: Vec<String> = step
        .tasks
        .iter()
        .map(|task| match task {
            Task::DownloadAddon { addon, .. } => addon.primary_folder_id.clone(),
            _ => panic!("not a download"),
        })
        .collect();
    assert_eq!(started, ["a", "d"]);
    let states: Vec<&AddonState> = listed(&ajour).iter().map(|a| &a.state).collect();
    assert_eq!(
        states,
        [
            &AddonState::Downloading,
            &AddonState::Updatable,
            &AddonState::Corrupted,
            &AddonState::Downloading,
        ]
    );
    assert!(interact(&mut ajour, Interaction::UpdateAll).tasks.is_empty());
}

#[test]
fn nothing_is_updated_without_a_folder_to_download_to() {
    let mut ajour = with_addons(vec![in_state("a", AddonState::Updatable)]);
    let step = react(
        &mut ajour,
        &nowhere(),
        Message::Interaction(Interaction::UpdateAll),
    );
    assert_eq!(step, Step::none());
    assert_eq!(listed(&ajour)[0].state, AddonState::Updatable);
    assert_eq!(ajour.config.addons.ignored.get(Flavor::Retail), Some(&vec![]));
}

#[test]
fn a_chosen_channel_is_followed() {
    let mut ajour = with_addons(vec![addon("a"), in_state("b", AddonState::Updatable)]);
    ajour.expanded_type = ExpandType::Details(addon("b"));
    let step = react(
        &mut ajour,
        &directories(),
        Message::ReleaseChannelSelected(channel("Beta")),
    );
    assert_eq!(step, Step::save(Save::Attempt));
    assert_eq!(listed(&ajour)[1].release_channel, channel("Beta"));
    assert_eq!(listed(&ajour)[1].state, AddonState::Ajour(None));
    let chosen = ajour.config.addons.release_channels.get(Flavor::Retail).unwrap();
    assert_eq!(chosen.get(&"b".to_owned()), Some(&channel("Beta")));
    assert!(chosen.get(&"a".to_owned()).is_none());

    // The choice holds when the addons are read again.
    let message = Message::ParsedAddons(Flavor::Retail, Ok(vec![addon("b")]));
    react(&mut ajour, &directories(), message);
    assert_eq!(listed(&ajour)[0].release_channel, channel("Beta"));
}

#[test]
fn a_channel_is_chosen_only_where_details_are_unfolded() {
    let mut ajour = with_addons(vec![addon("a")]);
    let step = react(
        &mut ajour,
        &directories(),
        Message::ReleaseChannelSelected(channel("Beta")),
    );
    assert_eq!(step, Step::none());
    assert_eq!(listed(&ajour)[0].release_channel, channel("Stable"));
}

#[test]
fn fingerprints_are_noted() {
    let mut ajour = with_addons(vec![addon("a"), addon("b")]);
    react(
        &mut ajour,
        &directories(),
        Message::UpdateFingerprint(Flavor::Retail, "a".to_owned(), Ok(())),
    );
    react(
        &mut ajour,
        &directories(),
        Message::UpdateFingerprint(Flavor::Retail, "b".to_owned(), Err("broken".to_owned())),
    );
    assert_eq!(listed(&ajour)[0].state, AddonState::Ajour(Some("Completed".to_owned())));
    assert_eq!(listed(&ajour)[1].state, AddonState::Ajour(Some("Error".to_owned())));
    assert_eq!(ajour.error, None);
}

#[test]
fn standings_are_made_out_anew() {
    let mut ajour = with_addons(vec![addon("a"), addon("b")]);
    ajour::update::refresh_standings(
        &mut ajour,
        Flavor::Retail,
        vec![vec![standing("Stable", "3", false)]],
    );
    assert_eq!(listed(&ajour)[0].standings, vec![standing("Stable", "3", false)]);
    assert_eq!(listed(&ajour)[1], addon("b"));
    assert!(!listed(&ajour)[0].is_updatable());
    assert!(listed(&ajour)[1].is_updatable());
}

#[test]
fn offers_decide_the_channel_of_an_addon_that_is_read() {
    let mut own = addon("a");
    own.file_id = Some(3);
    own.remote_packages = vec![
        Offer { channel: channel("Stable"), package: package("2", Some(4)) },
        Offer { channel: channel("Beta"), package: package("1", Some(3)) },
        Offer { channel: channel("Alpha"), package: package("1", Some(3)) },
    ];
    let mut ajour = program();
    let message = Message::ParsedAddons(Flavor::Retail, Ok(vec![own, addon("b")]));
    react(&mut ajour, &directories(), message);
    let by_id = |id: &str| {
        listed(&ajour).iter().find(|a| a.primary_folder_id == id).unwrap().clone()
    };
    assert_eq!(by_id("a").release_channel, channel("Beta"));
    assert_eq!(by_id("a").state, AddonState::Ajour(None));
    assert_eq!(by_id("b").release_channel, channel("Stable"));
    assert_eq!(by_id("b").state, AddonState::Updatable);
}
