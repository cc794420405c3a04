//! Reactions that concern the lists of addons as a whole.
use ajour::addon::{Addon, AddonFolder, AddonState, ReleaseChannel, RemotePackage, Standing};
use ajour::catalog::{CatalogCategory, CatalogResultSize, CatalogSource, Source};
use ajour::config::{AddonsConfig, ColumnConfig, Config};
use ajour::flavor_map::FlavorMap;
use ajour::message::{Interaction, Message};
use ajour::state::{
    AddonDirectory, Ajour, BackupState, CatalogSearchState, Collation, Directories, ExpandType,
    HeaderState, Mode, ModeMap, Platform, Renderer, SelfUpdateState, ServiceRanks, State,
    StateRanks,
};
use ajour::task::{Save, Step, Task};
use ajour::update::{can_handle, handle_message};
use ajour::wow::{Flavor, Wow};
use std::path::PathBuf;

fn collation() -> Collation {
    Collation {
        states: StateRanks {
            ajour: 0,
            corrupted: 1,
            ignored: 2,
            updatable: 3,
            downloading: 4,
            fingerprint: 5,
            unpacking: 6,
        },
        repositories: ServiceRanks { wowi: 0, tukui: 1, curse: 2 },
        sources: ServiceRanks { curse: 0, tukui: 1, wowi: 2 },
    }
}

fn program() -> Ajour {
    Ajour {
        state: ModeMap { my_addons: FlavorMap::new(), catalog: None },
        mode: Mode::MyAddons(Flavor::Retail),
        error: None,
        addons: FlavorMap::new(),
        catalog: None,
        catalog_install_addons: FlavorMap::new(),
        catalog_search_state: CatalogSearchState {
            catalog_rows: vec![],
            query: None,
            result_size: CatalogResultSize { rows: 25 },
            categories: vec![],
            category: CatalogCategory::All,
            source: CatalogSource::Choice(Source::Curse),
        },
        config: Config {
            wow: Wow::default(),
            addons: AddonsConfig {
                ignored: FlavorMap::new(),
                release_channels: FlavorMap::new(),
            },
            backup_directory: None,
            column_config: ColumnConfig::Earlier,
            window_size: None,
        },
        valid_flavors: vec![],
        expanded_type: ExpandType::Nothing,
        is_showing_settings: true,
        self_update_state: SelfUpdateState { latest_release: None, status: None },
        backup_state: BackupState { backing_up: false, last_backup: None },
        themes: vec![],
        fingerprint_cache: None,
        addon_cache: None,
        header_state: HeaderState {
            columns: vec![],
            previous_sort_direction: None,
            previous_column_key: None,
        },
        catalog_header_state: HeaderState {
            columns: vec![],
            previous_sort_direction: None,
            previous_column_key: None,
        },
        collation: collation(),
        platform: Platform::Linux,
        renderer: Renderer::Wgpu,
    }
}

fn channel(name: &str) -> ReleaseChannel {
    ReleaseChannel { name: name.to_owned() }
}

fn package(version: &str, file_id: Option<i64>) -> RemotePackage {
    RemotePackage { version: version.to_owned(), file_id, date_time: None, rank: 0 }
}

fn standing(name: &str, version: &str, updatable: bool) -> Standing {
    Standing {
        channel: channel(name),
        package: Some(package(version, Some(7))),
        updatable,
        rank: 0,
    }
}

fn addon(id: &str) -> Addon {
    Addon {
        handle: 0,
        primary_folder_id: id.to_owned(),
        title: id.to_owned(),
        author: None,
        version: Some("1".to_owned()),
        game_version: None,
        file_id: None,
        repository_id: None,
        active_repository: None,
        cacheable: false,
        folders: vec![AddonFolder { id: id.to_owned(), key: 1 }],
        release_channel: channel("Stable"),
        remote_packages: vec![],
        standings: vec![standing("Stable", "2", true), standing("Beta", "1", false)],
        rank: 0,
        state: AddonState::Ajour(None),
    }
}

fn in_state(id: &str, state: AddonState) -> Addon {
    let mut addon = addon(id);
    addon.state = state;
    addon
}

fn with_addons(addons: Vec<Addon>) -> Ajour {
    let mut ajour = program();
    ajour.addons.insert(Flavor::Retail, addons);
    ajour
}

fn listed(ajour: &Ajour) -> &Vec<Addon> {
    ajour.addons.get(Flavor::Retail).unwrap()
}

fn directories() -> Directories {
    let mut dirs = Directories { addons: FlavorMap::new(), downloads: FlavorMap::new() };
    *dirs.addons.slot_mut(Flavor::Retail) =
        Some(AddonDirectory { path: PathBuf::from("/wow/addons"), exists: true });
    *dirs.downloads.slot_mut(Flavor::Retail) = Some(PathBuf::from("/wow/downloads"));
    dirs
}

fn nowhere() -> Directories {
    Directories { addons: FlavorMap::new(), downloads: FlavorMap::new() }
}

fn react(ajour: &mut Ajour, dirs: &Directories, message: Message) -> Step {
    assert!(can_handle(ajour, dirs, &message));
    handle_message(ajour, dirs, message)
}

fn interact(ajour: &mut Ajour, interaction: Interaction) -> Step {
    react(ajour, &directories(), Message::Interaction(interaction))
}

fn directory(path: &str, exists: bool) -> Option<AddonDirectory> {
    Some(AddonDirectory { path: PathBuf::from(path), exists })
}

/// Folders for all flavors. Those of two flavors are on disk.
fn all_directories() -> Directories {
    let mut dirs = nowhere();
    for flavor in Flavor::ALL {
        let exists = flavor == Flavor::RetailPtr || flavor == Flavor::ClassicTbc;
        *dirs.addons.slot_mut(flavor) = directory(&flavor.folder_name(), exists);
    }
    dirs
}

fn read_flavors(step: &Step) -> Vec<Flavor> {
    step.tasks
        .iter()
        .filter_map(|task| match task {
            Task::ReadAddonDirectory { flavor, .. } => Some(*flavor),
            _ => None,
        })
        .collect()
}

#[test]
fn the_addons_are_read_once_the_caches_are_loaded() {
    let mut ajour = program();
    let step = react(&mut ajour, &nowhere(), Message::CachesLoaded(Ok((3, 4))));
    assert_eq!(step.tasks, vec![Task::Parse]);
    assert_eq!(ajour.fingerprint_cache, Some(3));
    assert_eq!(ajour.addon_cache, Some(4));
    let mut ajour = program();
    let step = react(&mut ajour, &nowhere(), Message::CachesLoaded(Err("broken".to_owned())));
    assert_eq!(step.tasks, vec![Task::Parse]);
    assert_eq!(ajour.fingerprint_cache, None);
    assert_eq!(ajour.error, None);
}

#[test]
fn all_flavors_are_read_and_a_valid_one_is_chosen() {
    let mut ajour = program();
    ajour.mode = Mode::Catalog;
    ajour.addon_cache = Some(1);
    ajour.config.backup_directory = Some(PathBuf::from("/backups"));
    let step = react(&mut ajour, &all_directories(), Message::Parse);
    assert_eq!(step.save, Save::Require);
    assert_eq!(step.tasks[0], Task::LatestBackup(PathBuf::from("/backups")));
    assert_eq!(
        step.tasks[1],
        Task::ReadAddonDirectory {
            addon_cache: Some(1),
            fingerprint_cache: None,
            directory: PathBuf::from("_retail_"),
            flavor: Flavor::Retail,
        }
    );
    assert_eq!(read_flavors(&step), Flavor::ALL);
    assert_eq!(ajour.valid_flavors, [Flavor::RetailPtr, Flavor::ClassicTbc]);
    assert_eq!(ajour.config.wow.flavor, Flavor::RetailPtr);
    assert_eq!(ajour.mode, Mode::MyAddons(Flavor::RetailPtr));
    for flavor in Flavor::ALL {
        assert_eq!(ajour.state.my_addons.get(flavor), Some(&State::Loading));
    }
}

#[test]
fn a_valid_flavor_stays_chosen() {
    let mut ajour = program();
    ajour.config.wow.flavor = Flavor::ClassicTbc;
    let step = react(&mut ajour, &all_directories(), Message::Parse);
    assert_eq!(step.save, Save::Skip);
    assert_eq!(ajour.config.wow.flavor, Flavor::ClassicTbc);
    assert_eq!(ajour.mode, Mode::MyAddons(Flavor::Retail));
}

#[test]
fn without_folders_the_user_is_welcomed() {
    let mut ajour = program();
    ajour.config.wow.flavor = Flavor::ClassicEra;
    let step = react(&mut ajour, &nowhere(), Message::Parse);
    assert_eq!(step, Step::none());
    assert_eq!(ajour.state.my_addons.get(Flavor::ClassicEra), Some(&State::Start));
    assert_eq!(ajour.state.my_addons.get(Flavor::Retail), None);
    assert!(ajour.valid_flavors.is_empty());
    assert_eq!(ajour.config.wow.flavor, Flavor::ClassicEra);
}

#[test]
fn reading_ends_at_the_first_flavor_without_a_folder() {
    let mut dirs = all_directories();
    *dirs.addons.slot_mut(Flavor::RetailBeta) = None;
    let mut ajour = program();
    let step = react(&mut ajour, &dirs, Message::Parse);
    assert_eq!(read_flavors(&step), [Flavor::Retail, Flavor::RetailPtr]);
    assert_eq!(ajour.state.my_addons.get(Flavor::Retail), Some(&State::Start));
    assert_eq!(ajour.state.my_addons.get(Flavor::RetailPtr), Some(&State::Loading));
    assert_eq!(ajour.config.wow.flavor, Flavor::RetailPtr);
}

#[test]
fn a_flavor_that_is_found_again_at_once_is_noted_once() {
    let mut dirs = nowhere();
    *dirs.addons.slot_mut(Flavor::Retail) = directory("/retail", true);
    let mut ajour = program();
    react(&mut ajour, &dirs, Message::Parse);
    react(&mut ajour, &dirs, Message::Parse);
    assert_eq!(ajour.valid_flavors, [Flavor::Retail]);
    let mut ajour = program();
    react(&mut ajour, &all_directories(), Message::Parse);
    react(&mut ajour, &all_directories(), Message::Parse);
    assert_eq!(
        ajour.valid_flavors,
        [Flavor::RetailPtr, Flavor::ClassicTbc, Flavor::RetailPtr, Flavor::ClassicTbc]
    );
}

#[test]
fn tasks_are_left_undone_where_settings_must_be_saved_and_are_not() {
    let step = || {
        let mut ajour = program();
        react(&mut ajour, &all_directories(), Message::Parse)
    };
    assert_eq!(step().after_save(Err("disk full".to_owned())), Err("disk full".to_owned()));
    assert_eq!(step().after_save(Ok(())).map(|tasks| tasks.len()), Ok(7));
    let mut step = Step::perform(Task::Parse);
    step.save = Save::Attempt;
    assert_eq!(step.after_save(Err("disk full".to_owned())), Ok(vec![Task::Parse]));
}

#[test]
fn refreshing_reads_everything_anew() {
    let mut ajour = with_addons(vec![addon("a")]);
    ajour.expanded_type = ExpandType::Details(addon("a"));
    let step = interact(&mut ajour, Interaction::Refresh);
    assert_eq!(step, Step::perform(Task::Parse));
    assert_eq!(ajour.addons, FlavorMap::new());
    assert_eq!(ajour.state.my_addons.get(Flavor::Retail), Some(&State::Loading));
    assert_eq!(ajour.expanded_type, ExpandType::Nothing);
    assert!(!ajour.is_showing_settings);
}

#[test]
fn another_folder_of_the_game_is_read() {
    let mut ajour = with_addons(vec![addon("a")]);
    ajour.state.insert(Mode::MyAddons(Flavor::Retail), State::Ready);
    ajour.state.insert(Mode::Catalog, State::Ready);
    let path = Some(PathBuf::from("/games/wow"));
    let step = react(&mut ajour, &nowhere(), Message::UpdateWowDirectory(path.clone()));
    assert_eq!(step.save, Save::Attempt);
    assert_eq!(step.tasks, vec![Task::Parse]);
    assert_eq!(ajour.config.wow.directory, path);
    assert_eq!(ajour.addons, FlavorMap::new());
    assert_eq!(ajour.state.my_addons.get(Flavor::Retail), Some(&State::Loading));
    assert_eq!(ajour.state.my_addons.get(Flavor::ClassicEra), None);
    assert_eq!(ajour.state.catalog, Some(State::Ready));
    let step = react(&mut ajour, &nowhere(), Message::UpdateWowDirectory(None));
    assert_eq!(step, Step::none());
    assert_eq!(ajour.config.wow.directory, path);
}

#[test]
fn addons_that_are_read_are_listed_by_their_states() {
    let mut ajour = program();
    ajour.config.addons.ignored.insert(Flavor::Retail, vec!["c".to_owned()]);
    let mut current = addon("d");
    current.release_channel = channel("Beta");
    let message = Message::ParsedAddons(
        Flavor::Retail,
        Ok(vec![
            current,
            in_state("a", AddonState::Corrupted),
            addon("b"),
            addon("c"),
        ]),
    );
    let step = react(&mut ajour, &nowhere(), message);
    assert_eq!(step, Step::none());
    let shown: Vec<(&str, &AddonState)> = listed(&ajour)
        .iter()
        .map(|a| (a.primary_folder_id.as_str(), &a.state))
        .collect();
    assert_eq!(
        shown,
        [
            ("b", &AddonState::Updatable),
            ("c", &AddonState::Ignored),
            ("a", &AddonState::Corrupted),
            ("d", &AddonState::Ajour(None)),
        ]
    );
    assert_eq!(
        ajour.header_state.previous_sort_direction,
        Some(ajour::state::SortDirection::Desc)
    );
    assert_eq!(
        ajour.header_state.previous_column_key,
        Some(ajour::config::ColumnKey::Status)
    );
    assert_eq!(ajour.state.my_addons.get(Flavor::Retail), Some(&State::Ready));
}

#[test]
fn addons_that_cannot_be_read_leave_the_list() {
    let mut ajour = with_addons(vec![addon("a")]);
    let message = Message::ParsedAddons(Flavor::Retail, Err("broken".to_owned()));
    assert_eq!(react(&mut ajour, &nowhere(), message), Step::none());
    assert_eq!(listed(&ajour), &vec![addon("a")]);
    assert_eq!(ajour.state.my_addons.get(Flavor::Retail), Some(&State::Ready));
    assert_eq!(ajour.error, None);
}

#[test]
fn an_ignored_addon_stays_ignored_when_it_is_read_again() {
    let mut ajour = with_addons(vec![addon("a")]);
    interact(&mut ajour, Interaction::Ignore("a".to_owned()));
    let message = Message::ParsedAddons(Flavor::Retail, Ok(vec![addon("a")]));
    react(&mut ajour, &nowhere(), message);
    assert_eq!(listed(&ajour)[0].state, AddonState::Ignored);
}
