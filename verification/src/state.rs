//! The state of the program.
use crate::addon::{Addon, AddonView};
use crate::catalog::{
    Catalog, CatalogAddonView, CatalogCategory, CatalogInstallAddon, CatalogResultSize, CatalogRow,
    CatalogSource, CategoryView, InstallView,
};
use crate::config::{CatalogColumnKey, ColumnKey, Config, ConfigView, Length};
use crate::flavor_map::FlavorMap;
use crate::wow::Flavor;
use std::path::PathBuf;
use vstd::prelude::*;

verus! {

/// What the window shows.
#[derive(Debug, Clone, Copy, PartialEq, Eq, Structural)]
pub enum Mode {
    MyAddons(Flavor),
    Catalog,
}

/// How far a mode is from showing something.
#[derive(Debug, Clone, Copy, PartialEq, Eq, Structural)]
pub enum State {
    Start,
    Loading,
    Ready,
}

impl DeepView for State {
    type V = State;

    open spec fn deep_view(&self) -> State {
        *self
    }
}

/// The state of each mode.
#[derive(Debug, PartialEq, Eq)]
pub struct ModeMap {
    pub my_addons: FlavorMap<State>,
    pub catalog: Option<State>,
}

impl DeepView for ModeMap {
    type V = Map<Mode, State>;

    open spec fn deep_view(&self) -> Map<Mode, State> {
        Map::new(|mode: Mode| self.slot(mode) is Some, |mode: Mode| self.slot(mode)->0)
    }
}

impl ModeMap {
    /// What is kept for the mode.
    pub open spec fn slot(&self, mode: Mode) -> Option<State> {
        match mode {
            Mode::MyAddons(flavor) => self.my_addons.slot(flavor),
            Mode::Catalog => self.catalog,
        }
    }

    /// Puts the state of a mode in.
    pub fn insert(&mut self, mode: Mode, state: State)
        ensures
            final(self).deep_view() == old(self).deep_view().insert(mode, state),
    {
        match mode {
            Mode::MyAddons(flavor) => {
                let slot = self.my_addons.slot_mut(flavor);
                *slot = Some(state);
            },
            Mode::Catalog => {
                self.catalog = Some(state);
            },
        }
    }

    /// Sets the flavor's list loading, where it has a state at all.
    fn set_loading(&mut self, flavor: Flavor)
        ensures
            forall|mode: Mode| #[trigger]
                final(self).slot(mode) == if mode == Mode::MyAddons(flavor) && old(self).slot(mode)
                    is Some {
                    Some(State::Loading)
                } else {
                    old(self).slot(mode)
                },
    {
        if self.my_addons.get(flavor).is_some() {
            let slot = self.my_addons.slot_mut(flavor);
            *slot = Some(State::Loading);
        }
    }

    /// Sets every list of installed addons loading that has a state at all.
    pub fn set_all_loading(&mut self)
        ensures
            final(self).deep_view() == all_loading(old(self).deep_view()),
    {
        self.set_loading(Flavor::Retail);
        self.set_loading(Flavor::RetailPtr);
        self.set_loading(Flavor::RetailBeta);
        self.set_loading(Flavor::ClassicEra);
        self.set_loading(Flavor::ClassicTbc);
        self.set_loading(Flavor::ClassicPtr);
        self.set_loading(Flavor::ClassicBeta);
        assert(self.deep_view() =~= all_loading(old(self).deep_view()));
    }
}

/// The states with every list of installed addons loading that had a state at all.
pub open spec fn all_loading(states: Map<Mode, State>) -> Map<Mode, State> {
    Map::new(
        |mode: Mode| states.contains_key(mode),
        |mode: Mode|
            if mode is MyAddons {
                State::Loading
            } else {
                states[mode]
            },
    )
}

/// Which of an addon's versions is meant.
#[derive(Debug, Clone, Copy, PartialEq, Eq, Structural)]
pub enum AddonVersionKey {
    Local,
    Remote,
}

/// A changelog, and where to read all of it.
#[derive(Debug, PartialEq, Eq)]
pub struct ChangelogPayload {
    pub changelog: String,
    pub url: String,
}

/// What a [`ChangelogPayload`] stands for.
pub struct PayloadView {
    pub changelog: Seq<char>,
    pub url: Seq<char>,
}

impl DeepView for ChangelogPayload {
    type V = PayloadView;

    open spec fn deep_view(&self) -> PayloadView {
        PayloadView { changelog: self.changelog@, url: self.url@ }
    }
}

/// How far an addon's changelog is.
#[derive(Debug, PartialEq, Eq)]
pub enum Changelog {
    Request(Addon, AddonVersionKey),
    Loading(Addon, AddonVersionKey),
    Loaded(Addon, ChangelogPayload, AddonVersionKey),
}

/// What a [`Changelog`] stands for.
pub enum ChangelogView {
    Request(AddonView, AddonVersionKey),
    Loading(AddonView, AddonVersionKey),
    Loaded(AddonView, PayloadView, AddonVersionKey),
}

impl DeepView for Changelog {
    type V = ChangelogView;

    open spec fn deep_view(&self) -> ChangelogView {
        match self {
            Changelog::Request(addon, key) => ChangelogView::Request(addon.deep_view(), *key),
            Changelog::Loading(addon, key) => ChangelogView::Loading(addon.deep_view(), *key),
            Changelog::Loaded(addon, payload, key) => ChangelogView::Loaded(
                addon.deep_view(),
                payload.deep_view(),
                *key,
            ),
        }
    }
}

/// What is unfolded below an addon.
#[derive(Debug, PartialEq, Eq)]
pub enum ExpandType {
    Details(Addon),
    Changelog(Changelog),
    Nothing,
}

/// What an [`ExpandType`] stands for.
pub enum ExpandView {
    Details(AddonView),
    Changelog(ChangelogView),
    Nothing,
}

impl DeepView for ExpandType {
    type V = ExpandView;

    open spec fn deep_view(&self) -> ExpandView {
        match self {
            ExpandType::Details(addon) => ExpandView::Details(addon.deep_view()),
            ExpandType::Changelog(changelog) => ExpandView::Changelog(changelog.deep_view()),
            ExpandType::Nothing => ExpandView::Nothing,
        }
    }
}

/// Which way a list is sorted.
#[derive(Debug, Clone, Copy, PartialEq, Eq, Structural)]
pub enum SortDirection {
    Asc,
    Desc,
}

impl SortDirection {
    /// The other direction.
    pub open spec fn spec_toggle(self) -> SortDirection {
        match self {
            SortDirection::Asc => SortDirection::Desc,
            SortDirection::Desc => SortDirection::Asc,
        }
    }

    /// The other direction.
    pub fn toggle(self) -> (other: SortDirection)
        ensures
            other == self.spec_toggle(),
    {
        match self {
            SortDirection::Asc => SortDirection::Desc,
            SortDirection::Desc => SortDirection::Asc,
        }
    }
}

/// A column of a list, as it is shown.
#[derive(Debug, Clone, Copy, PartialEq, Eq, Structural)]
pub struct ColumnState<K> {
    pub key: K,
    pub width: Length,
    pub hidden: bool,
}

/// The head of a list.
#[derive(Debug, PartialEq, Eq)]
pub struct HeaderState<K> {
    pub columns: Vec<ColumnState<K>>,
    pub previous_sort_direction: Option<SortDirection>,
    pub previous_column_key: Option<K>,
}

/// What a [`HeaderState`] stands for.
pub struct HeaderView<K> {
    pub columns: Seq<ColumnState<K>>,
    pub previous_sort_direction: Option<SortDirection>,
    pub previous_column_key: Option<K>,
}

impl<K> DeepView for HeaderState<K> {
    type V = HeaderView<K>;

    open spec fn deep_view(&self) -> HeaderView<K> {
        HeaderView {
            columns: self.columns@,
            previous_sort_direction: self.previous_sort_direction,
            previous_column_key: self.previous_column_key,
        }
    }
}

/// What the catalog is searched for, and what was found.
#[derive(Debug, PartialEq, Eq)]
pub struct CatalogSearchState {
    pub catalog_rows: Vec<CatalogRow>,
    pub query: Option<String>,
    pub result_size: CatalogResultSize,
    pub categories: Vec<CatalogCategory>,
    pub category: CatalogCategory,
    pub source: CatalogSource,
}

/// What a [`CatalogSearchState`] stands for.
pub struct SearchView {
    pub catalog_rows: Seq<CatalogAddonView>,
    pub query: Option<Seq<char>>,
    pub result_size: CatalogResultSize,
    pub categories: Seq<CategoryView>,
    pub category: CategoryView,
    pub source: CatalogSource,
}

impl DeepView for CatalogSearchState {
    type V = SearchView;

    open spec fn deep_view(&self) -> SearchView {
        SearchView {
            catalog_rows: self.catalog_rows.deep_view(),
            query: self.query.deep_view(),
            result_size: self.result_size,
            categories: self.categories.deep_view(),
            category: self.category.deep_view(),
            source: self.source,
        }
    }
}

/// A release of this program, by the caller's number for it.
#[derive(Debug, Clone, Copy, PartialEq, Eq, Structural)]
pub struct Release {
    pub handle: u64,
}

/// How an update of this program goes.
#[derive(Debug, Clone, Copy, PartialEq, Eq, Structural)]
pub enum SelfUpdateStatus {
    InProgress,
    Failed,
}

/// Updating this program.
#[derive(Debug, Clone, Copy, PartialEq, Eq, Structural)]
pub struct SelfUpdateState {
    pub latest_release: Option<Release>,
    pub status: Option<SelfUpdateStatus>,
}

/// Backing addons up.
#[derive(Debug, Clone, Copy, PartialEq, Eq, Structural)]
pub struct BackupState {
    pub backing_up: bool,
    /// When the last backup was made, in nanoseconds since the epoch.
    pub last_backup: Option<i128>,
}

/// A color theme.
#[derive(Debug, PartialEq, Eq)]
pub struct Theme {
    pub name: String,
    /// The theme's place among themes: themes compare as their ranks do.
    pub rank: i64,
}

/// What a [`Theme`] stands for.
pub struct ThemeView {
    pub name: Seq<char>,
    pub rank: i64,
}

impl DeepView for Theme {
    type V = ThemeView;

    open spec fn deep_view(&self) -> ThemeView {
        ThemeView { name: self.name@, rank: self.rank }
    }
}

/// The operating system that the program was built for.
#[derive(Debug, Clone, Copy, PartialEq, Eq, Structural)]
pub enum Platform {
    Windows,
    MacOs,
    Linux,
}

/// The graphics interface that the program was built with.
#[derive(Debug, Clone, Copy, PartialEq, Eq, Structural)]
pub enum Renderer {
    OpenGl,
    Wgpu,
}

/// The places of the states of addons: states compare as their ranks do. Where ranks are equal, the
/// order of the fields decides.
#[derive(Debug, Clone, Copy, PartialEq, Eq, Structural)]
pub struct StateRanks {
    pub ajour: i64,
    pub corrupted: i64,
    pub downloading: i64,
    pub fingerprint: i64,
    pub ignored: i64,
    pub unpacking: i64,
    pub updatable: i64,
}

/// The places of the services: services compare as their ranks do. Where ranks are equal, the order
/// of the fields decides.
#[derive(Debug, Clone, Copy, PartialEq, Eq, Structural)]
pub struct ServiceRanks {
    pub curse: i64,
    pub tukui: i64,
    pub wowi: i64,
}

/// The order in which values are listed that have no order of their own.
#[derive(Debug, Clone, Copy, PartialEq, Eq, Structural)]
pub struct Collation {
    pub states: StateRanks,
    pub repositories: ServiceRanks,
    pub sources: ServiceRanks,
}

/// The program.
#[derive(Debug, PartialEq, Eq)]
pub struct Ajour {
    pub state: ModeMap,
    pub mode: Mode,
    pub error: Option<String>,
    pub addons: FlavorMap<Vec<Addon>>,
    pub catalog: Option<Catalog>,
    pub catalog_install_addons: FlavorMap<Vec<CatalogInstallAddon>>,
    pub catalog_search_state: CatalogSearchState,
    pub config: Config,
    pub valid_flavors: Vec<Flavor>,
    pub expanded_type: ExpandType,
    pub is_showing_settings: bool,
    pub self_update_state: SelfUpdateState,
    pub backup_state: BackupState,
    pub themes: Vec<(String, Theme)>,
    /// The caller's number for the fingerprint cache, once it is loaded.
    pub fingerprint_cache: Option<u64>,
    /// The caller's number for the addon cache, once it is loaded.
    pub addon_cache: Option<u64>,
    pub header_state: HeaderState<ColumnKey>,
    pub catalog_header_state: HeaderState<CatalogColumnKey>,
    pub collation: Collation,
    pub platform: Platform,
    pub renderer: Renderer,
}

/// What an [`Ajour`] stands for.
pub struct AjourView {
    pub state: Map<Mode, State>,
    pub mode: Mode,
    pub error: Option<Seq<char>>,
    pub addons: Map<Flavor, Seq<AddonView>>,
    pub catalog: Option<Seq<CatalogAddonView>>,
    pub installs: Map<Flavor, Seq<InstallView>>,
    pub search: SearchView,
    pub config: ConfigView,
    pub valid_flavors: Seq<Flavor>,
    pub expanded_type: ExpandView,
    pub is_showing_settings: bool,
    pub self_update_state: SelfUpdateState,
    pub backup_state: BackupState,
    pub themes: Seq<(Seq<char>, ThemeView)>,
    pub fingerprint_cache: Option<u64>,
    pub addon_cache: Option<u64>,
    pub header: HeaderView<ColumnKey>,
    pub catalog_header: HeaderView<CatalogColumnKey>,
    pub collation: Collation,
    pub platform: Platform,
    pub renderer: Renderer,
}

impl DeepView for Ajour {
    type V = AjourView;

    open spec fn deep_view(&self) -> AjourView {
        AjourView {
            state: self.state.deep_view(),
            mode: self.mode,
            error: self.error.deep_view(),
            addons: self.addons.deep_view(),
            catalog: self.catalog.deep_view(),
            installs: self.catalog_install_addons.deep_view(),
            search: self.catalog_search_state.deep_view(),
            config: self.config.deep_view(),
            valid_flavors: self.valid_flavors@,
            expanded_type: self.expanded_type.deep_view(),
            is_showing_settings: self.is_showing_settings,
            self_update_state: self.self_update_state,
            backup_state: self.backup_state,
            themes: self.themes.deep_view(),
            fingerprint_cache: self.fingerprint_cache,
            addon_cache: self.addon_cache,
            header: self.header_state.deep_view(),
            catalog_header: self.catalog_header_state.deep_view(),
            collation: self.collation,
            platform: self.platform,
            renderer: self.renderer,
        }
    }
}

/// A folder that holds addons.
#[derive(Debug, PartialEq, Eq)]
pub struct AddonDirectory {
    pub path: PathBuf,
    /// Whether the folder is there.
    pub exists: bool,
}

impl DeepView for AddonDirectory {
    type V = AddonDirectory;

    open spec fn deep_view(&self) -> AddonDirectory {
        *self
    }
}

/// The folders that the settings lead to, as they are found on disk.
#[derive(Debug, PartialEq, Eq)]
pub struct Directories {
    /// Where each flavor's addons are installed.
    pub addons: FlavorMap<AddonDirectory>,
    /// Where each flavor's addons are downloaded to.
    pub downloads: FlavorMap<PathBuf>,
}

impl Directories {
    /// Where the flavor's addons are downloaded to.
    pub open spec fn download(&self, flavor: Flavor) -> Option<PathBuf> {
        self.downloads.slot(flavor)
    }

    /// Where the flavor's addons are installed.
    pub open spec fn addon(&self, flavor: Flavor) -> Option<PathBuf> {
        match self.addons.slot(flavor) {
            Some(directory) => Some(directory.path),
            None => None,
        }
    }

    /// Where the flavor's addons are downloaded to.
    pub fn get_download_directory_for_flavor(&self, flavor: Flavor) -> (path: Option<PathBuf>)
        ensures
            path == self.download(flavor),
    {
        match self.downloads.get(flavor) {
            Some(path) => Some(path.clone()),
            None => None,
        }
    }

    /// Where the flavor's addons are installed.
    pub fn get_addon_directory_for_flavor(&self, flavor: Flavor) -> (path: Option<PathBuf>)
        ensures
            path == self.addon(flavor),
    {
        match self.addons.get(flavor) {
            Some(directory) => Some(directory.path.clone()),
            None => None,
        }
    }
}

} // verus!
