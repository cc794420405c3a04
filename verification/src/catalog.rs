//! The catalog of addons that can be installed, and the installs that are under way.
use crate::addon::{Addon, AddonView};
use crate::list::{Condition, Test};
use crate::text::{decimal, is_decimal_of};
use crate::wow::Flavor;
use vstd::prelude::*;

verus! {

/// A service that catalog entries come from.
#[derive(Debug, Clone, Copy, PartialEq, Eq, Structural)]
pub enum Source {
    Curse,
    Tukui,
    WowI,
}

impl DeepView for Source {
    type V = Source;

    open spec fn deep_view(&self) -> Source {
        *self
    }
}

/// A version of the game that an entry is made for.
#[derive(Debug, Clone, Copy, PartialEq, Eq, Structural)]
pub struct GameVersion {
    pub flavor: Flavor,
    /// The version's place among versions: versions compare as their ranks do.
    pub rank: i64,
}

impl DeepView for GameVersion {
    type V = GameVersion;

    open spec fn deep_view(&self) -> GameVersion {
        *self
    }
}

/// An entry of the catalog.
#[derive(Debug, PartialEq, Eq)]
pub struct CatalogAddon {
    pub id: i32,
    pub name: String,
    pub summary: String,
    pub source: Source,
    pub categories: Vec<String>,
    pub number_of_downloads: u64,
    pub game_versions: Vec<GameVersion>,
    /// When it was released, in nanoseconds since the epoch.
    pub date_released: Option<i128>,
}

/// What a [`CatalogAddon`] stands for.
pub struct CatalogAddonView {
    pub id: i32,
    pub name: Seq<char>,
    pub summary: Seq<char>,
    pub source: Source,
    pub categories: Seq<Seq<char>>,
    pub number_of_downloads: u64,
    pub game_versions: Seq<GameVersion>,
    pub date_released: Option<i128>,
}

impl DeepView for CatalogAddon {
    type V = CatalogAddonView;

    open spec fn deep_view(&self) -> CatalogAddonView {
        CatalogAddonView {
            id: self.id,
            name: self.name@,
            summary: self.summary@,
            source: self.source,
            categories: self.categories.deep_view(),
            number_of_downloads: self.number_of_downloads,
            game_versions: self.game_versions.deep_view(),
            date_released: self.date_released,
        }
    }
}

impl Clone for CatalogAddon {
    fn clone(&self) -> (copy: CatalogAddon)
        ensures
            copy.deep_view() == self.deep_view(),
    {
        let categories = self.categories.clone();
        assert(categories.deep_view() =~= self.categories.deep_view());
        let game_versions = self.game_versions.clone();
        assert(game_versions.deep_view() =~= self.game_versions.deep_view());
        CatalogAddon {
            id: self.id,
            name: self.name.clone(),
            summary: self.summary.clone(),
            source: self.source,
            categories,
            number_of_downloads: self.number_of_downloads,
            game_versions,
            date_released: self.date_released,
        }
    }
}

/// The catalog.
#[derive(Debug, PartialEq, Eq)]
pub struct Catalog {
    pub addons: Vec<CatalogAddon>,
}

impl DeepView for Catalog {
    type V = Seq<CatalogAddonView>;

    open spec fn deep_view(&self) -> Seq<CatalogAddonView> {
        self.addons.deep_view()
    }
}

/// A row of the search result.
#[derive(Debug, PartialEq, Eq)]
pub struct CatalogRow {
    pub addon: CatalogAddon,
}

impl DeepView for CatalogRow {
    type V = CatalogAddonView;

    open spec fn deep_view(&self) -> CatalogAddonView {
        self.addon.deep_view()
    }
}

/// The category to search in.
#[derive(Debug, PartialEq, Eq)]
pub enum CatalogCategory {
    All,
    Choice(String),
}

/// What a [`CatalogCategory`] stands for.
pub enum CategoryView {
    All,
    Choice(Seq<char>),
}

impl DeepView for CatalogCategory {
    type V = CategoryView;

    open spec fn deep_view(&self) -> CategoryView {
        match self {
            CatalogCategory::All => CategoryView::All,
            CatalogCategory::Choice(name) => CategoryView::Choice(name@),
        }
    }
}

/// The service to search.
#[derive(Debug, Clone, Copy, PartialEq, Eq, Structural)]
pub enum CatalogSource {
    Choice(Source),
}

/// How many rows a search may give.
#[derive(Debug, Clone, Copy, PartialEq, Eq, Structural)]
pub struct CatalogResultSize {
    pub rows: usize,
}

impl CatalogResultSize {
    /// The number of rows.
    pub fn as_usize(self) -> (rows: usize)
        ensures
            rows == self.rows,
    {
        self.rows
    }
}

/// How far an install from the catalog has come.
#[derive(Debug, Clone, Copy, PartialEq, Eq, Structural)]
pub enum CatalogInstallStatus {
    Downloading,
    Unpacking,
    Retry,
    Unavilable,
}

/// An install from the catalog.
#[derive(Debug, PartialEq, Eq)]
pub struct CatalogInstallAddon {
    /// The catalog entry.
    pub id: i32,
    pub status: CatalogInstallStatus,
    /// The addon, once it has been fetched.
    pub addon: Option<Addon>,
}

/// What a [`CatalogInstallAddon`] stands for.
pub struct InstallView {
    pub id: i32,
    pub status: CatalogInstallStatus,
    pub addon: Option<AddonView>,
}

impl DeepView for CatalogInstallAddon {
    type V = InstallView;

    open spec fn deep_view(&self) -> InstallView {
        InstallView { id: self.id, status: self.status, addon: self.addon.deep_view() }
    }
}

/// Being the install of the catalog entry.
pub open spec fn of_entry(id: i32) -> Condition<InstallView> {
    |install: InstallView| install.id == id
}

/// Being the install of another catalog entry.
pub open spec fn of_other_entry(id: i32) -> Condition<InstallView> {
    |install: InstallView| install.id != id
}

/// Having fetched the addon with the identifier.
pub open spec fn of_addon(id: Seq<char>) -> Condition<InstallView> {
    |install: InstallView| install.addon is Some && install.addon->0.primary_folder_id == id
}

/// Not having fetched the addon with the identifier.
pub open spec fn not_of_addon(id: Seq<char>) -> Condition<InstallView> {
    |install: InstallView| !(install.addon is Some && install.addon->0.primary_folder_id == id)
}

/// Being the install of the catalog entry whose number the text writes.
pub open spec fn of_entry_named(id: Seq<char>) -> Condition<InstallView> {
    |install: InstallView| decimal(install.id as int) == id
}

/// Tests [`of_entry`].
pub struct OfEntry {
    pub id: i32,
}

impl Test<CatalogInstallAddon> for OfEntry {
    open spec fn condition(&self) -> Condition<InstallView> {
        of_entry(self.id)
    }

    fn holds(&self, item: &CatalogInstallAddon) -> (result: bool) {
        item.id == self.id
    }
}

/// Tests [`of_other_entry`].
pub struct OfOtherEntry {
    pub id: i32,
}

impl Test<CatalogInstallAddon> for OfOtherEntry {
    open spec fn condition(&self) -> Condition<InstallView> {
        of_other_entry(self.id)
    }

    fn holds(&self, item: &CatalogInstallAddon) -> (result: bool) {
        item.id != self.id
    }
}

/// Tests [`of_addon`].
pub struct OfAddon<'a> {
    pub id: &'a String,
}

impl<'a> Test<CatalogInstallAddon> for OfAddon<'a> {
    open spec fn condition(&self) -> Condition<InstallView> {
        of_addon(self.id@)
    }

    fn holds(&self, item: &CatalogInstallAddon) -> (result: bool) {
        match &item.addon {
            Some(addon) => addon.primary_folder_id == *self.id,
            None => false,
        }
    }
}

/// Tests [`not_of_addon`].
pub struct NotOfAddon<'a> {
    pub id: &'a String,
}

impl<'a> Test<CatalogInstallAddon> for NotOfAddon<'a> {
    open spec fn condition(&self) -> Condition<InstallView> {
        not_of_addon(self.id@)
    }

    fn holds(&self, item: &CatalogInstallAddon) -> (result: bool) {
        match &item.addon {
            Some(addon) => !(addon.primary_folder_id == *self.id),
            None => true,
        }
    }
}

/// Tests [`of_entry_named`].
pub struct OfEntryNamed<'a> {
    pub id: &'a String,
}

impl<'a> Test<CatalogInstallAddon> for OfEntryNamed<'a> {
    open spec fn condition(&self) -> Condition<InstallView> {
        of_entry_named(self.id@)
    }

    fn holds(&self, item: &CatalogInstallAddon) -> (result: bool) {
        is_decimal_of(item.id, self.id.as_str())
    }
}

} // verus!
