//! What the program reacts to.
use crate::addon::{Addon, AddonFolder, ReleaseChannel};
use crate::catalog::{Catalog, CatalogCategory, CatalogResultSize, CatalogSource, Source};
use crate::config::{CatalogColumnKey, ColumnKey};
use crate::state::{AddonVersionKey, ExpandType, Mode, Release, Theme};
use crate::wow::Flavor;
use std::path::PathBuf;
use vstd::prelude::*;

verus! {

/// A part of the window with messages of its own.
#[derive(Debug, Clone, Copy, PartialEq, Eq, Structural)]
pub enum Component {
    /// The settings, with the caller's number for the message to them.
    Settings(u64),
}

/// A folder that the user can choose.
#[derive(Debug, Clone, Copy, PartialEq, Eq, Structural)]
pub enum DirectoryType {
    Wow,
    Backup,
}

/// Why an addon is downloaded.
#[derive(Debug, Clone, Copy, PartialEq, Eq, Structural)]
pub enum DownloadReason {
    Update,
    Install,
}

/// A change of the widths of two columns next to each other.
#[derive(Debug, Clone, Copy, PartialEq, Eq, Structural)]
pub enum ResizeEvent<K> {
    ResizeColumn { left: K, left_width: u16, right: K, right_width: u16 },
    Finished,
}

/// Something that the user did.
#[derive(Debug, PartialEq, Eq)]
pub enum Interaction {
    Refresh,
    Settings,
    Ignore(String),
    Unignore(String),
    OpenDirectory(DirectoryType),
    OpenLink(String),
    FlavorSelected(Flavor),
    ModeSelected(Mode),
    Expand(ExpandType),
    Delete(String),
    Update(String),
    UpdateAll,
    SortColumn(ColumnKey),
    SortCatalogColumn(CatalogColumnKey),
    ResizeColumn(ResizeEvent<ColumnKey>),
    ResizeCatalogColumn(ResizeEvent<CatalogColumnKey>),
    CatalogQuery(String),
    CatalogInstall(Source, Flavor, i32),
    CatalogCategorySelected(CatalogCategory),
    CatalogResultSizeSelected(CatalogResultSize),
    CatalogSourceSelected(CatalogSource),
    UpdateAjour,
}

/// What came of unpacking an addon.
#[derive(Debug, PartialEq, Eq)]
pub struct Unpacked {
    /// The folders that were unpacked.
    pub folders: Vec<AddonFolder>,
    /// The addon that [`crate::update::unpack_target`] names, with the folders given to it. Without
    /// one the folders change nothing about the addon.
    pub updated: Option<Addon>,
}

/// Something that happened. Failures come with their texts.
#[derive(Debug, PartialEq, Eq)]
pub enum Message {
    Component(Component),
    /// The caller's numbers for the fingerprint cache and the addon cache.
    CachesLoaded(Result<(u64, u64), String>),
    Parse,
    Interaction(Interaction),
    /// The folder of the game that was made out in the user's choice.
    UpdateWowDirectory(Option<PathBuf>),
    ParsedAddons(Flavor, Result<Vec<Addon>, String>),
    DownloadedAddon(DownloadReason, Flavor, String, Result<(), String>),
    /// Where it reports success, [`crate::update::refresh_standings`] follows: the version that is
    /// installed has changed.
    UnpackedAddon(DownloadReason, Flavor, String, Result<Unpacked, String>),
    UpdateFingerprint(Flavor, String, Result<(), String>),
    LatestRelease(Option<Release>),
    ReleaseChannelSelected(ReleaseChannel),
    ThemesLoaded(Vec<Theme>),
    UpdateBackupDirectory(Option<PathBuf>),
    LatestBackup(Option<i128>),
    BackupFinished(Result<i128, String>),
    CatalogDownloaded(Result<Catalog, String>),
    CatalogInstallAddonFetched(Flavor, i32, Result<Addon, String>),
    /// The changelog and where to read all of it.
    FetchedChangelog(Addon, AddonVersionKey, Result<(String, String), String>),
    /// The name of this program's file, and the file that the new release was put in.
    AjourUpdateDownloaded(Result<(String, PathBuf), String>),
    /// The new release could not be started.
    AjourRestartFailed(String),
    AddonCacheUpdated(Result<(), String>),
    AddonCacheEntryRemoved,
    Error(String),
    /// The size of the window, scaled to the user's setting.
    WindowResized(u32, u32),
    /// Any other event of the window.
    RuntimeEvent,
    Nothing,
}

} // verus!
