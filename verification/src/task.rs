//! What the program asks its surroundings to do.
use crate::addon::{Addon, AddonFolder, AddonView, FolderView};
use crate::catalog::Source;
use crate::message::{DirectoryType, DownloadReason};
use crate::state::{AddonVersionKey, Release};
use crate::wow::Flavor;
use std::path::PathBuf;
use vstd::prelude::*;

verus! {

/// Work that ends in a message.
#[derive(Debug, PartialEq, Eq)]
pub enum Task {
    /// Hand the message on to the settings. Ends as they say.
    UpdateSettings(u64),
    /// Do nothing. Ends in `Parse`.
    Parse,
    /// Find the latest backup in the folder. Ends in `LatestBackup`.
    LatestBackup(PathBuf),
    /// Read the addons in the folder. Ends in `ParsedAddons`.
    ReadAddonDirectory {
        addon_cache: Option<u64>,
        fingerprint_cache: Option<u64>,
        directory: PathBuf,
        flavor: Flavor,
    },
    /// Let the user choose a folder. Ends in `UpdateWowDirectory` or `UpdateBackupDirectory`.
    OpenDirectory(DirectoryType),
    /// Show the page in a browser. Ends in `Nothing`.
    OpenLink(String),
    /// Fetch a changelog. Ends in `FetchedChangelog`.
    FetchCurseChangelog { addon: Addon, key: AddonVersionKey, id: u32, file_id: i64 },
    /// Fetch a changelog. Ends in `FetchedChangelog`.
    FetchTukuiChangelog { addon: Addon, id: String, flavor: Flavor, key: AddonVersionKey },
    /// Make out where a changelog is. Ends in `FetchedChangelog`.
    FetchWowiChangelog { addon: Addon, id: String, key: AddonVersionKey },
    /// Remove the addon's entry from the addon cache. Ends in `AddonCacheEntryRemoved`.
    RemoveAddonCacheEntry { cache: u64, addon: Addon, flavor: Flavor },
    /// Write the addon's entry in the addon cache. Ends in `AddonCacheUpdated`.
    UpdateAddonCache { cache: u64, addon: Addon, flavor: Flavor },
    /// Download the addon. Ends in `DownloadedAddon`.
    DownloadAddon { reason: DownloadReason, flavor: Flavor, addon: Addon, to_directory: PathBuf },
    /// Unpack the addon. Ends in `UnpackedAddon`.
    UnpackAddon {
        reason: DownloadReason,
        flavor: Flavor,
        addon: Addon,
        from_directory: PathBuf,
        to_directory: PathBuf,
    },
    /// Take the fingerprint of an addon's folder. Ends in `UpdateFingerprint`.
    HashAddon { directory: PathBuf, folder_id: String, cache: u64, flavor: Flavor },
    /// Fetch the addon of a catalog entry. Ends in `CatalogInstallAddonFetched`.
    FetchLatestAddon { source: Source, id: i32, flavor: Flavor },
    /// Download a release of this program. Ends in `AjourUpdateDownloaded`.
    DownloadUpdate { bin_name: String, release: Release },
    /// Start the new release in place of this program. Ends the program, or ends in
    /// `AjourRestartFailed`.
    Restart { bin_name: String, path: PathBuf },
}

/// What a [`Task`] stands for.
pub enum TaskView {
    UpdateSettings(u64),
    Parse,
    LatestBackup(PathBuf),
    ReadAddonDirectory {
        addon_cache: Option<u64>,
        fingerprint_cache: Option<u64>,
        directory: PathBuf,
        flavor: Flavor,
    },
    OpenDirectory(DirectoryType),
    OpenLink(Seq<char>),
    FetchCurseChangelog { addon: AddonView, key: AddonVersionKey, id: u32, file_id: i64 },
    FetchTukuiChangelog { addon: AddonView, id: Seq<char>, flavor: Flavor, key: AddonVersionKey },
    FetchWowiChangelog { addon: AddonView, id: Seq<char>, key: AddonVersionKey },
    RemoveAddonCacheEntry { cache: u64, addon: AddonView, flavor: Flavor },
    UpdateAddonCache { cache: u64, addon: AddonView, flavor: Flavor },
    DownloadAddon {
        reason: DownloadReason,
        flavor: Flavor,
        addon: AddonView,
        to_directory: PathBuf,
    },
    UnpackAddon {
        reason: DownloadReason,
        flavor: Flavor,
        addon: AddonView,
        from_directory: PathBuf,
        to_directory: PathBuf,
    },
    HashAddon { directory: PathBuf, folder_id: Seq<char>, cache: u64, flavor: Flavor },
    FetchLatestAddon { source: Source, id: i32, flavor: Flavor },
    DownloadUpdate { bin_name: Seq<char>, release: Release },
    Restart { bin_name: Seq<char>, path: PathBuf },
}

impl DeepView for Task {
    type V = TaskView;

    open spec fn deep_view(&self) -> TaskView {
        match self {
            Task::UpdateSettings(message) => TaskView::UpdateSettings(*message),
            Task::Parse => TaskView::Parse,
            Task::LatestBackup(directory) => TaskView::LatestBackup(*directory),
            Task::ReadAddonDirectory { addon_cache, fingerprint_cache, directory, flavor } =>
                TaskView::ReadAddonDirectory {
                addon_cache: *addon_cache,
                fingerprint_cache: *fingerprint_cache,
                directory: *directory,
                flavor: *flavor,
            },
            Task::OpenDirectory(kind) => TaskView::OpenDirectory(*kind),
            Task::OpenLink(link) => TaskView::OpenLink(link@),
            Task::FetchCurseChangelog { addon, key, id, file_id } =>
                TaskView::FetchCurseChangelog {
                addon: addon.deep_view(),
                key: *key,
                id: *id,
                file_id: *file_id,
            },
            Task::FetchTukuiChangelog { addon, id, flavor, key } =>
                TaskView::FetchTukuiChangelog {
                addon: addon.deep_view(),
                id: id@,
                flavor: *flavor,
                key: *key,
            },
            Task::FetchWowiChangelog { addon, id, key } => TaskView::FetchWowiChangelog {
                addon: addon.deep_view(),
                id: id@,
                key: *key,
            },
            Task::RemoveAddonCacheEntry { cache, addon, flavor } =>
                TaskView::RemoveAddonCacheEntry {
                cache: *cache,
                addon: addon.deep_view(),
                flavor: *flavor,
            },
            Task::UpdateAddonCache { cache, addon, flavor } => TaskView::UpdateAddonCache {
                cache: *cache,
                addon: addon.deep_view(),
                flavor: *flavor,
            },
            Task::DownloadAddon { reason, flavor, addon, to_directory } =>
                TaskView::DownloadAddon {
                reason: *reason,
                flavor: *flavor,
                addon: addon.deep_view(),
                to_directory: *to_directory,
            },
            Task::UnpackAddon { reason, flavor, addon, from_directory, to_directory } =>
                TaskView::UnpackAddon {
                reason: *reason,
                flavor: *flavor,
                addon: addon.deep_view(),
                from_directory: *from_directory,
                to_directory: *to_directory,
            },
            Task::HashAddon { directory, folder_id, cache, flavor } => TaskView::HashAddon {
                directory: *directory,
                folder_id: folder_id@,
                cache: *cache,
                flavor: *flavor,
            },
            Task::FetchLatestAddon { source, id, flavor } => TaskView::FetchLatestAddon {
                source: *source,
                id: *id,
                flavor: *flavor,
            },
            Task::DownloadUpdate { bin_name, release } => TaskView::DownloadUpdate {
                bin_name: bin_name@,
                release: *release,
            },
            Task::Restart { bin_name, path } => TaskView::Restart {
                bin_name: bin_name@,
                path: *path,
            },
        }
    }
}

/// Whether the settings are to be written to disk.
#[derive(Debug, Clone, Copy, PartialEq, Eq, Structural)]
pub enum Save {
    /// They have not changed.
    Skip,
    /// They have changed. That they cannot be written stays without consequence.
    Attempt,
    /// They have changed. The tasks are to be done only if they can be written.
    Require,
}

/// What is to be done after a message: the settings are written, then the folders are deleted,
/// then the tasks are done.
#[derive(Debug, PartialEq, Eq)]
pub struct Step {
    pub save: Save,
    /// Folders to delete from disk. That they cannot be deleted stays without consequence.
    pub delete: Vec<AddonFolder>,
    pub tasks: Vec<Task>,
}

/// What a [`Step`] stands for.
pub struct StepView {
    pub save: Save,
    pub delete: Seq<FolderView>,
    pub tasks: Seq<TaskView>,
}

impl DeepView for Step {
    type V = StepView;

    open spec fn deep_view(&self) -> StepView {
        StepView {
            save: self.save,
            delete: self.delete.deep_view(),
            tasks: self.tasks.deep_view(),
        }
    }
}

/// Nothing is to be done.
pub open spec fn idle() -> StepView {
    StepView { save: Save::Skip, delete: Seq::empty(), tasks: Seq::empty() }
}

/// One task is to be done.
pub open spec fn one_task(task: TaskView) -> StepView {
    StepView { tasks: seq![task], ..idle() }
}

impl Step {
    /// Nothing is to be done.
    pub fn none() -> (step: Step)
        ensures
            step.deep_view() == idle(),
    {
        let step = Step { save: Save::Skip, delete: Vec::new(), tasks: Vec::new() };
        assert(step.delete.deep_view() =~= Seq::empty());
        assert(step.tasks.deep_view() =~= Seq::empty());
        step
    }

    /// The settings are to be written, and nothing else.
    pub fn save(save: Save) -> (step: Step)
        ensures
            step.deep_view() == (StepView { save, ..idle() }),
    {
        let mut step = Step::none();
        step.save = save;
        step
    }

    /// One task is to be done.
    pub fn perform(task: Task) -> (step: Step)
        ensures
            step.deep_view() == one_task(task.deep_view()),
    {
        let mut step = Step::none();
        step.tasks.push(task);
        assert(step.tasks.deep_view() =~= seq![task.deep_view()]);
        step
    }

    /// The tasks are to be done.
    pub fn batch(tasks: Vec<Task>) -> (step: Step)
        ensures
            step.deep_view() == (StepView { tasks: tasks.deep_view(), ..idle() }),
    {
        let mut step = Step::none();
        step.tasks = tasks;
        step
    }

    /// The tasks that are to be done once it is known whether the settings could be written, or
    /// the error that keeps them from being done.
    pub fn after_save(self, saved: Result<(), String>) -> (tasks: Result<Vec<Task>, String>)
        ensures
            match (self.save, saved) {
                (Save::Require, Err(error)) => tasks == Err::<Vec<Task>, String>(error),
                _ => tasks == Ok::<Vec<Task>, String>(self.tasks),
            },
    {
        match (self.save, saved) {
            (Save::Require, Err(error)) => Err(error),
            _ => Ok(self.tasks),
        }
    }
}

} // verus!
