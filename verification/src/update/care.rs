//! What every reaction keeps.
use super::addons::{
    all_updated, channel_selected, deleted, fingerprinted, ignored, unignored, updated,
};
use super::catalog::{catalog_downloaded, search_changed};
use super::columns::{
    catalog_column_resized, catalog_column_sorted, column_resized, column_sorted, columns_saved,
};
use super::expand::{changelog_fetched, expanded};
use super::install::{
    downloaded, install_fetched, install_requested, install_unavailable, unpacked, went_wrong,
};
use super::listing::{
    addons_parsed, caches_loaded, flavor_selected, parsed, refreshed, wow_directory_updated,
};
use super::outcome::Outcome;
use super::upkeep::{
    backup_directory_updated, backup_finished, latest_backup_found, latest_release_found,
    self_update_downloaded, self_update_failed, self_update_requested,
};
use super::window::{failed, mode_selected, settings_toggled, themes_loaded, window_resized};
use super::{interaction, transition};
use crate::addon::{AddonView, FolderView};
use crate::catalog::{CatalogAddonView, Source};
use crate::config::{channels_for, CatalogColumnKey, ColumnKey, ConfigView};
use crate::flavor_map::list_for;
use crate::message::{DownloadReason, Interaction, Message, ResizeEvent};
use crate::state::{
    AddonVersionKey, AjourView, Directories, ExpandView, Mode, PayloadView, Release, SearchView,
    ThemeView,
};
use crate::task::{Save, StepView};
use crate::wow::Flavor;
use std::path::PathBuf;
use vstd::prelude::*;

verus! {

/// The settings say the same. A flavor without a list counts as one with an empty list.
pub open spec fn same_settings(a: ConfigView, b: ConfigView) -> bool {
    &&& a.directory == b.directory
    &&& a.directories == b.directories
    &&& a.flavor == b.flavor
    &&& a.backup_directory == b.backup_directory
    &&& a.column_config == b.column_config
    &&& a.window_size == b.window_size
    &&& forall|flavor: Flavor| #[trigger]
        list_for(a.ignored, flavor) == list_for(b.ignored, flavor)
    &&& forall|flavor: Flavor| #[trigger]
        channels_for(a.release_channels, flavor) == channels_for(b.release_channels, flavor)
}

/// Settings that change are saved, folders are deleted only where that is asked for, the settings
/// are shown as given, the error is the given one, and how the program was built stays the same.
#[verifier::opaque]
spec fn is_careful(
    ajour: AjourView,
    result: Outcome,
    deletes: bool,
    shows_settings: bool,
    error: Option<Seq<char>>,
) -> bool {
    &&& result.ajour.error == error
    &&& result.ajour.is_showing_settings == shows_settings
    &&& result.step.delete.len() > 0 ==> deletes
    &&& result.step.save == Save::Skip ==> same_settings(ajour.config, result.ajour.config)
    &&& result.ajour.platform == ajour.platform
    &&& result.ajour.renderer == ajour.renderer
    &&& result.ajour.collation == ajour.collation
}

proof fn lemma_being_careful(
    ajour: AjourView,
    result: Outcome,
    deletes: bool,
    shows_settings: bool,
    error: Option<Seq<char>>,
)
    requires
        is_careful(ajour, result, deletes, shows_settings, error),
    ensures
        result.ajour.error == error,
        result.ajour.is_showing_settings == shows_settings,
        result.step.delete.len() > 0 ==> deletes,
        result.step.save == Save::Skip ==> same_settings(ajour.config, result.ajour.config),
        result.ajour.platform == ajour.platform,
        result.ajour.renderer == ajour.renderer,
        result.ajour.collation == ajour.collation,
{
    reveal(is_careful);
}

proof fn lemma_listing_is_careful(
    ajour: AjourView,
    dirs: Directories,
    caches: Option<(u64, u64)>,
    path: Option<PathBuf>,
    flavor: Flavor,
    addons: Option<Seq<AddonView>>,
)
    ensures
        is_careful(
            ajour,
            caches_loaded(ajour, caches),
            false,
            ajour.is_showing_settings,
            ajour.error,
        ),
        is_careful(ajour, parsed(ajour, dirs), false, ajour.is_showing_settings, ajour.error),
        is_careful(ajour, refreshed(ajour), false, false, ajour.error),
        is_careful(
            ajour,
            wow_directory_updated(ajour, path),
            false,
            ajour.is_showing_settings,
            ajour.error,
        ),
        is_careful(ajour, flavor_selected(ajour, flavor), false, false, ajour.error),
        is_careful(
            ajour,
            addons_parsed(ajour, flavor, addons),
            false,
            ajour.is_showing_settings,
            ajour.error,
        ),
{
    reveal(parsed);
    reveal(flavor_selected);
    reveal(addons_parsed);
    reveal(is_careful);
}

proof fn lemma_addons_are_careful(
    ajour: AjourView,
    directory: PathBuf,
    chosen: Option<PathBuf>,
    flavor: Flavor,
    id: Seq<char>,
    taken: bool,
)
    ensures
        is_careful(ajour, ignored(ajour, id), false, false, ajour.error),
        is_careful(ajour, unignored(ajour, id), false, ajour.is_showing_settings, ajour.error),
        is_careful(ajour, deleted(ajour, id), true, false, ajour.error),
        is_careful(ajour, updated(ajour, directory, id), false, false, ajour.error),
        is_careful(ajour, all_updated(ajour, chosen), false, false, ajour.error),
        is_careful(
            ajour,
            channel_selected(ajour, id),
            false,
            ajour.is_showing_settings,
            ajour.error,
        ),
        is_careful(
            ajour,
            fingerprinted(ajour, flavor, id, taken),
            false,
            ajour.is_showing_settings,
            ajour.error,
        ),
{
    reveal(ignored);
    reveal(unignored);
    reveal(deleted);
    reveal(updated);
    reveal(channel_selected);
    reveal(fingerprinted);
    reveal(all_updated);
    reveal(is_careful);
}

proof fn lemma_installing_is_careful(
    ajour: AjourView,
    dirs: Directories,
    reason: DownloadReason,
    flavor: Flavor,
    id: Seq<char>,
    error: Seq<char>,
    source: Source,
    entry: i32,
    addon: AddonView,
)
    ensures
        is_careful(
            ajour,
            downloaded(ajour, dirs, reason, flavor, id),
            false,
            ajour.is_showing_settings,
            ajour.error,
        ),
        is_careful(
            ajour,
            went_wrong(ajour, reason, flavor, id, error),
            false,
            ajour.is_showing_settings,
            Some(error),
        ),
        is_careful(
            ajour,
            install_requested(ajour, source, flavor, entry),
            false,
            false,
            ajour.error,
        ),
        is_careful(
            ajour,
            install_fetched(ajour, dirs, flavor, entry, addon),
            false,
            ajour.is_showing_settings,
            ajour.error,
        ),
        is_careful(
            ajour,
            install_unavailable(ajour, flavor, entry),
            false,
            ajour.is_showing_settings,
            ajour.error,
        ),
{
    reveal(install_requested);
    reveal(install_unavailable);
    reveal(downloaded);
    reveal(went_wrong);
    reveal(install_fetched);
    reveal(is_careful);
}

proof fn lemma_unpacking_is_careful(
    ajour: AjourView,
    dirs: Directories,
    reason: DownloadReason,
    flavor: Flavor,
    id: Seq<char>,
    folders: Seq<FolderView>,
    updated: Option<AddonView>,
)
    ensures
        is_careful(
            ajour,
            unpacked(ajour, dirs, reason, flavor, id, folders, updated),
            false,
            ajour.is_showing_settings,
            ajour.error,
        ),
{
    reveal(unpacked);
    reveal(is_careful);
}

proof fn lemma_columns_are_careful(
    ajour: AjourView,
    key: ColumnKey,
    catalog_key: CatalogColumnKey,
    event: ResizeEvent<ColumnKey>,
    catalog_event: ResizeEvent<CatalogColumnKey>,
)
    ensures
        is_careful(ajour, column_sorted(ajour, key), false, false, ajour.error),
        is_careful(ajour, catalog_column_sorted(ajour, catalog_key), false, false, ajour.error),
        is_careful(
            ajour,
            column_resized(ajour, event),
            false,
            ajour.is_showing_settings,
            ajour.error,
        ),
        is_careful(
            ajour,
            catalog_column_resized(ajour, catalog_event),
            false,
            ajour.is_showing_settings,
            ajour.error,
        ),
{
    reveal(column_sorted);
    reveal(columns_saved);
    reveal(catalog_column_sorted);
    reveal(column_resized);
    reveal(catalog_column_resized);
    reveal(is_careful);
}

proof fn lemma_expanding_is_careful(
    ajour: AjourView,
    expand_type: ExpandView,
    addon: AddonView,
    key: AddonVersionKey,
    payload: Option<PayloadView>,
)
    ensures
        is_careful(ajour, expanded(ajour, expand_type), false, false, ajour.error),
        is_careful(
            ajour,
            changelog_fetched(ajour, addon, key, payload),
            false,
            ajour.is_showing_settings,
            ajour.error,
        ),
{
    reveal(expanded);
    reveal(is_careful);
}

proof fn lemma_searching_is_careful(
    ajour: AjourView,
    catalog: Seq<CatalogAddonView>,
    search: SearchView,
)
    ensures
        is_careful(
            ajour,
            catalog_downloaded(ajour, catalog),
            false,
            ajour.is_showing_settings,
            ajour.error,
        ),
        is_careful(ajour, search_changed(ajour, search), false, false, ajour.error),
{
    reveal(search_changed);
    reveal(catalog_downloaded);
    reveal(is_careful);
}

proof fn lemma_upkeep_is_careful(
    ajour: AjourView,
    path: Option<PathBuf>,
    as_of: Option<i128>,
    backup: Result<i128, Seq<char>>,
    release: Option<Release>,
    text: Seq<char>,
    file: PathBuf,
)
    ensures
        is_careful(
            ajour,
            backup_directory_updated(ajour, path),
            false,
            ajour.is_showing_settings,
            ajour.error,
        ),
        is_careful(
            ajour,
            latest_backup_found(ajour, as_of),
            false,
            ajour.is_showing_settings,
            ajour.error,
        ),
        is_careful(
            ajour,
            backup_finished(ajour, backup),
            false,
            ajour.is_showing_settings,
            match backup {
                Ok(_) => ajour.error,
                Err(error) => Some(error),
            },
        ),
        is_careful(
            ajour,
            latest_release_found(ajour, release),
            false,
            ajour.is_showing_settings,
            ajour.error,
        ),
        is_careful(
            ajour,
            self_update_requested(ajour),
            false,
            ajour.is_showing_settings,
            ajour.error,
        ),
        is_careful(
            ajour,
            self_update_failed(ajour, text),
            false,
            ajour.is_showing_settings,
            Some(text),
        ),
        is_careful(
            ajour,
            self_update_downloaded(ajour, text, file),
            false,
            ajour.is_showing_settings,
            ajour.error,
        ),
{
    reveal(is_careful);
}

proof fn lemma_windows_are_careful(
    ajour: AjourView,
    error: Seq<char>,
    mode: Mode,
    width: u32,
    height: u32,
    themes: Seq<ThemeView>,
)
    ensures
        is_careful(ajour, failed(ajour, error), false, ajour.is_showing_settings, Some(error)),
        is_careful(ajour, settings_toggled(ajour), false, !ajour.is_showing_settings, ajour.error),
        is_careful(ajour, mode_selected(ajour, mode), false, false, ajour.error),
        is_careful(
            ajour,
            window_resized(ajour, width, height),
            false,
            ajour.is_showing_settings,
            ajour.error,
        ),
        is_careful(
            ajour,
            themes_loaded(ajour, themes),
            false,
            ajour.is_showing_settings,
            ajour.error,
        ),
{
    reveal(is_careful);
}

proof fn lemma_tasks_are_careful(ajour: AjourView, step: StepView)
    requires
        step.delete.len() == 0,
    ensures
        is_careful(ajour, Outcome { ajour, step }, false, ajour.is_showing_settings, ajour.error),
{
    reveal(is_careful);
}

/// Whether the settings are shown after something that the user did. Most of it closes them.
pub open spec fn settings_after(ajour: AjourView, message: Interaction) -> bool {
    match message {
        Interaction::Settings => !ajour.is_showing_settings,
        Interaction::Unignore(_)
        | Interaction::OpenDirectory(_)
        | Interaction::OpenLink(_)
        | Interaction::ResizeColumn(_)
        | Interaction::ResizeCatalogColumn(_)
        | Interaction::UpdateAjour => ajour.is_showing_settings,
        _ => false,
    }
}

proof fn lemma_interactions_are_careful(ajour: AjourView, dirs: Directories, message: Interaction)
    ensures
        is_careful(
            ajour,
            interaction(ajour, dirs, message),
            message is Delete,
            settings_after(ajour, message),
            ajour.error,
        ),
{
    let result = interaction(ajour, dirs, message);
    let flavor = ajour.config.flavor;
    let dir = dirs.download(flavor);
    match message {
        Interaction::Refresh => {
            lemma_listing_is_careful(ajour, dirs, None, None, flavor, None);
        },
        Interaction::FlavorSelected(chosen) => {
            lemma_listing_is_careful(ajour, dirs, None, None, chosen, None);
        },
        Interaction::Settings => {
            lemma_windows_are_careful(ajour, Seq::empty(), ajour.mode, 0, 0, Seq::empty());
        },
        Interaction::ModeSelected(mode) => {
            lemma_windows_are_careful(ajour, Seq::empty(), mode, 0, 0, Seq::empty());
        },
        Interaction::Ignore(id) => {
            lemma_addons_are_careful(ajour, dir->0, dir, flavor, id@, true);
        },
        Interaction::Unignore(id) => {
            lemma_addons_are_careful(ajour, dir->0, dir, flavor, id@, true);
        },
        Interaction::Delete(id) => {
            lemma_addons_are_careful(ajour, dir->0, dir, flavor, id@, true);
        },
        Interaction::Update(id) => {
            lemma_addons_are_careful(ajour, dir->0, dir, flavor, id@, true);
        },
        Interaction::UpdateAll => {
            lemma_addons_are_careful(ajour, dir->0, dir, flavor, Seq::empty(), true);
        },
        Interaction::OpenDirectory(_) => {
            lemma_tasks_are_careful(ajour, result.step);
        },
        Interaction::OpenLink(_) => {
            lemma_tasks_are_careful(ajour, result.step);
        },
        Interaction::Expand(expand_type) => {
            lemma_expanding_is_careful(
                ajour,
                expand_type.deep_view(),
                arbitrary(),
                AddonVersionKey::Local,
                None,
            );
        },
        Interaction::SortColumn(key) => {
            lemma_columns_are_careful(
                ajour,
                key,
                CatalogColumnKey::Title,
                ResizeEvent::Finished,
                ResizeEvent::Finished,
            );
        },
        Interaction::SortCatalogColumn(key) => {
            lemma_columns_are_careful(
                ajour,
                ColumnKey::Title,
                key,
                ResizeEvent::Finished,
                ResizeEvent::Finished,
            );
        },
        Interaction::ResizeColumn(event) => {
            lemma_columns_are_careful(
                ajour,
                ColumnKey::Title,
                CatalogColumnKey::Title,
                event,
                ResizeEvent::Finished,
            );
        },
        Interaction::ResizeCatalogColumn(event) => {
            lemma_columns_are_careful(
                ajour,
                ColumnKey::Title,
                CatalogColumnKey::Title,
                ResizeEvent::Finished,
                event,
            );
        },
        Interaction::CatalogQuery(query) => {
            lemma_searching_is_careful(
                ajour,
                Seq::empty(),
                SearchView { query: Some(query@), ..ajour.search },
            );
        },
        Interaction::CatalogCategorySelected(category) => {
            lemma_searching_is_careful(
                ajour,
                Seq::empty(),
                SearchView { category: category.deep_view(), ..ajour.search },
            );
        },
        Interaction::CatalogResultSizeSelected(result_size) => {
            lemma_searching_is_careful(
                ajour,
                Seq::empty(),
                SearchView { result_size, ..ajour.search },
            );
        },
        Interaction::CatalogSourceSelected(source) => {
            lemma_searching_is_careful(
                ajour,
                Seq::empty(),
                SearchView { source, ..ajour.search },
            );
        },
        Interaction::CatalogInstall(source, flavor, id) => {
            lemma_installing_is_careful(
                ajour,
                dirs,
                DownloadReason::Install,
                flavor,
                Seq::empty(),
                Seq::empty(),
                source,
                id,
                arbitrary(),
            );
        },
        Interaction::UpdateAjour => {
            lemma_upkeep_is_careful(
                ajour,
                None,
                None,
                Ok(0),
                None,
                Seq::empty(),
                arbitrary(),
            );
        },
    }
}

/// Whether the settings are shown after a message. Only what the user does opens or closes them.
pub open spec fn shows_settings_after(ajour: AjourView, message: Message) -> bool {
    match message {
        Message::Interaction(message) => settings_after(ajour, message),
        _ => ajour.is_showing_settings,
    }
}

/// The message deletes an addon.
pub open spec fn is_deletion(message: Message) -> bool {
    match message {
        Message::Interaction(Interaction::Delete(_)) => true,
        _ => false,
    }
}

/// The failure that the message reports, if it reports one that is shown.
pub open spec fn failure(message: Message) -> Option<Seq<char>> {
    match message {
        Message::DownloadedAddon(_, _, _, Err(error)) => Some(error@),
        Message::UnpackedAddon(_, _, _, Err(error)) => Some(error@),
        Message::BackupFinished(Err(error)) => Some(error@),
        Message::CatalogDownloaded(Err(error)) => Some(error@),
        Message::AjourUpdateDownloaded(Err(error)) => Some(error@),
        Message::AjourRestartFailed(error) => Some(error@),
        Message::AddonCacheUpdated(Err(error)) => Some(error@),
        Message::Error(error) => Some(error@),
        _ => None,
    }
}

/// The error that is shown after the message.
pub open spec fn error_after(ajour: AjourView, message: Message) -> Option<Seq<char>> {
    match failure(message) {
        Some(error) => Some(error),
        None => ajour.error,
    }
}

proof fn lemma_listing_messages_are_careful(ajour: AjourView, dirs: Directories, message: Message)
    requires
        message is CachesLoaded
            || message is Parse
            || message is UpdateWowDirectory
            || message is ParsedAddons,
    ensures
        is_careful(
            ajour,
            transition(ajour, dirs, message),
            is_deletion(message),
            shows_settings_after(ajour, message),
            error_after(ajour, message),
        ),
{
    let flavor = ajour.config.flavor;
    match message {
        Message::CachesLoaded(caches) => {
            lemma_listing_is_careful(ajour, dirs, caches.ok(), None, flavor, None);
        },
        Message::Parse => {
            lemma_listing_is_careful(ajour, dirs, None, None, flavor, None);
        },
        Message::UpdateWowDirectory(path) => {
            lemma_listing_is_careful(ajour, dirs, None, path, flavor, None);
        },
        Message::ParsedAddons(flavor, addons) => {
            lemma_listing_is_careful(ajour, dirs, None, None, flavor, addons.ok().deep_view());
        },
        _ => {},
    }
}

proof fn lemma_addon_messages_are_careful(ajour: AjourView, dirs: Directories, message: Message)
    requires
        message is UpdateFingerprint
            || message is ReleaseChannelSelected
            || message is FetchedChangelog,
    ensures
        is_careful(
            ajour,
            transition(ajour, dirs, message),
            is_deletion(message),
            shows_settings_after(ajour, message),
            error_after(ajour, message),
        ),
{
    let flavor = ajour.config.flavor;
    match message {
        Message::UpdateFingerprint(flavor, id, taken) => {
            lemma_addons_are_careful(ajour, arbitrary(), None, flavor, id@, taken is Ok);
        },
        Message::ReleaseChannelSelected(channel) => {
            lemma_addons_are_careful(
                ajour,
                arbitrary(),
                None,
                flavor,
                channel.deep_view(),
                true,
            );
        },
        Message::FetchedChangelog(addon, key, fetched) => {
            lemma_expanding_is_careful(
                ajour,
                ExpandView::Nothing,
                addon.deep_view(),
                key,
                match fetched {
                    Ok((changelog, url)) => Some(PayloadView { changelog: changelog@, url: url@ }),
                    Err(_) => None,
                },
            );
        },
        _ => {},
    }
}

proof fn lemma_install_messages_are_careful(ajour: AjourView, dirs: Directories, message: Message)
    requires
        message is DownloadedAddon
            || message is UnpackedAddon
            || message is CatalogInstallAddonFetched,
    ensures
        is_careful(
            ajour,
            transition(ajour, dirs, message),
            is_deletion(message),
            shows_settings_after(ajour, message),
            error_after(ajour, message),
        ),
{
    match message {
        Message::DownloadedAddon(reason, flavor, id, outcome) => {
            lemma_installing_is_careful(
                ajour,
                dirs,
                reason,
                flavor,
                id@,
                outcome->Err_0@,
                Source::Curse,
                0,
                arbitrary(),
            );
        },
        Message::UnpackedAddon(reason, flavor, id, Err(error)) => {
            lemma_installing_is_careful(
                ajour,
                dirs,
                reason,
                flavor,
                id@,
                error@,
                Source::Curse,
                0,
                arbitrary(),
            );
        },
        Message::UnpackedAddon(reason, flavor, id, Ok(unpacked)) => {
            lemma_unpacking_is_careful(
                ajour,
                dirs,
                reason,
                flavor,
                id@,
                unpacked.folders.deep_view(),
                unpacked.updated.deep_view(),
            );
        },
        Message::CatalogInstallAddonFetched(flavor, id, fetched) => {
            lemma_installing_is_careful(
                ajour,
                dirs,
                DownloadReason::Install,
                flavor,
                Seq::empty(),
                Seq::empty(),
                Source::Curse,
                id,
                fetched->Ok_0.deep_view(),
            );
        },
        _ => {},
    }
}

proof fn lemma_window_messages_are_careful(ajour: AjourView, dirs: Directories, message: Message)
    requires
        message is ThemesLoaded
            || message is WindowResized
            || message is Error
            || message is AddonCacheUpdated
            || message is CatalogDownloaded,
    ensures
        is_careful(
            ajour,
            transition(ajour, dirs, message),
            is_deletion(message),
            shows_settings_after(ajour, message),
            error_after(ajour, message),
        ),
{
    let result = transition(ajour, dirs, message);
    match message {
        Message::ThemesLoaded(themes) => {
            lemma_windows_are_careful(
                ajour,
                Seq::empty(),
                ajour.mode,
                0,
                0,
                themes.deep_view(),
            );
        },
        Message::WindowResized(width, height) => {
            lemma_windows_are_careful(
                ajour,
                Seq::empty(),
                ajour.mode,
                width,
                height,
                Seq::empty(),
            );
        },
        Message::Error(error) => {
            lemma_windows_are_careful(ajour, error@, ajour.mode, 0, 0, Seq::empty());
        },
        Message::AddonCacheUpdated(Err(error)) => {
            lemma_windows_are_careful(ajour, error@, ajour.mode, 0, 0, Seq::empty());
        },
        Message::CatalogDownloaded(Err(error)) => {
            lemma_windows_are_careful(ajour, error@, ajour.mode, 0, 0, Seq::empty());
        },
        Message::CatalogDownloaded(Ok(catalog)) => {
            lemma_searching_is_careful(ajour, catalog.deep_view(), ajour.search);
        },
        Message::AddonCacheUpdated(Ok(_)) => {
            lemma_tasks_are_careful(ajour, result.step);
        },
        _ => {},
    }
}

proof fn lemma_plain_messages_are_careful(ajour: AjourView, dirs: Directories, message: Message)
    requires
        message is Component
            || message is AddonCacheEntryRemoved
            || message is RuntimeEvent
            || message is Nothing,
    ensures
        is_careful(
            ajour,
            transition(ajour, dirs, message),
            is_deletion(message),
            shows_settings_after(ajour, message),
            error_after(ajour, message),
        ),
{
    let result = transition(ajour, dirs, message);
    match message {
        Message::Component(_) => {
            lemma_tasks_are_careful(ajour, result.step);
        },
        Message::AddonCacheEntryRemoved => {
            lemma_tasks_are_careful(ajour, result.step);
        },
        Message::RuntimeEvent => {
            lemma_tasks_are_careful(ajour, result.step);
        },
        Message::Nothing => {
            lemma_tasks_are_careful(ajour, result.step);
        },
        _ => {},
    }
}

proof fn lemma_upkeep_messages_are_careful(ajour: AjourView, dirs: Directories, message: Message)
    requires
        message is LatestRelease
            || message is UpdateBackupDirectory
            || message is LatestBackup
            || message is BackupFinished
            || message is AjourUpdateDownloaded
            || message is AjourRestartFailed,
    ensures
        is_careful(
            ajour,
            transition(ajour, dirs, message),
            is_deletion(message),
            shows_settings_after(ajour, message),
            error_after(ajour, message),
        ),
{
    match message {
        Message::LatestRelease(release) => {
            lemma_upkeep_is_careful(
                ajour,
                None,
                None,
                Ok(0),
                release,
                Seq::empty(),
                arbitrary(),
            );
        },
        Message::UpdateBackupDirectory(path) => {
            lemma_upkeep_is_careful(ajour, path, None, Ok(0), None, Seq::empty(), arbitrary());
        },
        Message::LatestBackup(as_of) => {
            lemma_upkeep_is_careful(ajour, None, as_of, Ok(0), None, Seq::empty(), arbitrary());
        },
        Message::BackupFinished(Ok(as_of)) => {
            lemma_upkeep_is_careful(
                ajour,
                None,
                None,
                Ok(as_of),
                None,
                Seq::empty(),
                arbitrary(),
            );
        },
        Message::BackupFinished(Err(error)) => {
            lemma_upkeep_is_careful(
                ajour,
                None,
                None,
                Err(error@),
                None,
                Seq::empty(),
                arbitrary(),
            );
        },
        Message::AjourUpdateDownloaded(Ok((bin_name, path))) => {
            lemma_upkeep_is_careful(ajour, None, None, Ok(0), None, bin_name@, path);
        },
        Message::AjourUpdateDownloaded(Err(error)) => {
            lemma_upkeep_is_careful(ajour, None, None, Ok(0), None, error@, arbitrary());
        },
        Message::AjourRestartFailed(error) => {
            lemma_upkeep_is_careful(ajour, None, None, Ok(0), None, error@, arbitrary());
        },
        _ => {},
    }
}

proof fn lemma_messages_are_careful(ajour: AjourView, dirs: Directories, message: Message)
    ensures
        is_careful(
            ajour,
            transition(ajour, dirs, message),
            is_deletion(message),
            shows_settings_after(ajour, message),
            error_after(ajour, message),
        ),
{
    match message {
        Message::Interaction(message) => {
            lemma_interactions_are_careful(ajour, dirs, message);
        },
        Message::CachesLoaded(_)
        | Message::Parse
        | Message::UpdateWowDirectory(_)
        | Message::ParsedAddons(_, _) => {
            lemma_listing_messages_are_careful(ajour, dirs, message);
        },
        Message::UpdateFingerprint(_, _, _)
        | Message::ReleaseChannelSelected(_)
        | Message::FetchedChangelog(_, _, _) => {
            lemma_addon_messages_are_careful(ajour, dirs, message);
        },
        Message::DownloadedAddon(_, _, _, _)
        | Message::UnpackedAddon(_, _, _, _)
        | Message::CatalogInstallAddonFetched(_, _, _) => {
            lemma_install_messages_are_careful(ajour, dirs, message);
        },
        Message::ThemesLoaded(_)
        | Message::WindowResized(_, _)
        | Message::Error(_)
        | Message::AddonCacheUpdated(_)
        | Message::CatalogDownloaded(_) => {
            lemma_window_messages_are_careful(ajour, dirs, message);
        },
        Message::Component(_)
        | Message::AddonCacheEntryRemoved
        | Message::RuntimeEvent
        | Message::Nothing => {
            lemma_plain_messages_are_careful(ajour, dirs, message);
        },
        Message::LatestRelease(_)
        | Message::UpdateBackupDirectory(_)
        | Message::LatestBackup(_)
        | Message::BackupFinished(_)
        | Message::AjourUpdateDownloaded(_)
        | Message::AjourRestartFailed(_) => {
            lemma_upkeep_messages_are_careful(ajour, dirs, message);
        },
    }
}

proof fn lemma_what_messages_keep(ajour: AjourView, dirs: Directories, message: Message)
    ensures
        ({
            let result = transition(ajour, dirs, message);
            &&& result.ajour.error == error_after(ajour, message)
            &&& result.ajour.is_showing_settings == shows_settings_after(ajour, message)
            &&& result.step.delete.len() > 0 ==> is_deletion(message)
            &&& result.step.save == Save::Skip ==> same_settings(ajour.config, result.ajour.config)
            &&& result.ajour.platform == ajour.platform
            &&& result.ajour.renderer == ajour.renderer
            &&& result.ajour.collation == ajour.collation
        }),
{
    lemma_messages_are_careful(ajour, dirs, message);
    lemma_being_careful(
        ajour,
        transition(ajour, dirs, message),
        is_deletion(message),
        shows_settings_after(ajour, message),
        error_after(ajour, message),
    );
}

/// A message that changes the settings has them saved.
pub proof fn settings_that_change_are_saved(ajour: AjourView, dirs: Directories, message: Message)
    ensures
        transition(ajour, dirs, message).step.save == Save::Skip ==> same_settings(
            ajour.config,
            transition(ajour, dirs, message).ajour.config,
        ),
{
    lemma_what_messages_keep(ajour, dirs, message);
}

/// Folders are deleted only when an addon is.
pub proof fn only_deleting_an_addon_deletes_folders(
    ajour: AjourView,
    dirs: Directories,
    message: Message,
)
    ensures
        transition(ajour, dirs, message).step.delete.len() > 0 ==> is_deletion(message),
{
    lemma_what_messages_keep(ajour, dirs, message);
}

/// The settings are opened and closed by the user, whose other doings close them for the most part.
pub proof fn settings_stay_unless_the_user_acts(
    ajour: AjourView,
    dirs: Directories,
    message: Message,
)
    ensures
        transition(ajour, dirs, message).ajour.is_showing_settings == shows_settings_after(
            ajour,
            message,
        ),
{
    lemma_what_messages_keep(ajour, dirs, message);
}

/// A failure that a message reports is shown. Without one the error stays that was shown before.
pub proof fn failures_are_shown(ajour: AjourView, dirs: Directories, message: Message)
    ensures
        transition(ajour, dirs, message).ajour.error == error_after(ajour, message),
{
    lemma_what_messages_keep(ajour, dirs, message);
}

/// How the program was built and how it lists things stays the same.
pub proof fn messages_keep_the_build(ajour: AjourView, dirs: Directories, message: Message)
    ensures
        transition(ajour, dirs, message).ajour.platform == ajour.platform,
        transition(ajour, dirs, message).ajour.renderer == ajour.renderer,
        transition(ajour, dirs, message).ajour.collation == ajour.collation,
{
    lemma_what_messages_keep(ajour, dirs, message);
}

} // verus!
