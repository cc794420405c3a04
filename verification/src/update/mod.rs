//! How the program reacts to messages.
pub mod addons;
pub mod care;
pub mod catalog;
pub mod columns;
pub mod expand;
pub mod install;
pub mod laws;
pub mod listing;
pub mod outcome;
pub mod upkeep;
pub mod window;

pub use addons::refresh_standings;
pub use columns::save_column_configs;
pub use install::unpack_target;

use self::outcome::{only, outcome, Outcome};
use crate::message::{Component, Interaction, Message};
use crate::state::{Ajour, AjourView, Directories, PayloadView, SearchView};
use crate::task::{one_task, Step, Task, TaskView};
use vstd::prelude::*;

verus! {

/// What something that the user did comes to.
pub open spec fn interaction(ajour: AjourView, dirs: Directories, message: Interaction) -> Outcome {
    match message {
        Interaction::Refresh => listing::refreshed(ajour),
        Interaction::Settings => window::settings_toggled(ajour),
        Interaction::Ignore(id) => addons::ignored(ajour, id@),
        Interaction::Unignore(id) => addons::unignored(ajour, id@),
        Interaction::OpenDirectory(kind) => Outcome {
            ajour,
            step: one_task(TaskView::OpenDirectory(kind)),
        },
        Interaction::OpenLink(link) => Outcome {
            ajour,
            step: one_task(TaskView::OpenLink(link@)),
        },
        Interaction::FlavorSelected(flavor) => listing::flavor_selected(ajour, flavor),
        Interaction::ModeSelected(mode) => window::mode_selected(ajour, mode),
        Interaction::Expand(expand_type) => expand::expanded(ajour, expand_type.deep_view()),
        Interaction::Delete(id) => addons::deleted(ajour, id@),
        Interaction::Update(id) => addons::updated(
            ajour,
            dirs.download(ajour.config.flavor)->0,
            id@,
        ),
        Interaction::UpdateAll => addons::all_updated(ajour, dirs.download(ajour.config.flavor)),
        Interaction::SortColumn(key) => columns::column_sorted(ajour, key),
        Interaction::SortCatalogColumn(key) => columns::catalog_column_sorted(ajour, key),
        Interaction::ResizeColumn(event) => columns::column_resized(ajour, event),
        Interaction::ResizeCatalogColumn(event) => columns::catalog_column_resized(ajour, event),
        Interaction::CatalogQuery(query) => catalog::search_changed(
            ajour,
            SearchView { query: Some(query@), ..ajour.search },
        ),
        Interaction::CatalogInstall(source, flavor, id) => install::install_requested(
            ajour,
            source,
            flavor,
            id,
        ),
        Interaction::CatalogCategorySelected(category) => catalog::search_changed(
            ajour,
            SearchView { category: category.deep_view(), ..ajour.search },
        ),
        Interaction::CatalogResultSizeSelected(result_size) => catalog::search_changed(
            ajour,
            SearchView { result_size, ..ajour.search },
        ),
        Interaction::CatalogSourceSelected(source) => catalog::search_changed(
            ajour,
            SearchView { source, ..ajour.search },
        ),
        Interaction::UpdateAjour => upkeep::self_update_requested(ajour),
    }
}

/// What a message comes to. The reactions that take the most to say are opaque: a proof that needs
/// one of them reveals it.
pub open spec fn transition(ajour: AjourView, dirs: Directories, message: Message) -> Outcome {
    match message {
        Message::Component(Component::Settings(message)) => Outcome {
            ajour,
            step: one_task(TaskView::UpdateSettings(message)),
        },
        Message::CachesLoaded(result) => listing::caches_loaded(ajour, result.ok()),
        Message::Parse => listing::parsed(ajour, dirs),
        Message::Interaction(message) => interaction(ajour, dirs, message),
        Message::UpdateWowDirectory(path) => listing::wow_directory_updated(ajour, path),
        Message::ParsedAddons(flavor, result) => listing::addons_parsed(
            ajour,
            flavor,
            result.ok().deep_view(),
        ),
        Message::DownloadedAddon(reason, flavor, id, result) => match result {
            Ok(_) => install::downloaded(ajour, dirs, reason, flavor, id@),
            Err(error) => install::went_wrong(ajour, reason, flavor, id@, error@),
        },
        Message::UnpackedAddon(reason, flavor, id, result) => match result {
            Ok(result) => install::unpacked(
                ajour,
                dirs,
                reason,
                flavor,
                id@,
                result.folders.deep_view(),
                result.updated.deep_view(),
            ),
            Err(error) => install::went_wrong(ajour, reason, flavor, id@, error@),
        },
        Message::UpdateFingerprint(flavor, id, result) => addons::fingerprinted(
            ajour,
            flavor,
            id@,
            result is Ok,
        ),
        Message::LatestRelease(release) => upkeep::latest_release_found(ajour, release),
        Message::ReleaseChannelSelected(channel) => addons::channel_selected(
            ajour,
            channel.deep_view(),
        ),
        Message::ThemesLoaded(themes) => window::themes_loaded(ajour, themes.deep_view()),
        Message::UpdateBackupDirectory(path) => upkeep::backup_directory_updated(ajour, path),
        Message::LatestBackup(as_of) => upkeep::latest_backup_found(ajour, as_of),
        Message::BackupFinished(result) => upkeep::backup_finished(
            ajour,
            match result {
                Ok(as_of) => Ok(as_of),
                Err(error) => Err(error@),
            },
        ),
        Message::CatalogDownloaded(result) => match result {
            Ok(catalog) => catalog::catalog_downloaded(ajour, catalog.deep_view()),
            Err(error) => window::failed(ajour, error@),
        },
        Message::CatalogInstallAddonFetched(flavor, id, result) => match result {
            Ok(addon) => install::install_fetched(ajour, dirs, flavor, id, addon.deep_view()),
            Err(_) => install::install_unavailable(ajour, flavor, id),
        },
        Message::FetchedChangelog(addon, key, result) => expand::changelog_fetched(
            ajour,
            addon.deep_view(),
            key,
            match result {
                Ok((changelog, url)) => Some(PayloadView { changelog: changelog@, url: url@ }),
                Err(_) => None,
            },
        ),
        Message::AjourUpdateDownloaded(result) => match result {
            Ok((bin_name, path)) => upkeep::self_update_downloaded(ajour, bin_name@, path),
            Err(error) => upkeep::self_update_failed(ajour, error@),
        },
        Message::AjourRestartFailed(error) => upkeep::self_update_failed(ajour, error@),
        Message::AddonCacheUpdated(result) => match result {
            Ok(_) => only(ajour),
            Err(error) => window::failed(ajour, error@),
        },
        Message::AddonCacheEntryRemoved => only(ajour),
        Message::Error(error) => window::failed(ajour, error@),
        Message::WindowResized(width, height) => window::window_resized(ajour, width, height),
        Message::RuntimeEvent => only(ajour),
        Message::Nothing => only(ajour),
    }
}

/// The surroundings are as the message takes for granted: the folders are known that it needs, and
/// so is the number of an addon whose changelog it asks for.
pub open spec fn is_acceptable(ajour: AjourView, dirs: Directories, message: Message) -> bool {
    match message {
        Message::Interaction(Interaction::Update(_)) => dirs.download(ajour.config.flavor) is Some,
        Message::Interaction(Interaction::Expand(expand_type)) =>
            !expand::asks_for_unreadable_number(ajour, expand_type.deep_view()),
        Message::DownloadedAddon(reason, flavor, id, result) => {
            result is Ok && install::is_taken_up(ajour, reason, flavor, id@) ==> dirs.download(
                flavor,
            ) is Some && dirs.addon(flavor) is Some
        },
        Message::UnpackedAddon(reason, flavor, id, Ok(result)) => {
            install::is_hashed(
                ajour,
                reason,
                flavor,
                id@,
                result.folders.deep_view(),
                result.updated.deep_view(),
            ) ==> dirs.addon(flavor) is Some
        },
        Message::CatalogInstallAddonFetched(flavor, id, result) => {
            result is Ok && install::is_awaited(ajour, flavor, id) ==> dirs.download(flavor)
                is Some
        },
        _ => true,
    }
}

/// Whether the surroundings are as the message takes for granted.
pub fn can_handle(ajour: &Ajour, dirs: &Directories, message: &Message) -> (acceptable: bool)
    ensures
        acceptable == is_acceptable(ajour.deep_view(), *dirs, *message),
{
    match message {
        Message::Interaction(Interaction::Update(_)) =>
            dirs.downloads.get(ajour.config.wow.flavor).is_some(),
        Message::Interaction(Interaction::Expand(expand_type)) =>
            !expand::needs_unreadable_number(ajour, expand_type),
        Message::DownloadedAddon(reason, flavor, id, result) => {
            if result.is_ok() && install::takes_up(ajour, *reason, *flavor, id) {
                dirs.downloads.get(*flavor).is_some() && dirs.addons.get(*flavor).is_some()
            } else {
                true
            }
        },
        Message::UnpackedAddon(reason, flavor, id, Ok(result)) => {
            if install::needs_hashing(ajour, *reason, *flavor, id, result) {
                dirs.addons.get(*flavor).is_some()
            } else {
                true
            }
        },
        Message::CatalogInstallAddonFetched(flavor, id, result) => {
            if result.is_ok() && install::awaits(ajour, *flavor, *id) {
                dirs.downloads.get(*flavor).is_some()
            } else {
                true
            }
        },
        _ => true,
    }
}

/// Reacts to something that the user did.
pub fn handle_interaction(ajour: &mut Ajour, dirs: &Directories, message: Interaction) -> (step: Step)
    requires
        is_acceptable(old(ajour).deep_view(), *dirs, Message::Interaction(message)),
    ensures
        outcome(*final(ajour), step) == interaction(old(ajour).deep_view(), *dirs, message),
{
    match message {
        Interaction::Refresh => listing::refresh(ajour),
        Interaction::Settings => window::toggle_settings(ajour),
        Interaction::Ignore(id) => addons::ignore(ajour, id),
        Interaction::Unignore(id) => addons::unignore(ajour, id),
        Interaction::OpenDirectory(kind) => Step::perform(Task::OpenDirectory(kind)),
        Interaction::OpenLink(link) => Step::perform(Task::OpenLink(link)),
        Interaction::FlavorSelected(flavor) => listing::select_flavor(ajour, flavor),
        Interaction::ModeSelected(mode) => window::select_mode(ajour, mode),
        Interaction::Expand(expand_type) => expand::expand(ajour, expand_type),
        Interaction::Delete(id) => addons::delete(ajour, id),
        Interaction::Update(id) => addons::update(ajour, dirs, id),
        Interaction::UpdateAll => addons::update_all(ajour, dirs),
        Interaction::SortColumn(key) => columns::sort_column(ajour, key),
        Interaction::SortCatalogColumn(key) => columns::sort_catalog_column(ajour, key),
        Interaction::ResizeColumn(event) => columns::resize_column(ajour, event),
        Interaction::ResizeCatalogColumn(event) => columns::resize_column_of_catalog(ajour, event),
        Interaction::CatalogQuery(query) => catalog::query_catalog(ajour, query),
        Interaction::CatalogInstall(source, flavor, id) => install::request_install(
            ajour,
            source,
            flavor,
            id,
        ),
        Interaction::CatalogCategorySelected(category) => catalog::select_category(ajour, category),
        Interaction::CatalogResultSizeSelected(size) => catalog::select_result_size(ajour, size),
        Interaction::CatalogSourceSelected(source) => catalog::select_source(ajour, source),
        Interaction::UpdateAjour => upkeep::update_ajour(ajour),
    }
}

/// Reacts to a message: changes the program, and says what is to be done then.
pub fn handle_message(ajour: &mut Ajour, dirs: &Directories, message: Message) -> (step: Step)
    requires
        is_acceptable(old(ajour).deep_view(), *dirs, message),
    ensures
        outcome(*final(ajour), step) == transition(old(ajour).deep_view(), *dirs, message),
{
    match message {
        Message::Component(Component::Settings(message)) => Step::perform(
            Task::UpdateSettings(message),
        ),
        Message::CachesLoaded(result) => listing::load_caches(ajour, result),
        Message::Parse => listing::parse(ajour, dirs),
        Message::Interaction(message) => handle_interaction(ajour, dirs, message),
        Message::UpdateWowDirectory(path) => listing::update_wow_directory(ajour, path),
        Message::ParsedAddons(flavor, result) => listing::list_addons(ajour, flavor, result),
        Message::DownloadedAddon(reason, flavor, id, result) => install::finish_download(
            ajour,
            dirs,
            reason,
            flavor,
            id,
            result,
        ),
        Message::UnpackedAddon(reason, flavor, id, result) => install::finish_unpacking(
            ajour,
            dirs,
            reason,
            flavor,
            id,
            result,
        ),
        Message::UpdateFingerprint(flavor, id, result) => addons::update_fingerprint(
            ajour,
            flavor,
            id,
            result,
        ),
        Message::LatestRelease(release) => upkeep::note_latest_release(ajour, release),
        Message::ReleaseChannelSelected(channel) => addons::release_channel_selected(
            ajour,
            channel,
        ),
        Message::ThemesLoaded(themes) => window::load_themes(ajour, themes),
        Message::UpdateBackupDirectory(path) => upkeep::update_backup_directory(ajour, path),
        Message::LatestBackup(as_of) => upkeep::note_latest_backup(ajour, as_of),
        Message::BackupFinished(result) => upkeep::finish_backup(ajour, result),
        Message::CatalogDownloaded(result) => catalog::show_catalog(ajour, result),
        Message::CatalogInstallAddonFetched(flavor, id, result) => install::fetch_install(
            ajour,
            dirs,
            flavor,
            id,
            result,
        ),
        Message::FetchedChangelog(addon, key, result) => expand::show_changelog(
            ajour,
            addon,
            key,
            result,
        ),
        Message::AjourUpdateDownloaded(result) => upkeep::finish_self_update(ajour, result),
        Message::AjourRestartFailed(error) => upkeep::fail_self_update(ajour, error),
        Message::AddonCacheUpdated(result) => match result {
            Ok(_) => Step::none(),
            Err(error) => window::show_error(ajour, error),
        },
        Message::AddonCacheEntryRemoved => Step::none(),
        Message::Error(error) => window::show_error(ajour, error),
        Message::WindowResized(width, height) => window::resize_window(ajour, width, height),
        Message::RuntimeEvent => Step::none(),
        Message::Nothing => Step::none(),
    }
}

} // verus!
