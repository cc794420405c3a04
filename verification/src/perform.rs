//! The messages that tasks end in, given what came of the work outside.
use crate::addon::{Addon, Repository};
use crate::catalog::Source;
use crate::message::{DirectoryType, DownloadReason, Message, Unpacked};
use crate::state::AddonVersionKey;
use crate::wow::Flavor;
use std::path::PathBuf;
use vstd::prelude::*;

verus! {

/// The message that a choice of a folder ends in. The folder of the game is the one that was made
/// out in the user's choice.
pub fn open_directory(kind: DirectoryType, path: Option<PathBuf>) -> (message: Message)
    ensures
        message == match kind {
            DirectoryType::Wow => Message::UpdateWowDirectory(path),
            DirectoryType::Backup => Message::UpdateBackupDirectory(path),
        },
{
    match kind {
        DirectoryType::Wow => Message::UpdateWowDirectory(path),
        DirectoryType::Backup => Message::UpdateBackupDirectory(path),
    }
}

/// The message that reading a folder of addons ends in.
pub fn perform_read_addon_directory(flavor: Flavor, result: Result<Vec<Addon>, String>) -> (message:
    Message)
    ensures
        message == Message::ParsedAddons(flavor, result),
{
    Message::ParsedAddons(flavor, result)
}

/// The message that fetching a changelog from Tukui ends in.
pub fn perform_fetch_tukui_changelog(
    addon: Addon,
    key: AddonVersionKey,
    result: Result<(String, String), String>,
) -> (message: Message)
    ensures
        message == Message::FetchedChangelog(addon, key, result),
{
    Message::FetchedChangelog(addon, key, result)
}

/// The message that fetching a changelog from Curse ends in.
pub fn perform_fetch_curse_changelog(
    addon: Addon,
    key: AddonVersionKey,
    result: Result<(String, String), String>,
) -> (message: Message)
    ensures
        message == Message::FetchedChangelog(addon, key, result),
{
    Message::FetchedChangelog(addon, key, result)
}

/// The message that making out the page of a changelog at WoWInterface ends in. The text only
/// points to the page.
pub fn perform_fetch_wowi_changelog(addon: Addon, url: String, key: AddonVersionKey) -> (message:
    Message)
    ensures
        message matches Message::FetchedChangelog(shown, shown_key, Ok((text, page))) && shown
            == addon && shown_key == key && page == url && text@
            == "Please view this changelog in the browser by pressing 'Full Changelog' to the right"@,
{
    let text =
        "Please view this changelog in the browser by pressing 'Full Changelog' to the right".to_owned();
    Message::FetchedChangelog(addon, key, Ok((text, url)))
}

/// The message that downloading an addon ends in.
pub fn perform_download_addon(
    reason: DownloadReason,
    flavor: Flavor,
    addon: &Addon,
    result: Result<(), String>,
) -> (message: Message)
    ensures
        message == Message::DownloadedAddon(reason, flavor, addon.primary_folder_id, result),
{
    Message::DownloadedAddon(reason, flavor, addon.primary_folder_id.clone(), result)
}

/// The message that taking the fingerprint of an addon's folder ends in.
pub fn perform_hash_addon(addon_id: String, flavor: Flavor, result: Result<(), String>) -> (message:
    Message)
    ensures
        message == Message::UpdateFingerprint(flavor, addon_id, result),
{
    Message::UpdateFingerprint(flavor, addon_id, result)
}

/// The message that unpacking an addon ends in.
pub fn perform_unpack_addon(
    reason: DownloadReason,
    flavor: Flavor,
    addon: &Addon,
    result: Result<Unpacked, String>,
) -> (message: Message)
    ensures
        message == Message::UnpackedAddon(reason, flavor, addon.primary_folder_id, result),
{
    Message::UnpackedAddon(reason, flavor, addon.primary_folder_id.clone(), result)
}

/// The service that has the addon of a catalog entry: the one that the entry comes from.
pub fn latest_addon_service(source: Source) -> (service: Repository)
    ensures
        service == match source {
            Source::Curse => Repository::Curse,
            Source::Tukui => Repository::Tukui,
            Source::WowI => Repository::WowI,
        },
{
    match source {
        Source::Curse => Repository::Curse,
        Source::Tukui => Repository::Tukui,
        Source::WowI => Repository::WowI,
    }
}

/// The message that fetching the addon of a catalog entry ends in, given the answer of the service
/// that [`latest_addon_service`] names.
pub fn perform_fetch_latest_addon(
    source_id: i32,
    flavor: Flavor,
    result: Result<Addon, String>,
) -> (message: Message)
    ensures
        message == Message::CatalogInstallAddonFetched(flavor, source_id, result),
{
    Message::CatalogInstallAddonFetched(flavor, source_id, result)
}

} // verus!
