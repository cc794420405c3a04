//! What is promised of the messages that tasks end in.
use crate::addon::{Addon, Repository};
use crate::catalog::Source;
use crate::message::{DirectoryType, DownloadReason, Message, Unpacked};
use crate::perform::{
    latest_addon_service, open_directory, perform_download_addon, perform_fetch_curse_changelog,
    perform_fetch_latest_addon, perform_fetch_tukui_changelog, perform_fetch_wowi_changelog,
    perform_hash_addon, perform_read_addon_directory, perform_unpack_addon,
};
use crate::state::AddonVersionKey;
use crate::task::{Save, Step, Task};
use crate::wow::Flavor;
use std::path::PathBuf;
use vstd::prelude::*;

verus! {

/// A choice of a folder ends in the message for that folder, with the choice as it is.
pub proof fn choices_end_in_their_own_message(
    kind: DirectoryType,
    path: Option<PathBuf>,
    message: Message,
)
    requires
        call_ensures(open_directory, (kind, path), message),
    ensures
        kind == DirectoryType::Wow <==> message is UpdateWowDirectory,
        kind == DirectoryType::Backup <==> message is UpdateBackupDirectory,
        message matches Message::UpdateWowDirectory(chosen) ==> chosen == path,
        message matches Message::UpdateBackupDirectory(chosen) ==> chosen == path,
{
}

/// A download and an unpacking end in messages for the same reason, flavor and addon as they were
/// begun with, with what came of them.
pub proof fn downloads_and_unpackings_report_their_addon(
    reason: DownloadReason,
    flavor: Flavor,
    addon: Addon,
    came: Result<(), String>,
    unpacked: Result<Unpacked, String>,
    one: Message,
    other: Message,
)
    requires
        call_ensures(perform_download_addon, (reason, flavor, &addon, came), one),
        call_ensures(perform_unpack_addon, (reason, flavor, &addon, unpacked), other),
    ensures
        one is DownloadedAddon,
        one->DownloadedAddon_0 == reason,
        one->DownloadedAddon_1 == flavor,
        one->DownloadedAddon_2@ == addon.deep_view().primary_folder_id,
        one->DownloadedAddon_3 == came,
        other is UnpackedAddon,
        other->UnpackedAddon_0 == reason,
        other->UnpackedAddon_1 == flavor,
        other->UnpackedAddon_2@ == addon.deep_view().primary_folder_id,
        other->UnpackedAddon_3 == unpacked,
{
}

/// A changelog is reported for the addon and the version that it was asked for, with what came.
/// Changelogs of WoWInterface are always reported, with the page that was made out.
pub proof fn changelogs_report_their_addon(
    addon: Addon,
    key: AddonVersionKey,
    came: Result<(String, String), String>,
    url: String,
    tukui: Message,
    curse: Message,
    wowi: Message,
)
    requires
        call_ensures(perform_fetch_tukui_changelog, (addon, key, came), tukui),
        call_ensures(perform_fetch_curse_changelog, (addon, key, came), curse),
        call_ensures(perform_fetch_wowi_changelog, (addon, url, key), wowi),
    ensures
        tukui is FetchedChangelog,
        tukui->FetchedChangelog_0 == addon,
        tukui->FetchedChangelog_1 == key,
        tukui->FetchedChangelog_2 == came,
        curse == tukui,
        wowi is FetchedChangelog,
        wowi->FetchedChangelog_0 == addon,
        wowi->FetchedChangelog_1 == key,
        wowi->FetchedChangelog_2 is Ok,
        wowi->FetchedChangelog_2->Ok_0.1 == url,
        wowi->FetchedChangelog_2->Ok_0.0@
            == "Please view this changelog in the browser by pressing 'Full Changelog' to the right"@,
{
}

/// Reading, taking a fingerprint and fetching an addon are reported for what they were begun with,
/// with what came of them.
pub proof fn other_tasks_report_what_they_were_for(
    flavor: Flavor,
    read: Result<Vec<Addon>, String>,
    folder: String,
    taken: Result<(), String>,
    entry: i32,
    fetched: Result<Addon, String>,
    one: Message,
    two: Message,
    three: Message,
)
    requires
        call_ensures(perform_read_addon_directory, (flavor, read), one),
        call_ensures(perform_hash_addon, (folder, flavor, taken), two),
        call_ensures(perform_fetch_latest_addon, (entry, flavor, fetched), three),
    ensures
        one == Message::ParsedAddons(flavor, read),
        two == Message::UpdateFingerprint(flavor, folder, taken),
        three == Message::CatalogInstallAddonFetched(flavor, entry, fetched),
{
}

/// The addon of a catalog entry is fetched from the service of the same name.
pub proof fn entries_are_fetched_where_they_come_from(source: Source, service: Repository)
    requires
        call_ensures(latest_addon_service, (source,), service),
    ensures
        source == Source::Curse <==> service == Repository::Curse,
        source == Source::Tukui <==> service == Repository::Tukui,
        source == Source::WowI <==> service == Repository::WowI,
{
}

/// Once the settings were saved or not, the tasks are those that were asked for, unless the
/// settings had to be saved first and could not be: then the error comes in their place.
pub proof fn tasks_wait_for_the_settings(
    step: Step,
    saved: Result<(), String>,
    tasks: Result<Vec<Task>, String>,
)
    requires
        call_ensures(Step::after_save, (step, saved), tasks),
    ensures
        tasks is Err <==> step.save == Save::Require && saved is Err,
        tasks is Err ==> tasks->Err_0 == saved->Err_0,
        tasks is Ok ==> tasks->Ok_0 == step.tasks,
{
}

} // verus!
