//! Reactions that concern downloading, unpacking and installing addons.
use super::addons::with_addons;
use super::outcome::{only, outcome, settings_closed, Outcome};
use crate::addon::{
    set_state, with_id, with_other_folders, Addon, AddonFolder, AddonState, AddonView, FolderView,
    Repository, StateView, WithId, WithOtherFolders,
};
use crate::catalog::{
    not_of_addon, of_addon, of_entry, of_entry_named, of_other_entry, CatalogInstallAddon,
    CatalogInstallStatus, InstallView, NotOfAddon, OfAddon, OfEntry, OfEntryNamed, OfOtherEntry,
    Source,
};
use crate::flavor_map::list_for;
use crate::list::{find, first_where, first_where_finds_the_first, retain};
use crate::message::{DownloadReason, Unpacked};
use crate::state::{Ajour, AjourView, Directories};
use crate::task::{idle, one_task, Step, StepView, Task, TaskView};
use crate::wow::Flavor;
use std::path::PathBuf;
use vstd::prelude::*;

verus! {

/// The program with other installs for a flavor.
pub open spec fn with_installs(
    ajour: AjourView,
    flavor: Flavor,
    installs: Seq<InstallView>,
) -> AjourView {
    AjourView { installs: ajour.installs.insert(flavor, installs), ..ajour }
}

/// The program with other addons and installs for a flavor.
pub open spec fn with_lists(
    ajour: AjourView,
    flavor: Flavor,
    addons: Seq<AddonView>,
    installs: Seq<InstallView>,
) -> AjourView {
    with_installs(with_addons(ajour, flavor, addons), flavor, installs)
}

/// The installs with one of them in another status.
pub open spec fn with_status(
    installs: Seq<InstallView>,
    position: int,
    status: CatalogInstallStatus,
) -> Seq<InstallView> {
    installs.update(position, InstallView { status, ..installs[position] })
}

fn set_status(installs: &mut Vec<CatalogInstallAddon>, position: usize, status: CatalogInstallStatus)
    requires
        position < old(installs)@.len(),
    ensures
        final(installs).deep_view() == with_status(
            old(installs).deep_view(),
            position as int,
            status,
        ),
        final(installs)@.len() == old(installs)@.len(),
        final(installs)@[position as int].addon == old(installs)@[position as int].addon,
{
    let ghost before = installs.deep_view();
    installs[position].status = status;
    assert(installs.deep_view() =~= with_status(before, position as int, status));
}

/// A catalog entry is installed: the addon that it stands for is fetched. What came of an earlier
/// install of the entry is forgotten.
#[verifier::opaque]
pub open spec fn install_requested(
    ajour: AjourView,
    source: Source,
    flavor: Flavor,
    id: i32,
) -> Outcome {
    Outcome {
        ajour: with_installs(
            settings_closed(ajour),
            flavor,
            list_for(ajour.installs, flavor).filter(of_other_entry(id)).push(
                InstallView { id, status: CatalogInstallStatus::Downloading, addon: None },
            ),
        ),
        step: one_task(TaskView::FetchLatestAddon { source, id, flavor }),
    }
}

/// Reacts to a catalog entry being installed.
pub fn request_install(ajour: &mut Ajour, source: Source, flavor: Flavor, id: i32) -> (step: Step)
    ensures
        outcome(*final(ajour), step) == install_requested(
            old(ajour).deep_view(),
            source,
            flavor,
            id,
        ),
{
    proof {
        reveal(install_requested);
    }
    ajour.is_showing_settings = false;
    let installs = ajour.catalog_install_addons.list_mut(flavor);
    retain(installs, &OfOtherEntry { id });
    let ghost kept = installs.deep_view();
    installs.push(
        CatalogInstallAddon { id, status: CatalogInstallStatus::Downloading, addon: None },
    );
    assert(installs.deep_view() =~= kept.push(
        InstallView { id, status: CatalogInstallStatus::Downloading, addon: None },
    ));
    Step::perform(Task::FetchLatestAddon { source, id, flavor })
}

/// The addon of a catalog entry is needed: the entry is being installed.
pub open spec fn is_awaited(ajour: AjourView, flavor: Flavor, id: i32) -> bool {
    first_where(list_for(ajour.installs, flavor), of_entry(id)) is Some
}

/// The addon of a catalog entry was fetched, and is downloaded. An entry that is not being
/// installed changes nothing.
#[verifier::opaque]
pub open spec fn install_fetched(
    ajour: AjourView,
    dirs: Directories,
    flavor: Flavor,
    id: i32,
    addon: AddonView,
) -> Outcome {
    let installs = list_for(ajour.installs, flavor);
    let downloading = addon.in_state(StateView::Downloading);
    match first_where(installs, of_entry(id)) {
        Some(i) => Outcome {
            ajour: with_installs(
                ajour,
                flavor,
                installs.update(i, InstallView { addon: Some(downloading), ..installs[i] }),
            ),
            step: one_task(
                TaskView::DownloadAddon {
                    reason: DownloadReason::Install,
                    flavor,
                    addon: downloading,
                    to_directory: dirs.download(flavor)->0,
                },
            ),
        },
        None => only(with_installs(ajour, flavor, installs)),
    }
}

/// The addon of a catalog entry could not be fetched.
#[verifier::opaque]
pub open spec fn install_unavailable(ajour: AjourView, flavor: Flavor, id: i32) -> Outcome {
    let installs = list_for(ajour.installs, flavor);
    only(
        with_installs(
            ajour,
            flavor,
            match first_where(installs, of_entry(id)) {
                Some(i) => with_status(installs, i, CatalogInstallStatus::Unavilable),
                None => installs,
            },
        ),
    )
}

/// Reacts to the addon of a catalog entry having been fetched.
pub fn fetch_install(
    ajour: &mut Ajour,
    dirs: &Directories,
    flavor: Flavor,
    id: i32,
    result: Result<Addon, String>,
) -> (step: Step)
    requires
        result is Ok && is_awaited(old(ajour).deep_view(), flavor, id) ==> dirs.download(flavor)
            is Some,
    ensures
        outcome(*final(ajour), step) == match result {
            Ok(addon) => install_fetched(
                old(ajour).deep_view(),
                *dirs,
                flavor,
                id,
                addon.deep_view(),
            ),
            Err(_) => install_unavailable(old(ajour).deep_view(), flavor, id),
        },
{
    proof {
        reveal(install_unavailable);
        reveal(install_fetched);
    }
    let installs = ajour.catalog_install_addons.list_mut(flavor);
    let ghost before = installs.deep_view();
    match find(installs, &OfEntry { id }) {
        Some(i) => match result {
            Ok(addon) => {
                let mut addon = addon;
                addon.state = AddonState::Downloading;
                let ghost downloading = addon.deep_view();
                installs[i].addon = Some(addon.clone());
                assert(installs.deep_view() =~= before.update(
                    i as int,
                    InstallView { addon: Some(downloading), ..before[i as int] },
                ));
                let to_directory = dirs.get_download_directory_for_flavor(flavor).expect(
                    "Expected a valid path",
                );
                Step::perform(
                    Task::DownloadAddon {
                        reason: DownloadReason::Install,
                        flavor,
                        addon,
                        to_directory,
                    },
                )
            },
            Err(_) => {
                set_status(installs, i, CatalogInstallStatus::Unavilable);
                Step::none()
            },
        },
        None => Step::none(),
    }
}

/// A download or an unpacking went wrong: the error is shown, and an install of the catalog entry
/// whose number the identifier writes may be tried again.
#[verifier::opaque]
pub open spec fn went_wrong(
    ajour: AjourView,
    reason: DownloadReason,
    flavor: Flavor,
    id: Seq<char>,
    error: Seq<char>,
) -> Outcome {
    let addons = list_for(ajour.addons, flavor);
    let installs = list_for(ajour.installs, flavor);
    let retried = match first_where(installs, of_entry_named(id)) {
        Some(i) if reason == DownloadReason::Install => with_status(
            installs,
            i,
            CatalogInstallStatus::Retry,
        ),
        _ => installs,
    };
    only(with_lists(AjourView { error: Some(error), ..ajour }, flavor, addons, retried))
}

fn retry(ajour: &mut Ajour, reason: DownloadReason, flavor: Flavor, id: String, error: String) -> (step:
    Step)
    ensures
        outcome(*final(ajour), step) == went_wrong(
            old(ajour).deep_view(),
            reason,
            flavor,
            id@,
            error@,
        ),
{
    proof {
        reveal(went_wrong);
    }
    let _ = ajour.addons.list_mut(flavor);
    let installs = ajour.catalog_install_addons.list_mut(flavor);
    if reason == DownloadReason::Install {
        if let Some(i) = find(installs, &OfEntryNamed { id: &id }) {
            set_status(installs, i, CatalogInstallStatus::Retry);
        }
    }
    ajour.error = Some(error);
    Step::none()
}

/// A download is of use: the addon is listed, or it is being installed.
pub open spec fn is_taken_up(
    ajour: AjourView,
    reason: DownloadReason,
    flavor: Flavor,
    id: Seq<char>,
) -> bool {
    match reason {
        DownloadReason::Update => first_where(list_for(ajour.addons, flavor), with_id(id)) is Some,
        DownloadReason::Install => first_where(list_for(ajour.installs, flavor), of_addon(id))
            is Some,
    }
}

/// Unpacking a download.
pub open spec fn unpacking(
    dirs: Directories,
    reason: DownloadReason,
    flavor: Flavor,
    addon: AddonView,
) -> StepView {
    one_task(
        TaskView::UnpackAddon {
            reason,
            flavor,
            addon,
            from_directory: dirs.download(flavor)->0,
            to_directory: dirs.addon(flavor)->0,
        },
    )
}

/// An addon was downloaded, and is unpacked if it is still waiting for that. A download that is of
/// no use changes nothing.
#[verifier::opaque]
pub open spec fn downloaded(
    ajour: AjourView,
    dirs: Directories,
    reason: DownloadReason,
    flavor: Flavor,
    id: Seq<char>,
) -> Outcome {
    let addons = list_for(ajour.addons, flavor);
    let installs = list_for(ajour.installs, flavor);
    match reason {
        DownloadReason::Update => match first_where(addons, with_id(id)) {
            Some(i) if addons[i].state == StateView::Downloading => {
                let addon = addons[i].in_state(StateView::Unpacking);
                Outcome {
                    ajour: with_lists(ajour, flavor, addons.update(i, addon), installs),
                    step: unpacking(dirs, reason, flavor, addon),
                }
            },
            _ => only(with_lists(ajour, flavor, addons, installs)),
        },
        DownloadReason::Install => match first_where(installs, of_addon(id)) {
            Some(i) => {
                let shown = with_status(installs, i, CatalogInstallStatus::Unpacking);
                let addon = installs[i].addon->0;
                if addon.state == StateView::Downloading {
                    let addon = addon.in_state(StateView::Unpacking);
                    Outcome {
                        ajour: with_lists(
                            ajour,
                            flavor,
                            addons,
                            shown.update(i, InstallView { addon: Some(addon), ..shown[i] }),
                        ),
                        step: unpacking(dirs, reason, flavor, addon),
                    }
                } else {
                    only(with_lists(ajour, flavor, addons, shown))
                }
            },
            None => only(with_lists(ajour, flavor, addons, installs)),
        },
    }
}

fn unpack(
    dirs: &Directories,
    reason: DownloadReason,
    flavor: Flavor,
    addon: Addon,
) -> (step: Step)
    requires
        dirs.download(flavor) is Some,
        dirs.addon(flavor) is Some,
    ensures
        step.deep_view() == unpacking(*dirs, reason, flavor, addon.deep_view()),
{
    let from_directory = dirs.get_download_directory_for_flavor(flavor).expect(
        "Expected a valid path",
    );
    let to_directory = dirs.get_addon_directory_for_flavor(flavor).expect("Expected a valid path");
    Step::perform(Task::UnpackAddon { reason, flavor, addon, from_directory, to_directory })
}

/// Reacts to an addon having been downloaded.
pub fn finish_download(
    ajour: &mut Ajour,
    dirs: &Directories,
    reason: DownloadReason,
    flavor: Flavor,
    id: String,
    result: Result<(), String>,
) -> (step: Step)
    requires
        result is Ok && is_taken_up(old(ajour).deep_view(), reason, flavor, id@)
            ==> dirs.download(flavor) is Some && dirs.addon(flavor) is Some,
    ensures
        outcome(*final(ajour), step) == match result {
            Ok(_) => downloaded(old(ajour).deep_view(), *dirs, reason, flavor, id@),
            Err(error) => went_wrong(old(ajour).deep_view(), reason, flavor, id@, error@),
        },
{
    proof {
        reveal(downloaded);
    }
    if let Err(error) = result {
        return retry(ajour, reason, flavor, id, error);
    }
    let addons = ajour.addons.list_mut(flavor);
    let installs = ajour.catalog_install_addons.list_mut(flavor);
    match reason {
        DownloadReason::Update => {
            if let Some(i) = find(addons, &WithId { id: &id }) {
                if let AddonState::Downloading = addons[i].state {
                    set_state(addons, i, AddonState::Unpacking);
                    return unpack(dirs, reason, flavor, addons[i].clone());
                }
            }
        },
        DownloadReason::Install => {
            if let Some(i) = find(installs, &OfAddon { id: &id }) {
                set_status(installs, i, CatalogInstallStatus::Unpacking);
                let ghost shown = installs.deep_view();
                if let Some(addon) = &installs[i].addon {
                    if let AddonState::Downloading = addon.state {
                        let mut addon = addon.clone();
                        addon.state = AddonState::Unpacking;
                        let ghost unpacking = addon.deep_view();
                        installs[i].addon = Some(addon.clone());
                        assert(installs.deep_view() =~= shown.update(
                            i as int,
                            InstallView { addon: Some(unpacking), ..shown[i as int] },
                        ));
                        return unpack(dirs, reason, flavor, addon);
                    }
                }
            }
        },
    }
    Step::none()
}

/// The addons once an addon is unpacked. An addon that is being installed takes the place of those
/// that consist of the same folders.
pub open spec fn list_after_unpacking(
    ajour: AjourView,
    reason: DownloadReason,
    flavor: Flavor,
    id: Seq<char>,
    folders: Seq<FolderView>,
) -> Seq<AddonView> {
    let addons = list_for(ajour.addons, flavor);
    let installs = list_for(ajour.installs, flavor);
    match (reason, first_where(installs, of_addon(id))) {
        (DownloadReason::Install, Some(i)) => addons.filter(with_other_folders(folders)).push(
            installs[i].addon->0,
        ),
        _ => addons,
    }
}

/// The installs once an addon is unpacked: its own install is done.
pub open spec fn installs_after_unpacking(
    ajour: AjourView,
    reason: DownloadReason,
    flavor: Flavor,
    id: Seq<char>,
) -> Seq<InstallView> {
    let installs = list_for(ajour.installs, flavor);
    match reason {
        DownloadReason::Update => installs,
        DownloadReason::Install => installs.filter(not_of_addon(id)),
    }
}

/// The position, among the addons once an addon is unpacked, of the addon that the folders belong
/// to.
pub open spec fn target_position(
    ajour: AjourView,
    reason: DownloadReason,
    flavor: Flavor,
    id: Seq<char>,
    folders: Seq<FolderView>,
) -> Option<int> {
    if is_taken_up(ajour, reason, flavor, id) {
        first_where(list_after_unpacking(ajour, reason, flavor, id, folders), with_id(id))
    } else {
        None
    }
}

/// The addon that unpacked folders belong to.
pub open spec fn target(
    ajour: AjourView,
    reason: DownloadReason,
    flavor: Flavor,
    id: Seq<char>,
    folders: Seq<FolderView>,
) -> Option<AddonView> {
    match target_position(ajour, reason, flavor, id, folders) {
        Some(i) => Some(list_after_unpacking(ajour, reason, flavor, id, folders)[i]),
        None => None,
    }
}

/// An addon that was unpacked and gets its fingerprint next. What is installed is the release that
/// it was updated to.
pub open spec fn settled(addon: AddonView) -> AddonView {
    let addon = addon.in_state(StateView::Fingerprint);
    match addon.relevant_package() {
        Some(package) => AddonView { version: Some(package.version), ..addon },
        None => addon,
    }
}

/// What happens to the addon's entry in the addon cache once it is unpacked.
pub open spec fn cache_tasks(cache: Option<u64>, addon: AddonView, flavor: Flavor) -> Seq<TaskView> {
    match (cache, addon.active_repository) {
        (Some(cache), Some(Repository::Curse)) if addon.cacheable => seq![
            TaskView::RemoveAddonCacheEntry { cache, addon, flavor },
        ],
        (Some(cache), Some(_)) if addon.cacheable => seq![
            TaskView::UpdateAddonCache { cache, addon, flavor },
        ],
        _ => Seq::empty(),
    }
}

/// Taking the fingerprints of an addon's folders.
pub open spec fn hash_tasks(
    cache: Option<u64>,
    directory: Option<PathBuf>,
    folders: Seq<FolderView>,
    flavor: Flavor,
) -> Seq<TaskView> {
    match cache {
        Some(cache) => Seq::new(
            folders.len(),
            |i: int|
                TaskView::HashAddon {
                    directory: directory->0,
                    folder_id: folders[i].id,
                    cache,
                    flavor,
                },
        ),
        None => Seq::empty(),
    }
}

/// An addon was unpacked: it is settled, its entry in the addon cache is brought up to date, and
/// its fingerprint is taken. The addon that the folders were given to is handed in, if they change
/// it.
#[verifier::opaque]
pub open spec fn unpacked(
    ajour: AjourView,
    dirs: Directories,
    reason: DownloadReason,
    flavor: Flavor,
    id: Seq<char>,
    folders: Seq<FolderView>,
    updated: Option<AddonView>,
) -> Outcome {
    let addons = list_after_unpacking(ajour, reason, flavor, id, folders);
    let installs = installs_after_unpacking(ajour, reason, flavor, id);
    match target_position(ajour, reason, flavor, id, folders) {
        Some(i) => {
            let addon = settled(
                match updated {
                    Some(updated) => updated,
                    None => addons[i],
                },
            );
            Outcome {
                ajour: with_lists(ajour, flavor, addons.update(i, addon), installs),
                step: StepView {
                    tasks: cache_tasks(ajour.addon_cache, addon, flavor) + hash_tasks(
                        ajour.fingerprint_cache,
                        dirs.addon(flavor),
                        addon.folders,
                        flavor,
                    ),
                    ..idle()
                },
            }
        },
        None => only(with_lists(ajour, flavor, addons, installs)),
    }
}

/// Fingerprints are to be taken once an addon is unpacked.
pub open spec fn is_hashed(
    ajour: AjourView,
    reason: DownloadReason,
    flavor: Flavor,
    id: Seq<char>,
    folders: Seq<FolderView>,
    updated: Option<AddonView>,
) -> bool {
    match (ajour.fingerprint_cache, target(ajour, reason, flavor, id, folders)) {
        (Some(_), Some(addon)) => match updated {
            Some(updated) => updated.folders.len() > 0,
            None => addon.folders.len() > 0,
        },
        _ => false,
    }
}

fn settle(addon: &mut Addon)
    ensures
        final(addon).deep_view() == settled(old(addon).deep_view()),
{
    addon.state = AddonState::Fingerprint;
    let version = match addon.relevant_release_package() {
        Some(package) => Some(package.version.clone()),
        None => None,
    };
    if let Some(version) = version {
        addon.set_version(version);
    }
}

fn after_unpacking(
    addon: &Addon,
    addon_cache: Option<u64>,
    fingerprint_cache: Option<u64>,
    dirs: &Directories,
    flavor: Flavor,
) -> (step: Step)
    requires
        fingerprint_cache is Some && addon.deep_view().folders.len() > 0 ==> dirs.addon(flavor)
            is Some,
    ensures
        step.deep_view() == (StepView {
            tasks: cache_tasks(addon_cache, addon.deep_view(), flavor) + hash_tasks(
                fingerprint_cache,
                dirs.addon(flavor),
                addon.deep_view().folders,
                flavor,
            ),
            ..idle()
        }),
{
    let ghost view = addon.deep_view();
    let mut tasks: Vec<Task> = Vec::new();
    if let Some(cache) = addon_cache {
        if addon.cacheable {
            match addon.active_repository {
                Some(Repository::Curse) => {
                    tasks.push(Task::RemoveAddonCacheEntry { cache, addon: addon.clone(), flavor });
                },
                Some(Repository::Tukui) | Some(Repository::WowI) => {
                    tasks.push(Task::UpdateAddonCache { cache, addon: addon.clone(), flavor });
                },
                None => {},
            }
        }
    }
    let ghost cached = cache_tasks(addon_cache, view, flavor);
    assert(tasks.deep_view() =~= cached);
    if let Some(cache) = fingerprint_cache {
        let ghost hashed = hash_tasks(fingerprint_cache, dirs.addon(flavor), view.folders, flavor);
        assert(tasks.deep_view() =~= cached + hashed.take(0));
        let mut i: usize = 0;
        while i < addon.folders.len()
            invariant
                i <= addon.folders@.len(),
                view == addon.deep_view(),
                fingerprint_cache == Some(cache),
                view.folders.len() > 0 ==> dirs.addon(flavor) is Some,
                hashed == hash_tasks(fingerprint_cache, dirs.addon(flavor), view.folders, flavor),
                tasks.deep_view() == cached + hashed.take(i as int),
            decreases addon.folders@.len() - i,
        {
            let ghost tasks_before = tasks.deep_view();
            let directory = dirs.get_addon_directory_for_flavor(flavor).expect(
                "Expected a valid path",
            );
            tasks.push(
                Task::HashAddon { directory, folder_id: addon.folders[i].id.clone(), cache, flavor },
            );
            assert(tasks.deep_view() =~= tasks_before.push(hashed[i as int]));
            assert(tasks.deep_view() =~= cached + hashed.take(i + 1));
            i = i + 1;
        }
        assert(hashed.take(i as int) =~= hashed);
    } else {
        assert(tasks.deep_view() =~= cached + Seq::empty());
    }
    Step::batch(tasks)
}

/// Reacts to an addon having been unpacked.
pub fn finish_unpacking(
    ajour: &mut Ajour,
    dirs: &Directories,
    reason: DownloadReason,
    flavor: Flavor,
    id: String,
    result: Result<Unpacked, String>,
) -> (step: Step)
    requires
        match result {
            Ok(unpacked) => is_hashed(
                old(ajour).deep_view(),
                reason,
                flavor,
                id@,
                unpacked.folders.deep_view(),
                unpacked.updated.deep_view(),
            ) ==> dirs.addon(flavor) is Some,
            Err(_) => true,
        },
    ensures
        outcome(*final(ajour), step) == match result {
            Ok(result) => unpacked(
                old(ajour).deep_view(),
                *dirs,
                reason,
                flavor,
                id@,
                result.folders.deep_view(),
                result.updated.deep_view(),
            ),
            Err(error) => went_wrong(old(ajour).deep_view(), reason, flavor, id@, error@),
        },
{
    proof {
        reveal(unpacked);
    }
    let ghost before = ajour.deep_view();
    match result {
        Err(error) => retry(ajour, reason, flavor, id, error),
        Ok(result) => {
            let ghost folders = result.folders.deep_view();
            let addons = ajour.addons.list_mut(flavor);
            let installs = ajour.catalog_install_addons.list_mut(flavor);
            let mut position: Option<usize> = None;
            match reason {
                DownloadReason::Update => {
                    position = find(addons, &WithId { id: &id });
                },
                DownloadReason::Install => {
                    if let Some(i) = find(installs, &OfAddon { id: &id }) {
                        if let Some(addon) = &installs[i].addon {
                            retain(addons, &WithOtherFolders { folders: &result.folders });
                            let ghost kept = addons.deep_view();
                            addons.push(addon.clone());
                            assert(addons.deep_view() =~= kept.push(addon.deep_view()));
                            position = find(addons, &WithId { id: &id });
                        }
                    }
                    retain(installs, &NotOfAddon { id: &id });
                },
            }
            assert(addons.deep_view() == list_after_unpacking(before, reason, flavor, id@, folders));
            assert(installs.deep_view() == installs_after_unpacking(before, reason, flavor, id@));
            match position {
                Some(i) => {
                    let ghost listed = addons.deep_view();
                    let mut addon = match result.updated {
                        Some(updated) => updated,
                        None => addons[i].clone(),
                    };
                    settle(&mut addon);
                    let step = after_unpacking(
                        &addon,
                        ajour.addon_cache,
                        ajour.fingerprint_cache,
                        dirs,
                        flavor,
                    );
                    let ghost view = addon.deep_view();
                    addons[i] = addon;
                    assert(addons.deep_view() =~= listed.update(i as int, view));
                    step
                },
                None => Step::none(),
            }
        },
    }
}

/// The addon that unpacked folders belong to: the one to give them to before
/// `Message::UnpackedAddon` is handed in.
pub fn unpack_target(
    ajour: &Ajour,
    reason: DownloadReason,
    flavor: Flavor,
    id: &String,
    folders: &Vec<AddonFolder>,
) -> (addon: Option<Addon>)
    ensures
        addon.deep_view() == target(
            ajour.deep_view(),
            reason,
            flavor,
            id@,
            folders.deep_view(),
        ),
{
    let mut addons: Vec<Addon> = Vec::new();
    if let Some(listed) = ajour.addons.get(flavor) {
        addons = listed.clone();
        assert(addons.deep_view() =~= listed.deep_view());
    }
    assert(addons.deep_view() =~= list_for(ajour.deep_view().addons, flavor));
    match reason {
        DownloadReason::Update => {},
        DownloadReason::Install => {
            let ghost installs = list_for(ajour.deep_view().installs, flavor);
            match ajour.catalog_install_addons.get(flavor) {
                Some(listed) => match find(listed, &OfAddon { id }) {
                    Some(i) => {
                        if let Some(addon) = &listed[i].addon {
                            retain(&mut addons, &WithOtherFolders { folders });
                            let ghost kept = addons.deep_view();
                            addons.push(addon.clone());
                            assert(addons.deep_view() =~= kept.push(addon.deep_view()));
                        }
                    },
                    None => {
                        return None;
                    },
                },
                None => {
                    proof {
                        first_where_finds_the_first(installs, of_addon(id@));
                    }
                    return None;
                },
            }
        },
    }
    match find(&addons, &WithId { id }) {
        Some(i) => Some(addons[i].clone()),
        None => None,
    }
}

/// Whether the addon of the catalog entry is needed: the entry is being installed.
pub fn awaits(ajour: &Ajour, flavor: Flavor, id: i32) -> (awaited: bool)
    ensures
        awaited == is_awaited(ajour.deep_view(), flavor, id),
{
    match ajour.catalog_install_addons.get(flavor) {
        Some(installs) => find(installs, &OfEntry { id }).is_some(),
        None => {
            proof {
                first_where_finds_the_first(
                    list_for(ajour.deep_view().installs, flavor),
                    of_entry(id),
                );
            }
            false
        },
    }
}

/// Whether a download is of use: the addon is listed, or it is being installed.
pub fn takes_up(ajour: &Ajour, reason: DownloadReason, flavor: Flavor, id: &String) -> (taken: bool)
    ensures
        taken == is_taken_up(ajour.deep_view(), reason, flavor, id@),
{
    proof {
        first_where_finds_the_first(list_for(ajour.deep_view().addons, flavor), with_id(id@));
        first_where_finds_the_first(list_for(ajour.deep_view().installs, flavor), of_addon(id@));
    }
    match reason {
        DownloadReason::Update => match ajour.addons.get(flavor) {
            Some(addons) => find(addons, &WithId { id }).is_some(),
            None => false,
        },
        DownloadReason::Install => match ajour.catalog_install_addons.get(flavor) {
            Some(installs) => find(installs, &OfAddon { id }).is_some(),
            None => false,
        },
    }
}

/// Whether fingerprints are to be taken once an addon is unpacked.
pub fn needs_hashing(
    ajour: &Ajour,
    reason: DownloadReason,
    flavor: Flavor,
    id: &String,
    unpacked: &Unpacked,
) -> (needed: bool)
    ensures
        needed == is_hashed(
            ajour.deep_view(),
            reason,
            flavor,
            id@,
            unpacked.folders.deep_view(),
            unpacked.updated.deep_view(),
        ),
{
    if ajour.fingerprint_cache.is_none() {
        return false;
    }
    match unpack_target(ajour, reason, flavor, id, &unpacked.folders) {
        Some(addon) => match &unpacked.updated {
            Some(updated) => updated.folders.len() > 0,
            None => addon.folders.len() > 0,
        },
        None => false,
    }
}

} // verus!
