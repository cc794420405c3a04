//! What is promised of reactions that concern downloading, unpacking and installing addons.
use super::addons::lemma_first_named;
use super::sorting::{release_of, releases_and_places_come_from_standings};
use super::words::{
    asks_for, asks_nothing, is_first_named, is_unnamed, of, same_but_at, same_elsewhere,
};
use crate::addon::{
    same_folders, with_other_folders, Addon, AddonView, FolderView, Repository, StateView,
};
use crate::catalog::{
    not_of_addon, of_addon, of_entry, of_entry_named, of_other_entry, CatalogInstallStatus,
    InstallView, Source,
};
use crate::list::{first_where, first_where_finds_the_first, is_first, Condition};
use crate::message::{DownloadReason, Interaction, Message, Unpacked};
use crate::state::{AjourView, Directories};
use crate::task::{Save, TaskView};
use crate::text::decimal;
use crate::update::install::{
    cache_tasks, downloaded, hash_tasks, install_fetched, install_requested, install_unavailable,
    is_taken_up, list_after_unpacking, settled, target, target_position, unpacked, went_wrong,
};
use crate::update::transition;
use crate::wow::Flavor;
use vstd::prelude::*;

verus! {

/// The first install that meets the condition stands at the position.
pub open spec fn is_first_install(
    installs: Seq<InstallView>,
    condition: Condition<InstallView>,
    i: int,
) -> bool {
    &&& 0 <= i < installs.len()
    &&& condition(installs[i])
    &&& forall|j: int| 0 <= j < i ==> !condition(#[trigger] installs[j])
}

/// No install meets the condition.
pub open spec fn is_no_install(
    installs: Seq<InstallView>,
    condition: Condition<InstallView>,
) -> bool {
    forall|j: int| 0 <= j < installs.len() ==> !condition(#[trigger] installs[j])
}

/// Being an install of the catalog entry.
pub open spec fn installs_entry(id: i32) -> Condition<InstallView> {
    |install: InstallView| install.id == id
}

/// Being an install that has fetched the addon with the identifier.
pub open spec fn installs_addon(id: Seq<char>) -> Condition<InstallView> {
    |install: InstallView| install.addon is Some && install.addon->0.primary_folder_id == id
}

pub(crate) proof fn lemma_first_install(
    installs: Seq<InstallView>,
    condition: Condition<InstallView>,
    other: Condition<InstallView>,
)
    requires
        forall|install: InstallView| #[trigger] condition(install) == other(install),
    ensures
        forall|i: int| #[trigger]
            is_first_install(installs, condition, i) ==> first_where(installs, other) == Some(i),
        is_no_install(installs, condition) <==> first_where(installs, other) is None,
        first_where(installs, other) is Some ==> is_first_install(
            installs,
            condition,
            first_where(installs, other)->0,
        ),
{
    first_where_finds_the_first(installs, other);
    assert(condition =~= other);
    assert forall|i: int| #[trigger] is_first_install(installs, condition, i) implies first_where(
        installs,
        other,
    ) == Some(i) by {
        assert(is_first(installs, other, i));
    }
}

/// Only the addons and the installs of the flavor change.
pub open spec fn changes_the_lists_only(
    before: AjourView,
    after: AjourView,
    flavor: Flavor,
) -> bool {
    &&& after == (AjourView { addons: after.addons, installs: after.installs, ..before })
    &&& same_elsewhere(after.addons, before.addons, flavor)
    &&& same_elsewhere(after.installs, before.installs, flavor)
}

/// Installing a catalog entry forgets earlier installs of it and no others, begins a new one after
/// them, and fetches the addon from the service. The settings are closed, and all else stays.
pub proof fn installing_an_entry_fetches_its_addon(
    ajour: AjourView,
    dirs: Directories,
    source: Source,
    flavor: Flavor,
    id: i32,
)
    ensures
        ({
            let result = transition(
                ajour,
                dirs,
                Message::Interaction(Interaction::CatalogInstall(source, flavor, id)),
            );
            let after = result.ajour;
            &&& after == (AjourView {
                installs: after.installs,
                is_showing_settings: false,
                ..ajour
            })
            &&& same_elsewhere(after.installs, ajour.installs, flavor)
            &&& of(after.installs, flavor) == of(ajour.installs, flavor).filter(
                |install: InstallView| install.id != id,
            ).push(InstallView { id, status: CatalogInstallStatus::Downloading, addon: None })
            &&& asks_for(result.step, TaskView::FetchLatestAddon { source, id, flavor })
        }),
{
    reveal(install_requested);
    assert(of_other_entry(id) =~= (|install: InstallView| install.id != id));
}

/// An addon that was fetched for the first install of the entry is held there and downloaded, to
/// the folder for downloads. An entry that is not being installed changes nothing. All else stays.
pub proof fn a_fetched_addon_is_downloaded(
    ajour: AjourView,
    dirs: Directories,
    flavor: Flavor,
    id: i32,
    addon: Addon,
    i: int,
)
    ensures
        ({
            let installs = of(ajour.installs, flavor);
            let result = transition(
                ajour,
                dirs,
                Message::CatalogInstallAddonFetched(flavor, id, Ok(addon)),
            );
            let after = result.ajour;
            let downloading = AddonView { state: StateView::Downloading, ..addon.deep_view() };
            &&& after == (AjourView { installs: after.installs, ..ajour })
            &&& same_elsewhere(after.installs, ajour.installs, flavor)
            &&& is_first_install(installs, installs_entry(id), i) ==> {
                &&& same_but_at(of(after.installs, flavor), installs, i)
                &&& of(after.installs, flavor)[i] == (InstallView {
                    addon: Some(downloading),
                    ..installs[i]
                })
                &&& asks_for(
                    result.step,
                    TaskView::DownloadAddon {
                        reason: DownloadReason::Install,
                        flavor,
                        addon: downloading,
                        to_directory: dirs.downloads.slot(flavor)->0,
                    },
                )
            }
            &&& is_no_install(installs, installs_entry(id)) ==> of(after.installs, flavor)
                == installs && asks_nothing(result.step)
        }),
{
    reveal(install_fetched);
    lemma_first_install(of(ajour.installs, flavor), installs_entry(id), of_entry(id));
}

/// An addon that could not be fetched makes the first install of the entry unavailable. All else
/// stays, and nothing is done.
pub proof fn an_addon_that_is_not_fetched_is_unavailable(
    ajour: AjourView,
    dirs: Directories,
    flavor: Flavor,
    id: i32,
    error: String,
    i: int,
)
    ensures
        ({
            let installs = of(ajour.installs, flavor);
            let result = transition(
                ajour,
                dirs,
                Message::CatalogInstallAddonFetched(flavor, id, Err(error)),
            );
            let after = result.ajour;
            &&& after == (AjourView { installs: after.installs, ..ajour })
            &&& same_elsewhere(after.installs, ajour.installs, flavor)
            &&& asks_nothing(result.step)
            &&& is_first_install(installs, installs_entry(id), i) ==> {
                &&& same_but_at(of(after.installs, flavor), installs, i)
                &&& of(after.installs, flavor)[i] == (InstallView {
                    status: CatalogInstallStatus::Unavilable,
                    ..installs[i]
                })
            }
            &&& is_no_install(installs, installs_entry(id)) ==> of(after.installs, flavor)
                == installs
        }),
{
    reveal(install_unavailable);
    lemma_first_install(of(ajour.installs, flavor), installs_entry(id), of_entry(id));
}

/// A download or an unpacking that goes wrong shows the error and leaves the addons as they are.
/// Where it was for an install, the first install of the entry whose number the identifier writes
/// can be tried again. All else stays, and nothing is done.
pub proof fn what_goes_wrong_can_be_tried_again(
    ajour: AjourView,
    dirs: Directories,
    reason: DownloadReason,
    flavor: Flavor,
    id: String,
    error: String,
    message: Message,
    i: int,
)
    requires
        message == Message::DownloadedAddon(reason, flavor, id, Err(error)) || message
            == Message::UnpackedAddon(reason, flavor, id, Err(error)),
    ensures
        ({
            let installs = of(ajour.installs, flavor);
            let named = |install: InstallView| decimal(install.id as int) == id@;
            let result = transition(ajour, dirs, message);
            let after = result.ajour;
            &&& after == (AjourView {
                error: Some(error@),
                addons: after.addons,
                installs: after.installs,
                ..ajour
            })
            &&& same_elsewhere(after.addons, ajour.addons, flavor)
            &&& same_elsewhere(after.installs, ajour.installs, flavor)
            &&& of(after.addons, flavor) == of(ajour.addons, flavor)
            &&& asks_nothing(result.step)
            &&& is_first_install(installs, named, i) && reason == DownloadReason::Install ==> {
                &&& same_but_at(of(after.installs, flavor), installs, i)
                &&& of(after.installs, flavor)[i] == (InstallView {
                    status: CatalogInstallStatus::Retry,
                    ..installs[i]
                })
            }
            &&& is_no_install(installs, named) || reason == DownloadReason::Update ==> of(
                after.installs,
                flavor,
            ) == installs
        }),
{
    reveal(went_wrong);
    let named = |install: InstallView| decimal(install.id as int) == id@;
    lemma_first_install(of(ajour.installs, flavor), named, of_entry_named(id@));
}

/// An update that was downloaded is unpacked, from the folder for downloads to the folder of
/// addons, where the first addon with the identifier is waiting for that, and its state says so. An
/// addon that is not waiting, or that is not listed, changes nothing. All else stays.
pub proof fn a_downloaded_update_is_unpacked(
    ajour: AjourView,
    dirs: Directories,
    flavor: Flavor,
    id: String,
    i: int,
)
    ensures
        ({
            let addons = of(ajour.addons, flavor);
            let result = transition(
                ajour,
                dirs,
                Message::DownloadedAddon(DownloadReason::Update, flavor, id, Ok(())),
            );
            let after = result.ajour;
            let shown = of(after.addons, flavor);
            &&& changes_the_lists_only(ajour, after, flavor)
            &&& of(after.installs, flavor) == of(ajour.installs, flavor)
            &&& is_first_named(addons, id@, i) && addons[i].state == StateView::Downloading ==> {
                let addon = AddonView { state: StateView::Unpacking, ..addons[i] };
                &&& same_but_at(shown, addons, i)
                &&& shown[i] == addon
                &&& dirs.addons.slot(flavor) is Some ==> asks_for(
                    result.step,
                    TaskView::UnpackAddon {
                        reason: DownloadReason::Update,
                        flavor,
                        addon,
                        from_directory: dirs.downloads.slot(flavor)->0,
                        to_directory: dirs.addons.slot(flavor)->0.path,
                    },
                )
            }
            &&& is_unnamed(addons, id@) || (is_first_named(addons, id@, i) && addons[i].state
                != StateView::Downloading) ==> shown == addons && asks_nothing(result.step)
        }),
{
    reveal(downloaded);
    lemma_first_named(of(ajour.addons, flavor), id@);
}

/// An addon that was downloaded to be installed is unpacked, from the folder for downloads to the
/// folder of addons, where the first install that has fetched it is waiting for that, and its state
/// says so. The install's status says that it is unpacked in any case. Without such an install
/// nothing changes. All else stays.
pub proof fn a_downloaded_install_is_unpacked(
    ajour: AjourView,
    dirs: Directories,
    flavor: Flavor,
    id: String,
    i: int,
)
    ensures
        ({
            let installs = of(ajour.installs, flavor);
            let result = transition(
                ajour,
                dirs,
                Message::DownloadedAddon(DownloadReason::Install, flavor, id, Ok(())),
            );
            let after = result.ajour;
            let shown = of(after.installs, flavor);
            &&& changes_the_lists_only(ajour, after, flavor)
            &&& of(after.addons, flavor) == of(ajour.addons, flavor)
            &&& is_first_install(installs, installs_addon(id@), i) ==> {
                let fetched = installs[i].addon->0;
                let addon = AddonView { state: StateView::Unpacking, ..fetched };
                &&& same_but_at(shown, installs, i)
                &&& fetched.state == StateView::Downloading ==> {
                    &&& shown[i] == (InstallView {
                        status: CatalogInstallStatus::Unpacking,
                        addon: Some(addon),
                        ..installs[i]
                    })
                    &&& dirs.addons.slot(flavor) is Some ==> asks_for(
                        result.step,
                        TaskView::UnpackAddon {
                            reason: DownloadReason::Install,
                            flavor,
                            addon,
                            from_directory: dirs.downloads.slot(flavor)->0,
                            to_directory: dirs.addons.slot(flavor)->0.path,
                        },
                    )
                }
                &&& fetched.state != StateView::Downloading ==> {
                    &&& shown[i] == (InstallView {
                        status: CatalogInstallStatus::Unpacking,
                        ..installs[i]
                    })
                    &&& asks_nothing(result.step)
                }
            }
            &&& is_no_install(installs, installs_addon(id@)) ==> shown == installs
                && asks_nothing(result.step)
        }),
{
    reveal(downloaded);
    lemma_first_install(of(ajour.installs, flavor), installs_addon(id@), of_addon(id@));
}

/// The addon consists of the folders.
pub open spec fn consists_of(addon: AddonView, folders: Seq<FolderView>) -> bool {
    &&& addon.folders.len() == folders.len()
    &&& forall|k: int|
        0 <= k < folders.len() ==> addon.folders[k].key == (#[trigger] folders[k]).key
}

/// The list in which an addon that was unpacked is looked for: as it is for an update, and for an
/// install without the addons that consist of the folders, and with the addon that was fetched at
/// the end.
pub open spec fn is_list_to_settle_in(
    ajour: AjourView,
    reason: DownloadReason,
    flavor: Flavor,
    id: Seq<char>,
    folders: Seq<FolderView>,
    list: Seq<AddonView>,
) -> bool {
    match reason {
        DownloadReason::Update => list == of(ajour.addons, flavor),
        DownloadReason::Install => exists|i: int|
            #[trigger] is_first_install(of(ajour.installs, flavor), installs_addon(id), i) && list
                == of(ajour.addons, flavor).filter(
                |addon: AddonView| !consists_of(addon, folders),
            ).push(of(ajour.installs, flavor)[i].addon->0),
    }
}

/// What is left of an addon that was unpacked: it waits for its fingerprint, and its version is
/// that of the release that its channel offers, where there is one.
pub open spec fn is_settled_form(addon: AddonView, shown: AddonView) -> bool {
    shown == (AddonView {
        state: StateView::Fingerprint,
        version: match release_of(addon) {
            Some(package) => Some(package.version),
            None => addon.version,
        },
        ..addon
    })
}

/// The tasks for an addon that was unpacked: its entry in the addon cache is removed where it comes
/// from Curse, and written where it comes from Tukui or WoWInterface, if there is a cache that it
/// can be in; then the fingerprint of each of its folders is taken, if there is a cache for them.
pub open spec fn are_tasks_for(
    ajour: AjourView,
    dirs: Directories,
    flavor: Flavor,
    addon: AddonView,
    tasks: Seq<TaskView>,
) -> bool {
    let is_cached = ajour.addon_cache is Some && addon.cacheable && addon.active_repository is Some;
    let first: int = if is_cached {
        1
    } else {
        0
    };
    &&& is_cached && addon.active_repository == Some(Repository::Curse) ==> tasks[0]
        == TaskView::RemoveAddonCacheEntry { cache: ajour.addon_cache->0, addon, flavor }
    &&& is_cached && (addon.active_repository == Some(Repository::Tukui) || addon.active_repository
        == Some(Repository::WowI)) ==> tasks[0] == TaskView::UpdateAddonCache {
        cache: ajour.addon_cache->0,
        addon,
        flavor,
    }
    &&& ajour.fingerprint_cache is None ==> tasks.len() == first
    &&& ajour.fingerprint_cache is Some ==> {
        &&& tasks.len() == first + addon.folders.len()
        &&& dirs.addons.slot(flavor) is Some ==> forall|k: int|
            0 <= k < addon.folders.len() ==> tasks[first + k] == TaskView::HashAddon {
                directory: dirs.addons.slot(flavor)->0.path,
                folder_id: (#[trigger] addon.folders[k]).id,
                cache: ajour.fingerprint_cache->0,
                flavor,
            }
    }
}

proof fn lemma_list(
    ajour: AjourView,
    reason: DownloadReason,
    flavor: Flavor,
    id: Seq<char>,
    folders: Seq<FolderView>,
    list: Seq<AddonView>,
)
    requires
        is_list_to_settle_in(ajour, reason, flavor, id, folders, list),
    ensures
        list == list_after_unpacking(ajour, reason, flavor, id, folders),
        reason == DownloadReason::Install ==> is_taken_up(ajour, reason, flavor, id),
        reason == DownloadReason::Update ==> (is_taken_up(ajour, reason, flavor, id)
            <==> !is_unnamed(list, id)),
{
    let installs = of(ajour.installs, flavor);
    lemma_first_install(installs, installs_addon(id), of_addon(id));
    lemma_first_named(of(ajour.addons, flavor), id);
    assert forall|addon: AddonView| #[trigger]
        with_other_folders(folders)(addon) == !consists_of(addon, folders) by {
        if consists_of(addon, folders) {
            assert forall|k: int| 0 <= k < addon.folders.len() implies (
            #[trigger] addon.folders[k]).key == folders[k].key by {
                assert(folders[k].key == folders[k].key);
            }
        }
        if same_folders(addon.folders, folders) {
            assert forall|k: int| 0 <= k < folders.len() implies addon.folders[k].key == (
            #[trigger] folders[k]).key by {
                assert(addon.folders[k].key == folders[k].key);
            }
        }
    }
    assert(with_other_folders(folders) =~= (|addon: AddonView| !consists_of(addon, folders)));
}

/// The addon that unpacked folders belong to is the first one with the identifier, among those that
/// are listed, or for an install among those that are listed once the addon that was fetched is.
/// Where that one is not fetched or none has the identifier, there is no such addon.
pub proof fn folders_belong_to_the_first_addon(
    ajour: AjourView,
    reason: DownloadReason,
    flavor: Flavor,
    id: Seq<char>,
    folders: Seq<FolderView>,
    list: Seq<AddonView>,
    i: int,
)
    ensures
        is_list_to_settle_in(ajour, reason, flavor, id, folders, list) && is_first_named(
            list,
            id,
            i,
        ) ==> target(ajour, reason, flavor, id, folders) == Some(list[i]),
        is_list_to_settle_in(ajour, reason, flavor, id, folders, list) && is_unnamed(list, id)
            ==> target(ajour, reason, flavor, id, folders) is None,
        reason == DownloadReason::Install && is_no_install(
            of(ajour.installs, flavor),
            installs_addon(id),
        ) ==> target(ajour, reason, flavor, id, folders) is None,
{
    lemma_first_install(of(ajour.installs, flavor), installs_addon(id), of_addon(id));
    if is_list_to_settle_in(ajour, reason, flavor, id, folders, list) {
        lemma_list(ajour, reason, flavor, id, folders, list);
        lemma_first_named(list, id);
    }
}

proof fn lemma_unpacked(
    ajour: AjourView,
    dirs: Directories,
    reason: DownloadReason,
    flavor: Flavor,
    id: Seq<char>,
    folders: Seq<FolderView>,
    updated: Option<AddonView>,
    list: Seq<AddonView>,
    i: int,
)
    requires
        is_list_to_settle_in(ajour, reason, flavor, id, folders, list),
        is_first_named(list, id, i),
    ensures
        ({
            let result = unpacked(ajour, dirs, reason, flavor, id, folders, updated);
            let shown = of(result.ajour.addons, flavor);
            let given = if updated is Some {
                updated->0
            } else {
                list[i]
            };
            &&& same_but_at(shown, list, i)
            &&& is_settled_form(given, shown[i])
            &&& are_tasks_for(ajour, dirs, flavor, shown[i], result.step.tasks)
        }),
{
    reveal(unpacked);
    lemma_list(ajour, reason, flavor, id, folders, list);
    lemma_first_named(list, id);
    let given = if updated is Some {
        updated->0
    } else {
        list[i]
    };
    releases_and_places_come_from_standings(given);
    releases_and_places_come_from_standings(AddonView { state: StateView::Fingerprint, ..given });
    let result = unpacked(ajour, dirs, reason, flavor, id, folders, updated);
    let addon = settled(given);
    assert(target_position(ajour, reason, flavor, id, folders) == Some(i));
    assert(of(result.ajour.addons, flavor) == list.update(i, addon));
    assert(release_of(AddonView { state: StateView::Fingerprint, ..given }) == release_of(given));
    let cached = cache_tasks(ajour.addon_cache, addon, flavor);
    let hashed = hash_tasks(ajour.fingerprint_cache, dirs.addon(flavor), addon.folders, flavor);
    assert(result.step.tasks == cached + hashed);
}

/// An addon that was unpacked is settled in the list, whether it is updated or installed: the first
/// one with the identifier, or the one that is handed in for it. Its entry in the addon cache is
/// brought up to date and the fingerprints of its folders are taken. Its installs are done, where
/// it was installed. All else stays.
pub proof fn an_unpacked_addon_is_settled(
    ajour: AjourView,
    dirs: Directories,
    reason: DownloadReason,
    flavor: Flavor,
    id: String,
    content: Unpacked,
    list: Seq<AddonView>,
    i: int,
)
    ensures
        ({
            let folders = content.folders.deep_view();
            let installs = of(ajour.installs, flavor);
            let result = transition(
                ajour,
                dirs,
                Message::UnpackedAddon(reason, flavor, id, Ok(content)),
            );
            let after = result.ajour;
            let shown = of(after.addons, flavor);
            let is_list = is_list_to_settle_in(ajour, reason, flavor, id@, folders, list);
            &&& changes_the_lists_only(ajour, after, flavor)
            &&& result.step.save == Save::Skip
            &&& result.step.delete.len() == 0
            &&& reason == DownloadReason::Update ==> of(after.installs, flavor) == installs
            &&& reason == DownloadReason::Install ==> of(after.installs, flavor)
                == installs.filter(
                |install: InstallView|
                    install.addon is None || install.addon->0.primary_folder_id != id@,
            )
            &&& is_list && is_first_named(list, id@, i) ==> {
                let given = if content.updated is Some {
                    content.updated->0.deep_view()
                } else {
                    list[i]
                };
                &&& same_but_at(shown, list, i)
                &&& is_settled_form(given, shown[i])
                &&& are_tasks_for(ajour, dirs, flavor, shown[i], result.step.tasks)
            }
            &&& is_list && is_unnamed(list, id@) ==> shown == list && result.step.tasks.len() == 0
            &&& reason == DownloadReason::Install && is_no_install(installs, installs_addon(id@))
                ==> shown == of(ajour.addons, flavor) && result.step.tasks.len() == 0
        }),
{
    let folders = content.folders.deep_view();
    let installs = of(ajour.installs, flavor);
    assert(not_of_addon(id@) =~= (|install: InstallView|
        install.addon is None || install.addon->0.primary_folder_id != id@));
    lemma_first_install(installs, installs_addon(id@), of_addon(id@));
    if is_list_to_settle_in(ajour, reason, flavor, id@, folders, list) {
        lemma_list(ajour, reason, flavor, id@, folders, list);
        lemma_first_named(list, id@);
        if is_first_named(list, id@, i) {
            lemma_unpacked(
                ajour,
                dirs,
                reason,
                flavor,
                id@,
                folders,
                content.updated.deep_view(),
                list,
                i,
            );
        }
    }
    reveal(unpacked);
}

} // verus!
