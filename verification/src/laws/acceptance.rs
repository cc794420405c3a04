//! Which messages can be handled.
use super::addons::lemma_first_named;
use super::installing::{
    folders_belong_to_the_first_addon, installs_addon, installs_entry, is_list_to_settle_in,
    is_no_install, lemma_first_install,
};
use super::sorting::releases_and_places_come_from_standings;
use super::unfolding::{file_for, is_unfolded, lemma_unfolded};
use super::words::{is_first_named, is_unnamed, of};
use crate::addon::{Addon, AddonFolder, AddonView, Repository};
use crate::catalog::{of_addon, of_entry};
use crate::message::{DownloadReason, Interaction, Message, Unpacked};
use crate::state::{AddonVersionKey, Ajour, AjourView, Changelog, Directories, ExpandType};
use crate::text::parsed_u32;
use crate::update::{can_handle, is_acceptable, unpack_target};
use crate::wow::Flavor;
use vstd::prelude::*;

verus! {

/// A message can be handled, unless it needs a folder or a number that is not known: an update that
/// is asked for needs the folder for downloads of the chosen flavor, and a changelog of Curse that
/// is not unfolded and whose file is known needs the addon's number.
pub proof fn most_messages_can_be_handled(ajour: AjourView, dirs: Directories, message: Message)
    ensures
        message matches Message::Interaction(interaction) ==> {
            &&& interaction is Update ==> (is_acceptable(ajour, dirs, message)
                <==> dirs.downloads.slot(ajour.config.flavor) is Some)
            &&& !(interaction is Update) && !(interaction is Expand) ==> is_acceptable(
                ajour,
                dirs,
                message,
            )
            &&& interaction matches Interaction::Expand(expand_type) ==> !(
            expand_type matches ExpandType::Changelog(Changelog::Request(_, _))) ==> is_acceptable(
                ajour,
                dirs,
                message,
            )
        },
        !(message is Interaction) && !(message is DownloadedAddon) && !(message is UnpackedAddon)
            && !(message is CatalogInstallAddonFetched) ==> is_acceptable(ajour, dirs, message),
        message matches Message::DownloadedAddon(_, _, _, Err(_)) ==> is_acceptable(
            ajour,
            dirs,
            message,
        ),
        message matches Message::UnpackedAddon(_, _, _, Err(_)) ==> is_acceptable(
            ajour,
            dirs,
            message,
        ),
        message matches Message::CatalogInstallAddonFetched(_, _, Err(_)) ==> is_acceptable(
            ajour,
            dirs,
            message,
        ),
{
}

/// Asking for a changelog can be handled, unless it comes from Curse, is not unfolded, its file is
/// known, and the addon's name there is no number.
pub proof fn readable_numbers_can_be_handled(
    ajour: AjourView,
    dirs: Directories,
    addon: Addon,
    key: AddonVersionKey,
)
    ensures
        ({
            let view = addon.deep_view();
            let message = Message::Interaction(
                Interaction::Expand(ExpandType::Changelog(Changelog::Request(addon, key))),
            );
            !is_acceptable(ajour, dirs, message) <==> {
                &&& !is_unfolded(ajour, view, key)
                &&& view.active_repository == Some(Repository::Curse)
                &&& view.repository_id is Some
                &&& file_for(view, key) is Some
                &&& parsed_u32(view.repository_id->0) is None
            }
        }),
{
    let view = addon.deep_view();
    releases_and_places_come_from_standings(view);
    lemma_unfolded(ajour, view, key);
}

/// A download can be handled where both folders of the flavor are known, or where the addon is
/// neither listed, for an update, nor being installed, for an install.
pub proof fn known_folders_suffice_for_downloads(
    ajour: AjourView,
    dirs: Directories,
    reason: DownloadReason,
    flavor: Flavor,
    id: String,
)
    ensures
        ({
            let message = Message::DownloadedAddon(reason, flavor, id, Ok(()));
            let is_of_no_use = match reason {
                DownloadReason::Update => is_unnamed(of(ajour.addons, flavor), id@),
                DownloadReason::Install => is_no_install(
                    of(ajour.installs, flavor),
                    installs_addon(id@),
                ),
            };
            is_acceptable(ajour, dirs, message) <==> is_of_no_use || (dirs.downloads.slot(flavor)
                is Some && dirs.addons.slot(flavor) is Some)
        }),
{
    lemma_first_named(of(ajour.addons, flavor), id@);
    lemma_first_install(of(ajour.installs, flavor), installs_addon(id@), of_addon(id@));
}

/// An addon that was fetched can be handled where the folder for downloads of the flavor is known,
/// or where its entry is not being installed.
pub proof fn a_known_folder_suffices_for_installs(
    ajour: AjourView,
    dirs: Directories,
    flavor: Flavor,
    id: i32,
    addon: Addon,
)
    ensures
        is_acceptable(ajour, dirs, Message::CatalogInstallAddonFetched(flavor, id, Ok(addon)))
            <==> is_no_install(of(ajour.installs, flavor), installs_entry(id))
            || dirs.downloads.slot(flavor) is Some,
{
    lemma_first_install(of(ajour.installs, flavor), installs_entry(id), of_entry(id));
}

/// An addon that was unpacked can be handled where the folder of addons of the flavor is known,
/// where there is no cache for fingerprints, where there is no such addon, or where it has no
/// folders.
pub proof fn a_known_folder_suffices_for_unpacking(
    ajour: AjourView,
    dirs: Directories,
    reason: DownloadReason,
    flavor: Flavor,
    id: String,
    content: Unpacked,
    list: Seq<AddonView>,
    i: int,
)
    ensures
        ({
            let folders = content.folders.deep_view();
            let message = Message::UnpackedAddon(reason, flavor, id, Ok(content));
            let is_list = is_list_to_settle_in(ajour, reason, flavor, id@, folders, list);
            let given = if content.updated is Some {
                content.updated->0.deep_view()
            } else {
                list[i]
            };
            &&& dirs.addons.slot(flavor) is Some || ajour.fingerprint_cache is None
                ==> is_acceptable(ajour, dirs, message)
            &&& is_list && is_unnamed(list, id@) ==> is_acceptable(ajour, dirs, message)
            &&& reason == DownloadReason::Install && is_no_install(
                of(ajour.installs, flavor),
                installs_addon(id@),
            ) ==> is_acceptable(ajour, dirs, message)
            &&& is_list && is_first_named(list, id@, i) && dirs.addons.slot(flavor) is None
                && ajour.fingerprint_cache is Some ==> (is_acceptable(ajour, dirs, message)
                <==> given.folders.len() == 0)
        }),
{
    folders_belong_to_the_first_addon(
        ajour,
        reason,
        flavor,
        id@,
        content.folders.deep_view(),
        list,
        i,
    );
}

/// Whether a message can be handled is answered truly, and the addon that unpacked folders belong
/// to is named truly.
pub proof fn answers_are_true(
    ajour: Ajour,
    dirs: Directories,
    message: Message,
    answer: bool,
    reason: DownloadReason,
    flavor: Flavor,
    id: String,
    folders: Vec<AddonFolder>,
    named: Option<Addon>,
    list: Seq<AddonView>,
    i: int,
)
    requires
        call_ensures(can_handle, (&ajour, &dirs, &message), answer),
        call_ensures(unpack_target, (&ajour, reason, flavor, &id, &folders), named),
    ensures
        answer <==> is_acceptable(ajour.deep_view(), dirs, message),
        ({
            let view = ajour.deep_view();
            let given = folders.deep_view();
            let is_list = is_list_to_settle_in(view, reason, flavor, id@, given, list);
            &&& is_list && is_first_named(list, id@, i) ==> named is Some && named->0.deep_view()
                == list[i]
            &&& is_list && is_unnamed(list, id@) ==> named is None
            &&& reason == DownloadReason::Install && is_no_install(
                of(view.installs, flavor),
                installs_addon(id@),
            ) ==> named is None
        }),
{
    folders_belong_to_the_first_addon(
        ajour.deep_view(),
        reason,
        flavor,
        id@,
        folders.deep_view(),
        list,
        i,
    );
}

} // verus!
