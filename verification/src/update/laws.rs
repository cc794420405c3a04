//! Laws of the reactions.
use super::addons::{
    all_updated, channel_selected, current_addons, deleted, due, fingerprinted, ignored, other_than,
    unignored, updated, with_due_downloading,
};
use super::columns::{column_sorted, next_direction, of_column, resized, sorted_by};
use super::expand::{changelog_fetched, expanded, shows_details};
use super::install::{
    downloaded, install_requested, is_taken_up, list_after_unpacking, settled, unpacked, unpacking,
    went_wrong,
};
use super::listing::{
    addons_parsed, all_listed, listed, parsed, read_count, valid_after, without_directory,
    without_runs,
};
use super::transition;
use super::window::settings_toggled;
use crate::addon::{
    same_folders, with_id, with_other_folders, without_id, Addon, AddonView, FolderView, StateView,
};
use crate::catalog::{
    not_of_addon, of_addon, of_entry, of_other_entry, CatalogInstallStatus, InstallView, Source,
};
use crate::config::{channels_for, ColumnKey, Key};
use crate::flavor_map::list_for;
use crate::list::{filter_of_pushed, first_where, first_where_finds_the_first, is_first, Condition};
use crate::message::{DownloadReason, Interaction, Message};
use crate::order::{
    ascending, sorted_values_ascend, sorting_keeps_every_value, sorting_keeps_membership,
};
use crate::sort::{addon_order, addon_order_is_total_preorder};
use crate::state::{
    AddonVersionKey, AjourView, ChangelogView, ColumnState, Directories, ExpandType, ExpandView,
    HeaderView,
    Mode, PayloadView, SortDirection,
};
use crate::task::{idle, Save, TaskView};
use crate::wow::Flavor;
use std::path::PathBuf;
use vstd::prelude::*;

verus! {

/// Turning a direction round twice gives it back.
pub proof fn toggling_twice_restores_the_direction(direction: SortDirection)
    ensures
        direction.spec_toggle().spec_toggle() == direction,
        direction.spec_toggle() != direction,
{
}

/// The first click on a column sorts ascending, except that a list that was never sorted counts as
/// sorted by its titles.
pub proof fn the_first_click_on_a_column_sorts_ascending<K: Key>(header: HeaderView<K>, key: K)
    requires
        header.previous_column_key != Some(key),
    ensures
        next_direction(header, key) == if header.previous_column_key is None && key == K::title() {
            SortDirection::Desc
        } else {
            SortDirection::Asc
        },
{
}

/// Each further click on a column turns the direction round.
pub proof fn another_click_on_a_column_turns_it_round<K: Key>(header: HeaderView<K>, key: K)
    ensures
        next_direction(sorted_by(header, key, next_direction(header, key)), key) == next_direction(
            header,
            key,
        ).spec_toggle(),
{
}

/// A click on a column of the list of addons keeps the addons and puts them in the column's order.
pub proof fn sorting_a_column_orders_the_same_addons(ajour: AjourView, key: ColumnKey)
    ensures
        current_addons(column_sorted(ajour, key).ajour).to_multiset() == current_addons(
            ajour,
        ).to_multiset(),
        ascending(
            current_addons(column_sorted(ajour, key).ajour),
            addon_order(key, next_direction(ajour.header, key), ajour.collation),
        ),
{
    reveal(column_sorted);
    let direction = next_direction(ajour.header, key);
    let order = addon_order(key, direction, ajour.collation);
    addon_order_is_total_preorder(key, direction, ajour.collation);
    sorted_values_ascend(current_addons(ajour), order);
    sorting_keeps_every_value(current_addons(ajour), order);
}

/// A change of the columns' widths keeps the columns: what they are, whether they are hidden, and
/// how wide the columns are that were not named. The column of titles keeps its width in any case.
pub proof fn resizing_changes_the_named_columns_only<K: Key>(
    columns: Seq<ColumnState<K>>,
    key: K,
    width: u16,
    i: int,
)
    requires
        0 <= i < columns.len(),
    ensures
        resized(columns, key, width).len() == columns.len(),
        resized(columns, key, width)[i].key == columns[i].key,
        resized(columns, key, width)[i].hidden == columns[i].hidden,
        columns[i].key != key || columns[i].key == K::title() ==> resized(columns, key, width)[i]
            == columns[i],
{
    first_where_finds_the_first(columns, of_column(key));
}

/// An identifier is kept once an addon of the flavor is ignored, and no longer once it is not.
pub proof fn ignored_addons_are_noted(ajour: AjourView, id: Seq<char>)
    ensures
        first_where(current_addons(ajour), with_id(id)) is Some ==> list_for(
            ignored(ajour, id).ajour.config.ignored,
            ajour.config.flavor,
        ).contains(id),
        !list_for(unignored(ajour, id).ajour.config.ignored, ajour.config.flavor).contains(id),
{
    reveal(ignored);
    reveal(unignored);
    let ids = list_for(ajour.config.ignored, ajour.config.flavor);
    assert(ids.push(id)[ids.len() as int] == id);
    let kept = ids.filter(other_than(id));
    if kept.contains(id) {
        let i = choose|i: int| 0 <= i < kept.len() && kept[i] == id;
        ids.lemma_filter_pred(other_than(id), i);
    }
}

pub(crate) proof fn lemma_filter_keeps_all<V>(values: Seq<V>, condition: Condition<V>)
    requires
        forall|i: int| 0 <= i < values.len() ==> condition(#[trigger] values[i]),
    ensures
        values.filter(condition) == values,
    decreases values.len(),
{
    reveal(Seq::filter);
    if values.len() > 0 {
        let rest = values.drop_last();
        assert forall|i: int| 0 <= i < rest.len() implies condition(#[trigger] rest[i]) by {
            assert(rest[i] == values[i]);
        }
        lemma_filter_keeps_all(rest, condition);
        assert(condition(values[values.len() - 1]));
        assert(rest.push(values.last()) =~= values);
    }
}

/// Ignoring an addon and taking that back leaves the identifiers that are kept as they were. The
/// addon's state then follows from what is on offer for it, and it stays ignored where nothing is.
/// All other addons are as they were.
pub proof fn unignoring_takes_ignoring_back(ajour: AjourView, dirs: Directories, id: String)
    requires
        !list_for(ajour.config.ignored, ajour.config.flavor).contains(id@),
    ensures
        ({
            let flavor = ajour.config.flavor;
            let addons = current_addons(ajour);
            let ignored = transition(
                ajour,
                dirs,
                Message::Interaction(Interaction::Ignore(id)),
            ).ajour;
            let after = transition(
                ignored,
                dirs,
                Message::Interaction(Interaction::Unignore(id)),
            ).ajour;
            &&& list_for(after.config.ignored, flavor) == list_for(ajour.config.ignored, flavor)
            &&& current_addons(after) == match first_where(addons, with_id(id@)) {
                Some(i) => addons.update(
                    i,
                    addons[i].in_state(
                        if addons[i].relevant_package() is None {
                            StateView::Ignored
                        } else if addons[i].has_update() {
                            StateView::Updatable
                        } else {
                            StateView::Ajour(None)
                        },
                    ),
                ),
                None => addons,
            }
            &&& forall|other: Flavor|
                other != flavor ==> #[trigger] list_for(after.addons, other) == list_for(
                    ajour.addons,
                    other,
                )
        }),
{
    reveal(ignored);
    reveal(unignored);
    let ids = list_for(ajour.config.ignored, ajour.config.flavor);
    let addons = current_addons(ajour);
    assert(transition(ajour, dirs, Message::Interaction(Interaction::Ignore(id))) == ignored(
        ajour,
        id@,
    ));
    let once = ignored(ajour, id@).ajour;
    assert(transition(once, dirs, Message::Interaction(Interaction::Unignore(id))) == unignored(
        once,
        id@,
    ));
    assert forall|i: int| 0 <= i < ids.len() implies other_than(id@)(#[trigger] ids[i]) by {
        assert(ids.contains(ids[i]));
    }
    lemma_filter_keeps_all(ids, other_than(id@));
    filter_of_pushed(ids, id@, other_than(id@));
    first_where_finds_the_first(addons, with_id(id@));
    if first_where(addons, with_id(id@)) is Some {
        let i = first_where(addons, with_id(id@))->0;
        let noted = addons[i].in_state(StateView::Ignored);
        lemma_first_stays_first(addons, id@, noted);
        assert(noted.standing() == addons[i].standing());
        assert(addons.update(i, noted).update(i, noted.reassessed()) =~= addons.update(
            i,
            noted.reassessed(),
        ));
    }
}

/// Updating everything downloads what has an update and is not ignored, and nothing else.
pub proof fn updating_all_downloads_what_is_due(
    ajour: AjourView,
    directory: PathBuf,
    addon: AddonView,
)
    ensures
        all_updated(ajour, Some(directory)).step.tasks.len() == current_addons(ajour).filter(
            due(list_for(ajour.config.ignored, ajour.config.flavor)),
        ).len(),
        forall|i: int|
            #![trigger all_updated(ajour, Some(directory)).step.tasks[i]]
            0 <= i < all_updated(ajour, Some(directory)).step.tasks.len() ==> {
                let task = all_updated(ajour, Some(directory)).step.tasks[i];
                &&& task is DownloadAddon
                &&& task->DownloadAddon_addon.state == StateView::Downloading
                &&& !list_for(ajour.config.ignored, ajour.config.flavor).contains(
                    task->DownloadAddon_addon.primary_folder_id,
                )
            },
        current_addons(ajour).contains(addon) && addon.state == StateView::Updatable && !list_for(
            ajour.config.ignored,
            ajour.config.flavor,
        ).contains(addon.primary_folder_id) ==> all_updated(
            ajour,
            Some(directory),
        ).step.tasks.contains(
            TaskView::DownloadAddon {
                reason: DownloadReason::Update,
                flavor: ajour.config.flavor,
                addon: addon.in_state(StateView::Downloading),
                to_directory: directory,
            },
        ),
{
    reveal(all_updated);
    let ids = list_for(ajour.config.ignored, ajour.config.flavor);
    let addons = current_addons(ajour);
    let picked = addons.filter(due(ids));
    let tasks = all_updated(ajour, Some(directory)).step.tasks;
    assert forall|i: int| #![trigger tasks[i]] 0 <= i < tasks.len() implies !ids.contains(
        tasks[i]->DownloadAddon_addon.primary_folder_id,
    ) by {
        addons.lemma_filter_pred(due(ids), i);
    }
    if addons.contains(addon) && due(ids)(addon) {
        let i = choose|i: int| 0 <= i < addons.len() && addons[i] == addon;
        addons.lemma_filter_contains(due(ids), i);
        let j = choose|j: int| 0 <= j < picked.len() && picked[j] == addon;
        assert(tasks[j] == TaskView::DownloadAddon {
            reason: DownloadReason::Update,
            flavor: ajour.config.flavor,
            addon: addon.in_state(StateView::Downloading),
            to_directory: directory,
        });
    }
}

/// Updating everything a second time downloads nothing more.
pub proof fn updating_all_twice_downloads_once(ajour: AjourView, directory: PathBuf)
    ensures
        all_updated(
            all_updated(ajour, Some(directory)).ajour,
            Some(directory),
        ).step.tasks.len() == 0,
{
    reveal(all_updated);
    let ids = list_for(ajour.config.ignored, ajour.config.flavor);
    let once = with_due_downloading(current_addons(ajour), ids);
    assert(current_addons(all_updated(ajour, Some(directory)).ajour) == once);
    assert forall|i: int| 0 <= i < once.len() implies !due(ids)(#[trigger] once[i]) by {}
    once.lemma_all_neg_filter_empty(due(ids));
}

/// Deleting an addon deletes its folders and takes it out of the list. The other addons stay, in
/// their order.
pub proof fn deleting_removes_the_addon_only(ajour: AjourView, id: Seq<char>)
    requires
        first_where(current_addons(ajour), with_id(id)) is Some,
    ensures
        first_where(current_addons(deleted(ajour, id).ajour), with_id(id)) is None,
        current_addons(deleted(ajour, id).ajour) == current_addons(ajour).filter(without_id(id)),
        deleted(ajour, id).step.delete == current_addons(ajour)[first_where(
            current_addons(ajour),
            with_id(id),
        )->0].folders,
{
    reveal(deleted);
    let addons = current_addons(ajour);
    let kept = addons.filter(without_id(id));
    first_where_finds_the_first(kept, with_id(id));
    if first_where(kept, with_id(id)) is Some {
        let i = first_where(kept, with_id(id))->0;
        addons.lemma_filter_pred(without_id(id), i);
    }
}

/// An identifier that no addon has leaves the addons as they are and asks for nothing.
pub proof fn unknown_identifiers_change_nothing(
    ajour: AjourView,
    directory: PathBuf,
    id: Seq<char>,
)
    requires
        first_where(current_addons(ajour), with_id(id)) is None,
    ensures
        ({
            let outcomes = seq![ignored(ajour, id), deleted(ajour, id), updated(ajour, directory, id)];
            forall|i: int|
                0 <= i < outcomes.len() ==> {
                    let result = #[trigger] outcomes[i];
                    &&& result.step == idle()
                    &&& current_addons(result.ajour) == current_addons(ajour)
                    &&& result.ajour.config == ajour.config
                }
        }),
{
    reveal(ignored);
    reveal(deleted);
    reveal(updated);
}

/// A catalog entry that is installed has one install afterwards, which has just begun. The installs
/// of other entries stay.
pub proof fn an_entry_is_installed_once(ajour: AjourView, source: Source, flavor: Flavor, id: i32)
    ensures
        list_for(install_requested(ajour, source, flavor, id).ajour.installs, flavor).filter(
            of_entry(id),
        ) == seq![InstallView { id, status: CatalogInstallStatus::Downloading, addon: None }],
        list_for(install_requested(ajour, source, flavor, id).ajour.installs, flavor).filter(
            of_other_entry(id),
        ) == list_for(ajour.installs, flavor).filter(of_other_entry(id)),
{
    reveal(install_requested);
    let installs = list_for(ajour.installs, flavor);
    let others = installs.filter(of_other_entry(id));
    let begun = InstallView { id, status: CatalogInstallStatus::Downloading, addon: None };
    assert forall|i: int| 0 <= i < others.len() implies of_other_entry(id)(#[trigger] others[i]) by {
        installs.lemma_filter_pred(of_other_entry(id), i);
    }
    others.lemma_all_neg_filter_empty(of_entry(id));
    lemma_filter_keeps_all(others, of_other_entry(id));
    filter_of_pushed(others, begun, of_entry(id));
    filter_of_pushed(others, begun, of_other_entry(id));
    assert(others.filter(of_entry(id)).push(begun) =~= seq![begun]);
}

proof fn lemma_first_stays_first(addons: Seq<AddonView>, id: Seq<char>, addon: AddonView)
    requires
        first_where(addons, with_id(id)) is Some,
        addon.primary_folder_id == id,
    ensures
        first_where(
            addons.update(first_where(addons, with_id(id))->0, addon),
            with_id(id),
        ) == first_where(addons, with_id(id)),
        0 <= first_where(addons, with_id(id))->0 < addons.len(),
{
    let i = first_where(addons, with_id(id))->0;
    first_where_finds_the_first(addons, with_id(id));
    let changed = addons.update(i, addon);
    first_where_finds_the_first(changed, with_id(id));
    assert(is_first(changed, with_id(id), i));
}

proof fn lemma_settling_keeps_the_release(addon: AddonView)
    ensures
        settled(addon).relevant_package() == addon.relevant_package(),
        addon.relevant_package() is Some ==> settled(addon).version == Some(
            addon.relevant_package()->0.version,
        ),
{
    assert(addon.in_state(StateView::Fingerprint).standing() == addon.standing());
    assert(settled(addon).standing() == addon.standing());
}

/// An addon that is unpacked to be installed is listed, waits for its fingerprint, and is no longer
/// among the installs. Its version is that of the release that was unpacked.
pub proof fn an_installed_addon_is_listed(
    ajour: AjourView,
    dirs: Directories,
    flavor: Flavor,
    id: Seq<char>,
    folders: Seq<FolderView>,
    updated: Option<AddonView>,
)
    requires
        is_taken_up(ajour, DownloadReason::Install, flavor, id),
        updated is Some ==> updated->0.primary_folder_id == id,
    ensures
        ({
            let after = unpacked(
                ajour,
                dirs,
                DownloadReason::Install,
                flavor,
                id,
                folders,
                updated,
            );
            let addons = list_for(after.ajour.addons, flavor);
            let position = first_where(addons, with_id(id));
            let release = addons[position->0].relevant_package();
            &&& position is Some
            &&& addons[position->0].state == StateView::Fingerprint
            &&& release is Some ==> addons[position->0].version == Some(release->0.version)
            &&& first_where(list_for(after.ajour.installs, flavor), of_addon(id)) is None
        }),
{
    reveal(unpacked);
    let installs = list_for(ajour.installs, flavor);
    first_where_finds_the_first(installs, of_addon(id));
    let addons = list_after_unpacking(ajour, DownloadReason::Install, flavor, id, folders);
    first_where_finds_the_first(addons, with_id(id));
    assert(with_id(id)(addons[addons.len() - 1]));
    let i = first_where(addons, with_id(id))->0;
    let base = match updated {
        Some(updated) => updated,
        None => addons[i],
    };
    lemma_settling_keeps_the_release(base);
    lemma_first_stays_first(addons, id, settled(base));
    let kept = installs.filter(not_of_addon(id));
    first_where_finds_the_first(kept, of_addon(id));
    if first_where(kept, of_addon(id)) is Some {
        installs.lemma_filter_pred(not_of_addon(id), first_where(kept, of_addon(id))->0);
    }
}

/// An addon that is installed takes the place of the addons that consist of the folders that were
/// unpacked. It comes last, and the addons with other folders stay before it, in their order.
pub proof fn an_install_replaces_the_same_folders(
    ajour: AjourView,
    flavor: Flavor,
    id: Seq<char>,
    folders: Seq<FolderView>,
    i: int,
)
    requires
        is_taken_up(ajour, DownloadReason::Install, flavor, id),
        0 <= i < list_after_unpacking(
            ajour,
            DownloadReason::Install,
            flavor,
            id,
            folders,
        ).len() - 1,
    ensures
        ({
            let after = list_after_unpacking(
                ajour,
                DownloadReason::Install,
                flavor,
                id,
                folders,
            );
            &&& after.drop_last() == list_for(ajour.addons, flavor).filter(
                with_other_folders(folders),
            )
            &&& !same_folders(after[i].folders, folders)
            &&& after.last().primary_folder_id == id
        }),
{
    let addons = list_for(ajour.addons, flavor);
    let installs = list_for(ajour.installs, flavor);
    first_where_finds_the_first(installs, of_addon(id));
    let after = list_after_unpacking(ajour, DownloadReason::Install, flavor, id, folders);
    assert(after.drop_last() =~= addons.filter(with_other_folders(folders)));
    assert(after[i] == after.drop_last()[i]);
    addons.lemma_filter_pred(with_other_folders(folders), i);
}

/// An update that goes well takes an addon through all of its states: it is downloaded, then
/// unpacked, then its fingerprint is taken, and then it is looked after again. Its version is that
/// of the release that it was updated to: of the addon that the folders were given to, where one is
/// handed in.
pub proof fn an_update_runs_its_course(
    ajour: AjourView,
    dirs: Directories,
    directory: PathBuf,
    id: Seq<char>,
    folders: Seq<FolderView>,
    given: Option<AddonView>,
)
    requires
        first_where(current_addons(ajour), with_id(id)) is Some,
        given is Some ==> given->0.primary_folder_id == id,
    ensures
        ({
            let flavor = ajour.config.flavor;
            let i = first_where(current_addons(ajour), with_id(id))->0;
            let release = match given {
                Some(given) => given.relevant_package(),
                None => current_addons(ajour)[i].relevant_package(),
            };
            let asked = updated(ajour, directory, id);
            let fetched = downloaded(asked.ajour, dirs, DownloadReason::Update, flavor, id);
            let placed = unpacked(
                fetched.ajour,
                dirs,
                DownloadReason::Update,
                flavor,
                id,
                folders,
                given,
            );
            let done = fingerprinted(placed.ajour, flavor, id, true);
            &&& current_addons(asked.ajour)[i].state == StateView::Downloading
            &&& current_addons(fetched.ajour)[i].state == StateView::Unpacking
            &&& fetched.step == unpacking(
                dirs,
                DownloadReason::Update,
                flavor,
                current_addons(fetched.ajour)[i],
            )
            &&& current_addons(placed.ajour)[i].state == StateView::Fingerprint
            &&& release is Some ==> current_addons(placed.ajour)[i].version == Some(
                release->0.version,
            )
            &&& current_addons(done.ajour)[i].state == StateView::Ajour(Some("Completed"@))
        }),
{
    reveal(updated);
    reveal(fingerprinted);
    reveal(downloaded);
    reveal(unpacked);
    let addons = current_addons(ajour);
    let i = first_where(addons, with_id(id))->0;
    first_where_finds_the_first(addons, with_id(id));
    let downloading = addons[i].in_state(StateView::Downloading);
    lemma_first_stays_first(addons, id, downloading);
    let asked = addons.update(i, downloading);
    let unpacking = downloading.in_state(StateView::Unpacking);
    lemma_first_stays_first(asked, id, unpacking);
    let fetched = asked.update(i, unpacking);
    let base = match given {
        Some(given) => given,
        None => unpacking,
    };
    lemma_first_stays_first(fetched, id, settled(base));
    lemma_settling_keeps_the_release(base);
    assert(unpacking.standing() == addons[i].standing());
}

/// A download or an unpacking that goes wrong leaves the addons as they are.
pub proof fn failures_leave_the_addons(
    ajour: AjourView,
    reason: DownloadReason,
    flavor: Flavor,
    id: Seq<char>,
    error: Seq<char>,
    other: Flavor,
)
    ensures
        list_for(went_wrong(ajour, reason, flavor, id, error).ajour.addons, other) == list_for(
            ajour.addons,
            other,
        ),
        went_wrong(ajour, reason, flavor, id, error).step == idle(),
{
    reveal(went_wrong);
}

proof fn lemma_without_runs(flavors: Seq<Flavor>, flavor: Flavor)
    ensures
        without_runs(flavors).contains(flavor) <==> flavors.contains(flavor),
        flavors.len() > 0 ==> without_runs(flavors).len() > 0 && without_runs(flavors).last()
            == flavors.last(),
    decreases flavors.len(),
{
    if flavors.len() >= 2 {
        let rest = flavors.drop_last();
        let shorter = without_runs(rest);
        let last = flavors.last();
        lemma_without_runs(rest, flavor);
        if flavors.contains(flavor) {
            let i = choose|i: int| 0 <= i < flavors.len() && flavors[i] == flavor;
            if i < rest.len() {
                assert(rest[i] == flavor);
            } else if flavors[flavors.len() - 2] == last {
                assert(rest[rest.len() - 1] == flavor);
            }
        }
        if rest.contains(flavor) {
            let i = choose|i: int| 0 <= i < rest.len() && rest[i] == flavor;
            assert(flavors[i] == flavor);
        }
        if flavors[flavors.len() - 2] != last {
            let longer = shorter.push(last);
            assert(longer.contains(flavor) <==> shorter.contains(flavor) || flavor == last) by {
                if shorter.contains(flavor) {
                    let i = choose|i: int| 0 <= i < shorter.len() && shorter[i] == flavor;
                    assert(longer[i] == flavor);
                }
                if flavor == last {
                    assert(longer[longer.len() - 1] == flavor);
                }
            }
            assert(flavors[flavors.len() - 1] == last);
        }
    }
}

proof fn lemma_valid_after(flavors: Seq<Flavor>, dirs: Directories, count: int, flavor: Flavor)
    requires
        0 <= count <= 7,
    ensures
        flavors.contains(flavor) ==> valid_after(flavors, dirs, count).contains(flavor),
        forall|k: int|
            0 <= k < count && #[trigger] Flavor::ALL@[k] == flavor && dirs.addons.slot(
                flavor,
            )->0.exists ==> valid_after(flavors, dirs, count).contains(flavor),
        valid_after(flavors, dirs, count).contains(flavor) ==> flavors.contains(flavor)
            || dirs.addons.slot(flavor)->0.exists,
    decreases count,
{
    if count > 0 {
        let earlier = valid_after(flavors, dirs, count - 1);
        let last = Flavor::ALL@[count - 1];
        lemma_valid_after(flavors, dirs, count - 1, flavor);
        if dirs.addons.slot(last)->0.exists {
            let longer = earlier.push(last);
            lemma_without_runs(longer, flavor);
            if earlier.contains(flavor) {
                let i = choose|i: int| 0 <= i < earlier.len() && earlier[i] == flavor;
                assert(longer[i] == flavor);
            }
            if flavor == last {
                assert(longer[longer.len() - 1] == flavor);
            }
        }
    }
}

/// Reading the addons makes every flavor a valid one that is read and is on disk, and takes none
/// away.
pub proof fn reading_finds_the_flavors_on_disk(ajour: AjourView, dirs: Directories, flavor: Flavor)
    ensures
        ajour.valid_flavors.contains(flavor) ==> parsed(ajour, dirs).ajour.valid_flavors.contains(
            flavor,
        ),
        forall|k: int|
            0 <= k < read_count(dirs) && #[trigger] Flavor::ALL@[k] == flavor && dirs.addons.slot(
                flavor,
            )->0.exists ==> parsed(ajour, dirs).ajour.valid_flavors.contains(flavor),
        parsed(ajour, dirs).ajour.valid_flavors.contains(flavor) ==> ajour.valid_flavors.contains(
            flavor,
        ) || dirs.addons.slot(flavor)->0.exists,
{
    reveal(parsed);
    first_where_finds_the_first(Flavor::ALL@, without_directory(dirs));
    lemma_valid_after(ajour.valid_flavors, dirs, read_count(dirs), flavor);
}

/// Once the addons are read, the chosen flavor is a valid one, if there is any. It changes only
/// where it was not, and then it is shown and kept.
pub proof fn reading_settles_on_a_valid_flavor(ajour: AjourView, dirs: Directories)
    ensures
        ({
            let after = parsed(ajour, dirs);
            let flavor = after.ajour.config.flavor;
            &&& after.ajour.valid_flavors.len() > 0 ==> after.ajour.valid_flavors.contains(flavor)
            &&& after.ajour.valid_flavors.contains(ajour.config.flavor) ==> flavor
                == ajour.config.flavor
            &&& flavor != ajour.config.flavor ==> after.ajour.mode == Mode::MyAddons(flavor)
                && after.step.save == Save::Require
        }),
{
    reveal(parsed);
    let after = parsed(ajour, dirs);
    if after.ajour.valid_flavors.len() > 0 {
        assert(after.ajour.valid_flavors.contains(after.ajour.valid_flavors[0]));
    }
}

/// Each flavor is read once, in the order of all flavors, up to the first one without a folder.
pub proof fn reading_reads_the_flavors_in_order(ajour: AjourView, dirs: Directories, k: int)
    requires
        0 <= k < read_count(dirs),
    ensures
        ({
            let skipped: int = if ajour.config.backup_directory is Some {
                1
            } else {
                0
            };
            let tasks = parsed(ajour, dirs).step.tasks;
            &&& tasks.len() == skipped + read_count(dirs)
            &&& tasks[skipped + k] is ReadAddonDirectory
            &&& tasks[skipped + k]->ReadAddonDirectory_flavor == Flavor::ALL@[k]
            &&& dirs.addon(Flavor::ALL@[k]) == Some(
                tasks[skipped + k]->ReadAddonDirectory_directory,
            )
        }),
{
    reveal(parsed);
    first_where_finds_the_first(Flavor::ALL@, without_directory(dirs));
    assert(!without_directory(dirs)(Flavor::ALL@[k]));
}

/// The addons that were read are all listed, by their states and in descending order.
pub proof fn addons_that_are_read_are_listed(
    ajour: AjourView,
    flavor: Flavor,
    addons: Seq<AddonView>,
)
    ensures
        ({
            let after = list_for(
                addons_parsed(ajour, flavor, Some(addons)).ajour.addons,
                flavor,
            );
            let ids = list_for(ajour.config.ignored, flavor);
            let channels = channels_for(ajour.config.release_channels, flavor);
            &&& after.to_multiset() == all_listed(addons, channels, ids).to_multiset()
            &&& ascending(
                after,
                addon_order(ColumnKey::Status, SortDirection::Desc, ajour.collation),
            )
        }),
{
    reveal(addons_parsed);
    let ids = list_for(ajour.config.ignored, flavor);
    let channels = channels_for(ajour.config.release_channels, flavor);
    let order = addon_order(ColumnKey::Status, SortDirection::Desc, ajour.collation);
    addon_order_is_total_preorder(ColumnKey::Status, SortDirection::Desc, ajour.collation);
    sorted_values_ascend(all_listed(addons, channels, ids), order);
    sorting_keeps_every_value(all_listed(addons, channels, ids), order);
}

proof fn lemma_member_was_listed(
    ajour: AjourView,
    flavor: Flavor,
    addons: Seq<AddonView>,
    addon: AddonView,
) -> (read: AddonView)
    requires
        list_for(addons_parsed(ajour, flavor, Some(addons)).ajour.addons, flavor).contains(addon),
    ensures
        addons.contains(read),
        addon == listed(
            read,
            channels_for(ajour.config.release_channels, flavor),
            list_for(ajour.config.ignored, flavor),
        ),
{
    reveal(addons_parsed);
    let ids = list_for(ajour.config.ignored, flavor);
    let channels = channels_for(ajour.config.release_channels, flavor);
    let order = addon_order(ColumnKey::Status, SortDirection::Desc, ajour.collation);
    let all = all_listed(addons, channels, ids);
    sorting_keeps_membership(all, order, addon);
    let i = choose|i: int| 0 <= i < all.len() && all[i] == addon;
    assert(addons.contains(addons[i]));
    addons[i]
}

/// An addon that is ignored is listed as such when the addons are read again, until that is taken
/// back.
pub proof fn ignored_addons_stay_ignored(
    ajour: AjourView,
    id: Seq<char>,
    addons: Seq<AddonView>,
    addon: AddonView,
)
    requires
        first_where(current_addons(ajour), with_id(id)) is Some,
        list_for(
            addons_parsed(
                ignored(ajour, id).ajour,
                ajour.config.flavor,
                Some(addons),
            ).ajour.addons,
            ajour.config.flavor,
        ).contains(addon),
        addon.primary_folder_id == id,
    ensures
        addon.state == StateView::Ignored,
{
    reveal(ignored);
    ignored_addons_are_noted(ajour, id);
    let read = lemma_member_was_listed(
        ignored(ajour, id).ajour,
        ajour.config.flavor,
        addons,
        addon,
    );
}

/// A release channel that is chosen for an addon is followed when the addons are read again.
pub proof fn chosen_channels_are_followed(
    ajour: AjourView,
    channel: Seq<char>,
    addons: Seq<AddonView>,
    addon: AddonView,
)
    requires
        ajour.expanded_type is Details,
        first_where(
            current_addons(ajour),
            with_id(ajour.expanded_type->Details_0.primary_folder_id),
        ) is Some,
        list_for(
            addons_parsed(
                channel_selected(ajour, channel).ajour,
                ajour.config.flavor,
                Some(addons),
            ).ajour.addons,
            ajour.config.flavor,
        ).contains(addon),
        addon.primary_folder_id == ajour.expanded_type->Details_0.primary_folder_id,
    ensures
        addon.release_channel == channel,
{
    reveal(channel_selected);
    let read = lemma_member_was_listed(
        channel_selected(ajour, channel).ajour,
        ajour.config.flavor,
        addons,
        addon,
    );
}

/// Unfolding an addon's details twice shows them and then folds them up. The settings are closed, and
/// nothing is to be done.
pub proof fn unfolding_details_twice_folds_them_up(
    ajour: AjourView,
    dirs: Directories,
    first: Addon,
    second: Addon,
)
    requires
        !shows_details(ajour, first.deep_view()),
        second.deep_view() == first.deep_view(),
    ensures
        ({
            let once = transition(
                ajour,
                dirs,
                Message::Interaction(Interaction::Expand(ExpandType::Details(first))),
            );
            let twice = transition(
                once.ajour,
                dirs,
                Message::Interaction(Interaction::Expand(ExpandType::Details(second))),
            );
            &&& once.ajour.expanded_type == ExpandView::Details(first.deep_view())
            &&& !once.ajour.is_showing_settings
            &&& once.step == idle()
            &&& twice.ajour.expanded_type == ExpandView::Nothing
            &&& !twice.ajour.is_showing_settings
            &&& twice.step == idle()
        }),
{
    reveal(expanded);
    let view = ExpandView::Details(first.deep_view());
    let once = expanded(ajour, view);
    assert(transition(
        ajour,
        dirs,
        Message::Interaction(Interaction::Expand(ExpandType::Details(first))),
    ) == once);
    assert(transition(
        once.ajour,
        dirs,
        Message::Interaction(Interaction::Expand(ExpandType::Details(second))),
    ) == expanded(once.ajour, view));
}

/// Asking for a changelog that is unfolded folds it up, and nothing is fetched.
pub proof fn asking_for_a_changelog_again_folds_it_up(
    ajour: AjourView,
    addon: AddonView,
    key: AddonVersionKey,
    payload: PayloadView,
)
    ensures
        expanded(
            changelog_fetched(ajour, addon, key, Some(payload)).ajour,
            ExpandView::Changelog(ChangelogView::Request(addon, key)),
        ).ajour.expanded_type == ExpandView::Nothing,
        expanded(
            changelog_fetched(ajour, addon, key, Some(payload)).ajour,
            ExpandView::Changelog(ChangelogView::Request(addon, key)),
        ).step == idle(),
{
    reveal(expanded);
}

/// Opening the settings and closing them again shows what was shown before, with nothing unfolded.
pub proof fn toggling_the_settings_twice_restores_them(ajour: AjourView)
    ensures
        settings_toggled(settings_toggled(ajour).ajour).ajour == (AjourView {
            expanded_type: ExpandView::Nothing,
            ..ajour
        }),
{
}

} // verus!
