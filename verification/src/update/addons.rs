//! Reactions that concern single addons.
use super::outcome::{only, outcome, tidied, Outcome};
use crate::addon::{
    copy_folders, set_state, with_id, without_id, AddonState, AddonView, ReleaseChannel,
    Repository, Standing, StandingView, StateView, WithId, WithoutId,
};
use crate::config::{channels_for, ConfigView};
use crate::flavor_map::list_for;
use crate::list::{drain, find, first_where, retain, Condition, Test};
use crate::message::DownloadReason;
use crate::search::contains_string;
use crate::state::{Ajour, AjourView, Directories, ExpandType, ExpandView};
use crate::task::{idle, one_task, Save, Step, StepView, Task, TaskView};
use crate::wow::Flavor;
use std::path::PathBuf;
use vstd::prelude::*;

verus! {

/// The addons of the flavor that is chosen.
pub open spec fn current_addons(ajour: AjourView) -> Seq<AddonView> {
    list_for(ajour.addons, ajour.config.flavor)
}

/// The program with other addons for a flavor.
pub open spec fn with_addons(ajour: AjourView, flavor: Flavor, addons: Seq<AddonView>) -> AjourView {
    AjourView { addons: ajour.addons.insert(flavor, addons), ..ajour }
}

/// The program with other ignored addons for a flavor.
pub open spec fn with_ignored(ajour: AjourView, flavor: Flavor, ids: Seq<Seq<char>>) -> AjourView {
    AjourView {
        config: ConfigView {
            ignored: ajour.config.ignored.insert(flavor, ids),
            ..ajour.config
        },
        ..ajour
    }
}

/// An addon is left alone from now on: its state says so and its identifier is kept. An
/// identifier that no addon has changes nothing.
#[verifier::opaque]
pub open spec fn ignored(ajour: AjourView, id: Seq<char>) -> Outcome {
    let flavor = ajour.config.flavor;
    let addons = current_addons(ajour);
    match first_where(addons, with_id(id)) {
        Some(i) => Outcome {
            ajour: with_ignored(
                with_addons(
                    tidied(ajour),
                    flavor,
                    addons.update(i, addons[i].in_state(StateView::Ignored)),
                ),
                flavor,
                list_for(ajour.config.ignored, flavor).push(id),
            ),
            step: StepView { save: Save::Attempt, ..idle() },
        },
        None => only(with_addons(tidied(ajour), flavor, addons)),
    }
}

/// Reacts to an addon being left alone.
pub fn ignore(ajour: &mut Ajour, id: String) -> (step: Step)
    ensures
        outcome(*final(ajour), step) == ignored(old(ajour).deep_view(), id@),
{
    proof {
        reveal(ignored);
    }
    ajour.is_showing_settings = false;
    ajour.expanded_type = ExpandType::Nothing;
    let flavor = ajour.config.wow.flavor;
    let addons = ajour.addons.list_mut(flavor);
    match find(addons, &WithId { id: &id }) {
        Some(i) => {
            set_state(addons, i, AddonState::Ignored);
            let ids = ajour.config.addons.ignored.list_mut(flavor);
            let ghost ids_before = ids.deep_view();
            ids.push(id);
            assert(ids.deep_view() =~= ids_before.push(id@));
            Step::save(Save::Attempt)
        },
        None => Step::none(),
    }
}

/// Being another identifier.
pub open spec fn other_than(id: Seq<char>) -> Condition<Seq<char>> {
    |other: Seq<char>| other != id
}

struct OtherThan<'a> {
    id: &'a String,
}

impl<'a> Test<String> for OtherThan<'a> {
    closed spec fn condition(&self) -> Condition<Seq<char>> {
        other_than(self.id@)
    }

    fn holds(&self, item: &String) -> (result: bool) {
        !(*item == *self.id)
    }
}

/// An addon is no longer left alone: its state follows from what is on offer for it, and its
/// identifier is no longer kept.
#[verifier::opaque]
pub open spec fn unignored(ajour: AjourView, id: Seq<char>) -> Outcome {
    let flavor = ajour.config.flavor;
    let addons = current_addons(ajour);
    let reassessed = match first_where(addons, with_id(id)) {
        Some(i) => addons.update(i, addons[i].reassessed()),
        None => addons,
    };
    Outcome {
        ajour: with_ignored(
            with_addons(ajour, flavor, reassessed),
            flavor,
            list_for(ajour.config.ignored, flavor).filter(other_than(id)),
        ),
        step: StepView { save: Save::Attempt, ..idle() },
    }
}

/// Reacts to an addon no longer being left alone.
pub fn unignore(ajour: &mut Ajour, id: String) -> (step: Step)
    ensures
        outcome(*final(ajour), step) == unignored(old(ajour).deep_view(), id@),
{
    proof {
        reveal(unignored);
    }
    let flavor = ajour.config.wow.flavor;
    let addons = ajour.addons.list_mut(flavor);
    let ghost before = addons.deep_view();
    if let Some(i) = find(addons, &WithId { id: &id }) {
        addons[i].reassess();
        assert(addons.deep_view() =~= before.update(i as int, before[i as int].reassessed()));
    }
    let ids = ajour.config.addons.ignored.list_mut(flavor);
    retain(ids, &OtherThan { id: &id });
    Step::save(Save::Attempt)
}

/// The addon's entry is to be removed from the addon cache when it is deleted.
pub open spec fn drops_cache_entry(addon: AddonView) -> bool {
    addon.cacheable && (addon.active_repository == Some(Repository::Tukui)
        || addon.active_repository == Some(Repository::WowI))
}

/// An addon is deleted: from the list, from disk and from the addon cache. An identifier that no
/// addon has changes nothing.
#[verifier::opaque]
pub open spec fn deleted(ajour: AjourView, id: Seq<char>) -> Outcome {
    let flavor = ajour.config.flavor;
    let addons = current_addons(ajour);
    match first_where(addons, with_id(id)) {
        Some(i) => Outcome {
            ajour: with_addons(tidied(ajour), flavor, addons.filter(without_id(id))),
            step: StepView {
                delete: addons[i].folders,
                tasks: if ajour.addon_cache is Some && drops_cache_entry(addons[i]) {
                    seq![
                        TaskView::RemoveAddonCacheEntry {
                            cache: ajour.addon_cache->0,
                            addon: addons[i],
                            flavor,
                        },
                    ]
                } else {
                    Seq::empty()
                },
                ..idle()
            },
        },
        None => only(with_addons(tidied(ajour), flavor, addons)),
    }
}

/// Reacts to an addon being deleted.
pub fn delete(ajour: &mut Ajour, id: String) -> (step: Step)
    ensures
        outcome(*final(ajour), step) == deleted(old(ajour).deep_view(), id@),
{
    proof {
        reveal(deleted);
    }
    ajour.is_showing_settings = false;
    ajour.expanded_type = ExpandType::Nothing;
    let flavor = ajour.config.wow.flavor;
    let addons = ajour.addons.list_mut(flavor);
    match find(addons, &WithId { id: &id }) {
        Some(i) => {
            let addon = addons[i].clone();
            retain(addons, &WithoutId { id: &id });
            let mut step = Step::none();
            step.delete = copy_folders(&addon.folders);
            if let Some(cache) = ajour.addon_cache {
                if addon.cacheable {
                    match addon.active_repository {
                        Some(Repository::Tukui) | Some(Repository::WowI) => {
                            let ghost view = addon.deep_view();
                            step.tasks.push(Task::RemoveAddonCacheEntry { cache, addon, flavor });
                            assert(step.tasks.deep_view() =~= seq![
                                TaskView::RemoveAddonCacheEntry { cache, addon: view, flavor },
                            ]);
                        },
                        _ => {},
                    }
                }
            }
            step
        },
        None => Step::none(),
    }
}

/// An addon is downloaded to be updated. An identifier that no addon has changes nothing.
#[verifier::opaque]
pub open spec fn updated(ajour: AjourView, directory: PathBuf, id: Seq<char>) -> Outcome {
    let flavor = ajour.config.flavor;
    let addons = current_addons(ajour);
    match first_where(addons, with_id(id)) {
        Some(i) => Outcome {
            ajour: with_addons(
                tidied(ajour),
                flavor,
                addons.update(i, addons[i].in_state(StateView::Downloading)),
            ),
            step: one_task(
                TaskView::DownloadAddon {
                    reason: DownloadReason::Update,
                    flavor,
                    addon: addons[i].in_state(StateView::Downloading),
                    to_directory: directory,
                },
            ),
        },
        None => only(with_addons(tidied(ajour), flavor, addons)),
    }
}

/// Reacts to an addon being updated.
pub fn update(ajour: &mut Ajour, dirs: &Directories, id: String) -> (step: Step)
    requires
        dirs.download(old(ajour).config.wow.flavor) is Some,
    ensures
        outcome(*final(ajour), step) == updated(
            old(ajour).deep_view(),
            dirs.download(old(ajour).config.wow.flavor)->0,
            id@,
        ),
{
    proof {
        reveal(updated);
    }
    ajour.is_showing_settings = false;
    ajour.expanded_type = ExpandType::Nothing;
    let flavor = ajour.config.wow.flavor;
    let to_directory = dirs.get_download_directory_for_flavor(flavor).expect(
        "Expected a valid path",
    );
    let addons = ajour.addons.list_mut(flavor);
    match find(addons, &WithId { id: &id }) {
        Some(i) => {
            set_state(addons, i, AddonState::Downloading);
            let addon = addons[i].clone();
            Step::perform(
                Task::DownloadAddon { reason: DownloadReason::Update, flavor, addon, to_directory },
            )
        },
        None => Step::none(),
    }
}

/// Being due for an update: there is one, and the addon is not left alone.
pub open spec fn due(ignored_ids: Seq<Seq<char>>) -> Condition<AddonView> {
    |addon: AddonView|
        addon.state == StateView::Updatable && !ignored_ids.contains(addon.primary_folder_id)
}

/// The addons with those downloading that are due.
pub open spec fn with_due_downloading(
    addons: Seq<AddonView>,
    ignored_ids: Seq<Seq<char>>,
) -> Seq<AddonView> {
    Seq::new(
        addons.len(),
        |i: int|
            if due(ignored_ids)(addons[i]) {
                addons[i].in_state(StateView::Downloading)
            } else {
                addons[i]
            },
    )
}

/// The downloads of the addons that are due.
pub open spec fn due_downloads(
    addons: Seq<AddonView>,
    ignored_ids: Seq<Seq<char>>,
    flavor: Flavor,
    directory: PathBuf,
) -> Seq<TaskView> {
    let picked = addons.filter(due(ignored_ids));
    Seq::new(
        picked.len(),
        |i: int|
            TaskView::DownloadAddon {
                reason: DownloadReason::Update,
                flavor,
                addon: picked[i].in_state(StateView::Downloading),
                to_directory: directory,
            },
    )
}

/// Every addon is downloaded that is due, if there is a folder to download to.
#[verifier::opaque]
pub open spec fn all_updated(ajour: AjourView, directory: Option<PathBuf>) -> Outcome {
    let flavor = ajour.config.flavor;
    let addons = current_addons(ajour);
    let ignored_ids = list_for(ajour.config.ignored, flavor);
    let tidy = with_ignored(tidied(ajour), flavor, ignored_ids);
    match directory {
        Some(directory) => Outcome {
            ajour: with_addons(tidy, flavor, with_due_downloading(addons, ignored_ids)),
            step: StepView {
                tasks: due_downloads(addons, ignored_ids, flavor, directory),
                ..idle()
            },
        },
        None => only(with_addons(tidy, flavor, addons)),
    }
}

/// Reacts to all addons being updated.
pub fn update_all(ajour: &mut Ajour, dirs: &Directories) -> (step: Step)
    ensures
        outcome(*final(ajour), step) == all_updated(
            old(ajour).deep_view(),
            dirs.download(old(ajour).config.wow.flavor),
        ),
{
    proof {
        reveal(all_updated);
    }
    ajour.is_showing_settings = false;
    ajour.expanded_type = ExpandType::Nothing;
    let flavor = ajour.config.wow.flavor;
    let ignored_ids = ajour.config.addons.ignored.list_mut(flavor);
    let addons = ajour.addons.list_mut(flavor);
    let ghost before = addons.deep_view();
    let ghost ids = ignored_ids.deep_view();
    let ghost after = with_due_downloading(before, ids);
    let ghost picked = due(ids);
    let directory = dirs.get_download_directory_for_flavor(flavor);
    let mut tasks: Vec<Task> = Vec::new();
    match directory {
        Some(to_directory) => {
            proof {
                assert(before.take(0) =~= Seq::empty());
                reveal(Seq::filter);
                assert(tasks.deep_view() =~= due_downloads(
                    before.take(0),
                    ids,
                    flavor,
                    to_directory,
                ));
                assert(addons.deep_view() =~= after.take(0) + before.skip(0));
            }
            let mut i: usize = 0;
            while i < addons.len()
                invariant
                    i <= before.len(),
                    addons@.len() == before.len(),
                    addons.deep_view() == after.take(i as int) + before.skip(i as int),
                    after == with_due_downloading(before, ids),
                    ids == ignored_ids.deep_view(),
                    picked == due(ids),
                    tasks.deep_view() == due_downloads(
                        before.take(i as int),
                        ids,
                        flavor,
                        to_directory,
                    ),
                decreases before.len() - i,
            {
                let ghost tasks_before = tasks.deep_view();
                proof {
                    assert(addons.deep_view()[i as int] == before[i as int]);
                    assert(before.take(i + 1) =~= before.take(i as int).push(before[i as int]));
                    crate::list::filter_of_pushed(
                        before.take(i as int),
                        before[i as int],
                        picked,
                    );
                }
                if matches!(addons[i].state, AddonState::Updatable) && !contains_string(
                    ignored_ids,
                    &addons[i].primary_folder_id,
                ) {
                    set_state(addons, i, AddonState::Downloading);
                    let addon = addons[i].clone();
                    tasks.push(
                        Task::DownloadAddon {
                            reason: DownloadReason::Update,
                            flavor,
                            addon,
                            to_directory: to_directory.clone(),
                        },
                    );
                    assert(tasks.deep_view() =~= tasks_before.push(
                        TaskView::DownloadAddon {
                            reason: DownloadReason::Update,
                            flavor,
                            addon: before[i as int].in_state(StateView::Downloading),
                            to_directory,
                        },
                    ));
                }
                proof {
                    assert(tasks.deep_view() =~= due_downloads(
                        before.take(i + 1),
                        ids,
                        flavor,
                        to_directory,
                    ));
                    assert(addons.deep_view() =~= after.take(i + 1) + before.skip(i + 1));
                }
                i = i + 1;
            }
            proof {
                assert(before.take(i as int) =~= before);
                assert(addons.deep_view() =~= after);
            }
        },
        None => {
            assert(tasks.deep_view() =~= Seq::empty());
        },
    }
    Step::batch(tasks)
}

/// The program with another choice of release channels for a flavor.
pub open spec fn with_channels(
    ajour: AjourView,
    flavor: Flavor,
    channels: Map<Seq<char>, Seq<char>>,
) -> AjourView {
    AjourView {
        config: ConfigView {
            release_channels: ajour.config.release_channels.insert(flavor, channels),
            ..ajour.config
        },
        ..ajour
    }
}

/// A release channel is chosen for the addon whose details are unfolded: the addon follows it, its
/// state follows from what is on offer there, and the choice is kept.
#[verifier::opaque]
pub open spec fn channel_selected(ajour: AjourView, channel: Seq<char>) -> Outcome {
    let flavor = ajour.config.flavor;
    let addons = current_addons(ajour);
    match ajour.expanded_type {
        ExpandView::Details(expanded) => match first_where(
            addons,
            with_id(expanded.primary_folder_id),
        ) {
            Some(i) => Outcome {
                ajour: with_channels(
                    with_addons(
                        ajour,
                        flavor,
                        addons.update(
                            i,
                            (AddonView { release_channel: channel, ..addons[i] }).reassessed(),
                        ),
                    ),
                    flavor,
                    channels_for(ajour.config.release_channels, flavor).insert(
                        expanded.primary_folder_id,
                        channel,
                    ),
                ),
                step: StepView { save: Save::Attempt, ..idle() },
            },
            None => only(with_addons(ajour, flavor, addons)),
        },
        _ => only(ajour),
    }
}

/// Reacts to a release channel being chosen.
pub fn release_channel_selected(ajour: &mut Ajour, release_channel: ReleaseChannel) -> (step: Step)
    ensures
        outcome(*final(ajour), step) == channel_selected(
            old(ajour).deep_view(),
            release_channel.deep_view(),
        ),
{
    proof {
        reveal(channel_selected);
    }
    if let ExpandType::Details(expanded_addon) = &ajour.expanded_type {
        let flavor = ajour.config.wow.flavor;
        let addons = ajour.addons.list_mut(flavor);
        let ghost before = addons.deep_view();
        if let Some(i) = find(addons, &WithId { id: &expanded_addon.primary_folder_id }) {
            addons[i].release_channel = release_channel.clone();
            addons[i].reassess();
            assert(addons.deep_view() =~= before.update(
                i as int,
                (AddonView {
                    release_channel: release_channel.deep_view(),
                    ..before[i as int]
                }).reassessed(),
            ));
            ajour.config.addons.release_channels.channels_mut(flavor).insert(
                expanded_addon.primary_folder_id.clone(),
                release_channel,
            );
            return Step::save(Save::Attempt);
        }
    }
    Step::none()
}

/// The note on a fingerprint that was taken, or that could not be taken.
pub open spec fn fingerprint_note(taken: bool) -> StateView {
    StateView::Ajour(
        Some(
            if taken {
                "Completed"@
            } else {
                "Error"@
            },
        ),
    )
}

/// An addon's fingerprint was taken, or could not be taken, and its state says so.
#[verifier::opaque]
pub open spec fn fingerprinted(
    ajour: AjourView,
    flavor: Flavor,
    id: Seq<char>,
    taken: bool,
) -> Outcome {
    let addons = list_for(ajour.addons, flavor);
    only(
        with_addons(
            ajour,
            flavor,
            match first_where(addons, with_id(id)) {
                Some(i) => addons.update(i, addons[i].in_state(fingerprint_note(taken))),
                None => addons,
            },
        ),
    )
}

/// Reacts to an addon's fingerprint.
pub fn update_fingerprint(
    ajour: &mut Ajour,
    flavor: Flavor,
    id: String,
    result: Result<(), String>,
) -> (step: Step)
    ensures
        outcome(*final(ajour), step) == fingerprinted(
            old(ajour).deep_view(),
            flavor,
            id@,
            result is Ok,
        ),
{
    proof {
        reveal(fingerprinted);
    }
    let addons = ajour.addons.list_mut(flavor);
    if let Some(i) = find(addons, &WithId { id: &id }) {
        if result.is_ok() {
            set_state(addons, i, AddonState::Ajour(Some("Completed".to_owned())));
        } else {
            set_state(addons, i, AddonState::Ajour(Some("Error".to_owned())));
        }
    }
    Step::none()
}

/// The addons with their standings made out anew, as far as they are given.
pub open spec fn with_standings(
    addons: Seq<AddonView>,
    standings: Seq<Seq<StandingView>>,
) -> Seq<AddonView> {
    Seq::new(
        addons.len(),
        |i: int|
            if i < standings.len() {
                AddonView { standings: standings[i], ..addons[i] }
            } else {
                addons[i]
            },
    )
}

/// The program with the standings of a flavor's addons made out anew.
pub open spec fn standings_refreshed(
    ajour: AjourView,
    flavor: Flavor,
    standings: Seq<Seq<StandingView>>,
) -> AjourView {
    with_addons(ajour, flavor, with_standings(list_for(ajour.addons, flavor), standings))
}

/// Notes where a flavor's addons stand, one after the other: on each channel, the release that the
/// addon would be updated to and whether that is an update.
///
/// A call follows each `Message::UnpackedAddon` that reports success: the version that is installed
/// has changed then, and until the call the standings still compare releases with the earlier one.
pub fn refresh_standings(ajour: &mut Ajour, flavor: Flavor, standings: Vec<Vec<Standing>>)
    ensures
        final(ajour).deep_view() == standings_refreshed(
            old(ajour).deep_view(),
            flavor,
            standings.deep_view(),
        ),
{
    let ghost given = standings.deep_view();
    let addons = ajour.addons.list_mut(flavor);
    let ghost before = addons.deep_view();
    let ghost after = with_standings(before, given);
    let mut standings = standings;
    let mut queue = drain(&mut standings);
    let mut i: usize = 0;
    assert(addons.deep_view() =~= after.take(0) + before.skip(0));
    while i < addons.len() && queue.len() > 0
        invariant
            i <= before.len(),
            i <= given.len(),
            addons@.len() == before.len(),
            after == with_standings(before, given),
            queue@.len() == given.len() - i,
            forall|j: int|
                0 <= j < queue@.len() ==> (#[trigger] queue@[j]).deep_view() == given[i + j],
            addons.deep_view() == after.take(i as int) + before.skip(i as int),
        decreases before.len() - i,
    {
        let ghost queue_before = queue@;
        let ghost current = addons.deep_view();
        if let Some(own) = queue.pop_front() {
            assert(own.deep_view() == given[i as int]);
            assert forall|j: int| 0 <= j < queue@.len() implies (#[trigger] queue@[j]).deep_view()
                == given[i + 1 + j] by {
                assert(queue@[j] == queue_before[j + 1]);
            }
            assert(current[i as int] == before[i as int]);
            addons[i].standings = own;
            assert(addons.deep_view() =~= current.update(i as int, after[i as int]));
            assert(addons.deep_view() =~= after.take(i + 1) + before.skip(i + 1));
        }
        i = i + 1;
    }
    assert(addons.deep_view() =~= after);
}

} // verus!
