//! Reactions that concern the lists of installed addons as a whole.
use super::addons::{with_addons, with_channels, with_ignored};
use super::outcome::{only, outcome, tidied, Outcome};
use crate::addon::{Addon, AddonState, AddonView, OfferView, StateView};
use crate::config::{channels_for, ChannelMap, ColumnKey, ConfigView};
use crate::flavor_map::{list_for, FlavorMap};
use crate::list::{first_where, first_where_finds_the_first, is_first, Condition};
use crate::order::stable_sort;
use crate::search::{contains_string, query_and_sort_catalog, searched};
use crate::sort::{addon_order, sort_addons};
use crate::state::{
    all_loading, Ajour, AjourView, Directories, ExpandType, HeaderView, Mode, SortDirection, State,
};
use crate::task::{idle, one_task, Save, Step, StepView, Task, TaskView};
use crate::wow::Flavor;
use std::path::PathBuf;
use vstd::prelude::*;

verus! {

/// The program once the caches are loaded.
pub open spec fn caches_loaded(ajour: AjourView, caches: Option<(u64, u64)>) -> Outcome {
    Outcome {
        ajour: match caches {
            Some((fingerprint_cache, addon_cache)) => AjourView {
                fingerprint_cache: Some(fingerprint_cache),
                addon_cache: Some(addon_cache),
                ..ajour
            },
            None => ajour,
        },
        step: one_task(TaskView::Parse),
    }
}

/// Reacts to the caches being loaded: the addons are read, with the caches or without them.
pub fn load_caches(ajour: &mut Ajour, result: Result<(u64, u64), String>) -> (step: Step)
    ensures
        outcome(*final(ajour), step) == caches_loaded(old(ajour).deep_view(), result.ok()),
{
    if let Ok((fingerprint_cache, addon_cache)) = result {
        ajour.fingerprint_cache = Some(fingerprint_cache);
        ajour.addon_cache = Some(addon_cache);
    }
    Step::perform(Task::Parse)
}

/// The flavors without those that repeat the one before them.
pub open spec fn without_runs(flavors: Seq<Flavor>) -> Seq<Flavor>
    decreases flavors.len(),
{
    if flavors.len() < 2 {
        flavors
    } else if flavors[flavors.len() - 2] == flavors.last() {
        without_runs(flavors.drop_last())
    } else {
        without_runs(flavors.drop_last()).push(flavors.last())
    }
}

fn dedup(flavors: &mut Vec<Flavor>)
    ensures
        final(flavors)@ == without_runs(old(flavors)@),
{
    let ghost before = flavors@;
    let mut kept: Vec<Flavor> = Vec::new();
    let mut i: usize = 0;
    assert(before.take(0) =~= Seq::empty());
    while i < flavors.len()
        invariant
            i <= before.len(),
            flavors@ == before,
            kept@ == without_runs(before.take(i as int)),
        decreases before.len() - i,
    {
        proof {
            assert(before.take(i + 1).drop_last() =~= before.take(i as int));
            assert(before.take(i + 1).last() == before[i as int]);
            if i == 0 {
                assert(kept@ =~= Seq::empty());
                assert(kept@.push(before[0]) =~= before.take(1));
            }
        }
        if i == 0 || flavors[i - 1] != flavors[i] {
            kept.push(flavors[i]);
        }
        i = i + 1;
    }
    assert(before.take(i as int) =~= before);
    *flavors = kept;
}

/// Having no folder of addons.
pub open spec fn without_directory(dirs: Directories) -> Condition<Flavor> {
    |flavor: Flavor| dirs.addons.slot(flavor) is None
}

/// How many flavors are read: those before the first one without a folder of addons.
pub open spec fn read_count(dirs: Directories) -> int {
    match first_where(Flavor::ALL@, without_directory(dirs)) {
        Some(i) => i,
        None => 7,
    }
}

/// The flavors that have a folder of addons on disk, once the first flavors are looked at.
pub open spec fn valid_after(flavors: Seq<Flavor>, dirs: Directories, count: int) -> Seq<Flavor>
    decreases count,
{
    if count <= 0 {
        flavors
    } else {
        let earlier = valid_after(flavors, dirs, count - 1);
        let flavor = Flavor::ALL@[count - 1];
        if dirs.addons.slot(flavor)->0.exists {
            without_runs(earlier.push(flavor))
        } else {
            earlier
        }
    }
}

/// The states with the lists of the first flavors loading.
pub open spec fn loading_after(states: Map<Mode, State>, count: int) -> Map<Mode, State>
    decreases count,
{
    if count <= 0 {
        states
    } else {
        loading_after(states, count - 1).insert(
            Mode::MyAddons(Flavor::ALL@[count - 1]),
            State::Loading,
        )
    }
}

/// Finding the latest backup, if a folder for backups is chosen.
pub open spec fn backup_tasks(ajour: AjourView) -> Seq<TaskView> {
    match ajour.config.backup_directory {
        Some(directory) => seq![TaskView::LatestBackup(directory)],
        None => Seq::empty(),
    }
}

/// Reading the addons of the first flavors.
pub open spec fn read_tasks(ajour: AjourView, dirs: Directories, count: int) -> Seq<TaskView> {
    Seq::new(
        count as nat,
        |i: int|
            TaskView::ReadAddonDirectory {
                addon_cache: ajour.addon_cache,
                fingerprint_cache: ajour.fingerprint_cache,
                directory: dirs.addons.slot(Flavor::ALL@[i])->0.path,
                flavor: Flavor::ALL@[i],
            },
    )
}

/// The program with the addons being read, before a flavor is chosen.
pub open spec fn reading(ajour: AjourView, dirs: Directories) -> AjourView {
    let count = read_count(dirs);
    let loading = loading_after(ajour.state, count);
    AjourView {
        valid_flavors: valid_after(ajour.valid_flavors, dirs, count),
        state: if count < 7 {
            loading.insert(Mode::MyAddons(ajour.config.flavor), State::Start)
        } else {
            loading
        },
        ..ajour
    }
}

/// The addons are read. A flavor without a folder of addons ends the reading: the user is
/// welcomed instead. If the flavor that is chosen has no folder on disk, the first one that has
/// is chosen in its place.
#[verifier::opaque]
pub open spec fn parsed(ajour: AjourView, dirs: Directories) -> Outcome {
    let read = reading(ajour, dirs);
    let tasks = backup_tasks(ajour) + read_tasks(ajour, dirs, read_count(dirs));
    if !read.valid_flavors.contains(ajour.config.flavor) && read.valid_flavors.len() > 0 {
        let flavor = read.valid_flavors[0];
        Outcome {
            ajour: AjourView {
                config: ConfigView { flavor, ..read.config },
                mode: Mode::MyAddons(flavor),
                ..read
            },
            step: StepView { save: Save::Require, tasks, ..idle() },
        }
    } else {
        Outcome { ajour: read, step: StepView { tasks, ..idle() } }
    }
}

fn contains_flavor(flavors: &Vec<Flavor>, flavor: Flavor) -> (contained: bool)
    ensures
        contained == flavors@.contains(flavor),
{
    let mut i: usize = 0;
    while i < flavors.len()
        invariant
            i <= flavors@.len(),
            forall|j: int| 0 <= j < i ==> flavors@[j] != flavor,
        decreases flavors@.len() - i,
    {
        if flavors[i] == flavor {
            return true;
        }
        i = i + 1;
    }
    false
}

/// Reacts to the addons being read.
pub fn parse(ajour: &mut Ajour, dirs: &Directories) -> (step: Step)
    ensures
        outcome(*final(ajour), step) == parsed(old(ajour).deep_view(), *dirs),
{
    proof {
        reveal(parsed);
    }
    let ghost before = ajour.deep_view();
    let ghost missing = without_directory(*dirs);
    let mut tasks: Vec<Task> = Vec::new();
    if let Some(directory) = &ajour.config.backup_directory {
        tasks.push(Task::LatestBackup(directory.clone()));
    }
    proof {
        assert(tasks.deep_view() =~= backup_tasks(before));
        assert(tasks.deep_view() =~= backup_tasks(before) + read_tasks(before, *dirs, 0));
        first_where_finds_the_first(Flavor::ALL@, missing);
    }
    let mut i: usize = 0;
    let mut welcome: bool = false;
    while i < 7 && !welcome
        invariant
            i <= 7,
            missing == without_directory(*dirs),
            forall|j: int| 0 <= j < i ==> !missing(#[trigger] Flavor::ALL@[j]),
            welcome ==> i < 7 && missing(Flavor::ALL@[i as int]),
            tasks.deep_view() == backup_tasks(before) + read_tasks(before, *dirs, i as int),
            ajour.deep_view() == (AjourView {
                valid_flavors: valid_after(before.valid_flavors, *dirs, i as int),
                state: if welcome {
                    loading_after(before.state, i as int).insert(
                        Mode::MyAddons(before.config.flavor),
                        State::Start,
                    )
                } else {
                    loading_after(before.state, i as int)
                },
                ..before
            }),
        decreases 7 - i, (if welcome { 0int } else { 1int }),
    {
        let flavor = Flavor::ALL[i];
        match dirs.addons.get(flavor) {
            Some(addon_directory) => {
                if addon_directory.exists {
                    ajour.valid_flavors.push(flavor);
                    dedup(&mut ajour.valid_flavors);
                }
                ajour.state.insert(Mode::MyAddons(flavor), State::Loading);
                let ghost tasks_before = tasks.deep_view();
                tasks.push(
                    Task::ReadAddonDirectory {
                        addon_cache: ajour.addon_cache,
                        fingerprint_cache: ajour.fingerprint_cache,
                        directory: addon_directory.path.clone(),
                        flavor,
                    },
                );
                assert(tasks.deep_view() =~= tasks_before.push(
                    TaskView::ReadAddonDirectory {
                        addon_cache: before.addon_cache,
                        fingerprint_cache: before.fingerprint_cache,
                        directory: addon_directory.path,
                        flavor,
                    },
                ));
                assert(tasks.deep_view() =~= backup_tasks(before) + read_tasks(
                    before,
                    *dirs,
                    i + 1,
                ));
                i = i + 1;
            },
            None => {
                let flavor = ajour.config.wow.flavor;
                ajour.state.insert(Mode::MyAddons(flavor), State::Start);
                welcome = true;
            },
        }
    }
    proof {
        if welcome {
            assert(is_first(Flavor::ALL@, missing, i as int));
        } else {
            assert(read_count(*dirs) == 7) by {
                if first_where(Flavor::ALL@, missing) is Some {
                    let found = first_where(Flavor::ALL@, missing)->0;
                    assert(missing(Flavor::ALL@[found]));
                }
            }
        }
    }
    let flavor = ajour.config.wow.flavor;
    let mut save = Save::Skip;
    if !contains_flavor(&ajour.valid_flavors, flavor) {
        if ajour.valid_flavors.len() > 0 {
            let flavor = ajour.valid_flavors[0];
            ajour.config.wow.flavor = flavor;
            ajour.mode = Mode::MyAddons(flavor);
            save = Save::Require;
        }
    }
    let mut step = Step::batch(tasks);
    step.save = save;
    step
}

/// The lists are cleared and the addons are read anew.
pub open spec fn refreshed(ajour: AjourView) -> Outcome {
    Outcome {
        ajour: AjourView {
            addons: Map::empty(),
            state: ajour.state.insert(Mode::MyAddons(ajour.config.flavor), State::Loading),
            ..tidied(ajour)
        },
        step: one_task(TaskView::Parse),
    }
}

/// Reacts to the lists being refreshed.
pub fn refresh(ajour: &mut Ajour) -> (step: Step)
    ensures
        outcome(*final(ajour), step) == refreshed(old(ajour).deep_view()),
{
    ajour.is_showing_settings = false;
    ajour.expanded_type = ExpandType::Nothing;
    ajour.addons = FlavorMap::new();
    assert(ajour.addons.deep_view() =~= Map::empty());
    let flavor = ajour.config.wow.flavor;
    ajour.state.insert(Mode::MyAddons(flavor), State::Loading);
    Step::perform(Task::Parse)
}

/// The game is somewhere else: the lists are cleared and the addons are read anew. A choice in
/// which the game cannot be made out changes nothing.
pub open spec fn wow_directory_updated(ajour: AjourView, path: Option<PathBuf>) -> Outcome {
    match path {
        Some(path) => Outcome {
            ajour: AjourView {
                addons: Map::empty(),
                config: ConfigView { directory: Some(path), ..ajour.config },
                state: all_loading(ajour.state),
                ..ajour
            },
            step: StepView { save: Save::Attempt, ..one_task(TaskView::Parse) },
        },
        None => only(ajour),
    }
}

/// Reacts to the folder of the game being chosen.
pub fn update_wow_directory(ajour: &mut Ajour, path: Option<PathBuf>) -> (step: Step)
    ensures
        outcome(*final(ajour), step) == wow_directory_updated(old(ajour).deep_view(), path),
{
    if path.is_some() {
        ajour.addons = FlavorMap::new();
        assert(ajour.addons.deep_view() =~= Map::empty());
        ajour.config.wow.directory = path;
        ajour.state.set_all_loading();
        let mut step = Step::perform(Task::Parse);
        step.save = Save::Attempt;
        return step;
    }
    Step::none()
}

/// Another flavor is chosen.
#[verifier::opaque]
pub open spec fn flavor_selected(ajour: AjourView, flavor: Flavor) -> Outcome {
    Outcome {
        ajour: searched(
            AjourView {
                config: ConfigView { flavor, ..ajour.config },
                mode: match ajour.mode {
                    Mode::MyAddons(_) => Mode::MyAddons(flavor),
                    Mode::Catalog => Mode::Catalog,
                },
                ..tidied(ajour)
            },
        ),
        step: StepView { save: Save::Attempt, ..idle() },
    }
}

/// Reacts to a flavor being chosen.
pub fn select_flavor(ajour: &mut Ajour, flavor: Flavor) -> (step: Step)
    ensures
        outcome(*final(ajour), step) == flavor_selected(old(ajour).deep_view(), flavor),
{
    proof {
        reveal(flavor_selected);
    }
    ajour.is_showing_settings = false;
    ajour.expanded_type = ExpandType::Nothing;
    ajour.config.wow.flavor = flavor;
    if let Mode::MyAddons(_) = ajour.mode {
        ajour.mode = Mode::MyAddons(flavor);
    }
    query_and_sort_catalog(ajour);
    Step::save(Save::Attempt)
}

/// Offering the file that is installed.
pub open spec fn offering(file_id: Option<i64>) -> Condition<OfferView> {
    |offer: OfferView| offer.package.file_id == file_id
}

/// The channel that an addon follows when it is first listed: the one that was chosen for it, or
/// else the first one that offers what is installed, or else the one that it came with.
pub open spec fn initial_channel(addon: AddonView, channels: Map<Seq<char>, Seq<char>>) -> Seq<
    char,
> {
    if channels.contains_key(addon.primary_folder_id) {
        channels[addon.primary_folder_id]
    } else {
        match first_where(addon.remote_packages, offering(addon.file_id)) {
            Some(i) => addon.remote_packages[i].channel,
            None => addon.release_channel,
        }
    }
}

/// An addon as it is listed once it has been read.
pub open spec fn listed(
    addon: AddonView,
    channels: Map<Seq<char>, Seq<char>>,
    ignored_ids: Seq<Seq<char>>,
) -> AddonView {
    let following = AddonView { release_channel: initial_channel(addon, channels), ..addon };
    if ignored_ids.contains(addon.primary_folder_id) {
        following.in_state(StateView::Ignored)
    } else if following.has_update() && addon.state != StateView::Corrupted {
        following.in_state(StateView::Updatable)
    } else {
        following
    }
}

/// The addons as they are listed once they have been read, before they are sorted.
pub open spec fn all_listed(
    addons: Seq<AddonView>,
    channels: Map<Seq<char>, Seq<char>>,
    ignored_ids: Seq<Seq<char>>,
) -> Seq<AddonView> {
    Seq::new(addons.len(), |i: int| listed(addons[i], channels, ignored_ids))
}

/// A flavor's addons were read, or could not be read. Those that were are listed by their states,
/// in descending order.
#[verifier::opaque]
pub open spec fn addons_parsed(
    ajour: AjourView,
    flavor: Flavor,
    addons: Option<Seq<AddonView>>,
) -> Outcome {
    let ready = AjourView {
        state: ajour.state.insert(Mode::MyAddons(flavor), State::Ready),
        ..ajour
    };
    match addons {
        Some(addons) => {
            let ignored_ids = list_for(ajour.config.ignored, flavor);
            let channels = channels_for(ajour.config.release_channels, flavor);
            only(
                AjourView {
                    header: HeaderView {
                        previous_sort_direction: Some(SortDirection::Desc),
                        previous_column_key: Some(ColumnKey::Status),
                        ..ajour.header
                    },
                    ..with_addons(
                        with_channels(
                            with_ignored(ready, flavor, ignored_ids),
                            flavor,
                            channels,
                        ),
                        flavor,
                        stable_sort(
                            all_listed(addons, channels, ignored_ids),
                            addon_order(
                                ColumnKey::Status,
                                SortDirection::Desc,
                                ajour.collation,
                            ),
                        ),
                    )
                },
            )
        },
        None => only(ready),
    }
}

fn list_addon(addon: &mut Addon, channels: &ChannelMap, ignored_ids: &Vec<String>)
    ensures
        final(addon).deep_view() == listed(
            old(addon).deep_view(),
            channels.deep_view(),
            ignored_ids.deep_view(),
        ),
{
    let ghost before = addon.deep_view();
    let ghost offers = offering(before.file_id);
    match channels.get(&addon.primary_folder_id) {
        Some(channel) => {
            addon.release_channel = channel.clone();
        },
        None => {
            proof {
                first_where_finds_the_first(before.remote_packages, offers);
            }
            let mut i: usize = 0;
            let mut found: bool = false;
            while i < addon.remote_packages.len() && !found
                invariant
                    addon.deep_view() == before,
                    offers == offering(before.file_id),
                    i <= before.remote_packages.len(),
                    forall|j: int|
                        0 <= j < i ==> !offers(#[trigger] before.remote_packages[j]),
                    found ==> i < before.remote_packages.len() && offers(
                        before.remote_packages[i as int],
                    ),
                decreases before.remote_packages.len() - i, (if found { 0int } else { 1int }),
            {
                if addon.remote_packages[i].package.file_id == addon.file_id {
                    found = true;
                } else {
                    assert(!offers(before.remote_packages[i as int]));
                    i = i + 1;
                }
            }
            if found {
                assert(is_first(before.remote_packages, offers, i as int));
                addon.release_channel = addon.remote_packages[i].channel.clone();
            } else {
                assert(first_where(before.remote_packages, offers) is None) by {
                    if first_where(before.remote_packages, offers) is Some {
                        let k = first_where(before.remote_packages, offers)->0;
                        assert(offers(before.remote_packages[k]));
                    }
                }
            }
        },
    }
    if addon.is_updatable() && !matches!(addon.state, AddonState::Corrupted) {
        addon.state = AddonState::Updatable;
    }
    if contains_string(ignored_ids, &addon.primary_folder_id) {
        addon.state = AddonState::Ignored;
    }
}

/// Reacts to a flavor's addons having been read.
pub fn list_addons(
    ajour: &mut Ajour,
    flavor: Flavor,
    result: Result<Vec<Addon>, String>,
) -> (step: Step)
    ensures
        outcome(*final(ajour), step) == addons_parsed(
            old(ajour).deep_view(),
            flavor,
            result.ok().deep_view(),
        ),
{
    proof {
        reveal(addons_parsed);
    }
    ajour.state.insert(Mode::MyAddons(flavor), State::Ready);
    if let Ok(addons) = result {
        let mut addons = addons;
        let ghost before = addons.deep_view();
        let ignored_ids = ajour.config.addons.ignored.list_mut(flavor);
        let channels = ajour.config.addons.release_channels.channels_mut(flavor);
        let ghost after = all_listed(before, channels.deep_view(), ignored_ids.deep_view());
        assert(addons.deep_view() =~= after.take(0) + before.skip(0));
        let mut i: usize = 0;
        while i < addons.len()
            invariant
                i <= before.len(),
                addons@.len() == before.len(),
                after == all_listed(before, channels.deep_view(), ignored_ids.deep_view()),
                addons.deep_view() == after.take(i as int) + before.skip(i as int),
            decreases before.len() - i,
        {
            let ghost current = addons.deep_view();
            assert(current[i as int] == before[i as int]);
            list_addon(&mut addons[i], channels, ignored_ids);
            assert(addons.deep_view() =~= current.update(i as int, after[i as int]));
            assert(addons.deep_view() =~= after.take(i + 1) + before.skip(i + 1));
            i = i + 1;
        }
        assert(addons.deep_view() =~= after);
        sort_addons(&mut addons, SortDirection::Desc, ColumnKey::Status, &ajour.collation);
        ajour.header_state.previous_sort_direction = Some(SortDirection::Desc);
        ajour.header_state.previous_column_key = Some(ColumnKey::Status);
        ajour.addons.insert(flavor, addons);
    }
    Step::none()
}

} // verus!
