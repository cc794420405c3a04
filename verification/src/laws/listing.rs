//! What is promised of reactions that concern the lists of addons as a whole.
use super::addons::standings_decide;
use super::sorting::{addon_ahead, addons_are_sorted_by_what_is_shown};
use super::words::{asks_for, asks_nothing, is_arranged, of, offers_update, same_elsewhere};
use crate::addon::{Addon, AddonView, OfferView, StateView};
use crate::config::{ColumnKey, ConfigView};
use crate::list::{first_where, first_where_finds_the_first, is_first};
use crate::message::{Interaction, Message};
use crate::order::stable_sort;
use crate::sort::addon_order;
use crate::state::{AjourView, Directories, ExpandView, HeaderView, Mode, SortDirection, State};
use crate::task::{Save, TaskView};
use crate::update::listing::{
    addons_parsed, all_listed, backup_tasks, listed, loading_after, offering, parsed, read_count,
    read_tasks, valid_after, without_directory, without_runs,
};
use crate::update::transition;
use crate::wow::Flavor;
use std::path::PathBuf;
use vstd::prelude::*;

verus! {

/// The flavors in the sequence in which they are read.
pub open spec fn flavors_in_sequence() -> Seq<Flavor> {
    seq![
        Flavor::Retail,
        Flavor::RetailPtr,
        Flavor::RetailBeta,
        Flavor::ClassicEra,
        Flavor::ClassicTbc,
        Flavor::ClassicPtr,
        Flavor::ClassicBeta,
    ]
}

/// The first of the offers that names the file stands at the position.
pub open spec fn is_first_offer(offers: Seq<OfferView>, file_id: Option<i64>, k: int) -> bool {
    &&& 0 <= k < offers.len()
    &&& offers[k].package.file_id == file_id
    &&& forall|j: int| 0 <= j < k ==> (#[trigger] offers[j]).package.file_id != file_id
}

/// What was chosen for the addons of a flavor.
pub open spec fn choices_of(
    map: Map<Flavor, Map<Seq<char>, Seq<char>>>,
    flavor: Flavor,
) -> Map<Seq<char>, Seq<char>> {
    if map.contains_key(flavor) {
        map[flavor]
    } else {
        Map::empty()
    }
}

/// How an addon that was read is listed: it follows the channel that was chosen for it, or else the
/// channel of the first offer of the file that is installed, or else the channel that it came with.
/// An ignored one is listed as such, one whose channel offers an update as updatable, unless it is
/// corrupted, and any other one in the state that it was read in. Nothing else of it changes.
pub open spec fn is_listed_as(
    read: AddonView,
    shown: AddonView,
    choices: Map<Seq<char>, Seq<char>>,
    ignored: Seq<Seq<char>>,
) -> bool {
    let id = read.primary_folder_id;
    let channel = shown.release_channel;
    let is_due = offers_update(read.standings, channel) && !(read.state is Corrupted);
    &&& shown == (AddonView { release_channel: channel, state: shown.state, ..read })
    &&& choices.contains_key(id) ==> channel == choices[id]
    &&& !choices.contains_key(id) ==> {
        &&& forall|k: int| #[trigger]
            is_first_offer(read.remote_packages, read.file_id, k) ==> channel
                == read.remote_packages[k].channel
        &&& (forall|k: int|
            0 <= k < read.remote_packages.len() ==> (
            #[trigger] read.remote_packages[k]).package.file_id != read.file_id) ==> channel
            == read.release_channel
    }
    &&& ignored.contains(id) ==> shown.state == StateView::Ignored
    &&& !ignored.contains(id) && is_due ==> shown.state == StateView::Updatable
    &&& !ignored.contains(id) && !is_due ==> shown.state == read.state
}

proof fn lemma_listed(
    read: AddonView,
    choices: Map<Seq<char>, Seq<char>>,
    ignored: Seq<Seq<char>>,
)
    ensures
        is_listed_as(read, listed(read, choices, ignored), choices, ignored),
{
    let shown = listed(read, choices, ignored);
    let offers = read.remote_packages;
    let condition = offering(read.file_id);
    first_where_finds_the_first(offers, condition);
    assert forall|k: int| #[trigger] is_first_offer(offers, read.file_id, k) implies first_where(
        offers,
        condition,
    ) == Some(k) by {
        assert(is_first(offers, condition, k));
    }
    standings_decide(AddonView { release_channel: shown.release_channel, ..read }, 0);
}

/// Addons that were read are all listed, and no others: each as its channel, what is offered there
/// and the settings make it. They are put in the descending sequence of their states. The list is
/// ready, and the lists of other flavors and all else stay.
pub proof fn addons_are_listed_as_they_were_read(
    ajour: AjourView,
    dirs: Directories,
    flavor: Flavor,
    addons: Vec<Addon>,
    i: int,
)
    ensures
        ({
            let read = addons.deep_view();
            let choices = choices_of(ajour.config.release_channels, flavor);
            let ignored = of(ajour.config.ignored, flavor);
            let result = transition(ajour, dirs, Message::ParsedAddons(flavor, Ok(addons)));
            let after = result.ajour;
            let shown = of(after.addons, flavor);
            &&& after == (AjourView {
                state: after.state,
                addons: after.addons,
                config: ConfigView {
                    ignored: after.config.ignored,
                    release_channels: after.config.release_channels,
                    ..ajour.config
                },
                header: HeaderView {
                    previous_column_key: Some(ColumnKey::Status),
                    previous_sort_direction: Some(SortDirection::Desc),
                    ..ajour.header
                },
                ..ajour
            })
            &&& after.state == ajour.state.insert(Mode::MyAddons(flavor), State::Ready)
            &&& same_elsewhere(after.addons, ajour.addons, flavor)
            &&& same_elsewhere(after.config.ignored, ajour.config.ignored, flavor)
            &&& same_elsewhere(
                after.config.release_channels,
                ajour.config.release_channels,
                flavor,
            )
            &&& of(after.config.ignored, flavor) == ignored
            &&& choices_of(after.config.release_channels, flavor) == choices
            &&& asks_nothing(result.step)
            &&& shown.len() == read.len()
            &&& exists|listing: Seq<AddonView>|
                {
                    &&& #[trigger] is_arranged(
                        listing,
                        shown,
                        addon_ahead(ColumnKey::Status, SortDirection::Desc, ajour.collation),
                    )
                    &&& listing.len() == read.len()
                    &&& forall|j: int|
                        0 <= j < read.len() ==> is_listed_as(
                            #[trigger] read[j],
                            listing[j],
                            choices,
                            ignored,
                        )
                }
            &&& 0 <= i < read.len() ==> exists|j: int|
                0 <= j < shown.len() && is_listed_as(
                    read[i],
                    #[trigger] shown[j],
                    choices,
                    ignored,
                )
            &&& 0 <= i < shown.len() ==> exists|j: int|
                0 <= j < read.len() && is_listed_as(
                    #[trigger] read[j],
                    shown[i],
                    choices,
                    ignored,
                )
        }),
{
    reveal(addons_parsed);
    let read = addons.deep_view();
    let choices = choices_of(ajour.config.release_channels, flavor);
    let ignored = of(ajour.config.ignored, flavor);
    let listing = all_listed(read, choices, ignored);
    let ahead = addon_ahead(ColumnKey::Status, SortDirection::Desc, ajour.collation);
    let message = Message::ParsedAddons(flavor, Ok(addons));
    let shown = of(transition(ajour, dirs, message).ajour.addons, flavor);
    assert forall|j: int| 0 <= j < read.len() implies is_listed_as(
        #[trigger] read[j],
        listing[j],
        choices,
        ignored,
    ) by {
        lemma_listed(read[j], choices, ignored);
    }
    assert(message->ParsedAddons_1.ok().deep_view() == Some(read));
    assert(shown == stable_sort(
        listing,
        addon_order(ColumnKey::Status, SortDirection::Desc, ajour.collation),
    ));
    addons_are_sorted_by_what_is_shown(
        listing,
        ColumnKey::Status,
        SortDirection::Desc,
        ajour.collation,
    );
    listing.to_multiset_ensures();
    shown.to_multiset_ensures();
    if 0 <= i < read.len() {
        assert(listing.contains(listing[i]));
        assert(shown.to_multiset().count(listing[i]) > 0);
        assert(shown.contains(listing[i]));
        let j = choose|j: int| 0 <= j < shown.len() && shown[j] == listing[i];
        assert(is_listed_as(read[i], shown[j], choices, ignored));
        assert(listing.contains(shown[i])) by {
            assert(shown.contains(shown[i]));
            assert(listing.to_multiset().count(shown[i]) > 0);
        }
        let k = choose|k: int| 0 <= k < listing.len() && listing[k] == shown[i];
        assert(is_listed_as(read[k], shown[i], choices, ignored));
    }
}

/// Addons that could not be read leave the list as it is, and it is ready. All else stays.
pub proof fn addons_that_could_not_be_read_change_nothing(
    ajour: AjourView,
    dirs: Directories,
    flavor: Flavor,
    error: String,
)
    ensures
        ({
            let result = transition(ajour, dirs, Message::ParsedAddons(flavor, Err(error)));
            &&& result.ajour == (AjourView {
                state: ajour.state.insert(Mode::MyAddons(flavor), State::Ready),
                ..ajour
            })
            &&& asks_nothing(result.step)
        }),
{
    reveal(addons_parsed);
}

/// Caches that were loaded are used from then on, each for what it is for. Whether they were or
/// not, the addons are read. All else stays.
pub proof fn loading_caches_leads_to_reading(
    ajour: AjourView,
    dirs: Directories,
    loaded: Result<(u64, u64), String>,
)
    ensures
        ({
            let result = transition(ajour, dirs, Message::CachesLoaded(loaded));
            &&& asks_for(result.step, TaskView::Parse)
            &&& loaded matches Ok((fingerprints, addons)) ==> result.ajour == (AjourView {
                fingerprint_cache: Some(fingerprints),
                addon_cache: Some(addons),
                ..ajour
            })
            &&& loaded is Err ==> result.ajour == ajour
        }),
{
}

/// Refreshing clears every list and reads the addons. The list of the chosen flavor is loading, the
/// window is tidied, and all else stays.
pub proof fn refreshing_clears_the_lists(ajour: AjourView, dirs: Directories)
    ensures
        ({
            let result = transition(ajour, dirs, Message::Interaction(Interaction::Refresh));
            &&& result.ajour == (AjourView {
                addons: Map::empty(),
                state: ajour.state.insert(Mode::MyAddons(ajour.config.flavor), State::Loading),
                is_showing_settings: false,
                expanded_type: ExpandView::Nothing,
                ..ajour
            })
            &&& asks_for(result.step, TaskView::Parse)
        }),
{
}

/// A folder of the game that is chosen is kept: every list is cleared and loading, and the addons
/// are read. The catalog's state and all else stay. Without a choice nothing changes.
pub proof fn choosing_the_folder_of_the_game_clears_the_lists(
    ajour: AjourView,
    dirs: Directories,
    path: Option<PathBuf>,
    mode: Mode,
)
    ensures
        ({
            let result = transition(ajour, dirs, Message::UpdateWowDirectory(path));
            let after = result.ajour;
            &&& path is None ==> after == ajour && asks_nothing(result.step)
            &&& path is Some ==> {
                &&& after == (AjourView {
                    addons: Map::empty(),
                    config: ConfigView { directory: path, ..ajour.config },
                    state: after.state,
                    ..ajour
                })
                &&& after.state.contains_key(mode) <==> ajour.state.contains_key(mode)
                &&& ajour.state.contains_key(mode) && mode != Mode::Catalog ==> after.state[mode]
                    == State::Loading
                &&& ajour.state.contains_key(mode) && mode == Mode::Catalog ==> after.state[mode]
                    == ajour.state[mode]
                &&& result.step.save == Save::Attempt
                &&& result.step.delete.len() == 0
                &&& result.step.tasks == seq![TaskView::Parse]
            }
        }),
{
}

/// The first flavors all have folders of addons.
pub open spec fn have_folders(dirs: Directories, count: int) -> bool {
    forall|k: int|
        0 <= k < count ==> dirs.addons.slot(#[trigger] flavors_in_sequence()[k]) is Some
}

/// As many flavors as are read: those that come before the first one without a folder of addons.
pub open spec fn is_count_of_read(dirs: Directories, count: int) -> bool {
    &&& 0 <= count <= 7
    &&& have_folders(dirs, count)
    &&& count < 7 ==> dirs.addons.slot(flavors_in_sequence()[count]) is None
}

proof fn lemma_count(dirs: Directories, count: int)
    requires
        is_count_of_read(dirs, count),
    ensures
        read_count(dirs) == count,
        Flavor::ALL@ == flavors_in_sequence(),
{
    assert(Flavor::ALL@ =~= flavors_in_sequence());
    let missing = without_directory(dirs);
    first_where_finds_the_first(Flavor::ALL@, missing);
    if count < 7 {
        assert forall|j: int| 0 <= j < count implies !missing(#[trigger] Flavor::ALL@[j]) by {
            assert(dirs.addons.slot(flavors_in_sequence()[j]) is Some);
        }
        assert(is_first(Flavor::ALL@, missing, count));
    } else if first_where(Flavor::ALL@, missing) is Some {
        let k = first_where(Flavor::ALL@, missing)->0;
        assert(missing(Flavor::ALL@[k]));
        assert(dirs.addons.slot(flavors_in_sequence()[k]) is Some);
    }
}

proof fn lemma_loading(states: Map<Mode, State>, count: int, mode: Mode)
    requires
        0 <= count <= 7,
    ensures
        ({
            let after = loading_after(states, count);
            let is_read = exists|k: int|
                0 <= k < count && mode == Mode::MyAddons(#[trigger] Flavor::ALL@[k]);
            &&& is_read ==> after.contains_key(mode) && after[mode] == State::Loading
            &&& !is_read ==> (after.contains_key(mode) <==> states.contains_key(mode))
            &&& !is_read && states.contains_key(mode) ==> after[mode] == states[mode]
        }),
    decreases count,
{
    if count > 0 {
        lemma_loading(states, count - 1, mode);
        let last = Flavor::ALL@[count - 1];
        if mode == Mode::MyAddons(last) {
            assert(mode == Mode::MyAddons(Flavor::ALL@[count - 1]));
        } else if exists|k: int|
            0 <= k < count && mode == Mode::MyAddons(#[trigger] Flavor::ALL@[k]) {
            let k = choose|k: int|
                0 <= k < count && mode == Mode::MyAddons(#[trigger] Flavor::ALL@[k]);
            assert(k < count - 1);
        }
    }
}

/// Reading the addons looks for the latest backup, where a folder for backups is chosen, and then
/// reads the flavors one after the other, with the caches that there are, up to the first one
/// without a folder of addons. The lists that are read are loading. Where a folder is missing, the
/// user is welcomed in the list of the chosen flavor.
pub proof fn reading_reads_each_flavor_with_a_folder(
    ajour: AjourView,
    dirs: Directories,
    count: int,
    k: int,
    mode: Mode,
)
    requires
        is_count_of_read(dirs, count),
    ensures
        ({
            let result = transition(ajour, dirs, Message::Parse);
            let after = result.ajour;
            let tasks = result.step.tasks;
            let first: int = if ajour.config.backup_directory is Some {
                1
            } else {
                0
            };
            let is_read = exists|j: int|
                0 <= j < count && mode == Mode::MyAddons(#[trigger] flavors_in_sequence()[j]);
            let is_welcome = count < 7 && mode == Mode::MyAddons(ajour.config.flavor);
            &&& result.step.delete.len() == 0
            &&& tasks.len() == first + count
            &&& first == 1 ==> tasks[0] == TaskView::LatestBackup(ajour.config.backup_directory->0)
            &&& 0 <= k < count ==> tasks[first + k] == (TaskView::ReadAddonDirectory {
                addon_cache: ajour.addon_cache,
                fingerprint_cache: ajour.fingerprint_cache,
                directory: dirs.addons.slot(flavors_in_sequence()[k])->0.path,
                flavor: flavors_in_sequence()[k],
            })
            &&& after == (AjourView {
                valid_flavors: after.valid_flavors,
                state: after.state,
                config: ConfigView { flavor: after.config.flavor, ..ajour.config },
                mode: after.mode,
                ..ajour
            })
            &&& is_welcome ==> after.state.contains_key(mode) && after.state[mode] == State::Start
            &&& !is_welcome && is_read ==> after.state.contains_key(mode) && after.state[mode]
                == State::Loading
            &&& !is_welcome && !is_read ==> (after.state.contains_key(mode)
                <==> ajour.state.contains_key(mode)) && (ajour.state.contains_key(mode)
                ==> after.state[mode] == ajour.state[mode])
        }),
{
    reveal(parsed);
    lemma_count(dirs, count);
    lemma_loading(ajour.state, count, mode);
    let tasks = transition(ajour, dirs, Message::Parse).step.tasks;
    assert(tasks == backup_tasks(ajour) + read_tasks(ajour, dirs, count));
}

/// Of the first flavors, those that have their folders on disk.
pub open spec fn on_disk(dirs: Directories, count: int) -> Seq<Flavor> {
    flavors_in_sequence().take(count).filter(
        |flavor: Flavor| dirs.addons.slot(flavor)->0.exists,
    )
}

/// No two flavors next to each other are the same.
pub open spec fn has_no_runs(flavors: Seq<Flavor>) -> bool {
    forall|i: int, j: int| 0 <= i && j == i + 1 && j < flavors.len() ==> flavors[i] != flavors[j]
}

/// The flavors followed by the others, with one at the seam where the same stands on both sides.
pub open spec fn joined(flavors: Seq<Flavor>, others: Seq<Flavor>) -> Seq<Flavor> {
    if flavors.len() > 0 && others.len() > 0 && flavors.last() == others[0] {
        flavors + others.drop_first()
    } else {
        flavors + others
    }
}

proof fn lemma_no_runs_stay(flavors: Seq<Flavor>)
    requires
        has_no_runs(flavors),
    ensures
        without_runs(flavors) == flavors,
    decreases flavors.len(),
{
    if flavors.len() >= 2 {
        let rest = flavors.drop_last();
        assert(has_no_runs(rest));
        lemma_no_runs_stay(rest);
        assert(flavors[flavors.len() - 2] != flavors[flavors.len() - 1]);
        assert(rest.push(flavors.last()) =~= flavors);
    }
}

proof fn lemma_valid(flavors: Seq<Flavor>, dirs: Directories, count: int)
    requires
        has_no_runs(flavors),
        0 <= count <= 7,
    ensures
        valid_after(flavors, dirs, count) == joined(flavors, on_disk(dirs, count)),
        has_no_runs(joined(flavors, on_disk(dirs, count))),
        forall|i: int|
            0 <= i < on_disk(dirs, count).len() ==> exists|k: int|
                0 <= k < count && #[trigger] flavors_in_sequence()[k] == #[trigger] on_disk(
                    dirs,
                    count,
                )[i],
    decreases count,
{
    reveal(Seq::filter);
    let all = flavors_in_sequence();
    assert(Flavor::ALL@ =~= all);
    if count == 0 {
        assert(all.take(0).len() == 0);
        assert(joined(flavors, on_disk(dirs, 0)) =~= flavors);
    } else {
        let earlier = on_disk(dirs, count - 1);
        let before = joined(flavors, earlier);
        let last = all[count - 1];
        lemma_valid(flavors, dirs, count - 1);
        assert(all.take(count).drop_last() =~= all.take(count - 1));
        assert(all.take(count).last() == last);
        if dirs.addons.slot(last)->0.exists {
            let later = earlier.push(last);
            assert(on_disk(dirs, count) == later);
            assert forall|i: int| 0 <= i < earlier.len() implies earlier[i] != last by {
                let k = choose|k: int|
                    0 <= k < count - 1 && #[trigger] flavors_in_sequence()[k] == earlier[i];
                assert(all[k] != last);
            }
            assert forall|i: int| 0 <= i < later.len() implies exists|k: int|
                0 <= k < count && #[trigger] flavors_in_sequence()[k] == #[trigger] later[i] by {
                if i < earlier.len() {
                    assert(earlier[i] == later[i]);
                    let k = choose|k: int|
                        0 <= k < count - 1 && #[trigger] flavors_in_sequence()[k] == earlier[i];
                    assert(flavors_in_sequence()[k] == later[i]);
                } else {
                    assert(flavors_in_sequence()[count - 1] == later[i]);
                }
            }
            lemma_no_runs_stay(before);
            let longer = before.push(last);
            assert(longer.drop_last() =~= before);
            if earlier.len() > 0 {
                assert(joined(flavors, later) =~= longer);
                if before.len() > 0 {
                    if flavors.len() > 0 && flavors.last() == earlier[0] && earlier.len() == 1 {
                        assert(before =~= flavors);
                        assert(before.last() == earlier[0]);
                    } else {
                        assert(before.last() == earlier[earlier.len() - 1]);
                    }
                    assert(before.last() != last);
                }
                assert(without_runs(longer) =~= longer);
            } else {
                assert(before =~= flavors);
                if flavors.len() > 0 && flavors.last() == last {
                    assert(joined(flavors, later) =~= flavors);
                    assert(longer[longer.len() - 2] == longer.last());
                    assert(without_runs(longer) == without_runs(before));
                } else {
                    assert(joined(flavors, later) =~= longer);
                    assert(without_runs(longer) =~= longer);
                }
            }
            assert(has_no_runs(joined(flavors, later)));
        } else {
            assert(on_disk(dirs, count) == earlier);
            assert forall|i: int| 0 <= i < earlier.len() implies exists|k: int|
                0 <= k < count && #[trigger] flavors_in_sequence()[k] == #[trigger] on_disk(
                    dirs,
                    count,
                )[i] by {
                let k = choose|k: int|
                    0 <= k < count - 1 && #[trigger] flavors_in_sequence()[k] == earlier[i];
                assert(flavors_in_sequence()[k] == on_disk(dirs, count)[i]);
            }
        }
    }
}

proof fn lemma_runs_are_taken_out(flavors: Seq<Flavor>, flavor: Flavor)
    ensures
        has_no_runs(without_runs(flavors)),
        without_runs(flavors).contains(flavor) <==> flavors.contains(flavor),
        without_runs(flavors).len() > 0 <==> flavors.len() > 0,
        flavors.len() > 0 ==> without_runs(flavors).last() == flavors.last(),
        flavors.len() > 0 ==> without_runs(flavors)[0] == flavors[0],
    decreases flavors.len(),
{
    if flavors.len() >= 2 {
        let rest = flavors.drop_last();
        let shorter = without_runs(rest);
        lemma_runs_are_taken_out(rest, flavor);
        assert(rest.push(flavors.last()) =~= flavors);
        lemma_pushed(rest, flavors.last(), flavor);
        lemma_pushed(shorter, flavors.last(), flavor);
        if rest.last() == flavors.last() && flavor == flavors.last() {
            assert(rest.contains(rest[rest.len() - 1]));
        }
    }
}

proof fn lemma_pushed(flavors: Seq<Flavor>, last: Flavor, flavor: Flavor)
    ensures
        flavors.push(last).contains(flavor) <==> flavors.contains(flavor) || flavor == last,
{
    let longer = flavors.push(last);
    if flavors.contains(flavor) {
        let i = choose|i: int| 0 <= i < flavors.len() && flavors[i] == flavor;
        assert(longer[i] == flavor);
    }
    assert(longer[longer.len() - 1] == last);
}

proof fn lemma_any_valid(flavors: Seq<Flavor>, dirs: Directories, count: int, flavor: Flavor)
    requires
        0 <= count <= 7,
    ensures
        ({
            let valid = valid_after(flavors, dirs, count);
            let found = on_disk(dirs, count);
            &&& valid.contains(flavor) <==> flavors.contains(flavor) || found.contains(flavor)
            &&& found.len() == 0 ==> valid == flavors
            &&& found.len() > 0 ==> has_no_runs(valid) && valid.len() > 0 && valid.last()
                == found.last()
            &&& flavors.len() > 0 ==> valid.len() > 0 && valid[0] == flavors[0]
        }),
    decreases count,
{
    reveal(Seq::filter);
    let all = flavors_in_sequence();
    assert(Flavor::ALL@ =~= all);
    if count == 0 {
        assert(all.take(0).len() == 0);
    } else {
        let earlier = on_disk(dirs, count - 1);
        let before = valid_after(flavors, dirs, count - 1);
        let last = all[count - 1];
        lemma_any_valid(flavors, dirs, count - 1, flavor);
        assert(all.take(count).drop_last() =~= all.take(count - 1));
        assert(all.take(count).last() == last);
        if dirs.addons.slot(last)->0.exists {
            lemma_pushed(earlier, last, flavor);
            lemma_pushed(before, last, flavor);
            lemma_runs_are_taken_out(before.push(last), flavor);
        }
    }
}

/// Whatever flavors were valid before, those that are read and have their folders on disk are valid
/// too, once the addons are read, and no others. The first one stays the first. Where there are any
/// on disk, no flavor stands beside itself, and the last one on disk comes last. Where there are
/// none, nothing changes.
pub proof fn reading_adds_the_flavors_on_disk(
    ajour: AjourView,
    dirs: Directories,
    count: int,
    flavor: Flavor,
)
    requires
        is_count_of_read(dirs, count),
    ensures
        ({
            let before = ajour.valid_flavors;
            let valid = transition(ajour, dirs, Message::Parse).ajour.valid_flavors;
            let found = on_disk(dirs, count);
            &&& valid.contains(flavor) <==> before.contains(flavor) || found.contains(flavor)
            &&& found.len() == 0 ==> valid == before
            &&& found.len() > 0 ==> has_no_runs(valid) && valid.len() > 0 && valid.last()
                == found.last()
            &&& before.len() > 0 ==> valid.len() > 0 && valid[0] == before[0]
        }),
{
    reveal(parsed);
    lemma_count(dirs, count);
    lemma_any_valid(ajour.valid_flavors, dirs, count, flavor);
}

/// Once the addons are read, the flavors that are read and have their folders on disk are valid, in
/// sequence, after those that were valid before, if none of these stood beside itself. The chosen
/// flavor stays where it is valid or none is. Otherwise the first valid one is chosen and shown,
/// and the settings have to be saved before anything is done.
pub proof fn reading_settles_on_a_flavor_on_disk(ajour: AjourView, dirs: Directories, count: int)
    requires
        is_count_of_read(dirs, count),
    ensures
        ({
            let result = transition(ajour, dirs, Message::Parse);
            let after = result.ajour;
            let valid = after.valid_flavors;
            let stays = valid.contains(ajour.config.flavor) || valid.len() == 0;
            &&& has_no_runs(ajour.valid_flavors) ==> {
                &&& valid == joined(ajour.valid_flavors, on_disk(dirs, count))
                &&& has_no_runs(valid)
            }
            &&& stays ==> {
                &&& after.config.flavor == ajour.config.flavor
                &&& after.mode == ajour.mode
                &&& result.step.save == Save::Skip
            }
            &&& !stays ==> {
                &&& after.config.flavor == valid[0]
                &&& after.mode == Mode::MyAddons(valid[0])
                &&& result.step.save == Save::Require
            }
        }),
{
    reveal(parsed);
    lemma_count(dirs, count);
    if has_no_runs(ajour.valid_flavors) {
        lemma_valid(ajour.valid_flavors, dirs, count);
    }
}

} // verus!
