//! What is promised of reactions that concern single addons.
use super::words::{
    asks_for, asks_nothing, asks_to_save, is_first_named, is_first_on, is_off, is_state_by_offer,
    is_unnamed, of, offers_release, offers_update, own_addons, same_but_at, same_elsewhere,
};
use crate::addon::{
    on_channel, with_id, without_id, AddonView, ReleaseChannel, Repository, Standing, StateView,
};
use crate::config::ConfigView;
use crate::list::{first_where, first_where_finds_the_first, is_first};
use crate::message::{DownloadReason, Interaction, Message};
use crate::state::{AjourView, Directories, ExpandView};
use crate::task::{Save, TaskView};
use crate::update::addons::{
    all_updated, channel_selected, deleted, due, fingerprinted, ignored, other_than,
    standings_refreshed, unignored, updated,
};
use crate::update::laws::lemma_filter_keeps_all;
use crate::update::transition;
use crate::wow::Flavor;
use vstd::prelude::*;

verus! {

/// The first value that meets a condition is found, and it is found wherever one does.
pub proof fn the_first_is_found<V>(values: Seq<V>, condition: spec_fn(V) -> bool)
    ensures
        match first_where(values, condition) {
            Some(i) => 0 <= i < values.len() && condition(values[i]) && forall|j: int|
                0 <= j < i ==> !condition(#[trigger] values[j]),
            None => forall|j: int| 0 <= j < values.len() ==> !condition(#[trigger] values[j]),
        },
{
    first_where_finds_the_first(values, condition);
}

pub(crate) proof fn lemma_first_named(addons: Seq<AddonView>, id: Seq<char>)
    ensures
        forall|i: int| #[trigger]
            is_first_named(addons, id, i) ==> first_where(addons, with_id(id)) == Some(i),
        is_unnamed(addons, id) ==> first_where(addons, with_id(id)) is None,
        first_where(addons, with_id(id)) is None ==> is_unnamed(addons, id),
        first_where(addons, with_id(id)) is Some ==> is_first_named(
            addons,
            id,
            first_where(addons, with_id(id))->0,
        ),
{
    first_where_finds_the_first(addons, with_id(id));
    assert forall|i: int| #[trigger] is_first_named(addons, id, i) implies first_where(
        addons,
        with_id(id),
    ) == Some(i) by {
        assert(is_first(addons, with_id(id), i));
    }
    if first_where(addons, with_id(id)) is None {
        assert forall|j: int| 0 <= j < addons.len() implies (
        #[trigger] addons[j]).primary_folder_id != id by {
            assert(!with_id(id)(addons[j]));
        }
    } else {
        let i = first_where(addons, with_id(id))->0;
        assert forall|j: int| 0 <= j < i implies (#[trigger] addons[j]).primary_folder_id != id by {
            assert(!with_id(id)(addons[j]));
        }
    }
}

/// An addon has the release and the update that its standing on the channel that it follows says,
/// and the place that it says. Without a standing there it has no release, and its own place.
pub proof fn standings_decide(addon: AddonView, k: int)
    ensures
        is_first_on(addon.standings, addon.release_channel, k) ==> {
            &&& addon.relevant_package() == addon.standings[k].package
            &&& addon.has_update() == (addon.standings[k].package is Some
                && addon.standings[k].updatable)
            &&& addon.place() == addon.standings[k].rank
        },
        is_off(addon.standings, addon.release_channel) ==> {
            &&& addon.relevant_package() is None
            &&& !addon.has_update()
            &&& addon.place() == addon.rank
        },
        addon.has_update() <==> offers_update(addon.standings, addon.release_channel),
        addon.relevant_package() is Some <==> offers_release(
            addon.standings,
            addon.release_channel,
        ),
{
    let standings = addon.standings;
    let channel = addon.release_channel;
    let condition = on_channel(channel);
    first_where_finds_the_first(standings, condition);
    assert forall|j: int| #[trigger] is_first_on(standings, channel, j) implies first_where(
        standings,
        condition,
    ) == Some(j) by {
        assert(is_first(standings, condition, j));
    }
    if first_where(standings, condition) is Some {
        let j = first_where(standings, condition)->0;
        assert forall|m: int| 0 <= m < j implies (#[trigger] standings[m]).channel != channel by {
            assert(!condition(standings[m]));
        }
        assert(is_first_on(standings, channel, j));
    } else {
        assert forall|m: int| 0 <= m < standings.len() implies (#[trigger] standings[m]).channel
            != channel by {
            assert(!condition(standings[m]));
        }
    }
}

pub(crate) proof fn lemma_reassessed(addon: AddonView)
    ensures
        addon.reassessed() == (AddonView { state: addon.reassessed().state, ..addon }),
        is_state_by_offer(
            addon.standings,
            addon.release_channel,
            addon.state,
            addon.reassessed().state,
        ),
{
    standings_decide(addon, 0);
}

/// Ignoring an addon puts the first one with the identifier in the state `Ignored` and keeps the
/// identifier, after those that are kept already, and has the settings saved. An identifier that no
/// addon has changes nothing of that. In either case the window is tidied, and all else stays.
pub proof fn ignoring_marks_one_addon(ajour: AjourView, dirs: Directories, id: String, i: int)
    ensures
        ({
            let flavor = ajour.config.flavor;
            let addons = own_addons(ajour);
            let result = transition(ajour, dirs, Message::Interaction(Interaction::Ignore(id)));
            let after = result.ajour;
            &&& after == (AjourView {
                addons: after.addons,
                config: ConfigView { ignored: after.config.ignored, ..ajour.config },
                is_showing_settings: false,
                expanded_type: ExpandView::Nothing,
                ..ajour
            })
            &&& same_elsewhere(after.addons, ajour.addons, flavor)
            &&& same_elsewhere(after.config.ignored, ajour.config.ignored, flavor)
            &&& is_first_named(addons, id@, i) ==> {
                &&& same_but_at(own_addons(after), addons, i)
                &&& own_addons(after)[i] == (AddonView { state: StateView::Ignored, ..addons[i] })
                &&& of(after.config.ignored, flavor) == of(ajour.config.ignored, flavor).push(id@)
                &&& asks_to_save(result.step)
            }
            &&& is_unnamed(addons, id@) ==> {
                &&& own_addons(after) == addons
                &&& after.config == ajour.config
                &&& asks_nothing(result.step)
            }
        }),
{
    reveal(ignored);
    lemma_first_named(own_addons(ajour), id@);
}

/// No longer ignoring an addon puts the first one with the identifier in the state that follows
/// from what its channel offers, drops the identifier from those that are kept and no other, and
/// has the settings saved. All else stays.
pub proof fn unignoring_reassesses_one_addon(
    ajour: AjourView,
    dirs: Directories,
    id: String,
    i: int,
)
    ensures
        ({
            let flavor = ajour.config.flavor;
            let addons = own_addons(ajour);
            let result = transition(ajour, dirs, Message::Interaction(Interaction::Unignore(id)));
            let after = result.ajour;
            &&& after == (AjourView {
                addons: after.addons,
                config: ConfigView { ignored: after.config.ignored, ..ajour.config },
                ..ajour
            })
            &&& same_elsewhere(after.addons, ajour.addons, flavor)
            &&& same_elsewhere(after.config.ignored, ajour.config.ignored, flavor)
            &&& of(after.config.ignored, flavor) == of(ajour.config.ignored, flavor).filter(
                |kept: Seq<char>| kept != id@,
            )
            &&& is_first_named(addons, id@, i) ==> {
                &&& same_but_at(own_addons(after), addons, i)
                &&& own_addons(after)[i] == (AddonView {
                    state: own_addons(after)[i].state,
                    ..addons[i]
                })
                &&& is_state_by_offer(
                    addons[i].standings,
                    addons[i].release_channel,
                    addons[i].state,
                    own_addons(after)[i].state,
                )
            }
            &&& is_unnamed(addons, id@) ==> own_addons(after) == addons
            &&& asks_to_save(result.step)
        }),
{
    reveal(unignored);
    lemma_first_named(own_addons(ajour), id@);
    assert(other_than(id@) =~= (|kept: Seq<char>| kept != id@));
    if is_first_named(own_addons(ajour), id@, i) {
        lemma_reassessed(own_addons(ajour)[i]);
    }
}

/// Deleting an addon takes the addons with the identifier out of the list, deletes the folders of
/// the first of them, and removes that one's entry from the addon cache where it comes from Tukui
/// or WoWInterface and can be in the cache. An identifier that no addon has changes nothing of
/// that. In either case the window is tidied, and all else stays.
pub proof fn deleting_takes_one_addon_out(ajour: AjourView, dirs: Directories, id: String, i: int)
    ensures
        ({
            let flavor = ajour.config.flavor;
            let addons = own_addons(ajour);
            let result = transition(ajour, dirs, Message::Interaction(Interaction::Delete(id)));
            let after = result.ajour;
            &&& after == (AjourView {
                addons: after.addons,
                is_showing_settings: false,
                expanded_type: ExpandView::Nothing,
                ..ajour
            })
            &&& same_elsewhere(after.addons, ajour.addons, flavor)
            &&& own_addons(after) == addons.filter(
                |addon: AddonView| addon.primary_folder_id != id@,
            )
            &&& result.step.save == Save::Skip
            &&& is_first_named(addons, id@, i) ==> {
                let addon = addons[i];
                let cached = ajour.addon_cache is Some && addon.cacheable && (
                addon.active_repository == Some(Repository::Tukui) || addon.active_repository
                    == Some(Repository::WowI));
                &&& result.step.delete == addon.folders
                &&& cached ==> result.step.tasks == seq![
                    TaskView::RemoveAddonCacheEntry {
                        cache: ajour.addon_cache->0,
                        addon,
                        flavor,
                    },
                ]
                &&& !cached ==> result.step.tasks.len() == 0
            }
            &&& is_unnamed(addons, id@) ==> asks_nothing(result.step)
        }),
{
    reveal(deleted);
    let addons = own_addons(ajour);
    lemma_first_named(addons, id@);
    assert(without_id(id@) =~= (|addon: AddonView| addon.primary_folder_id != id@));
    if is_unnamed(addons, id@) {
        lemma_filter_keeps_all(addons, without_id(id@));
    }
}

/// Updating an addon downloads the first one with the identifier, to the folder for downloads, and
/// its state says so. An identifier that no addon has changes nothing of that. In either case the
/// window is tidied, and all else stays.
pub proof fn updating_downloads_one_addon(ajour: AjourView, dirs: Directories, id: String, i: int)
    ensures
        ({
            let flavor = ajour.config.flavor;
            let addons = own_addons(ajour);
            let result = transition(ajour, dirs, Message::Interaction(Interaction::Update(id)));
            let after = result.ajour;
            &&& after == (AjourView {
                addons: after.addons,
                is_showing_settings: false,
                expanded_type: ExpandView::Nothing,
                ..ajour
            })
            &&& same_elsewhere(after.addons, ajour.addons, flavor)
            &&& is_first_named(addons, id@, i) ==> {
                let addon = AddonView { state: StateView::Downloading, ..addons[i] };
                &&& same_but_at(own_addons(after), addons, i)
                &&& own_addons(after)[i] == addon
                &&& asks_for(
                    result.step,
                    TaskView::DownloadAddon {
                        reason: DownloadReason::Update,
                        flavor,
                        addon,
                        to_directory: dirs.downloads.slot(flavor)->0,
                    },
                )
            }
            &&& is_unnamed(addons, id@) ==> own_addons(after) == addons && asks_nothing(
                result.step,
            )
        }),
{
    reveal(updated);
    lemma_first_named(own_addons(ajour), id@);
}

/// Updating everything downloads the addons that are in the state `Updatable` and are not ignored,
/// one after the other as they are listed, and their states say so. Every addon in another state,
/// and every ignored one, is left as it was. Without a folder for downloads nothing is downloaded.
pub proof fn updating_all_spares_the_others(ajour: AjourView, dirs: Directories, j: int)
    ensures
        ({
            let flavor = ajour.config.flavor;
            let addons = own_addons(ajour);
            let ids = of(ajour.config.ignored, flavor);
            let result = transition(ajour, dirs, Message::Interaction(Interaction::UpdateAll));
            let after = result.ajour;
            let tasks = result.step.tasks;
            let folder = dirs.downloads.slot(flavor);
            &&& after == (AjourView {
                addons: after.addons,
                config: ConfigView { ignored: after.config.ignored, ..ajour.config },
                is_showing_settings: false,
                expanded_type: ExpandView::Nothing,
                ..ajour
            })
            &&& same_elsewhere(after.addons, ajour.addons, flavor)
            &&& same_elsewhere(after.config.ignored, ajour.config.ignored, flavor)
            &&& of(after.config.ignored, flavor) == ids
            &&& own_addons(after).len() == addons.len()
            &&& result.step.save == Save::Skip
            &&& result.step.delete.len() == 0
            &&& folder is None ==> own_addons(after) == addons && tasks.len() == 0
            &&& folder is Some && 0 <= j < addons.len() ==> {
                let picked = addons[j].state == StateView::Updatable && !ids.contains(
                    addons[j].primary_folder_id,
                );
                let addon = AddonView { state: StateView::Downloading, ..addons[j] };
                &&& picked ==> own_addons(after)[j] == addon && tasks.contains(
                    TaskView::DownloadAddon {
                        reason: DownloadReason::Update,
                        flavor,
                        addon,
                        to_directory: folder->0,
                    },
                )
                &&& !picked ==> own_addons(after)[j] == addons[j]
            }
            &&& folder is Some ==> tasks.len() == addons.filter(
                |addon: AddonView|
                    addon.state == StateView::Updatable && !ids.contains(addon.primary_folder_id),
            ).len()
            &&& folder is Some && 0 <= j < tasks.len() ==> tasks[j] == (TaskView::DownloadAddon {
                reason: DownloadReason::Update,
                flavor,
                addon: AddonView {
                    state: StateView::Downloading,
                    ..addons.filter(
                        |addon: AddonView|
                            addon.state == StateView::Updatable && !ids.contains(
                                addon.primary_folder_id,
                            ),
                    )[j]
                },
                to_directory: folder->0,
            })
            &&& 0 <= j < tasks.len() ==> exists|k: int|
                0 <= k < addons.len() && (#[trigger] addons[k]).state == StateView::Updatable
                    && !ids.contains(addons[k].primary_folder_id) && tasks[j]
                    == TaskView::DownloadAddon {
                    reason: DownloadReason::Update,
                    flavor,
                    addon: AddonView { state: StateView::Downloading, ..addons[k] },
                    to_directory: folder->0,
                }
        }),
{
    reveal(all_updated);
    let flavor = ajour.config.flavor;
    let addons = own_addons(ajour);
    let ids = of(ajour.config.ignored, flavor);
    let condition = |addon: AddonView|
        addon.state == StateView::Updatable && !ids.contains(addon.primary_folder_id);
    assert(due(ids) =~= condition);
    let picked = addons.filter(condition);
    let tasks = all_updated(ajour, dirs.download(flavor)).step.tasks;
    if dirs.download(flavor) is Some {
        if 0 <= j < addons.len() && condition(addons[j]) {
            addons.lemma_filter_contains(condition, j);
            let m = choose|m: int| 0 <= m < picked.len() && picked[m] == addons[j];
            assert(tasks[m]->DownloadAddon_addon == AddonView {
                state: StateView::Downloading,
                ..addons[j]
            });
            assert(tasks.contains(tasks[m]));
        }
        if 0 <= j < tasks.len() {
            addons.lemma_filter_pred(condition, j);
            assert(picked.contains(picked[j]));
            addons.lemma_filter_contains_rev(condition, picked[j]);
            let k = choose|k: int| 0 <= k < addons.len() && addons[k] == picked[j];
            assert(condition(addons[k]));
        }
    }
}

/// Choosing a release channel while an addon's details are unfolded has the first addon with that
/// identifier follow the channel, puts it in the state that follows from what the channel offers,
/// keeps the choice for that identifier and no other, and has the settings saved. All else stays.
pub proof fn choosing_a_channel_concerns_one_addon(
    ajour: AjourView,
    dirs: Directories,
    channel: ReleaseChannel,
    i: int,
)
    ensures
        ({
            let flavor = ajour.config.flavor;
            let addons = own_addons(ajour);
            let result = transition(ajour, dirs, Message::ReleaseChannelSelected(channel));
            let after = result.ajour;
            let before = ajour.config.release_channels;
            let chosen = after.config.release_channels;
            let name = channel.name@;
            &&& after == (AjourView {
                addons: after.addons,
                config: ConfigView { release_channels: chosen, ..ajour.config },
                ..ajour
            })
            &&& same_elsewhere(after.addons, ajour.addons, flavor)
            &&& same_elsewhere(chosen, before, flavor)
            &&& (match ajour.expanded_type {
                ExpandView::Details(shown) => {
                    let id = shown.primary_folder_id;
                    &&& is_first_named(addons, id, i) ==> {
                        &&& same_but_at(own_addons(after), addons, i)
                        &&& own_addons(after)[i] == (AddonView {
                            release_channel: name,
                            state: own_addons(after)[i].state,
                            ..addons[i]
                        })
                        &&& is_state_by_offer(
                            addons[i].standings,
                            name,
                            addons[i].state,
                            own_addons(after)[i].state,
                        )
                        &&& chosen.contains_key(flavor)
                        &&& chosen[flavor].contains_key(id)
                        &&& chosen[flavor][id] == name
                        &&& forall|other: Seq<char>|
                            other != id ==> {
                                let was = before.contains_key(flavor)
                                    && before[flavor].contains_key(other);
                                &&& #[trigger] chosen[flavor].contains_key(other) <==> was
                                &&& was ==> chosen[flavor][other] == before[flavor][other]
                            }
                        &&& asks_to_save(result.step)
                    }
                    &&& is_unnamed(addons, id) ==> {
                        &&& own_addons(after) == addons
                        &&& chosen == before
                        &&& asks_nothing(result.step)
                    }
                },
                _ => after == ajour && asks_nothing(result.step),
            })
        }),
{
    reveal(channel_selected);
    if let ExpandView::Details(shown) = ajour.expanded_type {
        let addons = own_addons(ajour);
        lemma_first_named(addons, shown.primary_folder_id);
        if is_first_named(addons, shown.primary_folder_id, i) {
            lemma_reassessed(AddonView { release_channel: channel.name@, ..addons[i] });
        }
    }
}

/// A fingerprint is noted on the first addon with the identifier: that it was taken, or that it was
/// not. All else stays.
pub proof fn a_fingerprint_is_noted_on_one_addon(
    ajour: AjourView,
    dirs: Directories,
    flavor: Flavor,
    id: String,
    result: Result<(), String>,
    i: int,
)
    ensures
        ({
            let addons = of(ajour.addons, flavor);
            let reaction = transition(
                ajour,
                dirs,
                Message::UpdateFingerprint(flavor, id, result),
            );
            let after = reaction.ajour;
            &&& after == (AjourView { addons: after.addons, ..ajour })
            &&& same_elsewhere(after.addons, ajour.addons, flavor)
            &&& asks_nothing(reaction.step)
            &&& is_first_named(addons, id@, i) ==> {
                &&& same_but_at(of(after.addons, flavor), addons, i)
                &&& result is Ok ==> of(after.addons, flavor)[i] == (AddonView {
                    state: StateView::Ajour(Some("Completed"@)),
                    ..addons[i]
                })
                &&& result is Err ==> of(after.addons, flavor)[i] == (AddonView {
                    state: StateView::Ajour(Some("Error"@)),
                    ..addons[i]
                })
            }
            &&& is_unnamed(addons, id@) ==> of(after.addons, flavor) == addons
        }),
{
    reveal(fingerprinted);
    lemma_first_named(of(ajour.addons, flavor), id@);
}

/// Standings that are made out anew take the place of the earlier ones, addon by addon, as far as
/// they are given. Nothing else of the addons changes, and all else stays.
pub proof fn new_standings_replace_the_earlier_ones(
    ajour: AjourView,
    flavor: Flavor,
    standings: Vec<Vec<Standing>>,
    i: int,
)
    ensures
        ({
            let addons = of(ajour.addons, flavor);
            let after = standings_refreshed(ajour, flavor, standings.deep_view());
            let shown = of(after.addons, flavor);
            &&& after == (AjourView { addons: after.addons, ..ajour })
            &&& same_elsewhere(after.addons, ajour.addons, flavor)
            &&& shown.len() == addons.len()
            &&& 0 <= i < addons.len() && i < standings@.len() ==> shown[i] == (AddonView {
                standings: standings@[i].deep_view(),
                ..addons[i]
            })
            &&& standings@.len() <= i < addons.len() ==> shown[i] == addons[i]
        }),
{
}

} // verus!
