//! Words that the laws share.
use crate::addon::{AddonView, StandingView, StateView};
use crate::state::AjourView;
use crate::task::{Save, StepView, TaskView};
use crate::wow::Flavor;
use vstd::prelude::*;

verus! {

/// What a map holds for the flavor. A flavor that the map does not have counts as one with nothing.
pub open spec fn of<V>(map: Map<Flavor, Seq<V>>, flavor: Flavor) -> Seq<V> {
    if map.contains_key(flavor) {
        map[flavor]
    } else {
        Seq::empty()
    }
}

/// The addons of the flavor that is chosen.
pub open spec fn own_addons(ajour: AjourView) -> Seq<AddonView> {
    of(ajour.addons, ajour.config.flavor)
}

/// The maps hold the same for all other flavors.
pub open spec fn same_elsewhere<V>(a: Map<Flavor, V>, b: Map<Flavor, V>, flavor: Flavor) -> bool {
    forall|other: Flavor|
        other != flavor ==> {
            &&& #[trigger] a.contains_key(other) <==> b.contains_key(other)
            &&& a.contains_key(other) ==> a[other] == b[other]
        }
}

/// The lists are the same but for what stands at the position.
pub open spec fn same_but_at<V>(a: Seq<V>, b: Seq<V>, position: int) -> bool {
    &&& a.len() == b.len()
    &&& forall|j: int| 0 <= j < a.len() && j != position ==> a[j] == #[trigger] b[j]
}

/// The first addon with the identifier stands at the position.
pub open spec fn is_first_named(addons: Seq<AddonView>, id: Seq<char>, position: int) -> bool {
    &&& 0 <= position < addons.len()
    &&& addons[position].primary_folder_id == id
    &&& forall|j: int|
        0 <= j < position ==> (#[trigger] addons[j]).primary_folder_id != id
}

/// No addon has the identifier.
pub open spec fn is_unnamed(addons: Seq<AddonView>, id: Seq<char>) -> bool {
    forall|j: int| 0 <= j < addons.len() ==> (#[trigger] addons[j]).primary_folder_id != id
}

/// The first of an addon's standings on the channel stands at the position.
pub open spec fn is_first_on(
    standings: Seq<StandingView>,
    channel: Seq<char>,
    position: int,
) -> bool {
    &&& 0 <= position < standings.len()
    &&& standings[position].channel == channel
    &&& forall|j: int| 0 <= j < position ==> (#[trigger] standings[j]).channel != channel
}

/// None of an addon's standings is on the channel.
pub open spec fn is_off(standings: Seq<StandingView>, channel: Seq<char>) -> bool {
    forall|j: int| 0 <= j < standings.len() ==> (#[trigger] standings[j]).channel != channel
}

/// There is a release on the channel, and it is an update.
pub open spec fn offers_update(standings: Seq<StandingView>, channel: Seq<char>) -> bool {
    exists|k: int| #[trigger]
        is_first_on(standings, channel, k) && standings[k].package is Some && standings[k].updatable
}

/// There is a release on the channel.
pub open spec fn offers_release(standings: Seq<StandingView>, channel: Seq<char>) -> bool {
    exists|k: int| #[trigger]
        is_first_on(standings, channel, k) && standings[k].package is Some
}

/// The state that an addon is in once it is known what its channel offers.
pub open spec fn is_state_by_offer(
    standings: Seq<StandingView>,
    channel: Seq<char>,
    before: StateView,
    after: StateView,
) -> bool {
    &&& offers_update(standings, channel) ==> after == StateView::Updatable
    &&& offers_release(standings, channel) && !offers_update(standings, channel) ==> after
        == StateView::Ajour(None)
    &&& !offers_release(standings, channel) ==> after == before
}

/// Standing level with the value: neither comes before the other.
pub open spec fn level_with<V>(ahead: spec_fn(V, V) -> bool, value: V) -> spec_fn(V) -> bool {
    |other: V| !ahead(other, value) && !ahead(value, other)
}

/// The values are those that there were before, put in sequence: none stands after one that it
/// comes before, and those that stand level are in the sequence that they had.
pub open spec fn is_arranged<V>(
    before: Seq<V>,
    after: Seq<V>,
    ahead: spec_fn(V, V) -> bool,
) -> bool {
    &&& after.len() == before.len()
    &&& after.to_multiset() == before.to_multiset()
    &&& forall|i: int, j: int| 0 <= i < j < after.len() ==> !#[trigger] ahead(after[j], after[i])
    &&& forall|value: V|
        #[trigger] after.filter(level_with(ahead, value)) == before.filter(
            level_with(ahead, value),
        )
}

/// Nothing is to be done.
pub open spec fn asks_nothing(step: StepView) -> bool {
    step.save == Save::Skip && step.delete.len() == 0 && step.tasks.len() == 0
}

/// The settings are to be saved, and nothing else.
pub open spec fn asks_to_save(step: StepView) -> bool {
    step.save == Save::Attempt && step.delete.len() == 0 && step.tasks.len() == 0
}

/// The task is to be done, and nothing else.
pub open spec fn asks_for(step: StepView, task: TaskView) -> bool {
    step.save == Save::Skip && step.delete.len() == 0 && step.tasks.len() == 1 && step.tasks[0]
        == task
}

} // verus!
