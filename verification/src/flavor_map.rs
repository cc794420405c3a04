//! Maps whose keys are game flavors.
use crate::wow::Flavor;
use vstd::prelude::*;

verus! {

/// At most one value for each flavor.
#[derive(Debug, PartialEq, Eq)]
pub struct FlavorMap<V> {
    pub retail: Option<V>,
    pub retail_ptr: Option<V>,
    pub retail_beta: Option<V>,
    pub classic_era: Option<V>,
    pub classic_tbc: Option<V>,
    pub classic_ptr: Option<V>,
    pub classic_beta: Option<V>,
}

impl<V> View for FlavorMap<V> {
    type V = Map<Flavor, V>;

    open spec fn view(&self) -> Map<Flavor, V> {
        Map::new(|flavor: Flavor| self.slot(flavor) is Some, |flavor: Flavor| self.slot(flavor)->0)
    }
}

impl<V: DeepView> DeepView for FlavorMap<V> {
    type V = Map<Flavor, V::V>;

    open spec fn deep_view(&self) -> Map<Flavor, V::V> {
        Map::new(
            |flavor: Flavor| self.slot(flavor) is Some,
            |flavor: Flavor| self.slot(flavor)->0.deep_view(),
        )
    }
}

impl<V> FlavorMap<V> {
    /// What is kept for the flavor.
    pub open spec fn slot(&self, flavor: Flavor) -> Option<V> {
        match flavor {
            Flavor::Retail => self.retail,
            Flavor::RetailPtr => self.retail_ptr,
            Flavor::RetailBeta => self.retail_beta,
            Flavor::ClassicEra => self.classic_era,
            Flavor::ClassicTbc => self.classic_tbc,
            Flavor::ClassicPtr => self.classic_ptr,
            Flavor::ClassicBeta => self.classic_beta,
        }
    }

    /// The empty map.
    pub fn new() -> (map: FlavorMap<V>)
        ensures
            map@ == Map::<Flavor, V>::empty(),
            forall|flavor: Flavor| #[trigger] map.slot(flavor) is None,
    {
        let map = FlavorMap {
            retail: None,
            retail_ptr: None,
            retail_beta: None,
            classic_era: None,
            classic_tbc: None,
            classic_ptr: None,
            classic_beta: None,
        };
        assert(map@ =~= Map::empty());
        map
    }

    /// The value for the flavor, if there is one.
    pub fn get(&self, flavor: Flavor) -> (value: Option<&V>)
        ensures
            match value {
                Some(value) => self.slot(flavor) == Some(*value),
                None => self.slot(flavor) is None,
            },
    {
        match flavor {
            Flavor::Retail => self.retail.as_ref(),
            Flavor::RetailPtr => self.retail_ptr.as_ref(),
            Flavor::RetailBeta => self.retail_beta.as_ref(),
            Flavor::ClassicEra => self.classic_era.as_ref(),
            Flavor::ClassicTbc => self.classic_tbc.as_ref(),
            Flavor::ClassicPtr => self.classic_ptr.as_ref(),
            Flavor::ClassicBeta => self.classic_beta.as_ref(),
        }
    }

    /// The place where the value for the flavor is kept.
    pub fn slot_mut(&mut self, flavor: Flavor) -> (slot: &mut Option<V>)
        ensures
            *slot == old(self).slot(flavor),
            forall|other: Flavor| #[trigger]
                final(self).slot(other) == if other == flavor {
                    *final(slot)
                } else {
                    old(self).slot(other)
                },
    {
        match flavor {
            Flavor::Retail => &mut self.retail,
            Flavor::RetailPtr => &mut self.retail_ptr,
            Flavor::RetailBeta => &mut self.retail_beta,
            Flavor::ClassicEra => &mut self.classic_era,
            Flavor::ClassicTbc => &mut self.classic_tbc,
            Flavor::ClassicPtr => &mut self.classic_ptr,
            Flavor::ClassicBeta => &mut self.classic_beta,
        }
    }
}

impl<V: DeepView> FlavorMap<V> {
    /// Puts a value in for the flavor, in place of the one that was there.
    pub fn insert(&mut self, flavor: Flavor, value: V)
        ensures
            final(self).deep_view() == old(self).deep_view().insert(flavor, value.deep_view()),
    {
        let slot = self.slot_mut(flavor);
        *slot = Some(value);
    }
}

/// The list of a map for a flavor: the empty list where the map has none.
pub open spec fn list_for<V>(map: Map<Flavor, Seq<V>>, flavor: Flavor) -> Seq<V> {
    if map.contains_key(flavor) {
        map[flavor]
    } else {
        Seq::empty()
    }
}

impl<T: DeepView> FlavorMap<Vec<T>> {
    /// The list for the flavor, which is put in empty where there is none.
    pub fn list_mut(&mut self, flavor: Flavor) -> (list: &mut Vec<T>)
        ensures
            list.deep_view() == list_for(old(self).deep_view(), flavor),
            final(self).deep_view() == old(self).deep_view().insert(flavor, final(list).deep_view()),
    {
        let empty: Vec<T> = Vec::new();
        assert(empty.deep_view() =~= Seq::empty());
        self.slot_mut(flavor).get_or_insert(empty)
    }
}

} // verus!
