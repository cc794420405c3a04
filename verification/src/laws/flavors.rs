//! What is promised of the names of flavors.
use super::searching::base_of;
use crate::wow::{names_are_read_as_one_flavor, Flavor};
use vstd::prelude::*;

verus! {

/// The names that are read as the flavor.
pub open spec fn names_of(flavor: Flavor) -> Seq<Seq<char>> {
    match flavor {
        Flavor::Retail => seq!["Retail"@, "retail"@, "wow_retail"@],
        Flavor::RetailPtr => seq!["RetailPtr"@, "RetailPTR"@],
        Flavor::RetailBeta => seq!["RetailBeta"@],
        Flavor::ClassicEra => seq![
            "ClassicEra"@,
            "Classic"@,
            "classic"@,
            "wow_classic"@,
            "classic_era"@,
        ],
        Flavor::ClassicTbc => seq![
            "ClassicTbc"@,
            "wow_burning_crusade"@,
            "burningCrusade"@,
            "burning_crusade"@,
        ],
        Flavor::ClassicPtr => seq!["ClassicPtr"@, "ClassicPTR"@],
        Flavor::ClassicBeta => seq!["ClassicBeta"@],
    }
}

/// A name is read as a flavor exactly where it is one of the flavor's names. None is read as two
/// flavors.
pub proof fn only_known_names_are_read(name: Seq<char>, flavor: Flavor, other: Flavor)
    ensures
        flavor.reads_from(name) <==> names_of(flavor).contains(name),
        names_of(flavor).contains(name) && other != flavor ==> !other.reads_from(name),
{
    let names = names_of(flavor);
    if flavor.reads_from(name) {
        assert(names[0] == name || (names.len() > 1 && names[1] == name) || (names.len() > 2
            && names[2] == name) || (names.len() > 3 && names[3] == name) || (names.len() > 4
            && names[4] == name));
        if other.reads_from(name) {
            names_are_read_as_one_flavor(flavor, other, name);
        }
    }
}

/// The base of a flavor is the retail game, the classic game or the classic era, and it names the
/// flavor at both services: by the second and the third name that are read as the base, in the one
/// sequence or the other.
pub proof fn services_know_the_base(flavor: Flavor)
    ensures
        flavor.spec_base_flavor() == base_of(flavor),
        base_of(flavor) == Flavor::Retail ==> flavor.curse_name() == names_of(Flavor::Retail)[2]
            && flavor.hub_name() == names_of(Flavor::Retail)[1],
        base_of(flavor) == Flavor::ClassicEra ==> flavor.curse_name() == names_of(
            Flavor::ClassicEra,
        )[3] && flavor.hub_name() == names_of(Flavor::ClassicEra)[2],
        base_of(flavor) == Flavor::ClassicTbc ==> flavor.curse_name() == names_of(
            Flavor::ClassicTbc,
        )[1] && flavor.hub_name() == names_of(Flavor::ClassicTbc)[2],
        flavor.kept_name() == names_of(flavor)[0],
{
}

} // verus!
