//! Game flavors and the settings that concern the game itself.
use crate::flavor_map::FlavorMap;
use std::path::PathBuf;
use vstd::prelude::*;

verus! {

/// A path of the file system. Nothing is known of what it holds.
#[verifier::external_type_specification]
#[verifier::external_body]
pub struct ExPathBuf(std::path::PathBuf);

/// [`PathBuf::clone`] gives the same path once more.
pub assume_specification[ <std::path::PathBuf as Clone>::clone ](
    path: &std::path::PathBuf,
) -> (copy: std::path::PathBuf)
    ensures
        copy == *path,
;

/// A copy of a path, where there is one.
pub fn copy_path(path: &Option<PathBuf>) -> (copy: Option<PathBuf>)
    ensures
        copy == *path,
{
    match path {
        Some(path) => Some(path.clone()),
        None => None,
    }
}

/// Settings related to World of Warcraft.
#[derive(Debug, PartialEq, Eq)]
pub struct Wow {
    pub directory: Option<PathBuf>,
    pub directories: FlavorMap<PathBuf>,
    pub flavor: Flavor,
}

impl Default for Wow {
    fn default() -> (wow: Wow)
        ensures
            wow.directory is None,
            wow.directories@ == Map::<Flavor, PathBuf>::empty(),
            wow.flavor == Flavor::Retail,
    {
        Wow { directory: None, directories: FlavorMap::new(), flavor: Flavor::Retail }
    }
}

impl Clone for Wow {
    fn clone(&self) -> (copy: Wow)
        ensures
            copy == *self,
    {
        let directories = FlavorMap {
            retail: copy_path(&self.directories.retail),
            retail_ptr: copy_path(&self.directories.retail_ptr),
            retail_beta: copy_path(&self.directories.retail_beta),
            classic_era: copy_path(&self.directories.classic_era),
            classic_tbc: copy_path(&self.directories.classic_tbc),
            classic_ptr: copy_path(&self.directories.classic_ptr),
            classic_beta: copy_path(&self.directories.classic_beta),
        };
        Wow { directory: copy_path(&self.directory), directories, flavor: self.flavor }
    }
}

/// An edition of the game.
#[derive(Debug, Clone, Copy, PartialEq, Eq, Structural, Hash, PartialOrd, Ord)]
pub enum Flavor {
    Retail,
    RetailPtr,
    RetailBeta,
    ClassicEra,
    ClassicTbc,
    ClassicPtr,
    ClassicBeta,
}

impl DeepView for Flavor {
    type V = Flavor;

    open spec fn deep_view(&self) -> Flavor {
        *self
    }
}

impl Default for Flavor {
    fn default() -> (flavor: Flavor)
        ensures
            flavor == Flavor::Retail,
    {
        Flavor::Retail
    }
}

fn is_text(text: &String, other: &str) -> (same: bool)
    ensures
        same == (text@ == other@),
{
    *text == other.to_owned()
}

impl Flavor {
    /// Every flavor once, in the order in which they are gone through.
    pub const ALL: [Flavor; 7] = [
        Flavor::Retail,
        Flavor::RetailPtr,
        Flavor::RetailBeta,
        Flavor::ClassicEra,
        Flavor::ClassicTbc,
        Flavor::ClassicPtr,
        Flavor::ClassicBeta,
    ];

    /// The flavor that a flavor relates to.
    pub open spec fn spec_base_flavor(self) -> Flavor {
        match self {
            Flavor::Retail | Flavor::RetailPtr | Flavor::RetailBeta => Flavor::Retail,
            Flavor::ClassicTbc | Flavor::ClassicPtr | Flavor::ClassicBeta => Flavor::ClassicTbc,
            Flavor::ClassicEra => Flavor::ClassicEra,
        }
    }

    /// The name that CurseForge gives to a flavor's base.
    pub open spec fn curse_name(self) -> Seq<char> {
        match self.spec_base_flavor() {
            Flavor::Retail => "wow_retail"@,
            Flavor::ClassicTbc => "wow_burning_crusade"@,
            _ => "wow_classic"@,
        }
    }

    /// The name that WowUp.Hub gives to a flavor's base.
    pub open spec fn hub_name(self) -> Seq<char> {
        match self.spec_base_flavor() {
            Flavor::Retail => "retail"@,
            Flavor::ClassicTbc => "burningCrusade"@,
            _ => "classic"@,
        }
    }

    /// The name of the folder on disk.
    pub open spec fn disk_name(self) -> Seq<char> {
        match self {
            Flavor::Retail => "_retail_"@,
            Flavor::RetailPtr => "_ptr_"@,
            Flavor::RetailBeta => "_beta_"@,
            Flavor::ClassicEra => "_classic_era_"@,
            Flavor::ClassicTbc => "_classic_"@,
            Flavor::ClassicPtr => "_classic_ptr_"@,
            Flavor::ClassicBeta => "_classic_beta_"@,
        }
    }

    /// The name that is shown to the user.
    pub open spec fn shown_name(self) -> Seq<char> {
        match self {
            Flavor::Retail => "Retail"@,
            Flavor::RetailPtr => "Retail PTR"@,
            Flavor::RetailBeta => "Retail Beta"@,
            Flavor::ClassicEra => "Classic Era"@,
            Flavor::ClassicTbc => "Classic TBC"@,
            Flavor::ClassicBeta => "Classic Beta"@,
            Flavor::ClassicPtr => "Classic PTR"@,
        }
    }

    /// The name that settings hold.
    pub open spec fn kept_name(self) -> Seq<char> {
        match self {
            Flavor::Retail => "Retail"@,
            Flavor::RetailPtr => "RetailPtr"@,
            Flavor::RetailBeta => "RetailBeta"@,
            Flavor::ClassicEra => "ClassicEra"@,
            Flavor::ClassicTbc => "ClassicTbc"@,
            Flavor::ClassicPtr => "ClassicPtr"@,
            Flavor::ClassicBeta => "ClassicBeta"@,
        }
    }

    /// The flavor is read from the name: from the one that settings hold now, or from one that
    /// they or a service have for it otherwise.
    pub open spec fn reads_from(self, name: Seq<char>) -> bool {
        ||| name == self.kept_name()
        ||| match self {
            Flavor::Retail => name == "retail"@ || name == "wow_retail"@,
            Flavor::RetailPtr => name == "RetailPTR"@,
            Flavor::ClassicEra => name == "Classic"@ || name == "classic"@ || name
                == "wow_classic"@ || name == "classic_era"@,
            Flavor::ClassicTbc => name == "wow_burning_crusade"@ || name == "burningCrusade"@
                || name == "burning_crusade"@,
            Flavor::ClassicPtr => name == "ClassicPTR"@,
            Flavor::RetailBeta | Flavor::ClassicBeta => false,
        }
    }

    /// Returns the name that settings hold.
    pub fn setting(self) -> (name: String)
        ensures
            name@ == self.kept_name(),
    {
        match self {
            Flavor::Retail => "Retail".to_owned(),
            Flavor::RetailPtr => "RetailPtr".to_owned(),
            Flavor::RetailBeta => "RetailBeta".to_owned(),
            Flavor::ClassicEra => "ClassicEra".to_owned(),
            Flavor::ClassicTbc => "ClassicTbc".to_owned(),
            Flavor::ClassicPtr => "ClassicPtr".to_owned(),
            Flavor::ClassicBeta => "ClassicBeta".to_owned(),
        }
    }

    /// Returns the `Flavor` that a name is read as.
    pub fn from_setting(name: &String) -> (flavor: Option<Flavor>)
        ensures
            match flavor {
                Some(flavor) => flavor.reads_from(name@),
                None => forall|flavor: Flavor| !(#[trigger] flavor.reads_from(name@)),
            },
    {
        if is_text(name, "Retail") || is_text(name, "retail") || is_text(name, "wow_retail") {
            Some(Flavor::Retail)
        } else if is_text(name, "RetailPtr") || is_text(name, "RetailPTR") {
            Some(Flavor::RetailPtr)
        } else if is_text(name, "RetailBeta") {
            Some(Flavor::RetailBeta)
        } else if is_text(name, "ClassicEra") || is_text(name, "Classic") || is_text(
            name,
            "classic",
        ) || is_text(name, "wow_classic") || is_text(name, "classic_era") {
            Some(Flavor::ClassicEra)
        } else if is_text(name, "ClassicTbc") || is_text(name, "wow_burning_crusade") || is_text(
            name,
            "burningCrusade",
        ) || is_text(name, "burning_crusade") {
            Some(Flavor::ClassicTbc)
        } else if is_text(name, "ClassicPtr") || is_text(name, "ClassicPTR") {
            Some(Flavor::ClassicPtr)
        } else if is_text(name, "ClassicBeta") {
            Some(Flavor::ClassicBeta)
        } else {
            None
        }
    }

    /// Returns flavor `String` in CurseForge format.
    pub fn curse_format(self) -> (name: String)
        ensures
            name@ == self.curse_name(),
    {
        match self {
            Flavor::Retail | Flavor::RetailPtr | Flavor::RetailBeta => "wow_retail".to_owned(),
            Flavor::ClassicTbc | Flavor::ClassicPtr | Flavor::ClassicBeta => {
                "wow_burning_crusade".to_owned()
            },
            Flavor::ClassicEra => "wow_classic".to_owned(),
        }
    }

    /// Returns flavor `String` in WowUp.Hub format.
    pub fn hub_format(self) -> (name: String)
        ensures
            name@ == self.hub_name(),
    {
        match self {
            Flavor::Retail | Flavor::RetailPtr | Flavor::RetailBeta => "retail".to_owned(),
            Flavor::ClassicTbc | Flavor::ClassicPtr | Flavor::ClassicBeta => {
                "burningCrusade".to_owned()
            },
            Flavor::ClassicEra => "classic".to_owned(),
        }
    }

    /// Returns `Flavor` which self relates to.
    pub fn base_flavor(self) -> (base: Flavor)
        ensures
            base == self.spec_base_flavor(),
    {
        match self {
            Flavor::Retail | Flavor::RetailPtr | Flavor::RetailBeta => Flavor::Retail,
            Flavor::ClassicTbc | Flavor::ClassicPtr | Flavor::ClassicBeta => Flavor::ClassicTbc,
            Flavor::ClassicEra => Flavor::ClassicEra,
        }
    }

    /// Returns `String` which correlate to the folder on disk.
    pub fn folder_name(self) -> (name: String)
        ensures
            name@ == self.disk_name(),
    {
        match self {
            Flavor::Retail => "_retail_".to_owned(),
            Flavor::RetailPtr => "_ptr_".to_owned(),
            Flavor::RetailBeta => "_beta_".to_owned(),
            Flavor::ClassicEra => "_classic_era_".to_owned(),
            Flavor::ClassicTbc => "_classic_".to_owned(),
            Flavor::ClassicPtr => "_classic_ptr_".to_owned(),
            Flavor::ClassicBeta => "_classic_beta_".to_owned(),
        }
    }

    /// Returns the name that is shown to the user.
    pub fn to_string(&self) -> (name: String)
        ensures
            name@ == self.shown_name(),
    {
        match self {
            Flavor::Retail => "Retail".to_owned(),
            Flavor::RetailPtr => "Retail PTR".to_owned(),
            Flavor::RetailBeta => "Retail Beta".to_owned(),
            Flavor::ClassicEra => "Classic Era".to_owned(),
            Flavor::ClassicTbc => "Classic TBC".to_owned(),
            Flavor::ClassicBeta => "Classic Beta".to_owned(),
            Flavor::ClassicPtr => "Classic PTR".to_owned(),
        }
    }
}

/// Every flavor occurs in [`Flavor::ALL`], and occurs there once.
pub proof fn all_lists_each_flavor_once(flavor: Flavor)
    ensures
        exists|i: int| 0 <= i < 7 && #[trigger] Flavor::ALL@[i] == flavor,
        forall|i: int, j: int|
            0 <= i < 7 && 0 <= j < 7 && #[trigger] Flavor::ALL@[i] == #[trigger] Flavor::ALL@[j]
                ==> i == j,
{
    let i: int = match flavor {
        Flavor::Retail => 0,
        Flavor::RetailPtr => 1,
        Flavor::RetailBeta => 2,
        Flavor::ClassicEra => 3,
        Flavor::ClassicTbc => 4,
        Flavor::ClassicPtr => 5,
        Flavor::ClassicBeta => 6,
    };
    assert(Flavor::ALL@[i] == flavor);
}

/// A base flavor is its own base.
pub proof fn base_flavor_is_idempotent(flavor: Flavor)
    ensures
        flavor.spec_base_flavor().spec_base_flavor() == flavor.spec_base_flavor(),
{
}

/// Flavors share the CurseForge name, and the WowUp.Hub name, exactly where they share the base.
pub proof fn service_names_tell_base_flavors_apart(a: Flavor, b: Flavor)
    ensures
        a.curse_name() == b.curse_name() <==> a.spec_base_flavor() == b.spec_base_flavor(),
        a.hub_name() == b.hub_name() <==> a.spec_base_flavor() == b.spec_base_flavor(),
{
    reveal_strlit("wow_retail");
    reveal_strlit("wow_burning_crusade");
    reveal_strlit("wow_classic");
    reveal_strlit("retail");
    reveal_strlit("burningCrusade");
    reveal_strlit("classic");
    assert("wow_retail"@.len() == 10 && "wow_burning_crusade"@.len() == 19 && "wow_classic"@.len()
        == 11);
    assert("retail"@.len() == 6 && "burningCrusade"@.len() == 14 && "classic"@.len() == 7);
}

/// No two flavors share a folder on disk.
pub proof fn folder_names_are_distinct(a: Flavor, b: Flavor)
    requires
        a.disk_name() == b.disk_name(),
    ensures
        a == b,
{
    reveal_strlit("_retail_");
    reveal_strlit("_ptr_");
    reveal_strlit("_beta_");
    reveal_strlit("_classic_era_");
    reveal_strlit("_classic_");
    reveal_strlit("_classic_ptr_");
    reveal_strlit("_classic_beta_");
    assert("_retail_"@.len() == 8);
    assert("_ptr_"@.len() == 5);
    assert("_beta_"@.len() == 6);
    assert("_classic_era_"@.len() == 13);
    assert("_classic_"@.len() == 9);
    assert("_classic_ptr_"@.len() == 13);
    assert("_classic_beta_"@.len() == 14);
    assert("_classic_era_"@[9] == 'e');
    assert("_classic_ptr_"@[9] == 'p');
}

/// No two flavors are shown under one name.
pub proof fn shown_names_are_distinct(a: Flavor, b: Flavor)
    requires
        a.shown_name() == b.shown_name(),
    ensures
        a == b,
{
    reveal_strlit("Retail");
    reveal_strlit("Retail PTR");
    reveal_strlit("Retail Beta");
    reveal_strlit("Classic Era");
    reveal_strlit("Classic TBC");
    reveal_strlit("Classic Beta");
    reveal_strlit("Classic PTR");
    assert("Retail"@.len() == 6);
    assert("Retail PTR"@.len() == 10);
    assert("Retail Beta"@.len() == 11);
    assert("Classic Era"@.len() == 11);
    assert("Classic TBC"@.len() == 11);
    assert("Classic Beta"@.len() == 12);
    assert("Classic PTR"@.len() == 11);
    assert("Retail Beta"@[0] == 'R');
    assert("Classic Era"@[0] == 'C' && "Classic Era"@[8] == 'E');
    assert("Classic TBC"@[0] == 'C' && "Classic TBC"@[8] == 'T');
    assert("Classic PTR"@[0] == 'C' && "Classic PTR"@[8] == 'P');
}

/// A name is read as one flavor at most.
pub proof fn names_are_read_as_one_flavor(a: Flavor, b: Flavor, name: Seq<char>)
    requires
        a.reads_from(name),
        b.reads_from(name),
    ensures
        a == b,
{
    reveal_strlit("Retail");
    reveal_strlit("retail");
    reveal_strlit("wow_retail");
    reveal_strlit("RetailPtr");
    reveal_strlit("RetailPTR");
    reveal_strlit("RetailBeta");
    reveal_strlit("ClassicEra");
    reveal_strlit("Classic");
    reveal_strlit("classic");
    reveal_strlit("wow_classic");
    reveal_strlit("classic_era");
    reveal_strlit("ClassicTbc");
    reveal_strlit("wow_burning_crusade");
    reveal_strlit("burningCrusade");
    reveal_strlit("burning_crusade");
    reveal_strlit("ClassicPtr");
    reveal_strlit("ClassicPTR");
    reveal_strlit("ClassicBeta");
    assert("Retail"@.len() == 6 && "retail"@.len() == 6);
    assert("Classic"@.len() == 7 && "classic"@.len() == 7);
    assert("RetailPtr"@.len() == 9 && "RetailPTR"@.len() == 9);
    assert("wow_retail"@.len() == 10 && "wow_retail"@[0] == 'w');
    assert("RetailBeta"@.len() == 10 && "RetailBeta"@[0] == 'R');
    assert("ClassicEra"@.len() == 10 && "ClassicEra"@[0] == 'C' && "ClassicEra"@[7] == 'E');
    assert("ClassicTbc"@.len() == 10 && "ClassicTbc"@[0] == 'C' && "ClassicTbc"@[7] == 'T');
    assert("ClassicPtr"@.len() == 10 && "ClassicPtr"@[0] == 'C' && "ClassicPtr"@[7] == 'P');
    assert("ClassicPTR"@.len() == 10 && "ClassicPTR"@[0] == 'C' && "ClassicPTR"@[7] == 'P');
    assert("wow_classic"@.len() == 11 && "wow_classic"@[0] == 'w');
    assert("classic_era"@.len() == 11 && "classic_era"@[0] == 'c');
    assert("ClassicBeta"@.len() == 11 && "ClassicBeta"@[0] == 'C');
    assert("burningCrusade"@.len() == 14);
    assert("burning_crusade"@.len() == 15);
    assert("wow_burning_crusade"@.len() == 19);
}

/// A flavor is read back from the name that settings hold, and its base is read back from the names
/// that it has at CurseForge and at WowUp.Hub.
pub proof fn names_are_read_back(flavor: Flavor)
    ensures
        flavor.reads_from(flavor.kept_name()),
        flavor.spec_base_flavor().reads_from(flavor.curse_name()),
        flavor.spec_base_flavor().reads_from(flavor.hub_name()),
{
}

} // verus!
