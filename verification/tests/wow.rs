//! Flavors and the settings of the game.
use ajour::flavor_map::FlavorMap;
use ajour::wow::{Flavor, Wow};
use std::path::PathBuf;

#[test]
fn every_flavor_is_listed_once() {
    assert_eq!(
        Flavor::ALL,
        [
            Flavor::Retail,
            Flavor::RetailPtr,
            Flavor::RetailBeta,
            Flavor::ClassicEra,
            Flavor::ClassicTbc,
            Flavor::ClassicPtr,
            Flavor::ClassicBeta,
        ]
    );
}

#[test]
fn curse_names() {
    let names: Vec<String> = Flavor::ALL.iter().map(|f| f.curse_format()).collect();
    assert_eq!(
        names,
        [
            "wow_retail",
            "wow_retail",
            "wow_retail",
            "wow_classic",
            "wow_burning_crusade",
            "wow_burning_crusade",
            "wow_burning_crusade",
        ]
    );
}

#[test]
fn hub_names() {
    let names: Vec<String> = Flavor::ALL.iter().map(|f| f.hub_format()).collect();
    assert_eq!(
        names,
        [
            "retail",
            "retail",
            "retail",
            "classic",
            "burningCrusade",
            "burningCrusade",
            "burningCrusade",
        ]
    );
}

#[test]
fn base_flavors() {
    let bases: Vec<Flavor> = Flavor::ALL.iter().map(|f| f.base_flavor()).collect();
    assert_eq!(
        bases,
        [
            Flavor::Retail,
            Flavor::Retail,
            Flavor::Retail,
            Flavor::ClassicEra,
            Flavor::ClassicTbc,
            Flavor::ClassicTbc,
            Flavor::ClassicTbc,
        ]
    );
    for flavor in Flavor::ALL {
        assert_eq!(flavor.base_flavor().base_flavor(), flavor.base_flavor());
    }
}

#[test]
fn folder_names() {
    let names: Vec<String> = Flavor::ALL.iter().map(|f| f.folder_name()).collect();
    assert_eq!(
        names,
        [
            "_retail_",
            "_ptr_",
            "_beta_",
            "_classic_era_",
            "_classic_",
            "_classic_ptr_",
            "_classic_beta_",
        ]
    );
}

#[test]
fn shown_names() {
    let names: Vec<String> = Flavor::ALL.iter().map(|f| f.to_string()).collect();
    assert_eq!(
        names,
        [
            "Retail",
            "Retail PTR",
            "Retail Beta",
            "Classic Era",
            "Classic TBC",
            "Classic PTR",
            "Classic Beta",
        ]
    );
}

#[test]
fn names_in_settings_are_read_back() {
    for flavor in Flavor::ALL {
        assert_eq!(Flavor::from_setting(&flavor.setting()), Some(flavor));
        assert_eq!(
            Flavor::from_setting(&flavor.curse_format()),
            Some(flavor.base_flavor())
        );
        assert_eq!(
            Flavor::from_setting(&flavor.hub_format()),
            Some(flavor.base_flavor())
        );
    }
}

#[test]
fn other_names_in_settings() {
    let read = |name: &str| Flavor::from_setting(&name.to_owned());
    assert_eq!(read("RetailPTR"), Some(Flavor::RetailPtr));
    assert_eq!(read("Classic"), Some(Flavor::ClassicEra));
    assert_eq!(read("classic_era"), Some(Flavor::ClassicEra));
    assert_eq!(read("burning_crusade"), Some(Flavor::ClassicTbc));
    assert_eq!(read("ClassicPTR"), Some(Flavor::ClassicPtr));
    assert_eq!(read("retailbeta"), None);
    assert_eq!(read(""), None);
}

#[test]
fn default_settings() {
    let wow = Wow::default();
    assert_eq!(wow.directory, None);
    assert_eq!(wow.flavor, Flavor::Retail);
    assert_eq!(wow.directories, FlavorMap::new());
    assert_eq!(Flavor::default(), Flavor::Retail);
}

#[test]
fn copied_settings_are_the_same() {
    let mut wow = Wow::default();
    wow.directory = Some(PathBuf::from("/games/wow"));
    *wow.directories.slot_mut(Flavor::ClassicTbc) = Some(PathBuf::from("/games/tbc"));
    wow.flavor = Flavor::ClassicTbc;
    let copy = wow.clone();
    assert_eq!(copy, wow);
    assert_eq!(
        copy.directories.get(Flavor::ClassicTbc),
        Some(&PathBuf::from("/games/tbc"))
    );
    assert_eq!(copy.directories.get(Flavor::Retail), None);
}

#[test]
fn maps_keep_one_value_for_each_flavor() {
    let mut map: FlavorMap<Vec<String>> = FlavorMap::new();
    assert_eq!(map.get(Flavor::Retail), None);
    map.list_mut(Flavor::Retail).push("a".to_owned());
    map.list_mut(Flavor::Retail).push("b".to_owned());
    map.insert(Flavor::ClassicBeta, vec!["c".to_owned()]);
    map.insert(Flavor::ClassicBeta, vec!["d".to_owned()]);
    assert_eq!(map.get(Flavor::Retail), Some(&vec!["a".to_owned(), "b".to_owned()]));
    assert_eq!(map.get(Flavor::ClassicBeta), Some(&vec!["d".to_owned()]));
    assert_eq!(map.get(Flavor::ClassicPtr), None);
}
