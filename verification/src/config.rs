//! What is kept between two runs.
use crate::addon::ReleaseChannel;
use crate::flavor_map::FlavorMap;
use crate::list::{find, first_where, first_where_finds_the_first, is_first, Condition, Test};
use crate::wow::{Flavor, Wow};
use std::path::PathBuf;
use vstd::prelude::*;

verus! {

/// The release channel that was chosen for an addon.
#[derive(Debug, PartialEq, Eq)]
pub struct ChosenChannel {
    pub id: String,
    pub channel: ReleaseChannel,
}

/// What a [`ChosenChannel`] stands for.
pub struct ChosenChannelView {
    pub id: Seq<char>,
    pub channel: Seq<char>,
}

impl DeepView for ChosenChannel {
    type V = ChosenChannelView;

    open spec fn deep_view(&self) -> ChosenChannelView {
        ChosenChannelView { id: self.id@, channel: self.channel.deep_view() }
    }
}

/// Being the choice for the addon.
pub open spec fn chosen_for(id: Seq<char>) -> Condition<ChosenChannelView> {
    |chosen: ChosenChannelView| chosen.id == id
}

/// Tests [`chosen_for`].
pub struct ChosenFor<'a> {
    pub id: &'a String,
}

impl<'a> Test<ChosenChannel> for ChosenFor<'a> {
    open spec fn condition(&self) -> Condition<ChosenChannelView> {
        chosen_for(self.id@)
    }

    fn holds(&self, item: &ChosenChannel) -> (result: bool) {
        item.id == *self.id
    }
}

/// The release channels that were chosen, by the addons' identifiers.
#[derive(Debug, PartialEq, Eq)]
pub struct ChannelMap {
    pub chosen: Vec<ChosenChannel>,
}

impl DeepView for ChannelMap {
    type V = Map<Seq<char>, Seq<char>>;

    closed spec fn deep_view(&self) -> Map<Seq<char>, Seq<char>> {
        let chosen = self.chosen.deep_view();
        Map::new(
            |id: Seq<char>| first_where(chosen, chosen_for(id)) is Some,
            |id: Seq<char>| chosen[first_where(chosen, chosen_for(id))->0].channel,
        )
    }
}

impl ChannelMap {
    /// No choices.
    pub fn new() -> (map: ChannelMap)
        ensures
            map.deep_view() == Map::<Seq<char>, Seq<char>>::empty(),
    {
        let map = ChannelMap { chosen: Vec::new() };
        proof {
            let chosen = map.chosen.deep_view();
            assert forall|id: Seq<char>| #[trigger] first_where(chosen, chosen_for(id)) is None by {
                first_where_finds_the_first(chosen, chosen_for(id));
            }
            assert(map.deep_view() =~= Map::empty());
        }
        map
    }

    /// The channel that was chosen for the addon.
    pub fn get(&self, id: &String) -> (channel: Option<&ReleaseChannel>)
        ensures
            match channel {
                Some(channel) => self.deep_view().contains_key(id@) && self.deep_view()[id@]
                    == channel.deep_view(),
                None => !self.deep_view().contains_key(id@),
            },
    {
        match find(&self.chosen, &ChosenFor { id }) {
            Some(i) => Some(&self.chosen[i].channel),
            None => None,
        }
    }

    /// Notes the channel that is chosen for the addon.
    pub fn insert(&mut self, id: String, channel: ReleaseChannel)
        ensures
            final(self).deep_view() == old(self).deep_view().insert(id@, channel.deep_view()),
    {
        let ghost before = self.chosen.deep_view();
        let ghost key = id@;
        let ghost value = channel.deep_view();
        let position = find(&self.chosen, &ChosenFor { id: &id });
        proof {
            first_where_finds_the_first(before, chosen_for(key));
        }
        match position {
            Some(i) => {
                self.chosen.set(i, ChosenChannel { id, channel });
                assert(self.chosen.deep_view() =~= before.update(
                    i as int,
                    ChosenChannelView { id: key, channel: value },
                ));
            },
            None => {
                self.chosen.push(ChosenChannel { id, channel });
                assert(self.chosen.deep_view() =~= before.push(
                    ChosenChannelView { id: key, channel: value },
                ));
            },
        }
        let ghost after = self.chosen.deep_view();
        proof {
            assert forall|other: Seq<char>| other != key implies {
                let found = #[trigger] first_where(after, chosen_for(other));
                &&& found == first_where(before, chosen_for(other))
                &&& found is Some ==> after[found->0] == before[found->0]
            } by {
                first_where_finds_the_first(before, chosen_for(other));
                first_where_finds_the_first(after, chosen_for(other));
                if first_where(before, chosen_for(other)) is Some {
                    let found = first_where(before, chosen_for(other))->0;
                    assert(is_first(after, chosen_for(other), found));
                } else if first_where(after, chosen_for(other)) is Some {
                    let found = first_where(after, chosen_for(other))->0;
                    assert(chosen_for(other)(before[found]));
                }
            }
            let placed: int = match position {
                Some(i) => i as int,
                None => before.len() as int,
            };
            first_where_finds_the_first(after, chosen_for(key));
            assert(is_first(after, chosen_for(key), placed));
            assert(self.deep_view() =~= old(self).deep_view().insert(key, value));
        }
    }
}

/// The choices of a map for a flavor: none where the map has none.
pub open spec fn channels_for(
    map: Map<Flavor, Map<Seq<char>, Seq<char>>>,
    flavor: Flavor,
) -> Map<Seq<char>, Seq<char>> {
    if map.contains_key(flavor) {
        map[flavor]
    } else {
        Map::empty()
    }
}

impl FlavorMap<ChannelMap> {
    /// The choices for the flavor, which are put in empty where there are none.
    pub fn channels_mut(&mut self, flavor: Flavor) -> (channels: &mut ChannelMap)
        ensures
            channels.deep_view() == channels_for(old(self).deep_view(), flavor),
            final(self).deep_view() == old(self).deep_view().insert(
                flavor,
                final(channels).deep_view(),
            ),
    {
        self.slot_mut(flavor).get_or_insert(ChannelMap::new())
    }
}

/// Settings of addons.
#[derive(Debug, PartialEq, Eq)]
pub struct AddonsConfig {
    /// The identifiers of the addons that are left alone.
    pub ignored: FlavorMap<Vec<String>>,
    pub release_channels: FlavorMap<ChannelMap>,
}

/// How wide a column is.
#[derive(Debug, Clone, Copy, PartialEq, Eq, Structural)]
pub enum Length {
    Fill,
    FillPortion(u16),
    Shrink,
    Units(u16),
}

/// A column of a list, as it is kept.
#[derive(Debug, Clone, Copy, PartialEq, Eq, Structural)]
pub struct ColumnConfigV2<K> {
    pub key: K,
    pub width: Length,
    pub hidden: bool,
}

/// A column of the list of installed addons.
#[derive(Debug, Clone, Copy, PartialEq, Eq, Structural)]
pub enum ColumnKey {
    Title,
    LocalVersion,
    RemoteVersion,
    Status,
    Channel,
    Author,
    GameVersion,
    DateReleased,
    Source,
}

/// A column of the list of catalog entries.
#[derive(Debug, Clone, Copy, PartialEq, Eq, Structural)]
pub enum CatalogColumnKey {
    Title,
    Description,
    Source,
    NumDownloads,
    Install,
    DateReleased,
    GameVersion,
}

/// What a column is told apart by. One column of each list holds titles.
pub trait Key: Copy {
    /// The column of titles.
    spec fn title() -> Self;

    /// Whether the two are the same column.
    fn is_same(self, other: Self) -> (same: bool)
        ensures
            same == (self == other),
    ;

    /// Whether this is the column of titles.
    fn is_title(self) -> (same: bool)
        ensures
            same == (self == Self::title()),
    ;
}

impl Key for ColumnKey {
    open spec fn title() -> ColumnKey {
        ColumnKey::Title
    }

    fn is_same(self, other: ColumnKey) -> (same: bool) {
        self == other
    }

    fn is_title(self) -> (same: bool) {
        self == ColumnKey::Title
    }
}

impl Key for CatalogColumnKey {
    open spec fn title() -> CatalogColumnKey {
        CatalogColumnKey::Title
    }

    fn is_same(self, other: CatalogColumnKey) -> (same: bool) {
        self == other
    }

    fn is_title(self) -> (same: bool) {
        self == CatalogColumnKey::Title
    }
}

/// The columns of the two lists.
#[derive(Debug, PartialEq, Eq)]
pub enum ColumnConfig {
    /// A layout that was kept in an earlier form.
    Earlier,
    V3 {
        my_addons_columns: Vec<ColumnConfigV2<ColumnKey>>,
        catalog_columns: Vec<ColumnConfigV2<CatalogColumnKey>>,
    },
}

/// What a [`ColumnConfig`] stands for.
pub enum ColumnConfigView {
    Earlier,
    V3 {
        my_addons_columns: Seq<ColumnConfigV2<ColumnKey>>,
        catalog_columns: Seq<ColumnConfigV2<CatalogColumnKey>>,
    },
}

impl DeepView for ColumnConfig {
    type V = ColumnConfigView;

    open spec fn deep_view(&self) -> ColumnConfigView {
        match self {
            ColumnConfig::Earlier => ColumnConfigView::Earlier,
            ColumnConfig::V3 { my_addons_columns, catalog_columns } => ColumnConfigView::V3 {
                my_addons_columns: my_addons_columns@,
                catalog_columns: catalog_columns@,
            },
        }
    }
}

/// All settings.
#[derive(Debug, PartialEq, Eq)]
pub struct Config {
    pub wow: Wow,
    pub addons: AddonsConfig,
    pub backup_directory: Option<PathBuf>,
    pub column_config: ColumnConfig,
    pub window_size: Option<(u32, u32)>,
}

/// What a [`Config`] stands for.
pub struct ConfigView {
    pub directory: Option<PathBuf>,
    pub directories: Map<Flavor, PathBuf>,
    pub flavor: Flavor,
    pub ignored: Map<Flavor, Seq<Seq<char>>>,
    pub release_channels: Map<Flavor, Map<Seq<char>, Seq<char>>>,
    pub backup_directory: Option<PathBuf>,
    pub column_config: ColumnConfigView,
    pub window_size: Option<(u32, u32)>,
}

impl DeepView for Config {
    type V = ConfigView;

    open spec fn deep_view(&self) -> ConfigView {
        ConfigView {
            directory: self.wow.directory,
            directories: self.wow.directories@,
            flavor: self.wow.flavor,
            ignored: self.addons.ignored.deep_view(),
            release_channels: self.addons.release_channels.deep_view(),
            backup_directory: self.backup_directory,
            column_config: self.column_config.deep_view(),
            window_size: self.window_size,
        }
    }
}

} // verus!
