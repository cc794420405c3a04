//! Addons as they are installed, and the releases that are on offer for them.
use crate::list::{find, first_where, Condition, Test};
use vstd::prelude::*;

verus! {

/// A place that addons are published at.
#[derive(Debug, Clone, Copy, PartialEq, Eq, Structural)]
pub enum Repository {
    Curse,
    Tukui,
    WowI,
}

impl DeepView for Repository {
    type V = Repository;

    open spec fn deep_view(&self) -> Repository {
        *self
    }
}

/// A line of releases that an addon can follow. Channels are told apart by their names.
#[derive(Debug, PartialEq, Eq)]
pub struct ReleaseChannel {
    pub name: String,
}

impl DeepView for ReleaseChannel {
    type V = Seq<char>;

    open spec fn deep_view(&self) -> Seq<char> {
        self.name@
    }
}

impl Clone for ReleaseChannel {
    fn clone(&self) -> (copy: ReleaseChannel)
        ensures
            copy.deep_view() == self.deep_view(),
    {
        ReleaseChannel { name: self.name.clone() }
    }
}

/// A release that can be downloaded.
#[derive(Debug, PartialEq, Eq)]
pub struct RemotePackage {
    pub version: String,
    pub file_id: Option<i64>,
    /// When it was released, in nanoseconds since the epoch.
    pub date_time: Option<i128>,
    /// The package's place among packages: packages compare as their ranks do.
    pub rank: i64,
}

/// What a [`RemotePackage`] stands for.
pub struct PackageView {
    pub version: Seq<char>,
    pub file_id: Option<i64>,
    pub date_time: Option<i128>,
    pub rank: i64,
}

impl DeepView for RemotePackage {
    type V = PackageView;

    open spec fn deep_view(&self) -> PackageView {
        PackageView {
            version: self.version@,
            file_id: self.file_id,
            date_time: self.date_time,
            rank: self.rank,
        }
    }
}

impl Clone for RemotePackage {
    fn clone(&self) -> (copy: RemotePackage)
        ensures
            copy.deep_view() == self.deep_view(),
    {
        RemotePackage {
            version: self.version.clone(),
            file_id: self.file_id,
            date_time: self.date_time,
            rank: self.rank,
        }
    }
}

/// Where an addon stands when it follows a channel.
#[derive(Debug, PartialEq, Eq)]
pub struct Standing {
    pub channel: ReleaseChannel,
    /// The release that the addon would be updated to.
    pub package: Option<RemotePackage>,
    /// Whether that release is an update of the version that was installed when this was made out.
    pub updatable: bool,
    /// The addon's place among addons: addons compare as their ranks do.
    pub rank: i64,
}

/// What a [`Standing`] stands for.
pub struct StandingView {
    pub channel: Seq<char>,
    pub package: Option<PackageView>,
    pub updatable: bool,
    pub rank: i64,
}

impl DeepView for Standing {
    type V = StandingView;

    open spec fn deep_view(&self) -> StandingView {
        StandingView {
            channel: self.channel.deep_view(),
            package: self.package.deep_view(),
            updatable: self.updatable,
            rank: self.rank,
        }
    }
}

impl Clone for Standing {
    fn clone(&self) -> (copy: Standing)
        ensures
            copy.deep_view() == self.deep_view(),
    {
        Standing {
            channel: self.channel.clone(),
            package: self.package.clone(),
            updatable: self.updatable,
            rank: self.rank,
        }
    }
}

/// A release on offer, and the channel that offers it.
#[derive(Debug, PartialEq, Eq)]
pub struct Offer {
    pub channel: ReleaseChannel,
    pub package: RemotePackage,
}

/// What an [`Offer`] stands for.
pub struct OfferView {
    pub channel: Seq<char>,
    pub package: PackageView,
}

impl DeepView for Offer {
    type V = OfferView;

    open spec fn deep_view(&self) -> OfferView {
        OfferView { channel: self.channel.deep_view(), package: self.package.deep_view() }
    }
}

impl Clone for Offer {
    fn clone(&self) -> (copy: Offer)
        ensures
            copy.deep_view() == self.deep_view(),
    {
        Offer { channel: self.channel.clone(), package: self.package.clone() }
    }
}

/// A folder that belongs to an addon.
#[derive(Debug, PartialEq, Eq)]
pub struct AddonFolder {
    pub id: String,
    /// Equal for two folders exactly where they count as the same folder.
    pub key: u64,
}

/// What an [`AddonFolder`] stands for.
pub struct FolderView {
    pub id: Seq<char>,
    pub key: u64,
}

impl DeepView for AddonFolder {
    type V = FolderView;

    open spec fn deep_view(&self) -> FolderView {
        FolderView { id: self.id@, key: self.key }
    }
}

impl Clone for AddonFolder {
    fn clone(&self) -> (copy: AddonFolder)
        ensures
            copy.deep_view() == self.deep_view(),
    {
        AddonFolder { id: self.id.clone(), key: self.key }
    }
}

/// A copy of a list of folders.
pub fn copy_folders(folders: &Vec<AddonFolder>) -> (copy: Vec<AddonFolder>)
    ensures
        copy.deep_view() == folders.deep_view(),
{
    let copy = folders.clone();
    assert(copy.deep_view() =~= folders.deep_view());
    copy
}

/// The lists name the same folders in the same order.
pub open spec fn same_folders(a: Seq<FolderView>, b: Seq<FolderView>) -> bool {
    &&& a.len() == b.len()
    &&& forall|i: int| 0 <= i < a.len() ==> (#[trigger] a[i]).key == b[i].key
}

/// Whether the lists name the same folders in the same order.
pub fn are_same_folders(a: &Vec<AddonFolder>, b: &Vec<AddonFolder>) -> (same: bool)
    ensures
        same == same_folders(a.deep_view(), b.deep_view()),
{
    if a.len() != b.len() {
        return false;
    }
    let mut i: usize = 0;
    while i < a.len()
        invariant
            i <= a@.len(),
            a@.len() == b@.len(),
            forall|j: int|
                0 <= j < i ==> (#[trigger] a.deep_view()[j]).key == b.deep_view()[j].key,
        decreases a@.len() - i,
    {
        if a[i].key != b[i].key {
            assert(a.deep_view()[i as int].key != b.deep_view()[i as int].key);
            return false;
        }
        i = i + 1;
    }
    true
}

/// What is going on with an addon.
#[derive(Debug, PartialEq, Eq)]
pub enum AddonState {
    /// Looked after, with an optional note on what was done last.
    Ajour(Option<String>),
    Corrupted,
    Downloading,
    Fingerprint,
    Ignored,
    Unpacking,
    Updatable,
    /// Any other state, by its name and its place among states.
    Other(String, i64),
}

/// What an [`AddonState`] stands for.
pub enum StateView {
    Ajour(Option<Seq<char>>),
    Corrupted,
    Downloading,
    Fingerprint,
    Ignored,
    Unpacking,
    Updatable,
    Other(Seq<char>, i64),
}

impl DeepView for AddonState {
    type V = StateView;

    open spec fn deep_view(&self) -> StateView {
        match self {
            AddonState::Ajour(note) => StateView::Ajour(note.deep_view()),
            AddonState::Corrupted => StateView::Corrupted,
            AddonState::Downloading => StateView::Downloading,
            AddonState::Fingerprint => StateView::Fingerprint,
            AddonState::Ignored => StateView::Ignored,
            AddonState::Unpacking => StateView::Unpacking,
            AddonState::Updatable => StateView::Updatable,
            AddonState::Other(name, rank) => StateView::Other(name@, *rank),
        }
    }
}

impl Clone for AddonState {
    fn clone(&self) -> (copy: AddonState)
        ensures
            copy.deep_view() == self.deep_view(),
    {
        match self {
            AddonState::Ajour(note) => AddonState::Ajour(note.clone()),
            AddonState::Corrupted => AddonState::Corrupted,
            AddonState::Downloading => AddonState::Downloading,
            AddonState::Fingerprint => AddonState::Fingerprint,
            AddonState::Ignored => AddonState::Ignored,
            AddonState::Unpacking => AddonState::Unpacking,
            AddonState::Updatable => AddonState::Updatable,
            AddonState::Other(name, rank) => AddonState::Other(name.clone(), *rank),
        }
    }
}

/// An addon.
#[derive(Debug, PartialEq, Eq)]
pub struct Addon {
    /// The caller's number for the addon.
    pub handle: u64,
    /// What the addon is told apart by.
    pub primary_folder_id: String,
    pub title: String,
    pub author: Option<String>,
    /// The version that is installed.
    pub version: Option<String>,
    pub game_version: Option<String>,
    pub file_id: Option<i64>,
    pub repository_id: Option<String>,
    pub active_repository: Option<Repository>,
    /// Whether the addon can be entered in the addon cache.
    pub cacheable: bool,
    pub folders: Vec<AddonFolder>,
    pub release_channel: ReleaseChannel,
    /// The releases on offer, in the order in which they are looked through.
    pub remote_packages: Vec<Offer>,
    /// Where the addon stands on each channel. On a channel that is not among them there is no release
    /// that the addon would be updated to.
    pub standings: Vec<Standing>,
    /// The addon's place among addons while it follows a channel on which it has no standing.
    pub rank: i64,
    pub state: AddonState,
}

/// What an [`Addon`] stands for.
pub struct AddonView {
    pub handle: u64,
    pub primary_folder_id: Seq<char>,
    pub title: Seq<char>,
    pub author: Option<Seq<char>>,
    pub version: Option<Seq<char>>,
    pub game_version: Option<Seq<char>>,
    pub file_id: Option<i64>,
    pub repository_id: Option<Seq<char>>,
    pub active_repository: Option<Repository>,
    pub cacheable: bool,
    pub folders: Seq<FolderView>,
    pub release_channel: Seq<char>,
    pub remote_packages: Seq<OfferView>,
    pub standings: Seq<StandingView>,
    pub rank: i64,
    pub state: StateView,
}

impl DeepView for Addon {
    type V = AddonView;

    open spec fn deep_view(&self) -> AddonView {
        AddonView {
            handle: self.handle,
            primary_folder_id: self.primary_folder_id@,
            title: self.title@,
            author: self.author.deep_view(),
            version: self.version.deep_view(),
            game_version: self.game_version.deep_view(),
            file_id: self.file_id,
            repository_id: self.repository_id.deep_view(),
            active_repository: self.active_repository,
            cacheable: self.cacheable,
            folders: self.folders.deep_view(),
            release_channel: self.release_channel.deep_view(),
            remote_packages: self.remote_packages.deep_view(),
            standings: self.standings.deep_view(),
            rank: self.rank,
            state: self.state.deep_view(),
        }
    }
}

impl Clone for Addon {
    fn clone(&self) -> (copy: Addon)
        ensures
            copy.deep_view() == self.deep_view(),
    {
        let remote_packages = self.remote_packages.clone();
        assert(remote_packages.deep_view() =~= self.remote_packages.deep_view());
        let standings = self.standings.clone();
        assert(standings.deep_view() =~= self.standings.deep_view());
        Addon {
            handle: self.handle,
            primary_folder_id: self.primary_folder_id.clone(),
            title: self.title.clone(),
            author: self.author.clone(),
            version: self.version.clone(),
            game_version: self.game_version.clone(),
            file_id: self.file_id,
            repository_id: self.repository_id.clone(),
            active_repository: self.active_repository,
            cacheable: self.cacheable,
            folders: copy_folders(&self.folders),
            release_channel: self.release_channel.clone(),
            remote_packages,
            standings,
            rank: self.rank,
            state: self.state.clone(),
        }
    }
}

/// Puts an addon in another state.
pub fn set_state(addons: &mut Vec<Addon>, position: usize, state: AddonState)
    requires
        position < old(addons)@.len(),
    ensures
        final(addons).deep_view() == old(addons).deep_view().update(
            position as int,
            old(addons).deep_view()[position as int].in_state(state.deep_view()),
        ),
        final(addons)@.len() == old(addons)@.len(),
        final(addons)@[position as int].deep_view() == old(
            addons,
        ).deep_view()[position as int].in_state(state.deep_view()),
{
    let ghost before = addons.deep_view();
    addons[position].state = state;
    assert(addons.deep_view() =~= before.update(
        position as int,
        before[position as int].in_state(state.deep_view()),
    ));
}

/// Being the standing on the channel.
pub open spec fn on_channel(channel: Seq<char>) -> Condition<StandingView> {
    |standing: StandingView| standing.channel == channel
}

/// Having the identifier.
pub open spec fn with_id(id: Seq<char>) -> Condition<AddonView> {
    |addon: AddonView| addon.primary_folder_id == id
}

/// Not having the identifier.
pub open spec fn without_id(id: Seq<char>) -> Condition<AddonView> {
    |addon: AddonView| addon.primary_folder_id != id
}

/// Not consisting of the folders.
pub open spec fn with_other_folders(folders: Seq<FolderView>) -> Condition<AddonView> {
    |addon: AddonView| !same_folders(addon.folders, folders)
}

/// Tests [`on_channel`].
pub struct OnChannel<'a> {
    pub channel: &'a ReleaseChannel,
}

impl<'a> Test<Standing> for OnChannel<'a> {
    open spec fn condition(&self) -> Condition<StandingView> {
        on_channel(self.channel.deep_view())
    }

    fn holds(&self, item: &Standing) -> (result: bool) {
        item.channel.name == self.channel.name
    }
}

/// Tests [`with_id`].
pub struct WithId<'a> {
    pub id: &'a String,
}

impl<'a> Test<Addon> for WithId<'a> {
    open spec fn condition(&self) -> Condition<AddonView> {
        with_id(self.id@)
    }

    fn holds(&self, item: &Addon) -> (result: bool) {
        item.primary_folder_id == *self.id
    }
}

/// Tests [`without_id`].
pub struct WithoutId<'a> {
    pub id: &'a String,
}

impl<'a> Test<Addon> for WithoutId<'a> {
    open spec fn condition(&self) -> Condition<AddonView> {
        without_id(self.id@)
    }

    fn holds(&self, item: &Addon) -> (result: bool) {
        !(item.primary_folder_id == *self.id)
    }
}

/// Tests [`with_other_folders`].
pub struct WithOtherFolders<'a> {
    pub folders: &'a Vec<AddonFolder>,
}

impl<'a> Test<Addon> for WithOtherFolders<'a> {
    open spec fn condition(&self) -> Condition<AddonView> {
        with_other_folders(self.folders.deep_view())
    }

    fn holds(&self, item: &Addon) -> (result: bool) {
        !are_same_folders(&item.folders, self.folders)
    }
}

impl AddonView {
    /// Where the addon stands on the channel that it follows.
    pub open spec fn standing(self) -> Option<StandingView> {
        match first_where(self.standings, on_channel(self.release_channel)) {
            Some(i) => Some(self.standings[i]),
            None => None,
        }
    }

    /// The release that the addon would be updated to.
    pub open spec fn relevant_package(self) -> Option<PackageView> {
        match self.standing() {
            Some(standing) => standing.package,
            None => None,
        }
    }

    /// The addon's place among addons.
    pub open spec fn place(self) -> int {
        match self.standing() {
            Some(standing) => standing.rank as int,
            None => self.rank as int,
        }
    }

    /// There is a release that the addon would be updated to, and it is an update.
    pub open spec fn has_update(self) -> bool {
        match self.standing() {
            Some(standing) => standing.package is Some && standing.updatable,
            None => false,
        }
    }

    /// The addon in another state.
    pub open spec fn in_state(self, state: StateView) -> AddonView {
        AddonView { state, ..self }
    }

    /// The addon once it is known whether there is an update: where there is a release at all, it
    /// is either an update or what is installed is looked after.
    pub open spec fn reassessed(self) -> AddonView {
        if self.relevant_package() is None {
            self
        } else if self.has_update() {
            self.in_state(StateView::Updatable)
        } else {
            self.in_state(StateView::Ajour(None))
        }
    }
}

impl Addon {
    /// Where the addon stands on the channel that it follows.
    pub fn standing(&self) -> (standing: Option<&Standing>)
        ensures
            standing.deep_view() == self.deep_view().standing(),
    {
        match find(&self.standings, &OnChannel { channel: &self.release_channel }) {
            Some(i) => Some(&self.standings[i]),
            None => None,
        }
    }

    /// The release that the addon would be updated to.
    pub fn relevant_release_package(&self) -> (package: Option<&RemotePackage>)
        ensures
            package.deep_view() == self.deep_view().relevant_package(),
    {
        match self.standing() {
            Some(standing) => standing.package.as_ref(),
            None => None,
        }
    }

    /// The addon's place among addons.
    pub fn place(&self) -> (place: i64)
        ensures
            place == self.deep_view().place(),
    {
        match self.standing() {
            Some(standing) => standing.rank,
            None => self.rank,
        }
    }

    /// Whether there is a release that the addon would be updated to, and it is an update.
    pub fn is_updatable(&self) -> (updatable: bool)
        ensures
            updatable == self.deep_view().has_update(),
    {
        match self.standing() {
            Some(standing) => standing.package.is_some() && standing.updatable,
            None => false,
        }
    }

    /// Notes the version that is installed.
    pub fn set_version(&mut self, version: String)
        ensures
            final(self).deep_view() == (AddonView {
                version: Some(version@),
                ..old(self).deep_view()
            }),
    {
        self.version = Some(version);
    }

    /// Sets the state by whether there is an update. Without a release the state stays.
    pub fn reassess(&mut self)
        ensures
            final(self).deep_view() == old(self).deep_view().reassessed(),
    {
        if self.relevant_release_package().is_some() {
            if self.is_updatable() {
                self.state = AddonState::Updatable;
            } else {
                self.state = AddonState::Ajour(None);
            }
        }
    }
}

} // verus!
