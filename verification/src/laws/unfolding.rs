//! What is promised of what is unfolded below an addon.
use super::sorting::{release_of, releases_and_places_come_from_standings};
use super::words::{asks_for, asks_nothing};
use crate::addon::{Addon, AddonView, Repository};
use crate::message::{Interaction, Message};
use crate::state::{
    AddonVersionKey, AjourView, ChangelogView, Directories, ExpandType, ExpandView, PayloadView,
};
use crate::task::TaskView;
use crate::text::parsed_u32;
use crate::update::expand::expanded;
use crate::update::transition;
use vstd::prelude::*;

verus! {

/// The file of the version that a changelog is asked for: the one that is installed, or the one of
/// the release that the addon's channel offers.
pub open spec fn file_for(addon: AddonView, key: AddonVersionKey) -> Option<i64> {
    if key == AddonVersionKey::Local {
        addon.file_id
    } else if release_of(addon) is Some {
        release_of(addon)->0.file_id
    } else {
        None
    }
}

/// The changelog of that version of the addon is unfolded.
pub open spec fn is_unfolded(ajour: AjourView, addon: AddonView, key: AddonVersionKey) -> bool {
    exists|shown: AddonView, payload: PayloadView|
        ajour.expanded_type == #[trigger] loaded(shown, payload, key) && shown.primary_folder_id
            == addon.primary_folder_id
}

/// A changelog that is unfolded.
pub open spec fn loaded(
    addon: AddonView,
    payload: PayloadView,
    key: AddonVersionKey,
) -> ExpandView {
    ExpandView::Changelog(ChangelogView::Loaded(addon, payload, key))
}

/// Unfolding an addon's details shows them, or folds them up where those of an addon with the same
/// identifier are shown. The settings are closed, all else stays, and nothing is done.
pub proof fn details_are_unfolded_or_folded_up(ajour: AjourView, dirs: Directories, addon: Addon)
    ensures
        ({
            let result = transition(
                ajour,
                dirs,
                Message::Interaction(Interaction::Expand(ExpandType::Details(addon))),
            );
            let view = addon.deep_view();
            let is_shown = ajour.expanded_type is Details
                && ajour.expanded_type->Details_0.primary_folder_id == view.primary_folder_id;
            &&& result.ajour == (AjourView {
                is_showing_settings: false,
                expanded_type: if is_shown {
                    ExpandView::Nothing
                } else {
                    ExpandView::Details(view)
                },
                ..ajour
            })
            &&& asks_nothing(result.step)
        }),
{
    reveal(expanded);
}

/// Asking for a changelog that is unfolded folds it up. Any other one is fetched from the service
/// that the addon comes from, by its number or its name there, and shown as loading. Where the
/// service, the name, or for Curse the file of the version is not known, nothing is fetched and
/// what is unfolded stays. The settings are closed, and all else stays.
pub proof fn a_changelog_is_fetched_from_its_service(
    ajour: AjourView,
    dirs: Directories,
    addon: Addon,
    key: AddonVersionKey,
)
    ensures
        ({
            let result = transition(
                ajour,
                dirs,
                Message::Interaction(
                    Interaction::Expand(
                        ExpandType::Changelog(crate::state::Changelog::Request(addon, key)),
                    ),
                ),
            );
            let view = addon.deep_view();
            let name = view.repository_id;
            let service = view.active_repository;
            let is_known = service is Some && name is Some && (service == Some(Repository::Curse)
                ==> file_for(view, key) is Some);
            let is_fetched = !is_unfolded(ajour, view, key) && is_known;
            &&& result.ajour == (AjourView {
                is_showing_settings: false,
                expanded_type: if is_unfolded(ajour, view, key) {
                    ExpandView::Nothing
                } else if is_known {
                    ExpandView::Changelog(ChangelogView::Loading(view, key))
                } else {
                    ajour.expanded_type
                },
                ..ajour
            })
            &&& !is_fetched ==> asks_nothing(result.step)
            &&& is_fetched && service == Some(Repository::Curse) && parsed_u32(name->0) is Some
                ==> asks_for(
                result.step,
                TaskView::FetchCurseChangelog {
                    addon: view,
                    key,
                    id: parsed_u32(name->0)->0,
                    file_id: file_for(view, key)->0,
                },
            )
            &&& is_fetched && service == Some(Repository::Tukui) ==> asks_for(
                result.step,
                TaskView::FetchTukuiChangelog {
                    addon: view,
                    id: name->0,
                    flavor: ajour.config.flavor,
                    key,
                },
            )
            &&& is_fetched && service == Some(Repository::WowI) ==> asks_for(
                result.step,
                TaskView::FetchWowiChangelog { addon: view, id: name->0, key },
            )
        }),
{
    reveal(expanded);
    let view = addon.deep_view();
    releases_and_places_come_from_standings(view);
    lemma_unfolded(ajour, view, key);
}

pub(crate) proof fn lemma_unfolded(ajour: AjourView, addon: AddonView, key: AddonVersionKey)
    ensures
        is_unfolded(ajour, addon, key) == crate::update::expand::shows_changelog(ajour, addon, key),
{
    if let ExpandView::Changelog(ChangelogView::Loaded(shown, payload, shown_key)) =
        ajour.expanded_type {
        assert(ajour.expanded_type == loaded(shown, payload, shown_key));
    }
}

/// Unfolding a changelog that is loading shows it as such. Unfolding one that is loaded, or
/// nothing, leaves what is unfolded. The settings are closed, all else stays, and nothing is done.
pub proof fn other_unfolding_asks_for_nothing(
    ajour: AjourView,
    dirs: Directories,
    expand_type: ExpandType,
)
    requires
        !(expand_type is Details),
        !(expand_type.deep_view() is Changelog
            && expand_type.deep_view()->Changelog_0 is Request),
    ensures
        ({
            let result = transition(
                ajour,
                dirs,
                Message::Interaction(Interaction::Expand(expand_type)),
            );
            let view = expand_type.deep_view();
            &&& result.ajour == (AjourView {
                is_showing_settings: false,
                expanded_type: if view is Changelog && view->Changelog_0 is Loading {
                    view
                } else {
                    ajour.expanded_type
                },
                ..ajour
            })
            &&& asks_nothing(result.step)
        }),
{
    reveal(expanded);
}

/// A changelog that was fetched is unfolded, with the text and the page that came. Where none came,
/// nothing stays unfolded. All else stays, and nothing is done.
pub proof fn a_fetched_changelog_is_unfolded(
    ajour: AjourView,
    dirs: Directories,
    addon: Addon,
    key: AddonVersionKey,
    fetched: Result<(String, String), String>,
)
    ensures
        ({
            let result = transition(ajour, dirs, Message::FetchedChangelog(addon, key, fetched));
            &&& asks_nothing(result.step)
            &&& fetched is Err ==> result.ajour == (AjourView {
                expanded_type: ExpandView::Nothing,
                ..ajour
            })
            &&& fetched matches Ok((text, page)) ==> result.ajour == (AjourView {
                expanded_type: loaded(
                    addon.deep_view(),
                    PayloadView { changelog: text@, url: page@ },
                    key,
                ),
                ..ajour
            })
        }),
{
}

} // verus!
