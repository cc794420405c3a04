//! Reactions that concern what is unfolded below an addon.
use super::outcome::{only, outcome, settings_closed, Outcome};
use crate::addon::{Addon, AddonView, Repository};
use crate::state::{
    AddonVersionKey, Ajour, AjourView, Changelog, ChangelogPayload, ChangelogView, ExpandType,
    ExpandView, PayloadView,
};
use crate::task::{one_task, Step, Task, TaskView};
use crate::text::{parse_u32, parsed_u32};
use crate::wow::Flavor;
use vstd::prelude::*;

verus! {

/// The program with something else unfolded.
pub open spec fn with_expanded(ajour: AjourView, expanded_type: ExpandView) -> AjourView {
    AjourView { expanded_type, ..ajour }
}

/// The details of the addon are unfolded.
pub open spec fn shows_details(ajour: AjourView, addon: AddonView) -> bool {
    match ajour.expanded_type {
        ExpandView::Details(shown) => shown.primary_folder_id == addon.primary_folder_id,
        _ => false,
    }
}

/// The changelog of the addon's version is unfolded.
pub open spec fn shows_changelog(ajour: AjourView, addon: AddonView, key: AddonVersionKey) -> bool {
    match ajour.expanded_type {
        ExpandView::Changelog(ChangelogView::Loaded(shown, _, shown_key)) =>
            shown.primary_folder_id == addon.primary_folder_id && shown_key == key,
        _ => false,
    }
}

/// The file that the version of the addon came in.
pub open spec fn file_of(addon: AddonView, key: AddonVersionKey) -> Option<i64> {
    match key {
        AddonVersionKey::Local => addon.file_id,
        AddonVersionKey::Remote => match addon.relevant_package() {
            Some(package) => package.file_id,
            None => None,
        },
    }
}

/// How the changelog of the addon's version is fetched, if it can be.
pub open spec fn changelog_task(addon: AddonView, key: AddonVersionKey, flavor: Flavor) -> Option<
    TaskView,
> {
    match (addon.active_repository, addon.repository_id) {
        (Some(Repository::Curse), Some(id)) => match file_of(addon, key) {
            Some(file_id) => Some(
                TaskView::FetchCurseChangelog { addon, key, id: parsed_u32(id)->0, file_id },
            ),
            None => None,
        },
        (Some(Repository::Tukui), Some(id)) => Some(
            TaskView::FetchTukuiChangelog { addon, id, flavor, key },
        ),
        (Some(Repository::WowI), Some(id)) => Some(
            TaskView::FetchWowiChangelog { addon, id, key },
        ),
        _ => None,
    }
}

/// Something is unfolded. What is unfolded already is folded up instead, and a changelog that is
/// asked for is fetched first.
#[verifier::opaque]
pub open spec fn expanded(ajour: AjourView, expand_type: ExpandView) -> Outcome {
    let closed = settings_closed(ajour);
    match expand_type {
        ExpandView::Details(addon) => only(
            with_expanded(
                closed,
                if shows_details(ajour, addon) {
                    ExpandView::Nothing
                } else {
                    expand_type
                },
            ),
        ),
        ExpandView::Changelog(ChangelogView::Request(addon, key)) => if shows_changelog(
            ajour,
            addon,
            key,
        ) {
            only(with_expanded(closed, ExpandView::Nothing))
        } else {
            match changelog_task(addon, key, ajour.config.flavor) {
                Some(task) => Outcome {
                    ajour: with_expanded(
                        closed,
                        ExpandView::Changelog(ChangelogView::Loading(addon, key)),
                    ),
                    step: one_task(task),
                },
                None => only(closed),
            }
        },
        ExpandView::Changelog(ChangelogView::Loading(_, _)) => only(
            with_expanded(closed, expand_type),
        ),
        ExpandView::Changelog(ChangelogView::Loaded(_, _, _)) => only(closed),
        ExpandView::Nothing => only(closed),
    }
}

/// A changelog is to be fetched from Curse, and the addon's number there cannot be read.
pub open spec fn asks_for_unreadable_number(ajour: AjourView, expand_type: ExpandView) -> bool {
    match expand_type {
        ExpandView::Changelog(ChangelogView::Request(addon, key)) => {
            &&& !shows_changelog(ajour, addon, key)
            &&& addon.active_repository == Some(Repository::Curse)
            &&& addon.repository_id is Some
            &&& file_of(addon, key) is Some
            &&& parsed_u32(addon.repository_id->0) is None
        },
        _ => false,
    }
}

/// Whether the changelog of the addon's version is unfolded.
fn is_showing_changelog(ajour: &Ajour, addon: &Addon, key: AddonVersionKey) -> (shown: bool)
    ensures
        shown == shows_changelog(ajour.deep_view(), addon.deep_view(), key),
{
    if let ExpandType::Changelog(Changelog::Loaded(shown, _, shown_key)) = &ajour.expanded_type {
        addon.primary_folder_id == shown.primary_folder_id && key == *shown_key
    } else {
        false
    }
}

fn version_file(addon: &Addon, key: AddonVersionKey) -> (file_id: Option<i64>)
    ensures
        file_id == file_of(addon.deep_view(), key),
{
    match key {
        AddonVersionKey::Local => addon.file_id,
        AddonVersionKey::Remote => match addon.relevant_release_package() {
            Some(package) => package.file_id,
            None => None,
        },
    }
}

/// Whether a changelog is to be fetched from Curse although the addon's number there cannot be
/// read.
pub fn needs_unreadable_number(ajour: &Ajour, expand_type: &ExpandType) -> (needed: bool)
    ensures
        needed == asks_for_unreadable_number(ajour.deep_view(), expand_type.deep_view()),
{
    if let ExpandType::Changelog(Changelog::Request(addon, key)) = expand_type {
        if is_showing_changelog(ajour, addon, *key) || addon.active_repository != Some(
            Repository::Curse,
        ) {
            return false;
        }
        match (&addon.repository_id, version_file(addon, *key)) {
            (Some(id), Some(_)) => parse_u32(id.as_str()).is_none(),
            _ => false,
        }
    } else {
        false
    }
}

fn fetch_changelog(addon: &Addon, key: AddonVersionKey, flavor: Flavor) -> (task: Option<Task>)
    requires
        addon.active_repository == Some(Repository::Curse) && addon.repository_id is Some
            && file_of(addon.deep_view(), key) is Some ==> parsed_u32(addon.repository_id->0@)
            is Some,
    ensures
        task.deep_view() == changelog_task(addon.deep_view(), key, flavor),
{
    let file_id = version_file(addon, key);
    match (addon.active_repository, &addon.repository_id) {
        (Some(Repository::Curse), Some(id)) => match file_id {
            Some(file_id) => {
                let id = parse_u32(id.as_str()).unwrap();
                Some(Task::FetchCurseChangelog { addon: addon.clone(), key, id, file_id })
            },
            None => None,
        },
        (Some(Repository::Tukui), Some(id)) => Some(
            Task::FetchTukuiChangelog { addon: addon.clone(), id: id.clone(), flavor, key },
        ),
        (Some(Repository::WowI), Some(id)) => Some(
            Task::FetchWowiChangelog { addon: addon.clone(), id: id.clone(), key },
        ),
        _ => None,
    }
}

/// Reacts to something being unfolded.
pub fn expand(ajour: &mut Ajour, expand_type: ExpandType) -> (step: Step)
    requires
        !asks_for_unreadable_number(old(ajour).deep_view(), expand_type.deep_view()),
    ensures
        outcome(*final(ajour), step) == expanded(old(ajour).deep_view(), expand_type.deep_view()),
{
    proof {
        reveal(expanded);
    }
    ajour.is_showing_settings = false;
    match expand_type {
        ExpandType::Details(addon) => {
            let should_close = match &ajour.expanded_type {
                ExpandType::Details(shown) => addon.primary_folder_id == shown.primary_folder_id,
                _ => false,
            };
            if should_close {
                ajour.expanded_type = ExpandType::Nothing;
            } else {
                ajour.expanded_type = ExpandType::Details(addon);
            }
        },
        ExpandType::Changelog(changelog) => match changelog {
            Changelog::Request(addon, key) => {
                if is_showing_changelog(ajour, &addon, key) {
                    ajour.expanded_type = ExpandType::Nothing;
                } else if let Some(task) = fetch_changelog(&addon, key, ajour.config.wow.flavor) {
                    ajour.expanded_type = ExpandType::Changelog(Changelog::Loading(addon, key));
                    return Step::perform(task);
                }
            },
            Changelog::Loading(addon, key) => {
                ajour.expanded_type = ExpandType::Changelog(Changelog::Loading(addon, key));
            },
            Changelog::Loaded(_, _, _) => {},
        },
        ExpandType::Nothing => {},
    }
    Step::none()
}

/// A changelog was fetched and is unfolded, or it could not be fetched and nothing is.
pub open spec fn changelog_fetched(
    ajour: AjourView,
    addon: AddonView,
    key: AddonVersionKey,
    payload: Option<PayloadView>,
) -> Outcome {
    only(
        with_expanded(
            ajour,
            match payload {
                Some(payload) => ExpandView::Changelog(ChangelogView::Loaded(addon, payload, key)),
                None => ExpandView::Nothing,
            },
        ),
    )
}

/// Reacts to a changelog having been fetched.
pub fn show_changelog(
    ajour: &mut Ajour,
    addon: Addon,
    key: AddonVersionKey,
    result: Result<(String, String), String>,
) -> (step: Step)
    ensures
        outcome(*final(ajour), step) == changelog_fetched(
            old(ajour).deep_view(),
            addon.deep_view(),
            key,
            match result {
                Ok((changelog, url)) => Some(PayloadView { changelog: changelog@, url: url@ }),
                Err(_) => None,
            },
        ),
{
    match result {
        Ok((changelog, url)) => {
            let payload = ChangelogPayload { changelog, url };
            ajour.expanded_type = ExpandType::Changelog(Changelog::Loaded(addon, payload, key));
        },
        Err(_) => {
            ajour.expanded_type = ExpandType::Nothing;
        },
    }
    Step::none()
}

} // verus!
