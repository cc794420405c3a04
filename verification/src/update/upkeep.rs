//! Reactions that concern backups and updates of this program.
use super::outcome::{only, outcome, Outcome};
use crate::config::ConfigView;
use crate::state::{
    Ajour, AjourView, BackupState, Platform, Release, Renderer, SelfUpdateState, SelfUpdateStatus,
};
use crate::task::{one_task, Save, Step, StepView, Task, TaskView};
use std::path::PathBuf;
use vstd::prelude::*;

verus! {

/// Backups are kept somewhere else, and the latest one there is looked for. Without a choice
/// nothing changes.
pub open spec fn backup_directory_updated(ajour: AjourView, path: Option<PathBuf>) -> Outcome {
    match path {
        Some(directory) => Outcome {
            ajour: AjourView {
                config: ConfigView { backup_directory: path, ..ajour.config },
                ..ajour
            },
            step: StepView {
                save: Save::Attempt,
                ..one_task(TaskView::LatestBackup(directory))
            },
        },
        None => only(ajour),
    }
}

/// Reacts to a choice of the folder for backups.
pub fn update_backup_directory(ajour: &mut Ajour, path: Option<PathBuf>) -> (step: Step)
    ensures
        outcome(*final(ajour), step) == backup_directory_updated(old(ajour).deep_view(), path),
{
    match path {
        Some(path) => {
            ajour.config.backup_directory = Some(path.clone());
            let mut step = Step::perform(Task::LatestBackup(path));
            step.save = Save::Attempt;
            step
        },
        None => Step::none(),
    }
}

/// It is known when the last backup was made.
pub open spec fn latest_backup_found(ajour: AjourView, as_of: Option<i128>) -> Outcome {
    only(
        AjourView {
            backup_state: BackupState { last_backup: as_of, ..ajour.backup_state },
            ..ajour
        },
    )
}

/// Reacts to the latest backup having been looked for.
pub fn note_latest_backup(ajour: &mut Ajour, as_of: Option<i128>) -> (step: Step)
    ensures
        outcome(*final(ajour), step) == latest_backup_found(old(ajour).deep_view(), as_of),
{
    ajour.backup_state.last_backup = as_of;
    Step::none()
}

/// A backup was made, or it failed and the window says so.
pub open spec fn backup_finished(ajour: AjourView, result: Result<i128, Seq<char>>) -> Outcome {
    only(
        match result {
            Ok(as_of) => AjourView {
                backup_state: BackupState { backing_up: false, last_backup: Some(as_of) },
                ..ajour
            },
            Err(error) => AjourView {
                backup_state: BackupState { backing_up: false, ..ajour.backup_state },
                error: Some(error),
                ..ajour
            },
        },
    )
}

/// Reacts to the end of a backup.
pub fn finish_backup(ajour: &mut Ajour, result: Result<i128, String>) -> (step: Step)
    ensures
        outcome(*final(ajour), step) == backup_finished(
            old(ajour).deep_view(),
            match result {
                Ok(as_of) => Ok(as_of),
                Err(error) => Err(error@),
            },
        ),
{
    ajour.backup_state.backing_up = false;
    match result {
        Ok(as_of) => {
            ajour.backup_state.last_backup = Some(as_of);
        },
        Err(error) => {
            ajour.error = Some(error);
        },
    }
    Step::none()
}

/// The latest release of this program is known.
pub open spec fn latest_release_found(ajour: AjourView, release: Option<Release>) -> Outcome {
    only(
        AjourView {
            self_update_state: SelfUpdateState {
                latest_release: release,
                ..ajour.self_update_state
            },
            ..ajour
        },
    )
}

/// Reacts to the latest release having been looked for.
pub fn note_latest_release(ajour: &mut Ajour, release: Option<Release>) -> (step: Step)
    ensures
        outcome(*final(ajour), step) == latest_release_found(old(ajour).deep_view(), release),
{
    ajour.self_update_state.latest_release = release;
    Step::none()
}

/// The name of the file in which this program is published.
pub open spec fn spec_bin_name(platform: Platform, renderer: Renderer) -> Seq<char> {
    match (platform, renderer) {
        (Platform::Windows, Renderer::OpenGl) => "ajour-opengl.exe"@,
        (Platform::Windows, Renderer::Wgpu) => "ajour.exe"@,
        (Platform::MacOs, Renderer::OpenGl) => "ajour-opengl"@,
        (Platform::MacOs, Renderer::Wgpu) => "ajour"@,
        (Platform::Linux, Renderer::OpenGl) => "ajour-opengl.AppImage"@,
        (Platform::Linux, Renderer::Wgpu) => "ajour.AppImage"@,
    }
}

/// The name of the file in which this program is published.
pub fn bin_name(platform: Platform, renderer: Renderer) -> (name: &'static str)
    ensures
        name@ == spec_bin_name(platform, renderer),
{
    match (platform, renderer) {
        (Platform::Windows, Renderer::OpenGl) => "ajour-opengl.exe",
        (Platform::Windows, Renderer::Wgpu) => "ajour.exe",
        (Platform::MacOs, Renderer::OpenGl) => "ajour-opengl",
        (Platform::MacOs, Renderer::Wgpu) => "ajour",
        (Platform::Linux, Renderer::OpenGl) => "ajour-opengl.AppImage",
        (Platform::Linux, Renderer::Wgpu) => "ajour.AppImage",
    }
}

/// This program is updated, if a release is known.
pub open spec fn self_update_requested(ajour: AjourView) -> Outcome {
    match ajour.self_update_state.latest_release {
        Some(release) => Outcome {
            ajour: AjourView {
                self_update_state: SelfUpdateState {
                    status: Some(SelfUpdateStatus::InProgress),
                    ..ajour.self_update_state
                },
                ..ajour
            },
            step: one_task(
                TaskView::DownloadUpdate {
                    bin_name: spec_bin_name(ajour.platform, ajour.renderer),
                    release,
                },
            ),
        },
        None => only(ajour),
    }
}

/// Reacts to an update of this program being asked for.
pub fn update_ajour(ajour: &mut Ajour) -> (step: Step)
    ensures
        outcome(*final(ajour), step) == self_update_requested(old(ajour).deep_view()),
{
    match ajour.self_update_state.latest_release {
        Some(release) => {
            let bin_name = bin_name(ajour.platform, ajour.renderer).to_owned();
            ajour.self_update_state.status = Some(SelfUpdateStatus::InProgress);
            Step::perform(Task::DownloadUpdate { bin_name, release })
        },
        None => Step::none(),
    }
}

/// The update of this program failed, and the window says so.
pub open spec fn self_update_failed(ajour: AjourView, error: Seq<char>) -> Outcome {
    only(
        AjourView {
            error: Some(error),
            self_update_state: SelfUpdateState {
                status: Some(SelfUpdateStatus::Failed),
                ..ajour.self_update_state
            },
            ..ajour
        },
    )
}

/// Reacts to a failed update of this program.
pub fn fail_self_update(ajour: &mut Ajour, error: String) -> (step: Step)
    ensures
        outcome(*final(ajour), step) == self_update_failed(old(ajour).deep_view(), error@),
{
    ajour.error = Some(error);
    ajour.self_update_state.status = Some(SelfUpdateStatus::Failed);
    Step::none()
}

/// A release of this program was downloaded, and takes its place.
pub open spec fn self_update_downloaded(
    ajour: AjourView,
    bin_name: Seq<char>,
    path: PathBuf,
) -> Outcome {
    Outcome { ajour, step: one_task(TaskView::Restart { bin_name, path }) }
}

/// Reacts to a release of this program having been downloaded.
pub fn finish_self_update(ajour: &mut Ajour, result: Result<(String, PathBuf), String>) -> (step:
    Step)
    ensures
        outcome(*final(ajour), step) == match result {
            Ok((bin_name, path)) => self_update_downloaded(
                old(ajour).deep_view(),
                bin_name@,
                path,
            ),
            Err(error) => self_update_failed(old(ajour).deep_view(), error@),
        },
{
    match result {
        Ok((bin_name, path)) => Step::perform(Task::Restart { bin_name, path }),
        Err(error) => fail_self_update(ajour, error),
    }
}

/// The arguments that a new release is started with, given those that this program was started
/// with: the first one, which names the program, is left out, and the program's file is named in
/// the end.
pub open spec fn spec_restart_arguments(arguments: Seq<Seq<char>>, bin_name: Seq<char>) -> Seq<
    Seq<char>,
> {
    let own = if arguments.len() > 0 {
        arguments.drop_first()
    } else {
        arguments
    };
    own.push("--self-update-temp"@).push(bin_name)
}

/// The arguments that a new release is started with.
pub fn restart_arguments(arguments: &Vec<String>, bin_name: &String) -> (own: Vec<String>)
    ensures
        own.deep_view() == spec_restart_arguments(arguments.deep_view(), bin_name@),
{
    let mut own: Vec<String> = Vec::new();
    let ghost given = arguments.deep_view();
    if arguments.len() > 0 {
        let mut i: usize = 1;
        while i < arguments.len()
            invariant
                1 <= i <= arguments@.len(),
                given == arguments.deep_view(),
                own.deep_view() =~= given.drop_first().take(i - 1),
            decreases arguments@.len() - i,
        {
            let ghost own_before = own.deep_view();
            own.push(arguments[i].clone());
            assert(own.deep_view() =~= own_before.push(given[i as int]));
            i = i + 1;
        }
        assert(own.deep_view() =~= given.drop_first());
    } else {
        assert(own.deep_view() =~= given);
    }
    let ghost kept = own.deep_view();
    own.push("--self-update-temp".to_owned());
    own.push(bin_name.clone());
    assert(own.deep_view() =~= kept.push("--self-update-temp"@).push(bin_name@));
    own
}

} // verus!
