//! What is promised of the window, of backups and of updates of this program.
use super::sorting::themes_are_sorted_by_their_places;
use super::words::{asks_for, asks_nothing, asks_to_save, is_arranged};
use crate::config::ConfigView;
use crate::message::{Component, DirectoryType, Interaction, Message};
use crate::state::{
    AjourView, BackupState, Directories, ExpandView, Mode, Platform, Release, Renderer,
    SelfUpdateState, SelfUpdateStatus, Theme, ThemeView,
};
use crate::task::{Save, TaskView};
use crate::update::transition;
use crate::update::upkeep::{spec_bin_name, spec_restart_arguments};
use std::path::PathBuf;
use vstd::prelude::*;

verus! {

/// Opening or closing the settings does the one or the other and folds everything up. All else
/// stays, and nothing is done.
pub proof fn settings_are_opened_or_closed(ajour: AjourView, dirs: Directories)
    ensures
        ({
            let result = transition(ajour, dirs, Message::Interaction(Interaction::Settings));
            &&& result.ajour == (AjourView {
                is_showing_settings: !ajour.is_showing_settings,
                expanded_type: ExpandView::Nothing,
                ..ajour
            })
            &&& asks_nothing(result.step)
        }),
{
}

/// What is chosen to be shown is shown, and the settings are closed. All else stays, and nothing is
/// done.
pub proof fn a_chosen_mode_is_shown(ajour: AjourView, dirs: Directories, mode: Mode)
    ensures
        ({
            let result = transition(
                ajour,
                dirs,
                Message::Interaction(Interaction::ModeSelected(mode)),
            );
            &&& result.ajour == (AjourView { mode, is_showing_settings: false, ..ajour })
            &&& asks_nothing(result.step)
        }),
{
}

/// Another size of the window is kept, width and height, and saved. All else stays.
pub proof fn a_new_window_size_is_kept(
    ajour: AjourView,
    dirs: Directories,
    width: u32,
    height: u32,
)
    ensures
        ({
            let result = transition(ajour, dirs, Message::WindowResized(width, height));
            &&& result.ajour == (AjourView {
                config: ConfigView { window_size: Some((width, height)), ..ajour.config },
                ..ajour
            })
            &&& asks_to_save(result.step)
        }),
{
}

/// An error is shown. All else stays, and nothing is done. That holds of a failed write to the
/// addon cache and of a catalog that could not be downloaded as well.
pub proof fn errors_are_shown(
    ajour: AjourView,
    dirs: Directories,
    error: String,
    message: Message,
)
    requires
        message == Message::Error(error) || message == Message::AddonCacheUpdated(Err(error))
            || message == Message::CatalogDownloaded(Err(error)),
    ensures
        ({
            let result = transition(ajour, dirs, message);
            &&& result.ajour == (AjourView { error: Some(error@), ..ajour })
            &&& asks_nothing(result.step)
        }),
{
}

/// Where there is nothing to react to, nothing changes and nothing is done.
pub proof fn some_messages_change_nothing(ajour: AjourView, dirs: Directories, message: Message)
    requires
        message == Message::Nothing || message == Message::RuntimeEvent || message
            == Message::AddonCacheEntryRemoved || message == Message::AddonCacheUpdated(Ok(())),
    ensures
        ({
            let result = transition(ajour, dirs, message);
            result.ajour == ajour && asks_nothing(result.step)
        }),
{
}

/// A message to the settings, a folder to choose and a page to open are handed on as they are, and
/// nothing changes.
pub proof fn some_messages_are_handed_on(
    ajour: AjourView,
    dirs: Directories,
    number: u64,
    kind: DirectoryType,
    link: String,
)
    ensures
        ({
            let settings = transition(
                ajour,
                dirs,
                Message::Component(Component::Settings(number)),
            );
            let folder = transition(
                ajour,
                dirs,
                Message::Interaction(Interaction::OpenDirectory(kind)),
            );
            let page = transition(
                ajour,
                dirs,
                Message::Interaction(Interaction::OpenLink(link)),
            );
            &&& settings.ajour == ajour
            &&& asks_for(settings.step, TaskView::UpdateSettings(number))
            &&& folder.ajour == ajour
            &&& asks_for(folder.step, TaskView::OpenDirectory(kind))
            &&& page.ajour == ajour
            &&& asks_for(page.step, TaskView::OpenLink(link@))
        }),
{
}

/// Themes that were loaded come after those that there are, with their names and in the sequence of
/// their places. All else stays, and nothing is done.
pub proof fn loaded_themes_come_last(ajour: AjourView, dirs: Directories, themes: Vec<Theme>, k: int)
    ensures
        ({
            let loaded = themes.deep_view();
            let result = transition(ajour, dirs, Message::ThemesLoaded(themes));
            let after = result.ajour.themes;
            let count = ajour.themes.len() as int;
            let added = after.skip(count).map_values(|pair: (Seq<char>, ThemeView)| pair.1);
            &&& result.ajour == (AjourView { themes: after, ..ajour })
            &&& asks_nothing(result.step)
            &&& after.len() == count + loaded.len()
            &&& after.take(count) == ajour.themes
            &&& is_arranged(loaded, added, |a: ThemeView, b: ThemeView| a.rank < b.rank)
            &&& count <= k < after.len() ==> after[k].0 == after[k].1.name
        }),
{
    let loaded = themes.deep_view();
    let sorted = crate::order::stable_sort(loaded, crate::sort::by_theme());
    themes_are_sorted_by_their_places(loaded);
    let after = transition(ajour, dirs, Message::ThemesLoaded(themes)).ajour.themes;
    let count = ajour.themes.len() as int;
    assert(after.take(count) =~= ajour.themes);
    let added = after.skip(count).map_values(|pair: (Seq<char>, ThemeView)| pair.1);
    assert(added =~= sorted);
}

/// A folder for backups that is chosen is kept and saved, and the latest backup in it is looked
/// for. Without a choice nothing changes. All else stays.
pub proof fn a_chosen_folder_for_backups_is_kept(
    ajour: AjourView,
    dirs: Directories,
    path: Option<PathBuf>,
)
    ensures
        ({
            let result = transition(ajour, dirs, Message::UpdateBackupDirectory(path));
            &&& path is None ==> result.ajour == ajour && asks_nothing(result.step)
            &&& path is Some ==> {
                &&& result.ajour == (AjourView {
                    config: ConfigView { backup_directory: path, ..ajour.config },
                    ..ajour
                })
                &&& result.step.save == Save::Attempt
                &&& result.step.delete.len() == 0
                &&& result.step.tasks == seq![TaskView::LatestBackup(path->0)]
            }
        }),
{
}

/// What was found out of the latest backup is noted, and a backup is done whether it was made or
/// not: where it was, its time is noted, and otherwise the time before it stays and the error is
/// shown. All else stays, and nothing is done.
pub proof fn backups_are_noted(
    ajour: AjourView,
    dirs: Directories,
    found: Option<i128>,
    made: Result<i128, String>,
)
    ensures
        ({
            let looked = transition(ajour, dirs, Message::LatestBackup(found));
            let finished = transition(ajour, dirs, Message::BackupFinished(made));
            let state = ajour.backup_state;
            &&& looked.ajour == (AjourView {
                backup_state: BackupState { backing_up: state.backing_up, last_backup: found },
                ..ajour
            })
            &&& asks_nothing(looked.step)
            &&& asks_nothing(finished.step)
            &&& made matches Ok(time) ==> finished.ajour == (AjourView {
                backup_state: BackupState { backing_up: false, last_backup: Some(time) },
                ..ajour
            })
            &&& made matches Err(error) ==> finished.ajour == (AjourView {
                backup_state: BackupState { backing_up: false, last_backup: state.last_backup },
                error: Some(error@),
                ..ajour
            })
        }),
{
}

/// What was found out of the latest release of this program is noted. An update to the release that
/// is known is downloaded, under the name that the platform and the renderer make. Without a known
/// release nothing changes. All else stays.
pub proof fn the_known_release_is_downloaded(
    ajour: AjourView,
    dirs: Directories,
    found: Option<Release>,
)
    ensures
        ({
            let looked = transition(ajour, dirs, Message::LatestRelease(found));
            let asked = transition(ajour, dirs, Message::Interaction(Interaction::UpdateAjour));
            let state = ajour.self_update_state;
            &&& looked.ajour == (AjourView {
                self_update_state: SelfUpdateState {
                    latest_release: found,
                    status: state.status,
                },
                ..ajour
            })
            &&& asks_nothing(looked.step)
            &&& state.latest_release is None ==> asked.ajour == ajour && asks_nothing(asked.step)
            &&& state.latest_release is Some ==> {
                &&& asked.ajour == (AjourView {
                    self_update_state: SelfUpdateState {
                        latest_release: state.latest_release,
                        status: Some(SelfUpdateStatus::InProgress),
                    },
                    ..ajour
                })
                &&& asks_for(
                    asked.step,
                    TaskView::DownloadUpdate {
                        bin_name: spec_bin_name(ajour.platform, ajour.renderer),
                        release: state.latest_release->0,
                    },
                )
            }
        }),
{
}

/// A release of this program that was downloaded takes its place, under the name and from the file
/// that came. A failed download and a failed start are shown, and the update has failed. The
/// release that is known and all else stay.
pub proof fn a_downloaded_release_takes_over(
    ajour: AjourView,
    dirs: Directories,
    name: String,
    path: PathBuf,
    error: String,
    failure: Message,
)
    requires
        failure == Message::AjourUpdateDownloaded(Err(error)) || failure
            == Message::AjourRestartFailed(error),
    ensures
        ({
            let result = transition(
                ajour,
                dirs,
                Message::AjourUpdateDownloaded(Ok((name, path))),
            );
            let failed = transition(ajour, dirs, failure);
            &&& result.ajour == ajour
            &&& asks_for(result.step, TaskView::Restart { bin_name: name@, path })
            &&& failed.ajour == (AjourView {
                error: Some(error@),
                self_update_state: SelfUpdateState {
                    latest_release: ajour.self_update_state.latest_release,
                    status: Some(SelfUpdateStatus::Failed),
                },
                ..ajour
            })
            &&& asks_nothing(failed.step)
        }),
{
}

/// The name of this program's file says for which renderer it is, then for which platform.
pub proof fn file_names_tell_renderer_and_platform(platform: Platform, renderer: Renderer)
    ensures
        spec_bin_name(platform, renderer) == (if renderer == Renderer::OpenGl {
            "ajour-opengl"@
        } else {
            "ajour"@
        }) + (match platform {
            Platform::Windows => ".exe"@,
            Platform::MacOs => Seq::empty(),
            Platform::Linux => ".AppImage"@,
        }),
{
    reveal_strlit("ajour-opengl");
    reveal_strlit("ajour");
    reveal_strlit(".exe");
    reveal_strlit(".AppImage");
    reveal_strlit("ajour-opengl.exe");
    reveal_strlit("ajour.exe");
    reveal_strlit("ajour-opengl.AppImage");
    reveal_strlit("ajour.AppImage");
    let name = spec_bin_name(platform, renderer);
    let stem = if renderer == Renderer::OpenGl {
        "ajour-opengl"@
    } else {
        "ajour"@
    };
    match platform {
        Platform::Windows => {
            assert(name =~= stem + ".exe"@);
        },
        Platform::MacOs => {
            assert(name =~= stem + Seq::<char>::empty());
        },
        Platform::Linux => {
            assert(name =~= stem + ".AppImage"@);
        },
    }
}

/// A new release is started with the arguments that this program was started with, without the one
/// that names the program and in their sequence, then with the option for a new release and the
/// name of this program's file.
pub proof fn a_new_release_gets_the_same_arguments(
    arguments: Seq<Seq<char>>,
    name: Seq<char>,
    k: int,
)
    ensures
        ({
            let own = spec_restart_arguments(arguments, name);
            let count: int = if arguments.len() > 0 {
                arguments.len() - 1
            } else {
                0
            };
            &&& own.len() == count + 2
            &&& 0 <= k < count ==> own[k] == arguments[k + 1]
            &&& own[count] == "--self-update-temp"@
            &&& own[count + 1] == name
        }),
{
}

} // verus!
