//! Reactions that concern the window.
use super::outcome::{only, outcome, settings_closed, Outcome};
use crate::config::ConfigView;
use crate::list::drain;
use crate::order::stable_sort;
use crate::sort::{by_theme, sort_themes};
use crate::state::{Ajour, AjourView, ExpandType, ExpandView, Mode, Theme, ThemeView};
use crate::task::{idle, Save, Step, StepView};
use vstd::prelude::*;

verus! {

/// Something went wrong, and the window says so.
pub open spec fn failed(ajour: AjourView, error: Seq<char>) -> Outcome {
    only(AjourView { error: Some(error), ..ajour })
}

/// Reacts to an error.
pub fn show_error(ajour: &mut Ajour, error: String) -> (step: Step)
    ensures
        outcome(*final(ajour), step) == failed(old(ajour).deep_view(), error@),
{
    ajour.error = Some(error);
    Step::none()
}

/// The settings are opened, or closed where they are open. Nothing stays unfolded.
pub open spec fn settings_toggled(ajour: AjourView) -> Outcome {
    only(
        AjourView {
            is_showing_settings: !ajour.is_showing_settings,
            expanded_type: ExpandView::Nothing,
            ..ajour
        },
    )
}

/// Reacts to the settings being opened or closed.
pub fn toggle_settings(ajour: &mut Ajour) -> (step: Step)
    ensures
        outcome(*final(ajour), step) == settings_toggled(old(ajour).deep_view()),
{
    ajour.is_showing_settings = !ajour.is_showing_settings;
    ajour.expanded_type = ExpandType::Nothing;
    Step::none()
}

/// The window shows something else.
pub open spec fn mode_selected(ajour: AjourView, mode: Mode) -> Outcome {
    only(AjourView { mode, ..settings_closed(ajour) })
}

/// Reacts to a choice of what the window shows.
pub fn select_mode(ajour: &mut Ajour, mode: Mode) -> (step: Step)
    ensures
        outcome(*final(ajour), step) == mode_selected(old(ajour).deep_view(), mode),
{
    ajour.is_showing_settings = false;
    ajour.mode = mode;
    Step::none()
}

/// The window has another size, which is kept.
pub open spec fn window_resized(ajour: AjourView, width: u32, height: u32) -> Outcome {
    Outcome {
        ajour: AjourView {
            config: ConfigView { window_size: Some((width, height)), ..ajour.config },
            ..ajour
        },
        step: StepView { save: Save::Attempt, ..idle() },
    }
}

/// Reacts to another size of the window.
pub fn resize_window(ajour: &mut Ajour, width: u32, height: u32) -> (step: Step)
    ensures
        outcome(*final(ajour), step) == window_resized(old(ajour).deep_view(), width, height),
{
    ajour.config.window_size = Some((width, height));
    Step::save(Save::Attempt)
}

/// The themes with their names, in their order.
pub open spec fn named(themes: Seq<ThemeView>) -> Seq<(Seq<char>, ThemeView)> {
    Seq::new(themes.len(), |i: int| (themes[i].name, themes[i]))
}

/// Themes are there to choose from.
pub open spec fn themes_loaded(ajour: AjourView, themes: Seq<ThemeView>) -> Outcome {
    only(AjourView { themes: ajour.themes + named(stable_sort(themes, by_theme())), ..ajour })
}

/// Reacts to themes being loaded.
pub fn load_themes(ajour: &mut Ajour, themes: Vec<Theme>) -> (step: Step)
    ensures
        outcome(*final(ajour), step) == themes_loaded(
            old(ajour).deep_view(),
            themes.deep_view(),
        ),
{
    let mut themes = themes;
    sort_themes(&mut themes);
    let ghost before = ajour.deep_view();
    let ghost order = themes.deep_view();
    let ghost sorted = named(order);
    let mut queue = drain(&mut themes);
    let ghost mut gone: int = 0;
    assert(ajour.themes.deep_view() =~= before.themes + sorted.take(0));
    while queue.len() > 0
        invariant
            0 <= gone <= order.len(),
            sorted == named(order),
            queue@.len() == order.len() - gone,
            forall|i: int|
                0 <= i < queue@.len() ==> (#[trigger] queue@[i]).deep_view() == order[gone + i],
            ajour.deep_view() == (AjourView {
                themes: before.themes + sorted.take(gone),
                ..before
            }),
        decreases queue@.len(),
    {
        let ghost queue_before = queue@;
        let ghost shown = ajour.themes.deep_view();
        if let Some(theme) = queue.pop_front() {
            assert(theme.deep_view() == order[gone]);
            assert forall|i: int| 0 <= i < queue@.len() implies (#[trigger] queue@[i]).deep_view()
                == order[gone + 1 + i] by {
                assert(queue@[i] == queue_before[i + 1]);
            }
            ajour.themes.push((theme.name.clone(), theme));
            proof {
                assert(ajour.themes.deep_view() =~= shown.push(sorted[gone]));
                assert(shown.push(sorted[gone]) =~= before.themes + sorted.take(gone + 1));
                gone = gone + 1;
            }
        }
    }
    assert(sorted.take(gone) =~= sorted);
    Step::none()
}

} // verus!
