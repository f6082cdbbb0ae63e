//! Key-to-action mapping. The key model holds what the mapping reads of a
//! terminal key event: the character with its control modifier, or one of
//! the few special keys used; the runner converts the terminal library's
//! events into it.

use vstd::prelude::*;

verus! {

/// A pressed key, as far as the mapping cares.
#[derive(Debug, Clone, Copy, PartialEq, Eq, Structural)]
pub enum Key {
    /// A character key, with whether control was held.
    Char(char, bool),
    Up,
    Down,
    Enter,
    Esc,
    /// Any other key.
    Other,
}

/// A discrete command sent into the controller's command path.
#[derive(Debug, Clone, PartialEq, Eq, Structural)]
pub enum Action {
    Quit,
    TogglePlayPause,
    VolumeUp,
    VolumeDown,
    ToggleMute,
    ToggleFavorite,
    NextStation,
    PrevStation,
    SelectStation,
    GoToTop,
    GoToBottom,
    ToggleSortMode,
    ToggleVisualizer,
    CycleVisualization,
    ToggleArtwork,
    ToggleHistory,
    QualityUp,
    QualityDown,
    ToggleHelp,
    ToggleTheme,
    Refresh,
    CloseOverlay,
}

/// The action a key denotes. While the help overlay is shown, any key
/// closes it.
pub open spec fn spec_handle_key(key: Key, show_help: bool) -> Option<Action> {
    if show_help {
        Some(Action::CloseOverlay)
    } else {
        match key {
            Key::Esc => Some(Action::Quit),
            Key::Enter => Some(Action::SelectStation),
            Key::Down => Some(Action::NextStation),
            Key::Up => Some(Action::PrevStation),
            Key::Char(c, ctrl) => if c == 'q' {
                Some(Action::Quit)
            } else if c == 'c' && ctrl {
                Some(Action::Quit)
            } else if c == 'p' || c == ' ' {
                Some(Action::TogglePlayPause)
            } else if c == '+' || c == '=' {
                Some(Action::VolumeUp)
            } else if c == '-' || c == '_' {
                Some(Action::VolumeDown)
            } else if c == 'm' {
                Some(Action::ToggleMute)
            } else if c == 'j' {
                Some(Action::NextStation)
            } else if c == 'k' {
                Some(Action::PrevStation)
            } else if c == 'g' {
                Some(Action::GoToTop)
            } else if c == 'G' {
                Some(Action::GoToBottom)
            } else if c == 'f' {
                Some(Action::ToggleFavorite)
            } else if c == 's' {
                Some(Action::ToggleSortMode)
            } else if c == 't' {
                Some(Action::ToggleTheme)
            } else if c == 'v' {
                Some(Action::CycleVisualization)
            } else if c == 'V' {
                Some(Action::ToggleVisualizer)
            } else if c == 'a' {
                Some(Action::ToggleArtwork)
            } else if c == 'r' {
                Some(Action::ToggleHistory)
            } else if c == '>' || c == '.' {
                Some(Action::QualityUp)
            } else if c == '<' || c == ',' {
                Some(Action::QualityDown)
            } else if c == 'R' {
                Some(Action::Refresh)
            } else if c == '?' {
                Some(Action::ToggleHelp)
            } else {
                None
            },
            Key::Other => None,
        }
    }
}

/// Maps one key press to the action it commands, if any.
pub fn handle_key(key: Key, show_help: bool) -> (r: Option<Action>)
    ensures
        r == spec_handle_key(key, show_help),
{
    if show_help {
        return Some(Action::CloseOverlay);
    }
    match key {
        Key::Esc => Some(Action::Quit),
        Key::Enter => Some(Action::SelectStation),
        Key::Down => Some(Action::NextStation),
        Key::Up => Some(Action::PrevStation),
        Key::Char(c, ctrl) => {
            if c == 'q' {
                Some(Action::Quit)
            } else if c == 'c' && ctrl {
                Some(Action::Quit)
            } else if c == 'p' || c == ' ' {
                Some(Action::TogglePlayPause)
            } else if c == '+' || c == '=' {
                Some(Action::VolumeUp)
            } else if c == '-' || c == '_' {
                Some(Action::VolumeDown)
            } else if c == 'm' {
                Some(Action::ToggleMute)
            } else if c == 'j' {
                Some(Action::NextStation)
            } else if c == 'k' {
                Some(Action::PrevStation)
            } else if c == 'g' {
                Some(Action::GoToTop)
            } else if c == 'G' {
                Some(Action::GoToBottom)
            } else if c == 'f' {
                Some(Action::ToggleFavorite)
            } else if c == 's' {
                Some(Action::ToggleSortMode)
            } else if c == 't' {
                Some(Action::ToggleTheme)
            } else if c == 'v' {
                Some(Action::CycleVisualization)
            } else if c == 'V' {
                Some(Action::ToggleVisualizer)
            } else if c == 'a' {
                Some(Action::ToggleArtwork)
            } else if c == 'r' {
                Some(Action::ToggleHistory)
            } else if c == '>' || c == '.' {
                Some(Action::QualityUp)
            } else if c == '<' || c == ',' {
                Some(Action::QualityDown)
            } else if c == 'R' {
                Some(Action::Refresh)
            } else if c == '?' {
                Some(Action::ToggleHelp)
            } else {
                None
            }
        },
        Key::Other => None,
    }
}

} // verus!
