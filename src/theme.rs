//! The light/dark theme, the integer commands that select it, and the state
//! of the tray's theme menu.
use vstd::prelude::*;

verus! {

/// Which of the two icon sequences is shown.
#[derive(Clone, Copy, Debug, PartialEq, Eq, Structural)]
pub enum ThemeMode {
    Light,
    Dark,
}

/// Command value that selects the light theme.
pub const LIGHT_COMMAND: usize = 0;

/// Command value that selects the dark theme (any non-zero value does).
pub const DARK_COMMAND: usize = 1;

/// The theme that a command selects: `0` is light, anything else dark.
pub open spec fn theme_of_command(command: usize) -> ThemeMode {
    if command == LIGHT_COMMAND {
        ThemeMode::Light
    } else {
        ThemeMode::Dark
    }
}

/// The theme after an optional pending command has been applied.
pub open spec fn theme_after(current: ThemeMode, command: Option<usize>) -> ThemeMode {
    match command {
        Some(c) => theme_of_command(c),
        None => current,
    }
}

impl ThemeMode {
    /// Decodes a theme command.
    pub fn from_command(command: usize) -> (r: ThemeMode)
        ensures
            r == theme_of_command(command),
    {
        if command == LIGHT_COMMAND {
            ThemeMode::Light
        } else {
            ThemeMode::Dark
        }
    }

    /// The command that selects this theme.
    pub fn command(self) -> (r: usize)
        ensures
            r == (if self == ThemeMode::Light { LIGHT_COMMAND } else { DARK_COMMAND }),
            theme_of_command(r) == self,
    {
        match self {
            ThemeMode::Light => LIGHT_COMMAND,
            ThemeMode::Dark => DARK_COMMAND,
        }
    }

    /// Applies an optional pending command; with none the theme is kept.
    pub fn apply(self, command: Option<usize>) -> (r: ThemeMode)
        ensures
            r == theme_after(self, command),
    {
        match command {
            Some(c) => ThemeMode::from_command(c),
            None => self,
        }
    }

    /// Whether this is the dark theme.
    pub fn is_dark(self) -> (r: bool)
        ensures
            r == (self == ThemeMode::Dark),
    {
        match self {
            ThemeMode::Light => false,
            ThemeMode::Dark => true,
        }
    }

    /// The theme named by a dark flag.
    pub fn from_dark_flag(dark: bool) -> (r: ThemeMode)
        ensures
            r == (if dark { ThemeMode::Dark } else { ThemeMode::Light }),
    {
        if dark {
            ThemeMode::Dark
        } else {
            ThemeMode::Light
        }
    }
}

/// Check marks and enabled flags of the two theme menu items. The item of the
/// current theme is checked and disabled; the other is unchecked and enabled.
#[derive(Clone, Copy, Debug, PartialEq, Eq, Structural)]
pub struct ThemeMenu {
    pub dark_checked: bool,
    pub dark_enabled: bool,
    pub light_checked: bool,
    pub light_enabled: bool,
}

/// The menu that shows `theme` as the selected one.
pub open spec fn menu_for(theme: ThemeMode) -> ThemeMenu {
    let dark = theme == ThemeMode::Dark;
    ThemeMenu { dark_checked: dark, dark_enabled: !dark, light_checked: !dark, light_enabled: dark }
}

/// What the user's choice of a theme in the menu leads to: the menu to
/// display and the command to send to the animator.
#[derive(Clone, Copy, Debug, PartialEq, Eq, Structural)]
pub struct ThemeSelection {
    pub menu: ThemeMenu,
    pub command: usize,
}

impl ThemeMenu {
    /// The menu that shows `theme` as the selected one.
    pub fn showing(theme: ThemeMode) -> (r: ThemeMenu)
        ensures
            r == menu_for(theme),
    {
        let dark = theme.is_dark();
        ThemeMenu { dark_checked: dark, dark_enabled: !dark, light_checked: !dark, light_enabled: dark }
    }

    /// The menu as the tray starts: light selected.
    pub fn initial() -> (r: ThemeMenu)
        ensures
            r == menu_for(ThemeMode::Light),
    {
        ThemeMenu::showing(ThemeMode::Light)
    }
}

/// The user picked `theme` in the menu: show it as selected and send its
/// command.
pub fn select_theme(theme: ThemeMode) -> (r: ThemeSelection)
    ensures
        r.menu == menu_for(theme),
        theme_of_command(r.command) == theme,
        r.command == (if theme == ThemeMode::Dark { DARK_COMMAND } else { LIGHT_COMMAND }),
{
    ThemeSelection { menu: ThemeMenu::showing(theme), command: theme.command() }
}

} // verus!
