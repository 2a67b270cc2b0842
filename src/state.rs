use vstd::prelude::*;
use vstd::string::*;

verus! {

/// Whether two texts are the same.
fn text_is(s: &str, lit: &str) -> (r: bool)
    ensures
        r == (s@ == lit@),
{
    let a = String::from_str(s);
    let b = String::from_str(lit);
    a == b
}

/// The file system that the database lives on.
#[derive(Debug, Clone, Copy, PartialEq, Eq, Structural)]
pub enum Vfs {
    Memory,
    OPFS,
}

impl Vfs {
    /// The label of this file system.
    pub fn value(&self) -> (r: String)
        ensures
            *self == Vfs::Memory ==> r@ == "Memory"@,
            *self == Vfs::OPFS ==> r@ == "OPFS"@,
    {
        match self {
            Vfs::Memory => String::from_str("Memory"),
            Vfs::OPFS => String::from_str("OPFS"),
        }
    }
}

/// A pane that can hold the focus.
#[derive(Debug, Clone, Copy, PartialEq, Eq, Hash, Structural)]
pub enum Focus {
    Execute,
    Share,
    Status,
}

/// The colour theme: following the system (resolved to light or dark), or fixed.
#[derive(Debug, Clone, Copy, PartialEq, Eq, Structural)]
pub enum Theme {
    System,
    SystemLight,
    SystemDark,
    Light,
    Dark,
}

/// The texts a theme selector offers.
pub open spec fn theme_choice(s: Seq<char>) -> bool {
    s == "System"@ || s == "Light"@ || s == "Dark"@
}

impl Theme {
    /// Whether the theme follows the system.
    pub fn is_system(&self) -> (r: bool)
        ensures
            r == (*self == Theme::System || *self == Theme::SystemLight || *self == Theme::SystemDark),
    {
        match self {
            Theme::System | Theme::SystemLight | Theme::SystemDark => true,
            _ => false,
        }
    }

    /// The theme a selector text names.
    pub fn from_select(s: &str) -> (r: Theme)
        requires
            theme_choice(s@),
        ensures
            s@ == "System"@ ==> r == Theme::System,
            s@ == "Light"@ ==> r == Theme::Light,
            s@ == "Dark"@ ==> r == Theme::Dark,
    {
        proof {
            reveal_strlit("System");
            reveal_strlit("Light");
            reveal_strlit("Dark");
            assert("Light"@[0] != "System"@[0]);
            assert("Dark"@[0] != "System"@[0]);
            assert("Dark"@[0] != "Light"@[0]);
        }
        if text_is(s, "System") {
            Theme::System
        } else if text_is(s, "Light") {
            Theme::Light
        } else {
            Theme::Dark
        }
    }

    /// The theme in effect: following the system, it is dark when the system asks
    /// for a dark scheme (`prefers_dark`, when that can be asked) and light
    /// otherwise; a fixed theme stays as it is.
    pub fn value(&self, prefers_dark: Option<bool>) -> (r: Theme)
        ensures
            *self == Theme::System ==> r == (if prefers_dark == Some(true) {
                Theme::SystemDark
            } else {
                Theme::SystemLight
            }),
            *self != Theme::System ==> r == *self,
    {
        match self {
            Theme::System => match prefers_dark {
                Some(true) => Theme::SystemDark,
                _ => Theme::SystemLight,
            },
            _ => *self,
        }
    }

    /// The selector text of this theme.
    pub fn select(&self) -> (r: String)
        ensures
            self.is_system_spec() ==> r@ == "System"@,
            *self == Theme::Light ==> r@ == "Light"@,
            *self == Theme::Dark ==> r@ == "Dark"@,
    {
        match self {
            Theme::System | Theme::SystemLight | Theme::SystemDark => String::from_str("System"),
            Theme::Light => String::from_str("Light"),
            Theme::Dark => String::from_str("Dark"),
        }
    }

    pub open spec fn is_system_spec(&self) -> bool {
        *self == Theme::System || *self == Theme::SystemLight || *self == Theme::SystemDark
    }
}

/// The layout of the panes: automatic (resolved to one of two), or fixed.
#[derive(Debug, Clone, Copy, PartialEq, Eq, Structural)]
pub enum Orientation {
    Automatic,
    AutoHorizontal,
    AutoVertical,
    Horizontal,
    Vertical,
}

/// The texts a layout selector offers.
pub open spec fn orientation_choice(s: Seq<char>) -> bool {
    s == "Automatic"@ || s == "Horizontal"@ || s == "Vertical"@
}

impl Orientation {
    pub open spec fn is_auto_spec(&self) -> bool {
        *self == Orientation::Automatic || *self == Orientation::AutoVertical || *self
            == Orientation::AutoHorizontal
    }

    /// Whether the layout is chosen automatically.
    pub fn is_auto(&self) -> (r: bool)
        ensures
            r == self.is_auto_spec(),
    {
        match self {
            Orientation::Automatic | Orientation::AutoVertical | Orientation::AutoHorizontal => true,
            _ => false,
        }
    }

    /// The layout a selector text names.
    pub fn from_select(s: &str) -> (r: Orientation)
        requires
            orientation_choice(s@),
        ensures
            s@ == "Automatic"@ ==> r == Orientation::Automatic,
            s@ == "Horizontal"@ ==> r == Orientation::Horizontal,
            s@ == "Vertical"@ ==> r == Orientation::Vertical,
    {
        proof {
            reveal_strlit("Automatic");
            reveal_strlit("Horizontal");
            reveal_strlit("Vertical");
            assert("Horizontal"@[0] != "Automatic"@[0]);
            assert("Vertical"@[0] != "Automatic"@[0]);
            assert("Vertical"@[0] != "Horizontal"@[0]);
        }
        if text_is(s, "Automatic") {
            Orientation::Automatic
        } else if text_is(s, "Horizontal") {
            Orientation::Horizontal
        } else {
            Orientation::Vertical
        }
    }

    /// The layout in effect: chosen automatically, it is horizontal when the window
    /// is narrow (`narrow`, when that can be asked) and vertical otherwise; a fixed
    /// layout stays as it is.
    pub fn value(&self, narrow: Option<bool>) -> (r: Orientation)
        ensures
            *self == Orientation::Automatic ==> r == (if narrow == Some(true) {
                Orientation::AutoHorizontal
            } else {
                Orientation::AutoVertical
            }),
            *self != Orientation::Automatic ==> r == *self,
    {
        match self {
            Orientation::Automatic => match narrow {
                Some(true) => Orientation::AutoHorizontal,
                _ => Orientation::AutoVertical,
            },
            _ => *self,
        }
    }

    /// The selector text of this layout.
    pub fn select(&self) -> (r: String)
        ensures
            self.is_auto_spec() ==> r@ == "Automatic"@,
            *self == Orientation::Horizontal ==> r@ == "Horizontal"@,
            *self == Orientation::Vertical ==> r@ == "Vertical"@,
    {
        match self {
            Orientation::Automatic | Orientation::AutoVertical | Orientation::AutoHorizontal => {
                String::from_str("Automatic")
            },
            Orientation::Horizontal => String::from_str("Horizontal"),
            Orientation::Vertical => String::from_str("Vertical"),
        }
    }
}

/// Editor settings: the key binding and the light and dark themes.
#[derive(Debug, Clone)]
pub struct EditorConfig {
    pub keyboard: String,
    pub light_theme: String,
    pub dark_theme: String,
}

impl Default for EditorConfig {
    fn default() -> (r: EditorConfig)
        ensures
            r.keyboard@ == "ace"@,
            r.light_theme@ == "github"@,
            r.dark_theme@ == "github_dark"@,
    {
        EditorConfig {
            keyboard: String::from_str("ace"),
            light_theme: String::from_str("github"),
            dark_theme: String::from_str("github_dark"),
        }
    }
}

/// A position in the editor's text.
#[derive(Debug, Clone, Copy, PartialEq, Eq, Structural)]
pub struct Point {
    pub row: usize,
    pub column: usize,
}

/// A span of the editor's text.
#[derive(Debug, Clone, Copy, PartialEq, Eq, Structural)]
pub struct Range {
    pub start: Point,
    pub end: Point,
}

/// Key bindings of an editor command on each platform.
#[derive(Debug, Clone)]
pub struct BindKey {
    pub win: String,
    pub mac: String,
}

} // verus!
