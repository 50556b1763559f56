//! The colours of the listing: the elements a row is made of, the theme that
//! gives each of them a colour, and the colour database of the environment
//! that may override it.

use crate::git::GitStatus;
use crate::terminal::{indicator_style, path_style};
use lscolors::{Indicator, LsColors};
use vstd::prelude::*;

verus! {

/// A display element that gets its own colour.
#[derive(Clone, Copy, Debug, PartialEq, Eq, Structural, Hash)]
pub enum Elem {
    /// Node type
    File { executable: bool, uid: bool },
    SymLink,
    BrokenSymLink,
    Dir { uid: bool },
    Pipe,
    BlockDevice,
    CharDevice,
    Socket,
    Special,
    /// Permissions
    Read,
    Write,
    Exec,
    ExecSticky,
    NoAccess,
    /// Last Time Modified
    DayOld,
    HourOld,
    Older,
    /// User / Group Name
    User,
    Group,
    /// File Size
    NonFile,
    FileLarge,
    FileMedium,
    FileSmall,
    /// INode
    INode { valid: bool },
    Links { valid: bool },
    TreeEdge,
    /// Version-control status of one side of an entry
    GitStatus { status: GitStatus },
}

impl Elem {
    /// The element is a file or directory with the set-user-id bit.
    pub open spec fn has_suid_spec(self) -> bool {
        match self {
            Elem::Dir { uid } => uid,
            Elem::File { uid, .. } => uid,
            _ => false,
        }
    }

    pub fn has_suid(&self) -> (r: bool)
        ensures
            r == self.has_suid_spec(),
    {
        match self {
            Elem::Dir { uid } => *uid,
            Elem::File { uid, .. } => *uid,
            _ => false,
        }
    }
}

/// Which colours a listing uses.
#[derive(Clone, Copy, Debug, PartialEq, Eq, Structural)]
pub enum Theme {
    /// No colour at all.
    NoColor,
    /// The built-in palette, overridden by the environment's colour database.
    Default,
    /// The built-in palette alone.
    NoLscolors,
}

/// A terminal colour.
#[derive(Clone, Copy, Debug, PartialEq, Eq, Structural, Hash)]
pub enum TermColour {
    Black,
    Red,
    Green,
    Yellow,
    Blue,
    Purple,
    Cyan,
    White,
    /// A colour of the 256-colour table.
    Fixed(u8),
    /// A colour given by its red, green and blue parts.
    RGB(u8, u8, u8),
}

/// How a piece of text is painted on a terminal.
#[derive(Clone, Copy, Debug, PartialEq, Eq, Structural, Hash)]
pub struct TermStyle {
    pub foreground: Option<TermColour>,
    pub background: Option<TermColour>,
    pub is_bold: bool,
    pub is_dimmed: bool,
    pub is_italic: bool,
    pub is_underline: bool,
    pub is_blink: bool,
    pub is_reverse: bool,
    pub is_hidden: bool,
    pub is_strikethrough: bool,
}

impl TermStyle {
    /// No colour and no attribute.
    pub open spec fn plain() -> TermStyle {
        TermStyle {
            foreground: None,
            background: None,
            is_bold: false,
            is_dimmed: false,
            is_italic: false,
            is_underline: false,
            is_blink: false,
            is_reverse: false,
            is_hidden: false,
            is_strikethrough: false,
        }
    }

    /// Text in the colour `c`, nothing else.
    pub open spec fn foreground_spec(c: TermColour) -> TermStyle {
        TermStyle { foreground: Some(c), ..TermStyle::plain() }
    }

    /// This style on the background colour `c`.
    pub open spec fn on_spec(self, c: TermColour) -> TermStyle {
        TermStyle { background: Some(c), ..self }
    }
}

impl Default for TermStyle {
    fn default() -> (r: TermStyle)
        ensures
            r == TermStyle::plain(),
    {
        TermStyle {
            foreground: None,
            background: None,
            is_bold: false,
            is_dimmed: false,
            is_italic: false,
            is_underline: false,
            is_blink: false,
            is_reverse: false,
            is_hidden: false,
            is_strikethrough: false,
        }
    }
}

/// A piece of text together with the style to paint it in.
pub struct ColoredString {
    pub style: TermStyle,
    pub text: String,
}

/// The colour that the light theme gives each element. Every element has
/// one.
pub open spec fn light_theme_colour(e: Elem) -> TermColour {
    match e {
        Elem::User => TermColour::Fixed(230),
        Elem::Group => TermColour::Fixed(187),
        Elem::Read => TermColour::Green,
        Elem::Write => TermColour::Yellow,
        Elem::Exec => TermColour::Red,
        Elem::ExecSticky => TermColour::Purple,
        Elem::NoAccess => TermColour::Fixed(245),
        Elem::File { executable, .. } => if executable {
            TermColour::Fixed(40)
        } else {
            TermColour::Fixed(184)
        },
        Elem::Dir { .. } => TermColour::Fixed(33),
        Elem::Pipe => TermColour::Fixed(44),
        Elem::SymLink => TermColour::Fixed(44),
        Elem::BrokenSymLink => TermColour::Fixed(124),
        Elem::BlockDevice => TermColour::Fixed(44),
        Elem::CharDevice => TermColour::Fixed(172),
        Elem::Socket => TermColour::Fixed(44),
        Elem::Special => TermColour::Fixed(44),
        Elem::HourOld => TermColour::Fixed(40),
        Elem::DayOld => TermColour::Fixed(42),
        Elem::Older => TermColour::Fixed(36),
        Elem::NonFile => TermColour::Fixed(245),
        Elem::FileSmall => TermColour::Fixed(229),
        Elem::FileMedium => TermColour::Fixed(216),
        Elem::FileLarge => TermColour::Fixed(172),
        Elem::INode { valid } => if valid {
            TermColour::Fixed(13)
        } else {
            TermColour::Fixed(245)
        },
        Elem::Links { valid } => if valid {
            TermColour::Fixed(13)
        } else {
            TermColour::Fixed(245)
        },
        Elem::TreeEdge => TermColour::Fixed(44),
        Elem::GitStatus { status } => match status {
            GitStatus::Default => TermColour::White,
            GitStatus::Unmodified => TermColour::White,
            GitStatus::Ignored => TermColour::Fixed(245),
            GitStatus::NewInIndex => TermColour::Green,
            GitStatus::NewInWorkdir => TermColour::White,
            GitStatus::Typechange => TermColour::White,
            GitStatus::Deleted => TermColour::Red,
            GitStatus::Renamed => TermColour::Fixed(172),
            GitStatus::Modified => TermColour::Blue,
            GitStatus::Conflicted => TermColour::Red,
        },
    }
}

/// The code under which the environment's colour database may hold a style
/// for the element; none for the elements it has no entry for.
pub open spec fn indicator_code(e: Elem) -> Option<&'static str> {
    match e {
        Elem::File { executable, uid } => if uid {
            None
        } else if executable {
            Some("ex")
        } else {
            Some("fi")
        },
        Elem::Dir { uid } => if uid {
            None
        } else {
            Some("di")
        },
        Elem::SymLink => Some("ln"),
        Elem::Pipe => Some("pi"),
        Elem::Socket => Some("so"),
        Elem::BlockDevice => Some("bd"),
        Elem::CharDevice => Some("cd"),
        Elem::BrokenSymLink => Some("or"),
        Elem::INode { valid } => if valid {
            Some("so")
        } else {
            Some("no")
        },
        Elem::Links { valid } => if valid {
            Some("so")
        } else {
            Some("no")
        },
        _ => None,
    }
}

/// The colours for one listing: whether the built-in palette is used, and
/// the environment's colour database if it is consulted.
pub struct Colors {
    palette: bool,
    lscolors: Option<LsColors>,
}

impl Colors {
    /// The built-in palette colours the elements.
    pub closed spec fn uses_palette(&self) -> bool {
        self.palette
    }

    /// The environment's colour database is consulted first.
    pub closed spec fn uses_lscolors(&self) -> bool {
        self.lscolors.is_some()
    }

    /// The style an element gets from the palette alone: its colour on a
    /// red background where the set-user-id bit is set; plain without a
    /// palette.
    pub open spec fn style_default_spec(&self, elem: Elem) -> TermStyle {
        if self.uses_palette() {
            let fg = TermStyle::foreground_spec(light_theme_colour(elem));
            if elem.has_suid_spec() {
                fg.on_spec(TermColour::Fixed(124))
            } else {
                fg
            }
        } else {
            TermStyle::plain()
        }
    }

    /// The style of an element where the colour database has no say in it:
    /// there is no database, or it keeps no entry for the element.
    pub open spec fn decided_by_palette(&self, elem: Elem) -> bool {
        !self.uses_lscolors() || indicator_code(elem).is_none()
    }

    pub fn new(theme: Theme) -> (r: Colors)
        ensures
            r.uses_palette() == (theme != Theme::NoColor),
            r.uses_lscolors() == (theme == Theme::Default),
    {
        let palette = match theme {
            Theme::NoColor => false,
            Theme::Default => true,
            Theme::NoLscolors => true,
        };
        let lscolors = match theme {
            Theme::NoColor => None,
            Theme::Default => Some(
                match LsColors::from_env() {
                    Some(l) => l,
                    None => LsColors::default(),
                },
            ),
            Theme::NoLscolors => None,
        };
        Colors { palette, lscolors }
    }

    /// The text painted in the element's style.
    pub fn colorize(&self, input: String, elem: &Elem) -> (r: ColoredString)
        ensures
            r.text == input,
            self.decided_by_palette(*elem) ==> r.style == self.style_default_spec(*elem),
    {
        ColoredString { style: self.style(elem), text: input }
    }

    /// The text painted in the style the colour database gives the path,
    /// where it gives one, else in the element's style.
    pub fn colorize_using_path(&self, input: String, path: &str, elem: &Elem) -> (r: ColoredString)
        ensures
            r.text == input,
            !self.uses_lscolors() ==> r.style == self.style_default_spec(*elem),
    {
        let style_from_path = self.style_from_path(path);
        self.colorize_with_path_style(input, style_from_path, elem)
    }

    /// The text painted in `path_style` where there is one: a style found
    /// for the path wins outright over the element's.
    pub fn colorize_with_path_style(&self, input: String, path_style: Option<TermStyle>, elem: &Elem) -> (r: ColoredString)
        ensures
            r.text == input,
            path_style.is_some() ==> r.style == path_style.unwrap(),
            path_style.is_none() && self.decided_by_palette(*elem) ==> r.style == self.style_default_spec(*elem),
    {
        match path_style {
            Some(style) => ColoredString { style, text: input },
            None => self.colorize(input, elem),
        }
    }

    fn style_from_path(&self, path: &str) -> (r: Option<TermStyle>)
        ensures
            !self.uses_lscolors() ==> r.is_none(),
    {
        match &self.lscolors {
            Some(lscolors) => path_style(lscolors, path),
            None => None,
        }
    }

    fn style(&self, elem: &Elem) -> (r: TermStyle)
        ensures
            self.decided_by_palette(*elem) ==> r == self.style_default_spec(*elem),
    {
        match &self.lscolors {
            Some(lscolors) => match self.get_indicator_from_elem(elem) {
                Some(indicator) => match indicator_style(lscolors, indicator) {
                    Some(style) => style,
                    None => TermStyle::default(),
                },
                None => self.style_default(elem),
            },
            None => self.style_default(elem),
        }
    }

    fn style_default(&self, elem: &Elem) -> (r: TermStyle)
        ensures
            r == self.style_default_spec(*elem),
    {
        if self.palette {
            let style_fg = TermStyle { foreground: Some(Self::get_light_theme_colour(elem)), ..TermStyle::default() };
            if elem.has_suid() {
                TermStyle { background: Some(TermColour::Fixed(124)), ..style_fg }
            } else {
                style_fg
            }
        } else {
            TermStyle::default()
        }
    }

    /// The colour database's entry for the element, if it has a code there.
    fn get_indicator_from_elem(&self, elem: &Elem) -> (r: Option<Indicator>)
        ensures
            indicator_code(*elem).is_none() ==> r.is_none(),
    {
        let indicator_string: Option<&'static str> = match elem {
            Elem::File { executable, uid } => if *uid {
                None
            } else if *executable {
                Some("ex")
            } else {
                Some("fi")
            },
            Elem::Dir { uid } => if *uid {
                None
            } else {
                Some("di")
            },
            Elem::SymLink => Some("ln"),
            Elem::Pipe => Some("pi"),
            Elem::Socket => Some("so"),
            Elem::BlockDevice => Some("bd"),
            Elem::CharDevice => Some("cd"),
            Elem::BrokenSymLink => Some("or"),
            Elem::INode { valid } => if *valid {
                Some("so")
            } else {
                Some("no")
            },
            Elem::Links { valid } => if *valid {
                Some("so")
            } else {
                Some("no")
            },
            _ => None,
        };
        match indicator_string {
            Some(ids) => Indicator::from(ids),
            None => None,
        }
    }

    /// The colour the light theme gives an element; every element has one.
    pub fn get_light_theme_colour(elem: &Elem) -> (r: TermColour)
        ensures
            r == light_theme_colour(*elem),
    {
        match elem {
            // User / Group
            Elem::User => TermColour::Fixed(230),  // Cornsilk1
            Elem::Group => TermColour::Fixed(187),  // LightYellow3
            // Permissions
            Elem::Read => TermColour::Green,
            Elem::Write => TermColour::Yellow,
            Elem::Exec => TermColour::Red,
            Elem::ExecSticky => TermColour::Purple,
            Elem::NoAccess => TermColour::Fixed(245),  // Grey
            // File Types
            Elem::File { executable, .. } => if *executable {
                TermColour::Fixed(40)  // Green3
            } else {
                TermColour::Fixed(184)  // Yellow3
            },
            Elem::Dir { .. } => TermColour::Fixed(33),  // DodgerBlue1
            Elem::Pipe => TermColour::Fixed(44),  // DarkTurquoise
            Elem::SymLink => TermColour::Fixed(44),  // DarkTurquoise
            Elem::BrokenSymLink => TermColour::Fixed(124),  // Red3
            Elem::BlockDevice => TermColour::Fixed(44),  // DarkTurquoise
            Elem::CharDevice => TermColour::Fixed(172),  // Orange3
            Elem::Socket => TermColour::Fixed(44),  // DarkTurquoise
            Elem::Special => TermColour::Fixed(44),  // DarkTurquoise
            // Last Time Modified
            Elem::HourOld => TermColour::Fixed(40),  // Green3
            Elem::DayOld => TermColour::Fixed(42),  // SpringGreen2
            Elem::Older => TermColour::Fixed(36),  // DarkCyan
            // File Size
            Elem::NonFile => TermColour::Fixed(245),  // Grey
            Elem::FileSmall => TermColour::Fixed(229),  // Wheat1
            Elem::FileMedium => TermColour::Fixed(216),  // LightSalmon1
            Elem::FileLarge => TermColour::Fixed(172),  // Orange3
            // INode
            Elem::INode { valid } => if *valid {
                TermColour::Fixed(13)  // Pink
            } else {
                TermColour::Fixed(245)  // Grey
            },
            Elem::Links { valid } => if *valid {
                TermColour::Fixed(13)
            } else {
                TermColour::Fixed(245)
            },
            Elem::TreeEdge => TermColour::Fixed(44),  // DarkTurquoise
            // Version-control status
            Elem::GitStatus { status } => match status {
                GitStatus::Default => TermColour::White,
                GitStatus::Unmodified => TermColour::White,
                GitStatus::Ignored => TermColour::Fixed(245),  // Grey
                GitStatus::NewInIndex => TermColour::Green,
                GitStatus::NewInWorkdir => TermColour::White,
                GitStatus::Typechange => TermColour::White,
                GitStatus::Deleted => TermColour::Red,
                GitStatus::Renamed => TermColour::Fixed(172),  // Orange3
                GitStatus::Modified => TermColour::Blue,
                GitStatus::Conflicted => TermColour::Red,
            },
        }
    }
}

} // verus!
