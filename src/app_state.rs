use vstd::prelude::*;
use vstd::string::StringExecFns;

use crate::logos::{logo_size, logo_text, next_logo, LogoKind};

verus! {

/// The two accent colours the dashboard draws in.
#[derive(Debug, Clone, Copy, PartialEq, Eq, Structural)]
pub enum FgColor {
    SolaaraGold,
    LightMagenta,
}

pub open spec fn next_color(c: FgColor) -> FgColor {
    match c {
        FgColor::SolaaraGold => FgColor::LightMagenta,
        FgColor::LightMagenta => FgColor::SolaaraGold,
    }
}

impl FgColor {
    /// The colour that comes next when cycling.
    pub fn next(&self) -> (r: FgColor)
        ensures
            r == next_color(*self),
    {
        match self {
            FgColor::SolaaraGold => FgColor::LightMagenta,
            FgColor::LightMagenta => FgColor::SolaaraGold,
        }
    }
}

/// One input event, as the terminal reported it within a poll.
#[derive(Debug, Clone, Copy, PartialEq, Eq, Structural)]
pub enum InputEvent {
    /// A key went down; `None` for a key that types no character.
    KeyPress(Option<char>),
    /// Anything else: a key release or repeat, a resize, the mouse, focus.
    Other,
}

/// What the loop does after an input poll.
#[derive(Debug, Clone, Copy, PartialEq, Eq, Structural)]
pub enum LoopAction {
    Continue,
    Quit,
}

/// Whether the layout engine could place the graph in the space it was given.
#[derive(Debug, Clone, Copy, PartialEq, Eq, Structural)]
pub enum LayoutOutcome {
    Placed,
    TooSmall,
}

/// What the body of a frame shows.
#[derive(Debug, Clone, Copy, PartialEq, Eq, Structural)]
pub enum FrameContent {
    /// The boxes and their edges, where the layout engine put them.
    Graph,
    /// Only the request to enlarge the window.
    Advisory,
}

pub open spec fn quit_key(e: InputEvent) -> bool {
    e == InputEvent::KeyPress(Some('q'))
}

pub open spec fn logo_key(e: InputEvent) -> bool {
    e == InputEvent::KeyPress(Some('l'))
}

pub open spec fn color_key(e: InputEvent) -> bool {
    e == InputEvent::KeyPress(Some('c'))
}

/// The banner after an event: the cycle key moves to the next one.
pub open spec fn logo_after(logo: LogoKind, e: Option<InputEvent>) -> LogoKind {
    match e {
        Some(ev) => if logo_key(ev) {
            next_logo(logo)
        } else {
            logo
        },
        None => logo,
    }
}

/// The accent colour after an event: the cycle key moves to the next one.
pub open spec fn color_after(color: FgColor, e: Option<InputEvent>) -> FgColor {
    match e {
        Some(ev) => if color_key(ev) {
            next_color(color)
        } else {
            color
        },
        None => color,
    }
}

/// Whether a redraw is due after an event: any event but the quit key asks for
/// one (a resize reaches the loop as an ordinary event); a quiet poll keeps
/// what was due.
pub open spec fn dirty_after(dirty: bool, e: Option<InputEvent>) -> bool {
    match e {
        Some(ev) => if quit_key(ev) {
            dirty
        } else {
            true
        },
        None => dirty,
    }
}

/// Pressing the banner key twice in a row brings the first banner back, and
/// each press on its own asks for a frame, also right after one was drawn.
pub proof fn law_logo_key_twice(logo: LogoKind, dirty: bool)
    ensures
        logo_after(
            logo_after(logo, Some(InputEvent::KeyPress(Some('l')))),
            Some(InputEvent::KeyPress(Some('l'))),
        ) == logo,
        logo_after(logo, Some(InputEvent::KeyPress(Some('l')))) != logo,
        dirty_after(dirty, Some(InputEvent::KeyPress(Some('l')))),
        dirty_after(false, Some(InputEvent::KeyPress(Some('l')))),
{
}

/// The text of the advisory shown in place of a graph that does not fit.
pub open spec fn advisory_text() -> Seq<char> {
    "Window too small. Resize it to show system graph."@
}

/// The dashboard's state between frames: the banner with its text and size,
/// the accent colour, and whether the next frame must be drawn.
pub struct AppState {
    current_logo: LogoKind,
    logo_text: String,
    logo_text_width: usize,
    logo_text_height: usize,
    fg_color: FgColor,
    needs_to_redraw: bool,
}

impl AppState {
    /// The banner's text and size are always those of the active banner.
    #[verifier::type_invariant]
    spec fn banner_matches(self) -> bool {
        &&& (self.logo_text_width, self.logo_text_height) == logo_size(self.current_logo)
        &&& exists|year: Seq<char>| self.logo_text@ == #[trigger] logo_text(self.current_logo, year)
    }

    pub closed spec fn logo(self) -> LogoKind {
        self.current_logo
    }

    pub closed spec fn color(self) -> FgColor {
        self.fg_color
    }

    pub closed spec fn dirty(self) -> bool {
        self.needs_to_redraw
    }

    pub closed spec fn banner(self) -> Seq<char> {
        self.logo_text@
    }

    pub closed spec fn banner_size(self) -> (usize, usize) {
        (self.logo_text_width, self.logo_text_height)
    }

    /// A fresh state: the given banner and colour, with a frame due.
    pub fn init(logo_kind: LogoKind, fg_color: FgColor) -> (r: Self)
        ensures
            r.logo() == logo_kind,
            r.color() == fg_color,
            r.dirty(),
            r.banner_size() == logo_size(logo_kind),
    {
        let (logo_text, logo_text_width, logo_text_height) = Self::generate_logo_data(logo_kind);
        AppState {
            current_logo: logo_kind,
            logo_text,
            logo_text_width,
            logo_text_height,
            fg_color,
            needs_to_redraw: true,
        }
    }

    fn generate_logo_data(logo_kind: LogoKind) -> (r: (String, usize, usize))
        ensures
            exists|year: Seq<char>| r.0@ == #[trigger] logo_text(logo_kind, year),
            (r.1, r.2) == logo_size(logo_kind),
    {
        logo_kind.get_rendered()
    }

    /// Switches to another banner; asking for the active one changes nothing.
    pub fn update_logo(&mut self, logo_kind: LogoKind)
        ensures
            final(self).logo() == logo_kind,
            final(self).color() == old(self).color(),
            final(self).dirty() == old(self).dirty(),
            final(self).banner_size() == logo_size(logo_kind),
            old(self).logo() == logo_kind ==> final(self).banner() == old(self).banner(),
    {
        if self.current_logo == logo_kind {
            proof {
                use_type_invariant(&*self);
            }
            return ;
        }
        let (logo_text, logo_text_width, logo_text_height) = Self::generate_logo_data(logo_kind);
        *self = AppState {
            current_logo: logo_kind,
            logo_text,
            logo_text_width,
            logo_text_height,
            fg_color: self.fg_color,
            needs_to_redraw: self.needs_to_redraw,
        };
    }

    fn update_fg_color(&mut self, new_color: FgColor)
        ensures
            final(self).color() == new_color,
            final(self).logo() == old(self).logo(),
            final(self).banner() == old(self).banner(),
            final(self).banner_size() == old(self).banner_size(),
            final(self).dirty() == old(self).dirty(),
    {
        proof {
            use_type_invariant(&*self);
        }
        self.fg_color = new_color;
    }

    fn cycle_next_logo(&mut self)
        ensures
            final(self).logo() == next_logo(old(self).logo()),
            final(self).color() == old(self).color(),
            final(self).dirty() == old(self).dirty(),
            final(self).banner_size() == logo_size(final(self).logo()),
    {
        let next = self.current_logo.next();
        self.update_logo(next);
    }

    fn cycle_next_color(&mut self)
        ensures
            final(self).color() == next_color(old(self).color()),
            final(self).logo() == old(self).logo(),
            final(self).banner() == old(self).banner(),
            final(self).banner_size() == old(self).banner_size(),
            final(self).dirty() == old(self).dirty(),
    {
        let next = self.fg_color.next();
        self.update_fg_color(next);
    }

    /// Applies what one input poll brought (`None`: nothing came in time).
    pub fn handle_event(&mut self, event: Option<InputEvent>) -> (r: LoopAction)
        ensures
            (r == LoopAction::Quit) <==> (event matches Some(e) && quit_key(e)),
            final(self).logo() == logo_after(old(self).logo(), event),
            final(self).color() == color_after(old(self).color(), event),
            final(self).dirty() == dirty_after(old(self).dirty(), event),
            final(self).banner_size() == logo_size(final(self).logo()),
            final(self).logo() == old(self).logo() ==> final(self).banner() == old(self).banner(),
    {
        proof {
            use_type_invariant(&*self);
        }
        match event {
            None => LoopAction::Continue,
            Some(e) => {
                match e {
                    InputEvent::KeyPress(Some(c)) => {
                        if c == 'q' {
                            return LoopAction::Quit;
                        } else if c == 'c' {
                            self.cycle_next_color();
                        } else if c == 'l' {
                            self.cycle_next_logo();
                        }
                    },
                    _ => {},
                }
                proof {
                    use_type_invariant(&*self);
                }
                self.needs_to_redraw = true;
                LoopAction::Continue
            },
        }
    }

    /// Closes a frame: the body shows the graph only where the layout engine
    /// placed it, else the advisory alone; either way no frame is due after.
    pub fn finish_redraw(&mut self, layout: LayoutOutcome) -> (r: FrameContent)
        ensures
            r == (if layout == LayoutOutcome::Placed {
                FrameContent::Graph
            } else {
                FrameContent::Advisory
            }),
            !final(self).dirty(),
            final(self).logo() == old(self).logo(),
            final(self).color() == old(self).color(),
            final(self).banner() == old(self).banner(),
            final(self).banner_size() == old(self).banner_size(),
    {
        proof {
            use_type_invariant(&*self);
        }
        self.needs_to_redraw = false;
        match layout {
            LayoutOutcome::Placed => FrameContent::Graph,
            LayoutOutcome::TooSmall => FrameContent::Advisory,
        }
    }
}

/// The title on the frame round the graph: the host name with a space on each
/// side.
pub fn frame_title(hostname: &str) -> (r: String)
    ensures
        r@ == seq![' '] + hostname@ + seq![' '],
{
    let mut r = String::from_str(" ");
    r.append(hostname);
    r.append(" ");
    proof {
        reveal_strlit(" ");
    }
    assert(r@ =~= seq![' '] + hostname@ + seq![' ']);
    r
}

/// The advisory shown in place of a graph that does not fit.
pub fn advisory() -> (r: &'static str)
    ensures
        r@ == advisory_text(),
{
    "Window too small. Resize it to show system graph."
}

impl AppState {
    /// The active banner.
    pub fn current_logo(&self) -> (r: LogoKind)
        ensures
            r == self.logo(),
    {
        self.current_logo
    }

    /// The accent colour.
    pub fn fg_color(&self) -> (r: FgColor)
        ensures
            r == self.color(),
    {
        self.fg_color
    }

    /// Whether the next frame must be drawn.
    pub fn needs_to_redraw(&self) -> (r: bool)
        ensures
            r == self.dirty(),
    {
        self.needs_to_redraw
    }

    /// The banner's text: the active banner's, for some year.
    pub fn logo_text(&self) -> (r: &str)
        ensures
            r@ == self.banner(),
            exists|year: Seq<char>| r@ == #[trigger] logo_text(self.logo(), year),
    {
        proof {
            use_type_invariant(self);
        }
        self.logo_text.as_str()
    }

    /// The banner's width and height: those of the active banner.
    pub fn logo_dimensions(&self) -> (r: (usize, usize))
        ensures
            r == self.banner_size(),
            r == logo_size(self.logo()),
    {
        proof {
            use_type_invariant(self);
        }
        (self.logo_text_width, self.logo_text_height)
    }
}

} // verus!
