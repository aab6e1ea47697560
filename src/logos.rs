use vstd::prelude::*;
use vstd::string::StringExecFns;

use crate::text::{pad_with_zeros, zero_padded};

verus! {

/// The two banners the dashboard can show above the graph.
#[derive(Debug, Clone, Copy, PartialEq, Eq, Structural)]
pub enum LogoKind {
    Shadow,
    Graffiti,
}

/// The shadow banner up to the copyright year.
pub const SHADOW_HEAD: &'static str = "                 =@-
     =%.         *@:          .
     .%@=        %@.        .=@#
       =@%.    ..-=.      .*@@:
        .#=.-@@%##%@@=. .#@%:
         .*@=.       =@#.=.
        .@*            +@:
==--:.. *#.             ##
++*#%@* @=              .@.
        +@.       
         +@-                                              _)          _|        
      .+%::#@+.      __|   _ \\           __|  |   |   __|  |  __ \\   |     _ \\  
    .*@@-   .:+%@. \\__ \\  (   | _____| \\__ \\  |   | \\__ \\  |  |   |  __|  (   | 
   .*%:        ##. ____/ \\___/         ____/ \\__, | ____/ _| _|  _| _|   \\___/  
              .@@.                           ____/                              
              :@%                                     (C) Solaara's Network ";

/// The shadow banner after the copyright year.
pub const SHADOW_TAIL: &'static str = " ";

/// The graffiti banner up to the copyright year.
pub const GRAFFITI_HEAD: &'static str = ".▄▄ ·           .▄▄ ·  ▄· ▄▌.▄▄ · ▪   ▐ ▄ ·▄▄▄
▐█ ▀. ▪         ▐█ ▀. ▐█▪██▌▐█ ▀. ██ •█▌▐█▐▄▄·▪
▄▀▀▀█▄ ▄█▀▄     ▄▀▀▀█▄▐█▌▐█▪▄▀▀▀█▄▐█·▐█▐▐▌██▪  ▄█▀▄
▐█▄▪▐█▐█▌.▐▌    ▐█▄▪▐█ ▐█▀·.▐█▄▪▐█▐█▌██▐█▌██▌.▐█▌.▐▌
 ▀▀▀▀  ▀█▄▀▪     ▀▀▀▀   ▀ •  ▀▀▀▀ ▀▀▀▀▀ █▪▀▀▀  ▀█▄▀▪
                          (C) Solaara's Network ";

/// The graffiti banner after the copyright year.
pub const GRAFFITI_TAIL: &'static str = "";

/// The banner's text for a given year, as written by the clock.
pub open spec fn logo_text(kind: LogoKind, year: Seq<char>) -> Seq<char> {
    match kind {
        LogoKind::Shadow => SHADOW_HEAD@ + zero_padded(year, 4) + SHADOW_TAIL@,
        LogoKind::Graffiti => GRAFFITI_HEAD@ + zero_padded(year, 4) + GRAFFITI_TAIL@,
    }
}

/// The banner's size in cells: (width, height).
pub open spec fn logo_size(kind: LogoKind) -> (usize, usize) {
    match kind {
        LogoKind::Shadow => (81, 16),
        LogoKind::Graffiti => (53, 6),
    }
}

/// The banner that comes after `kind` when cycling.
pub open spec fn next_logo(kind: LogoKind) -> LogoKind {
    match kind {
        LogoKind::Shadow => LogoKind::Graffiti,
        LogoKind::Graffiti => LogoKind::Shadow,
    }
}

/// Relies on chrono::Local::now and its "%Y" format: the current local year
/// as text. It changes with the clock, so nothing is promised of it.
#[verifier::external_body]
fn current_year_text() -> String {
    chrono::Local::now().format("%Y").to_string()
}

fn make_banner(head: &str, year: &str, tail: &str) -> (r: String)
    ensures
        r@ == head@ + zero_padded(year@, 4) + tail@,
{
    let mut r = String::from_str(head);
    let padded = pad_with_zeros(year, 4);
    r.append(padded.as_str());
    r.append(tail);
    r
}

fn make_graffiti_logo(year: &str) -> (r: (String, usize, usize))
    ensures
        r.0@ == logo_text(LogoKind::Graffiti, year@),
        (r.1, r.2) == logo_size(LogoKind::Graffiti),
{
    (make_banner(GRAFFITI_HEAD, year, GRAFFITI_TAIL), 53, 6)
}

fn make_shadow_logo(year: &str) -> (r: (String, usize, usize))
    ensures
        r.0@ == logo_text(LogoKind::Shadow, year@),
        (r.1, r.2) == logo_size(LogoKind::Shadow),
{
    (make_banner(SHADOW_HEAD, year, SHADOW_TAIL), 81, 16)
}

impl LogoKind {
    /// The banner's text for the given year, with its width and height.
    pub fn render_for_year(&self, year: &str) -> (r: (String, usize, usize))
        ensures
            r.0@ == logo_text(*self, year@),
            (r.1, r.2) == logo_size(*self),
    {
        match self {
            LogoKind::Shadow => make_shadow_logo(year),
            LogoKind::Graffiti => make_graffiti_logo(year),
        }
    }

    /// The banner's text for the current year, with its width and height.
    pub fn get_rendered(&self) -> (r: (String, usize, usize))
        ensures
            exists|year: Seq<char>| r.0@ == #[trigger] logo_text(*self, year),
            (r.1, r.2) == logo_size(*self),
    {
        let year = current_year_text();
        let r = self.render_for_year(year.as_str());
        assert(r.0@ == logo_text(*self, year@));
        r
    }

    /// The banner that comes next when cycling.
    pub fn next(&self) -> (r: LogoKind)
        ensures
            r == next_logo(*self),
    {
        match self {
            LogoKind::Shadow => LogoKind::Graffiti,
            LogoKind::Graffiti => LogoKind::Shadow,
        }
    }

    /// The banner's name, as it is written on the command line.
    pub fn name(&self) -> (r: &'static str)
        ensures
            r@ == match *self {
                LogoKind::Shadow => "Shadow"@,
                LogoKind::Graffiti => "Graffiti"@,
            },
    {
        match self {
            LogoKind::Shadow => "Shadow",
            LogoKind::Graffiti => "Graffiti",
        }
    }
}

} // verus!
