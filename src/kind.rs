use vstd::prelude::*;

verus! {

/// The fixed, ordered catalog of facts that the dashboard knows about.
#[derive(Debug, Clone, Copy, PartialEq, Eq, Structural, PartialOrd, Ord, Hash)]
pub enum SystemComponentKind {
    Cpu,
    SystemMemory,
    Gpu,
    BoardModel,
    OperatingSystem,
    CurrentShell,
    TerminalEmulator,
    WindowManager,
    DesktopEnvironment,
}

/// The kinds in catalog order.
pub open spec fn kind_order() -> Seq<SystemComponentKind> {
    seq![
        SystemComponentKind::Cpu,
        SystemComponentKind::SystemMemory,
        SystemComponentKind::Gpu,
        SystemComponentKind::BoardModel,
        SystemComponentKind::OperatingSystem,
        SystemComponentKind::CurrentShell,
        SystemComponentKind::TerminalEmulator,
        SystemComponentKind::WindowManager,
        SystemComponentKind::DesktopEnvironment,
    ]
}

/// The kinds that a kind points to, in the order in which they are listed.
pub open spec fn link_targets(k: SystemComponentKind) -> Seq<SystemComponentKind> {
    match k {
        SystemComponentKind::Cpu => seq![SystemComponentKind::BoardModel],
        SystemComponentKind::SystemMemory => seq![SystemComponentKind::BoardModel],
        SystemComponentKind::Gpu => seq![SystemComponentKind::BoardModel],
        SystemComponentKind::BoardModel => seq![SystemComponentKind::OperatingSystem],
        SystemComponentKind::OperatingSystem => seq![
            SystemComponentKind::TerminalEmulator,
            SystemComponentKind::DesktopEnvironment,
            SystemComponentKind::WindowManager,
        ],
        SystemComponentKind::TerminalEmulator => seq![SystemComponentKind::CurrentShell],
        SystemComponentKind::CurrentShell => seq![],
        SystemComponentKind::DesktopEnvironment => seq![],
        SystemComponentKind::WindowManager => seq![],
    }
}

/// The adjacency rule: a box of kind `a` has an edge to every box of kind `b`
/// exactly when `b` is among the targets of `a`.
pub open spec fn links_to(a: SystemComponentKind, b: SystemComponentKind) -> bool {
    match a {
        SystemComponentKind::Cpu | SystemComponentKind::SystemMemory | SystemComponentKind::Gpu => b
            == SystemComponentKind::BoardModel,
        SystemComponentKind::BoardModel => b == SystemComponentKind::OperatingSystem,
        SystemComponentKind::OperatingSystem => b == SystemComponentKind::TerminalEmulator || b
            == SystemComponentKind::DesktopEnvironment || b == SystemComponentKind::WindowManager,
        SystemComponentKind::TerminalEmulator => b == SystemComponentKind::CurrentShell,
        _ => false,
    }
}

/// The listed targets of a kind are exactly the kinds it links to.
pub proof fn lemma_link_targets(a: SystemComponentKind)
    ensures
        forall|b: SystemComponentKind| link_targets(a).contains(b) <==> links_to(a, b),
{
    let t = link_targets(a);
    assert forall|b: SystemComponentKind| t.contains(b) <==> links_to(a, b) by {
        if links_to(a, b) {
            if t.len() > 0 && t[0] == b {
                assert(t.contains(b));
            } else if t.len() > 1 && t[1] == b {
                assert(t.contains(b));
            } else {
                assert(t[2] == b);
                assert(t.contains(b));
            }
        }
        if t.contains(b) {
            let i = choose|i: int| 0 <= i < t.len() && t[i] == b;
            assert(links_to(a, t[i]));
        }
    }
}

/// The title shown on the border of a box of kind `k`.
pub open spec fn kind_title(k: SystemComponentKind) -> Seq<char> {
    match k {
        SystemComponentKind::Cpu => "[ CPU ]"@,
        SystemComponentKind::SystemMemory => "[ RAM ]"@,
        SystemComponentKind::Gpu => "[ GPU ]"@,
        SystemComponentKind::BoardModel => "[ Model ]"@,
        SystemComponentKind::OperatingSystem => "[ OS ]"@,
        SystemComponentKind::CurrentShell => "[ Shell ]"@,
        SystemComponentKind::TerminalEmulator => "[ Terminal ]"@,
        SystemComponentKind::DesktopEnvironment => "[ DE ]"@,
        SystemComponentKind::WindowManager => "[ WM ]"@,
    }
}

impl SystemComponentKind {
    pub fn title(&self) -> (r: &'static str)
        ensures
            r@ == kind_title(*self),
    {
        match self {
            SystemComponentKind::Cpu => "[ CPU ]",
            SystemComponentKind::SystemMemory => "[ RAM ]",
            SystemComponentKind::Gpu => "[ GPU ]",
            SystemComponentKind::BoardModel => "[ Model ]",
            SystemComponentKind::OperatingSystem => "[ OS ]",
            SystemComponentKind::CurrentShell => "[ Shell ]",
            SystemComponentKind::TerminalEmulator => "[ Terminal ]",
            SystemComponentKind::DesktopEnvironment => "[ DE ]",
            SystemComponentKind::WindowManager => "[ WM ]",
        }
    }

    pub fn get_links(&self) -> (r: Vec<SystemComponentKind>)
        ensures
            r@ == link_targets(*self),
            forall|b: SystemComponentKind| r@.contains(b) <==> links_to(*self, b),
    {
        proof {
            lemma_link_targets(*self);
        }
        match self {
            Self::Cpu => vec![Self::BoardModel],
            Self::SystemMemory => vec![Self::BoardModel],
            Self::Gpu => vec![Self::BoardModel],
            Self::BoardModel => vec![Self::OperatingSystem],
            Self::OperatingSystem => vec![
                Self::TerminalEmulator,
                Self::DesktopEnvironment,
                Self::WindowManager,
            ],
            Self::TerminalEmulator => vec![Self::CurrentShell],
            Self::CurrentShell => vec![],
            Self::DesktopEnvironment => vec![],
            Self::WindowManager => vec![],
        }
    }

    /// Whether a box of this kind has an edge to a box of kind `other`.
    pub fn links_to(&self, other: SystemComponentKind) -> (r: bool)
        ensures
            r == links_to(*self, other),
    {
        match self {
            Self::Cpu | Self::SystemMemory | Self::Gpu => other == Self::BoardModel,
            Self::BoardModel => other == Self::OperatingSystem,
            Self::OperatingSystem => {
                other == Self::TerminalEmulator || other == Self::DesktopEnvironment || other
                    == Self::WindowManager
            },
            Self::TerminalEmulator => other == Self::CurrentShell,
            _ => false,
        }
    }

    /// Every kind, in catalog order.
    pub fn all() -> (r: Vec<SystemComponentKind>)
        ensures
            r@ == kind_order(),
    {
        vec![
            Self::Cpu,
            Self::SystemMemory,
            Self::Gpu,
            Self::BoardModel,
            Self::OperatingSystem,
            Self::CurrentShell,
            Self::TerminalEmulator,
            Self::WindowManager,
            Self::DesktopEnvironment,
        ]
    }
}

} // verus!
