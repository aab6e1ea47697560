use vstd::prelude::*;
use vstd::string::StringExecFns;

use crate::process::current_shell;
use crate::graph::{answers, build_graph, is_graph_of, CollectedNode, GraphEdge, KindFacts};
use crate::kind::{kind_order, SystemComponentKind};
use crate::text::{decimal, decimal_text};

verus! {

/// Why a kind has nothing to show.
#[derive(Debug, Clone, Copy, PartialEq, Eq, Structural)]
pub enum FactError {
    /// This kind is never read on any platform.
    Unsupported,
    /// The machine did not say.
    Unavailable,
}

/// What the machine reported about itself, each reading absent where the
/// platform could not give it.
pub struct MachineFacts {
    /// Number of logical CPUs.
    pub cpu_cores: usize,
    pub cpu_model: Option<String>,
    /// Total memory, already written for people ("15.5 GiB").
    pub memory: Option<String>,
    pub board_model: Option<String>,
    pub os_name: Option<String>,
    pub distribution: Option<String>,
    pub architecture: Option<String>,
    pub shell: Option<String>,
    pub terminal: Option<String>,
    pub window_manager: Option<String>,
    pub desktop_environment: Option<String>,
}

/// The readings that come from outside this library: each absent where the
/// platform could not give it.
pub struct ReportedFacts {
    pub cpu_model: Option<String>,
    /// Total memory, already written for people ("15.5 GiB").
    pub memory: Option<String>,
    pub board_model: Option<String>,
    pub os_name: Option<String>,
    pub distribution: Option<String>,
    pub terminal: Option<String>,
    pub window_manager: Option<String>,
    pub desktop_environment: Option<String>,
}

#[verifier::external_type_specification]
#[verifier::external_body]
pub struct ExInfo(os_info::Info);

/// Relies on num_cpus::get: the number of logical CPUs, which its
/// documentation promises is at least one.
pub assume_specification[ num_cpus::get ]() -> (r: usize)
    ensures
        r >= 1,
;

/// Relies on os_info::get: what the platform says about the running system.
pub assume_specification[ os_info::get ]() -> os_info::Info;

/// Relies on os_info::Info::architecture: the architecture, where known.
pub assume_specification<'a>[ os_info::Info::architecture ](info: &'a os_info::Info) -> Option<
    &'a str,
>;

impl MachineFacts {
    /// Completes what the caller read with what this library reads itself:
    /// the number of logical CPUs, the architecture and the current shell.
    pub fn gather(reported: ReportedFacts) -> (r: MachineFacts)
        ensures
            r.cpu_cores >= 1,
            text_of(r.cpu_model) == text_of(reported.cpu_model),
            text_of(r.memory) == text_of(reported.memory),
            text_of(r.board_model) == text_of(reported.board_model),
            text_of(r.os_name) == text_of(reported.os_name),
            text_of(r.distribution) == text_of(reported.distribution),
            text_of(r.terminal) == text_of(reported.terminal),
            text_of(r.window_manager) == text_of(reported.window_manager),
            text_of(r.desktop_environment) == text_of(reported.desktop_environment),
            r.shell matches Some(s) ==> s@ != "cargo"@,
    {
        let info = os_info::get();
        let architecture = match info.architecture() {
            Some(a) => Some(String::from_str(a)),
            None => None,
        };
        let shell = match current_shell() {
            Ok(s) => Some(s),
            Err(_) => None,
        };
        MachineFacts {
            cpu_cores: num_cpus::get(),
            cpu_model: reported.cpu_model,
            memory: reported.memory,
            board_model: reported.board_model,
            os_name: reported.os_name,
            distribution: reported.distribution,
            architecture,
            shell,
            terminal: reported.terminal,
            window_manager: reported.window_manager,
            desktop_environment: reported.desktop_environment,
        }
    }
}

pub open spec fn text_of(o: Option<String>) -> Option<Seq<char>> {
    match o {
        Some(s) => Some(s@),
        None => None,
    }
}

/// "8x Exemplary CPU": the core count, an `x`, a space and the model.
pub open spec fn cpu_line(cores: nat, model: Seq<char>) -> Seq<char> {
    decimal(cores) + seq!['x', ' '] + model
}

/// The name of the system (or, failing that, of the distribution, or else
/// "Unknown"), followed by the architecture in parentheses where known.
pub open spec fn os_line(
    name: Option<Seq<char>>,
    distribution: Option<Seq<char>>,
    arch: Option<Seq<char>>,
) -> Seq<char> {
    let base = match name {
        Some(n) => n,
        None => match distribution {
            Some(d) => d,
            None => "Unknown"@,
        },
    };
    match arch {
        Some(a) => base + seq![' ', '('] + a + seq![')'],
        None => base,
    }
}

/// The single text a kind shows for the given readings, if any.
pub open spec fn fact_line(k: SystemComponentKind, m: MachineFacts) -> Option<Seq<char>> {
    match k {
        SystemComponentKind::Cpu => match m.cpu_model {
            Some(model) => Some(cpu_line(m.cpu_cores as nat, model@)),
            None => None,
        },
        SystemComponentKind::SystemMemory => text_of(m.memory),
        SystemComponentKind::Gpu => None,
        SystemComponentKind::BoardModel => match m.board_model {
            Some(b) => Some(b@),
            None => Some("Generic"@),
        },
        SystemComponentKind::OperatingSystem => Some(
            os_line(text_of(m.os_name), text_of(m.distribution), text_of(m.architecture)),
        ),
        SystemComponentKind::CurrentShell => text_of(m.shell),
        SystemComponentKind::TerminalEmulator => text_of(m.terminal),
        SystemComponentKind::WindowManager => text_of(m.window_manager),
        SystemComponentKind::DesktopEnvironment => text_of(m.desktop_environment),
    }
}

/// The values a kind contributes to the graph: its text, or none.
pub open spec fn fact_values(k: SystemComponentKind, m: MachineFacts) -> Seq<Seq<char>> {
    match fact_line(k, m) {
        Some(t) => seq![t],
        None => seq![],
    }
}

/// The whole catalog's answers for the given readings, in catalog order.
pub open spec fn catalog(m: MachineFacts) -> Seq<(SystemComponentKind, Seq<Seq<char>>)> {
    kind_order().map_values(|k: SystemComponentKind| (k, fact_values(k, m)))
}

fn copy_text(o: &Option<String>) -> (r: Option<String>)
    ensures
        text_of(r) == text_of(*o),
{
    match o {
        Some(s) => Some(s.clone()),
        None => None,
    }
}

/// Writes the CPU line: "8x Exemplary CPU".
pub fn cpu_text(cores: usize, model: &str) -> (r: String)
    ensures
        r@ == cpu_line(cores as nat, model@),
{
    let mut r = decimal_text(cores);
    r.append("x ");
    r.append(model);
    proof {
        reveal_strlit("x ");
    }
    assert(r@ =~= cpu_line(cores as nat, model@));
    r
}

/// Writes the operating-system line from its three readings.
pub fn os_text(name: &Option<String>, distribution: &Option<String>, arch: &Option<String>) -> (r:
    String)
    ensures
        r@ == os_line(text_of(*name), text_of(*distribution), text_of(*arch)),
{
    let mut r = match name {
        Some(n) => n.clone(),
        None => match distribution {
            Some(d) => d.clone(),
            None => String::from_str("Unknown"),
        },
    };
    match arch {
        Some(a) => {
            r.append(" (");
            r.append(a.as_str());
            r.append(")");
            proof {
                reveal_strlit(" (");
                reveal_strlit(")");
            }
        },
        None => {},
    }
    assert(r@ =~= os_line(text_of(*name), text_of(*distribution), text_of(*arch)));
    r
}

impl SystemComponentKind {
    /// What this kind shows for the given readings: one text, or the reason
    /// why there is none.
    pub fn collect_info(&self, facts: &MachineFacts) -> (r: Result<Vec<String>, FactError>)
        ensures
            match r {
                Ok(v) => fact_line(*self, *facts) is Some && v@.len() == 1 && v@[0]@ == fact_line(
                    *self,
                    *facts,
                )->0,
                Err(e) => fact_line(*self, *facts) is None && (e == FactError::Unsupported
                    <==> *self == SystemComponentKind::Gpu),
            },
    {
        let line = match self {
            SystemComponentKind::Cpu => match &facts.cpu_model {
                Some(model) => Some(cpu_text(facts.cpu_cores, model.as_str())),
                None => None,
            },
            SystemComponentKind::SystemMemory => copy_text(&facts.memory),
            SystemComponentKind::Gpu => {
                return Err(FactError::Unsupported);
            },
            SystemComponentKind::BoardModel => match &facts.board_model {
                Some(b) => Some(b.clone()),
                None => Some(String::from_str("Generic")),
            },
            SystemComponentKind::OperatingSystem => Some(
                os_text(&facts.os_name, &facts.distribution, &facts.architecture),
            ),
            SystemComponentKind::CurrentShell => copy_text(&facts.shell),
            SystemComponentKind::TerminalEmulator => copy_text(&facts.terminal),
            SystemComponentKind::WindowManager => copy_text(&facts.window_manager),
            SystemComponentKind::DesktopEnvironment => copy_text(&facts.desktop_environment),
        };
        match line {
            Some(t) => Ok(vec![t]),
            None => Err(FactError::Unavailable),
        }
    }
}

/// Asks every kind, in catalog order, and lays the answers out as a graph;
/// a kind with nothing to show is left out.
pub fn collect(facts: &MachineFacts) -> (r: (Vec<CollectedNode>, Vec<GraphEdge>))
    ensures
        is_graph_of(r.0@, r.1@, catalog(*facts)),
{
    let kinds = SystemComponentKind::all();
    let mut answered: Vec<KindFacts> = Vec::new();
    let mut i: usize = 0;
    while i < kinds.len()
        invariant
            kinds@ == kind_order(),
            i <= kinds.len(),
            answered.len() == i,
            answers(answered@) =~= catalog(*facts).subrange(0, i as int),
        decreases kinds.len() - i,
    {
        let kind = kinds[i];
        let values = match kind.collect_info(facts) {
            Ok(v) => v,
            Err(_) => Vec::new(),
        };
        proof {
            assert(values@.map_values(|v: String| v@) =~= fact_values(kind, *facts));
        }
        answered.push(KindFacts { kind, values });
        proof {
            assert(answers(answered@) =~= catalog(*facts).subrange(0, i + 1));
        }
        i = i + 1;
    }
    assert(catalog(*facts).subrange(0, kinds.len() as int) =~= catalog(*facts));
    build_graph(&answered)
}

} // verus!
