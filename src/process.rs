use vstd::prelude::*;
use vstd::string::{StrSliceExecFns, StringExecFns};

use sysinfo::{Pid, Process, System};

use crate::facts::FactError;

verus! {

#[verifier::external_type_specification]
#[verifier::external_body]
pub struct ExSystem(System);

#[verifier::external_type_specification]
#[verifier::external_body]
pub struct ExProcess(Process);

#[verifier::external_type_specification]
#[verifier::external_body]
pub struct ExPid(Pid);

/// Relies on sysinfo::System::new_all: a snapshot of the machine, processes
/// included. What it holds depends on the machine, so nothing is promised.
pub assume_specification[ System::new_all ]() -> System;

/// Relies on sysinfo::get_current_pid: this process's id, or an error where the
/// platform has none to give.
pub assume_specification[ sysinfo::get_current_pid ]() -> Result<Pid, &'static str>;

/// Relies on sysinfo::System::process: the snapshot's process of that id, if any.
pub assume_specification<'a>[ System::process ](sys: &'a System, pid: Pid) -> Option<&'a Process>;

/// Relies on sysinfo::Process::parent: the id of the parent process, if known.
pub assume_specification[ Process::parent ](p: &Process) -> Option<Pid>;

/// What `str::trim` returns for a text.
pub uninterp spec fn trim_of(s: Seq<char>) -> Seq<char>;

/// What `str::to_lowercase` returns for a text.
pub uninterp spec fn lower_of(s: Seq<char>) -> Seq<char>;

/// Relies on sysinfo::Process::name, read lossily as UTF-8.
#[verifier::external_body]
fn process_name(p: &Process) -> String {
    p.name().to_string_lossy().into_owned()
}

/// Relies on sysinfo::System::processes: how many processes the snapshot holds.
#[verifier::external_body]
fn process_count(sys: &System) -> usize {
    sys.processes().len()
}

/// Relies on sysinfo::System::processes_by_exact_name: whether some process of
/// the snapshot has exactly this name.
#[verifier::external_body]
fn has_process_named(sys: &System, name: &str) -> bool {
    sys.processes_by_exact_name(name.as_ref()).next().is_some()
}

/// Relies on str::trim: the text without leading and trailing white space.
#[verifier::external_body]
fn trimmed(s: &str) -> (r: &str)
    ensures
        r@ == trim_of(s@),
{
    s.trim()
}

/// Relies on str::to_lowercase: the text in lower case.
#[verifier::external_body]
fn lowercased(s: &str) -> (r: String)
    ensures
        r@ == lower_of(s@),
{
    s.to_lowercase()
}

/// The name without a trailing ".exe".
pub open spec fn without_exe(s: Seq<char>) -> Seq<char> {
    if s.len() >= 4 && s.subrange(s.len() - 4, s.len() as int) == seq!['.', 'e', 'x', 'e'] {
        s.subrange(0, s.len() - 4)
    } else {
        s
    }
}

/// The name without the leading '-' that marks a login shell.
pub open spec fn without_login_dash(s: Seq<char>) -> Seq<char> {
    if s.len() >= 1 && s[0] == '-' {
        s.subrange(1, s.len() as int)
    } else {
        s
    }
}

/// The shell's name from its lower-cased process name.
pub open spec fn shell_name(lowered: Seq<char>) -> Seq<char> {
    without_login_dash(without_exe(lowered))
}

/// The shell's name from a raw process name: trimmed, lower-cased, then
/// stripped of ".exe" and of a login dash.
pub open spec fn cleaned_process_name(raw: Seq<char>) -> Seq<char> {
    shell_name(lower_of(trim_of(raw)))
}

/// Whether two texts are the same.
pub fn same_text(a: &str, b: &str) -> (r: bool)
    ensures
        r == (a@ == b@),
{
    let n = a.unicode_len();
    if n != b.unicode_len() {
        return false;
    }
    let mut i: usize = 0;
    while i < n
        invariant
            n == a@.len(),
            n == b@.len(),
            i <= n,
            forall|k: int| 0 <= k < i ==> a@[k] == b@[k],
        decreases n - i,
    {
        if a.get_char(i) != b.get_char(i) {
            return false;
        }
        i = i + 1;
    }
    assert(a@ =~= b@);
    true
}

/// Strips ".exe" and then a login dash from a lower-cased process name.
pub fn shell_name_from(lowered: &str) -> (r: String)
    ensures
        r@ == shell_name(lowered@),
{
    let n = lowered.unicode_len();
    let base = if n >= 4 && lowered.get_char(n - 4) == '.' && lowered.get_char(n - 3) == 'e'
        && lowered.get_char(n - 2) == 'x' && lowered.get_char(n - 1) == 'e' {
        assert(lowered@.subrange(n - 4, n as int) =~= seq!['.', 'e', 'x', 'e']);
        lowered.substring_char(0, n - 4)
    } else {
        proof {
            if n >= 4 {
                let tail = lowered@.subrange(n - 4, n as int);
                if tail == seq!['.', 'e', 'x', 'e'] {
                    assert(tail[0] == lowered@[n - 4]);
                    assert(tail[1] == lowered@[n - 3]);
                    assert(tail[2] == lowered@[n - 2]);
                    assert(tail[3] == lowered@[n - 1]);
                }
            }
        }
        lowered
    };
    assert(base@ == without_exe(lowered@));
    let m = base.unicode_len();
    if m >= 1 && base.get_char(0) == '-' {
        String::from_str(base.substring_char(1, m))
    } else {
        String::from_str(base)
    }
}

/// Cleans a raw process name into a shell name.
pub fn clean_process_name(raw: &str) -> (r: String)
    ensures
        r@ == cleaned_process_name(raw@),
{
    let lowered = lowercased(trimmed(raw));
    shell_name_from(lowered.as_str())
}

/// Names the shell this program runs under: the parent process, or, while
/// that is cargo, cargo's own parent, and so on up the tree.
pub fn current_shell() -> (r: Result<String, FactError>)
    ensures
        r matches Ok(s) ==> s@ != "cargo"@ && exists|raw: Seq<char>|
            s@ == #[trigger] cleaned_process_name(raw),
        r matches Err(e) ==> e == FactError::Unavailable,
{
    let sys = System::new_all();
    let pid = match sysinfo::get_current_pid() {
        Ok(p) => p,
        Err(_) => {
            return Err(FactError::Unavailable);
        },
    };
    let me = match sys.process(pid) {
        Some(p) => p,
        None => {
            return Err(FactError::Unavailable);
        },
    };
    let mut parent_pid = match me.parent() {
        Some(p) => p,
        None => {
            return Err(FactError::Unavailable);
        },
    };
    let mut parent = match sys.process(parent_pid) {
        Some(p) => p,
        None => {
            return Err(FactError::Unavailable);
        },
    };
    let raw = process_name(parent);
    let mut shell = clean_process_name(raw.as_str());
    assert(shell@ == cleaned_process_name(raw@));
    // A parent chain without repeats is no longer than the process list.
    let mut budget = process_count(&sys);
    while same_text(shell.as_str(), "cargo")
        invariant
            exists|raw: Seq<char>| shell@ == #[trigger] cleaned_process_name(raw),
        decreases budget,
    {
        if budget == 0 {
            return Err(FactError::Unavailable);
        }
        budget = budget - 1;
        parent_pid = match parent.parent() {
            Some(p) => p,
            None => {
                return Err(FactError::Unavailable);
            },
        };
        parent = match sys.process(parent_pid) {
            Some(p) => p,
            None => {
                return Err(FactError::Unavailable);
            },
        };
        let raw = process_name(parent);
        shell = clean_process_name(raw.as_str());
        assert(shell@ == cleaned_process_name(raw@));
    }
    Ok(shell)
}

/// The window managers looked for on macOS, in order of preference.
pub open spec fn known_window_managers() -> Seq<Seq<char>> {
    seq!["chunkwm"@, "kwm"@, "yabai"@, "Amethyst"@, "Spectacle"@, "Rectangle"@]
}

/// The first known window manager that is running (`running[i]` says whether
/// the `i`-th is), or the system's own compositor.
pub open spec fn chosen_window_manager(running: Seq<bool>, from: int) -> Seq<char>
    decreases known_window_managers().len() - from,
{
    if from < 0 || from >= known_window_managers().len() {
        "Quartz Compositor"@
    } else if from < running.len() && running[from] {
        known_window_managers()[from]
    } else {
        chosen_window_manager(running, from + 1)
    }
}

fn known_window_manager_names() -> (r: Vec<&'static str>)
    ensures
        r@.len() == known_window_managers().len(),
        forall|i: int| 0 <= i < r@.len() ==> (#[trigger] r@[i])@ == known_window_managers()[i],
{
    vec!["chunkwm", "kwm", "yabai", "Amethyst", "Spectacle", "Rectangle"]
}

/// Picks the window manager from which of the known ones are running.
pub fn pick_window_manager(running: &Vec<bool>) -> (r: String)
    ensures
        r@ == chosen_window_manager(running@, 0),
{
    let names = known_window_manager_names();
    let mut i: usize = 0;
    while i < names.len()
        invariant
            names@.len() == known_window_managers().len(),
            forall|k: int| 0 <= k < names@.len() ==> (#[trigger] names@[k])@ == known_window_managers()[k],
            i <= names.len(),
            chosen_window_manager(running@, 0) == chosen_window_manager(running@, i as int),
        decreases names.len() - i,
    {
        if i < running.len() && running[i] {
            return String::from_str(names[i]);
        }
        i = i + 1;
    }
    String::from_str("Quartz Compositor")
}

/// The window manager on macOS: the first known one with a running process,
/// else the system's compositor.
pub fn macos_window_manager() -> (r: String)
    ensures
        exists|running: Seq<bool>| r@ == #[trigger] chosen_window_manager(running, 0),
{
    let sys = System::new_all();
    let names = known_window_manager_names();
    let mut running: Vec<bool> = Vec::new();
    let mut i: usize = 0;
    while i < names.len()
        invariant
            i <= names.len(),
        decreases names.len() - i,
    {
        running.push(has_process_named(&sys, names[i]));
        i = i + 1;
    }
    pick_window_manager(&running)
}

} // verus!
