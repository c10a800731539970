//! What a new session is launched with: the shell, the working directory,
//! the environment and the terminal size.

use vstd::prelude::*;
use vstd::string::StringExecFns;
use crate::error::SpawnError;
use crate::pty::{PtySize, SessionHandle};
use crate::session::opt_view;

verus! {

/// The shell that is launched where neither the caller nor the host
/// environment names one.
pub open spec fn fallback_shell() -> Seq<char> {
    "/bin/zsh"@
}

/// The working directory where neither the caller names one nor the user
/// has a home directory.
pub open spec fn fallback_cwd() -> Seq<char> {
    "/"@
}

/// The views of the pairs in `vars`, in order.
pub open spec fn pairs_view(vars: Seq<(String, String)>) -> Seq<(Seq<char>, Seq<char>)> {
    vars.map_values(|p: (String, String)| (p.0@, p.1@))
}

/// The value of `key` in an environment given as a list of assignments, of
/// which a later one replaces an earlier one for the same key.
pub open spec fn env_value(vars: Seq<(Seq<char>, Seq<char>)>, key: Seq<char>) -> Option<
    Seq<char>,
>
    decreases vars.len(),
{
    if vars.len() == 0 {
        None
    } else if vars.last().0 == key {
        Some(vars.last().1)
    } else {
        env_value(vars.drop_last(), key)
    }
}

/// The assignments that fix how the terminal identifies itself.
pub open spec fn terminal_overrides() -> Seq<(Seq<char>, Seq<char>)> {
    seq![
        ("TERM"@, "xterm-256color"@),
        ("COLORTERM"@, "truecolor"@),
        ("LANG"@, "en_US.UTF-8"@),
    ]
}

/// The environment of the child: that of the host, then the overrides.
pub open spec fn child_env(host: Seq<(Seq<char>, Seq<char>)>) -> Seq<(Seq<char>, Seq<char>)> {
    host + terminal_overrides()
}

/// The shell to launch: the caller's, else the host's default, else the
/// fallback.
pub open spec fn resolved_shell(explicit: Option<Seq<char>>, host_default: Option<Seq<char>>) -> Seq<
    char,
> {
    match explicit {
        Some(shell) => shell,
        None => match host_default {
            Some(shell) => shell,
            None => fallback_shell(),
        },
    }
}

/// The working directory: the caller's, else the user's home, else the
/// filesystem root.
pub open spec fn resolved_cwd(explicit: Option<Seq<char>>, home: Option<Seq<char>>) -> Seq<char> {
    match explicit {
        Some(dir) => dir,
        None => match home {
            Some(dir) => dir,
            None => fallback_cwd(),
        },
    }
}

/// Chooses the shell to launch.
pub fn resolve_shell(explicit: Option<String>, host_default: Option<String>) -> (r: String)
    ensures
        r@ == resolved_shell(opt_view(explicit), opt_view(host_default)),
{
    match explicit {
        Some(shell) => shell,
        None => match host_default {
            Some(shell) => shell,
            None => String::from_str("/bin/zsh"),
        },
    }
}

/// Chooses the working directory of the new session.
pub fn resolve_cwd(explicit: Option<String>, home: Option<String>) -> (r: String)
    ensures
        r@ == resolved_cwd(opt_view(explicit), opt_view(home)),
{
    match explicit {
        Some(dir) => dir,
        None => match home {
            Some(dir) => dir,
            None => String::from_str("/"),
        },
    }
}

/// Looks `key` up in the environment `vars`.
pub fn lookup(vars: &Vec<(String, String)>, key: &str) -> (r: Option<String>)
    ensures
        opt_view(r) == env_value(pairs_view(vars@), key@),
{
    let wanted = String::from_str(key);
    let mut i: usize = vars.len();
    assert(pairs_view(vars@).take(i as int) =~= pairs_view(vars@));
    while i > 0
        invariant
            i <= vars.len(),
            wanted@ == key@,
            env_value(pairs_view(vars@), key@) == env_value(pairs_view(vars@).take(i as int), key@),
        decreases i,
    {
        let ghost prefix = pairs_view(vars@).take(i as int);
        assert(prefix.last() == pairs_view(vars@)[i - 1]);
        assert(prefix.drop_last() =~= pairs_view(vars@).take(i - 1));
        if vars[i - 1].0 == wanted {
            return Some(vars[i - 1].1.clone());
        }
        i -= 1;
    }
    None
}

/// Builds the environment of the child process from that of the host: every
/// assignment of the host, then the overrides that identify the terminal.
pub fn child_environment(host: &Vec<(String, String)>) -> (r: Vec<(String, String)>)
    ensures
        pairs_view(r@) == child_env(pairs_view(host@)),
{
    let mut env: Vec<(String, String)> = Vec::new();
    let mut i: usize = 0;
    while i < host.len()
        invariant
            i <= host.len(),
            env@.len() == i,
            pairs_view(env@) == pairs_view(host@).take(i as int),
        decreases host.len() - i,
    {
        let ghost before = env@;
        let pair = (host[i].0.clone(), host[i].1.clone());
        env.push(pair);
        proof {
            let next = pairs_view(host@).take(i as int + 1);
            assert forall|k: int| 0 <= k < next.len() implies pairs_view(env@)[k] == next[k] by {
                if k < i {
                    assert(env@[k] == before[k]);
                    assert(pairs_view(before)[k] == pairs_view(host@).take(i as int)[k]);
                } else {
                    assert(env@[k] == pair);
                }
            }
            assert(pairs_view(env@) =~= next);
        }
        i += 1;
    }
    let ghost inherited = env@;
    env.push((String::from_str("TERM"), String::from_str("xterm-256color")));
    env.push((String::from_str("COLORTERM"), String::from_str("truecolor")));
    env.push((String::from_str("LANG"), String::from_str("en_US.UTF-8")));
    proof {
        assert(pairs_view(host@).take(host@.len() as int) =~= pairs_view(host@));
        let want = child_env(pairs_view(host@));
        assert(pairs_view(env@).len() == want.len());
        assert forall|k: int| 0 <= k < want.len() implies pairs_view(env@)[k] == want[k] by {
            if k < host@.len() {
                assert(env@[k] == inherited[k]);
                assert(pairs_view(inherited)[k] == pairs_view(host@)[k]);
            }
        }
        assert(pairs_view(env@) =~= want);
    }
    env
}

/// In the child's environment the terminal type, the colour capability and
/// the locale have their fixed values, whatever the host's environment held.
pub proof fn lemma_child_env_overrides(host: Seq<(Seq<char>, Seq<char>)>)
    ensures
        env_value(child_env(host), "TERM"@) == Some("xterm-256color"@),
        env_value(child_env(host), "COLORTERM"@) == Some("truecolor"@),
        env_value(child_env(host), "LANG"@) == Some("en_US.UTF-8"@),
{
    reveal_strlit("TERM");
    reveal_strlit("COLORTERM");
    reveal_strlit("LANG");
    let env = child_env(host);
    let n = host.len() as int;
    assert(env[n] == ("TERM"@, "xterm-256color"@));
    assert(env[n + 1] == ("COLORTERM"@, "truecolor"@));
    assert(env[n + 2] == ("LANG"@, "en_US.UTF-8"@));
    assert("TERM"@.len() == 4 && "COLORTERM"@.len() == 9 && "LANG"@.len() == 4);
    assert("TERM"@[0] == 'T' && "LANG"@[0] == 'L');
    let two = env.drop_last();
    let one = two.drop_last();
    assert(env.last() == env[n + 2]);
    assert(two.last() == env[n + 1]);
    assert(one.last() == env[n]);
    reveal_with_fuel(env_value, 4);
}

/// For every variable other than the three overridden ones, the child sees
/// exactly what the host's environment holds.
pub proof fn lemma_child_env_inherits(host: Seq<(Seq<char>, Seq<char>)>, key: Seq<char>)
    requires
        key != "TERM"@,
        key != "COLORTERM"@,
        key != "LANG"@,
    ensures
        env_value(child_env(host), key) == env_value(host, key),
{
    let env = child_env(host);
    let n = host.len() as int;
    let two = env.drop_last();
    let one = two.drop_last();
    assert(env.last() == terminal_overrides()[2]);
    assert(two.last() == terminal_overrides()[1]);
    assert(one.last() == terminal_overrides()[0]);
    assert(one.drop_last() =~= host);
    reveal_with_fuel(env_value, 4);
}

/// Everything a backend needs to launch a session.
#[derive(Debug, PartialEq, Eq)]
pub struct SpawnPlan {
    /// Path or command of the shell.
    pub shell: String,
    /// Arguments of the shell; it is launched as a login shell.
    pub args: Vec<String>,
    /// Working directory of the shell.
    pub cwd: String,
    /// Environment of the shell, as assignments of which a later one wins.
    pub env: Vec<(String, String)>,
    /// Initial size of the terminal.
    pub size: PtySize,
}

/// The environment variable that names the host's default shell.
pub open spec fn shell_variable() -> Seq<char> {
    "SHELL"@
}

impl SpawnPlan {
    /// `self` is the plan for the given request on a host with environment
    /// `host` and a home directory `home`.
    pub open spec fn is_plan_for(
        self,
        shell: Option<Seq<char>>,
        cwd: Option<Seq<char>>,
        rows: u16,
        cols: u16,
        host: Seq<(Seq<char>, Seq<char>)>,
        home: Option<Seq<char>>,
    ) -> bool {
        &&& self.shell@ == resolved_shell(shell, env_value(host, shell_variable()))
        &&& self.args@.len() == 1
        &&& self.args@[0]@ == "-l"@
        &&& self.cwd@ == resolved_cwd(cwd, home)
        &&& pairs_view(self.env@) == child_env(host)
        &&& self.size == (PtySize { rows, cols, pixel_width: 0, pixel_height: 0 })
    }

    /// Plans the launch of a session: resolves the shell and the working
    /// directory, asks for a login shell, and derives the environment.
    pub fn new(
        shell: Option<String>,
        cwd: Option<String>,
        rows: u16,
        cols: u16,
        host: &Vec<(String, String)>,
        home: Option<String>,
    ) -> (r: SpawnPlan)
        ensures
            r.is_plan_for(
                opt_view(shell),
                opt_view(cwd),
                rows,
                cols,
                pairs_view(host@),
                opt_view(home),
            ),
    {
        let host_shell = lookup(host, "SHELL");
        let mut args: Vec<String> = Vec::new();
        args.push(String::from_str("-l"));
        SpawnPlan {
            shell: resolve_shell(shell, host_shell),
            args,
            cwd: resolve_cwd(cwd, home),
            env: child_environment(host),
            size: PtySize::cells(rows, cols),
        }
    }
}

/// Opens pseudo-terminals and launches shells in them.
///
/// The method performs I/O and promises nothing about its outcome. On
/// failure it says which step failed, with the operating system's error
/// text.
pub trait PtyBackend {
    /// The handles of a launched session.
    type Handle: SessionHandle;

    /// The reader of a launched session's output.
    type Reader;

    /// Opens a terminal of the planned size, launches the planned shell in
    /// it, and acquires the writer and the reader.
    fn launch(&mut self, plan: &SpawnPlan) -> Result<(Self::Handle, Self::Reader), SpawnError>;
}

/// `backend` is borrowed from a backend in the state `before`, and a call of
/// `launch` on it with `plan` can return `launched`. The state in which the
/// call leaves the backend is `mut_ref_future(backend)`.
#[verifier::inline]
pub open spec fn may_launch<B: PtyBackend>(
    backend: &mut B,
    before: B,
    plan: SpawnPlan,
    launched: Result<(B::Handle, B::Reader), SpawnError>,
) -> bool {
    mut_ref_current(backend) == before && call_ensures(B::launch, (backend, &plan), launched)
}

} // verus!
