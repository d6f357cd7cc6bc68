//! What to launch, and how: the configuration that a spawn hands to the
//! operating system.
use vstd::prelude::*;

use crate::token::IPC_ENV_VAR;

verus! {

/// How one standard stream of the child is set up.
#[derive(PartialEq, Eq, Structural, Debug, Clone, Copy)]
pub enum StdioMode {
    /// The child shares the parent's stream.
    Inherit,
    /// A pipe connects the stream to the parent.
    Piped,
    /// The stream is discarded.
    Null,
}

/// The characters of the environment variable that carries the rendezvous token.
pub open spec fn ipc_env_var() -> Seq<char> {
    seq!['I', 'P', 'C', '_', 'S', 'O', 'C', 'K', 'E', 'T', '_', 'P', 'A', 'T', 'H']
}

/// The value that the last of `env`'s bindings of `key` gives it, if any.
pub open spec fn env_lookup(env: Seq<(Seq<char>, Seq<char>)>, key: Seq<char>) -> Option<Seq<char>>
    decreases env.len(),
{
    if env.len() == 0 {
        None
    } else if env.last().0 == key {
        Some(env.last().1)
    } else {
        env_lookup(env.drop_last(), key)
    }
}

/// A process to launch: the program, its arguments, additions to the
/// inherited environment, its working directory and its standard streams.
pub struct SpawnConfig {
    pub program: String,
    pub args: Vec<String>,
    /// Variables set in the child's environment, in order; a later binding of a
    /// name overrides an earlier one.
    pub env: Vec<(String, String)>,
    /// The working directory; `None` keeps the parent's.
    pub cwd: Option<String>,
    pub stdin: StdioMode,
    pub stdout: StdioMode,
    pub stderr: StdioMode,
}

/// The characters of each string.
pub open spec fn strings_view(v: Seq<String>) -> Seq<Seq<char>> {
    v.map_values(|s: String| s@)
}

/// The characters of each borrowed string.
pub open spec fn strs_view(v: Seq<&str>) -> Seq<Seq<char>> {
    v.map_values(|s: &str| s@)
}

impl SpawnConfig {
    /// The environment bindings, as characters.
    pub open spec fn env_view(&self) -> Seq<(Seq<char>, Seq<char>)> {
        self.env@.map_values(|p: (String, String)| (p.0@, p.1@))
    }

    /// Runs `program` with no arguments, in the parent's directory and
    /// environment, sharing the parent's standard streams.
    pub fn new(program: &str) -> (r: SpawnConfig)
        ensures
            r.program@ == program@,
            r.args@.len() == 0,
            r.env@.len() == 0,
            r.cwd is None,
            r.stdin == StdioMode::Inherit,
            r.stdout == StdioMode::Inherit,
            r.stderr == StdioMode::Inherit,
    {
        SpawnConfig {
            program: program.to_owned(),
            args: Vec::new(),
            env: Vec::new(),
            cwd: None,
            stdin: StdioMode::Inherit,
            stdout: StdioMode::Inherit,
            stderr: StdioMode::Inherit,
        }
    }

    /// The configuration of a plain spawn: `program` with `args`, and all three
    /// standard streams piped so that the caller can use them beside the channel.
    pub fn piped(program: &str, args: &[&str]) -> (r: SpawnConfig)
        ensures
            r.program@ == program@,
            strings_view(r.args@) == strs_view(args@),
            r.env@.len() == 0,
            r.cwd is None,
            r.stdin == StdioMode::Piped,
            r.stdout == StdioMode::Piped,
            r.stderr == StdioMode::Piped,
    {
        let mut r = SpawnConfig::new(program);
        let mut i: usize = 0;
        while i < args.len()
            invariant
                i <= args@.len(),
                r.program@ == program@,
                r.args@.len() == i,
                strings_view(r.args@) == strs_view(args@.subrange(0, i as int)),
                r.env@.len() == 0,
                r.cwd is None,
            decreases args@.len() - i,
        {
            let ghost prev = r.args@;
            let a: String = args[i].to_owned();
            assert(a@ == args@[i as int]@);
            r.args.push(a);
            i = i + 1;
            proof {
                let done = args@.subrange(0, i as int);
                let before = args@.subrange(0, i - 1);
                assert forall|j: int| 0 <= j < i implies #[trigger] r.args@[j]@ == done[j]@ by {
                    if j < i - 1 {
                        assert(strings_view(prev)[j] == strs_view(before)[j]);
                        assert(r.args@[j] == prev[j]);
                    }
                }
                assert(strings_view(r.args@) =~= strs_view(done));
            }
        }
        proof {
            assert(args@.subrange(0, i as int) =~= args@);
        }
        r.stdin = StdioMode::Piped;
        r.stdout = StdioMode::Piped;
        r.stderr = StdioMode::Piped;
        r
    }

    /// Adds an argument.
    pub fn arg(&mut self, arg: &str)
        ensures
            final(self).args@ == old(self).args@.push(final(self).args@.last()),
            final(self).args@.last()@ == arg@,
            final(self).program == old(self).program,
            final(self).env == old(self).env,
            final(self).cwd == old(self).cwd,
            final(self).stdin == old(self).stdin,
            final(self).stdout == old(self).stdout,
            final(self).stderr == old(self).stderr,
    {
        self.args.push(arg.to_owned());
    }

    /// Sets `key` to `value` in the child's environment, over any earlier binding.
    pub fn set_env(&mut self, key: &str, value: &str)
        ensures
            final(self).env_view() == old(self).env_view().push((key@, value@)),
            env_lookup(final(self).env_view(), key@) == Some(value@),
            final(self).program == old(self).program,
            final(self).args == old(self).args,
            final(self).cwd == old(self).cwd,
            final(self).stdin == old(self).stdin,
            final(self).stdout == old(self).stdout,
            final(self).stderr == old(self).stderr,
    {
        self.env.push((key.to_owned(), value.to_owned()));
        proof {
            assert(self.env_view() =~= old(self).env_view().push((key@, value@)));
            assert(self.env_view().drop_last() =~= old(self).env_view());
        }
    }

    /// Hands the child its rendezvous token through the environment variable
    /// that the child reads to find the channel.
    pub fn set_rendezvous(&mut self, token: &str)
        ensures
            env_lookup(final(self).env_view(), ipc_env_var()) == Some(token@),
            final(self).env_view() == old(self).env_view().push((ipc_env_var(), token@)),
            final(self).program == old(self).program,
            final(self).args == old(self).args,
            final(self).cwd == old(self).cwd,
            final(self).stdin == old(self).stdin,
            final(self).stdout == old(self).stdout,
            final(self).stderr == old(self).stderr,
    {
        proof {
            reveal_strlit("IPC_SOCKET_PATH");
            assert(IPC_ENV_VAR@ =~= ipc_env_var());
        }
        self.set_env(IPC_ENV_VAR, token);
    }
}

} // verus!
