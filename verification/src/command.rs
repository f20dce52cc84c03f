//! Commands run in a sandbox: the program, its arguments, its environment
//! and its working directory, each kept as the C strings `execve(2)` takes.

use crate::errors::{Command as CommandError, Error, GuestTermination, PlatformError};
use crate::meowix::errno::Errno;
use crate::meowix::errors::SyscallError;
use crate::spawn::errors::PostSpawnHost;
use crate::order::bytes_equal;
use crate::paths::Guest;
use vstd::prelude::*;

verus! {

/// The environment entries as a map from key to `KEY=VALUE` entry.
pub open spec fn env_map(s: Seq<(Vec<u8>, Vec<u8>)>) -> Map<Seq<u8>, Seq<u8>> {
    Map::new(
        |k: Seq<u8>| exists|i: int| 0 <= i < s.len() && #[trigger] s[i].0@ == k,
        |k: Seq<u8>| s[choose|i: int| 0 <= i < s.len() && #[trigger] s[i].0@ == k].1@,
    )
}

/// Whether the keys of the entries are distinct.
pub open spec fn keys_distinct(s: Seq<(Vec<u8>, Vec<u8>)>) -> bool {
    forall|i: int, j: int| 0 <= i < s.len() && 0 <= j < s.len() && i != j ==> #[trigger] s[i].0@ != #[trigger] s[j].0@
}

/// The environment entry of a variable: the key, `=` and the value.
pub open spec fn env_entry(key: Seq<u8>, value: Seq<u8>) -> Seq<u8> {
    key + seq![61u8] + value
}

/// Entries with distinct keys are found at their own index.
proof fn lemma_env_lookup(s: Seq<(Vec<u8>, Vec<u8>)>, i: int)
    requires
        keys_distinct(s),
        0 <= i < s.len(),
    ensures
        env_map(s).dom().contains(s[i].0@),
        env_map(s)[s[i].0@] == s[i].1@,
{
    let j = choose|j: int| 0 <= j < s.len() && #[trigger] s[j].0@ == s[i].0@;
}

/// The map of entries with distinct keys is the given map when their keys
/// and values agree.
proof fn lemma_env_same_map(t: Seq<(Vec<u8>, Vec<u8>)>, m: Map<Seq<u8>, Seq<u8>>)
    requires
        keys_distinct(t),
        forall|k: Seq<u8>| (exists|i: int| 0 <= i < t.len() && #[trigger] t[i].0@ == k) <==> m.dom().contains(k),
        forall|i: int| 0 <= i < t.len() ==> m[#[trigger] t[i].0@] == t[i].1@,
    ensures
        env_map(t) == m,
{
    assert forall|k: Seq<u8>| #[trigger] env_map(t).dom().contains(k) implies env_map(t)[k] == m[k] by {
        let i = choose|i: int| 0 <= i < t.len() && #[trigger] t[i].0@ == k;
        lemma_env_lookup(t, i);
    }
    assert(env_map(t) =~= m);
}

/// Whether bytes hold a nul byte.
fn has_nul(bytes: &[u8]) -> (r: bool)
    ensures
        r == bytes@.contains(0u8),
{
    let mut i: usize = 0;
    while i < bytes.len()
        invariant
            i <= bytes@.len(),
            forall|j: int| 0 <= j < i ==> bytes@[j] != 0u8,
        decreases bytes@.len() - i,
    {
        if bytes[i] == 0u8 {
            return true;
        }
        i = i + 1;
    }
    false
}

/// Whether bytes hold an `=`.
fn has_equals(bytes: &[u8]) -> (r: bool)
    ensures
        r == bytes@.contains(61u8),
{
    let mut i: usize = 0;
    while i < bytes.len()
        invariant
            i <= bytes@.len(),
            forall|j: int| 0 <= j < i ==> bytes@[j] != 61u8,
        decreases bytes@.len() - i,
    {
        if bytes[i] == 61u8 {
            return true;
        }
        i = i + 1;
    }
    false
}

/// The command error of a C string with a nul byte.
pub open spec fn nul_error() -> Error {
    Error::Platform(PlatformError::Command(CommandError::NulError))
}

/// A command to run in a sandbox.
#[derive(Debug)]
pub struct Command {
    /// The program.
    program: Vec<u8>,
    /// The arguments, the first of which names the program.
    arguments: Vec<Vec<u8>>,
    /// The environment: each key with its `KEY=VALUE` entry.
    environment: Vec<(Vec<u8>, Vec<u8>)>,
    /// The working directory in the guest.
    working_directory: Option<Guest>,
}

/// The views of a list of key and value pairs.
pub open spec fn pairs_view(s: Seq<(Vec<u8>, Vec<u8>)>) -> Seq<(Seq<u8>, Seq<u8>)> {
    s.map_values(|p: (Vec<u8>, Vec<u8>)| (p.0@, p.1@))
}

/// The environment after setting each variable of `vars` in order, or the
/// error of the first variable that cannot be set: a key with `=`, or a
/// nul byte in the entry.
pub open spec fn envs_outcome(env: Map<Seq<u8>, Seq<u8>>, vars: Seq<(Seq<u8>, Seq<u8>)>) -> Result<
    Map<Seq<u8>, Seq<u8>>,
    Error,
>
    decreases vars.len(),
{
    if vars.len() == 0 {
        Ok(env)
    } else {
        let (key, value) = vars[0];
        if key.contains(61u8) {
            Err(Error::Platform(PlatformError::Command(CommandError::InvalidEnvironmentVariable)))
        } else if env_entry(key, value).contains(0u8) {
            Err(nul_error())
        } else {
            envs_outcome(env.insert(key, env_entry(key, value)), vars.drop_first())
        }
    }
}

/// The views of a list of byte strings.
pub open spec fn strings_view(s: Seq<Vec<u8>>) -> Seq<Seq<u8>> {
    s.map_values(|v: Vec<u8>| v@)
}

impl Command {
    #[verifier::type_invariant]
    spec fn well_formed(self) -> bool {
        &&& self.arguments@.len() >= 1
        &&& keys_distinct(self.environment@)
    }

    /// The program.
    pub closed spec fn spec_program(self) -> Seq<u8> {
        self.program@
    }

    /// The arguments, the first of which names the program.
    pub closed spec fn spec_arguments(self) -> Seq<Seq<u8>> {
        strings_view(self.arguments@)
    }

    /// The environment, by key.
    pub closed spec fn spec_environment(self) -> Map<Seq<u8>, Seq<u8>> {
        env_map(self.environment@)
    }

    /// The working directory.
    pub closed spec fn spec_working_directory(self) -> Option<Seq<Seq<u8>>> {
        match self.working_directory {
            Some(g) => Some(g@),
            None => None,
        }
    }

    /// A command that runs `program` with no arguments but its own name, an
    /// empty environment and no working directory.
    ///
    /// # Errors
    ///
    /// Fails when the program holds a nul byte.
    pub fn new(program: &[u8]) -> (r: Result<Command, Error>)
        ensures
            program@.contains(0u8) ==> r == Err::<Command, Error>(nul_error()),
            !program@.contains(0u8) ==> (r matches Ok(c) && c.spec_program() == program@
                && c.spec_arguments() == seq![program@] && c.spec_environment() == Map::<
                Seq<u8>,
                Seq<u8>,
            >::empty() && c.spec_working_directory() is None),
    {
        if has_nul(program) {
            return Err(Error::Platform(PlatformError::Command(CommandError::NulError)));
        }
        let name = vstd::slice::slice_to_vec(program);
        let first = vstd::slice::slice_to_vec(program);
        let arguments = vec![first];
        let c = Command {
            program: name,
            arguments,
            environment: Vec::new(),
            working_directory: None,
        };
        assert(c.spec_arguments() =~= seq![program@]);
        assert(c.spec_environment() =~= Map::<Seq<u8>, Seq<u8>>::empty());
        Ok(c)
    }

    /// Replaces the first argument, the name the program sees itself run
    /// as.
    ///
    /// # Errors
    ///
    /// Fails when the argument holds a nul byte.
    pub fn arg0(self, arg: &[u8]) -> (r: Result<Command, Error>)
        ensures
            arg@.contains(0u8) ==> r == Err::<Command, Error>(nul_error()),
            !arg@.contains(0u8) ==> (r matches Ok(c) && c.spec_program() == self.spec_program()
                && c.spec_arguments() == self.spec_arguments().update(0, arg@)
                && c.spec_environment() == self.spec_environment()
                && c.spec_working_directory() == self.spec_working_directory()),
    {
        proof {
            use_type_invariant(&self);
        }
        if has_nul(arg) {
            return Err(Error::Platform(PlatformError::Command(CommandError::NulError)));
        }
        let Command { program, mut arguments, environment, working_directory } = self;
        let ghost before = strings_view(arguments@);
        let value = vstd::slice::slice_to_vec(arg);
        let _ = arguments.remove(0);
        arguments.insert(0, value);
        let c = Command { program, arguments, environment, working_directory };
        assert(c.spec_arguments() =~= before.update(0, arg@));
        Ok(c)
    }

    /// Appends an argument.
    ///
    /// # Errors
    ///
    /// Fails when the argument holds a nul byte.
    pub fn arg(self, arg: &[u8]) -> (r: Result<Command, Error>)
        ensures
            arg@.contains(0u8) ==> r == Err::<Command, Error>(nul_error()),
            !arg@.contains(0u8) ==> (r matches Ok(c) && c.spec_program() == self.spec_program()
                && c.spec_arguments() == self.spec_arguments().push(arg@)
                && c.spec_environment() == self.spec_environment()
                && c.spec_working_directory() == self.spec_working_directory()),
    {
        proof {
            use_type_invariant(&self);
        }
        if has_nul(arg) {
            return Err(Error::Platform(PlatformError::Command(CommandError::NulError)));
        }
        let Command { program, mut arguments, environment, working_directory } = self;
        let ghost before = strings_view(arguments@);
        arguments.push(vstd::slice::slice_to_vec(arg));
        let c = Command { program, arguments, environment, working_directory };
        assert(c.spec_arguments() =~= before.push(arg@));
        Ok(c)
    }

    /// Appends arguments in order.
    ///
    /// # Errors
    ///
    /// Fails when an argument holds a nul byte; the arguments before it are
    /// dropped with the command.
    pub fn args(self, args: &[Vec<u8>]) -> (r: Result<Command, Error>)
        ensures
            (exists|i: int| 0 <= i < args@.len() && (#[trigger] args@[i])@.contains(0u8)) ==> r
                == Err::<Command, Error>(nul_error()),
            (forall|i: int| 0 <= i < args@.len() ==> !(#[trigger] args@[i])@.contains(0u8)) ==> (r matches Ok(c)
                && c.spec_program() == self.spec_program() && c.spec_arguments()
                == self.spec_arguments() + strings_view(args@) && c.spec_environment()
                == self.spec_environment() && c.spec_working_directory()
                == self.spec_working_directory()),
    {
        let mut command = self;
        let ghost start = self;
        let mut i: usize = 0;
        while i < args.len()
            invariant
                i <= args@.len(),
                forall|j: int| 0 <= j < i ==> !(#[trigger] args@[j])@.contains(0u8),
                command.spec_program() == start.spec_program(),
                command.spec_arguments() == start.spec_arguments() + strings_view(
                    args@.subrange(0, i as int),
                ),
                command.spec_environment() == start.spec_environment(),
                command.spec_working_directory() == start.spec_working_directory(),
            decreases args@.len() - i,
        {
            match command.arg(args[i].as_slice()) {
                Ok(next) => {
                    command = next;
                },
                Err(e) => {
                    return Err(e);
                },
            }
            proof {
                assert(strings_view(args@.subrange(0, i + 1)) =~= strings_view(
                    args@.subrange(0, i as int),
                ).push(args@[i as int]@));
            }
            i = i + 1;
        }
        assert(args@.subrange(0, args@.len() as int) =~= args@);
        Ok(command)
    }

    /// Sets several environment variables in order, each replacing its
    /// earlier value.
    ///
    /// # Errors
    ///
    /// Fails with the error of the first variable that [`Command::env`]
    /// refuses; the variables before it are dropped with the command.
    #[verifier::loop_isolation(false)]
    pub fn envs(self, vars: &[(Vec<u8>, Vec<u8>)]) -> (r: Result<Command, Error>)
        ensures
            match envs_outcome(self.spec_environment(), pairs_view(vars@)) {
                Ok(env) => r matches Ok(c) && c.spec_program() == self.spec_program()
                    && c.spec_arguments() == self.spec_arguments() && c.spec_environment() == env
                    && c.spec_working_directory() == self.spec_working_directory(),
                Err(e) => r == Err::<Command, Error>(e),
            },
    {
        let mut command = self;
        let ghost start = self;
        let ghost all = pairs_view(vars@);
        assert(all.subrange(0, all.len() as int) =~= all);
        let mut i: usize = 0;
        while i < vars.len()
            invariant
                i <= vars@.len(),
                all == pairs_view(vars@),
                command.spec_program() == start.spec_program(),
                command.spec_arguments() == start.spec_arguments(),
                command.spec_working_directory() == start.spec_working_directory(),
                envs_outcome(start.spec_environment(), all) == envs_outcome(
                    command.spec_environment(),
                    all.subrange(i as int, all.len() as int),
                ),
            decreases vars@.len() - i,
        {
            let ghost rest = all.subrange(i as int, all.len() as int);
            proof {
                assert(rest[0] == (vars@[i as int].0@, vars@[i as int].1@));
                assert(rest.drop_first() =~= all.subrange(i + 1, all.len() as int));
            }
            let ghost before = command;
            match command.env(vars[i].0.as_slice(), vars[i].1.as_slice()) {
                Ok(next) => {
                    command = next;
                },
                Err(e) => {
                    proof {
                        let (key, value) = rest[0];
                        assert(key == vars@[i as int].0@);
                        assert(value == vars@[i as int].1@);
                        assert(envs_outcome(before.spec_environment(), rest) == Err::<
                            Map<Seq<u8>, Seq<u8>>,
                            Error,
                        >(e));
                    }
                    return Err(e);
                },
            }
            i = i + 1;
        }
        proof {
            assert(all.subrange(all.len() as int, all.len() as int) =~= Seq::<(Seq<u8>, Seq<u8>)>::empty());
            assert(envs_outcome(command.spec_environment(), Seq::<(Seq<u8>, Seq<u8>)>::empty()) == Ok::<
                Map<Seq<u8>, Seq<u8>>,
                Error,
            >(command.spec_environment()));
        }
        Ok(command)
    }

    /// Sets an environment variable, replacing its earlier value.
    ///
    /// # Errors
    ///
    /// Fails with [`CommandError::InvalidEnvironmentVariable`] when the key
    /// holds `=`, and otherwise when the key or the value holds a nul byte.
    #[verifier::loop_isolation(false)]
    pub fn env(self, key: &[u8], value: &[u8]) -> (r: Result<Command, Error>)
        ensures
            key@.contains(61u8) ==> r == Err::<Command, Error>(
                Error::Platform(PlatformError::Command(CommandError::InvalidEnvironmentVariable)),
            ),
            !key@.contains(61u8) && env_entry(key@, value@).contains(0u8) ==> r == Err::<
                Command,
                Error,
            >(nul_error()),
            !key@.contains(61u8) && !env_entry(key@, value@).contains(0u8) ==> (r matches Ok(c)
                && c.spec_program() == self.spec_program() && c.spec_arguments()
                == self.spec_arguments() && c.spec_environment() == self.spec_environment().insert(
                key@,
                env_entry(key@, value@),
            ) && c.spec_working_directory() == self.spec_working_directory()),
    {
        proof {
            use_type_invariant(&self);
        }
        if has_equals(key) {
            return Err(
                Error::Platform(PlatformError::Command(CommandError::InvalidEnvironmentVariable)),
            );
        }
        let mut entry = vstd::slice::slice_to_vec(key);
        entry.push(61u8);
        crate::text::append_bytes(&mut entry, value);
        assert(entry@ =~= env_entry(key@, value@));
        if has_nul(entry.as_slice()) {
            return Err(Error::Platform(PlatformError::Command(CommandError::NulError)));
        }
        let Command { program, arguments, mut environment, working_directory } = self;
        let ghost old_env = environment@;
        let ghost m = env_map(old_env).insert(key@, entry@);
        let n = environment.len();
        let mut i: usize = 0;
        while i < n
            invariant
                n == environment@.len(),
                environment@ == old_env,
                i <= n,
                forall|t: int| 0 <= t < i ==> #[trigger] environment@[t].0@ != key@,
            decreases n - i,
        {
            if bytes_equal(environment[i].0.as_slice(), key) {
                let stored_key = vstd::slice::slice_to_vec(key);
                let _ = environment.remove(i);
                environment.insert(i, (stored_key, entry));
                let ghost new_env = environment@;
                proof {
                    assert forall|a: int, b: int| 0 <= a < new_env.len() && 0 <= b < new_env.len() && a != b
                        implies #[trigger] new_env[a].0@ != #[trigger] new_env[b].0@ by {
                        assert(new_env[a].0@ == old_env[a].0@);
                        assert(new_env[b].0@ == old_env[b].0@);
                    }
                    assert forall|k: Seq<u8>| (exists|t: int| 0 <= t < new_env.len() && #[trigger] new_env[t].0@ == k)
                        <==> m.dom().contains(k) by {
                        if exists|t: int| 0 <= t < new_env.len() && #[trigger] new_env[t].0@ == k {
                            let t = choose|t: int| 0 <= t < new_env.len() && #[trigger] new_env[t].0@ == k;
                            assert(old_env[t].0@ == k);
                        }
                        if m.dom().contains(k) && k != key@ {
                            let t = choose|t: int| 0 <= t < old_env.len() && #[trigger] old_env[t].0@ == k;
                            assert(new_env[t].0@ == k);
                        }
                        if k == key@ {
                            assert(new_env[i as int].0@ == k);
                        }
                    }
                    assert forall|t: int| 0 <= t < new_env.len() implies m[#[trigger] new_env[t].0@]
                        == new_env[t].1@ by {
                        if t != i {
                            lemma_env_lookup(old_env, t);
                        }
                    }
                    lemma_env_same_map(new_env, m);
                }
                return Ok(Command { program, arguments, environment, working_directory });
            }
            i = i + 1;
        }
        environment.push((vstd::slice::slice_to_vec(key), entry));
        let ghost new_env = environment@;
        proof {
            assert forall|a: int, b: int| 0 <= a < new_env.len() && 0 <= b < new_env.len() && a != b
                implies #[trigger] new_env[a].0@ != #[trigger] new_env[b].0@ by {
                if a < n && b < n {
                    assert(new_env[a].0@ == old_env[a].0@);
                    assert(new_env[b].0@ == old_env[b].0@);
                }
            }
            assert forall|k: Seq<u8>| (exists|t: int| 0 <= t < new_env.len() && #[trigger] new_env[t].0@ == k)
                <==> m.dom().contains(k) by {
                if exists|t: int| 0 <= t < new_env.len() && #[trigger] new_env[t].0@ == k {
                    let t = choose|t: int| 0 <= t < new_env.len() && #[trigger] new_env[t].0@ == k;
                    if t < n {
                        assert(old_env[t].0@ == k);
                    }
                }
                if m.dom().contains(k) && k != key@ {
                    let t = choose|t: int| 0 <= t < old_env.len() && #[trigger] old_env[t].0@ == k;
                    assert(new_env[t].0@ == k);
                }
                if k == key@ {
                    assert(new_env[n as int].0@ == k);
                }
            }
            assert forall|t: int| 0 <= t < new_env.len() implies m[#[trigger] new_env[t].0@]
                == new_env[t].1@ by {
                if t < n {
                    lemma_env_lookup(old_env, t);
                }
            }
            lemma_env_same_map(new_env, m);
        }
        Ok(Command { program, arguments, environment, working_directory })
    }

    /// Removes an environment variable.
    #[verifier::loop_isolation(false)]
    pub fn env_remove(self, key: &[u8]) -> (r: Command)
        ensures
            r.spec_program() == self.spec_program(),
            r.spec_arguments() == self.spec_arguments(),
            r.spec_environment() == self.spec_environment().remove(key@),
            r.spec_working_directory() == self.spec_working_directory(),
    {
        proof {
            use_type_invariant(&self);
        }
        let Command { program, arguments, mut environment, working_directory } = self;
        let ghost old_env = environment@;
        let ghost m = env_map(old_env).remove(key@);
        let n = environment.len();
        let mut i: usize = 0;
        while i < n
            invariant
                n == environment@.len(),
                environment@ == old_env,
                i <= n,
                forall|t: int| 0 <= t < i ==> #[trigger] environment@[t].0@ != key@,
            decreases n - i,
        {
            if bytes_equal(environment[i].0.as_slice(), key) {
                let _ = environment.remove(i);
                let ghost new_env = environment@;
                proof {
                    assert(new_env =~= old_env.remove(i as int));
                    assert forall|a: int, b: int| 0 <= a < new_env.len() && 0 <= b < new_env.len() && a != b
                        implies #[trigger] new_env[a].0@ != #[trigger] new_env[b].0@ by {
                        let a0 = if a < i { a } else { a + 1 };
                        let b0 = if b < i { b } else { b + 1 };
                        assert(old_env[a0].0@ != old_env[b0].0@);
                    }
                    assert forall|k: Seq<u8>| (exists|t: int| 0 <= t < new_env.len() && #[trigger] new_env[t].0@ == k)
                        <==> m.dom().contains(k) by {
                        if exists|t: int| 0 <= t < new_env.len() && #[trigger] new_env[t].0@ == k {
                            let t = choose|t: int| 0 <= t < new_env.len() && #[trigger] new_env[t].0@ == k;
                            let t0 = if t < i { t } else { t + 1 };
                            assert(old_env[t0].0@ == k);
                            assert(old_env[t0].0@ != old_env[i as int].0@);
                        }
                        if m.dom().contains(k) {
                            let t = choose|t: int| 0 <= t < old_env.len() && #[trigger] old_env[t].0@ == k;
                            if t < i {
                                assert(new_env[t].0@ == k);
                            } else {
                                assert(new_env[t - 1].0@ == k);
                            }
                        }
                    }
                    assert forall|t: int| 0 <= t < new_env.len() implies m[#[trigger] new_env[t].0@]
                        == new_env[t].1@ by {
                        let t0 = if t < i { t } else { t + 1 };
                        lemma_env_lookup(old_env, t0);
                        assert(old_env[t0].0@ != old_env[i as int].0@);
                    }
                    lemma_env_same_map(new_env, m);
                }
                return Command { program, arguments, environment, working_directory };
            }
            i = i + 1;
        }
        assert(env_map(old_env).remove(key@) =~= env_map(old_env));
        Command { program, arguments, environment, working_directory }
    }

    /// Sets the working directory of the command in the guest.
    pub fn current_dir(self, dir: Guest) -> (r: Command)
        ensures
            r.spec_program() == self.spec_program(),
            r.spec_arguments() == self.spec_arguments(),
            r.spec_environment() == self.spec_environment(),
            r.spec_working_directory() == Some(dir@),
    {
        proof {
            use_type_invariant(&self);
        }
        Command { working_directory: Some(dir), ..self }
    }

    /// The program.
    pub fn program(&self) -> (p: &[u8])
        ensures
            p@ == self.spec_program(),
    {
        self.program.as_slice()
    }

    /// The arguments, the first of which names the program.
    pub fn arguments(&self) -> (a: &[Vec<u8>])
        ensures
            strings_view(a@) == self.spec_arguments(),
    {
        self.arguments.as_slice()
    }

    /// The environment entries, `KEY=VALUE`, in no particular order.
    pub fn environment(&self) -> (e: &[(Vec<u8>, Vec<u8>)])
        ensures
            env_map(e@) == self.spec_environment(),
    {
        self.environment.as_slice()
    }

    /// The working directory.
    pub fn working_directory(&self) -> (d: &Option<Guest>)
        ensures
            match *d {
                Some(g) => self.spec_working_directory() == Some(g@),
                None => self.spec_working_directory() is None,
            },
    {
        &self.working_directory
    }
}

/// How terminating a guest ends: its wait status when every part succeeded,
/// and otherwise the failed parts. A guest that was already gone, so that
/// `SIGKILL` found no process (`ESRCH`), is no failure.
pub open spec fn spec_termination(
    signal: Option<SyscallError>,
    wait: Result<i32, CommandError>,
    cgroup: Option<PostSpawnHost>,
) -> Result<i32, GuestTermination> {
    let signal = match signal {
        Some(e) => if e.error == Errno::spec_from_raw(3) {
            None
        } else {
            Some(e)
        },
        None => None,
    };
    match wait {
        Ok(status) => if signal is None && cgroup is None {
            Ok(status)
        } else {
            Err(GuestTermination { signal, wait: None, cgroup })
        },
        Err(e) => Err(GuestTermination { signal, wait: Some(e), cgroup }),
    }
}

/// Combines the results of killing, waiting for and tearing down a guest.
pub fn termination_outcome(
    signal: Option<SyscallError>,
    wait: Result<i32, CommandError>,
    cgroup: Option<PostSpawnHost>,
) -> (r: Result<i32, GuestTermination>)
    ensures
        r == spec_termination(signal, wait, cgroup),
{
    let srch = Errno::from_raw_os_error(3);
    let signal = match signal {
        Some(e) => if e.error == srch {
            None
        } else {
            Some(e)
        },
        None => None,
    };
    match wait {
        Ok(status) => if signal.is_none() && cgroup.is_none() {
            Ok(status)
        } else {
            Err(GuestTermination { signal, wait: None, cgroup })
        },
        Err(e) => Err(GuestTermination { signal, wait: Some(e), cgroup }),
    }
}

/// A sandbox.
#[derive(PartialEq, Eq, Structural, Copy, Clone, Debug)]
pub struct Sandbox {}

impl crate::sealed::Sealed for Command {}

} // verus!
