//! The commands that build and run an application: their arguments and their
//! environment. The caller spawns them.

use vstd::prelude::*;
use crate::fs_path::FilePath;
use crate::options::{profile_name, BuildOptions, RunOptions};
use crate::params::pairs_view;
use crate::scripts::upserted;
use crate::text::{decimal, names_view, push_decimal};

verus! {

/// The variable that tells the server its host.
pub open spec fn host_var() -> Seq<char> {
    "HASHIRA_HOST"@
}

/// The variable that tells the server its port.
pub open spec fn port_var() -> Seq<char> {
    "HASHIRA_PORT"@
}

/// The variable that tells the server where the static files are mounted.
pub open spec fn static_dir_var() -> Seq<char> {
    "HASHIRA_STATIC_DIR"@
}

/// The variable that tells the server the name of the compiled library.
pub open spec fn wasm_lib_var() -> Seq<char> {
    "HASHIRA_WASM_LIB"@
}

/// The variable that tells the server whether pages reload on a rebuild.
pub open spec fn live_reload_var() -> Seq<char> {
    "HASHIRA_LIVE_RELOAD"@
}

/// The variable that tells the server the host of the reload server.
pub open spec fn live_reload_host_var() -> Seq<char> {
    "HASHIRA_LIVE_RELOAD_HOST"@
}

/// The variable that tells the server the port of the reload server.
pub open spec fn live_reload_port_var() -> Seq<char> {
    "HASHIRA_LIVE_RELOAD_PORT"@
}

/// An argument of a command: a text, or a path that the caller writes out.
#[derive(Debug)]
pub enum Arg {
    Text(String),
    Path(FilePath),
}

/// An argument as contracts see it.
pub enum ArgView {
    Text(Seq<char>),
    Path(Seq<Seq<char>>),
}

impl View for Arg {
    type V = ArgView;

    open spec fn view(&self) -> ArgView {
        match self {
            Arg::Text(t) => ArgView::Text(t@),
            Arg::Path(p) => ArgView::Path(p@),
        }
    }
}

/// The views of a list of arguments.
pub open spec fn args_view(args: Seq<Arg>) -> Seq<ArgView> {
    args.map_values(|a: Arg| a@)
}

/// Represents a collection of command arguments.
#[derive(Debug)]
pub struct CommandArgs(pub Vec<String>);

impl CommandArgs {
    /// No arguments.
    pub fn new() -> (a: CommandArgs)
        ensures
            a.0@.len() == 0,
    {
        CommandArgs(Vec::new())
    }

    /// Adds an argument after the others.
    pub fn arg(&mut self, arg: &str)
        ensures
            names_view(final(self).0@) == names_view(old(self).0@).push(arg@),
    {
        let ghost before = names_view(self.0@);
        self.0.push(arg.to_owned());
        assert(names_view(self.0@) =~= before.push(arg@));
    }

    /// Adds the arguments after the others, in their order.
    pub fn args(&mut self, args: &Vec<String>)
        ensures
            names_view(final(self).0@) == names_view(old(self).0@) + names_view(args@),
    {
        let ghost start = names_view(self.0@);
        let mut i: usize = 0;
        proof {
            assert(names_view(args@).take(0) =~= Seq::empty());
            assert(start + Seq::empty() =~= start);
        }
        while i < args.len()
            invariant
                i <= args.len(),
                names_view(self.0@) == start + names_view(args@).take(i as int),
            decreases args.len() - i,
        {
            let ghost before = names_view(self.0@);
            self.0.push(args[i].clone());
            assert(names_view(self.0@) =~= before.push(args@[i as int]@));
            i += 1;
            assert(names_view(self.0@) =~= start + names_view(args@).take(i as int));
        }
        assert(names_view(args@).take(args@.len() as int) =~= names_view(args@));
    }

    /// The arguments, in their order.
    pub fn into_vec(self) -> (v: Vec<String>)
        ensures
            v == self.0,
    {
        self.0
    }
}

/// A command to spawn: the program, its arguments, and the variables added to
/// its environment, later ones over earlier ones of the same name.
#[derive(Debug)]
pub struct Command {
    pub program: Arg,
    pub args: Vec<Arg>,
    pub envs: Vec<(String, String)>,
}

/// The flag that keeps cargo quiet, where asked for.
pub open spec fn quiet_args(quiet: bool) -> Seq<ArgView> {
    if quiet {
        seq![ArgView::Text("--quiet"@)]
    } else {
        Seq::empty()
    }
}

/// The flag for a release build, where asked for.
pub open spec fn release_args(release: bool) -> Seq<ArgView> {
    if release {
        seq![ArgView::Text("--release"@)]
    } else {
        Seq::empty()
    }
}

/// The arguments that select the wasm target, where asked for.
pub open spec fn wasm_target_args(wasm: bool) -> Seq<ArgView> {
    if wasm {
        seq![ArgView::Text("--target"@), ArgView::Text("wasm32-unknown-unknown"@)]
    } else {
        Seq::empty()
    }
}

/// The arguments of a cargo subcommand: its name, the target where the build
/// is for wasm, the quiet flag, the target directory, the release flag.
pub open spec fn cargo_args(
    subcommand: Seq<char>,
    wasm: bool,
    quiet: bool,
    target_dir: Seq<Seq<char>>,
    release: bool,
) -> Seq<ArgView> {
    seq![ArgView::Text(subcommand)] + wasm_target_args(wasm) + quiet_args(quiet) + seq![
        ArgView::Text("--target-dir"@),
        ArgView::Path(target_dir),
    ] + release_args(release)
}

/// The variables that tell a server where to listen and where the static files
/// are mounted.
pub open spec fn server_envs(host: Seq<char>, port: u16, static_dir: Seq<char>) -> Seq<
    (Seq<char>, Seq<char>),
> {
    seq![
        (host_var(), host),
        (port_var(), decimal(port as nat)),
        (static_dir_var(), static_dir),
    ]
}

/// The variables that tell a server of the reload server.
pub open spec fn live_reload_envs(host: Seq<char>, port: u16) -> Seq<(Seq<char>, Seq<char>)> {
    seq![
        (live_reload_host_var(), host),
        (live_reload_port_var(), decimal(port as nat)),
        (live_reload_var(), "1"@),
    ]
}

/// The arguments of the binding generator: the web target without
/// typescript, the directory to write to, and the wasm file to read.
pub open spec fn bindgen_args(out_dir: Seq<Seq<char>>, wasm_file: Seq<Seq<char>>) -> Seq<ArgView> {
    seq![
        ArgView::Text("--target"@),
        ArgView::Text("web"@),
        ArgView::Text("--no-typescript"@),
        ArgView::Text("--out-dir"@),
        ArgView::Path(out_dir),
        ArgView::Path(wasm_file),
    ]
}

/// The decimal notation of a port.
pub fn port_text(port: u16) -> (s: String)
    ensures
        s@ == decimal(port as nat),
{
    let mut s = String::new();
    push_decimal(&mut s, port as u32);
    assert(s@ =~= decimal(port as nat));
    s
}

/// Cargo's arguments for a subcommand.
fn cargo_arguments(subcommand: &str, wasm: bool, quiet: bool, target_dir: FilePath, release: bool) -> (args:
    Vec<Arg>)
    ensures
        args_view(args@) == cargo_args(subcommand@, wasm, quiet, target_dir@, release),
{
    let mut args: Vec<Arg> = Vec::new();
    args.push(Arg::Text(subcommand.to_owned()));
    if wasm {
        args.push(Arg::Text("--target".to_owned()));
        args.push(Arg::Text("wasm32-unknown-unknown".to_owned()));
    }
    assert(args_view(args@) =~= seq![ArgView::Text(subcommand@)] + wasm_target_args(wasm));
    let ghost head = args_view(args@);
    if quiet {
        args.push(Arg::Text("--quiet".to_owned()));
    }
    assert(args_view(args@) =~= head + quiet_args(quiet));
    let ghost head = args_view(args@);
    args.push(Arg::Text("--target-dir".to_owned()));
    args.push(Arg::Path(target_dir));
    assert(args_view(args@) =~= head + seq![
        ArgView::Text("--target-dir"@),
        ArgView::Path(target_dir@),
    ]);
    let ghost head = args_view(args@);
    if release {
        args.push(Arg::Text("--release".to_owned()));
    }
    assert(args_view(args@) =~= head + release_args(release));
    args
}

/// The variables of a server at `host` and `port` with its static files at
/// `static_dir`.
pub fn server_environment(host: &str, port: u16, static_dir: &str) -> (envs: Vec<(String, String)>)
    ensures
        pairs_view(envs@) == server_envs(host@, port, static_dir@),
{
    let mut envs: Vec<(String, String)> = Vec::new();
    envs.push(("HASHIRA_HOST".to_owned(), host.to_owned()));
    envs.push(("HASHIRA_PORT".to_owned(), port_text(port)));
    envs.push(("HASHIRA_STATIC_DIR".to_owned(), static_dir.to_owned()));
    assert(pairs_view(envs@) =~= server_envs(host@, port, static_dir@));
    envs
}

/// The variables that turn live reload on in a server, with the reload server
/// at `host` and `port`.
pub fn live_reload_environment(host: &str, port: u16) -> (envs: Vec<(String, String)>)
    ensures
        pairs_view(envs@) == live_reload_envs(host@, port),
        distinct_names(pairs_view(envs@)),
{
    let mut envs: Vec<(String, String)> = Vec::new();
    envs.push(("HASHIRA_LIVE_RELOAD_HOST".to_owned(), host.to_owned()));
    envs.push(("HASHIRA_LIVE_RELOAD_PORT".to_owned(), port_text(port)));
    envs.push(("HASHIRA_LIVE_RELOAD".to_owned(), "1".to_owned()));
    assert(pairs_view(envs@) =~= live_reload_envs(host@, port));
    proof {
        reveal_strlit("HASHIRA_LIVE_RELOAD_HOST");
        reveal_strlit("HASHIRA_LIVE_RELOAD_PORT");
        reveal_strlit("HASHIRA_LIVE_RELOAD");
        let names = pairs_view(envs@);
        assert(names[0].0.len() == 24 && names[1].0.len() == 24 && names[2].0.len() == 19);
        assert(names[0].0[20] == 'H' && names[1].0[20] == 'P');
    }
    envs
}

/// Appends copies of the pairs of `more` to `envs`.
pub fn extend_environment(envs: &mut Vec<(String, String)>, more: &Vec<(String, String)>)
    ensures
        pairs_view(final(envs)@) == pairs_view(old(envs)@) + pairs_view(more@),
{
    let ghost start = pairs_view(envs@);
    let mut i: usize = 0;
    assert(pairs_view(more@).take(0) =~= Seq::empty());
    assert(start + Seq::empty() =~= start);
    while i < more.len()
        invariant
            i <= more.len(),
            pairs_view(envs@) == start + pairs_view(more@).take(i as int),
        decreases more.len() - i,
    {
        let ghost before = pairs_view(envs@);
        envs.push((more[i].0.clone(), more[i].1.clone()));
        assert(pairs_view(envs@) =~= before.push(pairs_view(more@)[i as int]));
        i += 1;
        assert(pairs_view(envs@) =~= start + pairs_view(more@).take(i as int));
    }
    assert(pairs_view(more@).take(more@.len() as int) =~= pairs_view(more@));
}

/// The command that builds the server: `cargo build` into `target_dir`, the
/// target directory as resolved.
pub fn cargo_build(opts: &BuildOptions, target_dir: &FilePath) -> (c: Command)
    ensures
        c.program@ == ArgView::Text("cargo"@),
        args_view(c.args@) == cargo_args("build"@, false, opts.quiet, target_dir@, opts.release),
        c.envs@.len() == 0,
{
    let dir = target_dir.clone_path();
    Command {
        program: Arg::Text("cargo".to_owned()),
        args: cargo_arguments("build", false, opts.quiet, dir, opts.release),
        envs: Vec::new(),
    }
}

/// The command that builds the client: `cargo build` for the wasm target,
/// into `target_dir`, the target directory as resolved.
pub fn cargo_build_wasm(opts: &BuildOptions, target_dir: &FilePath) -> (c: Command)
    ensures
        c.program@ == ArgView::Text("cargo"@),
        args_view(c.args@) == cargo_args("build"@, true, opts.quiet, target_dir@, opts.release),
        c.envs@.len() == 0,
{
    let dir = target_dir.clone_path();
    Command {
        program: Arg::Text("cargo".to_owned()),
        args: cargo_arguments("build", true, opts.quiet, dir, opts.release),
        envs: Vec::new(),
    }
}

/// The command that generates the bindings of the client: `wasm-bindgen` for
/// the web, from the wasm file `wasm_file_name` of the build profile under
/// the wasm target, into the public directory; both under `target_dir`, the
/// target directory as resolved.
pub fn wasm_bindgen_build(opts: &BuildOptions, target_dir: &FilePath, wasm_file_name: &str) -> (c:
    Command)
    ensures
        c.program@ == ArgView::Text("wasm-bindgen"@),
        args_view(c.args@) == bindgen_args(
            target_dir@.push(profile_name(opts.release)) + opts@.public_dir,
            target_dir@.push("wasm32-unknown-unknown"@).push(profile_name(opts.release)).push(
                wasm_file_name@,
            ),
        ),
        c.envs@.len() == 0,
{
    let out_dir = opts.public_target_dir(target_dir);
    let wasm_dir = target_dir.join("wasm32-unknown-unknown");
    let wasm_dir = if opts.release {
        wasm_dir.join("release")
    } else {
        wasm_dir.join("debug")
    };
    let wasm_file = wasm_dir.join(wasm_file_name);
    let mut args: Vec<Arg> = Vec::new();
    args.push(Arg::Text("--target".to_owned()));
    args.push(Arg::Text("web".to_owned()));
    args.push(Arg::Text("--no-typescript".to_owned()));
    args.push(Arg::Text("--out-dir".to_owned()));
    args.push(Arg::Path(out_dir));
    args.push(Arg::Path(wasm_file));
    assert(args_view(args@) =~= bindgen_args(out_dir@, wasm_file@));
    Command { program: Arg::Text("wasm-bindgen".to_owned()), args, envs: Vec::new() }
}

/// The command that runs the server through cargo: `cargo run` from
/// `target_dir`, the target directory as resolved, with the server's variables
/// and then `additional_envs`.
pub fn cargo_run(
    opts: &RunOptions,
    target_dir: &FilePath,
    additional_envs: &Vec<(String, String)>,
) -> (c: Command)
    ensures
        c.program@ == ArgView::Text("cargo"@),
        args_view(c.args@) == cargo_args("run"@, false, opts.quiet, target_dir@, opts.release),
        pairs_view(c.envs@) == server_envs(opts.host@, opts.port, opts.static_dir@) + pairs_view(
            additional_envs@,
        ),
{
    let dir = target_dir.clone_path();
    let mut envs = server_environment(opts.host.as_str(), opts.port, opts.static_dir.as_str());
    extend_environment(&mut envs, additional_envs);
    Command {
        program: Arg::Text("cargo".to_owned()),
        args: cargo_arguments("run", false, opts.quiet, dir, opts.release),
        envs,
    }
}

/// Whether no name occurs twice in `envs`.
pub open spec fn distinct_names(envs: Seq<(Seq<char>, Seq<char>)>) -> bool {
    forall|i: int, j: int| 0 <= i < j < envs.len() ==> (#[trigger] envs[i]).0 != (#[trigger] envs[j]).0
}

/// Whether `name` is the name of one of `envs`.
pub open spec fn has_name(envs: Seq<(Seq<char>, Seq<char>)>, name: Seq<char>) -> bool {
    exists|i: int| 0 <= i < envs.len() && (#[trigger] envs[i]).0 == name
}

/// To set a variable brings in no name but its own.
pub proof fn lemma_upserted_names(
    envs: Seq<(Seq<char>, Seq<char>)>,
    name: Seq<char>,
    value: Seq<char>,
    other: Seq<char>,
)
    requires
        has_name(upserted(envs, name, value), other),
    ensures
        other == name || has_name(envs, other),
    decreases envs.len(),
{
    let after = upserted(envs, name, value);
    let i = choose|i: int| 0 <= i < after.len() && (#[trigger] after[i]).0 == other;
    if envs.len() == 0 {
    } else if envs[0].0 == name {
        if i > 0 {
            assert(after[i] == envs.skip(1)[i - 1]);
            assert(envs[i].0 == other);
        }
    } else {
        let rest = upserted(envs.skip(1), name, value);
        if i == 0 {
            assert(envs[0].0 == other);
        } else {
            assert(after[i] == rest[i - 1]);
            assert(has_name(rest, other));
            lemma_upserted_names(envs.skip(1), name, value, other);
            if other != name {
                let j = choose|j: int|
                    0 <= j < envs.skip(1).len() && (#[trigger] envs.skip(1)[j]).0 == other;
                assert(envs[j + 1].0 == other);
            }
        }
    }
}

/// Variables whose names are distinct stay so when one is set: its name
/// occurs once, with the new value, and every other variable is as it was.
pub proof fn law_set_keeps_names_distinct(
    envs: Seq<(Seq<char>, Seq<char>)>,
    name: Seq<char>,
    value: Seq<char>,
)
    requires
        distinct_names(envs),
    ensures
        distinct_names(upserted(envs, name, value)),
        has_name(upserted(envs, name, value), name),
    decreases envs.len(),
{
    let after = upserted(envs, name, value);
    if envs.len() == 0 {
        assert(after[0].0 == name);
    } else if envs[0].0 == name {
        assert(after[0].0 == name);
        assert forall|i: int, j: int| 0 <= i < j < after.len() implies (#[trigger] after[i]).0 != (
        #[trigger] after[j]).0 by {
            assert(after[j] == envs[j]);
            if i > 0 {
                assert(after[i] == envs[i]);
            }
        }
    } else {
        let rest_before = envs.skip(1);
        assert forall|i: int, j: int| 0 <= i < j < rest_before.len() implies (
        #[trigger] rest_before[i]).0 != (#[trigger] rest_before[j]).0 by {
            assert(rest_before[i] == envs[i + 1]);
            assert(rest_before[j] == envs[j + 1]);
        }
        law_set_keeps_names_distinct(rest_before, name, value);
        let rest = upserted(rest_before, name, value);
        let at = choose|k: int| 0 <= k < rest.len() && (#[trigger] rest[k]).0 == name;
        assert(after[at + 1] == rest[at]);
        assert forall|i: int, j: int| 0 <= i < j < after.len() implies (#[trigger] after[i]).0 != (
        #[trigger] after[j]).0 by {
            assert(after[j] == rest[j - 1]);
            if i == 0 {
                if after[j].0 == envs[0].0 {
                    assert(has_name(rest, envs[0].0));
                    lemma_upserted_names(rest_before, name, value, envs[0].0);
                    let k = choose|k: int|
                        0 <= k < rest_before.len() && (#[trigger] rest_before[k]).0 == envs[0].0;
                    assert(envs[k + 1].0 == envs[0].0);
                }
            } else {
                assert(after[i] == rest[i - 1]);
            }
        }
    }
}

/// Runs an application: builds it, then starts the server that the build
/// produced, with the variables that the task was given. The variables are
/// kept as a list in which a name is set once.
#[derive(Debug)]
pub struct RunTask {
    /// Options for running the application.
    pub options: RunOptions,
    /// Additional environment variables.
    pub envs: Vec<(String, String)>,
}

impl RunTask {
    /// A task with no additional variables.
    pub fn new(options: RunOptions) -> (t: RunTask)
        ensures
            t.options == options,
            t.envs@.len() == 0,
    {
        RunTask { options, envs: Vec::new() }
    }

    /// Sets a variable in the environment of the server: where the name is
    /// set already, it keeps its place and gets the new value; else it goes
    /// last. Names that were distinct stay so.
    pub fn env(&mut self, name: &str, value: String)
        ensures
            final(self).options == old(self).options,
            pairs_view(final(self).envs@) == upserted(pairs_view(old(self).envs@), name@, value@),
            distinct_names(pairs_view(old(self).envs@)) ==> distinct_names(
                pairs_view(final(self).envs@),
            ),
    {
        let ghost before = pairs_view(self.envs@);
        let key = name.to_owned();
        let mut i: usize = 0;
        proof {
            assert(before.take(0) + upserted(before.skip(0), name@, value@) =~= upserted(
                before,
                name@,
                value@,
            )) by {
                assert(before.skip(0) =~= before);
            }
            if distinct_names(before) {
                law_set_keeps_names_distinct(before, name@, value@);
            }
        }
        while i < self.envs.len()
            invariant
                i <= self.envs.len(),
                key@ == name@,
                pairs_view(self.envs@) == before,
                before == pairs_view(old(self).envs@),
                distinct_names(before) ==> distinct_names(upserted(before, name@, value@)),
                self.options == old(self).options,
                before.take(i as int) + upserted(before.skip(i as int), name@, value@) == upserted(
                    before,
                    name@,
                    value@,
                ),
            decreases self.envs.len() - i,
        {
            let ghost rest = before.skip(i as int);
            proof {
                assert(rest[0] == before[i as int]);
                assert(rest.skip(1) =~= before.skip(i as int + 1));
            }
            if self.envs[i].0 == key {
                proof {
                    assert(before[i as int].0 == self.envs@[i as int].0@);
                    assert(rest[0].0 == name@);
                    assert(upserted(rest, name@, value@) == seq![(name@, value@)] + rest.skip(1));
                }
                self.envs.set(i, (key, value));
                proof {
                    assert(pairs_view(self.envs@) =~= before.take(i as int) + (seq![(name@, value@)]
                        + rest.skip(1)));
                }
                return ;
            }
            proof {
                assert(before[i as int].0 == self.envs@[i as int].0@);
                assert(rest[0].0 != name@);
                assert(upserted(rest, name@, value@) == seq![rest[0]] + upserted(
                    rest.skip(1),
                    name@,
                    value@,
                ));
            }
            proof {
                assert(before.take(i as int + 1) + upserted(rest.skip(1), name@, value@)
                    =~= before.take(i as int) + (seq![rest[0]] + upserted(
                    rest.skip(1),
                    name@,
                    value@,
                )));
            }
            i += 1;
        }
        self.envs.push((key, value));
        proof {
            assert(before.skip(before.len() as int) =~= Seq::empty());
            assert(pairs_view(self.envs@) =~= before.take(before.len() as int) + seq![
                (name@, value@),
            ]);
        }
    }

    /// The build options of the task.
    pub fn build_options(&self) -> (o: BuildOptions)
        ensures
            o@ == self.options.build_view(),
    {
        BuildOptions::from_run(&self.options)
    }

    /// The path of the server executable `exec_file_name`: it lies in the
    /// directory of the build profile under `target_dir`, the target directory
    /// as resolved.
    pub fn get_executable_path(&self, target_dir: &FilePath, exec_file_name: &str) -> (p: FilePath)
        ensures
            p@ == target_dir@.push(profile_name(self.options.release)).push(exec_file_name@),
    {
        self.options.profile_dir_in(target_dir).join(exec_file_name)
    }

    /// The command that starts the server: the executable, no arguments, and
    /// in its environment the server's variables, the name of the compiled
    /// library, and then the variables of the task.
    pub fn spawn_server_exec(&self, target_dir: &FilePath, exec_file_name: &str, wasm_lib: &str) -> (c:
        Command)
        ensures
            c.program@ == ArgView::Path(
                target_dir@.push(profile_name(self.options.release)).push(exec_file_name@),
            ),
            c.args@.len() == 0,
            pairs_view(c.envs@) == server_envs(
                self.options.host@,
                self.options.port,
                self.options.static_dir@,
            ).push((wasm_lib_var(), wasm_lib@)) + pairs_view(self.envs@),
    {
        let program = self.get_executable_path(target_dir, exec_file_name);
        let mut envs = server_environment(
            self.options.host.as_str(),
            self.options.port,
            self.options.static_dir.as_str(),
        );
        let ghost base = pairs_view(envs@);
        envs.push(("HASHIRA_WASM_LIB".to_owned(), wasm_lib.to_owned()));
        assert(pairs_view(envs@) =~= base.push((wasm_lib_var(), wasm_lib@)));
        extend_environment(&mut envs, &self.envs);
        Command { program: Arg::Path(program), args: Vec::new(), envs }
    }
}

} // verus!
