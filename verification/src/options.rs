//! The options of the build, run and dev commands.

use vstd::prelude::*;
use crate::fs_path::{paths_view, FilePath};
use crate::text::{clone_strings, names_view};

verus! {

/// How far the wasm output is optimized.
#[derive(Debug, Clone, Copy, PartialEq, Eq, Structural)]
pub enum WasmOptimizationLevel {
    Level0,
    Level1,
    Level2,
    Level3,
    Level4,
    Size,
    MinSize,
}

/// The name of the directory of a build profile under the target directory.
pub open spec fn profile_name(release: bool) -> Seq<char> {
    if release {
        "release"@
    } else {
        "debug"@
    }
}

/// The options of a build, as contracts see them.
pub struct BuildOptionsView {
    pub target_dir: Option<Seq<Seq<char>>>,
    pub public_dir: Seq<Seq<char>>,
    pub release: bool,
    pub includes: Seq<Seq<char>>,
    pub allow_include_external: bool,
    pub allow_include_src: bool,
    pub quiet: bool,
    pub opt_level: Option<WasmOptimizationLevel>,
    pub styles: Seq<Seq<char>>,
}

/// The view of an optional path.
pub open spec fn path_view(path: Option<FilePath>) -> Option<Seq<Seq<char>>> {
    match path {
        Some(p) => Some(p@),
        None => None,
    }
}

/// The view of a path that was looked up, or of the failure to find it.
pub open spec fn lookup_view<E>(lookup: Result<FilePath, E>) -> Result<Seq<Seq<char>>, E> {
    match lookup {
        Ok(path) => Ok(path@),
        Err(e) => Err(e),
    }
}

/// The target directory: the one that the options name, whatever the lookup of
/// the project's own gave; where they name none, what the lookup gave, its
/// failure too.
pub open spec fn resolved_dir<E>(target_dir: Option<Seq<Seq<char>>>, lookup: Result<FilePath, E>) -> Result<
    Seq<Seq<char>>,
    E,
> {
    match target_dir {
        Some(dir) => Ok(dir),
        None => lookup_view(lookup),
    }
}

/// The directory of a build profile under what the target directory resolved
/// to.
pub open spec fn profile_dir<E>(resolved: Result<Seq<Seq<char>>, E>, release: bool) -> Result<
    Seq<Seq<char>>,
    E,
> {
    match resolved {
        Ok(dir) => Ok(dir.push(profile_name(release))),
        Err(e) => Err(e),
    }
}

/// A copy of an optional path.
pub fn clone_optional_path(path: &Option<FilePath>) -> (r: Option<FilePath>)
    ensures
        path_view(r) == path_view(*path),
{
    match path {
        Some(p) => Some(p.clone_path()),
        None => None,
    }
}

/// The options of the build command.
#[derive(Debug)]
pub struct BuildOptions {
    /// Base directory for the artifacts.
    pub target_dir: Option<FilePath>,
    /// Directory relative to the `target_dir` where the static files will be
    /// served from.
    pub public_dir: FilePath,
    /// Build artifacts in release mode, with optimizations.
    pub release: bool,
    /// A list of files and directories to copy in the `public_dir`.
    pub includes: Vec<String>,
    /// Allow to include files outside the current directory.
    pub allow_include_external: bool,
    /// Allow to include files inside the src/ directory.
    pub allow_include_src: bool,
    /// Whether the output of the commands is kept quiet.
    pub quiet: bool,
    /// Optimization level for the wasm.
    pub opt_level: Option<WasmOptimizationLevel>,
    /// Path to the css entry file.
    pub styles: FilePath,
}

impl View for BuildOptions {
    type V = BuildOptionsView;

    open spec fn view(&self) -> BuildOptionsView {
        BuildOptionsView {
            target_dir: path_view(self.target_dir),
            public_dir: self.public_dir@,
            release: self.release,
            includes: names_view(self.includes@),
            allow_include_external: self.allow_include_external,
            allow_include_src: self.allow_include_src,
            quiet: self.quiet,
            opt_level: self.opt_level,
            styles: self.styles@,
        }
    }
}

/// The options of the run command: those of a build, and where the server
/// listens.
#[derive(Debug)]
pub struct RunOptions {
    /// Base directory for the artifacts.
    pub target_dir: Option<FilePath>,
    /// Directory relative to the `target_dir` where the static files will be
    /// served from.
    pub public_dir: FilePath,
    /// Build artifacts in release mode, with optimizations.
    pub release: bool,
    /// A list of files to copy in the `public_dir`.
    pub includes: Vec<String>,
    /// Allow to include files outside the current directory.
    pub allow_include_external: bool,
    /// Allow to include files inside the src/ directory.
    pub allow_include_src: bool,
    /// Whether the output of the commands is kept quiet.
    pub quiet: bool,
    /// Optimization level for the wasm.
    pub opt_level: Option<WasmOptimizationLevel>,
    /// Path to the css entry file.
    pub styles: FilePath,
    /// The server path where the static files will be served.
    pub static_dir: String,
    /// The host to run the application.
    pub host: String,
    /// The port to run the application.
    pub port: u16,
}

/// The options of the dev command: those of a run, where the reload server
/// listens, and what is not watched.
#[derive(Debug)]
pub struct DevOptions {
    /// Base directory for the artifacts.
    pub target_dir: Option<FilePath>,
    /// Directory relative to the `target_dir` where the static files will be
    /// served from.
    pub public_dir: FilePath,
    /// Build artifacts in release mode, with optimizations.
    pub release: bool,
    /// A list of files to copy in the `public_dir`.
    pub includes: Vec<String>,
    /// Allow to include files outside the current directory.
    pub allow_include_external: bool,
    /// Allow to include files inside the src/ directory.
    pub allow_include_src: bool,
    /// Whether the output of the commands is kept quiet.
    pub quiet: bool,
    /// Optimization level for the wasm.
    pub opt_level: Option<WasmOptimizationLevel>,
    /// Path to the css entry file.
    pub styles: FilePath,
    /// The server path where the static files will be served.
    pub static_dir: String,
    /// The host to run the application.
    pub host: String,
    /// The port to run the application.
    pub port: u16,
    /// The host of the reload server.
    pub reload_host: String,
    /// The port of the reload server.
    pub reload_port: u16,
    /// Paths to ignore while waiting for changes.
    pub ignore: Vec<FilePath>,
}

impl BuildOptions {
    /// The directory of the artifacts: the one these options name; where they
    /// name none, the one that `lookup` found for the project, and the
    /// failure of the lookup where it found none.
    pub fn resolved_target_dir<E>(&self, lookup: Result<FilePath, E>) -> (dir: Result<FilePath, E>)
        ensures
            lookup_view(dir) == resolved_dir(self@.target_dir, lookup),
            self.target_dir is None ==> dir == lookup,
    {
        match &self.target_dir {
            Some(path) => Ok(path.clone_path()),
            None => lookup,
        }
    }

    /// The directory of the build profile under the target directory:
    /// `release` for a release build, `debug` else.
    pub fn profile_target_dir<E>(&self, lookup: Result<FilePath, E>) -> (dir: Result<FilePath, E>)
        ensures
            lookup_view(dir) == profile_dir(resolved_dir(self@.target_dir, lookup), self.release),
    {
        match self.resolved_target_dir(lookup) {
            Ok(dir) => Ok(self.profile_dir_in(&dir)),
            Err(e) => Err(e),
        }
    }

    /// The directory of the build profile under `target_dir`.
    pub fn profile_dir_in(&self, target_dir: &FilePath) -> (dir: FilePath)
        ensures
            dir@ == target_dir@.push(profile_name(self.release)),
    {
        if self.release {
            target_dir.join("release")
        } else {
            target_dir.join("debug")
        }
    }

    /// The directory of the static files: the public directory under that of
    /// the build profile under `target_dir`.
    pub fn public_target_dir(&self, target_dir: &FilePath) -> (dir: FilePath)
        ensures
            dir@ == target_dir@.push(profile_name(self.release)) + self@.public_dir,
    {
        self.profile_dir_in(target_dir).join_path(&self.public_dir)
    }

    /// The build options among the options of a run.
    pub fn from_run(run_opts: &RunOptions) -> (o: BuildOptions)
        ensures
            o@ == run_opts.build_view(),
    {
        BuildOptions {
            target_dir: clone_optional_path(&run_opts.target_dir),
            public_dir: run_opts.public_dir.clone_path(),
            release: run_opts.release,
            includes: clone_strings(&run_opts.includes),
            allow_include_external: run_opts.allow_include_external,
            allow_include_src: run_opts.allow_include_src,
            quiet: run_opts.quiet,
            opt_level: run_opts.opt_level,
            styles: run_opts.styles.clone_path(),
        }
    }

    /// The build options among the options of a dev session.
    pub fn from_dev(dev_opts: &DevOptions) -> (o: BuildOptions)
        ensures
            o@ == dev_opts.build_view(),
    {
        BuildOptions {
            target_dir: clone_optional_path(&dev_opts.target_dir),
            public_dir: dev_opts.public_dir.clone_path(),
            release: dev_opts.release,
            includes: clone_strings(&dev_opts.includes),
            allow_include_external: dev_opts.allow_include_external,
            allow_include_src: dev_opts.allow_include_src,
            quiet: dev_opts.quiet,
            opt_level: dev_opts.opt_level,
            styles: dev_opts.styles.clone_path(),
        }
    }
}

impl RunOptions {
    /// The build options among these, as contracts see them.
    pub open spec fn build_view(self) -> BuildOptionsView {
        BuildOptionsView {
            target_dir: path_view(self.target_dir),
            public_dir: self.public_dir@,
            release: self.release,
            includes: names_view(self.includes@),
            allow_include_external: self.allow_include_external,
            allow_include_src: self.allow_include_src,
            quiet: self.quiet,
            opt_level: self.opt_level,
            styles: self.styles@,
        }
    }

    /// The directory of the artifacts: the one these options name; where they
    /// name none, the one that `lookup` found for the project, and the
    /// failure of the lookup where it found none.
    pub fn resolved_target_dir<E>(&self, lookup: Result<FilePath, E>) -> (dir: Result<FilePath, E>)
        ensures
            lookup_view(dir) == resolved_dir(path_view(self.target_dir), lookup),
            self.target_dir is None ==> dir == lookup,
    {
        match &self.target_dir {
            Some(path) => Ok(path.clone_path()),
            None => lookup,
        }
    }

    /// The directory of the build profile under the target directory.
    pub fn profile_target_dir<E>(&self, lookup: Result<FilePath, E>) -> (dir: Result<FilePath, E>)
        ensures
            lookup_view(dir) == profile_dir(
                resolved_dir(path_view(self.target_dir), lookup),
                self.release,
            ),
    {
        match self.resolved_target_dir(lookup) {
            Ok(dir) => Ok(self.profile_dir_in(&dir)),
            Err(e) => Err(e),
        }
    }

    /// The directory of the build profile under `target_dir`.
    pub fn profile_dir_in(&self, target_dir: &FilePath) -> (dir: FilePath)
        ensures
            dir@ == target_dir@.push(profile_name(self.release)),
    {
        if self.release {
            target_dir.join("release")
        } else {
            target_dir.join("debug")
        }
    }

    /// The run options among the options of a dev session.
    pub fn from_dev(dev_opts: &DevOptions) -> (o: RunOptions)
        ensures
            o.build_view() == dev_opts.build_view(),
            o.static_dir@ == dev_opts.static_dir@,
            o.host@ == dev_opts.host@,
            o.port == dev_opts.port,
    {
        RunOptions {
            target_dir: clone_optional_path(&dev_opts.target_dir),
            public_dir: dev_opts.public_dir.clone_path(),
            release: dev_opts.release,
            includes: clone_strings(&dev_opts.includes),
            allow_include_external: dev_opts.allow_include_external,
            allow_include_src: dev_opts.allow_include_src,
            quiet: dev_opts.quiet,
            opt_level: dev_opts.opt_level,
            styles: dev_opts.styles.clone_path(),
            static_dir: dev_opts.static_dir.clone(),
            host: dev_opts.host.clone(),
            port: dev_opts.port,
        }
    }
}

impl DevOptions {
    /// The build options among these, as contracts see them.
    pub open spec fn build_view(self) -> BuildOptionsView {
        BuildOptionsView {
            target_dir: path_view(self.target_dir),
            public_dir: self.public_dir@,
            release: self.release,
            includes: names_view(self.includes@),
            allow_include_external: self.allow_include_external,
            allow_include_src: self.allow_include_src,
            quiet: self.quiet,
            opt_level: self.opt_level,
            styles: self.styles@,
        }
    }

    /// The paths whose changes start no rebuild: those that the options name,
    /// then the directory and the ignore file of the version control, then the
    /// target directory where the options name one.
    pub open spec fn ignored(self) -> Seq<Seq<Seq<char>>> {
        paths_view(self.ignore@) + seq![seq![".git"@], seq![".gitignore"@]] + match self.target_dir {
            Some(dir) => seq![dir@],
            None => Seq::empty(),
        }
    }

    /// The paths whose changes start no rebuild, as the options give them. The
    /// caller keeps those that exist, in canonical form.
    pub fn ignored_paths(&self) -> (paths: Vec<FilePath>)
        ensures
            paths_view(paths@) == self.ignored(),
    {
        let mut paths: Vec<FilePath> = Vec::new();
        let mut i: usize = 0;
        while i < self.ignore.len()
            invariant
                i <= self.ignore.len(),
                paths_view(paths@) == paths_view(self.ignore@).take(i as int),
            decreases self.ignore.len() - i,
        {
            let ghost before = paths_view(paths@);
            paths.push(self.ignore[i].clone_path());
            assert(paths_view(paths@) =~= before.push(self.ignore@[i as int]@));
            i += 1;
            assert(paths_view(paths@) =~= paths_view(self.ignore@).take(i as int));
        }
        assert(paths_view(self.ignore@).take(self.ignore@.len() as int) =~= paths_view(self.ignore@));
        let ghost listed = paths_view(paths@);
        paths.push(FilePath::single(".git"));
        paths.push(FilePath::single(".gitignore"));
        assert(paths_view(paths@) =~= listed + seq![seq![".git"@], seq![".gitignore"@]]);
        match &self.target_dir {
            Some(dir) => {
                let ghost so_far = paths_view(paths@);
                paths.push(dir.clone_path());
                assert(paths_view(paths@) =~= so_far + seq![dir@]);
            },
            None => {
                assert(paths_view(paths@) =~= paths_view(paths@) + Seq::empty());
            },
        }
        paths
    }
}

/// The files and directories that go to the public directory where the options
/// name none.
pub fn default_includes() -> (v: Vec<String>)
    ensures
        names_view(v@) == seq!["public/"@, "styles/"@, "favicon.ico"@],
{
    let mut v: Vec<String> = Vec::new();
    v.push("public/".to_owned());
    v.push("styles/".to_owned());
    v.push("favicon.ico".to_owned());
    assert(names_view(v@) =~= seq!["public/"@, "styles/"@, "favicon.ico"@]);
    v
}

} // verus!
