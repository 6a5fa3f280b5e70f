use hashira::body::{Body, BodyInner, InvalidBodyError};
use hashira::commands::{
    cargo_build, cargo_build_wasm, cargo_run, live_reload_environment, port_text, server_environment,
    wasm_bindgen_build, Arg, Command, RunTask,
};
use hashira::components::{heading_of, ErrorPageProps, NotFoundPageProps};
use hashira::fs_path::FilePath;
use hashira::options::{default_includes, BuildOptions, RunOptions, WasmOptimizationLevel};
use hashira::pipeline::{
    check_included, claim_flags, include_files, is_inside_src, is_outside_directory, process_files,
    split_by_flags, take_claimed, BuildProgress, BuildStep, CopyFilesPipeline, IncludeError,
    Pipeline,
};
use hashira::response::{Response, ResponseError};
use hashira::status::StatusCode;
use hashira::text::{
    join_lines, parse_u32, split_str, str_contains, str_ends_with, u32_to_string,
};
use hashira::tools::{
    file_name_of_url, tool_source, ArchiveKind, DecompressError, Decompressor, LoadOptions, Tool,
    ToolSource, Version, VersionError,
};

fn path(parts: &[&str]) -> FilePath {
    FilePath::new(parts.iter().map(|p| p.to_string()).collect())
}

fn show(arg: &Arg) -> String {
    match arg {
        Arg::Text(t) => t.clone(),
        Arg::Path(p) => p.components.join("/"),
    }
}

fn line(c: &Command) -> Vec<String> {
    let mut v = vec![show(&c.program)];
    v.extend(c.args.iter().map(show));
    v
}

fn build_options(target: Option<&[&str]>, release: bool, quiet: bool) -> BuildOptions {
    BuildOptions {
        target_dir: target.map(path),
        public_dir: path(&["public"]),
        release,
        includes: vec![],
        allow_include_external: false,
        allow_include_src: false,
        quiet,
        opt_level: None,
        styles: path(&["global.css"]),
    }
}

fn run_options(target: Option<&[&str]>, release: bool, quiet: bool) -> RunOptions {
    RunOptions {
        target_dir: target.map(path),
        public_dir: path(&["public"]),
        release,
        includes: vec!["a".to_string(), "b".to_string()],
        allow_include_external: true,
        allow_include_src: false,
        quiet,
        opt_level: Some(WasmOptimizationLevel::Level3),
        styles: path(&["global.css"]),
        static_dir: "/static".to_string(),
        host: "0.0.0.0".to_string(),
        port: 80,
    }
}

#[test]
fn version_new_and_text() {
    assert_eq!(Version::new(1, 2, Some(3)).to_string(), "1.2.3");
    assert_eq!(Version::new(0, 2, None).to_string(), "0.2");
    assert_eq!(Version::new(10, 0, Some(0)).to_string(), "10.0.0");
    assert_eq!(
        Version::new(u32::MAX, 7, Some(u32::MAX)).to_string(),
        "4294967295.7.4294967295"
    );
    let v = Version::new(3, 4, None);
    assert_eq!((v.mayor, v.minor, v.patch), (3, 4, None));
}

#[test]
fn version_parse_takes_two_or_three_numbers() {
    assert_eq!(Version::parse("1.2.3"), Ok(Version::new(1, 2, Some(3))));
    assert_eq!(Version::parse("0.84"), Ok(Version::new(0, 84, None)));
    assert_eq!(Version::parse("+1.02.003"), Ok(Version::new(1, 2, Some(3))));
    assert_eq!("18.16.0".parse::<Version>(), Ok(Version::new(18, 16, Some(0))));
    assert_eq!(Version::parse("1"), Err(VersionError::Format));
    assert_eq!(Version::parse(""), Err(VersionError::Format));
    assert_eq!(Version::parse("1.2.3.4"), Err(VersionError::Format));
    assert_eq!(Version::parse("a.2"), Err(VersionError::Mayor));
    assert_eq!(Version::parse(".2"), Err(VersionError::Mayor));
    assert_eq!(Version::parse("1.b"), Err(VersionError::Minor));
    assert_eq!(Version::parse("1."), Err(VersionError::Minor));
    assert_eq!(Version::parse("1.2."), Err(VersionError::Patch));
    assert_eq!(Version::parse("1.2.x"), Err(VersionError::Patch));
    assert_eq!(Version::parse("1.2.4294967296"), Err(VersionError::Patch));
    assert_eq!(Version::parse("v1.2"), Err(VersionError::Mayor));
    assert_eq!(Version::parse("1.-2"), Err(VersionError::Minor));
    assert_eq!(Version::parse(" 1.2"), Err(VersionError::Mayor));
}

#[test]
fn version_text_parses_back() {
    for v in [
        Version::new(0, 0, None),
        Version::new(1, 2, Some(3)),
        Version::new(4294967295, 0, Some(9)),
        Version::new(12, 345, None),
    ] {
        assert_eq!(Version::parse(&v.to_string()), Ok(v.clone()));
    }
}

#[test]
fn version_errors_have_messages() {
    assert_eq!(VersionError::Format.message(), "invalid string, expected 2 or 3 numbers");
    assert_eq!(VersionError::Mayor.message(), "invalid `mayor` in version string");
    assert_eq!(VersionError::Minor.message(), "invalid `minor` in version string");
    assert_eq!(VersionError::Patch.message(), "invalid `patch` in version string");
}

#[test]
fn parse_u32_is_like_the_standard_library() {
    for s in [
        "0", "7", "42", "007", "+5", "+", "", "-1", "4294967295", "4294967296", "99999999999",
        "1_0", " 1", "1 ", "12a", "a12", "++1", "+0", "٣", "1.0", "0x10",
    ] {
        assert_eq!(parse_u32(s), s.parse::<u32>().ok(), "input {:?}", s);
    }
}

#[test]
fn u32_to_string_is_decimal() {
    for n in [0u32, 1, 9, 10, 11, 99, 100, 101, 5000, 65535, 4294967295] {
        assert_eq!(u32_to_string(n), n.to_string());
    }
    assert_eq!(port_text(0), "0");
    assert_eq!(port_text(65535), "65535");
}

#[test]
fn split_is_like_the_standard_library() {
    for s in ["", "a", "a.b", ".", "a.", ".a", "a..b", "...", "1.2.3"] {
        let expected: Vec<String> = s.split('.').map(|p| p.to_string()).collect();
        assert_eq!(split_str(s, '.'), expected, "input {:?}", s);
    }
    assert_eq!(split_str("a/b", '.'), vec!["a/b".to_string()]);
}

#[test]
fn text_suffix_and_contains() {
    assert!(str_ends_with("file.tar.gz", ".tar.gz"));
    assert!(str_ends_with(".zip", ".zip"));
    assert!(!str_ends_with("zip", ".zip"));
    assert!(str_ends_with("abc", ""));
    assert!(!str_ends_with("file.zip.txt", ".zip"));
    assert!(str_contains("a.b", '.'));
    assert!(!str_contains("ab", '.'));
    assert!(!str_contains("", '.'));
    assert_eq!(join_lines(&vec![]), "");
    assert_eq!(join_lines(&vec!["a".to_string()]), "a");
    assert_eq!(join_lines(&vec!["a".to_string(), "".to_string(), "b".to_string()]), "a\n\nb");
}

#[test]
fn decompressor_goes_by_the_file_name() {
    let kind = |p: &str| Decompressor::get(p, true);
    assert!(matches!(kind("tools/node.tar.gz"), Ok(Some(Decompressor::TarGz(c))) if c.0 == "tools/node.tar.gz"));
    assert!(matches!(kind("tools/tailwind.zip"), Ok(Some(Decompressor::Zip(c))) if c.0 == "tools/tailwind.zip"));
    assert!(matches!(kind("tools/wasm-bindgen"), Ok(Some(Decompressor::Copy(c))) if c.0 == "tools/wasm-bindgen"));
    assert!(matches!(kind(""), Ok(Some(Decompressor::Copy(_)))));
    assert!(matches!(kind("tools/readme.md"), Err(DecompressError::Unsupported)));
    assert!(matches!(kind("tools/a.tar"), Err(DecompressError::Unsupported)));
    assert!(matches!(kind("tools.d/binary"), Err(DecompressError::Unsupported)));
    for p in ["a.tar.gz", "a.zip", "a", "a.md"] {
        assert!(matches!(Decompressor::get(p, false), Err(DecompressError::Missing)));
    }
    assert_eq!(DecompressError::Missing.message(), "file don't exists");
    assert_eq!(DecompressError::Unsupported.message(), "no decompressor for the file");
    assert_ne!(ArchiveKind::TarGz, ArchiveKind::Zip);
}

#[test]
fn file_name_of_url_is_what_follows_the_last_slash() {
    assert_eq!(
        file_name_of_url("https://example.org/files/raw/main/file.tar.gz"),
        "file.tar.gz"
    );
    assert_eq!(file_name_of_url("file.txt"), "file.txt");
    assert_eq!(file_name_of_url("https://example.org/dir/"), "");
    assert_eq!(file_name_of_url(""), "");
}

struct Node {
    at: FilePath,
}

impl Tool for Node {
    fn binary_name() -> String {
        "node".to_string()
    }
    fn default_version() -> Version {
        Version::new(18, 16, Some(0))
    }
    fn test_version_args() -> Vec<String> {
        vec!["--version".to_string()]
    }
    fn parse_version(s: &str) -> Result<Version, VersionError> {
        Version::parse(s.trim().trim_start_matches('v'))
    }
    fn additional_files() -> Vec<String> {
        vec![]
    }
    fn binary_path(&self) -> &FilePath {
        &self.at
    }
}

#[test]
fn tool_is_taken_from_the_cache_only_in_the_wanted_version() {
    let wanted = LoadOptions::default().version_or(Node::default_version());
    assert_eq!(wanted, Version::new(18, 16, Some(0)));
    let named = LoadOptions { version: Some(Version::new(20, 1, None)), install_dir: None };
    assert_eq!(named.version_or(Node::default_version()), Version::new(20, 1, None));

    assert_eq!(tool_source(&wanted, None), ToolSource::Install);
    assert_eq!(tool_source(&wanted, Some(&Version::new(18, 16, Some(0)))), ToolSource::Cache);
    assert_eq!(tool_source(&wanted, Some(&Version::new(18, 16, None))), ToolSource::Install);
    assert_eq!(tool_source(&wanted, Some(&Version::new(18, 15, Some(0)))), ToolSource::Install);
    assert_eq!(tool_source(&wanted, Some(&Version::new(17, 16, Some(0)))), ToolSource::Install);
    assert_eq!(Node::parse_version("v18.16.0\n"), Ok(Version::new(18, 16, Some(0))));
    assert_eq!(Node::binary_name(), "node");
    assert_eq!(Node { at: path(&["bin", "node"]) }.binary_path().components.len(), 2);
}

fn found(parts: &[&str]) -> Result<FilePath, String> {
    Ok(path(parts))
}

fn failed() -> Result<FilePath, String> {
    Err("no project here".to_string())
}

#[test]
fn target_dirs_resolve_to_the_named_or_the_default() {
    let named = build_options(Some(&["out"]), true, false);
    assert_eq!(
        named.resolved_target_dir(found(&["work", "target"])).unwrap().components,
        vec!["out"]
    );
    assert_eq!(
        named.profile_target_dir(found(&["work", "target"])).unwrap().components,
        vec!["out", "release"]
    );
    assert_eq!(
        named.public_target_dir(&path(&["out"])).components,
        vec!["out", "release", "public"]
    );
    assert_eq!(named.profile_dir_in(&path(&["x"])).components, vec!["x", "release"]);
    let unnamed = build_options(None, false, false);
    assert_eq!(
        unnamed.resolved_target_dir(found(&["work", "target"])).unwrap().components,
        vec!["work", "target"]
    );
    assert_eq!(
        unnamed.profile_target_dir(found(&["work", "target"])).unwrap().components,
        vec!["work", "target", "debug"]
    );
    let run = run_options(None, true, false);
    assert_eq!(
        run.resolved_target_dir(found(&["work", "target"])).unwrap().components,
        vec!["work", "target"]
    );
    assert_eq!(
        run.profile_target_dir(found(&["work", "target"])).unwrap().components,
        vec!["work", "target", "release"]
    );
    assert_eq!(
        run_options(Some(&["x", "y"]), false, false)
            .resolved_target_dir(found(&["work", "target"]))
            .unwrap()
            .components,
        vec!["x", "y"]
    );
    assert_eq!(run.profile_dir_in(&path(&["t"])).components, vec!["t", "release"]);
}

#[test]
fn a_named_target_dir_does_not_need_the_lookup() {
    let named = build_options(Some(&["out"]), false, false);
    assert_eq!(named.resolved_target_dir(failed()).unwrap().components, vec!["out"]);
    assert_eq!(named.profile_target_dir(failed()).unwrap().components, vec!["out", "debug"]);
    let run = run_options(Some(&["out"]), true, false);
    assert_eq!(run.resolved_target_dir(failed()).unwrap().components, vec!["out"]);
    assert_eq!(run.profile_target_dir(failed()).unwrap().components, vec!["out", "release"]);
}

#[test]
fn a_failed_lookup_is_passed_on_where_no_target_dir_is_named() {
    let unnamed = build_options(None, false, false);
    assert_eq!(unnamed.resolved_target_dir(failed()).unwrap_err(), "no project here");
    assert_eq!(unnamed.profile_target_dir(failed()).unwrap_err(), "no project here");
    let run = run_options(None, false, false);
    assert_eq!(run.resolved_target_dir(failed()).unwrap_err(), "no project here");
    assert_eq!(run.profile_target_dir(failed()).unwrap_err(), "no project here");
}

#[test]
fn build_options_are_taken_over_from_run_options() {
    let run = run_options(Some(&["out"]), true, true);
    let b = BuildOptions::from_run(&run);
    assert_eq!(b.target_dir.unwrap().components, vec!["out"]);
    assert_eq!(b.public_dir.components, vec!["public"]);
    assert!(b.release);
    assert_eq!(b.includes, vec!["a".to_string(), "b".to_string()]);
    assert!(b.allow_include_external);
    assert!(!b.allow_include_src);
    assert!(b.quiet);
    assert_eq!(b.opt_level, Some(WasmOptimizationLevel::Level3));
    assert_eq!(b.styles.components, vec!["global.css"]);
}

#[test]
fn cargo_commands_have_their_arguments_in_order() {
    let target_dir = path(&["work", "target"]);
    let out = path(&["out"]);
    assert_eq!(
        line(&cargo_build(&build_options(None, false, false), &target_dir)),
        vec!["cargo", "build", "--target-dir", "work/target"]
    );
    assert_eq!(
        line(&cargo_build(&build_options(Some(&["out"]), true, true), &out)),
        vec!["cargo", "build", "--quiet", "--target-dir", "out", "--release"]
    );
    assert_eq!(
        line(&cargo_build_wasm(&build_options(Some(&["out"]), true, true), &out)),
        vec![
            "cargo",
            "build",
            "--target",
            "wasm32-unknown-unknown",
            "--quiet",
            "--target-dir",
            "out",
            "--release"
        ]
    );
    assert_eq!(
        line(&wasm_bindgen_build(&build_options(None, false, false), &target_dir, "app.wasm")),
        vec![
            "wasm-bindgen",
            "--target",
            "web",
            "--no-typescript",
            "--out-dir",
            "work/target/debug/public",
            "work/target/wasm32-unknown-unknown/debug/app.wasm"
        ]
    );
    assert_eq!(
        line(&wasm_bindgen_build(&build_options(Some(&["o"]), true, false), &path(&["o"]), "a.wasm"))[5..],
        ["o/release/public".to_string(), "o/wasm32-unknown-unknown/release/a.wasm".to_string()]
    );
}

#[test]
fn cargo_run_carries_the_server_variables() {
    let target_dir = path(&["work", "target"]);
    let extra = vec![("HASHIRA_LIVE_RELOAD".to_string(), "1".to_string())];
    let c = cargo_run(&run_options(None, true, true), &target_dir, &extra);
    assert_eq!(
        line(&c),
        vec!["cargo", "run", "--quiet", "--target-dir", "work/target", "--release"]
    );
    assert_eq!(
        c.envs,
        vec![
            ("HASHIRA_HOST".to_string(), "0.0.0.0".to_string()),
            ("HASHIRA_PORT".to_string(), "80".to_string()),
            ("HASHIRA_STATIC_DIR".to_string(), "/static".to_string()),
            ("HASHIRA_LIVE_RELOAD".to_string(), "1".to_string()),
        ]
    );
    assert_eq!(server_environment("h", 65535, "/s")[1].1, "65535");
    assert_eq!(live_reload_environment("h", 1)[1], ("HASHIRA_LIVE_RELOAD_PORT".to_string(), "1".to_string()));
}

#[test]
fn run_task_starts_the_built_server_with_its_variables() {
    let target_dir = path(&["out"]);
    let mut task = RunTask::new(run_options(Some(&["out"]), false, false));
    assert!(task.envs.is_empty());
    task.env("HASHIRA_LIVE_RELOAD", "1".to_string());
    task.env("EXTRA", "x".to_string());
    assert_eq!(
        task.get_executable_path(&target_dir, "app.exe").components,
        vec!["out", "debug", "app.exe"]
    );
    let c = task.spawn_server_exec(&target_dir, "app.exe", "app_lib");
    assert_eq!(line(&c), vec!["out/debug/app.exe"]);
    assert_eq!(
        c.envs,
        vec![
            ("HASHIRA_HOST".to_string(), "0.0.0.0".to_string()),
            ("HASHIRA_PORT".to_string(), "80".to_string()),
            ("HASHIRA_STATIC_DIR".to_string(), "/static".to_string()),
            ("HASHIRA_WASM_LIB".to_string(), "app_lib".to_string()),
            ("HASHIRA_LIVE_RELOAD".to_string(), "1".to_string()),
            ("EXTRA".to_string(), "x".to_string()),
        ]
    );
    assert_eq!(task.build_options().includes, vec!["a".to_string(), "b".to_string()]);
}

#[test]
fn run_task_sets_a_name_once() {
    let mut task = RunTask::new(run_options(None, false, false));
    task.env("A", "1".to_string());
    task.env("B", "2".to_string());
    task.env("C", "3".to_string());
    task.env("B", "4".to_string());
    task.env("A", "5".to_string());
    assert_eq!(
        task.envs,
        vec![
            ("A".to_string(), "5".to_string()),
            ("B".to_string(), "4".to_string()),
            ("C".to_string(), "3".to_string()),
        ]
    );
}

#[test]
fn build_steps_run_in_order_and_stop_at_a_failure() {
    let mut step = BuildStep::first();
    let mut seen = vec![step];
    loop {
        match step.finished(true) {
            BuildProgress::Run(next) => {
                seen.push(next);
                step = next;
            }
            BuildProgress::Done => break,
            BuildProgress::Failed(_) => panic!("nothing failed"),
        }
    }
    assert_eq!(
        seen,
        vec![
            BuildStep::BuildServer,
            BuildStep::PreparePublicDir,
            BuildStep::BuildWasm,
            BuildStep::GenerateBindings,
            BuildStep::IncludeFiles
        ]
    );
    for s in seen {
        assert_eq!(s.finished(false), BuildProgress::Failed(s));
    }
    assert_eq!(BuildStep::IncludeFiles.next(), None);
}

#[test]
fn included_patterns_default_when_none_is_named() {
    let defaults = include_files(&build_options(None, false, false));
    let shown: Vec<(String, bool)> = defaults.iter().map(|f| (f.glob.clone(), f.is_default)).collect();
    assert_eq!(
        shown,
        vec![
            ("public/".to_string(), true),
            ("styles/".to_string(), true),
            ("favicon.ico".to_string(), true)
        ]
    );
    assert_eq!(default_includes(), vec!["public/", "styles/", "favicon.ico"]);
    let mut named = build_options(None, false, false);
    named.includes = vec!["assets/*".to_string()];
    let files = include_files(&named);
    assert_eq!(files.len(), 1);
    assert_eq!(files[0].glob, "assets/*");
    assert!(!files[0].is_default);
}

#[test]
fn included_files_stay_inside_the_project_and_outside_src() {
    let cwd = path(&["home", "app"]);
    let inside = path(&["home", "app", "public", "a.css"]);
    let in_src = path(&["home", "app", "src", "a.css"]);
    let outside = path(&["home", "other", "a.css"]);
    assert!(!is_outside_directory(&cwd, &inside));
    assert!(is_outside_directory(&cwd, &outside));
    assert!(is_inside_src(&cwd, &in_src, true));
    assert!(!is_inside_src(&cwd, &in_src, false));
    assert!(!is_inside_src(&cwd, &inside, true));
    assert!(!is_inside_src(&cwd, &path(&["home", "app", "srcs", "a"]), true));

    let strict = build_options(None, false, false);
    assert_eq!(check_included(&strict, &cwd, &inside, true), Ok(()));
    assert_eq!(check_included(&strict, &cwd, &outside, true), Err(IncludeError::Outside));
    assert_eq!(check_included(&strict, &cwd, &in_src, true), Err(IncludeError::InsideSrc));
    assert_eq!(check_included(&strict, &cwd, &in_src, false), Ok(()));
    let mut lax = build_options(None, false, false);
    lax.allow_include_external = true;
    lax.allow_include_src = true;
    assert_eq!(check_included(&lax, &cwd, &outside, true), Ok(()));
    assert_eq!(check_included(&lax, &cwd, &in_src, true), Ok(()));
}

struct ByExtension(&'static str);

impl Pipeline for ByExtension {
    fn claims(
        &self,
        _file: vstd::seq::Seq<vstd::seq::Seq<char>>,
        _dest: vstd::seq::Seq<vstd::seq::Seq<char>>,
    ) -> bool {
        unreachable!("a predicate is never run")
    }
    fn name(&self) -> String {
        self.0.to_string()
    }
    fn can_process(&self, file: &FilePath, _dest: &FilePath) -> bool {
        file.components.last().map(|n| n.ends_with(self.0)).unwrap_or(false)
    }
}

fn names(files: &[FilePath]) -> Vec<String> {
    files.iter().map(|f| f.components.join("/")).collect()
}

#[test]
fn pipelines_share_the_files_out_in_order() {
    let dest = path(&["out", "public"]);
    let mut files = vec![
        path(&["a.scss"]),
        path(&["b.css"]),
        path(&["c.scss"]),
        path(&["d.txt"]),
        path(&["e.css"]),
    ];
    let pipelines = vec![ByExtension(".scss"), ByExtension("css"), ByExtension(".md")];
    let shares = process_files(&pipelines, &mut files, &dest);
    assert_eq!(shares.len(), 3);
    assert_eq!(names(&shares[0]), vec!["a.scss", "c.scss"]);
    assert_eq!(names(&shares[1]), vec!["b.css", "e.css"]);
    assert!(shares[2].is_empty());
    // what nobody claimed is still there
    assert_eq!(names(&files), vec!["d.txt"]);
}

#[test]
fn split_by_flags_takes_the_flagged_files_in_order() {
    let mut files = vec![path(&["a"]), path(&["b"]), path(&["c"]), path(&["d"])];
    let claimed = split_by_flags(&mut files, &vec![true, false, false, true]);
    assert_eq!(names(&claimed), vec!["a", "d"]);
    assert_eq!(names(&files), vec!["b", "c"]);
    let claimed = split_by_flags(&mut files, &vec![false, false]);
    assert!(claimed.is_empty());
    assert_eq!(names(&files), vec!["b", "c"]);
    let claimed = split_by_flags(&mut files, &vec![true, true]);
    assert_eq!(names(&claimed), vec!["b", "c"]);
    assert!(files.is_empty());
    assert!(split_by_flags(&mut files, &vec![]).is_empty());
    let dest = path(&["out"]);
    let asked = vec![path(&["x.css"]), path(&["y.md"])];
    assert_eq!(claim_flags(&ByExtension(".css"), &asked, &dest), vec![true, false]);
}

#[test]
fn copy_pipeline_claims_every_file() {
    let dest = path(&["out"]);
    let mut files = vec![path(&["a"]), path(&["b", "c"])];
    assert!(CopyFilesPipeline.can_process(&files[0], &dest));
    assert_eq!(CopyFilesPipeline.name(), "copy files");
    let claimed = take_claimed(&CopyFilesPipeline, &mut files, &dest);
    assert_eq!(names(&claimed), vec!["a", "b/c"]);
    assert!(files.is_empty());
    let mut none: Vec<FilePath> = vec![];
    assert!(process_files(&vec![CopyFilesPipeline], &mut none, &dest)[0].is_empty());
}

#[test]
fn body_kinds() {
    let empty: Body<u8> = Body::empty();
    assert!(!empty.is_stream());
    assert_eq!(empty.try_as_bytes().unwrap(), &Vec::<u8>::new());
    let default: Body<u8> = Body::default();
    assert!(default.try_as_bytes().unwrap().is_empty());
    let text: Body<u8> = Body::from_text("né");
    assert_eq!(text.try_as_bytes().unwrap().as_slice(), "né".as_bytes());
    let bytes: Body<u8> = Body::from_bytes(vec![1, 2, 3]);
    assert!(matches!(bytes.into_inner(), BodyInner::Bytes(b) if b == vec![1, 2, 3]));
    let stream: Body<u8> = Body::from_stream(9);
    assert!(stream.is_stream());
    assert_eq!(stream.try_as_bytes().unwrap_err(), InvalidBodyError::Stream);
    assert!(matches!(stream.into_inner(), BodyInner::Stream(9)));
    assert_eq!(InvalidBodyError::Stream.message(), "body is a stream");
}

#[test]
fn responses_and_errors() {
    let ok: Response<()> = Response::new(Body::from_text("hi"));
    assert_eq!(ok.status(), StatusCode(200));
    assert!(ok.headers.is_empty());
    let page: Response<()> = Response::html("<p>hi</p>");
    assert_eq!(page.status(), StatusCode(200));
    assert_eq!(
        page.headers,
        vec![("content-type".to_string(), "text/html; charset=utf-8".to_string())]
    );
    assert_eq!(page.into_body().try_as_bytes().unwrap().as_slice(), b"<p>hi</p>");

    let e = ResponseError::new(StatusCode(403), Some("no".to_string()));
    assert_eq!(e.status(), StatusCode(403));
    assert_eq!(e.message().map(|m| m.as_str()), Some("no"));
    let r: Response<()> = e.into_response();
    assert_eq!(r.status(), StatusCode(403));
    assert_eq!(r.body.try_as_bytes().unwrap().as_slice(), b"no");
    let bare: Response<()> = ResponseError::from_status(StatusCode(404)).into_response();
    assert_eq!(bare.status(), StatusCode(404));
    assert!(bare.body.try_as_bytes().unwrap().is_empty());
    assert!(bare.error.unwrap().message().is_none());
}

#[test]
fn error_page_shows_code_and_reason() {
    let props = ErrorPageProps { status: StatusCode(404), message: Some("gone".to_string()) };
    assert_eq!(props.status_text(), "404");
    assert_eq!(props.heading(), "Not Found");
    let odd = ErrorPageProps { status: StatusCode(799), message: None };
    assert_eq!(odd.status_text(), "799");
    assert_eq!(odd.heading(), "An error has occurred");
    assert_eq!(heading_of(None), "An error has occurred");
    assert_eq!(heading_of(Some("Teapot".to_string())), "Teapot");
    let nf = NotFoundPageProps { message: Some("where?".to_string()) }.into_error_props();
    assert_eq!(nf.status, StatusCode(404));
    assert_eq!(nf.message.as_deref(), Some("where?"));
    assert!(NotFoundPageProps::default().message.is_none());
}
