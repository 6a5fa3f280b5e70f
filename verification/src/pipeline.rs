//! The build: its steps in their order, the files that go to the public
//! directory, and the pipelines that share them out.

use vstd::multiset::Multiset;
use vstd::prelude::*;
use crate::fs_path::{is_path_prefix, paths_view, FilePath};
use crate::options::{default_includes, BuildOptions};
use crate::text::{clone_strings, names_view};

verus! {

/// A step of the build.
#[derive(Debug, Clone, Copy, PartialEq, Eq, Structural)]
pub enum BuildStep {
    /// Compile the server.
    BuildServer,
    /// Remove the public directory of an earlier build.
    PreparePublicDir,
    /// Compile the client for the wasm target.
    BuildWasm,
    /// Generate the bindings of the client.
    GenerateBindings,
    /// Copy the included files to the public directory.
    IncludeFiles,
}

/// Where a build stands after a step.
#[derive(Debug, Clone, Copy, PartialEq, Eq, Structural)]
pub enum BuildProgress {
    /// Run this step next.
    Run(BuildStep),
    /// Every step succeeded.
    Done,
    /// This step failed, and with it the build.
    Failed(BuildStep),
}

impl BuildStep {
    /// The step that follows this one, if any.
    pub open spec fn spec_next(self) -> Option<BuildStep> {
        match self {
            BuildStep::BuildServer => Some(BuildStep::PreparePublicDir),
            BuildStep::PreparePublicDir => Some(BuildStep::BuildWasm),
            BuildStep::BuildWasm => Some(BuildStep::GenerateBindings),
            BuildStep::GenerateBindings => Some(BuildStep::IncludeFiles),
            BuildStep::IncludeFiles => None,
        }
    }

    /// The place of the step in the build, from 0.
    pub open spec fn order(self) -> nat {
        match self {
            BuildStep::BuildServer => 0,
            BuildStep::PreparePublicDir => 1,
            BuildStep::BuildWasm => 2,
            BuildStep::GenerateBindings => 3,
            BuildStep::IncludeFiles => 4,
        }
    }

    /// The first step of a build.
    pub fn first() -> (s: BuildStep)
        ensures
            s == BuildStep::BuildServer,
    {
        BuildStep::BuildServer
    }

    /// The step that follows this one, if any.
    pub fn next(&self) -> (r: Option<BuildStep>)
        ensures
            r == self.spec_next(),
    {
        match self {
            BuildStep::BuildServer => Some(BuildStep::PreparePublicDir),
            BuildStep::PreparePublicDir => Some(BuildStep::BuildWasm),
            BuildStep::BuildWasm => Some(BuildStep::GenerateBindings),
            BuildStep::GenerateBindings => Some(BuildStep::IncludeFiles),
            BuildStep::IncludeFiles => None,
        }
    }

    /// Where the build stands after this step has ended: a failure ends the
    /// build; after a success the next step runs, and the build is done after
    /// the last.
    pub fn finished(&self, succeeded: bool) -> (p: BuildProgress)
        ensures
            !succeeded ==> p == BuildProgress::Failed(*self),
            succeeded ==> p == match self.spec_next() {
                Some(step) => BuildProgress::Run(step),
                None => BuildProgress::Done,
            },
    {
        if !succeeded {
            return BuildProgress::Failed(*self);
        }
        match self.next() {
            Some(step) => BuildProgress::Run(step),
            None => BuildProgress::Done,
        }
    }
}

/// Each step is followed by the one that stands next in the build, so that
/// the steps run in their order and the build ends.
pub proof fn law_steps_run_in_order(step: BuildStep)
    ensures
        match step.spec_next() {
            Some(next) => next.order() == step.order() + 1,
            None => step.order() == 4,
        },
{
}

/// A pattern for the files to copy to the public directory.
#[derive(Debug)]
pub struct IncludeFiles {
    /// The pattern, as a glob.
    pub glob: String,
    /// Whether the pattern is one of the defaults, which may match nothing.
    pub is_default: bool,
}

/// The views of a list of patterns.
pub open spec fn globs_view(files: Seq<IncludeFiles>) -> Seq<(Seq<char>, bool)> {
    files.map_values(|f: IncludeFiles| (f.glob@, f.is_default))
}

/// The patterns that `names` give, all default or all not.
pub open spec fn globs_of(names: Seq<Seq<char>>, is_default: bool) -> Seq<(Seq<char>, bool)> {
    names.map_values(|n: Seq<char>| (n, is_default))
}

/// The patterns of the files to copy: those that the options name, or the
/// defaults where they name none.
pub fn include_files(opts: &BuildOptions) -> (files: Vec<IncludeFiles>)
    ensures
        opts.includes@.len() == 0 ==> globs_view(files@) == globs_of(
            seq!["public/"@, "styles/"@, "favicon.ico"@],
            true,
        ),
        opts.includes@.len() > 0 ==> globs_view(files@) == globs_of(names_view(opts.includes@), false),
{
    let is_default = opts.includes.len() == 0;
    let names = if is_default {
        default_includes()
    } else {
        clone_strings(&opts.includes)
    };
    let mut files: Vec<IncludeFiles> = Vec::new();
    let mut i: usize = 0;
    while i < names.len()
        invariant
            i <= names.len(),
            globs_view(files@) == globs_of(names_view(names@), is_default).take(i as int),
        decreases names.len() - i,
    {
        let ghost before = globs_view(files@);
        files.push(IncludeFiles { glob: names[i].clone(), is_default });
        assert(globs_view(files@) =~= before.push((names@[i as int]@, is_default)));
        i += 1;
        assert(globs_view(files@) =~= globs_of(names_view(names@), is_default).take(i as int));
    }
    assert(globs_of(names_view(names@), is_default).take(names@.len() as int) =~= globs_of(
        names_view(names@),
        is_default,
    ));
    files
}

/// Why a file may not be copied to the public directory.
#[derive(Debug, Clone, Copy, PartialEq, Eq, Structural)]
pub enum IncludeError {
    /// The file lies outside the current directory.
    Outside,
    /// The file lies inside the `src` directory.
    InsideSrc,
}

/// Whether `path` lies outside `base`.
pub open spec fn spec_is_outside(base: Seq<Seq<char>>, path: Seq<Seq<char>>) -> bool {
    !is_path_prefix(base, path)
}

/// Whether `path` lies in the `src` directory of `base`.
pub open spec fn spec_is_inside_src(base: Seq<Seq<char>>, path: Seq<Seq<char>>) -> bool {
    is_path_prefix(base.push("src"@), path)
}

/// Whether the canonical `path` lies outside the canonical directory `base`.
pub fn is_outside_directory(base: &FilePath, path: &FilePath) -> (r: bool)
    ensures
        r == spec_is_outside(base@, path@),
{
    !path.starts_with(base)
}

/// Whether the canonical `path` lies in the `src` directory of the canonical
/// directory `base`. Where `base` has no such directory, no path does.
pub fn is_inside_src(base: &FilePath, path: &FilePath, src_exists: bool) -> (r: bool)
    ensures
        r == (src_exists && spec_is_inside_src(base@, path@)),
{
    if !src_exists {
        return false;
    }
    path.starts_with(&base.join("src"))
}

/// Whether the file at the canonical `path` may be copied, seen from the
/// canonical current directory `cwd`: not from outside it, unless the options
/// allow that, and not from its `src` directory, unless they allow that.
pub fn check_included(opts: &BuildOptions, cwd: &FilePath, path: &FilePath, src_exists: bool) -> (r:
    Result<(), IncludeError>)
    ensures
        r == if !opts.allow_include_external && spec_is_outside(cwd@, path@) {
            Err::<(), IncludeError>(IncludeError::Outside)
        } else if !opts.allow_include_src && src_exists && spec_is_inside_src(cwd@, path@) {
            Err::<(), IncludeError>(IncludeError::InsideSrc)
        } else {
            Ok::<(), IncludeError>(())
        },
{
    if !opts.allow_include_external && is_outside_directory(cwd, path) {
        return Err(IncludeError::Outside);
    }
    if !opts.allow_include_src && is_inside_src(cwd, path, src_exists) {
        return Err(IncludeError::InsideSrc);
    }
    Ok(())
}

/// A processor of files on their way to the public directory. It claims the
/// files that it can process.
pub trait Pipeline {
    /// Whether the pipeline claims `file`, which is to go to `dest`: its
    /// predicate.
    spec fn claims(&self, file: Seq<Seq<char>>, dest: Seq<Seq<char>>) -> bool;

    /// The name of the pipeline.
    fn name(&self) -> String;

    /// Whether the pipeline claims `file`, which is to go to `dest`.
    fn can_process(&self, file: &FilePath, dest: &FilePath) -> (r: bool)
        ensures
            r == self.claims(file@, dest@),
    ;
}

/// The pipeline that copies a file as it is. It claims every file, and so
/// stands last.
#[derive(Debug, Clone, Copy, PartialEq, Eq, Structural)]
pub struct CopyFilesPipeline;

impl Pipeline for CopyFilesPipeline {
    open spec fn claims(&self, file: Seq<Seq<char>>, dest: Seq<Seq<char>>) -> bool {
        true
    }

    /// The name of this pipeline: `copy files`.
    fn name(&self) -> (n: String)
        ensures
            n@ == "copy files"@,
    {
        "copy files".to_owned()
    }

    fn can_process(&self, file: &FilePath, dest: &FilePath) -> (r: bool) {
        true
    }
}

/// The files of `files` that `pipeline` claims, in their order.
pub open spec fn claimed_by<P: Pipeline>(
    pipeline: P,
    files: Seq<Seq<Seq<char>>>,
    dest: Seq<Seq<char>>,
) -> Seq<Seq<Seq<char>>> {
    files.filter(|f: Seq<Seq<char>>| pipeline.claims(f, dest))
}

/// The files of `files` that `pipeline` leaves to the pipelines after it, in
/// their order.
pub open spec fn left_by<P: Pipeline>(
    pipeline: P,
    files: Seq<Seq<Seq<char>>>,
    dest: Seq<Seq<char>>,
) -> Seq<Seq<Seq<char>>> {
    files.filter(|f: Seq<Seq<char>>| !pipeline.claims(f, dest))
}

/// The files that are left of `files` after each of `pipelines`, first to
/// last, has taken those it claims.
pub open spec fn unclaimed<P: Pipeline>(
    pipelines: Seq<P>,
    files: Seq<Seq<Seq<char>>>,
    dest: Seq<Seq<char>>,
) -> Seq<Seq<Seq<char>>>
    decreases pipelines.len(),
{
    if pipelines.len() == 0 {
        files
    } else {
        left_by(pipelines.last(), unclaimed(pipelines.drop_last(), files, dest), dest)
    }
}

/// To pick by the flags of a predicate is to filter by it: the items picked
/// for `true` are those that satisfy it, the items picked for `false` those
/// that do not.
pub proof fn lemma_picked_is_filter<T>(items: Seq<T>, flags: Seq<bool>, pred: spec_fn(T) -> bool)
    requires
        flags.len() == items.len(),
        forall|j: int| 0 <= j < items.len() ==> flags[j] == pred(#[trigger] items[j]),
    ensures
        picked(items, flags, true) == items.filter(pred),
        picked(items, flags, false) == items.filter(|x: T| !pred(x)),
    decreases items.len(),
{
    reveal(Seq::filter);
    if items.len() > 0 {
        let init = items.drop_last();
        let init_flags = flags.drop_last();
        assert forall|j: int| 0 <= j < init.len() implies init_flags[j] == pred(
            #[trigger] init[j],
        ) by {
            assert(init[j] == items[j]);
        }
        lemma_picked_is_filter(init, init_flags, pred);
        assert(flags.last() == pred(items.last()));
    }
}

/// The items of `items` whose flag is `want`, in their order. There is one
/// flag for each item.
pub open spec fn picked<T>(items: Seq<T>, flags: Seq<bool>, want: bool) -> Seq<T>
    decreases items.len(),
{
    if items.len() == 0 || flags.len() != items.len() {
        Seq::empty()
    } else {
        let before = picked(items.drop_last(), flags.drop_last(), want);
        if flags.last() == want {
            before.push(items.last())
        } else {
            before
        }
    }
}

/// The files of all `shares` together, each as often as it occurs.
pub open spec fn shared_files(shares: Seq<Seq<Seq<Seq<char>>>>) -> Multiset<Seq<Seq<char>>>
    decreases shares.len(),
{
    if shares.len() == 0 {
        Multiset::empty()
    } else {
        shared_files(shares.drop_last()).add(shares.last().to_multiset())
    }
}

/// Every item is picked by exactly one of the two values of its flag: the
/// items picked for `true` and those picked for `false` are together the
/// items, each as often as it occurs.
pub proof fn law_picked_parts<T>(items: Seq<T>, flags: Seq<bool>)
    requires
        flags.len() == items.len(),
    ensures
        picked(items, flags, true).to_multiset().add(picked(items, flags, false).to_multiset())
            == items.to_multiset(),
        picked(items, flags, true).len() + picked(items, flags, false).len() == items.len(),
    decreases items.len(),
{
    broadcast use vstd::seq_lib::group_to_multiset_ensures;

    if items.len() == 0 {
        assert(items.to_multiset() =~= Multiset::empty());
        assert(picked(items, flags, true).to_multiset().add(
            picked(items, flags, false).to_multiset(),
        ) =~= Multiset::empty());
    } else {
        law_picked_parts(items.drop_last(), flags.drop_last());
        let yes = picked(items.drop_last(), flags.drop_last(), true);
        let no = picked(items.drop_last(), flags.drop_last(), false);
        assert(items =~= items.drop_last().push(items.last()));
        assert(items.to_multiset() =~= items.drop_last().to_multiset().insert(items.last()));
        if flags.last() {
            assert(yes.push(items.last()).to_multiset().add(no.to_multiset()) =~= yes.to_multiset().add(
                no.to_multiset(),
            ).insert(items.last()));
        } else {
            assert(yes.to_multiset().add(no.push(items.last()).to_multiset()) =~= yes.to_multiset().add(
                no.to_multiset(),
            ).insert(items.last()));
        }
    }
}

/// Takes out of `files` those whose flag is set. The others stay, in their
/// order. There is one flag for each file.
pub fn split_by_flags(files: &mut Vec<FilePath>, flags: &Vec<bool>) -> (claimed: Vec<FilePath>)
    requires
        flags@.len() == old(files)@.len(),
    ensures
        paths_view(claimed@) == picked(paths_view(old(files)@), flags@, true),
        paths_view(final(files)@) == picked(paths_view(old(files)@), flags@, false),
{
    let ghost orig = paths_view(files@);
    let mut claimed: Vec<FilePath> = Vec::new();
    let mut seen: usize = 0;
    let mut i: usize = 0;
    proof {
        assert(orig.take(0) =~= Seq::empty());
        assert(flags@.take(0) =~= Seq::empty());
        assert(paths_view(files@).take(0) =~= Seq::empty());
        assert(paths_view(files@).skip(0) =~= orig.skip(0));
        assert(paths_view(claimed@) =~= Seq::empty());
    }
    while i < files.len()
        invariant
            flags@.len() == orig.len(),
            seen <= orig.len(),
            i <= files.len(),
            files.len() - i == orig.len() - seen,
            paths_view(claimed@) == picked(orig.take(seen as int), flags@.take(seen as int), true),
            paths_view(files@).take(i as int) == picked(
                orig.take(seen as int),
                flags@.take(seen as int),
                false,
            ),
            paths_view(files@).skip(i as int) == orig.skip(seen as int),
        decreases files.len() - i,
    {
        let ghost before = paths_view(files@);
        let ghost taken = paths_view(claimed@);
        let ghost current = orig[seen as int];
        proof {
            assert(before.skip(i as int)[0] == orig.skip(seen as int)[0]);
            assert(before[i as int] == current);
            assert(orig.take(seen + 1).drop_last() =~= orig.take(seen as int));
            assert(orig.take(seen + 1).last() == current);
            assert(flags@.take(seen + 1).drop_last() =~= flags@.take(seen as int));
            assert(flags@.take(seen + 1).last() == flags@[seen as int]);
        }
        assert(seen < flags.len());
        let next = seen + 1;
        if flags[seen] {
            let file = files.remove(i);
            claimed.push(file);
            proof {
                let after = paths_view(files@);
                assert(after =~= before.remove(i as int));
                assert(after.take(i as int) =~= before.take(i as int));
                assert(after.skip(i as int) =~= before.skip(i as int).skip(1));
                assert(orig.skip(seen as int).skip(1) =~= orig.skip(seen + 1));
                assert(paths_view(claimed@) =~= taken.push(current));
            }
        } else {
            i += 1;
            proof {
                assert(before.take(i as int) =~= before.take(i as int - 1).push(current));
                assert(before.skip(i as int) =~= before.skip(i as int - 1).skip(1));
                assert(orig.skip(seen as int).skip(1) =~= orig.skip(seen + 1));
            }
        }
        seen = next;
    }
    proof {
        assert(paths_view(files@).take(i as int) =~= paths_view(files@));
        assert(orig.take(seen as int) =~= orig);
        assert(flags@.take(seen as int) =~= flags@);
    }
    claimed
}

/// Asks `pipeline` of each file whether it claims it: one answer for each
/// file, in their order, and each the answer of its predicate.
pub fn claim_flags<P: Pipeline>(pipeline: &P, files: &Vec<FilePath>, dest: &FilePath) -> (flags: Vec<
    bool,
>)
    ensures
        flags@.len() == files@.len(),
        forall|j: int|
            0 <= j < files@.len() ==> #[trigger] flags@[j] == pipeline.claims(files@[j]@, dest@),
{
    let mut flags: Vec<bool> = Vec::new();
    let mut i: usize = 0;
    while i < files.len()
        invariant
            i <= files.len(),
            flags@.len() == i,
            forall|j: int| 0 <= j < i ==> #[trigger] flags@[j] == pipeline.claims(files@[j]@, dest@),
        decreases files.len() - i,
    {
        flags.push(pipeline.can_process(&files[i], dest));
        i += 1;
    }
    flags
}

/// Takes out of `files` those that `pipeline` claims: they come back in their
/// order. The others stay, in their order.
pub fn take_claimed<P: Pipeline>(pipeline: &P, files: &mut Vec<FilePath>, dest: &FilePath) -> (claimed:
    Vec<FilePath>)
    ensures
        paths_view(claimed@) == claimed_by(*pipeline, paths_view(old(files)@), dest@),
        paths_view(final(files)@) == left_by(*pipeline, paths_view(old(files)@), dest@),
{
    let ghost orig = paths_view(files@);
    let flags = claim_flags(pipeline, files, dest);
    proof {
        let pred = |f: Seq<Seq<char>>| pipeline.claims(f, dest@);
        assert forall|j: int| 0 <= j < orig.len() implies flags@[j] == pred(#[trigger] orig[j]) by {
            assert(orig[j] == files@[j]@);
        }
        lemma_picked_is_filter(orig, flags@, pred);
        assert(orig.filter(|x: Seq<Seq<char>>| !pred(x)) == left_by(*pipeline, orig, dest@)) by {
            assert((|x: Seq<Seq<char>>| !pred(x)) =~= (|f: Seq<Seq<char>>|
                !pipeline.claims(f, dest@)));
        }
    }
    split_by_flags(files, &flags)
}

/// The views of a list of lists of paths.
pub open spec fn batches_view(batches: Seq<Vec<FilePath>>) -> Seq<Seq<Seq<Seq<char>>>> {
    batches.map_values(|b: Vec<FilePath>| paths_view(b@))
}

/// Shares `files` out among `pipelines`: first to last, each takes of what the
/// ones before it left those files that it claims. The result holds the share
/// of each pipeline, in the order of the pipelines; what no pipeline claimed
/// stays in `files`. No file is lost, and none is handed out twice.
pub fn process_files<P: Pipeline>(pipelines: &Vec<P>, files: &mut Vec<FilePath>, dest: &FilePath) -> (shares:
    Vec<Vec<FilePath>>)
    ensures
        shares@.len() == pipelines@.len(),
        forall|k: int|
            0 <= k < pipelines@.len() ==> #[trigger] batches_view(shares@)[k] == claimed_by(
                pipelines@[k],
                unclaimed(pipelines@.take(k), paths_view(old(files)@), dest@),
                dest@,
            ),
        paths_view(final(files)@) == unclaimed(pipelines@, paths_view(old(files)@), dest@),
        shared_files(batches_view(shares@)).add(paths_view(final(files)@).to_multiset())
            == paths_view(old(files)@).to_multiset(),
{
    let ghost orig = paths_view(files@);
    let mut shares: Vec<Vec<FilePath>> = Vec::new();
    let mut k: usize = 0;
    proof {
        assert(pipelines@.take(0) =~= Seq::empty());
        assert(batches_view(shares@) =~= Seq::empty());
        assert(shared_files(batches_view(shares@)).add(paths_view(files@).to_multiset())
            =~= orig.to_multiset());
    }
    while k < pipelines.len()
        invariant
            k <= pipelines.len(),
            shares@.len() == k,
            forall|j: int|
                0 <= j < k ==> #[trigger] batches_view(shares@)[j] == claimed_by(
                    pipelines@[j],
                    unclaimed(pipelines@.take(j), orig, dest@),
                    dest@,
                ),
            paths_view(files@) == unclaimed(pipelines@.take(k as int), orig, dest@),
            shared_files(batches_view(shares@)).add(paths_view(files@).to_multiset())
                == orig.to_multiset(),
        decreases pipelines.len() - k,
    {
        let ghost done = batches_view(shares@);
        let ghost left = paths_view(files@);
        let flags = claim_flags(&pipelines[k], files, dest);
        proof {
            let pred = |f: Seq<Seq<char>>| pipelines@[k as int].claims(f, dest@);
            assert forall|j: int| 0 <= j < left.len() implies flags@[j] == pred(
                #[trigger] left[j],
            ) by {
                assert(left[j] == files@[j]@);
            }
            lemma_picked_is_filter(left, flags@, pred);
            assert((|x: Seq<Seq<char>>| !pred(x)) =~= (|f: Seq<Seq<char>>|
                !pipelines@[k as int].claims(f, dest@)));
            law_picked_parts(left, flags@);
        }
        let share = split_by_flags(files, &flags);
        shares.push(share);
        proof {
            let now = batches_view(shares@);
            assert(now.drop_last() =~= done);
            assert(now.last() == paths_view(share@));
            assert(shared_files(now).add(paths_view(files@).to_multiset()) =~= shared_files(done).add(
                left.to_multiset(),
            ));
            let upto = pipelines@.take(k as int + 1);
            assert(upto.drop_last() =~= pipelines@.take(k as int));
            assert(upto.last() == pipelines@[k as int]);
            assert forall|j: int| 0 <= j < k + 1 implies #[trigger] batches_view(shares@)[j]
                == claimed_by(pipelines@[j], unclaimed(pipelines@.take(j), orig, dest@), dest@) by {
                if j < k {
                    assert(batches_view(shares@)[j] == done[j]);
                }
            }
        }
        k += 1;
    }
    proof {
        assert(pipelines@.take(pipelines@.len() as int) =~= pipelines@);
    }
    shares
}

} // verus!
