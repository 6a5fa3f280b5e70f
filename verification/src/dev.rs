//! The development session: batches of file changes come in, decisions to
//! rebuild and notifications for the live-reload listeners go out.
//!
//! The session itself performs nothing. Its caller watches the file system,
//! runs the build and owns the connections; it reports what happened and carries
//! out the actions that the session hands back.

use vstd::prelude::*;
use crate::commands::{distinct_names, live_reload_environment, live_reload_envs, RunTask};
use crate::fs_path::{is_path_prefix, paths_view, FilePath};
use crate::options::{DevOptions, RunOptions};
use crate::params::pairs_view;
use crate::text::{decimal, push_decimal};

verus! {

/// Whether `path` lies at or below one of `roots`.
pub open spec fn is_ignored_path(path: Seq<Seq<char>>, roots: Seq<Seq<Seq<char>>>) -> bool {
    exists|i: int| 0 <= i < roots.len() && is_path_prefix(#[trigger] roots[i], path)
}

/// The paths of `paths` that lie under none of `roots`, in their order.
pub open spec fn kept_paths(paths: Seq<Seq<Seq<char>>>, roots: Seq<Seq<Seq<char>>>) -> Seq<
    Seq<Seq<char>>,
> {
    paths.filter(|p: Seq<Seq<char>>| !is_ignored_path(p, roots))
}

/// Whether `path` lies at or below one of `roots`.
pub fn path_is_ignored(path: &FilePath, roots: &Vec<FilePath>) -> (r: bool)
    ensures
        r == is_ignored_path(path@, paths_view(roots@)),
{
    let mut i: usize = 0;
    while i < roots.len()
        invariant
            i <= roots.len(),
            forall|j: int| 0 <= j < i ==> !is_path_prefix(#[trigger] paths_view(roots@)[j], path@),
        decreases roots.len() - i,
    {
        if path.starts_with(&roots[i]) {
            assert(is_path_prefix(paths_view(roots@)[i as int], path@));
            return true;
        }
        i += 1;
    }
    false
}

/// Removes from `events` every path that lies at or below one of `ignore`.
/// The others stay, in their order.
pub fn remove_ignored_paths(ignore: &Vec<FilePath>, events: &mut Vec<FilePath>)
    ensures
        paths_view(final(events)@) == kept_paths(paths_view(old(events)@), paths_view(ignore@)),
{
    let ghost orig = paths_view(events@);
    let ghost roots = paths_view(ignore@);
    let ghost keep = |p: Seq<Seq<char>>| !is_ignored_path(p, roots);
    let ghost mut seen: int = 0;
    let mut idx: usize = 0;
    proof {
        reveal(Seq::filter);
        assert(orig.take(0) =~= Seq::empty());
        assert(paths_view(events@).take(0) =~= Seq::empty());
        assert(paths_view(events@).skip(0) =~= orig.skip(0));
    }
    while idx < events.len()
        invariant
            roots == paths_view(ignore@),
            keep == |p: Seq<Seq<char>>| !is_ignored_path(p, roots),
            0 <= seen <= orig.len(),
            idx <= events.len(),
            events.len() - idx == orig.len() - seen,
            paths_view(events@).take(idx as int) == orig.take(seen).filter(keep),
            paths_view(events@).skip(idx as int) == orig.skip(seen),
        decreases events.len() - idx,
    {
        let ghost before = paths_view(events@);
        let ghost current = orig[seen];
        proof {
            assert(before.skip(idx as int)[0] == orig.skip(seen)[0]);
            assert(before[idx as int] == current);
            assert(orig.take(seen + 1).drop_last() =~= orig.take(seen));
            assert(orig.take(seen + 1).last() == current);
            reveal(Seq::filter);
        }
        if path_is_ignored(&events[idx], ignore) {
            let _ = events.remove(idx);
            proof {
                let after = paths_view(events@);
                assert(after =~= before.remove(idx as int));
                assert(after.take(idx as int) =~= before.take(idx as int));
                assert(after.skip(idx as int) =~= before.skip(idx as int).skip(1));
                assert(orig.skip(seen).skip(1) =~= orig.skip(seen + 1));
            }
        } else {
            idx += 1;
            proof {
                assert(before.take(idx as int) =~= before.take(idx as int - 1).push(current));
                assert(before.skip(idx as int) =~= before.skip(idx as int - 1).skip(1));
                assert(orig.skip(seen).skip(1) =~= orig.skip(seen + 1));
            }
        }
        proof {
            seen = seen + 1;
        }
    }
    proof {
        assert(paths_view(events@).take(idx as int) =~= paths_view(events@));
        assert(orig.take(seen) =~= orig);
    }
}

/// What the caller of a session is to do, in the order given.
#[derive(Debug, Clone, Copy, PartialEq, Eq, Structural)]
pub enum DevAction {
    /// Signal the running server process to stop.
    CancelServer,
    /// Tell every listener that a rebuild has begun.
    NotifyLoading,
    /// Run the build.
    Build,
    /// Tell every listener to reload.
    NotifyReload,
    /// Start the server process that the build produced.
    LaunchServer,
    /// Tell every listener that the session ends.
    NotifyShutdown,
    /// End the process with the given exit code.
    Exit { code: i32 },
}

/// A session as contracts see it.
pub struct DevState {
    /// A build is in flight: the single slot is taken.
    pub building: bool,
    /// The interrupt has been seen: nothing is started any more.
    pub stopped: bool,
    /// The roots under which changes are ignored.
    pub roots: Seq<Seq<Seq<char>>>,
}

/// Whether a batch that arrives in state `s` starts a build: the session runs,
/// the slot is free, and the batch is the first run or keeps a path after
/// filtering.
pub open spec fn batch_starts_build(s: DevState, batch: Seq<Seq<Seq<char>>>, first_run: bool) -> bool {
    !s.stopped && !s.building && (first_run || kept_paths(batch, s.roots).len() > 0)
}

/// The state after a batch has arrived in state `s`.
pub open spec fn after_batch(s: DevState, batch: Seq<Seq<Seq<char>>>, first_run: bool) -> DevState {
    if batch_starts_build(s, batch, first_run) {
        DevState { building: true, ..s }
    } else {
        s
    }
}

/// What is to be done for a batch that arrives in state `s`.
pub open spec fn batch_actions(s: DevState, batch: Seq<Seq<Seq<char>>>, first_run: bool) -> Seq<
    DevAction,
> {
    if batch_starts_build(s, batch, first_run) {
        seq![DevAction::CancelServer, DevAction::NotifyLoading, DevAction::Build]
    } else {
        Seq::empty()
    }
}

/// The state after the build in flight, if any, has ended.
pub open spec fn after_build(s: DevState) -> DevState {
    DevState { building: false, ..s }
}

/// What is to be done when the build in flight has ended.
pub open spec fn build_end_actions(s: DevState, success: bool) -> Seq<DevAction> {
    if s.building && !s.stopped && success {
        seq![DevAction::NotifyReload, DevAction::LaunchServer]
    } else {
        Seq::empty()
    }
}

/// The state after the interrupt.
pub open spec fn after_interrupt(s: DevState) -> DevState {
    DevState { stopped: true, ..s }
}

/// What is to be done on the interrupt.
pub open spec fn interrupt_actions(s: DevState) -> Seq<DevAction> {
    if s.stopped {
        Seq::empty()
    } else {
        seq![DevAction::NotifyShutdown, DevAction::Exit { code: 0 }]
    }
}

/// The number of builds that `actions` asks for.
pub open spec fn builds_in(actions: Seq<DevAction>) -> nat {
    actions.filter(|a: DevAction| a == DevAction::Build).len()
}

/// A development session: at most one build in flight, and the roots whose
/// changes do not count.
pub struct DevSession {
    building: bool,
    stopped: bool,
    ignore: Vec<FilePath>,
}

impl View for DevSession {
    type V = DevState;

    closed spec fn view(&self) -> DevState {
        DevState {
            building: self.building,
            stopped: self.stopped,
            roots: paths_view(self.ignore@),
        }
    }
}

impl DevSession {
    /// A session with no build in flight that ignores changes under `ignore`.
    pub fn new(ignore: Vec<FilePath>) -> (s: DevSession)
        ensures
            s@ == (DevState { building: false, stopped: false, roots: paths_view(ignore@) }),
    {
        DevSession { building: false, stopped: false, ignore }
    }

    /// Takes `ignore` as the roots under which changes do not count, in place
    /// of those it had. All else stays as it is.
    pub fn set_ignored(&mut self, ignore: Vec<FilePath>)
        ensures
            final(self)@ == (DevState { roots: paths_view(ignore@), ..old(self)@ }),
    {
        self.ignore = ignore;
    }

    /// Whether a build is in flight.
    pub fn is_building(&self) -> (r: bool)
        ensures
            r == self@.building,
    {
        self.building
    }

    /// Whether the interrupt has been seen.
    pub fn is_stopped(&self) -> (r: bool)
        ensures
            r == self@.stopped,
    {
        self.stopped
    }

    /// A batch of changes has arrived; `first_run` marks the unconditional
    /// build at startup.
    ///
    /// While a build is in flight, or after the interrupt, the batch is dropped
    /// as it came. Otherwise the ignored paths leave `changes`; if none is left
    /// and this is not the first run, nothing is done; else the slot is taken
    /// and the caller is told to cancel the server, announce the rebuild and
    /// build.
    pub fn on_batch(&mut self, changes: &mut Vec<FilePath>, first_run: bool) -> (actions: Vec<
        DevAction,
    >)
        ensures
            final(self)@ == after_batch(old(self)@, paths_view(old(changes)@), first_run),
            actions@ == batch_actions(old(self)@, paths_view(old(changes)@), first_run),
            old(self)@.building || old(self)@.stopped ==> *final(changes) == *old(changes),
            !old(self)@.building && !old(self)@.stopped ==> paths_view(final(changes)@)
                == kept_paths(paths_view(old(changes)@), old(self)@.roots),
    {
        if self.building || self.stopped {
            return Vec::new();
        }
        remove_ignored_paths(&self.ignore, changes);
        if changes.len() == 0 && !first_run {
            return Vec::new();
        }
        self.building = true;
        vec![DevAction::CancelServer, DevAction::NotifyLoading, DevAction::Build]
    }

    /// The build in flight has ended. The slot is freed whether it succeeded or
    /// not; after a success the listeners are told to reload and the server is
    /// started.
    pub fn on_build_finished(&mut self, success: bool) -> (actions: Vec<DevAction>)
        ensures
            final(self)@ == after_build(old(self)@),
            actions@ == build_end_actions(old(self)@, success),
    {
        let announce = self.building && !self.stopped && success;
        self.building = false;
        if announce {
            vec![DevAction::NotifyReload, DevAction::LaunchServer]
        } else {
            Vec::new()
        }
    }

    /// The interrupt has arrived: the listeners are told that the session ends
    /// and the process exits with code 0. Nothing is started afterwards.
    pub fn on_interrupt(&mut self) -> (actions: Vec<DevAction>)
        ensures
            final(self)@ == after_interrupt(old(self)@),
            actions@ == interrupt_actions(old(self)@),
    {
        if self.stopped {
            return Vec::new();
        }
        self.stopped = true;
        vec![DevAction::NotifyShutdown, DevAction::Exit { code: 0 }]
    }
}

/// Batches that arrive while a build is in flight start nothing: after two of
/// them the session is as it was, still building, and no build was asked for.
/// The one rebuild is the one in flight.
pub proof fn law_batches_during_build_coalesce(
    s: DevState,
    first: Seq<Seq<Seq<char>>>,
    second: Seq<Seq<Seq<char>>>,
    first_run: bool,
)
    requires
        s.building,
    ensures
        after_batch(after_batch(s, first, first_run), second, first_run) == s,
        builds_in(
            batch_actions(s, first, first_run) + batch_actions(
                after_batch(s, first, first_run),
                second,
                first_run,
            ),
        ) == 0,
{
    let all = batch_actions(s, first, first_run) + batch_actions(
        after_batch(s, first, first_run),
        second,
        first_run,
    );
    assert(all =~= Seq::empty());
    reveal(Seq::filter);
}

/// The state after the batches of `batches` have arrived one after the other
/// in state `s`, none of them a first run.
pub open spec fn after_batches(s: DevState, batches: Seq<Seq<Seq<Seq<char>>>>) -> DevState
    decreases batches.len(),
{
    if batches.len() == 0 {
        s
    } else {
        after_batch(after_batches(s, batches.drop_last()), batches.last(), false)
    }
}

/// What is to be done, all in all, for the batches of `batches` arriving one
/// after the other in state `s`, none of them a first run.
pub open spec fn batches_actions(s: DevState, batches: Seq<Seq<Seq<Seq<char>>>>) -> Seq<DevAction>
    decreases batches.len(),
{
    if batches.len() == 0 {
        Seq::empty()
    } else {
        batches_actions(s, batches.drop_last()) + batch_actions(
            after_batches(s, batches.drop_last()),
            batches.last(),
            false,
        )
    }
}

/// However many batches arrive while a build is in flight, nothing is done for
/// them and the session stays as it is: there is no backlog.
pub proof fn law_no_backlog_during_build(s: DevState, batches: Seq<Seq<Seq<Seq<char>>>>)
    requires
        s.building,
    ensures
        after_batches(s, batches) == s,
        batches_actions(s, batches) == Seq::<DevAction>::empty(),
    decreases batches.len(),
{
    if batches.len() > 0 {
        law_no_backlog_during_build(s, batches.drop_last());
        assert(batches_actions(s, batches) =~= Seq::<DevAction>::empty());
    }
}

/// A batch that starts a build asks for exactly one, and takes the slot.
pub proof fn law_batch_starts_one_build(s: DevState, batch: Seq<Seq<Seq<char>>>, first_run: bool)
    requires
        batch_starts_build(s, batch, first_run),
    ensures
        builds_in(batch_actions(s, batch, first_run)) == 1,
        after_batch(s, batch, first_run).building,
{
    let build = |a: DevAction| a == DevAction::Build;
    let actions = batch_actions(s, batch, first_run);
    reveal_with_fuel(Seq::filter, 4);
    assert(actions.drop_last() =~= seq![DevAction::CancelServer, DevAction::NotifyLoading]);
    assert(actions.drop_last().drop_last() =~= seq![DevAction::CancelServer]);
    assert(actions.drop_last().drop_last().drop_last() =~= Seq::<DevAction>::empty());
}

/// The slot is free after a build has ended, whatever its outcome and whatever
/// the session was doing.
pub proof fn law_slot_is_released(s: DevState, success: bool)
    ensures
        !after_build(s).building,
        after_build(s).stopped == s.stopped,
        after_build(s).roots == s.roots,
{
}

/// The dev command: watches the project, rebuilds it on changes, and tells the
/// pages to reload.
#[derive(Debug)]
pub struct DevTask {
    /// Options for running the application in watch mode.
    pub options: DevOptions,
}

impl DevTask {
    /// The task for the given options.
    pub fn new(options: DevOptions) -> (t: DevTask)
        ensures
            t.options == options,
    {
        DevTask { options }
    }

    /// The task that builds and runs the application for this session: with
    /// the build and server options of the session, and the variables that
    /// turn live reload on in the server.
    pub fn run_task(&self) -> (t: RunTask)
        ensures
            t.options.build_view() == self.options.build_view(),
            t.options.static_dir@ == self.options.static_dir@,
            t.options.host@ == self.options.host@,
            t.options.port == self.options.port,
            pairs_view(t.envs@) == live_reload_envs(
                self.options.reload_host@,
                self.options.reload_port,
            ),
            distinct_names(pairs_view(t.envs@)),
    {
        RunTask {
            options: RunOptions::from_dev(&self.options),
            envs: live_reload_environment(
                self.options.reload_host.as_str(),
                self.options.reload_port,
            ),
        }
    }

    /// The address on which the reload server listens: host, colon, port.
    pub fn reload_address(&self) -> (address: String)
        ensures
            address@ == self.options.reload_host@ + seq![':'] + decimal(
                self.options.reload_port as nat,
            ),
    {
        let mut address = self.options.reload_host.clone();
        address.push(':');
        push_decimal(&mut address, self.options.reload_port as u32);
        address
    }

    /// The paths whose changes start no rebuild, as the options give them.
    pub fn ignored_paths(&self) -> (paths: Vec<FilePath>)
        ensures
            paths_view(paths@) == self.options.ignored(),
    {
        self.options.ignored_paths()
    }

    /// Opens the session: no build in flight, and the changes under `ignore`
    /// do not count. `ignore` holds, in canonical form, those of the ignored
    /// paths that exist.
    pub fn start(&self, ignore: Vec<FilePath>) -> (s: DevSession)
        ensures
            s@ == (DevState { building: false, stopped: false, roots: paths_view(ignore@) }),
    {
        DevSession::new(ignore)
    }
}

} // verus!
