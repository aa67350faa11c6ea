//! The planes of the simulation core: each plane is kept under a key, with
//! the key of the model plugin it was built from. The planes' simulation
//! blocks and output channels live beside this registry, under the same keys.

use vstd::prelude::*;
use std::collections::HashMap;
use crate::error::FatalCoreError;
use crate::plugin::manager::plugin_keys;

verus! {

broadcast use vstd::std_specs::hash::group_hash_axioms;

/// The keys of the planes that a run reported back as finished.
pub open spec fn finished_keys<E>(joined: Seq<Option<(usize, Result<(), E>)>>) -> Set<usize>
    decreases joined.len(),
{
    if joined.len() == 0 {
        Set::empty()
    } else {
        match joined.last() {
            Some((k, _)) => finished_keys(joined.drop_last()).insert(k),
            None => finished_keys(joined.drop_last()),
        }
    }
}

/// The result of a run whose planes finished as `joined` reports, in the
/// order in which they were joined: the error of the last plane that failed,
/// if any failed.
pub open spec fn last_error<E>(joined: Seq<Option<(usize, Result<(), E>)>>) -> Result<(), E>
    decreases joined.len(),
{
    if joined.len() == 0 {
        Ok(())
    } else {
        match joined.last() {
            Some((_, Err(e))) => Err(e),
            _ => last_error(joined.drop_last()),
        }
    }
}

/// The planes of the core, each with the key of its model plugin.
pub struct PlaneRegistry {
    plugin_ids: HashMap<usize, usize>,
}

impl View for PlaneRegistry {
    type V = Map<usize, usize>;

    closed spec fn view(&self) -> Map<usize, usize> {
        self.plugin_ids@
    }
}

impl PlaneRegistry {
    /// A registry without planes.
    pub fn new() -> (r: Self)
        ensures
            r@ == Map::<usize, usize>::empty(),
    {
        PlaneRegistry { plugin_ids: HashMap::new() }
    }

    /// The number of planes.
    pub fn plane_count(&self) -> (r: usize)
        ensures
            r == self@.len(),
    {
        self.plugin_ids.len()
    }

    /// The key of the model plugin of every plane, under the plane's key.
    pub fn get_ids(&self) -> (r: HashMap<usize, usize>)
        ensures
            r@ == self@,
    {
        self.plugin_ids.clone()
    }

    /// Adds a plane built from the model plugin `plugin_id`, under the key
    /// that is the number of planes before it, and returns that key.
    pub fn push_plane(&mut self, plugin_id: usize) -> (k: usize)
        ensures
            k == old(self)@.len(),
            final(self)@ == old(self)@.insert(k, plugin_id),
    {
        let len = self.plane_count();
        self.plugin_ids.insert(len, plugin_id);
        len
    }

    /// Checks that every plane has a controller in `controllers` before a
    /// run; the error names a plane without one.
    pub fn check_controllers<C>(&self, controllers: &HashMap<usize, C>) -> (r: Result<(), FatalCoreError>)
        ensures
            r is Ok <==> forall|k: usize| #[trigger] self@.contains_key(k) ==> controllers@.contains_key(k),
            r matches Err(FatalCoreError::Controller(k)) ==> self@.contains_key(k)
                && !controllers@.contains_key(k),
    {
        let keys = plugin_keys(&self.plugin_ids);
        let mut i: usize = 0;
        while i < keys.len()
            invariant
                keys@.to_set() == self@.dom(),
                i <= keys@.len(),
                forall|j: int| 0 <= j < i ==> controllers@.contains_key(#[trigger] keys@[j]),
            decreases keys@.len() - i,
        {
            let k = keys[i];
            if !controllers.contains_key(&k) {
                assert(keys@.to_set().contains(k));
                return Err(FatalCoreError::Controller(k));
            }
            i = i + 1;
        }
        assert forall|k: usize| #[trigger] self@.contains_key(k) implies controllers@.contains_key(k) by {
            assert(keys@.to_set().contains(k));
            let j = choose|j: int| 0 <= j < keys@.len() && keys@[j] == k;
            assert(controllers@.contains_key(keys@[j]));
        }
        Ok(())
    }

    /// Takes in one plane task of a run as it is joined (`None` for a task
    /// that could not be joined): the plane is removed, a failed update
    /// becomes the run's result, and the returned flag says whether the
    /// run's other planes are to be cancelled, which a failure demands.
    pub fn join_plane<E>(&mut self, joined: Option<(usize, Result<(), E>)>, run_res: &mut Result<(), E>) -> (cancel: bool)
        ensures
            final(self)@ == (match joined {
                Some((k, _)) => old(self)@.remove(k),
                None => old(self)@,
            }),
            *final(run_res) == (match joined {
                Some((_, Err(e))) => Err(e),
                _ => *old(run_res),
            }),
            cancel == (joined matches Some((_, Err(_)))),
    {
        match joined {
            Some((idx, res)) => {
                self.plugin_ids.remove(&idx);
                match res {
                    Err(e) => {
                        *run_res = Err(e);
                        true
                    },
                    Ok(()) => false,
                }
            },
            None => false,
        }
    }

    /// Removes the planes of a run that finished as `joined` reports, in the
    /// order in which they were joined (`None` for a plane whose task could
    /// not be joined, which stays), and gives the run's result: the error of
    /// the last plane that failed.
    pub fn finish_run<E>(&mut self, joined: Vec<Option<(usize, Result<(), E>)>>) -> (r: Result<(), E>)
        ensures
            final(self)@ == old(self)@.remove_keys(finished_keys(joined@)),
            r == last_error(joined@),
    {
        let ghost all = joined@;
        let mut joined = joined;
        let mut r: Result<(), E> = Ok(());
        let mut found = false;
        while joined.len() > 0
            invariant
                self@.remove_keys(finished_keys(joined@)) == old(self)@.remove_keys(finished_keys(all)),
                found ==> r == last_error(all),
                !found ==> r == Ok::<(), E>(()) && last_error(all) == last_error(joined@),
            decreases joined@.len(),
        {
            let ghost rest = joined@;
            let ghost before = self@;
            let item = joined.pop().unwrap();
            match item {
                Some((idx, res)) => {
                    self.plugin_ids.remove(&idx);
                    if !found {
                        match res {
                            Err(e) => {
                                r = Err(e);
                                found = true;
                            },
                            Ok(()) => {},
                        }
                    }
                },
                None => {},
            }
            assert(self@.remove_keys(finished_keys(joined@)) =~= before.remove_keys(finished_keys(rest)));
        }
        assert(self@.remove_keys(finished_keys(joined@)) =~= self@);
        assert(last_error(joined@) == Ok::<(), E>(()));
        r
    }
}

/// What a plane's task received from its controller.
#[derive(Debug, Clone, Copy, PartialEq, Eq, Structural)]
pub enum CommandKind {
    /// A control input for the plane.
    Control,
    /// Any other message.
    Extra,
    /// The controller asks the plane to stop.
    Exit,
}

/// What a plane's task does with what it received.
#[derive(Debug, Clone, Copy, PartialEq, Eq, Structural)]
pub enum PlaneStep {
    /// Update the plane with the control and send out its output; a failed
    /// update ends the task with its error.
    Update,
    /// Wait for the next command.
    Skip,
    /// End the task without error.
    Finish,
}

/// The kind of command a plane's task receives from its controller channel
/// when it waits for a change: the latest command sent, or an exit once the
/// controller has gone (`channel_open` false). A task that does not wait
/// takes the latest command as it is.
pub open spec fn received_kind_of(channel_open: bool, latest: CommandKind) -> CommandKind {
    if channel_open {
        latest
    } else {
        CommandKind::Exit
    }
}

/// Decides the kind of command a waiting plane task receives.
pub fn received_kind(channel_open: bool, latest: CommandKind) -> (c: CommandKind)
    ensures
        c == received_kind_of(channel_open, latest),
{
    if channel_open {
        latest
    } else {
        CommandKind::Exit
    }
}

/// The step of a plane's task: a run that was cancelled ends every task;
/// otherwise a control updates the plane, another message is skipped, and
/// an exit ends the task.
pub open spec fn plane_step_of(cancelled: bool, command: CommandKind) -> PlaneStep {
    if cancelled {
        PlaneStep::Finish
    } else {
        match command {
            CommandKind::Control => PlaneStep::Update,
            CommandKind::Extra => PlaneStep::Skip,
            CommandKind::Exit => PlaneStep::Finish,
        }
    }
}

/// Decides a plane task's step for the command it received, given whether
/// the run has been cancelled.
pub fn plane_step(cancelled: bool, command: CommandKind) -> (s: PlaneStep)
    ensures
        s == plane_step_of(cancelled, command),
{
    if cancelled {
        return PlaneStep::Finish;
    }
    match command {
        CommandKind::Control => PlaneStep::Update,
        CommandKind::Extra => PlaneStep::Skip,
        CommandKind::Exit => PlaneStep::Finish,
    }
}

/// A registry holding `n` planes under the keys `0` to `n - 1` takes a new
/// plane under the fresh key `n`, and then holds `n + 1` planes under the
/// keys `0` to `n`.
pub proof fn push_keeps_keys_dense(m: Map<usize, usize>, n: usize, plugin_id: usize)
    requires
        m.dom() == Set::new(|k: usize| k < n),
        m.dom().finite(),
        m.len() == n,
        n < usize::MAX,
    ensures
        !m.contains_key(n),
        m.insert(n, plugin_id).dom() == Set::new(|k: usize| k <= n),
        m.insert(n, plugin_id).len() == n + 1,
{
    assert(m.insert(n, plugin_id).dom() =~= Set::new(|k: usize| k <= n));
}

/// Joining one more plane task extends a run as `join_plane` does: the
/// run's result becomes that task's error when it failed, and its plane
/// joins the finished ones.
pub proof fn joining_extends_the_run<E>(joined: Seq<Option<(usize, Result<(), E>)>>, next: Option<(usize, Result<(), E>)>)
    ensures
        last_error(joined.push(next)) == (match next {
            Some((_, Err(e))) => Err(e),
            _ => last_error(joined),
        }),
        finished_keys(joined.push(next)) == (match next {
            Some((k, _)) => finished_keys(joined).insert(k),
            None => finished_keys(joined),
        }),
{
    assert(joined.push(next).drop_last() =~= joined);
}

/// A run fails exactly when one of its planes failed.
pub proof fn run_fails_iff_a_plane_failed<E>(joined: Seq<Option<(usize, Result<(), E>)>>)
    ensures
        last_error(joined) is Err <==> exists|i: int|
            0 <= i < joined.len() && #[trigger] joined[i] matches Some((_, Err(_))),
    decreases joined.len(),
{
    if joined.len() > 0 {
        let rest = joined.drop_last();
        run_fails_iff_a_plane_failed(rest);
        assert forall|i: int| 0 <= i < rest.len() implies #[trigger] rest[i] == joined[i] by {}
        if last_error(joined) is Err && !(joined.last() matches Some((_, Err(_)))) {
            let i = choose|i: int| 0 <= i < rest.len() && #[trigger] rest[i] matches Some((_, Err(_)));
            assert(joined[i] == rest[i]);
        }
        if exists|i: int| 0 <= i < joined.len() && #[trigger] joined[i] matches Some((_, Err(_))) {
            if !(joined.last() matches Some((_, Err(_)))) {
                let i = choose|i: int| 0 <= i < joined.len() && #[trigger] joined[i] matches Some((_, Err(_)));
                assert(i < joined.len() - 1);
                assert(rest[i] == joined[i]);
            }
        }
    }
}

/// A run whose planes were all joined leaves no plane behind.
pub proof fn finished_run_leaves_no_plane<E>(m: Map<usize, usize>, joined: Seq<Option<(usize, Result<(), E>)>>)
    requires
        forall|k: usize| #[trigger] m.contains_key(k) ==> finished_keys(joined).contains(k),
    ensures
        m.remove_keys(finished_keys(joined)) == Map::<usize, usize>::empty(),
{
    assert(m.remove_keys(finished_keys(joined)) =~= Map::<usize, usize>::empty());
}

/// A waiting plane task whose controller has gone receives an exit,
/// whatever was last sent; while the controller is there it receives the
/// latest command unchanged.
pub proof fn a_gone_controller_ends_the_task(latest: CommandKind, cancelled: bool)
    ensures
        received_kind_of(false, latest) == CommandKind::Exit,
        received_kind_of(true, latest) == latest,
        plane_step_of(cancelled, received_kind_of(false, latest)) == PlaneStep::Finish,
{
}

/// A cancelled run finishes every task whatever it received; otherwise a
/// task updates its plane exactly on a control and finishes exactly on an
/// exit.
pub proof fn plane_steps_follow_commands(cancelled: bool, command: CommandKind)
    ensures
        cancelled ==> plane_step_of(cancelled, command) == PlaneStep::Finish,
        plane_step_of(cancelled, command) == PlaneStep::Update <==> (!cancelled && command
            == CommandKind::Control),
        plane_step_of(cancelled, command) == PlaneStep::Finish <==> (cancelled || command
            == CommandKind::Exit),
{
}

} // verus!
