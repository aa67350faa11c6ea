//! The model side of the simulation system: its model manager, which exists
//! once the system has been initialised, and what the system does when an
//! operation fails. The simulation core beside it is run by the caller.

use vstd::prelude::*;
use std::collections::HashMap;
use crate::error::{FatalCoreError, FrError};
use crate::manager::plugin::{
    catalog_entry_view, catalog_view, disable_pass, get_models, AsPluginManager, PluginManager,
};
use crate::plugin::{
    hook_result, hook_runs, install_step, probes_map, uninstall_step, DirProbe, HookOutcome,
    PluginInfo, PluginSlot, PluginState,
};

verus! {

broadcast use vstd::std_specs::hash::group_hash_axioms;

/// What went wrong in a step of the simulation core, as the system tells the
/// cases apart.
#[derive(Debug)]
pub enum StepError {
    /// A plane's channels fell out of step.
    Sync(String),
    /// The core failed.
    Core(FatalCoreError),
    /// Any other error.
    Other(FrError),
}

/// How the system takes the outcome of a step of the core.
#[derive(Debug, Clone, Copy, PartialEq, Eq, Structural)]
pub enum StepReaction {
    /// The step went well.
    Done,
    /// The step failed in a way the system only warns about; the step counts
    /// as done.
    Warned,
    /// The step failed; the error is reported and the step is not done.
    Failed,
}

/// The reaction to a step's outcome: a lost synchronisation or a plane
/// without a controller is only warned about; any other error fails the
/// step.
pub open spec fn step_reaction_of(r: Result<(), StepError>) -> StepReaction {
    match r {
        Ok(()) => StepReaction::Done,
        Err(StepError::Sync(_)) => StepReaction::Warned,
        Err(StepError::Core(FatalCoreError::Controller(_))) => StepReaction::Warned,
        Err(StepError::Other(_)) => StepReaction::Failed,
    }
}

/// Decides how the system takes the outcome of a step of the core.
pub fn step_reaction(r: &Result<(), StepError>) -> (a: StepReaction)
    ensures
        a == step_reaction_of(*r),
{
    match r {
        Ok(()) => StepReaction::Done,
        Err(StepError::Sync(_)) => StepReaction::Warned,
        Err(StepError::Core(FatalCoreError::Controller(_))) => StepReaction::Warned,
        Err(StepError::Other(_)) => StepReaction::Failed,
    }
}

/// `after` is `before` once every enabled model was disabled with `hook`,
/// stopping at the first hook that could not be run, whatever that reported.
pub open spec fn all_disabled<Pl, F>(hook: F, before: Map<usize, PluginSlot<Pl>>, after: Map<
    usize,
    PluginSlot<Pl>,
>) -> bool where F: Fn(&Pl) -> HookOutcome,
 {
    exists|d: Result<(), FrError>, ks: Seq<usize>, s: int| #[trigger] disable_pass(hook, before, after, d, ks, s)
}

/// The model side of the system.
pub struct System<Pl> {
    model_manager: Option<PluginManager<Pl>>,
}

impl<Pl> View for System<Pl> {
    /// The plugins of the model manager, once the system is initialised.
    type V = Option<Map<usize, PluginSlot<Pl>>>;

    closed spec fn view(&self) -> Option<Map<usize, PluginSlot<Pl>>> {
        match self.model_manager {
            Some(m) => Some(m.plugins@),
            None => None,
        }
    }
}

impl<Pl> System<Pl> {
    /// A system that is not initialised yet.
    pub fn new() -> (s: Self)
        ensures
            s@ is None,
    {
        System { model_manager: None }
    }

    /// Initialises the system with the models found by a scan of the model
    /// directory.
    pub fn init(&mut self, probes: Vec<DirProbe<Pl>>)
        ensures
            final(self)@ == Some(probes_map(probes@)),
    {
        self.model_manager = Some(PluginManager::new(probes));
    }

    /// The information of every model with its state, under the model's
    /// key; no model while the system is not initialised.
    pub fn get_models(&self) -> (r: HashMap<usize, (PluginInfo, PluginState)>)
        ensures
            self@ is None ==> r@ == Map::<usize, (PluginInfo, PluginState)>::empty(),
            self@ matches Some(m) ==> r@.map_values(|e: (PluginInfo, PluginState)| catalog_entry_view(e))
                == catalog_view(m),
    {
        match &self.model_manager {
            Some(manager) => get_models(manager),
            None => HashMap::new(),
        }
    }

    /// The state of the model under `index`; none while the system is not
    /// initialised.
    pub fn get_model_state(&self, index: usize) -> (r: Option<PluginState>)
        ensures
            r == (match self@ {
                Some(m) => if m.contains_key(index) {
                    Some(m[index].state)
                } else {
                    None
                },
                None => None,
            }),
    {
        match &self.model_manager {
            Some(manager) => manager.state(index),
            None => None,
        }
    }

    /// The model a plane can be built from: the one under `index`, when the
    /// system is initialised and the model is enabled; otherwise no plane
    /// can be pushed for it.
    pub fn get_model(&self, index: usize) -> (r: Option<&Pl>)
        ensures
            r == (match self@ {
                Some(m) => if m.contains_key(index) && m[index].state == PluginState::Enable {
                    Some(&m[index].handle)
                } else {
                    None
                },
                None => None,
            }),
    {
        match &self.model_manager {
            Some(manager) => match manager.plugins.get(&index) {
                Some(slot) => {
                    if slot.state == PluginState::Enable {
                        Some(&slot.handle)
                    } else {
                        None
                    }
                },
                None => None,
            },
            None => None,
        }
    }

    /// Disables the model under `index` with its uninstall hook, when it is
    /// enabled; what the hook reports is not passed on. Nothing happens while
    /// the system is not initialised.
    pub fn disable_model<F>(&mut self, index: usize, hook: F) where F: Fn(&Pl) -> HookOutcome
        requires
            forall|h: &Pl| hook.requires((h,)),
        ensures
            old(self)@ is None ==> final(self)@ is None,
            old(self)@ matches Some(m) ==> final(self)@ matches Some(f) && (!hook_runs(
                m,
                index,
                PluginState::Enable,
            ) ==> f == m) && (hook_runs(m, index, PluginState::Enable) ==> exists|o: HookOutcome|
                #[trigger] hook.ensures((&m[index].handle,), o) && f == uninstall_step(m, index, o)),
    {
        match &mut self.model_manager {
            Some(manager) => {
                let _ = manager.disable(index, hook);
            },
            None => {},
        }
    }

    /// Enables the model under `index` with its install hook and `args`, when
    /// it is disabled. When the hook cannot be run, every enabled model is
    /// disabled with `uninstall` (what those hooks report is not passed on)
    /// and the hook's error is returned: the system is to stop. Nothing
    /// happens while the system is not initialised.
    pub fn enable_model<F, G>(&mut self, index: usize, args: &[String], hook: F, uninstall: G) -> (r:
        Result<(), FrError>) where F: Fn(&Pl, &[String]) -> HookOutcome, G: Fn(&Pl) -> HookOutcome
        requires
            forall|h: &Pl, a: &[String]| hook.requires((h, a)),
            forall|h: &Pl| uninstall.requires((h,)),
        ensures
            old(self)@ is None ==> r is Ok && final(self)@ is None,
            old(self)@ matches Some(m) ==> final(self)@ matches Some(f) && (!hook_runs(
                m,
                index,
                PluginState::Disable,
            ) ==> r is Ok && f == m) && (hook_runs(m, index, PluginState::Disable) ==> exists|
                o: HookOutcome,
            |
                #[trigger] hook.ensures((&m[index].handle, args), o) && r == hook_result(o) && (!(
                o is Fatal) ==> f == install_step(m, index, o)) && (o is Fatal ==> all_disabled(uninstall, install_step(m, index, o), f))),
    {
        if self.model_manager.is_none() {
            return Ok(());
        }
        let mut manager = self.model_manager.take().unwrap();
        let ghost m = manager.plugins@;
        let result = manager.enable(index, args, hook);
        let r = match result {
            Ok(()) => Ok(()),
            Err(e) => {
                let ghost mid = manager.plugins@;
                let d = manager.disable_all(uninstall);
                proof {
                    let (ks, s) = choose|ks: Seq<usize>, s: int|
                        disable_pass(uninstall, mid, manager.plugins@, d, ks, s);
                    assert(disable_pass(uninstall, mid, manager.plugins@, d, ks, s));
                    assert(all_disabled(uninstall, mid, manager.plugins@));
                }
                Err(e)
            },
        };
        self.model_manager = Some(manager);
        r
    }

    /// Disables every enabled model with `uninstall` as the system stops;
    /// what the hooks report is not passed on.
    pub fn stop<G>(&mut self, uninstall: G) where G: Fn(&Pl) -> HookOutcome
        requires
            old(self)@ is Some,
            forall|h: &Pl| uninstall.requires((h,)),
        ensures
            final(self)@ matches Some(f) && all_disabled(uninstall, old(self)@.unwrap(), f),
    {
        let mut manager = self.model_manager.take().unwrap();
        let ghost before = manager.plugins@;
        let d = manager.disable_all(uninstall);
        proof {
            let (ks, s) = choose|ks: Seq<usize>, s: int|
                disable_pass(uninstall, before, manager.plugins@, d, ks, s);
            assert(disable_pass(uninstall, before, manager.plugins@, d, ks, s));
            assert(all_disabled(uninstall, before, manager.plugins@));
        }
        self.model_manager = Some(manager);
    }
}

/// Only a lost synchronisation or a plane without a controller is warned
/// about: every other error fails the step, and a step without error is
/// done.
pub proof fn only_sync_and_controller_errors_are_warnings(e: FrError, m: String, k: usize, r: Result<(), StepError>)
    ensures
        step_reaction_of(Err(StepError::Other(e))) == StepReaction::Failed,
        step_reaction_of(Err(StepError::Sync(m))) == StepReaction::Warned,
        step_reaction_of(Err(StepError::Core(FatalCoreError::Controller(k)))) == StepReaction::Warned,
        step_reaction_of(Ok(())) == StepReaction::Done,
        step_reaction_of(r) == StepReaction::Done <==> r is Ok,
        step_reaction_of(r) == StepReaction::Failed <==> r matches Err(StepError::Other(_)),
{
}

} // verus!
