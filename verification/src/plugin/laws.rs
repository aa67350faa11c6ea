//! What holds of every sequence of hooks run by the plugin managers, stated
//! over the steps that their operations are specified with.

use vstd::prelude::*;
use crate::error::{FatalPluginError, FrError};
use super::{
    hook_result, hook_runs, install_step, probes_map, serves, uninstall_step, DirProbe, HookOutcome, PluginSlot,
    PluginState,
};

verus! {

/// Installing a plugin that is not installed and then uninstalling it, both
/// hooks succeeding, gives back the plugins exactly as they were.
pub proof fn install_then_uninstall_restores<P>(m: Map<usize, PluginSlot<P>>, index: usize)
    requires
        hook_runs(m, index, PluginState::Disable),
    ensures
        uninstall_step(install_step(m, index, HookOutcome::Done), index, HookOutcome::Done) == m,
{
    assert(uninstall_step(install_step(m, index, HookOutcome::Done), index, HookOutcome::Done) =~= m);
}

/// Uninstalling an installed plugin and then installing it again, both hooks
/// succeeding, gives back the plugins exactly as they were.
pub proof fn uninstall_then_install_restores<P>(m: Map<usize, PluginSlot<P>>, index: usize)
    requires
        hook_runs(m, index, PluginState::Enable),
    ensures
        install_step(uninstall_step(m, index, HookOutcome::Done), index, HookOutcome::Done) == m,
{
    assert(install_step(uninstall_step(m, index, HookOutcome::Done), index, HookOutcome::Done) =~= m);
}

/// A failed plugin is never touched again: neither an install nor an
/// uninstall changes anything, whatever its hook would report.
pub proof fn failed_plugin_is_left_alone<P>(m: Map<usize, PluginSlot<P>>, index: usize, o: HookOutcome)
    requires
        m.contains_key(index),
        m[index].state == PluginState::Failed,
    ensures
        install_step(m, index, o) == m,
        uninstall_step(m, index, o) == m,
{
}

/// A hook changes only the state of the plugin it was run for: the same
/// plugins stay, every other plugin is unchanged, and the plugin keeps its
/// information and handle.
pub proof fn steps_keep_plugins<P>(m: Map<usize, PluginSlot<P>>, index: usize, o: HookOutcome)
    ensures
        install_step(m, index, o).dom() == m.dom(),
        uninstall_step(m, index, o).dom() == m.dom(),
        forall|k: usize|
            #![trigger install_step(m, index, o)[k]]
            m.contains_key(k) ==> install_step(m, index, o)[k].info == m[k].info
                && install_step(m, index, o)[k].handle == m[k].handle && (k != index
                ==> install_step(m, index, o)[k] == m[k]),
        forall|k: usize|
            #![trigger uninstall_step(m, index, o)[k]]
            m.contains_key(k) ==> uninstall_step(m, index, o)[k].info == m[k].info
                && uninstall_step(m, index, o)[k].handle == m[k].handle && (k != index
                ==> uninstall_step(m, index, o)[k] == m[k]),
{
    assert(install_step(m, index, o).dom() =~= m.dom());
    assert(uninstall_step(m, index, o).dom() =~= m.dom());
}

/// Installing twice does what installing once does, and so does
/// uninstalling twice, whatever the hooks report.
pub proof fn steps_are_idempotent<P>(
    m: Map<usize, PluginSlot<P>>,
    index: usize,
    first: HookOutcome,
    second: HookOutcome,
)
    ensures
        install_step(install_step(m, index, first), index, second) == install_step(m, index, first),
        uninstall_step(uninstall_step(m, index, first), index, second) == uninstall_step(
            m,
            index,
            first,
        ),
{
}

/// A hook that is run and does not succeed leaves its plugin failed; one
/// that succeeds moves it to the state it aimed at.
pub proof fn hook_outcome_decides_state<P>(m: Map<usize, PluginSlot<P>>, index: usize, o: HookOutcome)
    ensures
        hook_runs(m, index, PluginState::Disable) ==> install_step(m, index, o)[index].state == (
        if o is Done {
            PluginState::Enable
        } else {
            PluginState::Failed
        }),
        hook_runs(m, index, PluginState::Enable) ==> uninstall_step(m, index, o)[index].state == (
        if o is Done {
            PluginState::Disable
        } else {
            PluginState::Failed
        }),
{
}

/// A plugin is served after an install exactly when it was served before or
/// it is the one installed and its hook succeeded; an uninstall never makes
/// a plugin served, and the plugin it is run for stops being served.
pub proof fn serving_follows_hooks<P>(m: Map<usize, PluginSlot<P>>, index: usize, o: HookOutcome)
    ensures
        forall|k: usize|
            #[trigger] serves(install_step(m, index, o), k) <==> serves(m, k) || (k == index
                && hook_runs(m, index, PluginState::Disable) && o is Done),
        forall|k: usize|
            #[trigger] serves(uninstall_step(m, index, o), k) <==> serves(m, k) && !(k == index
                && hook_runs(m, index, PluginState::Enable)),
{
}

/// Every plugin found by a directory scan starts out not installed, under
/// the position of its entry, and with the information and handle built
/// from that entry.
pub proof fn discovered_plugins_start_uninstalled<P>(probes: Seq<DirProbe<P>>)
    ensures
        forall|k: usize| #[trigger]
            probes_map(probes).contains_key(k) ==> probes_map(probes)[k].state == PluginState::Disable
                && !serves(probes_map(probes), k) && k < probes.len() && (probes[k as int] matches DirProbe::Loaded(info, h)
                && probes_map(probes)[k].info == info && probes_map(probes)[k].handle == h),
{
}

/// Only a hook that could not be run is an error at the system level, and
/// that error is the hook's own.
pub proof fn only_unrunnable_hooks_are_errors(o: HookOutcome, e: FatalPluginError, m: String)
    ensures
        hook_result(o) is Err <==> o is Fatal,
        hook_result(HookOutcome::Fatal(e)) == Err::<(), FrError>(FrError::Plugin(e)),
        hook_result(HookOutcome::Refused(m)) is Ok,
        hook_result(HookOutcome::Done) is Ok,
{
}

/// Every plugin built by a directory scan is kept, under the position of its
/// entry, and nothing else is.
pub proof fn every_loaded_entry_is_kept<P>(probes: Seq<DirProbe<P>>, k: usize)
    ensures
        probes_map(probes).contains_key(k) <==> (k < probes.len() && probes[k as int] is Loaded),
{
}

} // verus!
