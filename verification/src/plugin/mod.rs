//! Plugins as the rest of the system sees them: their descriptive
//! information, their life-cycle state, and the outcome of their hooks.

pub mod manager;
pub mod laws;

use vstd::prelude::*;
use vstd::string::*;
use std::collections::HashMap;
use crate::error::{FatalPluginError, FrError};

verus! {

broadcast use vstd::std_specs::hash::group_hash_axioms;

/// Descriptive information of a plugin, as read from its `info.toml`.
#[derive(Debug, Clone, Default)]
pub struct PluginInfo {
    pub name: String,
    pub author: String,
    pub version: String,
    pub description: String,
}

/// The text of a plugin's information.
pub struct PluginInfoView {
    pub name: Seq<char>,
    pub author: Seq<char>,
    pub version: Seq<char>,
    pub description: Seq<char>,
}

impl View for PluginInfo {
    type V = PluginInfoView;

    open spec fn view(&self) -> PluginInfoView {
        PluginInfoView {
            name: self.name@,
            author: self.author@,
            version: self.version@,
            description: self.description@,
        }
    }
}

impl PluginInfo {
    /// A copy of the information with the same text.
    pub fn duplicate(&self) -> (r: PluginInfo)
        ensures
            r@ == self@,
    {
        PluginInfo {
            name: self.name.clone(),
            author: self.author.clone(),
            version: self.version.clone(),
            description: self.description.clone(),
        }
    }
}

/// Life-cycle state of a plugin. A freshly discovered plugin is `Disable`
/// (not installed); a successful install hook makes it `Enable`; a hook that
/// fails leaves it `Failed`.
#[derive(Debug, Clone, Copy, PartialEq, Eq, Structural)]
pub enum PluginState {
    Enable,
    Disable,
    Failed,
}

/// What an install or uninstall hook of a plugin reported.
#[derive(Debug)]
pub enum HookOutcome {
    /// The hook ran and succeeded.
    Done,
    /// The hook ran and returned an error code; the text describes it.
    Refused(String),
    /// The hook could not be run at all (for example a missing symbol).
    Fatal(FatalPluginError),
}

/// The state a plugin is left in after a hook meant to bring it to `target`.
pub open spec fn hook_state(target: PluginState, o: HookOutcome) -> PluginState {
    match o {
        HookOutcome::Done => target,
        _ => PluginState::Failed,
    }
}

/// What a manager reports after running a hook: only a hook that could not
/// be run is an error at the system level.
pub open spec fn hook_result(o: HookOutcome) -> Result<(), FrError> {
    match o {
        HookOutcome::Fatal(e) => Err(FrError::Plugin(e)),
        _ => Ok(()),
    }
}

/// Whether a hook meant to move the plugin under `index` out of state
/// `from` is run at all: only a plugin that is present and in that state is
/// touched.
pub open spec fn hook_runs<P>(m: Map<usize, PluginSlot<P>>, index: usize, from: PluginState) -> bool {
    m.contains_key(index) && m[index].state == from
}

/// The plugins after a hook meant to move the plugin under `index` from
/// `from` to `to` reported `o`; when the hook is not run nothing changes.
pub open spec fn transition<P>(
    m: Map<usize, PluginSlot<P>>,
    index: usize,
    from: PluginState,
    to: PluginState,
    o: HookOutcome,
) -> Map<usize, PluginSlot<P>> {
    if hook_runs(m, index, from) {
        m.insert(index, m[index].with_state(hook_state(to, o)))
    } else {
        m
    }
}

/// The plugins after an install hook of the plugin under `index` reported
/// `o`.
pub open spec fn install_step<P>(m: Map<usize, PluginSlot<P>>, index: usize, o: HookOutcome) -> Map<
    usize,
    PluginSlot<P>,
> {
    transition(m, index, PluginState::Disable, PluginState::Enable, o)
}

/// The plugins after an uninstall hook of the plugin under `index` reported
/// `o`.
pub open spec fn uninstall_step<P>(m: Map<usize, PluginSlot<P>>, index: usize, o: HookOutcome) -> Map<
    usize,
    PluginSlot<P>,
> {
    transition(m, index, PluginState::Enable, PluginState::Disable, o)
}

/// Whether the plugin under `index` is installed, so that its handle is
/// served.
pub open spec fn serves<P>(m: Map<usize, PluginSlot<P>>, index: usize) -> bool {
    m.contains_key(index) && m[index].state == PluginState::Enable
}

/// A plugin held by a manager: its information, its state and the handle
/// through which its hooks are called.
pub struct PluginSlot<P> {
    pub info: PluginInfo,
    pub state: PluginState,
    pub handle: P,
}

impl<P> PluginSlot<P> {
    /// The same plugin in another state.
    pub open spec fn with_state(self, s: PluginState) -> PluginSlot<P> {
        PluginSlot { info: self.info, state: s, handle: self.handle }
    }
}

/// What was found at one readable entry of a plugin directory.
pub enum DirProbe<P> {
    /// The entry is not a directory.
    NotDir,
    /// The entry is a directory, but no plugin could be built from it.
    Rejected(String),
    /// A plugin was built from the directory.
    Loaded(PluginInfo, P),
}

/// The plugins found by a directory scan: the plugin built from the readable
/// entry at position `k` is kept under key `k`, in state `Disable`.
pub open spec fn probes_map<P>(probes: Seq<DirProbe<P>>) -> Map<usize, PluginSlot<P>> {
    Map::new(
        |k: usize| k < probes.len() && probes[k as int] is Loaded,
        |k: usize|
            match probes[k as int] {
                DirProbe::Loaded(info, h) => PluginSlot { info, state: PluginState::Disable, handle: h },
                _ => arbitrary(),
            },
    )
}

/// Keeps the plugins built from a directory scan, keyed by the position of
/// their entry among the readable entries.
pub fn load_plugins<P>(probes: Vec<DirProbe<P>>) -> (m: HashMap<usize, PluginSlot<P>>)
    ensures
        m@ == probes_map(probes@),
{
    let ghost all = probes@;
    let mut probes = probes;
    let mut m: HashMap<usize, PluginSlot<P>> = HashMap::new();
    while probes.len() > 0
        invariant
            probes@ == all.take(probes@.len() as int),
            probes@.len() <= all.len(),
            forall|k: usize|
                #![trigger m@.contains_key(k)]
                m@.contains_key(k) <==> (probes@.len() <= k < all.len() && all[k as int] is Loaded),
            forall|k: usize|
                #![trigger m@[k]]
                probes@.len() <= k < all.len() && all[k as int] is Loaded ==> m@[k] == probes_map(all)[k],
        decreases probes@.len(),
    {
        let probe = probes.pop().unwrap();
        let idx = probes.len();
        assert(probe == all[idx as int]);
        match probe {
            DirProbe::Loaded(info, h) => {
                m.insert(idx, PluginSlot { info, state: PluginState::Disable, handle: h });
            },
            _ => {},
        }
        assert(probes@ =~= all.take(probes@.len() as int));
    }
    assert(m@ =~= probes_map(all));
    m
}

/// Records the outcome of a hook run on the plugin under `index`.
pub(crate) fn settle<P>(
    plugins: &mut HashMap<usize, PluginSlot<P>>,
    index: usize,
    target: PluginState,
    outcome: HookOutcome,
) -> (r: Result<(), FrError>)
    requires
        old(plugins)@.contains_key(index),
    ensures
        final(plugins)@ == old(plugins)@.insert(
            index,
            old(plugins)@[index].with_state(hook_state(target, outcome)),
        ),
        r == hook_result(outcome),
{
    let slot = plugins.remove(&index);
    let mut slot = slot.unwrap();
    let r = match outcome {
        HookOutcome::Done => {
            slot.state = target;
            Ok(())
        },
        HookOutcome::Refused(_) => {
            slot.state = PluginState::Failed;
            Ok(())
        },
        HookOutcome::Fatal(e) => {
            slot.state = PluginState::Failed;
            Err(FrError::Plugin(e))
        },
    };
    plugins.insert(index, slot);
    assert(final(plugins)@ =~= old(plugins)@.insert(
        index,
        old(plugins)@[index].with_state(hook_state(target, outcome)),
    ));
    r
}

} // verus!
