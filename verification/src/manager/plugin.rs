//! The system's plugin manager, generic over the plugin handle.

use vstd::prelude::*;
use std::collections::HashMap;
use std::collections::hash_map::Entry;
use crate::error::FrError;
use crate::plugin::{
    hook_result, hook_runs, hook_state, install_step, load_plugins, probes_map, settle,
    uninstall_step, DirProbe, HookOutcome, PluginInfo, PluginInfoView, PluginSlot, PluginState,
};
use crate::plugin::manager::{collect_infos, info_map_view, info_views, plugin_keys};

verus! {

broadcast use vstd::std_specs::hash::group_hash_axioms;

/// The state of every plugin of a map.
pub open spec fn state_map<P>(m: Map<usize, PluginSlot<P>>) -> Map<usize, PluginState> {
    m.map_values(|s: PluginSlot<P>| s.state)
}

/// The state of every plugin of a map, under the same keys.
fn collect_states<P>(m: &HashMap<usize, PluginSlot<P>>) -> (r: HashMap<usize, PluginState>)
    ensures
        r@ == state_map(m@),
{
    let keys = plugin_keys(m);
    let mut r: HashMap<usize, PluginState> = HashMap::new();
    let mut i: usize = 0;
    while i < keys.len()
        invariant
            keys@.to_set() == m@.dom(),
            i <= keys@.len(),
            forall|k: usize| #[trigger] r@.contains_key(k) <==> exists|j: int| 0 <= j < i && keys@[j] == k,
            forall|k: usize| #[trigger] r@.contains_key(k) ==> m@.contains_key(k) && r@[k] == m@[k].state,
        decreases keys@.len() - i,
    {
        let k = keys[i];
        assert(keys@.to_set().contains(k));
        let slot = m.get(&k).unwrap();
        r.insert(k, slot.state);
        assert(keys@[i as int] == k);
        i = i + 1;
    }
    assert forall|k: usize| #[trigger] m@.contains_key(k) implies r@.contains_key(k) by {
        assert(keys@.to_set().contains(k));
        let j = choose|j: int| 0 <= j < keys@.len() && keys@[j] == k;
        assert(keys@[j] == k);
    }
    assert(r@ =~= state_map(m@));
    r
}

/// Plugins of one kind, each kept under the key it was discovered with.
pub struct PluginManager<Pl> {
    pub plugins: HashMap<usize, PluginSlot<Pl>>,
}

impl<Pl> PluginManager<Pl> {
    /// Builds the manager from the scan of a plugin directory: the plugin
    /// built from the readable entry at position `k` is kept under key `k`,
    /// disabled.
    pub fn new(probes: Vec<DirProbe<Pl>>) -> (r: Self)
        ensures
            r.plugins@ == probes_map(probes@),
    {
        PluginManager { plugins: load_plugins(probes) }
    }
}

/// Access to, and operations on, the plugins of a manager.
pub trait AsPluginManager<Pl> {
    /// The plugins of the manager.
    spec fn plugins_view(&self) -> Map<usize, PluginSlot<Pl>>;

    fn plugin_manager(&self) -> (r: &PluginManager<Pl>)
        ensures
            r.plugins@ == self.plugins_view(),
    ;

    fn plugin_manager_mut(&mut self) -> (r: &mut PluginManager<Pl>)
        ensures
            r.plugins@ == old(self).plugins_view(),
            final(self).plugins_view() == final(r).plugins@,
    ;

    /// The information of every plugin.
    fn infos(&self) -> (r: HashMap<usize, PluginInfo>)
        ensures
            info_map_view(r@) == info_views(self.plugins_view()),
    {
        collect_infos(&self.plugin_manager().plugins)
    }

    /// The information of the plugin under `index`.
    fn info(&self, index: usize) -> (r: Option<PluginInfo>)
        ensures
            r is Some <==> self.plugins_view().contains_key(index),
            r matches Some(i) ==> i@ == self.plugins_view()[index].info@,
    {
        match self.plugin_manager().plugins.get(&index) {
            Some(p) => Some(p.info.duplicate()),
            None => None,
        }
    }

    /// The state of every plugin.
    fn states(&self) -> (r: HashMap<usize, PluginState>)
        ensures
            r@ == state_map(self.plugins_view()),
    {
        collect_states(&self.plugin_manager().plugins)
    }

    /// The state of the plugin under `index`.
    fn state(&self, index: usize) -> (r: Option<PluginState>)
        ensures
            r == (if self.plugins_view().contains_key(index) {
                Some(self.plugins_view()[index].state)
            } else {
                None
            }),
    {
        match self.plugin_manager().plugins.get(&index) {
            Some(p) => Some(p.state),
            None => None,
        }
    }

    /// The number of plugins.
    fn plugin_count(&self) -> (r: usize)
        ensures
            r == self.plugins_view().len(),
    {
        self.plugin_manager().plugins.len()
    }

    /// The handle of the plugin under `idx`.
    fn plugin(&self, idx: usize) -> (r: Option<&Pl>)
        ensures
            r == (if self.plugins_view().contains_key(idx) {
                Some(&self.plugins_view()[idx].handle)
            } else {
                None
            }),
    {
        match self.plugin_manager().plugins.get(&idx) {
            Some(p) => Some(&p.handle),
            None => None,
        }
    }

    /// The handle of the plugin under `idx`, to change it in place.
    fn plugin_mut(&mut self, idx: usize) -> (r: Option<&mut Pl>)
        ensures
            r is Some <==> old(self).plugins_view().contains_key(idx),
            r matches Some(h) ==> *h == old(self).plugins_view()[idx].handle
                && final(self).plugins_view() == old(self).plugins_view().insert(
                idx,
                PluginSlot { handle: *final(h), ..old(self).plugins_view()[idx] },
            ),
            r is None ==> final(self).plugins_view() == old(self).plugins_view(),
    {
        let pm = self.plugin_manager_mut();
        match pm.plugins.entry(idx) {
            Entry::Occupied(e) => {
                let slot = e.into_mut();
                Some(&mut slot.handle)
            },
            Entry::Vacant(_) => None,
        }
    }

    /// Enables the plugin under `index` by running its install hook with
    /// `args`, when it is disabled. A plugin that is absent, enabled or failed
    /// is left as it is.
    fn enable<F>(&mut self, index: usize, args: &[String], hook: F) -> (r: Result<(), FrError>) where
        F: Fn(&Pl, &[String]) -> HookOutcome,
        requires
            forall|h: &Pl, a: &[String]| hook.requires((h, a)),
        ensures
            !hook_runs(old(self).plugins_view(), index, PluginState::Disable) ==> r is Ok
                && final(self).plugins_view() == old(self).plugins_view(),
            hook_runs(old(self).plugins_view(), index, PluginState::Disable) ==> exists|o: HookOutcome|
                #[trigger] hook.ensures((&old(self).plugins_view()[index].handle, args), o)
                    && final(self).plugins_view() == install_step(old(self).plugins_view(), index, o)
                    && r == hook_result(o),
    {
        let pm = self.plugin_manager_mut();
        match pm.plugins.get(&index) {
            Some(slot) => {
                if slot.state == PluginState::Disable {
                    let o = hook(&slot.handle, args);
                    let ghost og = o;
                    let r = settle(&mut pm.plugins, index, PluginState::Enable, o);
                    assert(hook.ensures((&old(self).plugins_view()[index].handle, args), og));
                    r
                } else {
                    Ok(())
                }
            },
            None => Ok(()),
        }
    }

    /// Disables the plugin under `index` by running its uninstall hook, when
    /// it is enabled. Any other plugin is left as it is.
    fn disable<F>(&mut self, index: usize, hook: F) -> (r: Result<(), FrError>) where
        F: Fn(&Pl) -> HookOutcome,
        requires
            forall|h: &Pl| hook.requires((h,)),
        ensures
            !hook_runs(old(self).plugins_view(), index, PluginState::Enable) ==> r is Ok
                && final(self).plugins_view() == old(self).plugins_view(),
            hook_runs(old(self).plugins_view(), index, PluginState::Enable) ==> exists|o: HookOutcome|
                #[trigger] hook.ensures((&old(self).plugins_view()[index].handle,), o)
                    && final(self).plugins_view() == uninstall_step(old(self).plugins_view(), index, o)
                    && r == hook_result(o),
    {
        let pm = self.plugin_manager_mut();
        match pm.plugins.get(&index) {
            Some(slot) => {
                if slot.state == PluginState::Enable {
                    let o = hook(&slot.handle);
                    let ghost og = o;
                    let r = settle(&mut pm.plugins, index, PluginState::Disable, o);
                    assert(hook.ensures((&old(self).plugins_view()[index].handle,), og));
                    r
                } else {
                    Ok(())
                }
            },
            None => Ok(()),
        }
    }

    /// Disables every enabled plugin, going through the plugins in the order
    /// of their keys in the map and stopping at the first uninstall hook that
    /// cannot be run: that hook's error is returned and the plugins after it
    /// are left as they are.
    fn disable_all<F>(&mut self, hook: F) -> (r: Result<(), FrError>) where
        F: Fn(&Pl) -> HookOutcome,
        requires
            forall|h: &Pl| hook.requires((h,)),
        ensures
            final(self).plugins_view().dom() == old(self).plugins_view().dom(),
            exists|ks: Seq<usize>, s: int|
                #[trigger] disable_pass(hook, old(self).plugins_view(), final(self).plugins_view(), r, ks, s),
            r is Ok ==> forall|k: usize|
                #[trigger] final(self).plugins_view().contains_key(k)
                    ==> final(self).plugins_view()[k].state != PluginState::Enable,
            (forall|h: &Pl, o: HookOutcome| #[trigger] hook.ensures((h,), o) ==> !(o is Fatal))
                ==> r is Ok,
    {
        let ghost start = old(self).plugins_view();
        let pm = self.plugin_manager_mut();
        let keys = plugin_keys(&pm.plugins);
        let mut i: usize = 0;
        let mut res: Result<(), FrError> = Ok(());
        let ghost mut stop: int = 0;
        while i < keys.len() && res.is_ok()
            invariant
                keys@.to_set() == start.dom(),
                keys@.no_duplicates(),
                i <= keys@.len(),
                forall|h: &Pl| hook.requires((h,)),
                pm.plugins@.dom() == start.dom(),
                res is Err ==> disable_pass(hook, start, pm.plugins@, res, keys@, stop),
                res is Ok ==> forall|j: int|
                    #![trigger keys@[j]]
                    0 <= j < i ==> (if start[keys@[j]].state == PluginState::Enable {
                        disable_ran(hook, start[keys@[j]], pm.plugins@[keys@[j]])
                    } else {
                        pm.plugins@[keys@[j]] == start[keys@[j]]
                    }),
                res is Ok ==> forall|j: int|
                    0 <= j < i ==> #[trigger] pm.plugins@[keys@[j]].state != PluginState::Enable,
                res is Ok ==> forall|j: int|
                    i <= j < keys@.len() ==> #[trigger] pm.plugins@[keys@[j]] == start[keys@[j]],
            decreases keys@.len() - i,
        {
            let k = keys[i];
            assert(keys@.to_set().contains(k));
            assert(keys@[i as int] == k);
            let slot = pm.plugins.get(&k).unwrap();
            if slot.state == PluginState::Enable {
                let o = hook(&slot.handle);
                let ghost og = o;
                let ghost before = pm.plugins@;
                let r = settle(&mut pm.plugins, k, PluginState::Disable, o);
                assert(start[keys@[i as int]] == before[k]);
                assert(pm.plugins@.dom() =~= start.dom());
                assert(hook.ensures((&start[k].handle,), og));
                assert forall|j: int| i < j < keys@.len() implies #[trigger] pm.plugins@[keys@[j]]
                    == start[keys@[j]] by {
                    assert(keys@[j] != k);
                }
                assert forall|j: int| #![trigger keys@[j]] 0 <= j < i implies pm.plugins@[keys@[j]]
                    == before[keys@[j]] by {
                    assert(keys@[j] != k);
                }
                match r {
                    Err(e) => {
                        assert(disable_stopped(hook, start[k], pm.plugins@[k], Err(e)));
                        assert(disable_pass(hook, start, pm.plugins@, Err(e), keys@, i as int));
                        proof {
                            stop = i as int;
                        }
                        res = Err(e);
                    },
                    Ok(()) => {
                        assert(disable_ran(hook, start[k], pm.plugins@[k]));
                    },
                }
            }
            i = i + 1;
        }
        if res.is_ok() {
            assert forall|k: usize| #[trigger] pm.plugins@.contains_key(k) implies pm.plugins@[k].state
                != PluginState::Enable by {
                assert(keys@.to_set().contains(k));
                let j = choose|j: int| 0 <= j < keys@.len() && keys@[j] == k;
                assert(pm.plugins@[keys@[j]].state != PluginState::Enable);
            }
            assert(disable_pass(hook, start, pm.plugins@, res, keys@, keys@.len() as int));
        } else {
            assert(disable_pass(hook, start, pm.plugins@, res, keys@, stop));
        }
        res
    }
}

/// `after` is `before` once its uninstall hook ran, and reported something
/// other than that it could not be run.
pub open spec fn disable_ran<Pl, F>(hook: F, before: PluginSlot<Pl>, after: PluginSlot<Pl>) -> bool where
    F: Fn(&Pl) -> HookOutcome,
 {
    exists|o: HookOutcome|
        #[trigger] hook.ensures((&before.handle,), o) && !(o is Fatal) && after == before.with_state(
            hook_state(PluginState::Disable, o),
        )
}

/// The uninstall hook of `before` could not be run: `after` is `before`
/// failed, and `r` is the error reported for it.
pub open spec fn disable_stopped<Pl, F>(
    hook: F,
    before: PluginSlot<Pl>,
    after: PluginSlot<Pl>,
    r: Result<(), FrError>,
) -> bool where F: Fn(&Pl) -> HookOutcome,
 {
    exists|o: HookOutcome|
        #[trigger] hook.ensures((&before.handle,), o) && o is Fatal && after == before.with_state(
            hook_state(PluginState::Disable, o),
        ) && r == hook_result(o)
}

/// The plugins `before` became `after`, with result `r`, by going through
/// their keys in the order `ks` and stopping at position `s`: every enabled
/// plugin before that position was disabled by a hook that ran, every other
/// one before it is unchanged; the plugin at `s`, if any, is an enabled one
/// whose hook could not be run, and its error is `r`; the plugins after it
/// are unchanged. `r` is `Ok` exactly when every key was gone through.
pub open spec fn disable_pass<Pl, F>(
    hook: F,
    before: Map<usize, PluginSlot<Pl>>,
    after: Map<usize, PluginSlot<Pl>>,
    r: Result<(), FrError>,
    ks: Seq<usize>,
    s: int,
) -> bool where F: Fn(&Pl) -> HookOutcome,
 {
    &&& ks.no_duplicates()
    &&& ks.to_set() == before.dom()
    &&& after.dom() == before.dom()
    &&& 0 <= s <= ks.len()
    &&& forall|j: int|
        #![trigger ks[j]]
        0 <= j < s ==> (if before[ks[j]].state == PluginState::Enable {
            disable_ran(hook, before[ks[j]], after[ks[j]])
        } else {
            after[ks[j]] == before[ks[j]]
        })
    &&& (r is Ok <==> s == ks.len())
    &&& s < ks.len() ==> before[ks[s]].state == PluginState::Enable && disable_stopped(
        hook,
        before[ks[s]],
        after[ks[s]],
        r,
    )
    &&& forall|j: int| #![trigger ks[j]] s < j < ks.len() ==> after[ks[j]] == before[ks[j]]
}

/// The information and state of every plugin of a map, each under the
/// plugin's key.
pub open spec fn catalog_view<P>(m: Map<usize, PluginSlot<P>>) -> Map<usize, (PluginInfoView, PluginState)> {
    m.map_values(|s: PluginSlot<P>| (s.info@, s.state))
}

/// A catalog entry with its information as text.
pub open spec fn catalog_entry_view(e: (PluginInfo, PluginState)) -> (PluginInfoView, PluginState) {
    (e.0@, e.1)
}

/// The information of every plugin of a manager with its state, each pair
/// under the plugin's key: the information map is walked in its iteration
/// order, and each plugin's information is paired with that plugin's own
/// state.
pub fn get_models<Pl, T: AsPluginManager<Pl>>(manager: &T) -> (r: HashMap<usize, (PluginInfo, PluginState)>)
    ensures
        r@.map_values(|e: (PluginInfo, PluginState)| catalog_entry_view(e)) == catalog_view(
            manager.plugins_view(),
        ),
{
    let ghost m = manager.plugins_view();
    let infos = manager.infos();
    let states = manager.states();
    let ik = plugin_keys(&infos);
    proof {
        assert(infos@.dom() =~= info_map_view(infos@).dom());
        assert(info_views(m).dom() =~= m.dom());
        assert(states@.dom() =~= state_map(m).dom());
        assert(state_map(m).dom() =~= m.dom());
    }
    let mut r: HashMap<usize, (PluginInfo, PluginState)> = HashMap::new();
    let mut i: usize = 0;
    while i < ik.len()
        invariant
            ik@.to_set() == m.dom(),
            i <= ik@.len(),
            info_map_view(infos@) == info_views(m),
            infos@.dom() == m.dom(),
            states@ == state_map(m),
            states@.dom() == m.dom(),
            forall|k: usize| #[trigger] r@.contains_key(k) <==> exists|j: int| 0 <= j < i && ik@[j] == k,
            forall|k: usize|
                #[trigger] r@.contains_key(k) ==> m.contains_key(k) && r@[k].0@ == m[k].info@
                    && r@[k].1 == m[k].state,
        decreases ik@.len() - i,
    {
        let k = ik[i];
        assert(ik@.to_set().contains(k));
        assert(info_map_view(infos@)[k] == info_views(m)[k]);
        assert(state_map(m)[k] == m[k].state);
        let info = infos.get(&k).unwrap().duplicate();
        let st = *states.get(&k).unwrap();
        r.insert(k, (info, st));
        assert(ik@[i as int] == k);
        i = i + 1;
    }
    assert forall|k: usize| #[trigger] m.contains_key(k) implies r@.contains_key(k) by {
        assert(ik@.to_set().contains(k));
        let j = choose|j: int| 0 <= j < ik@.len() && ik@[j] == k;
        assert(ik@[j] == k);
    }
    assert(r@.map_values(|e: (PluginInfo, PluginState)| catalog_entry_view(e)) =~= catalog_view(m));
    r
}

impl<Pl> AsPluginManager<Pl> for PluginManager<Pl> {
    open spec fn plugins_view(&self) -> Map<usize, PluginSlot<Pl>> {
        self.plugins@
    }

    fn plugin_manager(&self) -> (r: &PluginManager<Pl>) {
        self
    }

    fn plugin_manager_mut(&mut self) -> (r: &mut PluginManager<Pl>) {
        self
    }
}

} // verus!
