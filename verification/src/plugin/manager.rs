//! The manager of aerodynamic-model plugins.

use vstd::prelude::*;
use vstd::string::*;
use vstd::std_specs::iter::IteratorSpec;
use std::collections::HashMap;
use crate::error::FrError;
use super::{
    hook_result, hook_runs, hook_state, install_step, load_plugins, probes_map, serves, settle,
    uninstall_step, DirProbe, HookOutcome, PluginInfo, PluginInfoView, PluginSlot, PluginState,
};

verus! {

broadcast use vstd::std_specs::hash::group_hash_axioms;

/// The kinds of plugin the system knows of. Only model plugins are managed
/// here.
#[derive(Debug, Clone, Copy, PartialEq, Eq, Structural)]
pub enum PluginType {
    System,
    Controller,
    Model,
}

/// The text of the information of each plugin.
pub open spec fn info_views<P>(m: Map<usize, PluginSlot<P>>) -> Map<usize, PluginInfoView> {
    m.map_values(|s: PluginSlot<P>| s.info@)
}

/// The text of each piece of information in a map.
pub open spec fn info_map_view(m: Map<usize, PluginInfo>) -> Map<usize, PluginInfoView> {
    m.map_values(|i: PluginInfo| i@)
}

/// The keys of a map, in the order in which its iterator yields them.
pub(crate) fn plugin_keys<V>(m: &HashMap<usize, V>) -> (r: Vec<usize>)
    ensures
        r@.to_set() == m@.dom(),
        r@.no_duplicates(),
{
    let mut r: Vec<usize> = Vec::new();
    let ghost ks = vstd::std_specs::hash::spec_keys_iter(m).remaining();
    for k in it: m.keys()
        invariant
            it.seq() == ks,
            r@ == it.seq().take(it.index() as int).unref(),
    {
        r.push(*k);
    }
    assert(ks.take(ks.len() as int) =~= ks);
    assert(r@ =~= ks.unref());
    r
}

/// The information of every plugin of a map, under the same keys.
pub(crate) fn collect_infos<P>(m: &HashMap<usize, PluginSlot<P>>) -> (r: HashMap<usize, PluginInfo>)
    ensures
        info_map_view(r@) == info_views(m@),
{
    let keys = plugin_keys(m);
    let mut r: HashMap<usize, PluginInfo> = HashMap::new();
    let mut i: usize = 0;
    while i < keys.len()
        invariant
            keys@.to_set() == m@.dom(),
            keys@.no_duplicates(),
            i <= keys@.len(),
            forall|k: usize| #[trigger] r@.contains_key(k) <==> exists|j: int| 0 <= j < i && keys@[j] == k,
            forall|k: usize| #[trigger] r@.contains_key(k) ==> m@.contains_key(k) && r@[k]@ == m@[k].info@,
        decreases keys@.len() - i,
    {
        let k = keys[i];
        assert(keys@.to_set().contains(k));
        let slot = m.get(&k).unwrap();
        r.insert(k, slot.info.duplicate());
        assert(keys@[i as int] == k);
        i = i + 1;
    }
    assert forall|k: usize| #[trigger] m@.contains_key(k) implies r@.contains_key(k) by {
        assert(keys@.to_set().contains(k));
        let j = choose|j: int| 0 <= j < keys@.len() && keys@[j] == k;
        assert(keys@[j] == k);
    }
    assert(info_map_view(r@) =~= info_views(m@));
    r
}

/// The manager of model plugins, each kept under the key it was discovered
/// with.
pub struct PluginManager<M> {
    models: HashMap<usize, PluginSlot<M>>,
}

impl<M> View for PluginManager<M> {
    type V = Map<usize, PluginSlot<M>>;

    closed spec fn view(&self) -> Map<usize, PluginSlot<M>> {
        self.models@
    }
}

impl<M> PluginManager<M> {
    /// Builds the manager from the scan of the model directory: the plugin
    /// built from the readable entry at position `k` is kept under key `k`,
    /// not installed.
    pub fn new(probes: Vec<DirProbe<M>>) -> (r: Self)
        ensures
            r@ == probes_map(probes@),
    {
        PluginManager { models: load_plugins(probes) }
    }

    /// The information of every model, in a list of one map.
    pub fn get_infos(&self) -> (r: Vec<HashMap<usize, PluginInfo>>)
        ensures
            r@.len() == 1,
            info_map_view(r@[0]@) == info_views(self@),
    {
        let models = collect_infos(&self.models);
        let mut r = Vec::new();
        r.push(models);
        r
    }

    /// Installs the model under `index` by running its install hook with
    /// `args`, when it is not installed yet. A model that is absent, already
    /// installed or failed is left as it is.
    pub fn install<F>(
        &mut self,
        plugin_type: PluginType,
        index: &usize,
        args: &[String],
        hook: F,
    ) -> (r: Result<(), FrError>) where F: Fn(&M, &[String]) -> HookOutcome
        requires
            plugin_type == PluginType::Model,
            forall|h: &M, a: &[String]| hook.requires((h, a)),
        ensures
            !hook_runs(old(self)@, *index, PluginState::Disable) ==> r is Ok && final(self)@ == old(
                self,
            )@,
            hook_runs(old(self)@, *index, PluginState::Disable) ==> exists|o: HookOutcome|
                #[trigger] hook.ensures((&old(self)@[*index].handle, args), o)
                    && final(self)@ == install_step(old(self)@, *index, o) && r == hook_result(o),
    {
        let idx = *index;
        match self.models.get(&idx) {
            Some(slot) => {
                if slot.state == PluginState::Disable {
                    let o = hook(&slot.handle, args);
                    let ghost og = o;
                    let r = settle(&mut self.models, idx, PluginState::Enable, o);
                    assert(hook.ensures((&old(self)@[*index].handle, args), og));
                    r
                } else {
                    Ok(())
                }
            },
            None => Ok(()),
        }
    }

    /// Uninstalls the model under `index` by running its uninstall hook with
    /// `args`, when it is installed. Any other model is left as it is.
    pub fn uninstall<F>(
        &mut self,
        plugin_type: PluginType,
        index: &usize,
        args: &[String],
        hook: F,
    ) -> (r: Result<(), FrError>) where F: Fn(&M, &[String]) -> HookOutcome
        requires
            plugin_type == PluginType::Model,
            forall|h: &M, a: &[String]| hook.requires((h, a)),
        ensures
            !hook_runs(old(self)@, *index, PluginState::Enable) ==> r is Ok && final(self)@ == old(
                self,
            )@,
            hook_runs(old(self)@, *index, PluginState::Enable) ==> exists|o: HookOutcome|
                #[trigger] hook.ensures((&old(self)@[*index].handle, args), o)
                    && final(self)@ == uninstall_step(old(self)@, *index, o) && r == hook_result(o),
    {
        let idx = *index;
        match self.models.get(&idx) {
            Some(slot) => {
                if slot.state == PluginState::Enable {
                    let o = hook(&slot.handle, args);
                    let ghost og = o;
                    let r = settle(&mut self.models, idx, PluginState::Disable, o);
                    assert(hook.ensures((&old(self)@[*index].handle, args), og));
                    r
                } else {
                    Ok(())
                }
            },
            None => Ok(()),
        }
    }

    /// Uninstalls every installed model, each with the single argument `""`,
    /// going through the models in the order of their keys in the map and
    /// stopping at the first hook that cannot be run: that hook's error is
    /// returned and the models after it are left as they are.
    pub fn uninstall_all<F>(&mut self, hook: F) -> (r: Result<(), FrError>) where
        F: Fn(&M, &[String]) -> HookOutcome,
        requires
            forall|h: &M, a: &[String]| hook.requires((h, a)),
        ensures
            final(self)@.dom() == old(self)@.dom(),
            exists|ks: Seq<usize>, s: int| #[trigger] uninstall_pass(hook, old(self)@, final(self)@, r, ks, s),
            r is Ok ==> forall|k: usize|
                #[trigger] final(self)@.contains_key(k) ==> final(self)@[k].state != PluginState::Enable,
            (forall|h: &M, a: &[String], o: HookOutcome| #[trigger] hook.ensures((h, a), o) ==> !(o is Fatal))
                ==> r is Ok,
    {
        let keys = plugin_keys(&self.models);
        let mut args: Vec<String> = Vec::new();
        args.push(String::new());
        let mut i: usize = 0;
        while i < keys.len()
            invariant
                keys@.to_set() == old(self)@.dom(),
                keys@.no_duplicates(),
                i <= keys@.len(),
                args@.len() == 1,
                args@[0]@ == Seq::<char>::empty(),
                forall|h: &M, a: &[String]| hook.requires((h, a)),
                self.models@.dom() == old(self)@.dom(),
                forall|j: int|
                    #![trigger keys@[j]]
                    0 <= j < i ==> (if old(self)@[keys@[j]].state == PluginState::Enable {
                        uninstall_ran(hook, old(self)@[keys@[j]], self.models@[keys@[j]])
                    } else {
                        self.models@[keys@[j]] == old(self)@[keys@[j]]
                    }),
                forall|j: int|
                    0 <= j < i ==> #[trigger] self.models@[keys@[j]].state != PluginState::Enable,
                forall|j: int|
                    i <= j < keys@.len() ==> #[trigger] self.models@[keys@[j]] == old(self)@[keys@[j]],
            decreases keys@.len() - i,
        {
            let k = keys[i];
            assert(keys@.to_set().contains(k));
            assert(keys@[i as int] == k);
            let slot = self.models.get(&k).unwrap();
            if slot.state == PluginState::Enable {
                let sl = args.as_slice();
                let o = hook(&slot.handle, sl);
                let ghost og = o;
                let ghost before = self.models@;
                let res = settle(&mut self.models, k, PluginState::Disable, o);
                assert(old(self)@[keys@[i as int]] == before[k]);
                assert(self.models@.dom() =~= old(self)@.dom());
                assert(hook.ensures((&old(self)@[k].handle, sl), og));
                assert forall|j: int| i < j < keys@.len() implies #[trigger] self.models@[keys@[j]]
                    == old(self)@[keys@[j]] by {
                    assert(keys@[j] != k);
                }
                assert forall|j: int| #![trigger keys@[j]] 0 <= j < i implies self.models@[keys@[j]]
                    == before[keys@[j]] by {
                    assert(keys@[j] != k);
                }
                match res {
                    Err(e) => {
                        assert(uninstall_stopped(hook, old(self)@[k], self.models@[k], Err(e)));
                        assert(uninstall_pass(hook, old(self)@, self.models@, Err(e), keys@, i as int));
                        return Err(e);
                    },
                    Ok(()) => {
                        assert(uninstall_ran(hook, old(self)@[k], self.models@[k]));
                    },
                }
            }
            i = i + 1;
        }
        assert forall|k: usize| #[trigger] self.models@.contains_key(k) implies self.models@[k].state
            != PluginState::Enable by {
            assert(keys@.to_set().contains(k));
            let j = choose|j: int| 0 <= j < keys@.len() && keys@[j] == k;
            assert(self.models@[keys@[j]].state != PluginState::Enable);
        }
        assert(uninstall_pass(hook, old(self)@, self.models@, Ok(()), keys@, keys@.len() as int));
        Ok(())
    }

    /// The model under `index`, when it is installed.
    pub fn get_model(&self, index: &usize) -> (r: Option<&M>)
        ensures
            r == (if serves(self@, *index) {
                Some(&self@[*index].handle)
            } else {
                None
            }),
    {
        match self.models.get(index) {
            Some(model) => {
                if model.state == PluginState::Enable {
                    Some(&model.handle)
                } else {
                    None
                }
            },
            None => None,
        }
    }
}

/// `after` is `before` once its uninstall hook ran with the single argument
/// `""`, and reported something other than that it could not be run.
pub open spec fn uninstall_ran<M, F>(hook: F, before: PluginSlot<M>, after: PluginSlot<M>) -> bool where
    F: Fn(&M, &[String]) -> HookOutcome,
 {
    exists|a: &[String], o: HookOutcome|
        a@.len() == 1 && a@[0]@ == Seq::<char>::empty() && #[trigger] hook.ensures((&before.handle, a), o)
            && !(o is Fatal) && after == before.with_state(hook_state(PluginState::Disable, o))
}

/// The uninstall hook of `before`, given the single argument `""`, could not
/// be run: `after` is `before` failed, and `r` is the error reported for it.
pub open spec fn uninstall_stopped<M, F>(
    hook: F,
    before: PluginSlot<M>,
    after: PluginSlot<M>,
    r: Result<(), FrError>,
) -> bool where F: Fn(&M, &[String]) -> HookOutcome,
 {
    exists|a: &[String], o: HookOutcome|
        a@.len() == 1 && a@[0]@ == Seq::<char>::empty() && #[trigger] hook.ensures((&before.handle, a), o)
            && o is Fatal && after == before.with_state(hook_state(PluginState::Disable, o)) && r
            == hook_result(o)
}

/// The models `before` became `after`, with result `r`, by going through
/// their keys in the order `ks` and stopping at position `s`: every
/// installed model before that position was uninstalled by a hook that ran,
/// every other one before it is unchanged; the model at `s`, if any, is an
/// installed one whose hook could not be run, and its error is `r`; the
/// models after it are unchanged. `r` is `Ok` exactly when every key was
/// gone through.
pub open spec fn uninstall_pass<M, F>(
    hook: F,
    before: Map<usize, PluginSlot<M>>,
    after: Map<usize, PluginSlot<M>>,
    r: Result<(), FrError>,
    ks: Seq<usize>,
    s: int,
) -> bool where F: Fn(&M, &[String]) -> HookOutcome,
 {
    &&& ks.no_duplicates()
    &&& ks.to_set() == before.dom()
    &&& after.dom() == before.dom()
    &&& 0 <= s <= ks.len()
    &&& forall|j: int|
        #![trigger ks[j]]
        0 <= j < s ==> (if before[ks[j]].state == PluginState::Enable {
            uninstall_ran(hook, before[ks[j]], after[ks[j]])
        } else {
            after[ks[j]] == before[ks[j]]
        })
    &&& (r is Ok <==> s == ks.len())
    &&& s < ks.len() ==> before[ks[s]].state == PluginState::Enable && uninstall_stopped(
        hook,
        before[ks[s]],
        after[ks[s]],
        r,
    )
    &&& forall|j: int| #![trigger ks[j]] s < j < ks.len() ==> after[ks[j]] == before[ks[j]]
}

} // verus!
