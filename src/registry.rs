use vstd::prelude::*;
use std::collections::HashMap;

verus! {

broadcast use vstd::std_specs::hash::group_hash_axioms;

/// A named bundle of event keys, each of which the plugin handles.
pub struct AFPlugin {
    pub name: String,
    pub events: Vec<u64>,
}

/// The event keys of each plugin, in registration order.
pub open spec fn plugin_keys(plugins: Seq<AFPlugin>) -> Seq<Seq<u64>> {
    plugins.map_values(|p: AFPlugin| p.events@)
}

/// The plugin that owns key `k`: the last one in registration order that
/// lists it, so a later registration of a key replaces an earlier one.
pub open spec fn owner_of(keys: Seq<Seq<u64>>, k: u64) -> Option<nat>
    decreases keys.len(),
{
    if keys.len() == 0 {
        None
    } else if keys.last().contains(k) {
        Some((keys.len() - 1) as nat)
    } else {
        owner_of(keys.drop_last(), k)
    }
}

/// The owner of `k` is a plugin that lists `k`, and no later plugin lists it.
pub proof fn lemma_owner_of_lists_key(keys: Seq<Seq<u64>>, k: u64)
    ensures
        owner_of(keys, k) matches Some(i) ==> i < keys.len() && keys[i as int].contains(k)
            && forall|j: int| i < j < keys.len() ==> !#[trigger] keys[j].contains(k),
        owner_of(keys, k) is None <==> forall|j: int| 0 <= j < keys.len() ==> !#[trigger] keys[j].contains(k),
    decreases keys.len(),
{
    if keys.len() > 0 {
        lemma_owner_of_lists_key(keys.drop_last(), k);
        assert forall|j: int| 0 <= j < keys.len() - 1 implies keys.drop_last()[j] == keys[j] by {}
    }
}

/// The registry: every plugin's keys flattened into one map from event key
/// to the index of the plugin that owns it. Read-only once built.
pub struct AFPluginRegistry {
    plugins: Vec<AFPlugin>,
    index: HashMap<u64, usize>,
}

impl AFPluginRegistry {
    pub closed spec fn spec_plugins(&self) -> Seq<AFPlugin> {
        self.plugins@
    }

    pub open spec fn keys(&self) -> Seq<Seq<u64>> {
        plugin_keys(self.spec_plugins())
    }

    /// The plugin index that a lookup of `k` gives.
    pub open spec fn spec_lookup(&self, k: u64) -> Option<nat> {
        owner_of(self.keys(), k)
    }

    pub closed spec fn wf(&self) -> bool {
        &&& forall|k: u64| #[trigger] self.index@.contains_key(k) == owner_of(self.keys(), k) is Some
        &&& forall|k: u64| #[trigger] self.index@.contains_key(k)
            ==> self.index@[k] as nat == owner_of(self.keys(), k).unwrap()
    }

    /// Builds the registry from the plugins in registration order. Where two
    /// plugins list one key, the later one owns it.
    pub fn new(plugins: Vec<AFPlugin>) -> (r: AFPluginRegistry)
        ensures
            r.wf(),
            r.spec_plugins() == plugins@,
    {
        let ghost keys = plugin_keys(plugins@);
        let mut index: HashMap<u64, usize> = HashMap::new();
        let mut i: usize = 0;
        while i < plugins.len()
            invariant
                i <= plugins@.len(),
                keys == plugin_keys(plugins@),
                forall|k: u64| #[trigger] index@.contains_key(k) == owner_of(keys.take(i as int), k) is Some,
                forall|k: u64| #[trigger] index@.contains_key(k)
                    ==> index@[k] as nat == owner_of(keys.take(i as int), k).unwrap(),
            decreases plugins@.len() - i,
        {
            let events = &plugins[i].events;
            let ghost before = keys.take(i as int);
            let mut j: usize = 0;
            while j < events.len()
                invariant
                    i < plugins@.len(),
                    keys == plugin_keys(plugins@),
                    j <= events@.len(),
                    events@ == keys[i as int],
                    before == keys.take(i as int),
                    forall|k: u64| #[trigger] index@.contains_key(k)
                        == (owner_of(before, k) is Some || events@.take(j as int).contains(k)),
                    forall|k: u64| #[trigger] index@.contains_key(k) ==> index@[k] as nat == if events@.take(
                        j as int,
                    ).contains(k) {
                        i as nat
                    } else {
                        owner_of(before, k).unwrap()
                    },
                decreases events@.len() - j,
            {
                let k = events[j];
                let ghost prev = index@;
                index.insert(k, i);
                proof {
                    assert(index@ == prev.insert(k, i));
                    let now = events@.take(j + 1);
                    assert(now =~= events@.take(j as int).push(k));
                    assert forall|x: u64| now.contains(x) == (events@.take(j as int).contains(x) || x == k) by {
                        if x == k {
                            assert(now[j as int] == k);
                        }
                        if events@.take(j as int).contains(x) {
                            let t = choose|t: int| 0 <= t < j && events@.take(j as int)[t] == x;
                            assert(now[t] == x);
                        }
                    }
                }
                j = j + 1;
            }
            proof {
                let next = keys.take(i + 1);
                assert(next.drop_last() =~= before);
                assert(next.last() == events@);
                assert(events@.take(j as int) =~= events@);
            }
            i = i + 1;
        }
        proof {
            assert(keys.take(i as int) =~= keys);
        }
        AFPluginRegistry { plugins, index }
    }

    /// The index of the plugin that owns `k`, if any plugin lists it.
    pub fn lookup(&self, k: u64) -> (r: Option<usize>)
        requires
            self.wf(),
        ensures
            r matches Some(i) ==> self.spec_lookup(k) == Some(i as nat),
            r is None <==> self.spec_lookup(k) is None,
    {
        match self.index.get(&k) {
            Some(i) => Some(*i),
            None => None,
        }
    }

    pub fn len(&self) -> (r: usize)
        ensures
            r == self.spec_plugins().len(),
    {
        self.plugins.len()
    }

    /// The plugin registered at position `i`.
    pub fn plugin(&self, i: usize) -> (r: &AFPlugin)
        requires
            i < self.spec_plugins().len(),
        ensures
            *r == self.spec_plugins()[i as int],
    {
        &self.plugins[i]
    }
}

} // verus!
