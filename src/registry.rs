//! The directory of named adapters, with an optional default, that routes
//! orders and quote requests.

use vstd::prelude::*;
use vstd::string::StringExecFns;
use crate::model::{ExecutionResult, MarketData, Order, PluginError};
use crate::plugin::ExecutionPlugin;
use crate::text::str_eq;

verus! {

/// Position of the last occurrence of `k` in `names`, or -1.
pub open spec fn find_name(names: Seq<Seq<char>>, k: Seq<char>) -> int
    decreases names.len(),
{
    if names.len() == 0 {
        -1
    } else if names.last() == k {
        names.len() - 1
    } else {
        find_name(names.drop_last(), k)
    }
}

/// No name occurs twice.
pub open spec fn names_distinct(names: Seq<Seq<char>>) -> bool {
    forall|i: int, j: int| 0 <= i < j < names.len() ==> names[i] != names[j]
}

/// What `find_name` returns: a matching position, or -1 where none matches.
pub proof fn lemma_find_name(names: Seq<Seq<char>>, k: Seq<char>)
    ensures
        -1 <= find_name(names, k) < names.len(),
        find_name(names, k) >= 0 ==> names[find_name(names, k)] == k,
        find_name(names, k) == -1 ==> forall|i: int| 0 <= i < names.len() ==> names[i] != k,
    decreases names.len(),
{
    if names.len() > 0 {
        lemma_find_name(names.drop_last(), k);
        assert(forall|i: int| 0 <= i < names.len() - 1 ==> names.drop_last()[i] == names[i]);
    }
}

/// With distinct names, the matching position is the only one.
pub proof fn lemma_find_name_unique(names: Seq<Seq<char>>, k: Seq<char>, i: int)
    requires
        names_distinct(names),
        0 <= i < names.len(),
        names[i] == k,
    ensures
        find_name(names, k) == i,
    decreases names.len(),
{
    if i < names.len() - 1 {
        assert(names.drop_last()[i] == k);
        lemma_find_name_unique(names.drop_last(), k, i);
    }
}

/// The default after registering `name`: it is kept when one is set, and
/// `name` becomes the default otherwise.
pub open spec fn register_default(current: Option<Seq<char>>, name: Seq<char>) -> Option<Seq<char>> {
    if current is None {
        Some(name)
    } else {
        current
    }
}

/// The default after registering `names` one after another.
pub open spec fn default_after(current: Option<Seq<char>>, names: Seq<Seq<char>>) -> Option<Seq<char>>
    decreases names.len(),
{
    if names.len() == 0 {
        current
    } else {
        register_default(default_after(current, names.drop_last()), names.last())
    }
}

/// The adapters after registering `entries` one after another.
pub open spec fn plugins_after<P>(start: Map<Seq<char>, P>, entries: Seq<(Seq<char>, P)>) -> Map<Seq<char>, P>
    decreases entries.len(),
{
    if entries.len() == 0 {
        start
    } else {
        plugins_after(start, entries.drop_last()).insert(entries.last().0, entries.last().1)
    }
}

/// The first name registered becomes the default, and once a default is
/// set, later registrations leave it as it is.
pub proof fn law_default_is_first_registration(current: Option<Seq<char>>, names: Seq<Seq<char>>)
    ensures
        current is Some ==> default_after(current, names) == current,
        current is None && names.len() > 0 ==> default_after(current, names) == Some(names[0]),
    decreases names.len(),
{
    if names.len() > 0 {
        law_default_is_first_registration(current, names.drop_last());
        if current is None && names.len() > 1 {
            assert(names.drop_last()[0] == names[0]);
        }
    }
}

/// The names of a run of registrations.
pub open spec fn entry_names<P>(entries: Seq<(Seq<char>, P)>) -> Seq<Seq<char>> {
    entries.map_values(|e: (Seq<char>, P)| e.0)
}

/// After a run of registrations, a name maps to the adapter registered
/// under it last (`find_name` gives the last position of a name); a name
/// never registered maps to nothing.
pub proof fn law_get_returns_last_registered<P>(entries: Seq<(Seq<char>, P)>, k: Seq<char>)
    ensures
        plugins_after(Map::<Seq<char>, P>::empty(), entries).contains_key(k)
            <==> find_name(entry_names(entries), k) >= 0,
        find_name(entry_names(entries), k) >= 0 ==> plugins_after(Map::<Seq<char>, P>::empty(), entries)[k]
            == entries[find_name(entry_names(entries), k)].1,
    decreases entries.len(),
{
    if entries.len() > 0 {
        law_get_returns_last_registered(entries.drop_last(), k);
        assert(entry_names(entries).drop_last() =~= entry_names(entries.drop_last()));
        lemma_find_name(entry_names(entries.drop_last()), k);
    }
}

/// Adapters under unique names, with an optional default name.
pub struct PluginRegistry<P> {
    names: Vec<String>,
    plugins: Vec<P>,
    default_plugin: Option<String>,
}

impl<P> PluginRegistry<P> {
    /// The registered names, in registration order.
    pub closed spec fn names_view(&self) -> Seq<Seq<char>> {
        self.names@.map_values(|s: String| s@)
    }

    /// Name to adapter.
    pub closed spec fn plugin_map(&self) -> Map<Seq<char>, P> {
        Map::new(
            |k: Seq<char>| find_name(self.names_view(), k) >= 0,
            |k: Seq<char>| self.plugins@[find_name(self.names_view(), k)],
        )
    }

    /// The default name, if one is set.
    pub closed spec fn default_name(&self) -> Option<Seq<char>> {
        match self.default_plugin {
            Some(d) => Some(d@),
            None => None,
        }
    }

    /// Names are unique, each has its adapter, and the default is registered.
    pub closed spec fn wf(&self) -> bool {
        &&& self.names@.len() == self.plugins@.len()
        &&& names_distinct(self.names_view())
        &&& (self.default_plugin is Some ==> find_name(self.names_view(), self.default_name()->Some_0) >= 0)
    }

    /// An empty registry with no default.
    pub fn new() -> (r: Self)
        ensures
            r.wf(),
            r.plugin_map() == Map::<Seq<char>, P>::empty(),
            r.default_name() is None,
    {
        let r = PluginRegistry { names: Vec::new(), plugins: Vec::new(), default_plugin: None };
        assert(r.plugin_map() =~= Map::<Seq<char>, P>::empty());
        r
    }

    /// Position of `name` among the registered names.
    fn position(&self, name: &str) -> (r: Option<usize>)
        requires
            self.wf(),
        ensures
            match r {
                Some(i) => i == find_name(self.names_view(), name@) && i < self.names@.len(),
                None => find_name(self.names_view(), name@) == -1,
            },
    {
        let mut i: usize = 0;
        while i < self.names.len()
            invariant
                self.wf(),
                i <= self.names@.len(),
                forall|k: int| 0 <= k < i ==> self.names_view()[k] != name@,
            decreases self.names@.len() - i,
        {
            if str_eq(self.names[i].as_str(), name) {
                proof {
                    lemma_find_name_unique(self.names_view(), name@, i as int);
                }
                return Some(i);
            }
            i = i + 1;
        }
        proof {
            lemma_find_name(self.names_view(), name@);
            if find_name(self.names_view(), name@) >= 0 {
                assert(self.names_view()[find_name(self.names_view(), name@)] == name@);
            }
        }
        None
    }

    /// Registers `plugin` under `name`, replacing any adapter of that name.
    /// When no default is set, `name` becomes the default.
    pub fn register(&mut self, name: String, plugin: P)
        requires
            old(self).wf(),
        ensures
            final(self).wf(),
            final(self).plugin_map() == old(self).plugin_map().insert(name@, plugin),
            final(self).default_name() == register_default(old(self).default_name(), name@),
    {
        let ghost old_names = self.names_view();
        match self.position(name.as_str()) {
            Some(i) => {
                self.plugins.set(i, plugin);
                assert(self.names_view() == old_names);
                assert forall|k: Seq<char>| #![auto] find_name(old_names, k) >= 0 && k != name@
                    implies find_name(old_names, k) != i as int by {
                    lemma_find_name(old_names, k);
                    lemma_find_name(old_names, name@);
                }
                assert(old(self).names_view() == old_names);
                assert(self.plugins@ == old(self).plugins@.update(i as int, plugin));
                proof {
                    lemma_find_name(old_names, name@);
                }
                let ghost m_new = self.plugin_map();
                let ghost m_want = old(self).plugin_map().insert(name@, plugin);
                assert forall|k: Seq<char>| #![auto] m_new.contains_key(k) == m_want.contains_key(k) by {}
                assert forall|k: Seq<char>| #![auto] m_new.contains_key(k) implies m_new[k] == m_want[k] by {
                    lemma_find_name(old_names, k);
                    if k != name@ {
                        assert(find_name(old_names, k) != i as int);
                    }
                }
                assert(m_new =~= m_want);
            },
            None => {
                let copy = name.clone();
                self.names.push(copy);
                self.plugins.push(plugin);
                assert(self.names_view() =~= old_names.push(name@));
                assert(self.names_view().drop_last() =~= old_names);
                assert forall|k: Seq<char>| #[trigger] find_name(self.names_view(), k)
                    == (if k == name@ { old_names.len() as int } else { find_name(old_names, k) }) by {}
                proof {
                    lemma_find_name(old_names, name@);
                    assert forall|k: Seq<char>| #![auto] find_name(old_names, k) >= 0
                        ==> self.plugins@[find_name(old_names, k)] == old(self).plugins@[find_name(old_names, k)] by {
                        lemma_find_name(old_names, k);
                    }
                }
                assert(self.plugin_map() =~= old(self).plugin_map().insert(name@, plugin));
                assert(names_distinct(self.names_view()));
                if self.default_plugin.is_some() {
                    proof {
                        lemma_find_name(old_names, old(self).default_name()->Some_0);
                    }
                }
            },
        }
        if self.default_plugin.is_none() {
            self.default_plugin = Some(name);
            proof {
                lemma_find_name(self.names_view(), name@);
                if find_name(self.names_view(), name@) == -1 {
                    lemma_find_name(old_names, name@);
                }
            }
        }
    }

    /// Makes `name` the default; fails with `RegistryNotFound` when no
    /// adapter is registered under it.
    pub fn set_default(&mut self, name: String) -> (r: Result<(), PluginError>)
        requires
            old(self).wf(),
        ensures
            final(self).wf(),
            final(self).plugin_map() == old(self).plugin_map(),
            old(self).plugin_map().contains_key(name@) ==> r is Ok && final(self).default_name() == Some(name@),
            !old(self).plugin_map().contains_key(name@) ==> final(self).default_name() == old(self).default_name()
                && r is Err && r->Err_0 is RegistryNotFound && r->Err_0->RegistryNotFound_0@ == name@,
    {
        match self.position(name.as_str()) {
            Some(_) => {
                self.default_plugin = Some(name);
                Ok(())
            },
            None => Err(PluginError::RegistryNotFound(name)),
        }
    }

    /// The adapter registered under `name`.
    pub fn get(&self, name: &str) -> (r: Option<&P>)
        requires
            self.wf(),
        ensures
            match r {
                Some(p) => self.plugin_map().contains_key(name@) && *p == self.plugin_map()[name@],
                None => !self.plugin_map().contains_key(name@),
            },
    {
        match self.position(name) {
            Some(i) => Some(&self.plugins[i]),
            None => None,
        }
    }

    /// The adapter registered under the default name, if a default is set.
    pub fn get_default(&self) -> (r: Option<&P>)
        requires
            self.wf(),
        ensures
            match self.default_name() {
                Some(d) => r is Some && self.plugin_map().contains_key(d) && *r->Some_0 == self.plugin_map()[d],
                None => r is None,
            },
    {
        match &self.default_plugin {
            Some(d) => self.get(d.as_str()),
            None => None,
        }
    }

    /// The adapter that a call goes to: the named one, else the default.
    pub fn resolve(&self, plugin_name: Option<&str>) -> (r: Result<&P, PluginError>)
        requires
            self.wf(),
        ensures
            match plugin_name {
                Some(n) => if self.plugin_map().contains_key(n@) {
                    r is Ok && *r->Ok_0 == self.plugin_map()[n@]
                } else {
                    r is Err && r->Err_0 is RegistryNotFound && r->Err_0->RegistryNotFound_0@ == n@
                },
                None => match self.default_name() {
                    Some(d) => r is Ok && self.plugin_map().contains_key(d) && *r->Ok_0 == self.plugin_map()[d],
                    None => r is Err && r->Err_0 is RegistryNoDefault,
                },
            },
    {
        match plugin_name {
            Some(n) => match self.get(n) {
                Some(p) => Ok(p),
                None => Err(PluginError::RegistryNotFound(String::from_str(n))),
            },
            None => match self.get_default() {
                Some(p) => Ok(p),
                None => Err(PluginError::RegistryNoDefault),
            },
        }
    }

    /// The registered names, each once, in registration order.
    pub fn list_plugins(&self) -> (r: Vec<String>)
        requires
            self.wf(),
        ensures
            r@.map_values(|s: String| s@) == self.names_view(),
            names_distinct(self.names_view()),
            forall|k: Seq<char>| self.plugin_map().contains_key(k) <==> self.names_view().contains(k),
    {
        let mut out: Vec<String> = Vec::new();
        let mut i: usize = 0;
        while i < self.names.len()
            invariant
                i <= self.names@.len(),
                out@.len() == i,
                forall|j: int| 0 <= j < i ==> (#[trigger] out@[j])@ == self.names_view()[j],
            decreases self.names@.len() - i,
        {
            out.push(self.names[i].clone());
            i = i + 1;
        }
        assert(out@.map_values(|s: String| s@) =~= self.names_view());
        assert forall|k: Seq<char>| self.plugin_map().contains_key(k) <==> self.names_view().contains(k) by {
            lemma_find_name(self.names_view(), k);
            if self.names_view().contains(k) {
                let j = choose|j: int| 0 <= j < self.names_view().len() && self.names_view()[j] == k;
                lemma_find_name_unique(self.names_view(), k, j);
            }
        }
        out
    }
}

impl<P> Default for PluginRegistry<P> {
    /// An empty registry with no default.
    fn default() -> (r: Self)
        ensures
            r.wf(),
            r.plugin_map() == Map::<Seq<char>, P>::empty(),
            r.default_name() is None,
    {
        PluginRegistry::new()
    }
}

impl<P: ExecutionPlugin> PluginRegistry<P> {
    /// What routing `order` to `name` (or, with no name, to the default)
    /// yields: the chosen adapter's own result, or the routing error.
    pub open spec fn spec_routed(&self, order: Order, name: Option<Seq<char>>, r: Result<ExecutionResult, PluginError>) -> bool {
        match name {
            Some(n) => if self.plugin_map().contains_key(n) {
                self.plugin_map()[n].execute_post(order, r)
            } else {
                r is Err && r->Err_0 is RegistryNotFound && r->Err_0->RegistryNotFound_0@ == n
            },
            None => match self.default_name() {
                Some(d) => self.plugin_map().contains_key(d) && self.plugin_map()[d].execute_post(order, r),
                None => r is Err && r->Err_0 is RegistryNoDefault,
            },
        }
    }
    /// A call that names an adapter goes to that adapter whatever the
    /// default is: two registries with the same adapters route it alike.
    pub proof fn law_named_route_ignores_default(
        &self,
        other: &Self,
        order: Order,
        name: Seq<char>,
        r: Result<ExecutionResult, PluginError>,
    )
        requires
            self.plugin_map() == other.plugin_map(),
        ensures
            self.spec_routed(order, Some(name), r) == other.spec_routed(order, Some(name), r),
    {
    }

    /// A call without a name goes to the adapter under the default name.
    pub proof fn law_unnamed_route_uses_default(&self, order: Order, r: Result<ExecutionResult, PluginError>)
        requires
            self.wf(),
            self.default_name() is Some,
        ensures
            self.spec_routed(order, None, r) == self.spec_routed(order, self.default_name(), r),
    {
        let d = self.default_name()->Some_0;
        lemma_find_name(self.names_view(), d);
    }

    /// Sends `order` to the named adapter, or to the default when no name is
    /// given, and returns the adapter's answer unchanged.
    pub fn execute_order(&self, order: Order, plugin_name: Option<&str>) -> (r: Result<ExecutionResult, PluginError>)
        requires
            self.wf(),
        ensures
            self.spec_routed(order, match plugin_name { Some(n) => Some(n@), None => None }, r),
    {
        match self.resolve(plugin_name) {
            Ok(p) => p.execute_order(order),
            Err(e) => Err(e),
        }
    }

    /// Quotes `symbol` at the named adapter, or at the default when no name
    /// is given, and returns the adapter's answer unchanged.
    pub fn fetch_data(&self, symbol: &str, plugin_name: Option<&str>) -> (r: Result<MarketData, PluginError>)
        requires
            self.wf(),
        ensures
            match plugin_name {
                Some(n) => if self.plugin_map().contains_key(n@) {
                    self.plugin_map()[n@].fetch_post(symbol@, r)
                } else {
                    r is Err && r->Err_0 is RegistryNotFound && r->Err_0->RegistryNotFound_0@ == n@
                },
                None => match self.default_name() {
                    Some(d) => self.plugin_map().contains_key(d) && self.plugin_map()[d].fetch_post(symbol@, r),
                    None => r is Err && r->Err_0 is RegistryNoDefault,
                },
            },
    {
        match self.resolve(plugin_name) {
            Ok(p) => p.fetch_data(symbol),
            Err(e) => Err(e),
        }
    }

    /// Asks every registered adapter whether it is healthy; one pair per
    /// registered name, in registration order.
    pub fn health_check_all(&self) -> (r: Vec<(String, bool)>)
        requires
            self.wf(),
        ensures
            r@.len() == self.names_view().len(),
            forall|i: int| 0 <= i < r@.len() ==> (#[trigger] r@[i]).0@ == self.names_view()[i]
                && self.plugin_map()[self.names_view()[i]].health_post(r@[i].1),
            names_distinct(self.names_view()),
            forall|k: Seq<char>| self.plugin_map().contains_key(k) <==> self.names_view().contains(k),
    {
        let mut out: Vec<(String, bool)> = Vec::new();
        let mut i: usize = 0;
        while i < self.names.len()
            invariant
                self.wf(),
                i <= self.names@.len(),
                out@.len() == i,
                forall|j: int| 0 <= j < i ==> (#[trigger] out@[j]).0@ == self.names_view()[j]
                    && self.plugins@[j].health_post(out@[j].1),
            decreases self.names@.len() - i,
        {
            let healthy = self.plugins[i].health_check();
            out.push((self.names[i].clone(), healthy));
            i = i + 1;
        }
        assert forall|j: int| 0 <= j < out@.len() implies (#[trigger] out@[j]).0@ == self.names_view()[j]
            && self.plugin_map()[self.names_view()[j]].health_post(out@[j].1) by {
            lemma_find_name_unique(self.names_view(), self.names_view()[j], j);
        }
        assert forall|k: Seq<char>| self.plugin_map().contains_key(k) <==> self.names_view().contains(k) by {
            lemma_find_name(self.names_view(), k);
            if self.names_view().contains(k) {
                let j = choose|j: int| 0 <= j < self.names_view().len() && self.names_view()[j] == k;
                lemma_find_name_unique(self.names_view(), k, j);
            }
        }
        out
    }
}

} // verus!
