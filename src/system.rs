use vstd::prelude::*;

verus! {

/// A handle to a registered module; the modules themselves live with the
/// code that drives the dispatcher, indexed by this handle.
#[derive(Debug, Clone, Copy, PartialEq, Eq, Structural)]
pub struct ModuleId {
    pub index: usize,
}

/// The routing table: from event kind to the module registered for it.
/// A later registration of a kind replaces an earlier one.
pub struct ModuleServiceMap {
    routes: Vec<(String, ModuleId)>,
}

/// The module that the first `n` routes give to `kind`: the last of them
/// registered under that kind.
pub open spec fn route_in(routes: Seq<(String, ModuleId)>, n: nat, kind: Seq<char>) -> Option<ModuleId>
    decreases n,
{
    if n == 0 || n > routes.len() {
        None
    } else if routes[n - 1].0@ == kind {
        Some(routes[n - 1].1)
    } else {
        route_in(routes, (n - 1) as nat, kind)
    }
}

impl ModuleServiceMap {
    /// The table as a map from event kind to module.
    pub closed spec fn view(&self) -> Map<Seq<char>, ModuleId> {
        Map::new(
            |k: Seq<char>| route_in(self.routes@, self.routes@.len(), k) is Some,
            |k: Seq<char>| route_in(self.routes@, self.routes@.len(), k)->0,
        )
    }

    pub fn new() -> (r: ModuleServiceMap)
        ensures
            r@ == Map::<Seq<char>, ModuleId>::empty(),
    {
        let r = ModuleServiceMap { routes: Vec::new() };
        assert(r@ =~= Map::<Seq<char>, ModuleId>::empty());
        r
    }

    /// Registers `module` for `event`, replacing any module registered before.
    pub fn insert(&mut self, event: String, module: ModuleId)
        ensures
            final(self)@ == old(self)@.insert(event@, module),
    {
        let ghost k = event@;
        self.routes.push((event, module));
        assert(final(self)@ =~= old(self)@.insert(k, module)) by {
            assert forall|q: Seq<char>| #[trigger] route_in(self.routes@, self.routes@.len(), q)
                == if q == k { Some(module) } else { route_in(old(self).routes@, old(self).routes@.len(), q) } by {
                lemma_route_prefix(self.routes@, old(self).routes@, old(self).routes@.len(), q);
            }
        }
    }

    /// The module registered for `event`, if any.
    pub fn get(&self, event: &String) -> (r: Option<ModuleId>)
        ensures
            r == (if self@.contains_key(event@) { Some(self@[event@]) } else { None::<ModuleId> }),
    {
        let mut i: usize = self.routes.len();
        while i > 0
            invariant
                i <= self.routes@.len(),
                route_in(self.routes@, self.routes@.len(), event@) == route_in(self.routes@, i as nat, event@),
            decreases i,
        {
            if self.routes[i - 1].0 == *event {
                return Some(self.routes[i - 1].1);
            }
            i = i - 1;
        }
        None
    }
}

/// Routes that agree on a prefix agree on what the prefix gives.
proof fn lemma_route_prefix(longer: Seq<(String, ModuleId)>, shorter: Seq<(String, ModuleId)>, n: nat, kind: Seq<char>)
    requires
        n <= shorter.len(),
        shorter.len() <= longer.len(),
        forall|i: int| 0 <= i < shorter.len() ==> longer[i] == shorter[i],
    ensures
        route_in(longer, n, kind) == route_in(shorter, n, kind),
    decreases n,
{
    if n > 0 {
        lemma_route_prefix(longer, shorter, (n - 1) as nat, kind);
    }
}

} // verus!
