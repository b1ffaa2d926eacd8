//! The registry of AI providers, each under its identifier.

use vstd::prelude::*;
use crate::providers::ProviderId;
use crate::text::{own, str_eq};

verus! {

/// The entries of `table` whose key is not `id`, in order.
pub open spec fn without<P>(table: Seq<(Seq<char>, P)>, id: Seq<char>) -> Seq<(Seq<char>, P)>
    decreases table.len(),
{
    if table.len() == 0 {
        seq![]
    } else {
        let rest = without(table.drop_last(), id);
        if table.last().0 == id {
            rest
        } else {
            rest.push(table.last())
        }
    }
}

/// The value under `id` in `table`, the last one when there are several.
pub open spec fn lookup<P>(table: Seq<(Seq<char>, P)>, id: Seq<char>) -> Option<P>
    decreases table.len(),
{
    if table.len() == 0 {
        None
    } else if table.last().0 == id {
        Some(table.last().1)
    } else {
        lookup(table.drop_last(), id)
    }
}

/// Whether no key occurs twice.
pub open spec fn unique_keys<P>(table: Seq<(Seq<char>, P)>) -> bool {
    forall|i: int, j: int| 0 <= i < j < table.len() ==> #[trigger] table[i].0 != #[trigger] table[j].0
}

/// The registry after `provider` is registered under `id`: any provider
/// registered under that id before is replaced.
pub open spec fn registered<P>(table: Seq<(Seq<char>, P)>, id: Seq<char>, provider: P) -> Seq<
    (Seq<char>, P),
> {
    without(table, id).push((id, provider))
}

/// The known providers, each under its identifier.
pub struct ProviderRegistry<P> {
    providers: Vec<(ProviderId, P)>,
}

impl<P> ProviderRegistry<P> {
    /// The identifiers and providers, in registry order.
    pub closed spec fn table(&self) -> Seq<(Seq<char>, P)> {
        self.providers@.map_values(|e: (ProviderId, P)| (e.0.0@, e.1))
    }

    #[verifier::type_invariant]
    closed spec fn ids_distinct(&self) -> bool {
        unique_keys(self.table())
    }

    /// An empty registry.
    pub fn new() -> (res: Self)
        ensures
            res.table().len() == 0,
    {
        ProviderRegistry { providers: Vec::new() }
    }

    /// Registers `provider` under `id`, replacing any provider registered
    /// under that id before.
    pub fn register(&mut self, id: ProviderId, provider: P)
        ensures
            final(self).table() == registered(old(self).table(), id.0@, provider),
    {
        let ghost key = id.0@;
        proof {
            use_type_invariant(&*self);
        }
        let ghost orig = self.table();
        self.remove_id(&id);
        proof {
            lemma_without_unique(orig, key);
        }
        let ghost before = self.table();
        let ghost removed = self.providers@;
        let mut providers: Vec<(ProviderId, P)> = Vec::new();
        std::mem::swap(&mut providers, &mut self.providers);
        providers.push((id, provider));
        proof {
            let t = providers@.map_values(|e: (ProviderId, P)| (e.0.0@, e.1));
            assert(t =~= before.push((key, provider)));
            assert(unique_keys(t)) by {
                assert forall|i: int, j: int| 0 <= i < j < t.len() implies #[trigger] t[i].0
                    != #[trigger] t[j].0 by {
                    if j == t.len() - 1 {
                        assert(t[i] == before[i]);
                    } else {
                        assert(t[i] == before[i]);
                        assert(t[j] == before[j]);
                    }
                }
            }
        }
        self.providers = providers;
    }

    /// Forgets the provider registered under `id`, if any.
    pub fn unregister(&mut self, id: &ProviderId)
        ensures
            final(self).table() == without(old(self).table(), id.0@),
    {
        self.remove_id(id);
    }

    fn remove_id(&mut self, id: &ProviderId)
        ensures
            final(self).table() == without(old(self).table(), id.0@),
    {
        proof {
            use_type_invariant(&*self);
        }
        let ghost before = self.table();
        let ghost key = id.0@;
        let mut old_list: Vec<(ProviderId, P)> = Vec::new();
        std::mem::swap(&mut old_list, &mut self.providers);
        let ghost all = old_list@;
        let mut kept: Vec<(ProviderId, P)> = Vec::new();
        let n = old_list.len();
        let mut k: usize = 0;
        while old_list.len() > 0
            invariant
                k + old_list@.len() == n,
                n == all.len(),
                key == id.0@,
                before == all.map_values(|e: (ProviderId, P)| (e.0.0@, e.1)),
                old_list@ == all.subrange(k as int, n as int),
                kept@.map_values(|e: (ProviderId, P)| (e.0.0@, e.1)) == without(
                    before.subrange(0, k as int),
                    key,
                ),
            decreases old_list@.len(),
        {
            let e = old_list.remove(0);
            proof {
                assert(e == all[k as int]);
                let prefix = before.subrange(0, k + 1);
                assert(prefix.drop_last() =~= before.subrange(0, k as int));
                assert(prefix.last() == (e.0.0@, e.1));
                assert(old_list@ =~= all.subrange(k + 1, n as int));
            }
            let ghost kept_before = kept@;
            if !str_eq(e.0.0.as_str(), id.0.as_str()) {
                kept.push(e);
                proof {
                    assert(kept@.map_values(|e: (ProviderId, P)| (e.0.0@, e.1)) =~= kept_before.map_values(
                        |e: (ProviderId, P)| (e.0.0@, e.1),
                    ).push((e.0.0@, e.1)));
                }
            }
            k += 1;
        }
        proof {
            assert(before.subrange(0, n as int) =~= before);
            lemma_without_unique(before, key);
        }
        self.providers = kept;
    }

    /// The provider registered under `id`, if any.
    pub fn get(&self, id: &ProviderId) -> (res: Option<&P>)
        ensures
            match res {
                Some(p) => lookup(self.table(), id.0@) == Some(*p),
                None => lookup(self.table(), id.0@) is None,
            },
    {
        proof {
            use_type_invariant(self);
        }
        let mut i: usize = 0;
        while i < self.providers.len()
            invariant
                i <= self.providers@.len(),
                unique_keys(self.table()),
                forall|k: int| 0 <= k < i ==> (#[trigger] self.table()[k]).0 != id.0@,
            decreases self.providers@.len() - i,
        {
            if str_eq(self.providers[i].0.0.as_str(), id.0.as_str()) {
                proof {
                    assert(self.table()[i as int].0 == id.0@);
                    lemma_lookup_at(self.table(), id.0@, i as int);
                }
                return Some(&self.providers[i].1);
            }
            assert(self.table()[i as int].0 != id.0@);
            i += 1;
        }
        proof {
            lemma_lookup_absent(self.table(), id.0@);
        }
        None
    }

    /// The provider the pipeline talks to by default: the one registered
    /// as `ollama` when there is one, else the first registered; none when
    /// the registry is empty.
    pub fn default_provider(&self) -> (res: Option<&P>)
        ensures
            match lookup(self.table(), "ollama"@) {
                Some(p) => res == Some(&p),
                None => if self.table().len() == 0 {
                    res is None
                } else {
                    res == Some(&self.table()[0].1)
                },
            },
    {
        let ollama = ProviderId(own("ollama"));
        match self.get(&ollama) {
            Some(p) => Some(p),
            None => {
                if self.providers.len() == 0 {
                    None
                } else {
                    Some(&self.providers[0].1)
                }
            },
        }
    }

    /// Every registered provider, in registry order.
    pub fn list_providers(&self) -> (res: Vec<&P>)
        ensures
            res@.len() == self.table().len(),
            forall|i: int| 0 <= i < res@.len() ==> *(#[trigger] res@[i]) == self.table()[i].1,
    {
        let mut res: Vec<&P> = Vec::new();
        let mut i: usize = 0;
        while i < self.providers.len()
            invariant
                i <= self.providers@.len(),
                res@.len() == i,
                forall|k: int| 0 <= k < i ==> *(#[trigger] res@[k]) == self.table()[k].1,
            decreases self.providers@.len() - i,
        {
            res.push(&self.providers[i].1);
            i += 1;
        }
        res
    }
}

proof fn lemma_without_drops<P>(table: Seq<(Seq<char>, P)>, id: Seq<char>)
    ensures
        forall|i: int| 0 <= i < without(table, id).len() ==> (#[trigger] without(table, id)[i]).0 != id,
        forall|k: Seq<char>| k != id ==> #[trigger] lookup(without(table, id), k) == lookup(table, k),
        lookup(without(table, id), id) is None,
    decreases table.len(),
{
    if table.len() > 0 {
        lemma_without_drops(table.drop_last(), id);
        let rest = without(table.drop_last(), id);
        if table.last().0 != id {
            assert(rest.push(table.last()).drop_last() =~= rest);
        }
        assert forall|k: Seq<char>| k != id implies #[trigger] lookup(without(table, id), k)
            == lookup(table, k) by {
            assert(lookup(rest, k) == lookup(table.drop_last(), k));
        }
    }
}

proof fn lemma_without_unique<P>(table: Seq<(Seq<char>, P)>, id: Seq<char>)
    requires
        unique_keys(table),
    ensures
        unique_keys(without(table, id)),
        forall|i: int| 0 <= i < without(table, id).len() ==> (#[trigger] without(table, id)[i]).0 != id,
        forall|i: int|
            0 <= i < without(table, id).len() ==> exists|j: int|
                0 <= j < table.len() && #[trigger] without(table, id)[i] == table[j],
    decreases table.len(),
{
    lemma_without_drops(table, id);
    if table.len() > 0 {
        let rest = table.drop_last();
        assert(unique_keys(rest)) by {
            assert forall|i: int, j: int| 0 <= i < j < rest.len() implies #[trigger] rest[i].0
                != #[trigger] rest[j].0 by {
                assert(rest[i] == table[i]);
                assert(rest[j] == table[j]);
            }
        }
        lemma_without_unique(rest, id);
        let r = without(rest, id);
        assert forall|i: int| 0 <= i < r.len() implies exists|j: int|
            0 <= j < table.len() && #[trigger] r[i] == table[j] by {
            let j = choose|j: int| 0 <= j < rest.len() && r[i] == rest[j];
            assert(table[j] == rest[j]);
        }
        if table.last().0 != id {
            let out = r.push(table.last());
            assert(table[table.len() - 1] == table.last());
            assert forall|i: int| 0 <= i < out.len() implies exists|j: int|
                0 <= j < table.len() && #[trigger] out[i] == table[j] by {
                if i == out.len() - 1 {
                    assert(out[i] == table[table.len() - 1]);
                } else {
                    assert(out[i] == r[i]);
                }
            }
            assert forall|i: int, j: int| 0 <= i < j < out.len() implies #[trigger] out[i].0
                != #[trigger] out[j].0 by {
                if j == out.len() - 1 {
                    assert(out[i] == r[i]);
                    let k = choose|k: int| 0 <= k < rest.len() && r[i] == rest[k];
                    assert(table[k] == rest[k]);
                } else {
                    assert(out[i] == r[i]);
                    assert(out[j] == r[j]);
                }
            }
        }
    }
}

proof fn lemma_lookup_at<P>(table: Seq<(Seq<char>, P)>, id: Seq<char>, i: int)
    requires
        unique_keys(table),
        0 <= i < table.len(),
        table[i].0 == id,
    ensures
        lookup(table, id) == Some(table[i].1),
    decreases table.len(),
{
    let last = table.len() - 1;
    assert(table[last] == table.last());
    if i != last {
        let rest = table.drop_last();
        assert(rest[i] == table[i]);
        assert(unique_keys(rest)) by {
            assert forall|a: int, b: int| 0 <= a < b < rest.len() implies #[trigger] rest[a].0
                != #[trigger] rest[b].0 by {
                assert(rest[a] == table[a]);
                assert(rest[b] == table[b]);
            }
        }
        lemma_lookup_at(rest, id, i);
    }
}

proof fn lemma_lookup_absent<P>(table: Seq<(Seq<char>, P)>, id: Seq<char>)
    requires
        forall|k: int| 0 <= k < table.len() ==> (#[trigger] table[k]).0 != id,
    ensures
        lookup(table, id) is None,
    decreases table.len(),
{
    if table.len() > 0 {
        assert(table[table.len() - 1] == table.last());
        let rest = table.drop_last();
        assert forall|k: int| 0 <= k < rest.len() implies (#[trigger] rest[k]).0 != id by {
            assert(rest[k] == table[k]);
        }
        lemma_lookup_absent(rest, id);
    }
}

/// A provider is found under the id it was registered with, and
/// registering it changes what is found under no other id.
pub proof fn law_register_then_get<P>(table: Seq<(Seq<char>, P)>, id: Seq<char>, provider: P)
    ensures
        lookup(registered(table, id, provider), id) == Some(provider),
        forall|k: Seq<char>|
            k != id ==> #[trigger] lookup(registered(table, id, provider), k) == lookup(table, k),
{
    lemma_without_drops(table, id);
    assert(registered(table, id, provider).drop_last() =~= without(table, id));
    assert forall|k: Seq<char>| k != id implies #[trigger] lookup(registered(table, id, provider), k)
        == lookup(table, k) by {
        assert(lookup(without(table, id), k) == lookup(table, k));
    }
}

/// After a provider is unregistered nothing is found under its id, and what
/// is found under every other id is unchanged.
pub proof fn law_unregister_then_get<P>(table: Seq<(Seq<char>, P)>, id: Seq<char>)
    ensures
        lookup(without(table, id), id) is None,
        forall|k: Seq<char>| k != id ==> #[trigger] lookup(without(table, id), k) == lookup(table, k),
{
    lemma_without_drops(table, id);
}

/// Registering under an id that is already taken keeps one entry per id.
pub proof fn law_register_keeps_ids_unique<P>(table: Seq<(Seq<char>, P)>, id: Seq<char>, provider: P)
    requires
        unique_keys(table),
    ensures
        unique_keys(registered(table, id, provider)),
{
    lemma_without_unique(table, id);
    let r = without(table, id);
    let out = registered(table, id, provider);
    assert forall|i: int, j: int| 0 <= i < j < out.len() implies #[trigger] out[i].0
        != #[trigger] out[j].0 by {
        assert(out[i] == r[i]);
        if j < out.len() - 1 {
            assert(out[j] == r[j]);
        }
    }
}

} // verus!
