//! The client system: the adapters it has and the engine for the one in use.

use crate::adapter::{Adapter, AdapterErrors, AdapterErrorsView};
use crate::device::clone_strings;
use crate::text::{
    lemma_text_le_antisymmetric, lemma_text_le_reflexive, lemma_text_le_total,
    lemma_text_le_transitive, string_le, text_le,
};
use crate::utils::texts;
use vstd::prelude::*;
use vstd::seq_lib::{to_multiset_contains, to_multiset_insert};

verus! {

/// Whether names are in ascending order.
pub open spec fn names_sorted(names: Seq<Seq<char>>) -> bool {
    forall|i: int, j: int|
        0 <= i < j < names.len() ==> text_le(#[trigger] names[i], #[trigger] names[j])
}

/// Whether `name` is the adapter to use by default among `names`: the
/// adapter `hci0` if there is one, and else the adapter whose name comes
/// first.
pub open spec fn is_default_adapter(names: Seq<Seq<char>>, name: Seq<char>) -> bool {
    &&& names.contains(name)
    &&& if names.contains("hci0"@) {
        name == "hci0"@
    } else {
        forall|i: int| 0 <= i < names.len() ==> text_le(name, #[trigger] names[i])
    }
}

/// Puts `name` into a list of names that is in order, behind every name
/// that comes no later, and tells where it went.
fn insert_name(names: &mut Vec<String>, name: String) -> (position: usize)
    requires
        names_sorted(texts(old(names)@)),
    ensures
        position <= old(names).len(),
        final(names)@ == old(names)@.insert(position as int, name),
        names_sorted(texts(final(names)@)),
{
    let mut position: usize = 0;
    while position < names.len() && string_le(names[position].as_str(), name.as_str())
        invariant
            position <= names.len(),
            names@ == old(names)@,
            forall|i: int| 0 <= i < position ==> text_le((#[trigger] names@[i])@, name@),
        decreases names.len() - position,
    {
        position += 1;
    }
    names.insert(position, name);
    proof {
        let before = texts(old(names)@);
        let after = texts(names@);
        assert forall|i: int, j: int| 0 <= i < j < after.len() implies text_le(
            #[trigger] after[i],
            #[trigger] after[j],
        ) by {
            if j < position {
                assert(after[i] == before[i] && after[j] == before[j]);
            } else if j == position {
                assert(after[i] == before[i]);
            } else if i == position {
                assert(after[j] == before[j - 1]);
                lemma_text_le_total(before[position as int], name@);
                if j - 1 > position {
                    assert(text_le(before[position as int], before[j - 1]));
                    lemma_text_le_transitive(name@, before[position as int], before[j - 1]);
                }
            } else if i < position {
                assert(after[i] == before[i] && after[j] == before[j - 1]);
            } else {
                assert(after[i] == before[i - 1] && after[j] == before[j - 1]);
            }
        }
    }
    position
}

/// Puts names in ascending order.
pub fn sort_names(names: Vec<String>) -> (sorted: Vec<String>)
    ensures
        names_sorted(texts(sorted@)),
        texts(sorted@).to_multiset() == texts(names@).to_multiset(),
{
    let mut sorted: Vec<String> = Vec::new();
    let ghost all = names@;
    assert(texts(sorted@) =~= texts(all.take(0)));
    for name in it: names
        invariant
            it.seq() == all,
            names_sorted(texts(sorted@)),
            texts(sorted@).to_multiset() == texts(all.take(it.index() as int)).to_multiset(),
    {
        let ghost before = sorted@;
        let ghost text = name@;
        let position = insert_name(&mut sorted, name);
        proof {
            broadcast use to_multiset_insert;

            assert(texts(sorted@) =~= texts(before).insert(position as int, text));
            let taken = texts(all.take(it.index() as int));
            assert(texts(all.take(it.index() + 1)) =~= taken.insert(taken.len() as int, text));
        }
    }
    assert(all.take(all.len() as int) =~= all);
    sorted
}

/// Tells whether one of the names is `name`.
fn has_name(names: &Vec<String>, name: &String) -> (found: bool)
    ensures
        found == texts(names@).contains(name@),
{
    let mut index: usize = 0;
    while index < names.len()
        invariant
            index <= names.len(),
            forall|i: int| 0 <= i < index ==> texts(names@)[i] != name@,
        decreases names.len() - index,
    {
        if names[index] == *name {
            assert(texts(names@)[index as int] == name@);
            return true;
        }
        index += 1;
    }
    false
}

/// Picks the adapter to use by default: refused with `AdapterNotFound`
/// if the system has no adapter.
pub fn default_adapter_name(adapter_names: &Vec<String>) -> (answer: Result<String, AdapterErrors>)
    ensures
        match answer {
            Ok(name) => is_default_adapter(texts(adapter_names@), name@),
            Err(error) => adapter_names@.len() == 0 && error@
                == AdapterErrorsView::AdapterNotFound,
        },
{
    let preferred = "hci0".to_string();
    if has_name(adapter_names, &preferred) {
        return Ok(preferred);
    }
    let sorted = sort_names(clone_strings(adapter_names));
    proof {
        texts(sorted@).to_multiset_ensures();
        texts(adapter_names@).to_multiset_ensures();
    }
    if sorted.len() == 0 {
        return Err(AdapterErrors::AdapterNotFound);
    }
    let first = sorted[0].clone();
    proof {
        let names = texts(adapter_names@);
        let ordered = texts(sorted@);
        assert(ordered[0] == first@);
        assert(ordered.contains(first@));
        to_multiset_contains(ordered, first@);
        to_multiset_contains(names, first@);
        assert(names.contains(first@));
        assert forall|i: int| 0 <= i < names.len() implies text_le(first@, #[trigger] names[i]) by {
            assert(names.contains(names[i]));
            to_multiset_contains(names, names[i]);
            to_multiset_contains(ordered, names[i]);
            assert(ordered.contains(names[i]));
            let j = choose|j: int| 0 <= j < ordered.len() && ordered[j] == names[i];
            if j > 0 {
                assert(text_le(ordered[0], ordered[j]));
            } else {
                lemma_text_le_reflexive(first@);
            }
        }
    }
    Ok(first)
}

/// Among given names, the adapter to use by default is one and no other.
pub proof fn law_default_adapter_is_unique(
    names: Seq<Seq<char>>,
    first: Seq<char>,
    second: Seq<char>,
)
    requires
        is_default_adapter(names, first),
        is_default_adapter(names, second),
    ensures
        first == second,
{
    if !names.contains("hci0"@) {
        let i = choose|i: int| 0 <= i < names.len() && names[i] == first;
        let j = choose|j: int| 0 <= j < names.len() && names[j] == second;
        assert(text_le(second, names[i]));
        assert(text_le(first, names[j]));
        lemma_text_le_antisymmetric(first, second);
    }
}

/// The client system.
pub struct Client {
    adapter_names: Vec<String>,
    adapter: Adapter,
}

impl Client {
    /// The names of the adapters of the system, as texts.
    pub closed spec fn names(&self) -> Seq<Seq<char>> {
        texts(self.adapter_names@)
    }

    /// The engine for the adapter in use.
    pub closed spec fn engine(&self) -> Adapter {
        self.adapter
    }

    /// Sets the client up with the names of the adapters of the system,
    /// which it keeps in ascending order, and the engine for the adapter
    /// in use.
    pub fn new(adapter_names: Vec<String>, adapter: Adapter) -> (client: Client)
        ensures
            names_sorted(client.names()),
            client.names().to_multiset() == texts(adapter_names@).to_multiset(),
            client.engine() == adapter,
    {
        Client { adapter_names: sort_names(adapter_names), adapter }
    }

    /// The engine for the adapter in use.
    pub fn adapter(&self) -> (adapter: &Adapter)
        ensures
            *adapter == self.engine(),
    {
        &self.adapter
    }

    /// The engine for the adapter in use, to act on it: the names of the
    /// adapters stay as they are.
    pub fn adapter_mut(&mut self) -> (adapter: &mut Adapter)
        ensures
            *adapter == old(self).engine(),
            final(self).engine() == *final(adapter),
            final(self).names() == old(self).names(),
    {
        &mut self.adapter
    }

    /// The names of the adapters of the system, in ascending order.
    pub fn adapter_names(&self) -> (names: &Vec<String>)
        ensures
            texts(names@) == self.names(),
    {
        &self.adapter_names
    }
}

} // verus!
