//! The shortcut store.

use vstd::prelude::*;
use crate::services::keyed::{
    contains_key, index_of, law_delete_keeps_names_apart, law_delete_keeps_others,
    law_delete_then_get, law_set_keeps_names_apart, law_set_keeps_others, law_set_then_get,
    lemma_position, lemma_position_is, position, unique_keys, upsert, without,
};
use crate::services::{
    DataReadWrite, Loaded, ShortcutData, ShortcutDataView, ShortcutEntry, ShortcutEntryView,
    ShortcutSet, ShortcutsMessage, ShortcutsService, ShortcutsStep,
};

verus! {

/// The map from each name to the actions of the first entry with that name.
pub open spec fn as_map(entries: Seq<ShortcutEntryView>) -> Map<Seq<char>, Seq<ShortcutDataView>> {
    Map::new(
        |name: Seq<char>| contains_key(entries, name),
        |name: Seq<char>| entries[position(entries, name)].tasks,
    )
}

/// The map with `name` alone, where `all` has it, or the empty map.
pub open spec fn single_of(
    all: Map<Seq<char>, Seq<ShortcutDataView>>,
    name: Seq<char>,
) -> Map<Seq<char>, Seq<ShortcutDataView>> {
    if all.contains_key(name) {
        Map::empty().insert(name, all[name])
    } else {
        Map::empty()
    }
}

/// Putting an entry under its own name is an insert into the map, and keeps
/// the names apart.
proof fn lemma_upsert_inserts(entries: Seq<ShortcutEntryView>, value: ShortcutEntryView)
    requires
        unique_keys(entries),
    ensures
        as_map(upsert(entries, value.name, value)) == as_map(entries).insert(
            value.name,
            value.tasks,
        ),
        unique_keys(upsert(entries, value.name, value)),
{
    let key = value.name;
    let after = upsert(entries, key, value);
    lemma_position(entries, key);
    law_set_then_get(entries, key, value);
    let wanted = as_map(entries).insert(key, value.tasks);
    assert forall|k: Seq<char>| #[trigger]
        as_map(after).contains_key(k) == wanted.contains_key(k) && (wanted.contains_key(k)
            ==> as_map(after)[k] == wanted[k]) by {
        if k != key {
            law_set_keeps_others(entries, key, value, k);
        }
    }
    assert(as_map(after) =~= wanted);
    law_set_keeps_names_apart(entries, key, value);
}

/// Taking a name out of the entries removes it from the map, and keeps the
/// names apart.
proof fn lemma_without_removes(entries: Seq<ShortcutEntryView>, key: Seq<char>)
    requires
        unique_keys(entries),
    ensures
        as_map(without(entries, key)) == as_map(entries).remove(key),
        unique_keys(without(entries, key)),
{
    let after = without(entries, key);
    lemma_position(entries, key);
    law_delete_then_get(entries, key);
    let wanted = as_map(entries).remove(key);
    assert forall|k: Seq<char>| #[trigger]
        as_map(after).contains_key(k) == wanted.contains_key(k) && (wanted.contains_key(k)
            ==> as_map(after)[k] == wanted[k]) by {
        if k != key {
            law_delete_keeps_others(entries, key, k);
        }
    }
    assert(as_map(after) =~= wanted);
    law_delete_keeps_names_apart(entries, key);
}

impl View for ShortcutSet {
    type V = Map<Seq<char>, Seq<ShortcutDataView>>;

    closed spec fn view(&self) -> Map<Seq<char>, Seq<ShortcutDataView>> {
        as_map(self.entries.deep_view())
    }
}

impl ShortcutSet {
    /// No two entries share a name.
    #[verifier::type_invariant]
    spec fn wf(&self) -> bool {
        unique_keys(self.entries.deep_view())
    }

    /// The set without shortcuts.
    pub fn new() -> (r: Self)
        ensures
            r@ == Map::<Seq<char>, Seq<ShortcutDataView>>::empty(),
    {
        let r = ShortcutSet { entries: Vec::new() };
        assert(r@ =~= Map::<Seq<char>, Seq<ShortcutDataView>>::empty());
        r
    }

    /// The shortcuts as a list in which every name occurs once.
    pub fn entries(&self) -> (r: &Vec<ShortcutEntry>)
        ensures
            as_map(r.deep_view()) == self@,
            unique_keys(r.deep_view()),
    {
        proof {
            use_type_invariant(self);
        }
        &self.entries
    }

    /// The actions of the shortcut with the given name.
    pub fn get(&self, name: &String) -> (r: Option<&Vec<ShortcutData>>)
        ensures
            match r {
                Some(tasks) => self@.contains_key(name@) && tasks.deep_view() == self@[name@],
                None => !self@.contains_key(name@),
            },
    {
        match index_of(&self.entries, name) {
            Some(index) => Some(&self.entries[index].tasks),
            None => None,
        }
    }

    /// Puts the actions under the name, in the place of any that were there.
    pub fn insert(&mut self, name: String, tasks: Vec<ShortcutData>)
        ensures
            final(self)@ == old(self)@.insert(name@, tasks.deep_view()),
    {
        let entry = ShortcutEntry { name, tasks };
        proof {
            use_type_invariant(&*self);
            lemma_upsert_inserts(self.entries.deep_view(), entry@);
        }
        let found = index_of(&self.entries, &entry.name);
        let mut taken = ShortcutSet::new();
        core::mem::swap(self, &mut taken);
        let mut entries = taken.entries;
        match found {
            Some(index) => {
                entries.set(index, entry);
            },
            None => {
                entries.push(entry);
            },
        }
        assert(entries.deep_view() =~= upsert(old(self).entries.deep_view(), name@, entry@));
        *self = ShortcutSet { entries };
    }

    /// Takes the shortcut with the given name out, if there is one.
    pub fn remove(&mut self, name: &String)
        ensures
            final(self)@ == old(self)@.remove(name@),
    {
        proof {
            use_type_invariant(&*self);
            lemma_without_removes(self.entries.deep_view(), name@);
        }
        let found = index_of(&self.entries, name);
        let mut taken = ShortcutSet::new();
        core::mem::swap(self, &mut taken);
        let mut entries = taken.entries;
        if let Some(index) = found {
            entries.remove(index);
        }
        assert(entries.deep_view() =~= without(old(self).entries.deep_view(), name@));
        *self = ShortcutSet { entries };
    }
}

impl Clone for ShortcutSet {
    fn clone(&self) -> (r: Self)
        ensures
            r@ == self@,
    {
        proof {
            use_type_invariant(self);
        }
        let entries = self.entries.clone();
        assert(entries.deep_view() =~= self.entries.deep_view());
        ShortcutSet { entries }
    }
}

impl DataReadWrite for ShortcutSet {
    open spec fn is_empty_data(&self) -> bool {
        self@ == Map::<Seq<char>, Seq<ShortcutDataView>>::empty()
    }

    open spec fn is_single_of(&self, all: &Self, which: Seq<char>) -> bool {
        self@ == single_of(all@, which)
    }

    fn load(source: Loaded<Self>) -> (r: Self) {
        match source {
            Loaded::Parsed(shortcuts) => shortcuts,
            _ => ShortcutSet::new(),
        }
    }

    fn single(&self, which: String) -> (r: Self) {
        let mut found: Vec<ShortcutEntry> = Vec::new();
        if let Some(index) = index_of(&self.entries, &which) {
            found.push(self.entries[index].clone());
            proof {
                lemma_position(self.entries.deep_view(), which@);
                assert(found.deep_view()[0] == self.entries.deep_view()[index as int]);
                lemma_position_is(found.deep_view(), which@, 0);
                assert forall|k: Seq<char>| k != which@ implies !contains_key(
                    found.deep_view(),
                    k,
                ) by {
                    lemma_position_is(found.deep_view(), k, 1);
                }
            }
        }
        let r = ShortcutSet { entries: found };
        assert(r@ =~= single_of(self@, which@));
        r
    }
}

/// The shortcuts of a file that was read: its content, or none where the
/// file was missing or malformed.
pub open spec fn loaded_shortcuts(source: Loaded<ShortcutSet>) -> Map<
    Seq<char>,
    Seq<ShortcutDataView>,
> {
    match source {
        Loaded::Parsed(shortcuts) => shortcuts@,
        _ => Map::empty(),
    }
}

/// Adding actions under a name and then getting that name gives the actions
/// back.
pub proof fn law_add_then_get(
    shortcuts: Map<Seq<char>, Seq<ShortcutDataView>>,
    name: Seq<char>,
    tasks: Seq<ShortcutDataView>,
)
    ensures
        single_of(shortcuts.insert(name, tasks), name) == Map::<
            Seq<char>,
            Seq<ShortcutDataView>,
        >::empty().insert(name, tasks),
{
}

/// After a delete of a name, getting it gives nothing and the list does not
/// hold it.
pub proof fn law_remove_then_get(shortcuts: Map<Seq<char>, Seq<ShortcutDataView>>, name: Seq<char>)
    ensures
        single_of(shortcuts.remove(name), name) == Map::<Seq<char>, Seq<ShortcutDataView>>::empty(),
        !shortcuts.remove(name).contains_key(name),
{
}

/// Adding under one name changes nothing that is found under another.
pub proof fn law_add_keeps_others(
    shortcuts: Map<Seq<char>, Seq<ShortcutDataView>>,
    name: Seq<char>,
    tasks: Seq<ShortcutDataView>,
    other: Seq<char>,
)
    requires
        other != name,
    ensures
        single_of(shortcuts.insert(name, tasks), other) == single_of(shortcuts, other),
{
}

impl View for ShortcutsService {
    type V = Map<Seq<char>, Seq<ShortcutDataView>>;

    closed spec fn view(&self) -> Map<Seq<char>, Seq<ShortcutDataView>> {
        self.shortcuts@
    }
}

impl ShortcutsService {
    /// A store with the shortcuts of the file.
    pub fn new(source: Loaded<ShortcutSet>) -> (r: Self)
        ensures
            r@ == loaded_shortcuts(source),
    {
        ShortcutsService { shortcuts: ShortcutSet::load(source) }
    }

    /// The shortcuts as they stand, for the caller to write out.
    pub fn shortcuts(&self) -> (r: &ShortcutSet)
        ensures
            r@ == self@,
    {
        &self.shortcuts
    }

    /// Puts the outcome of reading the file in the place of the shortcuts
    /// held, whatever they were, and answers with the new ones.
    pub fn reload(&mut self, source: Loaded<ShortcutSet>) -> (reply: ShortcutSet)
        ensures
            final(self)@ == loaded_shortcuts(source),
            reply@ == final(self)@,
    {
        self.shortcuts = ShortcutSet::load(source);
        self.shortcuts.clone()
    }

    /// Answers one message.
    ///
    /// `List` and `Get` answer from the shortcuts held. `Add` puts the
    /// actions under the name, `Delete` takes the name out; both ask for the
    /// file to be written and answer with all shortcuts. `Reload` asks for
    /// the file to be read and changes nothing by itself.
    pub fn handle(&mut self, msg: ShortcutsMessage) -> (step: ShortcutsStep)
        ensures
            match msg {
                ShortcutsMessage::List => final(self)@ == old(self)@ && match step {
                    ShortcutsStep::Reply(all) => all@ == old(self)@,
                    _ => false,
                },
                ShortcutsMessage::Reload => final(self)@ == old(self)@ && step is Load,
                ShortcutsMessage::Get(name) => final(self)@ == old(self)@ && match step {
                    ShortcutsStep::Reply(found) => found@ == single_of(
                        old(self)@,
                        name@,
                    ),
                    _ => false,
                },
                ShortcutsMessage::Add(name, tasks) => final(self)@ == old(self)@.insert(
                    name@,
                    tasks.deep_view(),
                ) && match step {
                    ShortcutsStep::SaveAndReply(all) => all@ == final(self)@,
                    _ => false,
                },
                ShortcutsMessage::Delete(name) => final(self)@ == old(self)@.remove(name@)
                    && match step {
                    ShortcutsStep::SaveAndReply(all) => all@ == final(self)@,
                    _ => false,
                },
            },
    {
        match msg {
            ShortcutsMessage::List => ShortcutsStep::Reply(self.shortcuts.clone()),
            ShortcutsMessage::Reload => ShortcutsStep::Load,
            ShortcutsMessage::Get(name) => ShortcutsStep::Reply(self.shortcuts.single(name)),
            ShortcutsMessage::Add(name, tasks) => {
                self.shortcuts.insert(name, tasks);
                ShortcutsStep::SaveAndReply(self.shortcuts.clone())
            },
            ShortcutsMessage::Delete(name) => {
                self.shortcuts.remove(&name);
                ShortcutsStep::SaveAndReply(self.shortcuts.clone())
            },
        }
    }
}

} // verus!
