//! The group store.

use vstd::prelude::*;
use crate::services::dashboard::any_uses_group;
use crate::services::keyed::{index_of, lookup, single, upsert, without};
use crate::services::{
    AnyDashboardUsesGroup, DashboardDataView, DataReadWrite, GroupData, GroupDataView,
    GroupMessage, GroupService, GroupStep, Loaded,
};

verus! {

impl DataReadWrite for Vec<GroupData> {
    open spec fn is_empty_data(&self) -> bool {
        self@.len() == 0
    }

    open spec fn is_single_of(&self, all: &Self, which: Seq<char>) -> bool {
        self.deep_view() == single(all.deep_view(), which)
    }

    fn load(source: Loaded<Self>) -> (r: Self) {
        match source {
            Loaded::Parsed(groups) => groups,
            _ => Vec::new(),
        }
    }

    fn single(&self, which: String) -> (r: Self) {
        let mut found: Vec<GroupData> = Vec::new();
        if let Some(index) = index_of(self, &which) {
            found.push(self[index].clone());
        }
        assert(found.deep_view() =~= single(self.deep_view(), which@));
        found
    }
}

/// The groups of a file that was read: its content, or none where the file
/// was missing or malformed.
pub open spec fn loaded_groups(source: Loaded<Vec<GroupData>>) -> Seq<GroupDataView> {
    match source {
        Loaded::Parsed(groups) => groups.deep_view(),
        _ => Seq::empty(),
    }
}

/// Whether a delete is held back by the dashboard store's answer. Only a
/// plain yes holds it back: where the store gave no answer the group counts
/// as unused.
pub open spec fn held_back(answer: Option<bool>) -> bool {
    answer == Some(true)
}

/// The groups after a delete of `name` that met the given answer.
pub open spec fn after_delete(
    groups: Seq<GroupDataView>,
    name: Seq<char>,
    answer: Option<bool>,
) -> Seq<GroupDataView> {
    if held_back(answer) {
        groups
    } else {
        without(groups, name)
    }
}

/// The group that a delete of `name` hands back on the given answer.
pub open spec fn deleted(
    groups: Seq<GroupDataView>,
    name: Seq<char>,
    answer: Option<bool>,
) -> Option<GroupDataView> {
    if held_back(answer) {
        None
    } else {
        lookup(groups, name)
    }
}

/// The model of an optional group.
pub open spec fn group_view(group: Option<GroupData>) -> Option<GroupDataView> {
    match group {
        Some(g) => Some(g@),
        None => None,
    }
}

/// A delete that is answered with what the dashboards hold is a no-op that
/// hands back nothing while any dashboard shows the group, and removes the
/// group and hands it back when none does.
pub proof fn law_delete_guarded_by_dashboards(
    groups: Seq<GroupDataView>,
    dashboards: Seq<DashboardDataView>,
    name: Seq<char>,
)
    ensures
        any_uses_group(dashboards, name) ==> after_delete(
            groups,
            name,
            Some(any_uses_group(dashboards, name)),
        ) == groups && deleted(groups, name, Some(any_uses_group(dashboards, name)))
            == None::<GroupDataView>,
        !any_uses_group(dashboards, name) ==> after_delete(
            groups,
            name,
            Some(any_uses_group(dashboards, name)),
        ) == without(groups, name) && deleted(
            groups,
            name,
            Some(any_uses_group(dashboards, name)),
        ) == lookup(groups, name),
{
}

impl View for GroupService {
    type V = Seq<GroupDataView>;

    closed spec fn view(&self) -> Seq<GroupDataView> {
        self.groups.deep_view()
    }
}

impl GroupService {
    /// A store with the groups of the file.
    pub fn new(source: Loaded<Vec<GroupData>>) -> (r: Self)
        ensures
            r@ == loaded_groups(source),
    {
        let r = GroupService { groups: Vec::<GroupData>::load(source) };
        assert(r@ =~= loaded_groups(source));
        r
    }

    /// The groups as they stand, for the caller to write out.
    pub fn groups(&self) -> (r: &Vec<GroupData>)
        ensures
            r.deep_view() == self@,
    {
        &self.groups
    }

    /// Puts the outcome of reading the file in the place of the groups held,
    /// whatever they were. The answer to a reload is no group.
    pub fn reload(&mut self, source: Loaded<Vec<GroupData>>) -> (reply: Option<GroupData>)
        ensures
            final(self)@ == loaded_groups(source),
            reply is None,
    {
        self.groups = Vec::<GroupData>::load(source);
        assert(self@ =~= loaded_groups(source));
        None
    }

    /// Answers one message.
    ///
    /// `Get` answers with the first group of the given name. `Put` replaces
    /// that group, or appends where there is none, asks for the file to be
    /// written and answers with the group put. `Reload` asks for the file to
    /// be read, `Delete` for the dashboard store to be asked; neither changes
    /// anything by itself.
    pub fn handle(&mut self, msg: GroupMessage) -> (step: GroupStep)
        ensures
            match msg {
                GroupMessage::Reload => final(self)@ == old(self)@ && step is Load,
                GroupMessage::Get(name) => final(self)@ == old(self)@ && match step {
                    GroupStep::Reply(found) => group_view(found) == lookup(old(self)@, name@),
                    _ => false,
                },
                GroupMessage::Put(name, group) => final(self)@ == upsert(
                    old(self)@,
                    name@,
                    group@,
                ) && match step {
                    GroupStep::SaveAndReply(stored) => group_view(stored) == Some(group@),
                    _ => false,
                },
                GroupMessage::Delete(name) => final(self)@ == old(self)@ && match step {
                    GroupStep::AskDashboards(question) => question.0@ == name@,
                    _ => false,
                },
            },
    {
        match msg {
            GroupMessage::Reload => GroupStep::Load,
            GroupMessage::Get(name) => {
                match index_of(&self.groups, &name) {
                    Some(index) => GroupStep::Reply(Some(self.groups[index].clone())),
                    None => GroupStep::Reply(None),
                }
            },
            GroupMessage::Put(name, group) => {
                let stored = group.clone();
                match index_of(&self.groups, &name) {
                    Some(index) => {
                        self.groups.set(index, group);
                    },
                    None => {
                        self.groups.push(group);
                    },
                }
                assert(self@ =~= upsert(old(self)@, name@, group@));
                GroupStep::SaveAndReply(Some(stored))
            },
            GroupMessage::Delete(name) => GroupStep::AskDashboards(AnyDashboardUsesGroup(name)),
        }
    }

    /// Carries out a delete once the dashboard store has answered, or has
    /// failed to (`None`).
    ///
    /// Where the answer is yes, nothing changes and no group is handed back.
    /// Otherwise the first group of that name is removed and handed back, and
    /// the file is to be written; where there is no such group nothing
    /// changes.
    pub fn delete(&mut self, name: String, answer: Option<bool>) -> (step: GroupStep)
        ensures
            final(self)@ == after_delete(old(self)@, name@, answer),
            match step {
                GroupStep::Reply(group) => group is None && deleted(old(self)@, name@, answer)
                    is None,
                GroupStep::SaveAndReply(group) => group is Some && group_view(group) == deleted(
                    old(self)@,
                    name@,
                    answer,
                ),
                _ => false,
            },
    {
        let is_in_use = match answer {
            Some(result) => result,
            None => false,
        };
        if is_in_use {
            return GroupStep::Reply(None);
        }
        match index_of(&self.groups, &name) {
            Some(index) => {
                let removed = self.groups.remove(index);
                assert(self@ =~= without(old(self)@, name@));
                GroupStep::SaveAndReply(Some(removed))
            },
            None => GroupStep::Reply(None),
        }
    }
}

} // verus!
