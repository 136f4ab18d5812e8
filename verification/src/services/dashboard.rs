//! The dashboard store.

use vstd::prelude::*;
use crate::services::keyed::{index_of, single, upsert, without};
use crate::services::{
    AnyDashboardUsesGroup, DashboardData, DashboardDataView, DashboardMessage, DashboardService,
    DashboardStep, DataReadWrite, Loaded,
};

verus! {

impl DataReadWrite for Vec<DashboardData> {
    open spec fn is_empty_data(&self) -> bool {
        self@.len() == 0
    }

    open spec fn is_single_of(&self, all: &Self, which: Seq<char>) -> bool {
        self.deep_view() == single(all.deep_view(), which)
    }

    fn load(source: Loaded<Self>) -> (r: Self) {
        match source {
            Loaded::Parsed(dashboards) => dashboards,
            _ => Vec::new(),
        }
    }

    fn single(&self, which: String) -> (r: Self) {
        let mut found: Vec<DashboardData> = Vec::new();
        if let Some(index) = index_of(self, &which) {
            found.push(self[index].clone());
        }
        assert(found.deep_view() =~= single(self.deep_view(), which@));
        found
    }
}

/// The dashboards of a file that was read: its content, or none where the
/// file was missing or malformed.
pub open spec fn loaded_dashboards(source: Loaded<Vec<DashboardData>>) -> Seq<DashboardDataView> {
    match source {
        Loaded::Parsed(dashboards) => dashboards.deep_view(),
        _ => Seq::empty(),
    }
}

/// Some dashboard of the list shows the group named `group`.
pub open spec fn any_uses_group(dashboards: Seq<DashboardDataView>, group: Seq<char>) -> bool {
    exists|i: int, j: int|
        0 <= i < dashboards.len() && 0 <= j < dashboards[i].groups.len()
            && #[trigger] dashboards[i].groups[j] == group
}

/// Whether the dashboard shows the group named `group`.
fn shows_group(dashboard: &DashboardData, group: &String) -> (r: bool)
    ensures
        r == dashboard@.groups.contains(group@),
{
    let mut j: usize = 0;
    while j < dashboard.groups.len()
        invariant
            j <= dashboard.groups@.len(),
            forall|k: int| 0 <= k < j ==> dashboard@.groups[k] != group@,
        decreases dashboard.groups@.len() - j,
    {
        if dashboard.groups[j] == *group {
            assert(dashboard@.groups[j as int] == group@);
            return true;
        }
        j = j + 1;
    }
    false
}

impl View for DashboardService {
    type V = Seq<DashboardDataView>;

    closed spec fn view(&self) -> Seq<DashboardDataView> {
        self.dashboards.deep_view()
    }
}

impl DashboardService {
    /// A store without dashboards.
    pub fn new() -> (r: Self)
        ensures
            r@ == Seq::<DashboardDataView>::empty(),
    {
        let r = DashboardService { dashboards: Vec::new() };
        assert(r@ =~= Seq::<DashboardDataView>::empty());
        r
    }

    /// The dashboards as they stand, for the caller to write out.
    pub fn dashboards(&self) -> (r: &Vec<DashboardData>)
        ensures
            r.deep_view() == self@,
    {
        &self.dashboards
    }

    /// Takes up the dashboards of the file when the store starts.
    pub fn started(&mut self, source: Loaded<Vec<DashboardData>>)
        ensures
            final(self)@ == loaded_dashboards(source),
    {
        self.dashboards = Vec::<DashboardData>::load(source);
        assert(self@ =~= loaded_dashboards(source));
    }

    /// Puts the outcome of reading the file in the place of the dashboards
    /// held, whatever they were, and answers with the new ones.
    pub fn reload(&mut self, source: Loaded<Vec<DashboardData>>) -> (reply: Vec<DashboardData>)
        ensures
            final(self)@ == loaded_dashboards(source),
            reply.deep_view() == final(self)@,
    {
        self.dashboards = Vec::<DashboardData>::load(source);
        assert(self@ =~= loaded_dashboards(source));
        self.list()
    }

    /// A copy of all dashboards.
    fn list(&self) -> (r: Vec<DashboardData>)
        ensures
            r.deep_view() == self@,
    {
        let r = self.dashboards.clone();
        assert(r.deep_view() =~= self@);
        r
    }

    /// Answers one message.
    ///
    /// `List` and `Get` answer from the dashboards held. `Put` replaces the
    /// first dashboard with the given name, or appends where there is none;
    /// `Delete` removes the first dashboard with the given name; both ask for
    /// the file to be written and answer with all dashboards. `Reload` asks
    /// for the file to be read and changes nothing by itself.
    pub fn handle(&mut self, msg: DashboardMessage) -> (step: DashboardStep)
        ensures
            match msg {
                DashboardMessage::List => final(self)@ == old(self)@ && match step {
                    DashboardStep::Reply(all) => all.deep_view() == old(self)@,
                    _ => false,
                },
                DashboardMessage::Reload => final(self)@ == old(self)@
                    && step is Load,
                DashboardMessage::Get(name) => final(self)@ == old(self)@ && match step {
                    DashboardStep::Reply(found) => found.deep_view() == single(old(self)@, name@),
                    _ => false,
                },
                DashboardMessage::Put(name, data) => final(self)@ == upsert(
                    old(self)@,
                    name@,
                    data@,
                ) && match step {
                    DashboardStep::SaveAndReply(all) => all.deep_view() == final(self)@,
                    _ => false,
                },
                DashboardMessage::Delete(name) => final(self)@ == without(old(self)@, name@)
                    && match step {
                    DashboardStep::SaveAndReply(all) => all.deep_view() == final(self)@,
                    _ => false,
                },
            },
    {
        match msg {
            DashboardMessage::List => DashboardStep::Reply(self.list()),
            DashboardMessage::Reload => DashboardStep::Load,
            DashboardMessage::Get(name) => DashboardStep::Reply(self.dashboards.single(name)),
            DashboardMessage::Put(name, data) => {
                match index_of(&self.dashboards, &name) {
                    Some(index) => {
                        self.dashboards.set(index, data);
                    },
                    None => {
                        self.dashboards.push(data);
                    },
                }
                assert(self@ =~= upsert(old(self)@, name@, data@));
                DashboardStep::SaveAndReply(self.list())
            },
            DashboardMessage::Delete(name) => {
                if let Some(index) = index_of(&self.dashboards, &name) {
                    self.dashboards.remove(index);
                }
                assert(self@ =~= without(old(self)@, name@));
                DashboardStep::SaveAndReply(self.list())
            },
        }
    }

    /// Whether any dashboard shows the group that the message names.
    pub fn any_dashboard_uses_group(&self, msg: &AnyDashboardUsesGroup) -> (r: bool)
        ensures
            r == any_uses_group(self@, msg.0@),
    {
        let mut i: usize = 0;
        while i < self.dashboards.len()
            invariant
                i <= self.dashboards@.len(),
                forall|k: int| 0 <= k < i ==> !(#[trigger] self@[k]).groups.contains(msg.0@),
            decreases self.dashboards@.len() - i,
        {
            if shows_group(&self.dashboards[i], &msg.0) {
                let ghost j = choose|j: int|
                    0 <= j < self@[i as int].groups.len() && self@[i as int].groups[j] == msg.0@;
                assert(self@[i as int].groups[j] == msg.0@);
                return true;
            }
            i = i + 1;
        }
        assert forall|a: int, b: int|
            0 <= a < self@.len() && 0 <= b < self@[a].groups.len() implies #[trigger] self@[a].groups[b]
            != msg.0@ by {
            assert(!self@[a].groups.contains(msg.0@));
        }
        false
    }
}

} // verus!
