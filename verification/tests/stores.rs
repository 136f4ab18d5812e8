use new_home_server::services::{
    AnyDashboardUsesGroup, DashboardData, DashboardMessage, DashboardService, DashboardStep,
    DataReadWrite, GroupData, GroupItemData, GroupMessage, GroupService, GroupStep, Loaded,
    ShortcutData, ShortcutSet, ShortcutsMessage, ShortcutsService, ShortcutsStep,
};
use serde_json::Value;

fn dashboard(name: &str, groups: &[&str]) -> DashboardData {
    DashboardData {
        name: name.to_string(),
        groups: groups.iter().map(|g| g.to_string()).collect(),
    }
}

fn group(name: &str, size: i32) -> GroupData {
    GroupData {
        name: name.to_string(),
        size,
        order: 1,
        items: vec![GroupItemData {
            name: "lamp".to_string(),
            item_type: "switch".to_string(),
            data: Value::Bool(true),
        }],
    }
}

fn task(topic: &str, payload: &str) -> ShortcutData {
    ShortcutData {
        topic: topic.to_string(),
        payload: payload.to_string(),
        options: Value::Null,
    }
}

fn saved(step: DashboardStep) -> Vec<DashboardData> {
    match step {
        DashboardStep::SaveAndReply(all) => all,
        other => panic!("expected a save, got {:?}", other),
    }
}

fn replied(step: DashboardStep) -> Vec<DashboardData> {
    match step {
        DashboardStep::Reply(all) => all,
        other => panic!("expected a reply, got {:?}", other),
    }
}

#[test]
fn dashboard_set_then_get_round_trips() {
    let mut store = DashboardService::new();
    let all = saved(store.handle(DashboardMessage::Put("main".to_string(), dashboard("main", &["a", "b"]))));
    assert_eq!(all, vec![dashboard("main", &["a", "b"])]);
    let found = replied(store.handle(DashboardMessage::Get("main".to_string())));
    assert_eq!(found, vec![dashboard("main", &["a", "b"])]);
}

#[test]
fn dashboard_set_replaces_in_place() {
    let mut store = DashboardService::new();
    store.handle(DashboardMessage::Put("one".to_string(), dashboard("one", &[])));
    store.handle(DashboardMessage::Put("two".to_string(), dashboard("two", &[])));
    let all = saved(store.handle(DashboardMessage::Put("one".to_string(), dashboard("one", &["g"]))));
    assert_eq!(all, vec![dashboard("one", &["g"]), dashboard("two", &[])]);
    assert_eq!(store.dashboards(), &all);
}

#[test]
fn dashboard_set_under_another_name_replaces_the_named_one() {
    let mut store = DashboardService::new();
    store.handle(DashboardMessage::Put("one".to_string(), dashboard("one", &[])));
    let all = saved(store.handle(DashboardMessage::Put("one".to_string(), dashboard("renamed", &[]))));
    assert_eq!(all, vec![dashboard("renamed", &[])]);
    let found = replied(store.handle(DashboardMessage::Get("one".to_string())));
    assert!(found.is_empty());
}

#[test]
fn dashboard_delete_then_get_is_empty() {
    let mut store = DashboardService::new();
    store.handle(DashboardMessage::Put("one".to_string(), dashboard("one", &[])));
    store.handle(DashboardMessage::Put("two".to_string(), dashboard("two", &[])));
    let all = saved(store.handle(DashboardMessage::Delete("one".to_string())));
    assert_eq!(all, vec![dashboard("two", &[])]);
    assert!(replied(store.handle(DashboardMessage::Get("one".to_string()))).is_empty());
    let listed = replied(store.handle(DashboardMessage::List));
    assert!(listed.iter().all(|d| d.name != "one"));
}

#[test]
fn dashboard_delete_of_absent_name_changes_nothing() {
    let mut store = DashboardService::new();
    store.handle(DashboardMessage::Put("one".to_string(), dashboard("one", &[])));
    let all = saved(store.handle(DashboardMessage::Delete("none".to_string())));
    assert_eq!(all, vec![dashboard("one", &[])]);
}

#[test]
fn dashboard_reload_takes_the_file_and_drops_edits() {
    let mut store = DashboardService::new();
    store.handle(DashboardMessage::Put("edit".to_string(), dashboard("edit", &[])));
    assert_eq!(store.handle(DashboardMessage::Reload), DashboardStep::Load);
    assert_eq!(store.dashboards().len(), 1);
    let reply = store.reload(Loaded::Parsed(vec![dashboard("disk", &["g"])]));
    assert_eq!(reply, vec![dashboard("disk", &["g"])]);
    assert_eq!(replied(store.handle(DashboardMessage::List)), vec![dashboard("disk", &["g"])]);
    assert!(store.reload(Loaded::Missing).is_empty());
    store.started(Loaded::Parsed(vec![dashboard("disk", &[])]));
    assert!(store.reload(Loaded::Malformed).is_empty());
    assert!(store.dashboards().is_empty());
}

#[test]
fn dashboard_store_knows_which_groups_are_shown() {
    let mut store = DashboardService::new();
    store.started(Loaded::Parsed(vec![dashboard("one", &["a"]), dashboard("two", &["b", "c"])]));
    assert!(store.any_dashboard_uses_group(&AnyDashboardUsesGroup("c".to_string())));
    assert!(store.any_dashboard_uses_group(&AnyDashboardUsesGroup("a".to_string())));
    assert!(!store.any_dashboard_uses_group(&AnyDashboardUsesGroup("one".to_string())));
    assert!(!DashboardService::new().any_dashboard_uses_group(&AnyDashboardUsesGroup("a".to_string())));
}

#[test]
fn list_single_picks_the_first_of_a_name() {
    let all = vec![dashboard("a", &["1"]), dashboard("b", &[]), dashboard("a", &["2"])];
    assert_eq!(all.single("a".to_string()), vec![dashboard("a", &["1"])]);
    assert!(all.single("c".to_string()).is_empty());
    assert!(Vec::<DashboardData>::load(Loaded::Missing).is_empty());
    let groups = vec![group("g", 1), group("g", 2)];
    assert_eq!(groups.single("g".to_string()), vec![group("g", 1)]);
    assert_eq!(Vec::<GroupData>::load(Loaded::Parsed(vec![group("g", 3)])), vec![group("g", 3)]);
}

#[test]
fn group_set_then_get_round_trips() {
    let mut store = GroupService::new(Loaded::Missing);
    let step = store.handle(GroupMessage::Put("living".to_string(), group("living", 4)));
    assert_eq!(step, GroupStep::SaveAndReply(Some(group("living", 4))));
    let step = store.handle(GroupMessage::Get("living".to_string()));
    assert_eq!(step, GroupStep::Reply(Some(group("living", 4))));
    assert_eq!(store.handle(GroupMessage::Get("none".to_string())), GroupStep::Reply(None));
    store.handle(GroupMessage::Put("living".to_string(), group("living", 6)));
    assert_eq!(store.groups(), &vec![group("living", 6)]);
}

#[test]
fn group_delete_asks_the_dashboards_first() {
    let mut store = GroupService::new(Loaded::Parsed(vec![group("living", 4)]));
    let step = store.handle(GroupMessage::Delete("living".to_string()));
    assert_eq!(step, GroupStep::AskDashboards(AnyDashboardUsesGroup("living".to_string())));
    assert_eq!(store.groups().len(), 1);
}

#[test]
fn group_delete_is_rejected_while_a_dashboard_shows_it() {
    let mut dashboards = DashboardService::new();
    dashboards.started(Loaded::Parsed(vec![dashboard("main", &["living"])]));
    let mut store = GroupService::new(Loaded::Parsed(vec![group("living", 4), group("hall", 2)]));
    let answer = dashboards.any_dashboard_uses_group(&AnyDashboardUsesGroup("living".to_string()));
    assert_eq!(store.delete("living".to_string(), Some(answer)), GroupStep::Reply(None));
    assert_eq!(store.groups().len(), 2);
    let answer = dashboards.any_dashboard_uses_group(&AnyDashboardUsesGroup("hall".to_string()));
    assert_eq!(
        store.delete("hall".to_string(), Some(answer)),
        GroupStep::SaveAndReply(Some(group("hall", 2)))
    );
    assert_eq!(store.groups(), &vec![group("living", 4)]);
    assert_eq!(store.handle(GroupMessage::Get("hall".to_string())), GroupStep::Reply(None));
}

#[test]
fn group_delete_goes_ahead_when_the_dashboards_do_not_answer() {
    let mut store = GroupService::new(Loaded::Parsed(vec![group("living", 4)]));
    assert_eq!(
        store.delete("living".to_string(), None),
        GroupStep::SaveAndReply(Some(group("living", 4)))
    );
    assert!(store.groups().is_empty());
    assert_eq!(store.delete("living".to_string(), Some(false)), GroupStep::Reply(None));
}

#[test]
fn group_reload_answers_with_no_group() {
    let mut store = GroupService::new(Loaded::Malformed);
    assert!(store.groups().is_empty());
    store.handle(GroupMessage::Put("edit".to_string(), group("edit", 1)));
    assert_eq!(store.handle(GroupMessage::Reload), GroupStep::Load);
    assert_eq!(store.reload(Loaded::Parsed(vec![group("disk", 2)])), None);
    assert_eq!(store.groups(), &vec![group("disk", 2)]);
}

fn all_shortcuts(step: ShortcutsStep) -> ShortcutSet {
    match step {
        ShortcutsStep::SaveAndReply(all) => all,
        ShortcutsStep::Reply(all) => all,
        ShortcutsStep::Load => panic!("expected shortcuts"),
    }
}

#[test]
fn shortcut_add_then_get_round_trips() {
    let mut store = ShortcutsService::new(Loaded::Missing);
    let step = store.handle(ShortcutsMessage::Add("on".to_string(), vec![task("light", "1")]));
    assert!(matches!(step, ShortcutsStep::SaveAndReply(_)));
    let found = all_shortcuts(store.handle(ShortcutsMessage::Get("on".to_string())));
    assert_eq!(found.entries().len(), 1);
    assert_eq!(found.get(&"on".to_string()), Some(&vec![task("light", "1")]));
    let none = all_shortcuts(store.handle(ShortcutsMessage::Get("off".to_string())));
    assert!(none.entries().is_empty());
}

#[test]
fn shortcut_add_replaces_and_keeps_the_others() {
    let mut store = ShortcutsService::new(Loaded::Missing);
    store.handle(ShortcutsMessage::Add("on".to_string(), vec![task("light", "1")]));
    store.handle(ShortcutsMessage::Add("off".to_string(), vec![task("light", "0")]));
    let all = all_shortcuts(store.handle(ShortcutsMessage::Add(
        "on".to_string(),
        vec![task("light", "1"), task("fan", "1")],
    )));
    assert_eq!(all.entries().len(), 2);
    assert_eq!(all.get(&"on".to_string()), Some(&vec![task("light", "1"), task("fan", "1")]));
    assert_eq!(all.get(&"off".to_string()), Some(&vec![task("light", "0")]));
}

#[test]
fn shortcut_delete_then_get_is_empty() {
    let mut store = ShortcutsService::new(Loaded::Missing);
    store.handle(ShortcutsMessage::Add("on".to_string(), vec![task("light", "1")]));
    store.handle(ShortcutsMessage::Add("off".to_string(), vec![task("light", "0")]));
    let all = all_shortcuts(store.handle(ShortcutsMessage::Delete("on".to_string())));
    assert_eq!(all.entries().len(), 1);
    assert_eq!(all.get(&"on".to_string()), None);
    let found = all_shortcuts(store.handle(ShortcutsMessage::Get("on".to_string())));
    assert!(found.entries().is_empty());
    let listed = all_shortcuts(store.handle(ShortcutsMessage::List));
    assert!(listed.entries().iter().all(|e| e.name != "on"));
    let again = all_shortcuts(store.handle(ShortcutsMessage::Delete("on".to_string())));
    assert_eq!(again.entries().len(), 1);
}

#[test]
fn shortcut_reload_takes_the_file_and_drops_edits() {
    let mut disk = ShortcutSet::new();
    disk.insert("disk".to_string(), vec![task("t", "p")]);
    let mut store = ShortcutsService::new(Loaded::Malformed);
    store.handle(ShortcutsMessage::Add("edit".to_string(), vec![]));
    assert!(matches!(store.handle(ShortcutsMessage::Reload), ShortcutsStep::Load));
    assert_eq!(store.shortcuts().entries().len(), 1);
    let reply = store.reload(Loaded::Parsed(disk));
    assert_eq!(reply.get(&"disk".to_string()), Some(&vec![task("t", "p")]));
    assert_eq!(reply.get(&"edit".to_string()), None);
    assert_eq!(store.shortcuts().entries().len(), 1);
    assert!(store.reload(Loaded::Missing).entries().is_empty());
}

#[test]
fn shortcut_set_keeps_every_name_once() {
    let mut set = ShortcutSet::new();
    set.insert("a".to_string(), vec![task("1", "")]);
    set.insert("b".to_string(), vec![]);
    set.insert("a".to_string(), vec![task("2", "")]);
    assert_eq!(set.entries().len(), 2);
    assert_eq!(set.entries()[0].name, "a");
    assert_eq!(set.entries()[0].tasks, vec![task("2", "")]);
    let one = set.single("b".to_string());
    assert_eq!(one.entries().len(), 1);
    assert_eq!(one.get(&"b".to_string()), Some(&vec![]));
    assert!(set.single("c".to_string()).entries().is_empty());
    set.remove(&"a".to_string());
    assert_eq!(set.entries().len(), 1);
    assert_eq!(set.clone().get(&"b".to_string()), Some(&vec![]));
    assert!(ShortcutSet::load(Loaded::Missing).entries().is_empty());
}

#[test]
fn sets_under_different_names_leave_each_other_alone() {
    let mut store = DashboardService::new();
    for i in 0..50 {
        let name = format!("d{}", i);
        store.handle(DashboardMessage::Put(name.clone(), dashboard(&name, &[&name])));
    }
    for i in 0..50 {
        let name = format!("d{}", i);
        let found = replied(store.handle(DashboardMessage::Get(name.clone())));
        assert_eq!(found, vec![dashboard(&name, &[&name])]);
    }
    assert_eq!(store.dashboards().len(), 50);
}
