//! The resource stores and the values they keep.
//!
//! A store owns one collection and answers one message at a time. Reading and
//! writing the backing file is the caller's work: a store says when it wants
//! its file read or written, and takes what was read as a plain value.

use vstd::prelude::*;
use crate::services::keyed::{Keyed, Named};
use crate::settings::WebSettings;

pub mod keyed;
pub mod dashboard;
pub mod group;
pub mod shortcuts;
pub mod web_settings;

verus! {

/// `serde_json::Value`, an arbitrary JSON value. The stores carry it and
/// never look inside.
#[verifier::external_type_specification]
#[verifier::external_body]
pub struct ExJsonValue(serde_json::Value);

/// `serde_json::Value::clone`: the copy is the same JSON value as the
/// value it was made from.
pub assume_specification[ <serde_json::Value as Clone>::clone ](value: &serde_json::Value) -> (r:
    serde_json::Value)
    ensures
        r == *value,
;

/// What came of reading a store's backing file.
#[derive(Debug, PartialEq)]
pub enum Loaded<T> {
    /// The file could not be opened.
    Missing,
    /// The file was read but did not parse.
    Malformed,
    /// The file's content.
    Parsed(T),
}

/// Loading a collection and picking a named entry out of it as the
/// interface hands it out: as a collection of one.
pub trait DataReadWrite: Sized {
    /// The collection holds nothing.
    spec fn is_empty_data(&self) -> bool;

    /// The collection is the entry of `all` named `which` alone, or empty
    /// where `all` has no such entry.
    spec fn is_single_of(&self, all: &Self, which: Seq<char>) -> bool;

    /// The collection that a store holds after its file was read: the
    /// file's content, or nothing where the file was missing or malformed.
    fn load(source: Loaded<Self>) -> (r: Self)
        ensures
            match source {
                Loaded::Parsed(data) => r == data,
                _ => r.is_empty_data(),
            },
    ;

    /// The entry named `which` as a collection of its own.
    fn single(&self, which: String) -> (r: Self)
        ensures
            r.is_single_of(self, which@),
    ;
}

/// One action of a shortcut: a message to publish.
#[derive(Debug, PartialEq)]
pub struct ShortcutData {
    pub topic: String,
    pub payload: String,
    pub options: serde_json::Value,
}

/// The model of a [`ShortcutData`].
pub struct ShortcutDataView {
    pub topic: Seq<char>,
    pub payload: Seq<char>,
    pub options: serde_json::Value,
}

impl View for ShortcutData {
    type V = ShortcutDataView;

    open spec fn view(&self) -> ShortcutDataView {
        ShortcutDataView { topic: self.topic@, payload: self.payload@, options: self.options }
    }
}

impl DeepView for ShortcutData {
    type V = ShortcutDataView;

    open spec fn deep_view(&self) -> ShortcutDataView {
        self@
    }
}

impl Clone for ShortcutData {
    fn clone(&self) -> (r: Self)
        ensures
            r@ == self@,
    {
        ShortcutData {
            topic: self.topic.clone(),
            payload: self.payload.clone(),
            options: self.options.clone(),
        }
    }
}

/// The messages on the settings themselves.
#[derive(Debug)]
pub enum WebSettingsMessage {
    /// Gets the settings as they are held.
    Get,
    /// Reads the settings anew from their file.
    Reload,
}

/// The messages on the settings as a script for the frontend.
#[derive(Debug)]
pub enum WebSettingsCompiledMessage {
    /// Gets the script as it was last compiled.
    Get,
    /// Compiles the script anew from the settings held.
    Reload,
}

/// What a [`WebSettingsService`] asks of its caller in answer to a
/// [`WebSettingsMessage`].
#[derive(Debug, PartialEq)]
pub enum WebSettingsStep {
    /// Read the file and hand the outcome to `reload`.
    Load,
    /// Answer with these settings.
    Reply(WebSettings),
}

/// What a [`WebSettingsService`] asks of its caller in answer to a
/// [`WebSettingsCompiledMessage`].
#[derive(Debug, PartialEq)]
pub enum CompiledSettingsStep {
    /// Render these settings as JSON and hand the text to
    /// `compile_settings`.
    Render(WebSettings),
    /// Answer with this script.
    Reply(String),
}

/// Owns the settings of the frontend and their rendering as a script.
pub struct WebSettingsService {
    settings: WebSettings,
    compiled_settings: String,
}

/// A shortcut: a name and the actions that it stands for, in their order.
#[derive(Debug, PartialEq)]
pub struct ShortcutEntry {
    pub name: String,
    pub tasks: Vec<ShortcutData>,
}

/// The model of a [`ShortcutEntry`].
pub struct ShortcutEntryView {
    pub name: Seq<char>,
    pub tasks: Seq<ShortcutDataView>,
}

impl View for ShortcutEntry {
    type V = ShortcutEntryView;

    open spec fn view(&self) -> ShortcutEntryView {
        ShortcutEntryView { name: self.name@, tasks: self.tasks.deep_view() }
    }
}

impl DeepView for ShortcutEntry {
    type V = ShortcutEntryView;

    open spec fn deep_view(&self) -> ShortcutEntryView {
        self@
    }
}

impl Named for ShortcutEntryView {
    open spec fn key(&self) -> Seq<char> {
        self.name
    }
}

impl Keyed for ShortcutEntry {
    fn name(&self) -> (r: &String) {
        &self.name
    }
}

impl Clone for ShortcutEntry {
    fn clone(&self) -> (r: Self)
        ensures
            r@ == self@,
    {
        let tasks = self.tasks.clone();
        assert(tasks.deep_view() =~= self.tasks.deep_view());
        ShortcutEntry { name: self.name.clone(), tasks }
    }
}

/// The shortcuts by name: no two entries share a name.
#[derive(Debug)]
pub struct ShortcutSet {
    entries: Vec<ShortcutEntry>,
}

/// The messages that a [`ShortcutsService`] answers.
#[derive(Debug)]
pub enum ShortcutsMessage {
    /// Lists all shortcuts.
    List,
    /// Reads the shortcuts anew from their file.
    Reload,
    /// Gets the single shortcut.
    Get(String),
    /// Puts the given actions under the given name.
    Add(String, Vec<ShortcutData>),
    /// Deletes the shortcut with the given name.
    Delete(String),
}

/// What a [`ShortcutsService`] asks of its caller in answer to a message.
#[derive(Debug)]
pub enum ShortcutsStep {
    /// Read the file and hand the outcome to `reload`.
    Load,
    /// Answer with these shortcuts.
    Reply(ShortcutSet),
    /// Write the store's shortcuts to the file, then answer with these.
    SaveAndReply(ShortcutSet),
}

/// Owns the shortcuts.
pub struct ShortcutsService {
    shortcuts: ShortcutSet,
}

/// A dashboard: a name and the names of the groups it shows.
#[derive(Debug, PartialEq)]
pub struct DashboardData {
    pub name: String,
    pub groups: Vec<String>,
}

/// The model of a [`DashboardData`].
pub struct DashboardDataView {
    pub name: Seq<char>,
    pub groups: Seq<Seq<char>>,
}

impl View for DashboardData {
    type V = DashboardDataView;

    open spec fn view(&self) -> DashboardDataView {
        DashboardDataView { name: self.name@, groups: self.groups.deep_view() }
    }
}

impl DeepView for DashboardData {
    type V = DashboardDataView;

    open spec fn deep_view(&self) -> DashboardDataView {
        self@
    }
}

impl Named for DashboardDataView {
    open spec fn key(&self) -> Seq<char> {
        self.name
    }
}

impl Keyed for DashboardData {
    fn name(&self) -> (r: &String) {
        &self.name
    }
}

impl Clone for DashboardData {
    fn clone(&self) -> (r: Self)
        ensures
            r@ == self@,
    {
        let groups = self.groups.clone();
        assert(groups.deep_view() =~= self.groups.deep_view());
        DashboardData { name: self.name.clone(), groups }
    }
}

/// One item of a group.
#[derive(Debug, PartialEq)]
pub struct GroupItemData {
    pub name: String,
    pub item_type: String,
    pub data: serde_json::Value,
}

/// The model of a [`GroupItemData`].
pub struct GroupItemDataView {
    pub name: Seq<char>,
    pub item_type: Seq<char>,
    pub data: serde_json::Value,
}

impl View for GroupItemData {
    type V = GroupItemDataView;

    open spec fn view(&self) -> GroupItemDataView {
        GroupItemDataView { name: self.name@, item_type: self.item_type@, data: self.data }
    }
}

impl DeepView for GroupItemData {
    type V = GroupItemDataView;

    open spec fn deep_view(&self) -> GroupItemDataView {
        self@
    }
}

impl Clone for GroupItemData {
    fn clone(&self) -> (r: Self)
        ensures
            r@ == self@,
    {
        GroupItemData {
            name: self.name.clone(),
            item_type: self.item_type.clone(),
            data: self.data.clone(),
        }
    }
}

/// A group of a dashboard.
#[derive(Debug, PartialEq)]
pub struct GroupData {
    pub name: String,
    pub size: i32,
    pub order: i32,
    pub items: Vec<GroupItemData>,
}

/// The model of a [`GroupData`].
pub struct GroupDataView {
    pub name: Seq<char>,
    pub size: i32,
    pub order: i32,
    pub items: Seq<GroupItemDataView>,
}

impl View for GroupData {
    type V = GroupDataView;

    open spec fn view(&self) -> GroupDataView {
        GroupDataView {
            name: self.name@,
            size: self.size,
            order: self.order,
            items: self.items.deep_view(),
        }
    }
}

impl DeepView for GroupData {
    type V = GroupDataView;

    open spec fn deep_view(&self) -> GroupDataView {
        self@
    }
}

impl Named for GroupDataView {
    open spec fn key(&self) -> Seq<char> {
        self.name
    }
}

impl Keyed for GroupData {
    fn name(&self) -> (r: &String) {
        &self.name
    }
}

impl Clone for GroupData {
    fn clone(&self) -> (r: Self)
        ensures
            r@ == self@,
    {
        let items = self.items.clone();
        assert(items.deep_view() =~= self.items.deep_view());
        GroupData { name: self.name.clone(), size: self.size, order: self.order, items }
    }
}

/// The messages that a [`DashboardService`] answers.
#[derive(Debug, PartialEq)]
pub enum DashboardMessage {
    /// Lists all dashboards.
    List,
    /// Reads the dashboards anew from their file.
    Reload,
    /// Gets a single dashboard.
    Get(String),
    /// Puts the given dashboard in the place of the one with the given name.
    Put(String, DashboardData),
    /// Deletes the dashboard with the given name.
    Delete(String),
}

/// What a [`DashboardService`] asks of its caller in answer to a message.
#[derive(Debug, PartialEq)]
pub enum DashboardStep {
    /// Read the file and hand the outcome to `reload`.
    Load,
    /// Answer with these dashboards.
    Reply(Vec<DashboardData>),
    /// Write the store's dashboards to the file, then answer with these.
    SaveAndReply(Vec<DashboardData>),
}

/// Asks whether any dashboard shows the group with the given name.
#[derive(Debug, PartialEq)]
pub struct AnyDashboardUsesGroup(pub String);

/// Owns the dashboards.
pub struct DashboardService {
    dashboards: Vec<DashboardData>,
}

/// The messages that a [`GroupService`] answers.
#[derive(Debug, PartialEq)]
pub enum GroupMessage {
    /// Reads the groups anew from their file.
    Reload,
    /// Gets a single group.
    Get(String),
    /// Puts the given group in the place of the one with the given name.
    Put(String, GroupData),
    /// Deletes the group with the given name, unless a dashboard shows it.
    Delete(String),
}

/// What a [`GroupService`] asks of its caller in answer to a message.
#[derive(Debug, PartialEq)]
pub enum GroupStep {
    /// Read the file and hand the outcome to `reload`.
    Load,
    /// Put this question to the dashboard store and hand the answer to
    /// `delete`.
    AskDashboards(AnyDashboardUsesGroup),
    /// Answer with this group, or with none.
    Reply(Option<GroupData>),
    /// Write the store's groups to the file, then answer with this group.
    SaveAndReply(Option<GroupData>),
}

/// Owns the groups and their items.
pub struct GroupService {
    groups: Vec<GroupData>,
}

} // verus!
