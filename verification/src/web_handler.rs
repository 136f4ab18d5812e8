//! The rules by which a request is answered.
//!
//! The server around this module receives requests and sends answers; what
//! is asked of a store for a request, what stands in for an answer that did
//! not come, which file a path names and which headers go out is decided
//! here.

use vstd::prelude::*;
use vstd::string::*;
use crate::mime_type_mapper::{MimeTypeMapper, MimeTypeMatcher};
use crate::services::{
    DashboardData, DashboardMessage, GroupData, GroupMessage, ShortcutData, ShortcutDataView,
    ShortcutSet, ShortcutsMessage,
};
use crate::settings::{AppSettings, ServerType, ServerTypeView};
use crate::text::{contains_from, equal, starts_with};

verus! {

/// The request methods that the endpoints tell apart.
#[derive(Clone, Copy, Debug, PartialEq, Eq)]
pub enum Method {
    Get,
    Post,
    Delete,
    Options,
    /// Any other method.
    Other,
}

/// The endpoint that a request reaches. An endpoint for a named entry
/// carries the name as the path spells it, before any decoding.
#[derive(Debug, PartialEq)]
pub enum Endpoint {
    /// The settings script.
    SettingsJs,
    ShortcutsList,
    ShortcutGet(String),
    ShortcutPost(String),
    ShortcutDelete(String),
    DashboardList,
    DashboardGet(String),
    DashboardPost(String),
    DashboardDelete(String),
    GroupGet(String),
    GroupPost(String),
    GroupDelete(String),
    /// The answer to a preflight: an empty answer with status 200.
    Preflight,
    /// No endpoint: the request goes to the proxy or to the files.
    Fallback,
}

/// The model of an [`Endpoint`].
pub enum EndpointView {
    SettingsJs,
    ShortcutsList,
    ShortcutGet(Seq<char>),
    ShortcutPost(Seq<char>),
    ShortcutDelete(Seq<char>),
    DashboardList,
    DashboardGet(Seq<char>),
    DashboardPost(Seq<char>),
    DashboardDelete(Seq<char>),
    GroupGet(Seq<char>),
    GroupPost(Seq<char>),
    GroupDelete(Seq<char>),
    Preflight,
    Fallback,
}

impl View for Endpoint {
    type V = EndpointView;

    open spec fn view(&self) -> EndpointView {
        match self {
            Endpoint::SettingsJs => EndpointView::SettingsJs,
            Endpoint::ShortcutsList => EndpointView::ShortcutsList,
            Endpoint::ShortcutGet(name) => EndpointView::ShortcutGet(name@),
            Endpoint::ShortcutPost(name) => EndpointView::ShortcutPost(name@),
            Endpoint::ShortcutDelete(name) => EndpointView::ShortcutDelete(name@),
            Endpoint::DashboardList => EndpointView::DashboardList,
            Endpoint::DashboardGet(name) => EndpointView::DashboardGet(name@),
            Endpoint::DashboardPost(name) => EndpointView::DashboardPost(name@),
            Endpoint::DashboardDelete(name) => EndpointView::DashboardDelete(name@),
            Endpoint::GroupGet(name) => EndpointView::GroupGet(name@),
            Endpoint::GroupPost(name) => EndpointView::GroupPost(name@),
            Endpoint::GroupDelete(name) => EndpointView::GroupDelete(name@),
            Endpoint::Preflight => EndpointView::Preflight,
            Endpoint::Fallback => EndpointView::Fallback,
        }
    }
}

/// The name that a path gives under a collection: what follows the
/// prefix, where that is one segment, not empty and without a slash.
pub open spec fn named_under(prefix: Seq<char>, path: Seq<char>) -> Option<Seq<char>> {
    let rest = path.subrange(prefix.len() as int, path.len() as int);
    if prefix.is_prefix_of(path) && rest.len() > 0 && !rest.contains('/') {
        Some(rest)
    } else {
        None
    }
}

/// The collection that a path addresses, and the name it gives there.
pub enum Target {
    Shortcut(Seq<char>),
    Dashboard(Seq<char>),
    Group(Seq<char>),
    Nothing,
}

/// The named entry that a path addresses.
pub open spec fn target_of(path: Seq<char>) -> Target {
    if named_under("/api/shortcut/"@, path) is Some {
        Target::Shortcut(named_under("/api/shortcut/"@, path)->Some_0)
    } else if named_under("/api/dashboard/"@, path) is Some {
        Target::Dashboard(named_under("/api/dashboard/"@, path)->Some_0)
    } else if named_under("/api/group/"@, path) is Some {
        Target::Group(named_under("/api/group/"@, path)->Some_0)
    } else {
        Target::Nothing
    }
}

/// The endpoint that a request with the given method and path reaches.
///
/// The settings script and the lists answer to `GET` on their exact path.
/// A named shortcut, dashboard or group answers to `GET`, `POST` and
/// `DELETE`. `OPTIONS` on any path under `/api/` is a preflight. Whatever
/// else comes is for the fallback.
pub open spec fn endpoint_of(method: Method, path: Seq<char>) -> EndpointView {
    match method {
        Method::Get => if path == "/settings.js"@ {
            EndpointView::SettingsJs
        } else if path == "/api/shortcut"@ {
            EndpointView::ShortcutsList
        } else if path == "/api/dashboard"@ {
            EndpointView::DashboardList
        } else {
            match target_of(path) {
                Target::Shortcut(name) => EndpointView::ShortcutGet(name),
                Target::Dashboard(name) => EndpointView::DashboardGet(name),
                Target::Group(name) => EndpointView::GroupGet(name),
                Target::Nothing => EndpointView::Fallback,
            }
        },
        Method::Post => match target_of(path) {
            Target::Shortcut(name) => EndpointView::ShortcutPost(name),
            Target::Dashboard(name) => EndpointView::DashboardPost(name),
            Target::Group(name) => EndpointView::GroupPost(name),
            Target::Nothing => EndpointView::Fallback,
        },
        Method::Delete => match target_of(path) {
            Target::Shortcut(name) => EndpointView::ShortcutDelete(name),
            Target::Dashboard(name) => EndpointView::DashboardDelete(name),
            Target::Group(name) => EndpointView::GroupDelete(name),
            Target::Nothing => EndpointView::Fallback,
        },
        Method::Options => if "/api/"@.is_prefix_of(path) {
            EndpointView::Preflight
        } else {
            EndpointView::Fallback
        },
        Method::Other => EndpointView::Fallback,
    }
}

/// The name that the path gives under the prefix, if it gives one.
fn name_under(prefix: &str, path: &str) -> (r: Option<String>)
    ensures
        match r {
            Some(name) => named_under(prefix@, path@) == Some(name@),
            None => named_under(prefix@, path@) is None,
        },
{
    if !starts_with(path, prefix) {
        return None;
    }
    let start: usize = prefix.unicode_len();
    let end: usize = path.unicode_len();
    if start == end || contains_from(path, start, '/') {
        return None;
    }
    Some(String::from_str(path.substring_char(start, end)))
}

/// The kinds of endpoint for a named entry.
enum Action {
    Get,
    Post,
    Delete,
}

/// The endpoint for a named entry that the path addresses.
fn named_endpoint(action: Action, path: &str) -> (r: Endpoint)
    ensures
        r@ == match target_of(path@) {
            Target::Shortcut(name) => match action {
                Action::Get => EndpointView::ShortcutGet(name),
                Action::Post => EndpointView::ShortcutPost(name),
                Action::Delete => EndpointView::ShortcutDelete(name),
            },
            Target::Dashboard(name) => match action {
                Action::Get => EndpointView::DashboardGet(name),
                Action::Post => EndpointView::DashboardPost(name),
                Action::Delete => EndpointView::DashboardDelete(name),
            },
            Target::Group(name) => match action {
                Action::Get => EndpointView::GroupGet(name),
                Action::Post => EndpointView::GroupPost(name),
                Action::Delete => EndpointView::GroupDelete(name),
            },
            Target::Nothing => EndpointView::Fallback,
        },
{
    if let Some(name) = name_under("/api/shortcut/", path) {
        match action {
            Action::Get => Endpoint::ShortcutGet(name),
            Action::Post => Endpoint::ShortcutPost(name),
            Action::Delete => Endpoint::ShortcutDelete(name),
        }
    } else if let Some(name) = name_under("/api/dashboard/", path) {
        match action {
            Action::Get => Endpoint::DashboardGet(name),
            Action::Post => Endpoint::DashboardPost(name),
            Action::Delete => Endpoint::DashboardDelete(name),
        }
    } else if let Some(name) = name_under("/api/group/", path) {
        match action {
            Action::Get => Endpoint::GroupGet(name),
            Action::Post => Endpoint::GroupPost(name),
            Action::Delete => Endpoint::GroupDelete(name),
        }
    } else {
        Endpoint::Fallback
    }
}

/// Finds the endpoint that a request reaches.
pub fn route(method: Method, path: &str) -> (r: Endpoint)
    ensures
        r@ == endpoint_of(method, path@),
{
    match method {
        Method::Get => {
            if equal(path, "/settings.js") {
                Endpoint::SettingsJs
            } else if equal(path, "/api/shortcut") {
                Endpoint::ShortcutsList
            } else if equal(path, "/api/dashboard") {
                Endpoint::DashboardList
            } else {
                named_endpoint(Action::Get, path)
            }
        },
        Method::Post => named_endpoint(Action::Post, path),
        Method::Delete => named_endpoint(Action::Delete, path),
        Method::Options => {
            if starts_with(path, "/api/") {
                Endpoint::Preflight
            } else {
                Endpoint::Fallback
            }
        },
        Method::Other => Endpoint::Fallback,
    }
}

/// What percent-decoding makes of a path parameter: every `%` that two
/// hexadecimal digits follow gives the byte they spell, and the bytes are read
/// as UTF-8, with the replacement character for what is not.
pub uninterp spec fn percent_decoded(raw: Seq<char>) -> Seq<char>;

/// `percent_encoding::percent_decode_str` followed by `decode_utf8_lossy`:
/// the result is the percent-decoded text of `raw`, a function of `raw`
/// alone.
#[verifier::external_body]
fn percent_decode(raw: &str) -> (r: String)
    ensures
        r@ == percent_decoded(raw@),
{
    percent_encoding::percent_decode_str(raw).decode_utf8_lossy().to_string()
}

/// The message for a request to list the shortcuts.
pub fn api_shortcuts_list() -> (r: ShortcutsMessage)
    ensures
        r is List,
{
    ShortcutsMessage::List
}

/// The message for a request to get the shortcut that the path names.
pub fn api_shortcut_get(name: &str) -> (r: ShortcutsMessage)
    ensures
        r is Get,
        r->Get_0@ == percent_decoded(name@),
{
    ShortcutsMessage::Get(percent_decode(name))
}

/// The message for a request to put the body's actions under the name that
/// the path gives.
pub fn api_shortcut_post(name: &str, body: Vec<ShortcutData>) -> (r: ShortcutsMessage)
    ensures
        r is Add,
        r->Add_0@ == percent_decoded(name@),
        r->Add_1 == body,
{
    ShortcutsMessage::Add(percent_decode(name), body)
}

/// The message for a request to delete the shortcut that the path names.
pub fn api_shortcut_delete(name: &str) -> (r: ShortcutsMessage)
    ensures
        r is Delete,
        r->Delete_0@ == percent_decoded(name@),
{
    ShortcutsMessage::Delete(percent_decode(name))
}

/// The message for a request to list the dashboards.
pub fn api_dashboard_list() -> (r: DashboardMessage)
    ensures
        r is List,
{
    DashboardMessage::List
}

/// The message for a request to get the dashboard that the path names.
pub fn api_dashboard_get(name: &str) -> (r: DashboardMessage)
    ensures
        r is Get,
        r->Get_0@ == percent_decoded(name@),
{
    DashboardMessage::Get(percent_decode(name))
}

/// The message for a request to put the body's dashboard under the name
/// that the path gives.
pub fn api_dashboard_post(name: &str, body: DashboardData) -> (r: DashboardMessage)
    ensures
        r is Put,
        r->Put_0@ == percent_decoded(name@),
        r->Put_1 == body,
{
    DashboardMessage::Put(percent_decode(name), body)
}

/// The message for a request to delete the dashboard that the path names.
pub fn api_dashboard_delete(name: &str) -> (r: DashboardMessage)
    ensures
        r is Delete,
        r->Delete_0@ == percent_decoded(name@),
{
    DashboardMessage::Delete(percent_decode(name))
}

/// The message for a request to get the group that the path names.
pub fn api_group_get(name: &str) -> (r: GroupMessage)
    ensures
        r is Get,
        r->Get_0@ == percent_decoded(name@),
{
    GroupMessage::Get(percent_decode(name))
}

/// The message for a request to put the body's group under the name that
/// the path gives.
pub fn api_group_post(name: &str, body: GroupData) -> (r: GroupMessage)
    ensures
        r is Put,
        r->Put_0@ == percent_decoded(name@),
        r->Put_1 == body,
{
    GroupMessage::Put(percent_decode(name), body)
}

/// The message for a request to delete the group that the path names.
pub fn api_group_delete(name: &str) -> (r: GroupMessage)
    ensures
        r is Delete,
        r->Delete_0@ == percent_decoded(name@),
{
    GroupMessage::Delete(percent_decode(name))
}

/// The shortcuts to answer with: those the store sent, or none where the
/// store did not answer.
pub fn shortcuts_reply(reply: Option<ShortcutSet>) -> (r: ShortcutSet)
    ensures
        match reply {
            Some(shortcuts) => r == shortcuts,
            None => r@ == Map::<Seq<char>, Seq<ShortcutDataView>>::empty(),
        },
{
    match reply {
        Some(shortcuts) => shortcuts,
        None => ShortcutSet::new(),
    }
}

/// The dashboards to answer with: those the store sent, or none where the
/// store did not answer.
pub fn dashboards_reply(reply: Option<Vec<DashboardData>>) -> (r: Vec<DashboardData>)
    ensures
        match reply {
            Some(dashboards) => r == dashboards,
            None => r@.len() == 0,
        },
{
    match reply {
        Some(dashboards) => dashboards,
        None => Vec::new(),
    }
}

/// The group to answer with: the one the store sent, or none where the
/// store sent none or did not answer.
pub fn group_reply(reply: Option<Option<GroupData>>) -> (r: Option<GroupData>)
    ensures
        match reply {
            Some(group) => r == group,
            None => r is None,
        },
{
    match reply {
        Some(group) => group,
        None => None,
    }
}

/// The body of an answer.
#[derive(Debug, PartialEq)]
pub enum Body {
    Text(String),
    Bytes(Vec<u8>),
}

/// An answer: its status, its content type if it has one, and its body.
#[derive(Debug, PartialEq)]
pub struct HttpReply {
    pub status: u16,
    pub content_type: Option<String>,
    pub body: Body,
}

/// The answer to a request for the settings script: the script as
/// JavaScript, or a server error where the store did not answer.
pub fn settings_js(reply: Option<String>) -> (r: HttpReply)
    ensures
        match reply {
            Some(script) => r.status == 200 && r.content_type is Some
                && r.content_type->Some_0@ == "application/javascript"@ && r.body
                == Body::Text(script),
            None => r.status == 500 && r.content_type is None && r.body is Text
                && r.body->Text_0@
                == "Server error occurred. For more information ask the system administrator"@,
        },
{
    match reply {
        Some(script) => HttpReply {
            status: 200,
            content_type: Some(String::from_str("application/javascript")),
            body: Body::Text(script),
        },
        None => HttpReply {
            status: 500,
            content_type: None,
            body: Body::Text(
                String::from_str(
                    "Server error occurred. For more information ask the system administrator",
                ),
            ),
        },
    }
}

/// `s` without one slash at its end.
pub open spec fn strip_trailing_slash(s: Seq<char>) -> Seq<char> {
    if s.len() > 0 && s.last() == '/' {
        s.drop_last()
    } else {
        s
    }
}

/// `s` without one slash at its start.
pub open spec fn strip_leading_slash(s: Seq<char>) -> Seq<char> {
    if s.len() > 0 && s[0] == '/' {
        s.drop_first()
    } else {
        s
    }
}

/// The file that a request path names under a root directory.
pub open spec fn static_path(root: Seq<char>, request_path: Seq<char>) -> Seq<char> {
    strip_trailing_slash(root).push('/') + strip_leading_slash(request_path)
}

/// The file to read for a request path under a root directory.
pub fn static_file_path(public_path: &str, request_path: &str) -> (r: String)
    ensures
        r@ == static_path(public_path@, request_path@),
{
    let root_len: usize = public_path.unicode_len();
    let root_end: usize = if root_len > 0 && public_path.get_char(root_len - 1) == '/' {
        root_len - 1
    } else {
        root_len
    };
    let path_len: usize = request_path.unicode_len();
    let path_start: usize = if path_len > 0 && request_path.get_char(0) == '/' {
        1
    } else {
        0
    };
    let mut r = String::from_str(public_path.substring_char(0, root_end));
    r.append("/");
    r.append(request_path.substring_char(path_start, path_len));
    proof {
        reveal_strlit("/");
        assert("/"@ =~= Seq::<char>::empty().push('/'));
        assert(public_path@.subrange(0, root_end as int) =~= strip_trailing_slash(public_path@));
        assert(request_path@.subrange(path_start as int, path_len as int) =~= strip_leading_slash(
            request_path@,
        ));
        assert(r@ =~= static_path(public_path@, request_path@));
    }
    r
}

/// The answer to a request for a file: the content under the resolved
/// content type, or "not found" where the file could not be read.
pub fn serve_file(mime_type: String, content: Option<Vec<u8>>) -> (r: HttpReply)
    ensures
        match content {
            Some(bytes) => r.status == 200 && r.content_type == Some(mime_type) && r.body
                == Body::Bytes(bytes),
            None => r.status == 404 && r.content_type is None && r.body is Text
                && r.body->Text_0@ == "File not found."@,
        },
{
    match content {
        Some(bytes) => HttpReply {
            status: 200,
            content_type: Some(mime_type),
            body: Body::Bytes(bytes),
        },
        None => HttpReply {
            status: 404,
            content_type: None,
            body: Body::Text(String::from_str("File not found.")),
        },
    }
}

/// `s` without the slashes at its end.
pub open spec fn trim_trailing_slashes(s: Seq<char>) -> Seq<char>
    decreases s.len(),
{
    if s.len() > 0 && s.last() == '/' {
        trim_trailing_slashes(s.drop_last())
    } else {
        s
    }
}

/// The address to which a request is forwarded: the base address, without
/// slashes at its end, and the request's own path and query behind it.
pub open spec fn proxy_url(base_url: Seq<char>, uri: Seq<char>) -> Seq<char> {
    trim_trailing_slashes(base_url) + uri
}

/// The address to which a request is forwarded. A base address that does
/// not end in a slash is taken as it stands.
pub fn proxy_target(base_url: &str, uri: &str) -> (r: String)
    ensures
        r@ == proxy_url(base_url@, uri@),
        (base_url@.len() == 0 || base_url@.last() != '/') ==> r@ == base_url@ + uri@,
{
    let mut end: usize = base_url.unicode_len();
    proof {
        assert(base_url@.subrange(0, end as int) =~= base_url@);
    }
    while end > 0 && base_url.get_char(end - 1) == '/'
        invariant
            end <= base_url@.len(),
            trim_trailing_slashes(base_url@) == trim_trailing_slashes(
                base_url@.subrange(0, end as int),
            ),
        decreases end,
    {
        proof {
            let cut = base_url@.subrange(0, end as int);
            assert(cut.drop_last() =~= base_url@.subrange(0, end - 1));
        }
        end = end - 1;
    }
    let mut r = String::from_str(base_url.substring_char(0, end));
    r.append(uri);
    r
}

/// The most bytes of an upstream answer's body that are taken up.
pub const PROXY_BODY_LIMIT: usize = 10485760;

/// A header of a request or an answer.
#[derive(Debug, PartialEq)]
pub struct Header {
    pub name: String,
    pub value: Vec<u8>,
}

/// The model of a [`Header`].
pub struct HeaderView {
    pub name: Seq<char>,
    pub value: Seq<u8>,
}

impl View for Header {
    type V = HeaderView;

    open spec fn view(&self) -> HeaderView {
        HeaderView { name: self.name@, value: self.value@ }
    }
}

impl DeepView for Header {
    type V = HeaderView;

    open spec fn deep_view(&self) -> HeaderView {
        self@
    }
}

impl Clone for Header {
    fn clone(&self) -> (r: Self)
        ensures
            r@ == self@,
    {
        Header { name: self.name.clone(), value: self.value.clone() }
    }
}

/// Whether a header passes through the proxy: all but `connection` do.
pub open spec fn is_relayed(header: HeaderView) -> bool {
    header.name != "connection"@
}

/// The headers that pass through the proxy, in their order.
pub open spec fn relayed(headers: Seq<HeaderView>) -> Seq<HeaderView> {
    headers.filter(|header: HeaderView| is_relayed(header))
}

/// The headers that pass through the proxy: all but `connection`, in
/// their order. Names are compared as they stand, in lower case.
pub fn relay_headers(headers: &Vec<Header>) -> (r: Vec<Header>)
    ensures
        r.deep_view() == relayed(headers.deep_view()),
        forall|i: int| 0 <= i < r@.len() ==> (#[trigger] r@[i]).name@ != "connection"@,
{
    let connection = String::from_str("connection");
    let mut out: Vec<Header> = Vec::new();
    let mut i: usize = 0;
    proof {
        reveal(Seq::filter);
        assert(headers.deep_view().take(0) =~= Seq::<HeaderView>::empty());
        assert(out.deep_view() =~= Seq::<HeaderView>::empty());
    }
    while i < headers.len()
        invariant
            i <= headers@.len(),
            connection@ == "connection"@,
            out.deep_view() == relayed(headers.deep_view().take(i as int)),
            forall|k: int| 0 <= k < out@.len() ==> (#[trigger] out@[k]).name@ != "connection"@,
        decreases headers@.len() - i,
    {
        let ghost before = headers.deep_view().take(i as int);
        let ghost old_out = out.deep_view();
        proof {
            assert(headers.deep_view().take(i + 1) =~= before.push(headers@[i as int]@));
            before.lemma_filter_push(
                headers@[i as int]@,
                |header: HeaderView| is_relayed(header),
            );
        }
        if headers[i].name != connection {
            out.push(headers[i].clone());
            assert(out.deep_view() =~= old_out.push(headers@[i as int]@));
        }
        i = i + 1;
    }
    proof {
        assert(headers.deep_view().take(headers@.len() as int) =~= headers.deep_view());
    }
    out
}

/// The headers that every answer carries, as pairs of name and value, for
/// a request of the given origin.
pub open spec fn cors_table(origin: Seq<char>) -> Seq<(Seq<char>, Seq<char>)> {
    Seq::empty()
        .push(("access-control-allow-headers"@, "Authorization, Content-Type, Cookie"@))
        .push(("access-control-allow-methods"@, "GET, POST, PUT, PATCH, DELETE, CALL"@))
        .push(("access-control-allow-origin"@, origin))
        .push(("access-control-allow-credentials"@, "true"@))
}

/// The origin to echo: the request's, or the empty text where the request
/// names none.
pub open spec fn origin_or_empty(origin: Option<&str>) -> Seq<char> {
    match origin {
        Some(value) => value@,
        None => Seq::empty(),
    }
}

/// The headers that every answer carries: the request's origin is echoed
/// as it came, empty where the request had none, beside the fixed lists
/// of allowed headers and methods and the leave to send credentials.
pub fn cors_headers(origin: Option<&str>) -> (r: Vec<(String, String)>)
    ensures
        r@.len() == 4,
        forall|i: int|
            0 <= i < 4 ==> (#[trigger] r@[i]).0@ == cors_table(origin_or_empty(origin))[i].0
                && r@[i].1@ == cors_table(origin_or_empty(origin))[i].1,
        r@[2].1@ == origin_or_empty(origin),
{
    let echoed = match origin {
        Some(value) => String::from_str(value),
        None => String::new(),
    };
    let mut r: Vec<(String, String)> = Vec::new();
    r.push(
        (
            String::from_str("access-control-allow-headers"),
            String::from_str("Authorization, Content-Type, Cookie"),
        ),
    );
    r.push(
        (
            String::from_str("access-control-allow-methods"),
            String::from_str("GET, POST, PUT, PATCH, DELETE, CALL"),
        ),
    );
    r.push((String::from_str("access-control-allow-origin"), echoed));
    r.push((String::from_str("access-control-allow-credentials"), String::from_str("true")));
    r
}

/// What the server does for a path that no endpoint claims.
#[derive(Debug, PartialEq)]
pub enum Fallback {
    /// Forward the request to this address.
    Forward(String),
    /// Read this file and answer with it under this content type.
    ReadFile(String, String),
}

/// The file to read for a request path under a root directory, and the
/// content type under which to answer with it.
pub fn default_serve<M: MimeTypeMatcher>(
    request_path: &str,
    public_path: &str,
    mime_type_mapper: &MimeTypeMapper<M>,
) -> (r: (String, String))
    ensures
        r.0@ == static_path(public_path@, request_path@),
        mime_type_mapper.resolves_to(r.0@, r.1@),
{
    let read_path = static_file_path(public_path, request_path);
    let mime_type = mime_type_mapper.match_file(read_path.as_str());
    (read_path, mime_type)
}

/// Decides by the server's mode how a path that no endpoint claims is
/// answered: by forwarding the request as it came, or by a file under the
/// root directory.
pub fn default_service<M: MimeTypeMatcher>(
    uri: &str,
    request_path: &str,
    mime_type_mapper: &MimeTypeMapper<M>,
    settings: &AppSettings,
) -> (r: Fallback)
    ensures
        match settings.server_type@ {
            ServerTypeView::Proxy(base_url) => r is Forward && r->Forward_0@ == proxy_url(
                base_url,
                uri@,
            ),
            ServerTypeView::File(root) => r is ReadFile && r->ReadFile_0@ == static_path(
                root,
                request_path@,
            ) && mime_type_mapper.resolves_to(r->ReadFile_0@, r->ReadFile_1@),
        },
{
    match &settings.server_type {
        ServerType::Proxy(base_url) => Fallback::Forward(proxy_target(base_url.as_str(), uri)),
        ServerType::File(public_path) => {
            let (read_path, mime_type) = default_serve(
                request_path,
                public_path.as_str(),
                mime_type_mapper,
            );
            Fallback::ReadFile(read_path, mime_type)
        },
    }
}

} // verus!
