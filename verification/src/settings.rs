//! The settings of the frontend and of the process.

use vstd::prelude::*;
use vstd::string::*;
use crate::services::Loaded;

verus! {

/// What the frontend needs to reach the broker and the backend.
#[derive(Debug, PartialEq)]
pub struct WebSettings {
    pub mqtt_url: String,
    pub mqtt_username: String,
    pub mqtt_password: String,
    pub backend_url: String,
    pub backend_user: String,
    pub backend_pass: String,
}

/// The model of a [`WebSettings`].
pub struct WebSettingsView {
    pub mqtt_url: Seq<char>,
    pub mqtt_username: Seq<char>,
    pub mqtt_password: Seq<char>,
    pub backend_url: Seq<char>,
    pub backend_user: Seq<char>,
    pub backend_pass: Seq<char>,
}

impl View for WebSettings {
    type V = WebSettingsView;

    open spec fn view(&self) -> WebSettingsView {
        WebSettingsView {
            mqtt_url: self.mqtt_url@,
            mqtt_username: self.mqtt_username@,
            mqtt_password: self.mqtt_password@,
            backend_url: self.backend_url@,
            backend_user: self.backend_user@,
            backend_pass: self.backend_pass@,
        }
    }
}

/// The settings that hold where the file says nothing: the local broker
/// for both addresses, and no credentials.
pub open spec fn default_web_settings() -> WebSettingsView {
    WebSettingsView {
        mqtt_url: "ws://127.0.0.1:9001"@,
        mqtt_username: Seq::empty(),
        mqtt_password: Seq::empty(),
        backend_url: "ws://127.0.0.1:9001"@,
        backend_user: Seq::empty(),
        backend_pass: Seq::empty(),
    }
}

impl WebSettings {
    pub fn default_mqtt_url() -> (r: String)
        ensures
            r@ == "ws://127.0.0.1:9001"@,
    {
        String::from_str("ws://127.0.0.1:9001")
    }

    pub fn default_backend_url() -> (r: String)
        ensures
            r@ == "ws://127.0.0.1:9001"@,
    {
        String::from_str("ws://127.0.0.1:9001")
    }
}

impl Default for WebSettings {
    fn default() -> (r: Self)
        ensures
            r@ == default_web_settings(),
    {
        WebSettings {
            mqtt_url: WebSettings::default_mqtt_url(),
            mqtt_username: String::new(),
            mqtt_password: String::new(),
            backend_url: WebSettings::default_backend_url(),
            backend_user: String::new(),
            backend_pass: String::new(),
        }
    }
}

impl Clone for WebSettings {
    fn clone(&self) -> (r: Self)
        ensures
            r@ == self@,
    {
        WebSettings {
            mqtt_url: self.mqtt_url.clone(),
            mqtt_username: self.mqtt_username.clone(),
            mqtt_password: self.mqtt_password.clone(),
            backend_url: self.backend_url.clone(),
            backend_user: self.backend_user.clone(),
            backend_pass: self.backend_pass.clone(),
        }
    }
}

/// How the paths that no endpoint claims are answered.
#[derive(Debug, PartialEq)]
pub enum ServerType {
    /// Forward the request to the server at this base address.
    Proxy(String),
    /// Serve the file under this directory.
    File(String),
}

/// The model of a [`ServerType`].
pub enum ServerTypeView {
    Proxy(Seq<char>),
    File(Seq<char>),
}

impl View for ServerType {
    type V = ServerTypeView;

    open spec fn view(&self) -> ServerTypeView {
        match self {
            ServerType::Proxy(base_url) => ServerTypeView::Proxy(base_url@),
            ServerType::File(root) => ServerTypeView::File(root@),
        }
    }
}

impl Default for ServerType {
    fn default() -> (r: Self)
        ensures
            r@ == ServerTypeView::File("public"@),
    {
        ServerType::File(String::from_str("public"))
    }
}

impl Clone for ServerType {
    fn clone(&self) -> (r: Self)
        ensures
            r@ == self@,
    {
        match self {
            ServerType::Proxy(base_url) => ServerType::Proxy(base_url.clone()),
            ServerType::File(root) => ServerType::File(root.clone()),
        }
    }
}

/// Where the process listens and how it answers unclaimed paths.
#[derive(Debug, PartialEq)]
pub struct AppSettings {
    pub port: u16,
    pub host: String,
    pub server_type: ServerType,
}

/// The model of an [`AppSettings`].
pub struct AppSettingsView {
    pub port: u16,
    pub host: Seq<char>,
    pub server_type: ServerTypeView,
}

impl View for AppSettings {
    type V = AppSettingsView;

    open spec fn view(&self) -> AppSettingsView {
        AppSettingsView { port: self.port, host: self.host@, server_type: self.server_type@ }
    }
}

impl AppSettings {
    pub fn default_port() -> (r: u16)
        ensures
            r == 9002,
    {
        9002
    }

    pub fn default_host() -> (r: String)
        ensures
            r@ == "0.0.0.0"@,
    {
        String::from_str("0.0.0.0")
    }
}

/// The settings that hold where the file says nothing: port 9002 on every
/// interface, serving files from `public`.
pub open spec fn default_app_settings() -> AppSettingsView {
    AppSettingsView { port: 9002, host: "0.0.0.0"@, server_type: ServerTypeView::File("public"@) }
}

/// The process settings of a file that was read: its content, or the
/// defaults where the file was missing or malformed.
pub open spec fn loaded_app_settings(source: Loaded<AppSettings>) -> AppSettingsView {
    match source {
        Loaded::Parsed(settings) => settings@,
        _ => default_app_settings(),
    }
}

impl AppSettings {
    /// The settings with which the process runs once its file was read.
    pub fn load(source: Loaded<AppSettings>) -> (r: Self)
        ensures
            r@ == loaded_app_settings(source),
    {
        match source {
            Loaded::Parsed(settings) => settings,
            _ => AppSettings::default(),
        }
    }
}

/// The settings of the frontend of a file that was read: its content, or
/// the defaults where the file was missing or malformed.
pub open spec fn loaded_web_settings(source: Loaded<WebSettings>) -> WebSettingsView {
    match source {
        Loaded::Parsed(settings) => settings@,
        _ => default_web_settings(),
    }
}

impl WebSettings {
    /// The settings that the frontend gets once their file was read.
    pub fn load(source: Loaded<WebSettings>) -> (r: Self)
        ensures
            r@ == loaded_web_settings(source),
    {
        match source {
            Loaded::Parsed(settings) => settings,
            _ => WebSettings::default(),
        }
    }
}

impl Default for AppSettings {
    fn default() -> (r: Self)
        ensures
            r@ == default_app_settings(),
    {
        AppSettings {
            port: AppSettings::default_port(),
            host: AppSettings::default_host(),
            server_type: ServerType::default(),
        }
    }
}

impl Clone for AppSettings {
    fn clone(&self) -> (r: Self)
        ensures
            r@ == self@,
    {
        AppSettings {
            port: self.port,
            host: self.host.clone(),
            server_type: self.server_type.clone(),
        }
    }
}

} // verus!
