use new_home_server::services::{
    CompiledSettingsStep, Loaded, WebSettingsCompiledMessage, WebSettingsMessage,
    WebSettingsService, WebSettingsStep,
};
use new_home_server::settings::{AppSettings, ServerType, WebSettings};

fn custom() -> WebSettings {
    WebSettings {
        mqtt_url: "ws://broker:9001".to_string(),
        mqtt_username: "u".to_string(),
        mqtt_password: "p".to_string(),
        backend_url: "ws://backend:9001".to_string(),
        backend_user: "bu".to_string(),
        backend_pass: "bp".to_string(),
    }
}

#[test]
fn web_settings_defaults() {
    assert_eq!(WebSettings::default_mqtt_url(), "ws://127.0.0.1:9001");
    assert_eq!(WebSettings::default_backend_url(), "ws://127.0.0.1:9001");
    let settings = WebSettings::default();
    assert_eq!(settings.mqtt_url, "ws://127.0.0.1:9001");
    assert_eq!(settings.backend_url, "ws://127.0.0.1:9001");
    assert_eq!(settings.mqtt_username, "");
    assert_eq!(settings.mqtt_password, "");
    assert_eq!(settings.backend_user, "");
    assert_eq!(settings.backend_pass, "");
}

#[test]
fn app_settings_defaults() {
    assert_eq!(AppSettings::default_port(), 9002);
    assert_eq!(AppSettings::default_host(), "0.0.0.0");
    assert_eq!(ServerType::default(), ServerType::File("public".to_string()));
    let settings = AppSettings::default();
    assert_eq!(settings.port, 9002);
    assert_eq!(settings.host, "0.0.0.0");
    assert_eq!(settings.server_type, ServerType::File("public".to_string()));
    assert_eq!(settings.clone(), settings);
}

#[test]
fn settings_fall_back_to_defaults_when_the_file_is_bad() {
    assert_eq!(AppSettings::load(Loaded::Missing), AppSettings::default());
    assert_eq!(AppSettings::load(Loaded::Malformed), AppSettings::default());
    let own = AppSettings {
        port: 80,
        host: "localhost".to_string(),
        server_type: ServerType::Proxy("http://localhost:8080".to_string()),
    };
    assert_eq!(AppSettings::load(Loaded::Parsed(own.clone())), own);
    assert_eq!(WebSettings::load(Loaded::Missing), WebSettings::default());
    assert_eq!(WebSettings::load(Loaded::Malformed), WebSettings::default());
    assert_eq!(WebSettings::load(Loaded::Parsed(custom())), custom());
}

#[test]
fn settings_store_gets_and_reloads() {
    let mut store = WebSettingsService::new(Loaded::Missing);
    assert_eq!(
        store.handle(WebSettingsMessage::Get),
        WebSettingsStep::Reply(WebSettings::default())
    );
    assert_eq!(store.handle(WebSettingsMessage::Reload), WebSettingsStep::Load);
    assert_eq!(store.reload(Loaded::Parsed(custom())), custom());
    assert_eq!(store.handle(WebSettingsMessage::Get), WebSettingsStep::Reply(custom()));
    assert_eq!(store.reload(Loaded::Malformed), WebSettings::default());
}

#[test]
fn compiled_settings_wrap_the_json() {
    let mut store = WebSettingsService::new(Loaded::Parsed(custom()));
    assert_eq!(
        store.handle_compiled(WebSettingsCompiledMessage::Get),
        CompiledSettingsStep::Reply(String::new())
    );
    assert_eq!(
        store.handle_compiled(WebSettingsCompiledMessage::Reload),
        CompiledSettingsStep::Render(custom())
    );
    let script = store.compile_settings(Some("{\"a\":1}".to_string()));
    assert_eq!(script, "export default {\"a\":1}");
    assert_eq!(
        store.handle_compiled(WebSettingsCompiledMessage::Get),
        CompiledSettingsStep::Reply("export default {\"a\":1}".to_string())
    );
}

#[test]
fn compiled_settings_stay_when_rendering_fails() {
    let mut store = WebSettingsService::new(Loaded::Missing);
    store.compile_settings(Some("{}".to_string()));
    assert_eq!(store.compile_settings(None), "export default {}");
    store.reload(Loaded::Parsed(custom()));
    assert_eq!(
        store.handle_compiled(WebSettingsCompiledMessage::Get),
        CompiledSettingsStep::Reply("export default {}".to_string())
    );
}
