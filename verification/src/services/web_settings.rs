//! The store of the frontend's settings.

use vstd::prelude::*;
use vstd::string::*;
use crate::services::{
    CompiledSettingsStep, Loaded, WebSettingsCompiledMessage, WebSettingsMessage,
    WebSettingsService, WebSettingsStep,
};
use crate::settings::{loaded_web_settings, WebSettings, WebSettingsView};

verus! {

/// The script that hands the settings, rendered as JSON, to the frontend.
pub open spec fn compiled(json: Seq<char>) -> Seq<char> {
    "export default "@ + json
}

/// The script held after an attempt to render the settings: compiled from
/// the JSON text, or the one held before where rendering failed.
pub open spec fn compiled_after(before: Seq<char>, rendered: Option<String>) -> Seq<char> {
    match rendered {
        Some(json) => compiled(json@),
        None => before,
    }
}

impl WebSettingsService {
    /// The settings held.
    pub closed spec fn settings(&self) -> WebSettingsView {
        self.settings@
    }

    /// The script held.
    pub closed spec fn compiled_settings(&self) -> Seq<char> {
        self.compiled_settings@
    }

    /// A store with the settings of the file and an empty script.
    pub fn new(source: Loaded<WebSettings>) -> (r: Self)
        ensures
            r.settings() == loaded_web_settings(source),
            r.compiled_settings() == Seq::<char>::empty(),
    {
        WebSettingsService { settings: WebSettings::load(source), compiled_settings: String::new() }
    }

    /// Puts the outcome of reading the file in the place of the settings
    /// held and answers with them. The script stays as it was.
    pub fn reload(&mut self, source: Loaded<WebSettings>) -> (reply: WebSettings)
        ensures
            final(self).settings() == loaded_web_settings(source),
            final(self).compiled_settings() == old(self).compiled_settings(),
            reply@ == final(self).settings(),
    {
        self.settings = WebSettings::load(source);
        self.settings.clone()
    }

    /// Takes up the JSON rendering of the settings, or keeps the old script
    /// where rendering failed, and answers with the script held.
    pub fn compile_settings(&mut self, rendered: Option<String>) -> (reply: String)
        ensures
            final(self).settings() == old(self).settings(),
            final(self).compiled_settings() == compiled_after(
                old(self).compiled_settings(),
                rendered,
            ),
            reply@ == final(self).compiled_settings(),
    {
        if let Some(json) = rendered {
            let mut script = String::from_str("export default ");
            script.append(json.as_str());
            self.compiled_settings = script;
        }
        self.compiled_settings.clone()
    }

    /// Answers a message on the settings: `Get` with the settings held,
    /// `Reload` by asking for the file to be read. Nothing changes.
    pub fn handle(&mut self, msg: WebSettingsMessage) -> (step: WebSettingsStep)
        ensures
            final(self).settings() == old(self).settings(),
            final(self).compiled_settings() == old(self).compiled_settings(),
            match msg {
                WebSettingsMessage::Get => match step {
                    WebSettingsStep::Reply(settings) => settings@ == old(self).settings(),
                    _ => false,
                },
                WebSettingsMessage::Reload => step is Load,
            },
    {
        match msg {
            WebSettingsMessage::Reload => WebSettingsStep::Load,
            WebSettingsMessage::Get => WebSettingsStep::Reply(self.settings.clone()),
        }
    }

    /// Answers a message on the script: `Get` with the script held, `Reload`
    /// by asking for the settings held to be rendered. Nothing changes.
    pub fn handle_compiled(&mut self, msg: WebSettingsCompiledMessage) -> (step:
        CompiledSettingsStep)
        ensures
            final(self).settings() == old(self).settings(),
            final(self).compiled_settings() == old(self).compiled_settings(),
            match msg {
                WebSettingsCompiledMessage::Get => match step {
                    CompiledSettingsStep::Reply(script) => script@ == old(
                        self,
                    ).compiled_settings(),
                    _ => false,
                },
                WebSettingsCompiledMessage::Reload => match step {
                    CompiledSettingsStep::Render(settings) => settings@ == old(self).settings(),
                    _ => false,
                },
            },
    {
        match msg {
            WebSettingsCompiledMessage::Reload => CompiledSettingsStep::Render(
                self.settings.clone(),
            ),
            WebSettingsCompiledMessage::Get => CompiledSettingsStep::Reply(
                self.compiled_settings.clone(),
            ),
        }
    }
}

} // verus!
