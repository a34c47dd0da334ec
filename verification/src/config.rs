//! The application configuration consumed by the pipeline. Persistence —
//! locating the configuration directory, reading and writing the JSON file —
//! belongs to the embedding application; this module holds the configuration
//! values and their defaults.

use vstd::prelude::*;

verus! {

/// The configuration surface: autostart, the hotkey combination, the
/// language, the injection test mode, the injector's focus delay and
/// fallback flag, and the provider selection with its model.
#[derive(Debug, Clone)]
pub struct AppConfig {
    pub autostart: bool,
    pub hotkey: String,
    pub language: String,
    pub injection_test_mode: bool,
    pub focus_delay_ms: u64,
    pub enable_typing_fallback: bool,
    pub provider: String,
    pub whisper_model: String,
}

/// The default for a flag that is off unless configured.
pub fn default_false() -> (b: bool)
    ensures
        !b,
{
    false
}

/// The default for a flag that is on unless configured.
pub fn default_true() -> (b: bool)
    ensures
        b,
{
    true
}

/// The default focus delay, in milliseconds.
pub fn default_focus_delay() -> (d: u64)
    ensures
        d == 100,
{
    100
}

/// The default provider name.
pub fn default_provider() -> (p: String)
    ensures
        p@ == "Whisper"@,
{
    "Whisper".to_owned()
}

/// The default model identifier for the local engine.
pub fn default_model() -> (m: String)
    ensures
        m@ == "base"@,
{
    "base".to_owned()
}

impl Default for AppConfig {
    /// The default configuration: autostart on, Ctrl+Shift+Space, US
    /// English, test mode off, a 100 ms focus delay, the typing fallback
    /// enabled, and the local engine with its base model.
    fn default() -> (c: Self)
        ensures
            c.autostart,
            c.hotkey@ == "Ctrl+Shift+Space"@,
            c.language@ == "en-US"@,
            !c.injection_test_mode,
            c.focus_delay_ms == 100,
            c.enable_typing_fallback,
            c.provider@ == "Whisper"@,
            c.whisper_model@ == "base"@,
    {
        AppConfig {
            autostart: true,
            hotkey: "Ctrl+Shift+Space".to_owned(),
            language: "en-US".to_owned(),
            injection_test_mode: default_false(),
            focus_delay_ms: default_focus_delay(),
            enable_typing_fallback: default_true(),
            provider: default_provider(),
            whisper_model: default_model(),
        }
    }
}

} // verus!
