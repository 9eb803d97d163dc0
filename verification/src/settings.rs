use vstd::prelude::*;

verus! {

/// A SwitchBot device: its API identifier and the label shown for it.
#[derive(Debug)]
pub struct SwitchBotDevice {
    pub id: String,
    pub label: String,
}

/// The three thermo-hygrometers that the display shows.
#[derive(Debug)]
pub struct SwitchBotDevices {
    pub indoor: SwitchBotDevice,
    pub outdoor: SwitchBotDevice,
    pub tank: SwitchBotDevice,
}

/// Credentials and devices of the SwitchBot API.
#[derive(Debug)]
pub struct SwitchBot {
    pub token: String,
    pub secret: String,
    pub devices: SwitchBotDevices,
}

/// Credentials of the server-status API.
#[derive(Debug)]
pub struct Balbird {
    pub api_key: String,
}

/// The display device.
#[derive(Debug)]
pub struct Drm {
    pub device: String,
}

/// The settings that the library's workers read.
#[derive(Debug)]
pub struct Settings {
    pub switchbot: SwitchBot,
    pub balbird: Balbird,
    pub drm: Drm,
}

/// The SwitchBot settings.
pub fn switchbot(settings: &Settings) -> (s: &SwitchBot)
    ensures
        *s == settings.switchbot,
{
    &settings.switchbot
}

/// The server-status settings.
pub fn balbird(settings: &Settings) -> (b: &Balbird)
    ensures
        *b == settings.balbird,
{
    &settings.balbird
}

/// The display-device settings.
pub fn drm(settings: &Settings) -> (d: &Drm)
    ensures
        *d == settings.drm,
{
    &settings.drm
}

} // verus!
