//! The loader's configuration (`config.toml`) and the choices it drives.
use vstd::prelude::*;

verus! {

/// A file that the game opens which is to be replaced by another one.
pub struct FileRedirect {
    /// The path the game asks for.
    pub from: String,
    /// The path opened instead.
    pub to: String,
    /// Open flags used instead of the game's, if given.
    pub flags: Option<u32>,
}

/// The configuration, but for the analog dead zone of controller sticks,
/// which only the input layer reads.
pub struct Config {
    pub fullscreen: bool,
    pub input_emu: bool,
    pub card_emu: bool,
    pub block_sudo: bool,
    pub ignore_custom_ioctls: bool,
    pub dongle: String,
    pub local_ip: Option<String>,
    pub width: u32,
    pub height: u32,
    pub card_device: String,
    pub file_redirect: Vec<FileRedirect>,
}

/// The game's native resolution.
pub const NATIVE_WIDTH: u32 = 640;
/// The game's native resolution.
pub const NATIVE_HEIGHT: u32 = 480;

/// The configuration used when `config.toml` is missing or unreadable:
/// windowed at the native 640x480, input and card emulation on, `sudo`
/// blocked, custom ioctls ignored, no dongle id, network address, card device
/// or redirects.
pub fn default_config() -> (c: Config)
    ensures
        !c.fullscreen,
        c.input_emu,
        c.card_emu,
        c.block_sudo,
        c.ignore_custom_ioctls,
        c.dongle@ == Seq::<char>::empty(),
        c.local_ip is None,
        c.width == 640,
        c.height == 480,
        c.card_device@ == Seq::<char>::empty(),
        c.file_redirect@.len() == 0,
{
    Config {
        fullscreen: false,
        input_emu: true,
        card_emu: true,
        block_sudo: true,
        ignore_custom_ioctls: true,
        dongle: String::new(),
        local_ip: None,
        width: NATIVE_WIDTH,
        height: NATIVE_HEIGHT,
        card_device: String::new(),
        file_redirect: Vec::new(),
    }
}

impl Config {
    /// Whether the rendering hooks that adapt the game to another resolution
    /// are needed: the configured size is not the native 640x480.
    pub fn needs_resolution_patch(&self) -> (r: bool)
        ensures
            r == (self.width != 640 || self.height != 480),
    {
        self.width != NATIVE_WIDTH || self.height != NATIVE_HEIGHT
    }

    /// Whether the game's network address query is answered by the loader
    /// (a configured address, or the machine's own when one was found);
    /// otherwise the network boot thread is skipped.
    pub fn answers_network_address(&self, local_address_found: bool) -> (r: bool)
        ensures
            r == (self.local_ip is Some || local_address_found),
    {
        self.local_ip.is_some() || local_address_found
    }
}

} // verus!
