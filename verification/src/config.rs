//! What a window is configured with before any engine sees it.

use vstd::prelude::*;

verus! {

/// A length or a position in logical pixels.
///
/// The value is a double-precision number, held here as its IEEE 754 bit
/// pattern. The bridge stores and forwards such values and never computes
/// with them.
#[derive(Clone, Copy, Debug, PartialEq, Eq, Structural)]
pub struct Pixels {
    pub bits: u64,
}

impl Pixels {
    /// The value with the given bit pattern.
    pub fn from_bits(bits: u64) -> (value: Pixels)
        ensures
            value.bits == bits,
    {
        Pixels { bits }
    }

    /// The bit pattern of the value.
    pub fn to_bits(&self) -> (bits: u64)
        ensures
            bits == self.bits,
    {
        self.bits
    }
}

/// The bit pattern of 800.
pub const DEFAULT_WIDTH_BITS: u64 = 0x4089_0000_0000_0000;

/// The bit pattern of 600.
pub const DEFAULT_HEIGHT_BITS: u64 = 0x4082_C000_0000_0000;

/// What a window opens with.
#[derive(Debug)]
pub enum WindowUrl {
    /// A route of the application itself.
    App(String),
    /// The address of a remote page.
    External(String),
    /// A page given as raw HTML.
    Html(String),
}

impl Clone for WindowUrl {
    fn clone(&self) -> (copy: Self)
        ensures
            copy == *self,
    {
        match self {
            WindowUrl::App(route) => WindowUrl::App(route.clone()),
            WindowUrl::External(address) => WindowUrl::External(address.clone()),
            WindowUrl::Html(page) => WindowUrl::Html(page.clone()),
        }
    }
}

/// The geometry and chrome that a window is configured with.
///
/// A value of this type has been validated by whoever parsed the
/// configuration; the bridge takes it as it is.
#[derive(Debug)]
pub struct WindowConfig {
    pub label: String,
    pub url: WindowUrl,
    pub x: Option<Pixels>,
    pub y: Option<Pixels>,
    pub width: Pixels,
    pub height: Pixels,
    pub min_width: Option<Pixels>,
    pub min_height: Option<Pixels>,
    pub max_width: Option<Pixels>,
    pub max_height: Option<Pixels>,
    pub resizable: bool,
    pub title: String,
    pub fullscreen: bool,
    pub transparent: bool,
    pub maximized: bool,
    pub visible: bool,
    pub decorations: bool,
    pub always_on_top: bool,
}

impl Default for WindowConfig {
    /// A visible, resizable, decorated window of 800 by 600 named `main`,
    /// titled `Tauri App`, that opens the application's `index.html`.
    fn default() -> (config: Self)
        ensures
            config.label@ == "main"@,
            config.url matches WindowUrl::App(route) && route@ == "index.html"@,
            config.x is None,
            config.y is None,
            config.width.bits == DEFAULT_WIDTH_BITS,
            config.height.bits == DEFAULT_HEIGHT_BITS,
            config.min_width is None,
            config.min_height is None,
            config.max_width is None,
            config.max_height is None,
            config.resizable,
            config.title@ == "Tauri App"@,
            !config.fullscreen,
            !config.transparent,
            !config.maximized,
            config.visible,
            config.decorations,
            !config.always_on_top,
    {
        WindowConfig {
            label: "main".to_string(),
            url: WindowUrl::App("index.html".to_string()),
            x: None,
            y: None,
            width: Pixels { bits: DEFAULT_WIDTH_BITS },
            height: Pixels { bits: DEFAULT_HEIGHT_BITS },
            min_width: None,
            min_height: None,
            max_width: None,
            max_height: None,
            resizable: true,
            title: "Tauri App".to_string(),
            fullscreen: false,
            transparent: false,
            maximized: false,
            visible: true,
            decorations: true,
            always_on_top: false,
        }
    }
}

/// The name and the version of the application.
#[derive(Clone, Copy, Debug)]
pub struct PackageInfo {
    /// The name of the application.
    pub name: &'static str,
    /// The version of the application.
    pub version: &'static str,
}

} // verus!
