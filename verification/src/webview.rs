//! What a web view is created with, and what it reports back.

use crate::config::{Pixels, WindowConfig, DEFAULT_HEIGHT_BITS, DEFAULT_WIDTH_BITS};
use crate::error::Error;
use vstd::prelude::*;

verus! {

/// Names a callback that the host keeps.
///
/// The bridge never runs a callback. It says which one is due, with what
/// arguments, and the host runs it.
#[derive(Clone, Copy, Debug, PartialEq, Eq, Structural)]
pub struct Hook {
    pub id: u64,
}

/// The callback that receives the calls a page makes.
pub type WebviewRpcHandler = Hook;

/// The callback that receives what happens to files dragged over a window.
pub type FileDropHandler = Hook;

/// A call that a page made, as any engine hands it over.
#[derive(Debug)]
pub struct RpcRequest {
    /// The name of the command.
    pub command: String,
    /// What the page sent along.
    pub params: Option<serde_json::Value>,
}

/// What happens to files dragged over a window.
#[derive(Debug)]
pub enum FileDropEvent {
    /// The files are held over the window.
    Hovered(Vec<String>),
    /// The files were let go over the window.
    Dropped(Vec<String>),
    /// The files left the window again.
    Cancelled,
}

/// A URL scheme that the host serves itself.
#[derive(Debug)]
pub struct CustomProtocol {
    /// The scheme.
    pub name: String,
    /// The callback that answers a request with bytes, or declines.
    pub handler: Hook,
}

/// An icon as the application names it.
#[derive(Debug)]
pub enum Icon {
    /// The path of an image file.
    File(String),
    /// The bytes of an image.
    Raw(Vec<u8>),
}

/// An icon in the form that the engine takes: the bytes of an image.
#[derive(Debug)]
pub struct WryIcon(Vec<u8>);

impl WryIcon {
    /// The bytes of the image.
    pub closed spec fn bytes(&self) -> Seq<u8> {
        self.0@
    }

    /// Turns an icon into the engine's form.
    ///
    /// The engine decodes bytes and nothing else. An icon that is still a
    /// file on disk is refused, with the path as the reason: the host reads
    /// the file and comes back with what it holds.
    pub fn try_from(icon: Icon) -> (converted: Result<WryIcon, Error>)
        ensures
            match icon {
                Icon::Raw(raw) => converted matches Ok(engine_icon) && engine_icon.bytes() == raw@,
                Icon::File(path) => converted matches Err(Error::InvalidIcon(reason)) && reason@
                    == path@,
            },
    {
        match icon {
            Icon::Raw(raw) => Ok(WryIcon(raw)),
            Icon::File(path) => Err(Error::InvalidIcon(path)),
        }
    }

    /// The bytes of the image, for the engine to decode.
    pub fn as_bytes(&self) -> (bytes: &Vec<u8>)
        ensures
            bytes@ == self.bytes(),
    {
        &self.0
    }
}

impl Clone for WryIcon {
    fn clone(&self) -> (copy: Self)
        ensures
            copy.bytes() == self.bytes(),
    {
        WryIcon(self.0.clone())
    }
}

/// Everything a web view window is created with.
#[derive(Debug)]
pub struct Attributes {
    pub resizable: bool,
    pub title: String,
    pub maximized: bool,
    pub visible: bool,
    pub transparent: bool,
    pub decorations: bool,
    pub always_on_top: bool,
    pub width: Pixels,
    pub height: Pixels,
    pub min_width: Option<Pixels>,
    pub min_height: Option<Pixels>,
    pub max_width: Option<Pixels>,
    pub max_height: Option<Pixels>,
    pub x: Option<Pixels>,
    pub y: Option<Pixels>,
    pub fullscreen: bool,
    pub icon: Option<WryIcon>,
    pub skip_taskbar: bool,
    pub url: Option<String>,
    pub initialization_scripts: Vec<String>,
    pub user_data_path: Option<String>,
}

impl Attributes {
    /// The scripts that run in every fresh script context of the window, in
    /// the order in which they were added.
    pub open spec fn scripts(&self) -> Seq<Seq<char>> {
        self.initialization_scripts@.map_values(|script: String| script@)
    }

    /// Whether nothing was chosen yet: a visible, resizable, decorated window
    /// of 800 by 600 titled `wry`, shown in the taskbar, with no position, no
    /// limits, no icon, no URL and no script.
    pub open spec fn is_default(&self) -> bool {
        &&& self.resizable
        &&& self.title@ == "wry"@
        &&& !self.maximized
        &&& self.visible
        &&& !self.transparent
        &&& self.decorations
        &&& !self.always_on_top
        &&& self.width.bits == DEFAULT_WIDTH_BITS
        &&& self.height.bits == DEFAULT_HEIGHT_BITS
        &&& self.min_width is None
        &&& self.min_height is None
        &&& self.max_width is None
        &&& self.max_height is None
        &&& self.x is None
        &&& self.y is None
        &&& !self.fullscreen
        &&& self.icon is None
        &&& !self.skip_taskbar
        &&& self.url is None
        &&& self.initialization_scripts@.len() == 0
        &&& self.user_data_path is None
    }

    /// Whether the attributes are what a configuration asks for: its title,
    /// size, limits, position and chrome, and nothing else chosen.
    pub open spec fn follows(&self, config: WindowConfig) -> bool {
        &&& self.resizable == config.resizable
        &&& self.title == config.title
        &&& self.maximized == config.maximized
        &&& self.visible == config.visible
        &&& self.transparent == config.transparent
        &&& self.decorations == config.decorations
        &&& self.always_on_top == config.always_on_top
        &&& self.width == config.width
        &&& self.height == config.height
        &&& self.min_width == config.min_width
        &&& self.min_height == config.min_height
        &&& self.max_width == config.max_width
        &&& self.max_height == config.max_height
        &&& self.x == config.x
        &&& self.y == config.y
        &&& self.fullscreen == config.fullscreen
        &&& self.icon is None
        &&& !self.skip_taskbar
        &&& self.url is None
        &&& self.initialization_scripts@.len() == 0
        &&& self.user_data_path is None
    }

    /// Attributes with nothing chosen yet.
    pub fn new() -> (attributes: Attributes)
        ensures
            attributes.is_default(),
    {
        Attributes {
            resizable: true,
            title: "wry".to_string(),
            maximized: false,
            visible: true,
            transparent: false,
            decorations: true,
            always_on_top: false,
            width: Pixels { bits: DEFAULT_WIDTH_BITS },
            height: Pixels { bits: DEFAULT_HEIGHT_BITS },
            min_width: None,
            min_height: None,
            max_width: None,
            max_height: None,
            x: None,
            y: None,
            fullscreen: false,
            icon: None,
            skip_taskbar: false,
            url: None,
            initialization_scripts: Vec::new(),
            user_data_path: None,
        }
    }

    /// The attributes that a configuration asks for.
    ///
    /// The limits and the position are set only where the configuration
    /// holds them. The label and the URL of the configuration are not part
    /// of the attributes.
    pub fn with_config(config: WindowConfig) -> (attributes: Attributes)
        ensures
            attributes.follows(config),
    {
        let mut webview = Attributes::new()
            .title(config.title)
            .width(config.width)
            .height(config.height)
            .visible(config.visible)
            .resizable(config.resizable)
            .decorations(config.decorations)
            .maximized(config.maximized)
            .fullscreen(config.fullscreen)
            .transparent(config.transparent)
            .always_on_top(config.always_on_top);

        if let Some(min_width) = config.min_width {
            webview = webview.min_width(min_width);
        }
        if let Some(min_height) = config.min_height {
            webview = webview.min_height(min_height);
        }
        if let Some(max_width) = config.max_width {
            webview = webview.max_width(max_width);
        }
        if let Some(max_height) = config.max_height {
            webview = webview.max_height(max_height);
        }
        if let Some(x) = config.x {
            webview = webview.x(x);
        }
        if let Some(y) = config.y {
            webview = webview.y(y);
        }
        webview
    }

    /// Adds a script that runs in every fresh script context of the window,
    /// after those already there.
    pub fn initialization_script(self, init: &str) -> (attributes: Attributes)
        ensures
            attributes.scripts() == self.scripts().push(init@),
            attributes == (Attributes {
                initialization_scripts: attributes.initialization_scripts,
                ..self
            }),
    {
        let mut attributes = self;
        attributes.initialization_scripts.push(init.to_string());
        assert(attributes.scripts() =~= self.scripts().push(init@));
        attributes
    }

    /// Places the left edge of the window.
    pub fn x(self, x: Pixels) -> (attributes: Attributes)
        ensures
            attributes == (Attributes { x: Some(x), ..self }),
    {
        Attributes { x: Some(x), ..self }
    }

    /// Places the top edge of the window.
    pub fn y(self, y: Pixels) -> (attributes: Attributes)
        ensures
            attributes == (Attributes { y: Some(y), ..self }),
    {
        Attributes { y: Some(y), ..self }
    }

    /// Sets the width of the window.
    pub fn width(self, width: Pixels) -> (attributes: Attributes)
        ensures
            attributes == (Attributes { width: width, ..self }),
    {
        Attributes { width: width, ..self }
    }

    /// Sets the height of the window.
    pub fn height(self, height: Pixels) -> (attributes: Attributes)
        ensures
            attributes == (Attributes { height: height, ..self }),
    {
        Attributes { height: height, ..self }
    }

    /// Sets the least width of the window.
    pub fn min_width(self, min_width: Pixels) -> (attributes: Attributes)
        ensures
            attributes == (Attributes { min_width: Some(min_width), ..self }),
    {
        Attributes { min_width: Some(min_width), ..self }
    }

    /// Sets the least height of the window.
    pub fn min_height(self, min_height: Pixels) -> (attributes: Attributes)
        ensures
            attributes == (Attributes { min_height: Some(min_height), ..self }),
    {
        Attributes { min_height: Some(min_height), ..self }
    }

    /// Sets the greatest width of the window.
    pub fn max_width(self, max_width: Pixels) -> (attributes: Attributes)
        ensures
            attributes == (Attributes { max_width: Some(max_width), ..self }),
    {
        Attributes { max_width: Some(max_width), ..self }
    }

    /// Sets the greatest height of the window.
    pub fn max_height(self, max_height: Pixels) -> (attributes: Attributes)
        ensures
            attributes == (Attributes { max_height: Some(max_height), ..self }),
    {
        Attributes { max_height: Some(max_height), ..self }
    }

    /// Says whether the user can resize the window.
    pub fn resizable(self, resizable: bool) -> (attributes: Attributes)
        ensures
            attributes == (Attributes { resizable: resizable, ..self }),
    {
        Attributes { resizable: resizable, ..self }
    }

    /// Sets the title of the window.
    pub fn title(self, title: String) -> (attributes: Attributes)
        ensures
            attributes == (Attributes { title: title, ..self }),
    {
        Attributes { title: title, ..self }
    }

    /// Says whether the window starts in fullscreen.
    pub fn fullscreen(self, fullscreen: bool) -> (attributes: Attributes)
        ensures
            attributes == (Attributes { fullscreen: fullscreen, ..self }),
    {
        Attributes { fullscreen: fullscreen, ..self }
    }

    /// Says whether the window starts maximized.
    pub fn maximized(self, maximized: bool) -> (attributes: Attributes)
        ensures
            attributes == (Attributes { maximized: maximized, ..self }),
    {
        Attributes { maximized: maximized, ..self }
    }

    /// Says whether the window is shown at once.
    pub fn visible(self, visible: bool) -> (attributes: Attributes)
        ensures
            attributes == (Attributes { visible: visible, ..self }),
    {
        Attributes { visible: visible, ..self }
    }

    /// Says whether the window is transparent.
    pub fn transparent(self, transparent: bool) -> (attributes: Attributes)
        ensures
            attributes == (Attributes { transparent: transparent, ..self }),
    {
        Attributes { transparent: transparent, ..self }
    }

    /// Says whether the window has borders and bars.
    pub fn decorations(self, decorations: bool) -> (attributes: Attributes)
        ensures
            attributes == (Attributes { decorations: decorations, ..self }),
    {
        Attributes { decorations: decorations, ..self }
    }

    /// Says whether the window stays above all others.
    pub fn always_on_top(self, always_on_top: bool) -> (attributes: Attributes)
        ensures
            attributes == (Attributes { always_on_top: always_on_top, ..self }),
    {
        Attributes { always_on_top: always_on_top, ..self }
    }

    /// Sets the icon of the window.
    pub fn icon(self, icon: WryIcon) -> (attributes: Attributes)
        ensures
            attributes == (Attributes { icon: Some(icon), ..self }),
    {
        Attributes { icon: Some(icon), ..self }
    }

    /// Whether an icon was chosen.
    pub fn has_icon(&self) -> (chosen: bool)
        ensures
            chosen == (self.icon is Some),
    {
        self.icon.is_some()
    }

    /// Sets, or clears, the directory in which the web view keeps its data.
    pub fn user_data_path(self, user_data_path: Option<String>) -> (attributes: Attributes)
        ensures
            attributes == (Attributes { user_data_path, ..self }),
    {
        Attributes { user_data_path, ..self }
    }

    /// Sets the URL that the window opens with.
    pub fn url(self, url: String) -> (attributes: Attributes)
        ensures
            attributes == (Attributes { url: Some(url), ..self }),
    {
        Attributes { url: Some(url), ..self }
    }

    /// Ends the choices. The attributes are what they were.
    pub fn build(self) -> (attributes: Attributes)
        ensures
            attributes == self,
    {
        self
    }
}

} // verus!
