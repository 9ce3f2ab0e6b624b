//! What a page sends to the host, and where it goes.

use crate::json::{as_text, json_member, json_str, json_text, member};
use crate::runtime::Dispatch;
use crate::text::{chars_of, find_from, first_at, has_prefix, lemma_first_at, starts_with};
use crate::webview::Hook;
use crate::window::Window;
use vstd::prelude::*;

verus! {

/// Where the name of a plugin begins in a command: behind the prefix
/// `plugin:` where the command has it, at the start where it has not.
pub open spec fn plugin_start(command: Seq<char>) -> int {
    if has_prefix(command, "plugin:"@) {
        7
    } else {
        0
    }
}

/// The namespace of the plugin that a command is for: what stands between
/// the prefix and the first `|` behind it, or the end of the command.
pub open spec fn plugin_namespace(command: Seq<char>) -> Seq<char> {
    command.subrange(
        plugin_start(command),
        first_at(command, '|', plugin_start(command)),
    )
}

/// The plugin's own command: what stands behind the first `|` that follows
/// the prefix, and nothing where there is no `|`.
pub open spec fn plugin_command(command: Seq<char>) -> Seq<char> {
    let bar = first_at(command, '|', plugin_start(command));
    if bar < command.len() {
        command.subrange(bar + 1, command.len() as int)
    } else {
        Seq::empty()
    }
}

/// A command for a plugin is made of its parts and of nothing else: the
/// prefix, the namespace, and, where a `|` follows, the `|` and the
/// plugin's own command. The namespace holds no `|`.
pub proof fn lemma_plugin_command_parts(command: Seq<char>)
    requires
        has_prefix(command, "plugin:"@),
    ensures
        !plugin_namespace(command).contains('|'),
        first_at(command, '|', 7) < command.len() ==> command == "plugin:"@ + plugin_namespace(
            command,
        ) + seq!['|'] + plugin_command(command),
        first_at(command, '|', 7) >= command.len() ==> command == "plugin:"@ + plugin_namespace(
            command,
        ) && plugin_command(command) == Seq::<char>::empty(),
{
    reveal_strlit("plugin:");
    lemma_first_at(command, '|', 7);
    let bar = first_at(command, '|', 7);
    let namespace = plugin_namespace(command);
    if namespace.contains('|') {
        let i = choose|i: int| 0 <= i < namespace.len() && namespace[i] == '|';
        assert(command[7 + i] == '|');
    }
    assert(command.subrange(0, 7) == "plugin:"@);
    if bar < command.len() {
        assert(command =~= "plugin:"@ + namespace + seq!['|'] + plugin_command(command));
    } else {
        assert(command =~= "plugin:"@ + namespace);
    }
}

/// Whether a command is for a plugin.
pub fn is_plugin_command(command: &str) -> (yes: bool)
    ensures
        yes == has_prefix(command@, "plugin:"@),
{
    starts_with(command, "plugin:")
}

/// Cuts a command of the form `plugin:namespace|command` into the namespace
/// and the plugin's own command.
pub fn split_plugin_command(command: &str) -> (parts: (String, String))
    ensures
        parts.0@ == plugin_namespace(command@),
        parts.1@ == plugin_command(command@),
{
    proof {
        reveal_strlit("plugin:");
        reveal_strlit("");
    }
    let chars = chars_of(command);
    let start: usize = if starts_with(command, "plugin:") {
        7
    } else {
        0
    };
    let bar = find_from(&chars, '|', start);
    let namespace = command.substring_char(start, bar).to_owned();
    let own = if bar < chars.len() {
        command.substring_char(bar + 1, chars.len()).to_owned()
    } else {
        "".to_owned()
    };
    assert(own@ =~= plugin_command(command@));
    (namespace, own)
}

/// The address that page-load news holds: the text under `url`, where the
/// news is an object that holds a text there.
pub open spec fn page_address(news: serde_json::Value) -> Option<Seq<char>> {
    match json_member(json_text(news), "url"@) {
        Some(address) => json_str(address),
        None => None,
    }
}

/// Reads the address out of page-load news.
pub fn page_url(news: &serde_json::Value) -> (url: Option<String>)
    ensures
        url is Some == page_address(*news) is Some,
        url is Some ==> url->Some_0@ == page_address(*news)->Some_0,
{
    match member(news, "url") {
        Some(address) => as_text(address),
        None => None,
    }
}

/// What a page reports when its script context is ready.
#[derive(Debug)]
pub struct PageLoadPayload {
    url: String,
}

impl PageLoadPayload {
    /// The address of the page, as characters.
    pub closed spec fn address(&self) -> Seq<char> {
        self.url@
    }

    /// The report of a page at `url`.
    pub fn new(url: String) -> (payload: PageLoadPayload)
        ensures
            payload.address() == url@,
    {
        PageLoadPayload { url }
    }

    /// The address of the page.
    pub fn url(&self) -> (url: &String)
        ensures
            url@ == self.address(),
    {
        &self.url
    }
}

/// What a call from a page carries besides the name of the command.
#[derive(Debug)]
pub struct InvokePayload {
    /// The first-party module that the call is for, if it is for one.
    pub tauri_module: Option<String>,
    /// The id of the page's callback for a result.
    pub callback: String,
    /// The id of the page's callback for a failure.
    pub error: String,
    /// The arguments of the command.
    pub inner: serde_json::Value,
    /// The salt that the page was given.
    pub salt: String,
}

/// A call from a page, as a handler takes it.
#[derive(Debug)]
pub struct InvokeMessage<D> {
    /// The window whose page made the call.
    pub window: Window<D>,
    /// The name of the command.
    pub command: String,
    /// What the call carries.
    pub payload: InvokePayload,
}

impl<D: Dispatch> InvokeMessage<D> {
    /// The call that the page of `window` made.
    pub fn new(
        window: Window<D>,
        command: String,
        payload: InvokePayload,
    ) -> (message: InvokeMessage<D>)
        ensures
            message == (InvokeMessage { window, command, payload }),
    {
        InvokeMessage { window, command, payload }
    }
}

/// Where a message from a page goes. The host does what it says; for each
/// message it is one thing, never two.
#[derive(Debug)]
#[allow(inconsistent_fields)]
pub enum Route<D> {
    /// The page of the window has loaded. The page-load callback is due, if
    /// there is one. `first` says whether it is the first page that this
    /// window has loaded.
    PageLoad { window: Window<D>, payload: PageLoadPayload, handler: Option<Hook>, first: bool },
    /// The handler of a first-party module is due.
    Endpoint { handler: Hook, message: InvokeMessage<D> },
    /// The extension point of a plugin is due. The command of the message
    /// is the plugin's own, without the prefix and the namespace.
    Plugin { handler: Hook, message: InvokeMessage<D> },
    /// The application's own invoke handler is due, if there is one.
    Handler { handler: Option<Hook>, message: InvokeMessage<D> },
    /// The window is not attached any more. The message is dropped, and the
    /// host may note that it was.
    Dropped { label: String },
}

} // verus!
