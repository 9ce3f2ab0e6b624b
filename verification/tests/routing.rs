use webview_bridge::config::WindowUrl;
use webview_bridge::error::Error;
use webview_bridge::hooks::{
    is_plugin_command, split_plugin_command, InvokeMessage, InvokePayload, PageLoadPayload, Route,
};
use webview_bridge::webview::{Attributes, Hook};
use webview_bridge::window::PendingWindow;
use webview_bridge::runtime::Runtime;
use webview_bridge::wry::{Wry, WryDispatcher};

type WindowManager = webview_bridge::manager::WindowManager<WryDispatcher>;
type Window = webview_bridge::window::Window<WryDispatcher>;

fn attached(manager: &mut WindowManager, engine: &mut Wry, label: &str) -> Window {
    let pending = PendingWindow::new(
        Attributes::new(),
        label.to_string(),
        WindowUrl::App("index.html".to_string()),
    );
    let detached = engine.create_window(pending).unwrap();
    manager.attach_window(detached).unwrap()
}

fn payload(module: Option<&str>, inner: &str, salt: &str) -> InvokePayload {
    InvokePayload {
        tauri_module: module.map(|name| name.to_string()),
        callback: "cb-1".to_string(),
        error: "err-1".to_string(),
        inner: serde_json::from_str(inner).unwrap(),
        salt: salt.to_string(),
    }
}

fn setup() -> (WindowManager, Wry, Window) {
    let mut manager = WindowManager::new();
    let mut engine = Wry::new().unwrap();
    let window = attached(&mut manager, &mut engine, "main");
    manager.register_endpoint("Fs".to_string(), Hook { id: 1 });
    manager.register_endpoint("Dialog".to_string(), Hook { id: 2 });
    manager.register_plugin("store".to_string(), Hook { id: 3 });
    manager.set_invoke_handler(Hook { id: 4 });
    manager.set_page_load_handler(Hook { id: 5 });
    (manager, engine, window)
}

#[test]
fn a_recognized_module_reaches_its_endpoint() {
    let (mut manager, _engine, window) = setup();
    let routed = window
        .clone()
        .on_message(&mut manager, "readFile".to_string(), payload(Some("Fs"), "{\"a\":1}", ""))
        .unwrap();
    match routed {
        Route::Endpoint { handler, message } => {
            assert_eq!(handler, Hook { id: 1 });
            assert_eq!(message.command, "readFile");
            assert_eq!(message.window.label(), "main");
            assert_eq!(message.payload.tauri_module.as_deref(), Some("Fs"));
            assert_eq!(message.payload.callback, "cb-1");
            assert_eq!(message.payload.error, "err-1");
            assert_eq!(message.payload.inner.to_string(), "{\"a\":1}");
        }
        other => panic!("routed to {:?}", other),
    }
    let routed =
        window.on_message(&mut manager, "open".to_string(), payload(Some("Dialog"), "null", ""));
    assert!(matches!(routed, Ok(Route::Endpoint { handler: Hook { id: 2 }, .. })));
}

#[test]
fn an_unrecognized_module_is_a_routing_failure() {
    let (mut manager, _engine, window) = setup();
    let routed =
        window.clone().on_message(&mut manager, "x".to_string(), payload(Some("Nope"), "null", ""));
    assert!(matches!(routed, Err(Error::UnknownApi)));
    let routed =
        window.clone().on_message(&mut manager, "x".to_string(), payload(Some("fs"), "null", ""));
    assert!(matches!(routed, Err(Error::UnknownApi)));
    let routed =
        window.on_message(&mut manager, "plugin:store|get".to_string(), payload(Some(""), "null", ""));
    assert!(matches!(routed, Err(Error::UnknownApi)));
}

#[test]
fn a_module_wins_over_a_plugin_prefix() {
    let (mut manager, _engine, window) = setup();
    let routed = window.on_message(
        &mut manager,
        "plugin:store|get".to_string(),
        payload(Some("Fs"), "null", ""),
    );
    assert!(matches!(routed, Ok(Route::Endpoint { handler: Hook { id: 1 }, .. })));
}

#[test]
fn a_plugin_command_reaches_the_extension_point_of_its_namespace() {
    let (mut manager, _engine, window) = setup();
    let routed = window
        .on_message(&mut manager, "plugin:store|get".to_string(), payload(None, "[1]", ""))
        .unwrap();
    match routed {
        Route::Plugin { handler, message } => {
            assert_eq!(handler, Hook { id: 3 });
            assert_eq!(message.command, "get");
            assert_eq!(message.window.label(), "main");
            assert_eq!(message.payload.inner.to_string(), "[1]");
        }
        other => panic!("routed to {:?}", other),
    }
}

#[test]
fn an_unrecognized_plugin_namespace_is_a_routing_failure() {
    let (mut manager, _engine, window) = setup();
    let routed = window.clone().on_message(
        &mut manager,
        "plugin:vault|get".to_string(),
        payload(None, "null", ""),
    );
    assert!(matches!(routed, Err(Error::UnknownApi)));
    let routed =
        window.on_message(&mut manager, "plugin:".to_string(), payload(None, "null", ""));
    assert!(matches!(routed, Err(Error::UnknownApi)));
}

#[test]
fn any_other_command_reaches_the_invoke_handler() {
    let (mut manager, _engine, window) = setup();
    let routed = window
        .clone()
        .on_message(&mut manager, "greet".to_string(), payload(None, "{}", ""))
        .unwrap();
    match routed {
        Route::Handler { handler, message } => {
            assert_eq!(handler, Some(Hook { id: 4 }));
            assert_eq!(message.command, "greet");
        }
        other => panic!("routed to {:?}", other),
    }
    let routed =
        window.on_message(&mut manager, "Plugin:store|get".to_string(), payload(None, "{}", ""));
    assert!(matches!(routed, Ok(Route::Handler { .. })));
}

#[test]
fn a_later_invoke_handler_replaces_the_earlier_one() {
    let (mut manager, _engine, window) = setup();
    manager.set_invoke_handler(Hook { id: 40 });
    let routed = window.on_message(&mut manager, "greet".to_string(), payload(None, "{}", ""));
    assert!(matches!(routed, Ok(Route::Handler { handler: Some(Hook { id: 40 }), .. })));
}

#[test]
fn without_an_invoke_handler_the_route_says_so() {
    let mut manager = WindowManager::new();
    let mut engine = Wry::new().unwrap();
    let window = attached(&mut manager, &mut engine, "main");
    let routed = window.on_message(&mut manager, "greet".to_string(), payload(None, "{}", ""));
    assert!(matches!(routed, Ok(Route::Handler { handler: None, .. })));
}

#[test]
fn a_later_registration_replaces_the_earlier_one() {
    let (mut manager, _engine, window) = setup();
    manager.register_endpoint("Fs".to_string(), Hook { id: 10 });
    manager.register_plugin("store".to_string(), Hook { id: 30 });
    let routed =
        window.clone().on_message(&mut manager, "x".to_string(), payload(Some("Fs"), "null", ""));
    assert!(matches!(routed, Ok(Route::Endpoint { handler: Hook { id: 10 }, .. })));
    let routed =
        window.on_message(&mut manager, "plugin:store".to_string(), payload(None, "null", ""));
    match routed.unwrap() {
        Route::Plugin { handler, message } => {
            assert_eq!(handler, Hook { id: 30 });
            assert_eq!(message.command, "");
        }
        other => panic!("routed to {:?}", other),
    }
}

#[test]
fn a_message_from_a_closed_window_is_dropped() {
    let (mut manager, mut engine, window) = setup();
    window.close(&mut engine).unwrap();
    manager.detach_window(&"main".to_string());
    let routed =
        window.clone().on_message(&mut manager, "x".to_string(), payload(Some("Fs"), "null", ""));
    assert!(matches!(routed, Ok(Route::Dropped { label }) if label == "main"));
    let routed = window.on_message(
        &mut manager,
        "__initialized".to_string(),
        payload(None, "{\"url\":\"http://localhost\"}", ""),
    );
    assert!(matches!(routed, Ok(Route::Dropped { label }) if label == "main"));
}

#[test]
fn the_initialized_command_is_page_load_news() {
    let (mut manager, _engine, window) = setup();
    let routed = window
        .clone()
        .on_message(
            &mut manager,
            "__initialized".to_string(),
            payload(Some("Fs"), "{\"url\":\"tauri://localhost/index.html\"}", ""),
        )
        .unwrap();
    match routed {
        Route::PageLoad { window: loaded, payload, handler, first } => {
            assert_eq!(loaded.label(), "main");
            assert_eq!(payload.url(), "tauri://localhost/index.html");
            assert_eq!(handler, Some(Hook { id: 5 }));
            assert!(first);
        }
        other => panic!("routed to {:?}", other),
    }
    let again = window
        .on_message(
            &mut manager,
            "__initialized".to_string(),
            payload(None, "{\"url\":\"tauri://localhost/next\",\"extra\":1}", ""),
        )
        .unwrap();
    match again {
        Route::PageLoad { payload, first, .. } => {
            assert_eq!(payload.url(), "tauri://localhost/next");
            assert!(!first);
        }
        other => panic!("routed to {:?}", other),
    }
}

#[test]
fn page_load_news_without_an_address_is_a_serialization_failure() {
    let (mut manager, _engine, window) = setup();
    for inner in ["null", "{}", "{\"url\":7}", "[\"http://x\"]", "\"http://x\""] {
        let routed = window.clone().on_message(
            &mut manager,
            "__initialized".to_string(),
            payload(None, inner, ""),
        );
        assert!(matches!(routed, Err(Error::Json)), "inner {}", inner);
    }
    let routed = window
        .on_message(
            &mut manager,
            "__initialized".to_string(),
            payload(None, "{\"url\":\"u\"}", ""),
        )
        .unwrap();
    assert!(matches!(routed, Route::PageLoad { first: true, .. }));
}

#[test]
fn a_loaded_page_ends_the_salts_of_its_window_only() {
    let (mut manager, mut engine, window) = setup();
    let other = attached(&mut manager, &mut engine, "other");
    let old = window.generate_salt(&mut manager);
    let theirs = other.generate_salt(&mut manager);
    let global = manager.generate_salt();
    manager.run_on_page_load(window.clone(), Some("tauri://localhost".to_string())).unwrap();
    assert!(!manager.verify_salt(old));
    assert!(manager.verify_salt(theirs));
    assert!(manager.verify_salt(global));
}

#[test]
fn a_call_with_a_good_salt_goes_through_once() {
    let (mut manager, _engine, window) = setup();
    let salt = window.generate_salt(&mut manager);
    let first = window.clone().invoke(
        &mut manager,
        "readFile".to_string(),
        payload(Some("Fs"), "{}", &salt),
    );
    assert!(matches!(first, Ok(Route::Endpoint { handler: Hook { id: 1 }, .. })));
    let replay =
        window.invoke(&mut manager, "readFile".to_string(), payload(Some("Fs"), "{}", &salt));
    assert!(matches!(replay, Err(Error::InvalidSalt)));
}

#[test]
fn a_call_without_a_good_salt_is_refused_before_it_is_routed() {
    let (mut manager, _engine, window) = setup();
    let missing = window.clone().invoke(
        &mut manager,
        "readFile".to_string(),
        payload(Some("Fs"), "{}", ""),
    );
    assert!(matches!(missing, Err(Error::InvalidSalt)));
    let guessed = window.clone().invoke(
        &mut manager,
        "x".to_string(),
        payload(Some("Nope"), "{}", "00000000-0000-4000-8000-000000000000"),
    );
    assert!(matches!(guessed, Err(Error::InvalidSalt)));
    let salt = manager.generate_salt();
    let unknown_module =
        window.invoke(&mut manager, "x".to_string(), payload(Some("Nope"), "{}", &salt));
    assert!(matches!(unknown_module, Err(Error::UnknownApi)));
    assert!(!manager.verify_salt(salt));
}

#[test]
fn the_handshake_needs_no_salt_and_ends_the_old_ones() {
    let (mut manager, _engine, window) = setup();
    let old = window.generate_salt(&mut manager);
    let loaded = window.clone().invoke(
        &mut manager,
        "__initialized".to_string(),
        payload(None, "{\"url\":\"tauri://localhost\"}", ""),
    );
    assert!(matches!(loaded, Ok(Route::PageLoad { .. })));
    let stale =
        window.clone().invoke(&mut manager, "greet".to_string(), payload(None, "{}", &old));
    assert!(matches!(stale, Err(Error::InvalidSalt)));
    let fresh = window.generate_salt(&mut manager);
    let call = window.invoke(&mut manager, "greet".to_string(), payload(None, "{}", &fresh));
    assert!(matches!(call, Ok(Route::Handler { .. })));
}

#[test]
fn plugin_commands_are_cut_at_the_first_bar() {
    assert!(is_plugin_command("plugin:store|get"));
    assert!(is_plugin_command("plugin:"));
    assert!(!is_plugin_command("plugin"));
    assert!(!is_plugin_command("xplugin:store"));
    assert!(!is_plugin_command(""));
    let cut = |command: &str| split_plugin_command(command);
    assert_eq!(cut("plugin:store|get"), ("store".to_string(), "get".to_string()));
    assert_eq!(cut("plugin:store|get|more"), ("store".to_string(), "get|more".to_string()));
    assert_eq!(cut("plugin:store"), ("store".to_string(), String::new()));
    assert_eq!(cut("plugin:store|"), ("store".to_string(), String::new()));
    assert_eq!(cut("plugin:|get"), (String::new(), "get".to_string()));
    assert_eq!(cut("plugin:"), (String::new(), String::new()));
    assert_eq!(cut("store|get"), ("store".to_string(), "get".to_string()));
    assert_eq!(cut("plugin:st\u{f6}re|g\u{e9}t"), ("st\u{f6}re".to_string(), "g\u{e9}t".to_string()));
}

#[test]
fn the_manager_routes_messages_it_is_handed() {
    let (manager, _engine, window) = setup();
    let message =
        InvokeMessage::new(window.clone(), "plugin:store|set".to_string(), payload(None, "1", ""));
    let routed = manager.extend_api(message).unwrap();
    assert!(matches!(routed, Route::Plugin { handler: Hook { id: 3 }, .. }));
    let message = InvokeMessage::new(window, "greet".to_string(), payload(None, "1", ""));
    assert!(matches!(manager.route(message), Ok(Route::Handler { .. })));
    assert_eq!(PageLoadPayload::new("u".to_string()).url(), "u");
}
