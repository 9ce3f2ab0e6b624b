use webview_bridge::config::WindowUrl;
use webview_bridge::error::Error;
use webview_bridge::script::{event_literal, notification_script, payload_literal};
use webview_bridge::webview::Attributes;
use webview_bridge::window::PendingWindow;
use webview_bridge::runtime::{Dispatch, Runtime};
use webview_bridge::wry::{WindowMessage, Wry, WryDispatcher};

type WindowManager = webview_bridge::manager::WindowManager<WryDispatcher>;
type Window = webview_bridge::window::Window<WryDispatcher>;

fn attached(manager: &mut WindowManager, engine: &mut Wry, label: &str) -> Window {
    let pending = PendingWindow::new(
        Attributes::new(),
        label.to_string(),
        WindowUrl::App("index.html".to_string()),
    );
    let detached = engine.create_window(pending).unwrap();
    manager.attach_window(detached).unwrap()
}

fn scripts(engine: &mut Wry, window: &Window) -> Vec<String> {
    engine
        .take_messages(window.dispatcher().id())
        .into_iter()
        .map(|message| match message {
            WindowMessage::EvaluationScript(script) => script,
            other => panic!("not a script: {:?}", other),
        })
        .collect()
}

fn salt_of(script: &str) -> String {
    let end = script.len() - "')".len();
    let start = script[..end].rfind('\'').unwrap() + 1;
    script[start..end].to_string()
}

fn json(text: &str) -> serde_json::Value {
    serde_json::from_str(text).unwrap()
}

#[test]
fn the_script_has_the_documented_shape() {
    let script = notification_script("fn", "\"ping\"", "{\"n\":1}", "s-1");
    assert_eq!(script, "window['fn']({event: \"ping\", payload: {\"n\":1}}, 's-1')");
    assert_eq!(notification_script("", "", "", ""), "window['']({event: , payload: }, '')");
}

#[test]
fn an_event_name_becomes_a_string_literal() {
    assert_eq!(event_literal("ping"), "\"ping\"");
    assert_eq!(event_literal("a\"b\\c\n"), "\"a\\\"b\\\\c\\n\"");
    assert_eq!(event_literal(""), "\"\"");
}

#[test]
fn a_payload_becomes_compact_json_and_none_becomes_null() {
    assert_eq!(payload_literal(&None), "null");
    assert_eq!(payload_literal(&Some(json("null"))), "null");
    assert_eq!(payload_literal(&Some(json(" { \"a\" : [ 1 , \"x\" ] } "))), "{\"a\":[1,\"x\"]}");
    assert_eq!(payload_literal(&Some(json("\"text\""))), "\"text\"");
}

#[test]
fn emitting_to_a_window_queues_one_script_with_a_fresh_salt() {
    let mut manager = WindowManager::with_event_emit_function_name("listener".to_string());
    let mut engine = Wry::new().unwrap();
    let window = attached(&mut manager, &mut engine, "main");
    window.emit(&mut manager, &mut engine, &"ping".to_string(), Some(json("{\"n\":1}"))).unwrap();
    let queued = scripts(&mut engine, &window);
    assert_eq!(queued.len(), 1);
    let salt = salt_of(&queued[0]);
    assert_eq!(
        queued[0],
        format!("window['listener']({{event: \"ping\", payload: {{\"n\":1}}}}, '{}')", salt)
    );
    assert!(manager.verify_salt(salt.clone()));
    assert!(!manager.verify_salt(salt));
}

#[test]
fn emitting_without_a_payload_sends_null() {
    let mut manager = WindowManager::with_event_emit_function_name("listener".to_string());
    let mut engine = Wry::new().unwrap();
    let window = attached(&mut manager, &mut engine, "main");
    window.emit_internal(&mut manager, &mut engine, "ping", None).unwrap();
    let queued = scripts(&mut engine, &window);
    let salt = salt_of(&queued[0]);
    assert_eq!(
        queued[0],
        format!("window['listener']({{event: \"ping\", payload: null}}, '{}')", salt)
    );
}

#[test]
fn the_function_name_is_the_managers_own() {
    let mut manager = WindowManager::new();
    let name = manager.event_emit_function_name().clone();
    assert!(!name.is_empty());
    assert_ne!(WindowManager::new().event_emit_function_name(), &name);
    let mut engine = Wry::new().unwrap();
    let window = attached(&mut manager, &mut engine, "main");
    window.emit_internal(&mut manager, &mut engine, "ping", None).unwrap();
    let queued = scripts(&mut engine, &window);
    assert!(queued[0].starts_with(&format!("window['{}'](", name)));
}

#[test]
fn the_salt_of_an_emit_belongs_to_the_window() {
    let mut manager = WindowManager::new();
    let mut engine = Wry::new().unwrap();
    let window = attached(&mut manager, &mut engine, "main");
    window.emit_internal(&mut manager, &mut engine, "ping", None).unwrap();
    let salt = salt_of(&scripts(&mut engine, &window)[0]);
    manager.run_on_page_load(window, Some("tauri://localhost".to_string())).unwrap();
    assert!(!manager.verify_salt(salt));
}

#[test]
fn emitting_to_all_tells_every_window_with_a_salt_of_its_own() {
    let mut manager = WindowManager::with_event_emit_function_name("f".to_string());
    let mut engine = Wry::new().unwrap();
    let a = attached(&mut manager, &mut engine, "a");
    let b = attached(&mut manager, &mut engine, "b");
    manager.emit_all(&mut engine, "ping", Some(json("[true]"))).unwrap();
    let for_a = scripts(&mut engine, &a);
    let for_b = scripts(&mut engine, &b);
    assert_eq!(for_a.len(), 1);
    assert_eq!(for_b.len(), 1);
    let (salt_a, salt_b) = (salt_of(&for_a[0]), salt_of(&for_b[0]));
    assert_ne!(salt_a, salt_b);
    assert_eq!(for_a[0], format!("window['f']({{event: \"ping\", payload: [true]}}, '{}')", salt_a));
    assert_eq!(for_b[0], format!("window['f']({{event: \"ping\", payload: [true]}}, '{}')", salt_b));
    assert!(manager.verify_salt(salt_a));
    assert!(manager.verify_salt(salt_b));
}

#[test]
fn emitting_to_the_others_skips_the_window_itself() {
    let mut manager = WindowManager::new();
    let mut engine = Wry::new().unwrap();
    let a = attached(&mut manager, &mut engine, "a");
    let b = attached(&mut manager, &mut engine, "b");
    let c = attached(&mut manager, &mut engine, "c");
    b.emit_others(&mut manager, &mut engine, "ping".to_string(), None).unwrap();
    assert_eq!(scripts(&mut engine, &a).len(), 1);
    assert_eq!(scripts(&mut engine, &b).len(), 0);
    assert_eq!(scripts(&mut engine, &c).len(), 1);
    c.emit_others_internal(&mut manager, &mut engine, "ping".to_string(), None).unwrap();
    assert_eq!(scripts(&mut engine, &a).len(), 1);
    assert_eq!(scripts(&mut engine, &b).len(), 1);
    assert_eq!(scripts(&mut engine, &c).len(), 0);
}

#[test]
fn emitting_with_a_filter_tells_the_windows_that_pass() {
    let mut manager = WindowManager::new();
    let mut engine = Wry::new().unwrap();
    let a = attached(&mut manager, &mut engine, "a");
    let b = attached(&mut manager, &mut engine, "b");
    let c = attached(&mut manager, &mut engine, "c");
    manager
        .emit_filter(&mut engine, "ping", None, |window: &Window| window.label() != "b")
        .unwrap();
    assert_eq!(scripts(&mut engine, &a).len(), 1);
    assert_eq!(scripts(&mut engine, &b).len(), 0);
    assert_eq!(scripts(&mut engine, &c).len(), 1);
    manager.emit_filter(&mut engine, "ping", None, |_window: &Window| false).unwrap();
    assert_eq!(scripts(&mut engine, &a).len(), 0);
    let picked = manager.select(|window: &Window| window == &c);
    assert_eq!(picked.len(), 1);
    assert_eq!(picked[0].label(), "c");
}

#[test]
fn emitting_stops_at_the_first_window_that_is_gone() {
    let mut manager = WindowManager::new();
    let mut engine = Wry::new().unwrap();
    let a = attached(&mut manager, &mut engine, "a");
    let b = attached(&mut manager, &mut engine, "b");
    let c = attached(&mut manager, &mut engine, "c");
    b.close(&mut engine).unwrap();
    engine.take_messages(b.dispatcher().id());
    let answer = manager.emit_all(&mut engine, "ping", None);
    assert!(matches!(answer, Err(Error::FailedToSendMessage)));
    assert_eq!(scripts(&mut engine, &a).len(), 1);
    assert_eq!(scripts(&mut engine, &b).len(), 0);
    assert_eq!(scripts(&mut engine, &c).len(), 0);
    let alone = b.emit(&mut manager, &mut engine, &"ping".to_string(), None);
    assert!(matches!(alone, Err(Error::FailedToSendMessage)));
}

#[test]
fn emitting_does_not_reach_host_side_listeners() {
    let mut manager = WindowManager::new();
    let mut engine = Wry::new().unwrap();
    let window = attached(&mut manager, &mut engine, "main");
    let id = window.listen(&mut manager, "ping".to_string());
    window.emit(&mut manager, &mut engine, &"ping".to_string(), None).unwrap();
    let told = window.trigger(&mut manager, "ping".to_string(), None);
    assert_eq!(told.len(), 1);
    assert_eq!(told[0].id, id);
    assert_eq!(scripts(&mut engine, &window).len(), 1);
}

#[test]
fn the_manager_hands_out_the_attached_windows_in_order() {
    let mut manager = WindowManager::new();
    let mut engine = Wry::new().unwrap();
    attached(&mut manager, &mut engine, "a");
    attached(&mut manager, &mut engine, "b");
    let labels: Vec<String> =
        manager.windows().iter().map(|window| window.label().clone()).collect();
    assert_eq!(labels, vec!["a".to_string(), "b".to_string()]);
    assert_eq!(manager.labels(), labels);
    assert!(manager.can_listen());
}
