use webview_bridge::config::{Pixels, WindowUrl};
use webview_bridge::error::Error;
use webview_bridge::webview::{
    Attributes, CustomProtocol, FileDropEvent, Hook, Icon, RpcRequest, WryIcon,
};
use webview_bridge::window::{DetachedWindow, PendingWindow};
use webview_bridge::runtime::{Dispatch, Runtime, WindowId};
use webview_bridge::wry::{
    create_custom_protocol, create_file_drop_handler, create_rpc_handler, WindowMessage, Wry,
    WryDispatcher, WryError,
};

type WindowManager = webview_bridge::manager::WindowManager<WryDispatcher>;
type Window = webview_bridge::window::Window<WryDispatcher>;

fn pending(label: &str) -> PendingWindow {
    PendingWindow::new(
        Attributes::new(),
        label.to_string(),
        WindowUrl::App("index.html".to_string()),
    )
}

fn px(value: f64) -> Pixels {
    Pixels::from_bits(value.to_bits())
}

#[test]
fn a_realized_window_goes_by_the_label_of_the_pending_one() {
    let mut engine = Wry::new().unwrap();
    let main = engine.create_window(pending("main")).unwrap();
    let other = engine.create_window(pending("other")).unwrap();
    assert_eq!(main.label, "main");
    assert_eq!(other.label, "other");
    assert_eq!(main.dispatcher.id(), WindowId { index: 0 });
    assert_eq!(other.dispatcher.id(), WindowId { index: 1 });
    assert!(engine.has_label(&"main".to_string()));
    assert!(engine.is_open(main.dispatcher.id()));
    assert!(!engine.is_open(WindowId { index: 2 }));
}

#[test]
fn creating_a_window_twice_under_one_label_fails_the_second_time() {
    let mut engine = Wry::new().unwrap();
    let mut manager = WindowManager::new();
    let first = engine.create_window(pending("main"));
    let second = engine.create_window(pending("main"));
    assert!(first.is_ok());
    assert!(matches!(second, Err(Error::CreateWindow)));
    assert!(manager.attach_window(first.unwrap()).is_ok());
    assert_eq!(manager.window_count(), 1);
    assert_eq!(manager.labels(), vec!["main".to_string()]);
    assert!(!engine.is_open(WindowId { index: 1 }));
}

#[test]
fn attaching_a_label_twice_fails_and_keeps_the_first_window() {
    let mut manager = WindowManager::new();
    let first = DetachedWindow {
        label: "main".to_string(),
        dispatcher: Wry::new().unwrap().create_window(pending("main")).unwrap().dispatcher,
    };
    let mut other_engine = Wry::new().unwrap();
    other_engine.create_window(pending("filler")).unwrap();
    let second = other_engine.create_window(pending("main")).unwrap();
    assert!(manager.attach_window(first).is_ok());
    assert!(matches!(manager.attach_window(second), Err(Error::CreateWindow)));
    assert_eq!(manager.window_count(), 1);
    let kept = manager.get_window(&"main".to_string()).unwrap();
    assert_eq!(kept.dispatcher().id(), WindowId { index: 0 });
}

#[test]
fn a_label_is_free_again_once_its_window_is_closed() {
    let mut engine = Wry::new().unwrap();
    let mut manager = WindowManager::new();
    let first = engine.create_window(pending("main")).unwrap();
    let handle = manager.attach_window(first).unwrap();
    handle.close(&mut engine).unwrap();
    assert!(manager.detach_window(&"main".to_string()));
    assert!(!manager.detach_window(&"main".to_string()));
    assert!(!manager.is_attached(&"main".to_string()));
    assert!(manager.get_window(&"main".to_string()).is_none());
    let again = engine.create_window(pending("main")).unwrap();
    assert_eq!(again.dispatcher.id(), WindowId { index: 1 });
    assert!(manager.attach_window(again).is_ok());
}

#[test]
fn operations_reach_a_window_in_the_order_in_which_they_were_sent() {
    let mut engine = Wry::new().unwrap();
    let window = Window::new(engine.create_window(pending("main")).unwrap());
    window.set_title(&mut engine, "one").unwrap();
    window.maximize(&mut engine).unwrap();
    window.eval(&mut engine, "two()").unwrap();
    window.set_resizable(&mut engine, false).unwrap();
    window.hide_window(&mut engine).unwrap();
    let messages = engine.take_messages(window.dispatcher().id());
    assert_eq!(messages.len(), 5);
    assert!(matches!(&messages[0], WindowMessage::SetTitle(title) if title == "one"));
    assert!(matches!(&messages[1], WindowMessage::Maximize));
    assert!(matches!(&messages[2], WindowMessage::EvaluationScript(js) if js == "two()"));
    assert!(matches!(&messages[3], WindowMessage::SetResizable(false)));
    assert!(matches!(&messages[4], WindowMessage::Hide));
    assert!(engine.take_messages(window.dispatcher().id()).is_empty());
}

#[test]
fn every_operation_becomes_its_own_message() {
    let mut engine = Wry::new().unwrap();
    let window = Window::new(engine.create_window(pending("main")).unwrap());
    window.unmaximize(&mut engine).unwrap();
    window.minimize(&mut engine).unwrap();
    window.unminimize(&mut engine).unwrap();
    window.show(&mut engine).unwrap();
    window.set_decorations(&mut engine, true).unwrap();
    window.set_always_on_top(&mut engine, true).unwrap();
    window.set_width(&mut engine, px(640.0)).unwrap();
    window.set_height(&mut engine, px(480.5)).unwrap();
    window.resize(&mut engine, px(1.0), px(2.0)).unwrap();
    window.set_min_size(&mut engine, px(3.0), px(4.0)).unwrap();
    window.set_max_size(&mut engine, px(5.0), px(6.0)).unwrap();
    window.set_x(&mut engine, px(-7.0)).unwrap();
    window.set_y(&mut engine, px(8.0)).unwrap();
    window.set_position(&mut engine, px(9.0), px(10.0)).unwrap();
    window.set_fullscreen(&mut engine, true).unwrap();
    window.set_icon(&mut engine, Icon::Raw(vec![1, 2, 3])).unwrap();
    let m = engine.take_messages(window.dispatcher().id());
    assert_eq!(m.len(), 16);
    assert!(matches!(m[0], WindowMessage::Unmaximize));
    assert!(matches!(m[1], WindowMessage::Minimize));
    assert!(matches!(m[2], WindowMessage::Unminimize));
    assert!(matches!(m[3], WindowMessage::Show));
    assert!(matches!(m[4], WindowMessage::SetDecorations(true)));
    assert!(matches!(m[5], WindowMessage::SetAlwaysOnTop(true)));
    assert!(matches!(m[6], WindowMessage::SetWidth(w) if f64::from_bits(w.to_bits()) == 640.0));
    assert!(matches!(m[7], WindowMessage::SetHeight(h) if f64::from_bits(h.to_bits()) == 480.5));
    assert!(matches!(m[8], WindowMessage::Resize { width, height }
        if width == px(1.0) && height == px(2.0)));
    assert!(matches!(m[9], WindowMessage::SetMinSize { min_width, min_height }
        if min_width == px(3.0) && min_height == px(4.0)));
    assert!(matches!(m[10], WindowMessage::SetMaxSize { max_width, max_height }
        if max_width == px(5.0) && max_height == px(6.0)));
    assert!(matches!(m[11], WindowMessage::SetX(x) if x == px(-7.0)));
    assert!(matches!(m[12], WindowMessage::SetY(y) if y == px(8.0)));
    assert!(matches!(m[13], WindowMessage::SetPosition { x, y } if x == px(9.0) && y == px(10.0)));
    assert!(matches!(m[14], WindowMessage::SetFullscreen(true)));
    assert!(matches!(&m[15], WindowMessage::SetIcon(icon) if icon.as_bytes() == &vec![1u8, 2, 3]));
}

#[test]
fn operations_on_one_window_leave_the_others_alone() {
    let mut engine = Wry::new().unwrap();
    let a = Window::new(engine.create_window(pending("a")).unwrap());
    let b = Window::new(engine.create_window(pending("b")).unwrap());
    a.show(&mut engine).unwrap();
    b.set_title(&mut engine, "b").unwrap();
    a.maximize(&mut engine).unwrap();
    let for_b = engine.take_messages(b.dispatcher().id());
    let for_a = engine.take_messages(a.dispatcher().id());
    assert_eq!(for_a.len(), 2);
    assert!(matches!(for_a[0], WindowMessage::Show));
    assert!(matches!(for_a[1], WindowMessage::Maximize));
    assert_eq!(for_b.len(), 1);
    assert!(matches!(&for_b[0], WindowMessage::SetTitle(title) if title == "b"));
}

#[test]
fn a_closed_window_refuses_every_later_operation_through_any_handle() {
    let mut engine = Wry::new().unwrap();
    let window = Window::new(engine.create_window(pending("main")).unwrap());
    let copy = window.clone();
    window.show(&mut engine).unwrap();
    copy.close(&mut engine).unwrap();
    assert!(matches!(window.show(&mut engine), Err(Error::FailedToSendMessage)));
    assert!(matches!(window.close(&mut engine), Err(Error::FailedToSendMessage)));
    assert!(matches!(copy.eval(&mut engine, "x"), Err(Error::FailedToSendMessage)));
    assert!(matches!(
        window.set_icon(&mut engine, Icon::Raw(vec![0])),
        Err(Error::FailedToSendMessage)
    ));
    let messages = engine.take_messages(window.dispatcher().id());
    assert_eq!(messages.len(), 2);
    assert!(matches!(messages[0], WindowMessage::Show));
    assert!(matches!(messages[1], WindowMessage::Close));
    assert!(!engine.has_label(&"main".to_string()));
}

#[test]
fn a_window_that_went_away_refuses_operations() {
    let mut engine = Wry::new().unwrap();
    let window = Window::new(engine.create_window(pending("main")).unwrap());
    window.show(&mut engine).unwrap();
    engine.window_closed(window.dispatcher().id());
    engine.window_closed(WindowId { index: 7 });
    assert!(matches!(window.set_title(&mut engine, "late"), Err(Error::FailedToSendMessage)));
    assert_eq!(engine.take_messages(window.dispatcher().id()).len(), 1);
    assert!(engine.take_messages(WindowId { index: 7 }).is_empty());
}

#[test]
fn a_handle_on_no_window_fails_to_deliver() {
    let mut engine = Wry::new().unwrap();
    let mut elsewhere = Wry::new().unwrap();
    let window = Window::new(elsewhere.create_window(pending("main")).unwrap());
    assert!(matches!(window.show(&mut engine), Err(Error::FailedToSendMessage)));
}

#[test]
fn a_dispatcher_creates_windows_on_its_engine() {
    let mut engine = Wry::new().unwrap();
    let main = engine.create_window(pending("main")).unwrap();
    let child = WryDispatcher::create_window(&mut engine, pending("child")).unwrap();
    assert_eq!(child.label, "child");
    assert_eq!(child.dispatcher.id(), WindowId { index: 1 });
    let twice = WryDispatcher::create_window(&mut engine, pending("child"));
    assert!(matches!(twice, Err(Error::CreateWindow)));
    child.dispatcher.set_title(&mut engine, "t".to_string()).unwrap();
    child.dispatcher.hide_window(&mut engine).unwrap();
    assert_eq!(engine.take_messages(child.dispatcher.id()).len(), 2);
}

#[test]
fn windows_are_the_same_when_their_labels_are() {
    let mut engine = Wry::new().unwrap();
    let a = engine.create_window(pending("a")).unwrap();
    let b = engine.create_window(pending("b")).unwrap();
    let a_elsewhere = DetachedWindow { label: "a".to_string(), dispatcher: b.dispatcher };
    assert!(a == a_elsewhere);
    assert!(a != b);
    assert!(a.clone() == a);
    assert!(Window::new(a.clone()) == Window::new(a_elsewhere));
    assert!(Window::new(a) != Window::new(b));
}

#[test]
fn a_window_hands_out_its_label_and_its_dispatcher() {
    let mut engine = Wry::new().unwrap();
    engine.create_window(pending("zero")).unwrap();
    let detached = engine.create_window(pending("main")).unwrap();
    let window = Window::new(detached);
    assert_eq!(window.label(), "main");
    assert_eq!(window.dispatcher().id().index, 1);
}

#[test]
fn the_hooks_of_a_pending_window_are_bound_to_the_realized_one() {
    let mut engine = Wry::new().unwrap();
    let mut with_hooks = pending("main");
    with_hooks.rpc_handler = Some(Hook { id: 11 });
    with_hooks.file_drop_handler = Some(Hook { id: 12 });
    with_hooks.custom_protocol =
        Some(CustomProtocol { name: "tauri".to_string(), handler: Hook { id: 13 } });
    let main = engine.create_window(with_hooks).unwrap();
    let bare = engine.create_window(pending("bare")).unwrap();

    let request = RpcRequest { command: "greet".to_string(), params: None };
    let call = engine.on_rpc(main.dispatcher.id(), request).unwrap();
    assert_eq!(call.handler, Hook { id: 11 });
    assert_eq!(call.window.label, "main");
    assert_eq!(call.window.dispatcher, main.dispatcher);
    assert_eq!(call.request.command, "greet");

    let drop = engine
        .on_file_drop(main.dispatcher.id(), FileDropEvent::Hovered(vec!["/tmp/a".to_string()]))
        .unwrap();
    assert_eq!(drop.handler, Hook { id: 12 });
    assert_eq!(drop.window.label, "main");
    assert!(matches!(drop.event, FileDropEvent::Hovered(paths) if paths == vec!["/tmp/a"]));

    assert_eq!(
        engine.on_custom_protocol(main.dispatcher.id(), &"tauri".to_string()),
        Some(Hook { id: 13 })
    );
    assert_eq!(engine.on_custom_protocol(main.dispatcher.id(), &"http".to_string()), None);

    let request = RpcRequest { command: "greet".to_string(), params: None };
    assert!(engine.on_rpc(bare.dispatcher.id(), request).is_none());
    assert!(engine.on_file_drop(bare.dispatcher.id(), FileDropEvent::Cancelled).is_none());
    assert_eq!(engine.on_custom_protocol(bare.dispatcher.id(), &"tauri".to_string()), None);
}

#[test]
fn a_window_that_is_gone_has_no_hook_due() {
    let mut engine = Wry::new().unwrap();
    let mut with_hooks = pending("main");
    with_hooks.rpc_handler = Some(Hook { id: 1 });
    with_hooks.file_drop_handler = Some(Hook { id: 2 });
    with_hooks.custom_protocol =
        Some(CustomProtocol { name: "tauri".to_string(), handler: Hook { id: 3 } });
    let main = engine.create_window(with_hooks).unwrap();
    main.dispatcher.close(&mut engine).unwrap();
    let request = RpcRequest { command: "greet".to_string(), params: None };
    assert!(engine.on_rpc(main.dispatcher.id(), request).is_none());
    assert!(engine.on_file_drop(main.dispatcher.id(), FileDropEvent::Cancelled).is_none());
    assert_eq!(engine.on_custom_protocol(main.dispatcher.id(), &"tauri".to_string()), None);
}

#[test]
fn bound_handlers_put_the_window_under_its_label() {
    let rpc = create_rpc_handler("main".to_string(), Hook { id: 5 });
    let request = RpcRequest {
        command: "greet".to_string(),
        params: Some(serde_json::Value::Bool(true)),
    };
    let call = rpc.call(WindowId { index: 3 }, request);
    assert_eq!(call.handler, Hook { id: 5 });
    assert_eq!(call.window.label, "main");
    assert_eq!(call.window.dispatcher.id(), WindowId { index: 3 });
    assert_eq!(call.request.params, Some(serde_json::Value::Bool(true)));

    let drop = create_file_drop_handler("main".to_string(), Hook { id: 6 });
    let call = drop.call(WindowId { index: 4 }, FileDropEvent::Dropped(vec!["a".to_string()]));
    assert_eq!(call.handler, Hook { id: 6 });
    assert_eq!(call.window.label, "main");
    assert_eq!(call.window.dispatcher.id(), WindowId { index: 4 });
    assert!(matches!(call.event, FileDropEvent::Dropped(paths) if paths == vec!["a"]));
}

#[test]
fn a_custom_protocol_answers_with_bytes_or_with_the_one_failure() {
    let protocols = create_custom_protocol(CustomProtocol {
        name: "tauri".to_string(),
        handler: Hook { id: 9 },
    });
    assert_eq!(protocols.len(), 1);
    assert_eq!(protocols[0].hook(), Hook { id: 9 });
    assert_eq!(protocols[0].respond(Ok(vec![1, 2])).unwrap(), vec![1, 2]);
    assert!(matches!(
        protocols[0].respond(Err(Error::FailedToSendMessage)),
        Err(WryError::InitScriptError)
    ));
    assert!(matches!(protocols[0].respond(Err(Error::Json)), Err(WryError::InitScriptError)));
}

#[test]
fn an_icon_of_bytes_converts_and_an_icon_on_disk_is_refused() {
    let icon = WryIcon::try_from(Icon::Raw(vec![7, 8, 9])).unwrap();
    assert_eq!(icon.as_bytes(), &vec![7u8, 8, 9]);
    assert_eq!(icon.clone().as_bytes(), &vec![7u8, 8, 9]);
    let refused = WryIcon::try_from(Icon::File("icons/app.png".to_string()));
    assert!(matches!(refused, Err(Error::InvalidIcon(path)) if path == "icons/app.png"));
}

#[test]
fn an_icon_that_is_refused_sends_nothing() {
    let mut engine = Wry::new().unwrap();
    let window = Window::new(engine.create_window(pending("main")).unwrap());
    let refused = window.set_icon(&mut engine, Icon::File("app.png".to_string()));
    assert!(matches!(refused, Err(Error::InvalidIcon(path)) if path == "app.png"));
    assert!(engine.take_messages(window.dispatcher().id()).is_empty());
}

#[test]
fn failures_are_answered_to_the_page_or_to_the_host() {
    assert!(Error::InvalidSalt.is_for_page());
    assert!(Error::UnknownApi.is_for_page());
    assert!(Error::Json.is_for_page());
    assert!(!Error::CreateWebview.is_for_page());
    assert!(!Error::CreateWindow.is_for_page());
    assert!(!Error::FailedToSendMessage.is_for_page());
    assert!(!Error::InvalidIcon(String::new()).is_for_page());
}

fn title_then_close<D: Dispatch>(window: &webview_bridge::window::Window<D>, runtime: &mut D::Runtime) -> bool {
    window.set_title(runtime, "bye").is_ok()
        && window.close(runtime).is_ok()
        && window.show(runtime).is_err()
}

#[test]
fn the_bridge_works_through_the_contract_of_any_engine() {
    let mut engine = <Wry as Runtime>::new().unwrap();
    assert_eq!(engine.window_count(), 0);
    let detached = <WryDispatcher as Dispatch>::create_window(&mut engine, pending("main")).unwrap();
    let window = Window::new(detached);
    assert!(title_then_close(&window, &mut engine));
    assert_eq!(engine.window_count(), 1);
    let messages = engine.take_messages(window.dispatcher().id());
    assert_eq!(messages.len(), 2);
    assert!(matches!(&messages[0], WindowMessage::SetTitle(title) if title == "bye"));
    assert!(matches!(messages[1], WindowMessage::Close));
}

#[test]
fn an_engine_converts_icons_as_its_dispatcher_says() {
    let icon = <WryDispatcher as Dispatch>::try_icon(Icon::Raw(vec![4, 2])).unwrap();
    assert_eq!(icon.as_bytes(), &vec![4u8, 2]);
    let refused = <WryDispatcher as Dispatch>::try_icon(Icon::File("x.ico".to_string()));
    assert!(matches!(refused, Err(Error::InvalidIcon(_))));
}

#[test]
fn a_long_run_of_operations_keeps_its_order() {
    let mut engine = Wry::new().unwrap();
    let a = Window::new(engine.create_window(pending("a")).unwrap());
    let b = Window::new(engine.create_window(pending("b")).unwrap());
    for n in 0..50 {
        a.eval(&mut engine, &format!("a{}", n)).unwrap();
        b.eval(&mut engine, &format!("b{}", n)).unwrap();
    }
    let for_a = engine.take_messages(a.dispatcher().id());
    assert_eq!(for_a.len(), 50);
    for (n, message) in for_a.iter().enumerate() {
        assert!(matches!(message, WindowMessage::EvaluationScript(js) if *js == format!("a{}", n)));
    }
    a.eval(&mut engine, "later").unwrap();
    let rest = engine.take_messages(a.dispatcher().id());
    assert_eq!(rest.len(), 1);
    assert_eq!(engine.take_messages(b.dispatcher().id()).len(), 50);
}

#[test]
fn the_engine_keeps_what_a_window_was_created_with() {
    let mut engine = Wry::new().unwrap();
    let mut chosen = PendingWindow::new(
        Attributes::new().title("kept".to_string()).url("tauri://localhost".to_string()),
        "main".to_string(),
        WindowUrl::App("index.html".to_string()),
    );
    chosen.custom_protocol =
        Some(CustomProtocol { name: "tauri".to_string(), handler: Hook { id: 2 } });
    let main = engine.create_window(chosen).unwrap();
    let bare = engine.create_window(pending("bare")).unwrap();
    let kept = engine.attributes(main.dispatcher.id()).unwrap();
    assert_eq!(kept.title, "kept");
    assert_eq!(kept.url.as_deref(), Some("tauri://localhost"));
    assert!(engine.attributes(WindowId { index: 9 }).is_none());
    let served = engine.custom_protocol(main.dispatcher.id()).unwrap();
    assert_eq!(served.scheme(), "tauri");
    assert_eq!(served.hook(), Hook { id: 2 });
    assert!(engine.custom_protocol(bare.dispatcher.id()).is_none());
    assert!(engine.custom_protocol(WindowId { index: 9 }).is_none());
}

#[test]
fn closing_through_the_manager_frees_the_label() {
    let mut engine = Wry::new().unwrap();
    let mut manager = WindowManager::new();
    let window = manager.attach_window(engine.create_window(pending("main")).unwrap()).unwrap();
    manager.attach_window(engine.create_window(pending("other")).unwrap()).unwrap();
    manager.close_window(&mut engine, &"main".to_string()).unwrap();
    assert_eq!(manager.labels(), vec!["other".to_string()]);
    assert!(!engine.is_open(window.dispatcher().id()));
    let messages = engine.take_messages(window.dispatcher().id());
    assert_eq!(messages.len(), 1);
    assert!(matches!(messages[0], WindowMessage::Close));
    assert!(matches!(window.show(&mut engine), Err(Error::FailedToSendMessage)));
    let again = manager.close_window(&mut engine, &"main".to_string());
    assert!(matches!(again, Err(Error::FailedToSendMessage)));
    assert!(manager.attach_window(engine.create_window(pending("main")).unwrap()).is_ok());
}

#[test]
fn closing_a_window_that_went_away_still_detaches_it() {
    let mut engine = Wry::new().unwrap();
    let mut manager = WindowManager::new();
    let window = manager.attach_window(engine.create_window(pending("main")).unwrap()).unwrap();
    engine.window_closed(window.dispatcher().id());
    let answer = manager.close_window(&mut engine, &"main".to_string());
    assert!(matches!(answer, Err(Error::FailedToSendMessage)));
    assert!(!manager.is_attached(&"main".to_string()));
    assert!(engine.take_messages(window.dispatcher().id()).is_empty());
}
