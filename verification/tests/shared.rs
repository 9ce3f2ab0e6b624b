use std::sync::{Arc, Mutex};
use webview_bridge::config::WindowUrl;
use webview_bridge::error::Error;
use webview_bridge::runtime::Runtime;
use webview_bridge::webview::Attributes;
use webview_bridge::window::PendingWindow;
use webview_bridge::wry::{Wry, WryDispatcher};

type WindowManager = webview_bridge::manager::WindowManager<WryDispatcher>;

fn create(shared: &Mutex<(Wry, WindowManager)>, label: &str) -> Result<(), Error> {
    let pending = PendingWindow::new(
        Attributes::new(),
        label.to_string(),
        WindowUrl::App("index.html".to_string()),
    );
    let mut guard = shared.lock().unwrap();
    let (engine, manager) = &mut *guard;
    let detached = engine.create_window(pending)?;
    manager.attach_window(detached).map(|_| ())
}

#[test]
fn two_requests_for_one_label_behind_one_lock_leave_one_window() {
    let shared = Arc::new(Mutex::new((Wry::new().unwrap(), WindowManager::new())));
    let requests: Vec<_> = (0..2).map(|_| Arc::clone(&shared)).collect();
    let outcomes: Vec<_> = requests.iter().map(|shared| create(shared, "main")).collect();
    assert_eq!(outcomes.iter().filter(|outcome| outcome.is_ok()).count(), 1);
    assert_eq!(
        outcomes.iter().filter(|outcome| matches!(outcome, Err(Error::CreateWindow))).count(),
        1
    );
    let guard = shared.lock().unwrap();
    assert_eq!(guard.1.labels(), vec!["main".to_string()]);
    assert_eq!(guard.0.window_count(), 1);
}
