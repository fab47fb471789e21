use timer_shell::effect::Effect;
use timer_shell::effect::WindowOp;
use timer_shell::error::ShellError;
use timer_shell::tray::MenuAction;
use timer_shell::tray::TrayController;
use timer_shell::tray::TrayIconEvent;
use timer_shell::tray::TrayMenuItem;
use timer_shell::window::KnownWindow;
use timer_shell::window::Visibility;
use timer_shell::window::WindowRegistry;

fn controller() -> TrayController {
    TrayController::new(TrayController::build(TrayController::standard_menu(true)))
}

fn show_and_focus() -> Vec<Effect> {
    vec![
        Effect::Window { window: KnownWindow::Main, op: WindowOp::Show },
        Effect::Window { window: KnownWindow::Main, op: WindowOp::Focus },
    ]
}

#[test]
fn menu_item_starts_enabled_without_accelerator() {
    let item = TrayMenuItem::new("show", "Show");
    assert_eq!(item.id, "show");
    assert_eq!(item.label, "Show");
    assert!(item.enabled);
    assert_eq!(item.accelerator, None);
}

#[test]
fn accelerator_is_added_and_the_rest_kept() {
    let item = TrayMenuItem::new("quit", "Quit").with_accelerator("CmdOrCtrl+Q");
    assert_eq!(item.id, "quit");
    assert_eq!(item.label, "Quit");
    assert!(item.enabled);
    assert_eq!(item.accelerator, Some("CmdOrCtrl+Q".to_string()));
}

#[test]
fn standard_menu_without_hide() {
    let items = TrayController::standard_menu(false);
    assert_eq!(
        items,
        vec![
            TrayMenuItem::new("show", "Show"),
            TrayMenuItem::new("quit", "Quit").with_accelerator("CmdOrCtrl+Q"),
        ]
    );
}

#[test]
fn standard_menu_with_hide() {
    let items = TrayController::standard_menu(true);
    assert_eq!(
        items,
        vec![
            TrayMenuItem::new("show", "Show"),
            TrayMenuItem::new("hide", "Hide"),
            TrayMenuItem::new("quit", "Quit").with_accelerator("CmdOrCtrl+Q"),
        ]
    );
}

#[test]
fn build_keeps_the_items_in_order() {
    let items = vec![
        TrayMenuItem::new("quit", "Leave"),
        TrayMenuItem::new("about", "About"),
    ];
    let handle = TrayController::build(items);
    assert_eq!(
        handle.items(),
        &vec![TrayMenuItem::new("quit", "Leave"), TrayMenuItem::new("about", "About")]
    );
    let c = TrayController::new(handle);
    assert_eq!(c.handle().items().len(), 2);
}

#[test]
fn build_of_no_items() {
    let handle = TrayController::build(Vec::new());
    assert!(handle.items().is_empty());
}

#[test]
fn classify_known_and_unknown_ids() {
    assert_eq!(TrayController::classify("quit"), MenuAction::Quit);
    assert_eq!(TrayController::classify("show"), MenuAction::Show);
    assert_eq!(TrayController::classify("hide"), MenuAction::Hide);
    assert_eq!(TrayController::classify("about"), MenuAction::Ignored);
    assert_eq!(TrayController::classify(""), MenuAction::Ignored);
    assert_eq!(TrayController::classify("Quit"), MenuAction::Ignored);
    assert_eq!(TrayController::classify("show "), MenuAction::Ignored);
}

#[test]
fn quit_exits_with_code_zero() {
    let c = controller();
    let mut w = WindowRegistry::new();
    assert_eq!(c.on_menu_event(&mut w, "quit"), Ok(vec![Effect::Exit { code: 0 }]));
    assert_eq!(w.visibility("main"), Visibility::Shown);
}

#[test]
fn quit_needs_no_window() {
    let c = controller();
    let mut w = WindowRegistry::empty();
    assert_eq!(c.on_menu_event(&mut w, "quit"), Ok(vec![Effect::Exit { code: 0 }]));
}

#[test]
fn show_item_shows_and_focuses_main() {
    let c = controller();
    let mut w = WindowRegistry::new();
    w.hide_window("main").unwrap();
    assert_eq!(c.on_menu_event(&mut w, "show"), Ok(show_and_focus()));
    assert_eq!(w.visibility("main"), Visibility::Shown);
    assert!(w.is_focused("main"));
}

#[test]
fn show_item_takes_focus_from_the_widget() {
    let c = controller();
    let mut w = WindowRegistry::new();
    w.open("timer_widget", true).unwrap();
    w.focus("timer_widget").unwrap();
    assert_eq!(c.on_menu_event(&mut w, "show"), Ok(show_and_focus()));
    assert!(w.is_focused("main"));
    assert!(!w.is_focused("timer_widget"));
    assert_eq!(w.visibility("timer_widget"), Visibility::Shown);
}

#[test]
fn hide_item_hides_main_only() {
    let c = controller();
    let mut w = WindowRegistry::new();
    w.open("timer_widget", true).unwrap();
    w.focus("timer_widget").unwrap();
    assert_eq!(
        c.on_menu_event(&mut w, "hide"),
        Ok(vec![Effect::Window { window: KnownWindow::Main, op: WindowOp::Hide }])
    );
    assert_eq!(w.visibility("main"), Visibility::Hidden);
    assert_eq!(w.visibility("timer_widget"), Visibility::Shown);
    assert!(w.is_focused("timer_widget"));
}

#[test]
fn unknown_menu_id_is_ignored() {
    let c = controller();
    let mut w = WindowRegistry::new();
    w.hide_window("main").unwrap();
    assert_eq!(c.on_menu_event(&mut w, "about"), Ok(Vec::new()));
    assert_eq!(w.visibility("main"), Visibility::Hidden);
}

#[test]
fn missing_main_is_reported_by_show_and_hide() {
    let c = controller();
    let mut w = WindowRegistry::empty();
    let missing = Err(ShellError::WindowNotFound("main".to_string()));
    assert_eq!(c.on_menu_event(&mut w, "show"), missing);
    assert_eq!(c.on_menu_event(&mut w, "hide"), missing);
    assert_eq!(c.on_tray_icon_event(&mut w, TrayIconEvent::PrimaryClick), missing);
    assert!(!w.contains("main"));
}

#[test]
fn primary_click_is_not_a_toggle() {
    let c = controller();
    let mut w = WindowRegistry::new();
    assert_eq!(c.on_tray_icon_event(&mut w, TrayIconEvent::PrimaryClick), Ok(show_and_focus()));
    assert_eq!(w.visibility("main"), Visibility::Shown);
    assert!(w.is_focused("main"));
    assert_eq!(c.on_tray_icon_event(&mut w, TrayIconEvent::PrimaryClick), Ok(show_and_focus()));
    assert_eq!(w.visibility("main"), Visibility::Shown);
    assert!(w.is_focused("main"));
    w.hide_window("main").unwrap();
    assert_eq!(c.on_tray_icon_event(&mut w, TrayIconEvent::PrimaryClick), Ok(show_and_focus()));
    assert_eq!(w.visibility("main"), Visibility::Shown);
}

#[test]
fn other_clicks_do_nothing() {
    let c = controller();
    let mut w = WindowRegistry::new();
    w.hide_window("main").unwrap();
    assert_eq!(c.on_tray_icon_event(&mut w, TrayIconEvent::SecondaryClick), Ok(Vec::new()));
    assert_eq!(c.on_tray_icon_event(&mut w, TrayIconEvent::DoubleClick), Ok(Vec::new()));
    assert_eq!(w.visibility("main"), Visibility::Hidden);
}

#[test]
fn perform_each_action() {
    let c = controller();
    let mut w = WindowRegistry::new();
    assert_eq!(c.perform(&mut w, MenuAction::Ignored), Ok(Vec::new()));
    assert_eq!(c.perform(&mut w, MenuAction::Quit), Ok(vec![Effect::Exit { code: 0 }]));
    assert_eq!(
        c.perform(&mut w, MenuAction::Hide),
        Ok(vec![Effect::Window { window: KnownWindow::Main, op: WindowOp::Hide }])
    );
    assert_eq!(c.perform(&mut w, MenuAction::Show), Ok(show_and_focus()));
}
