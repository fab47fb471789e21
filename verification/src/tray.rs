//! The tray menu and the window actions that tray events stand for.

use vstd::prelude::*;
use vstd::string::StringExecFns;
use crate::effect::no_effects;
use crate::effect::one_effect;
use crate::effect::outcome_view;
use crate::effect::two_effects;
use crate::effect::Effect;
use crate::effect::EffectView;
use crate::effect::WindowOp;
use crate::error::ErrorView;
use crate::error::ShellError;
use crate::window::after_focus;
use crate::window::after_hide;
use crate::window::after_show;
use crate::window::main_window;
use crate::window::KnownWindow;
use crate::window::WindowRegistry;
use crate::window::WindowStatus;

verus! {

/// An item of the tray menu, as plain mathematical values.
pub struct TrayMenuItemView {
    pub id: Seq<char>,
    pub label: Seq<char>,
    pub enabled: bool,
    pub accelerator: Option<Seq<char>>,
}

/// An item of the tray menu.
#[derive(Debug, PartialEq, Eq)]
pub struct TrayMenuItem {
    pub id: String,
    pub label: String,
    pub enabled: bool,
    pub accelerator: Option<String>,
}

impl View for TrayMenuItem {
    type V = TrayMenuItemView;

    open spec fn view(&self) -> TrayMenuItemView {
        TrayMenuItemView {
            id: self.id@,
            label: self.label@,
            enabled: self.enabled,
            accelerator: match self.accelerator {
                Some(a) => Some(a@),
                None => None,
            },
        }
    }
}

impl DeepView for TrayMenuItem {
    type V = TrayMenuItemView;

    open spec fn deep_view(&self) -> TrayMenuItemView {
        self@
    }
}

/// An enabled item without an accelerator.
pub open spec fn plain_item(id: Seq<char>, label: Seq<char>) -> TrayMenuItemView {
    TrayMenuItemView { id, label, enabled: true, accelerator: None }
}

/// The menu's items in order: "show", then "hide" where the menu has it, then
/// "quit" with the platform's quit shortcut.
pub open spec fn standard_items(with_hide: bool) -> Seq<TrayMenuItemView> {
    let show = plain_item("show"@, "Show"@);
    let hide = plain_item("hide"@, "Hide"@);
    let quit = TrayMenuItemView { accelerator: Some("CmdOrCtrl+Q"@), ..plain_item("quit"@, "Quit"@) };
    if with_hide {
        seq![show, hide, quit]
    } else {
        seq![show, quit]
    }
}

impl TrayMenuItem {
    /// An enabled item without an accelerator.
    pub fn new(id: &str, label: &str) -> (item: Self)
        ensures
            item@ == plain_item(id@, label@),
    {
        TrayMenuItem {
            id: String::from_str(id),
            label: String::from_str(label),
            enabled: true,
            accelerator: None,
        }
    }

    /// The same item with the keyboard shortcut `keys`.
    pub fn with_accelerator(self, keys: &str) -> (item: Self)
        ensures
            item@ == (TrayMenuItemView { accelerator: Some(keys@), ..self@ }),
    {
        TrayMenuItem {
            id: self.id,
            label: self.label,
            enabled: self.enabled,
            accelerator: Some(String::from_str(keys)),
        }
    }
}

/// The tray menu as it was built at startup. It does not change afterwards.
#[derive(Debug, PartialEq, Eq)]
pub struct TrayHandle {
    items: Vec<TrayMenuItem>,
}

impl View for TrayHandle {
    type V = Seq<TrayMenuItemView>;

    closed spec fn view(&self) -> Seq<TrayMenuItemView> {
        self.items.deep_view()
    }
}

impl TrayHandle {
    /// The items of the menu, in order.
    pub fn items(&self) -> (items: &Vec<TrayMenuItem>)
        ensures
            items.deep_view() == self@,
    {
        &self.items
    }
}

/// What the activation of a menu item stands for.
#[derive(Debug, Clone, Copy, PartialEq, Eq, Structural)]
pub enum MenuAction {
    /// End the process.
    Quit,
    /// Show the main window and give it the focus.
    Show,
    /// Hide the main window.
    Hide,
    /// An item that this layer does not know: nothing happens.
    Ignored,
}

/// The action that a menu identifier stands for.
pub open spec fn menu_action(id: Seq<char>) -> MenuAction {
    if id == "quit"@ {
        MenuAction::Quit
    } else if id == "show"@ {
        MenuAction::Show
    } else if id == "hide"@ {
        MenuAction::Hide
    } else {
        MenuAction::Ignored
    }
}

/// A click on the tray icon itself.
#[derive(Debug, Clone, Copy, PartialEq, Eq, Structural)]
pub enum TrayIconEvent {
    PrimaryClick,
    SecondaryClick,
    DoubleClick,
}

/// The action that a click on the tray icon stands for: a primary click shows
/// the main window, whatever its visibility; nothing else does anything.
pub open spec fn icon_action(kind: TrayIconEvent) -> MenuAction {
    match kind {
        TrayIconEvent::PrimaryClick => MenuAction::Show,
        _ => MenuAction::Ignored,
    }
}

/// The windows after a tray action. Only the main window is ever touched.
pub open spec fn windows_after_action(
    m: Map<Seq<char>, WindowStatus>,
    action: MenuAction,
) -> Map<Seq<char>, WindowStatus> {
    match action {
        MenuAction::Show => after_focus(after_show(m, main_window()), main_window()),
        MenuAction::Hide => after_hide(m, main_window()),
        _ => m,
    }
}

/// What a tray action asks of the host, given that it succeeds.
pub open spec fn effects_of_action(action: MenuAction) -> Seq<EffectView> {
    match action {
        MenuAction::Quit => seq![EffectView::Exit { code: 0 }],
        MenuAction::Show => seq![
            EffectView::Window { window: KnownWindow::Main, op: WindowOp::Show },
            EffectView::Window { window: KnownWindow::Main, op: WindowOp::Focus },
        ],
        MenuAction::Hide => seq![
            EffectView::Window { window: KnownWindow::Main, op: WindowOp::Hide },
        ],
        MenuAction::Ignored => Seq::empty(),
    }
}

/// Whether a tray action needs the main window.
pub open spec fn action_needs_main(action: MenuAction) -> bool {
    action == MenuAction::Show || action == MenuAction::Hide
}

/// What a tray action returns on given windows: its effects, or the report
/// that the main window is missing.
pub open spec fn outcome_of_action(
    m: Map<Seq<char>, WindowStatus>,
    action: MenuAction,
) -> Result<Seq<EffectView>, ErrorView> {
    if action_needs_main(action) && !m.contains_key(main_window()) {
        Err(ErrorView::WindowNotFound(main_window()))
    } else {
        Ok(effects_of_action(action))
    }
}

/// Maps tray events to window actions.
#[derive(Debug, PartialEq, Eq)]
pub struct TrayController {
    handle: TrayHandle,
}

impl View for TrayController {
    type V = Seq<TrayMenuItemView>;

    closed spec fn view(&self) -> Seq<TrayMenuItemView> {
        self.handle@
    }
}

impl TrayController {
    /// The items of the usual menu, with or without "hide".
    pub fn standard_menu(with_hide: bool) -> (items: Vec<TrayMenuItem>)
        ensures
            items.deep_view() == standard_items(with_hide),
    {
        let mut items: Vec<TrayMenuItem> = Vec::new();
        items.push(TrayMenuItem::new("show", "Show"));
        if with_hide {
            items.push(TrayMenuItem::new("hide", "Hide"));
        }
        items.push(TrayMenuItem::new("quit", "Quit").with_accelerator("CmdOrCtrl+Q"));
        assert(items.deep_view() =~= standard_items(with_hide));
        items
    }

    /// Builds the tray menu from its items, kept in their order.
    pub fn build(menu_items: Vec<TrayMenuItem>) -> (handle: TrayHandle)
        ensures
            handle@ == menu_items.deep_view(),
    {
        TrayHandle { items: menu_items }
    }

    /// A controller for a menu that was built.
    pub fn new(handle: TrayHandle) -> (c: Self)
        ensures
            c@ == handle@,
    {
        TrayController { handle }
    }

    /// The menu that the controller owns.
    pub fn handle(&self) -> (handle: &TrayHandle)
        ensures
            handle@ == self@,
    {
        &self.handle
    }

    /// The action that a menu identifier stands for.
    pub fn classify(id: &str) -> (action: MenuAction)
        ensures
            action == menu_action(id@),
    {
        let key = String::from_str(id);
        if key == String::from_str("quit") {
            MenuAction::Quit
        } else if key == String::from_str("show") {
            MenuAction::Show
        } else if key == String::from_str("hide") {
            MenuAction::Hide
        } else {
            MenuAction::Ignored
        }
    }

    /// Carries a tray action out on the windows and returns what the host has
    /// to do. Where the main window is needed and missing, that is reported
    /// and nothing changes.
    pub fn perform(&self, windows: &mut WindowRegistry, action: MenuAction) -> (res: Result<
        Vec<Effect>,
        ShellError,
    >)
        ensures
            outcome_view(res) == outcome_of_action(old(windows)@, action),
            res is Ok ==> final(windows)@ == windows_after_action(old(windows)@, action),
            res is Err ==> *final(windows) == *old(windows),
    {
        match action {
            MenuAction::Quit => Ok(one_effect(Effect::Exit { code: 0 })),
            MenuAction::Show => {
                windows.show(KnownWindow::Main.id())?;
                let focused = windows.focus(KnownWindow::Main.id());
                assert(focused is Ok);
                Ok(
                    two_effects(
                        Effect::Window { window: KnownWindow::Main, op: WindowOp::Show },
                        Effect::Window { window: KnownWindow::Main, op: WindowOp::Focus },
                    ),
                )
            },
            MenuAction::Hide => {
                windows.hide_window(KnownWindow::Main.id())?;
                Ok(one_effect(Effect::Window { window: KnownWindow::Main, op: WindowOp::Hide }))
            },
            MenuAction::Ignored => Ok(no_effects()),
        }
    }

    /// A menu item was activated.
    pub fn on_menu_event(&self, windows: &mut WindowRegistry, id: &str) -> (res: Result<
        Vec<Effect>,
        ShellError,
    >)
        ensures
            outcome_view(res) == outcome_of_action(old(windows)@, menu_action(id@)),
            res is Ok ==> final(windows)@ == windows_after_action(
                old(windows)@,
                menu_action(id@),
            ),
            res is Err ==> *final(windows) == *old(windows),
    {
        self.perform(windows, Self::classify(id))
    }

    /// The tray icon itself was clicked.
    pub fn on_tray_icon_event(&self, windows: &mut WindowRegistry, kind: TrayIconEvent) -> (res:
        Result<Vec<Effect>, ShellError>)
        ensures
            outcome_view(res) == outcome_of_action(old(windows)@, icon_action(kind)),
            res is Ok ==> final(windows)@ == windows_after_action(
                old(windows)@,
                icon_action(kind),
            ),
            res is Err ==> *final(windows) == *old(windows),
    {
        let action = match kind {
            TrayIconEvent::PrimaryClick => MenuAction::Show,
            _ => MenuAction::Ignored,
        };
        self.perform(windows, action)
    }
}

} // verus!
