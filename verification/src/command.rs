//! Player commands, as the event handler produces them.
use vstd::prelude::*;
use crate::geom::Rect;

verus! {

/// How key presses are read: on the map, in a dialog, or as typed text.
#[derive(Clone, Copy, Debug, PartialEq, Eq, Structural)]
pub enum InputMode {
    Normal,
    Dialog,
    TextInput,
}

/// A mouse button.
#[derive(Clone, Copy, Debug, PartialEq, Eq, Structural)]
pub enum MouseButton {
    Left,
    Middle,
    Right,
}

/// The modifier keys held, as the mouse state reports them.
#[derive(Clone, Copy, Debug, PartialEq, Eq, Structural)]
pub struct KeyState {
    pub ctrl: bool,
    pub shift: bool,
}

/// A command that the player's input produces. Tile positions and
/// directions are given as coordinate pairs.
#[derive(Debug)]
pub enum Command {
    Move { dir: (i32, i32) },
    MoveTo { dest: (i32, i32) },
    Shoot { target: (i32, i32) },
    UseTool { target: (i32, i32) },
    Enter,
    Cancel,
    RotateWindowRight,
    RotateWindowLeft,
    ItemInformation,
    OpenAbilityWin,
    OpenCreationWin,
    OpenDebugCommandWin,
    OpenEquipWin,
    OpenExitWin,
    OpenGameInfoWin,
    OpenHelpWin,
    OpenStatusWin,
    OpenItemWin,
    OpenItemMenu,
    PickUpItem,
    DropItem,
    DrinkItem,
    EatItem,
    ReleaseItem,
    ActionShortcut(usize),
    ChangeEquip { kind: u32 },
    TextInput { text: String },
    TextDelete,
    MouseButtonDown { x: i32, y: i32, button: MouseButton },
    MouseButtonUp { x: i32, y: i32, button: MouseButton },
    MouseWheel { x: i32, y: i32 },
    MouseState { x: i32, y: i32, left_button: bool, right_button: bool, key_state: KeyState, ui_only: bool },
}

/// The id of the UI text that names command `c`.
pub open spec fn command_text_id(c: Command) -> Seq<char> {
    match c {
        Command::Move { .. } => "command-move"@,
        Command::MoveTo { .. } => "command-move_to"@,
        Command::Shoot { .. } => "command-shoot"@,
        Command::UseTool { .. } => "command-use-tool"@,
        Command::Enter => "command-enter"@,
        Command::Cancel => "command-cancel"@,
        Command::RotateWindowRight => "command-rotate_window_right"@,
        Command::RotateWindowLeft => "command-rotate_window_left"@,
        Command::ItemInformation => "command-item_information"@,
        Command::OpenAbilityWin => "command-open_ability_win"@,
        Command::OpenCreationWin => "command-open_creation_win"@,
        Command::OpenDebugCommandWin => "command-open_debug_command_win"@,
        Command::OpenEquipWin => "command-open_equip_win"@,
        Command::OpenExitWin => "command-open_exit_win"@,
        Command::OpenGameInfoWin => "command-open_game_info_win"@,
        Command::OpenHelpWin => "command-open_help_win"@,
        Command::OpenStatusWin => "command-open_status_win"@,
        Command::OpenItemWin => "command-open_item_menu"@,
        Command::OpenItemMenu => "command-open_item_menu"@,
        Command::PickUpItem => "command-pick_up_item"@,
        Command::DropItem => "command-drop_item"@,
        Command::DrinkItem => "command-drink_item"@,
        Command::EatItem => "command-eat_item"@,
        Command::ReleaseItem => "command-release_item"@,
        Command::ActionShortcut(_) => "command-action_shortcut"@,
        Command::ChangeEquip { .. } => "command-change_equip"@,
        Command::TextInput { .. } => "command-text_input"@,
        Command::TextDelete => "command-text_delete"@,
        Command::MouseButtonDown { .. } => "command-mouse_button_down"@,
        Command::MouseButtonUp { .. } => "command-mouse_button_up"@,
        Command::MouseWheel { .. } => "command-mouse_wheel"@,
        Command::MouseState { .. } => "command-mouse_state"@,
    }
}

impl Command {
    /// The id of the UI text that names this command.
    pub fn text_id(&self) -> (r: &'static str)
        ensures
            r@ == command_text_id(*self),
    {
        match self {
            Command::Move { .. } => "command-move",
            Command::MoveTo { .. } => "command-move_to",
            Command::Shoot { .. } => "command-shoot",
            Command::UseTool { .. } => "command-use-tool",
            Command::Enter => "command-enter",
            Command::Cancel => "command-cancel",
            Command::RotateWindowRight => "command-rotate_window_right",
            Command::RotateWindowLeft => "command-rotate_window_left",
            Command::ItemInformation => "command-item_information",
            Command::OpenAbilityWin => "command-open_ability_win",
            Command::OpenCreationWin => "command-open_creation_win",
            Command::OpenDebugCommandWin => "command-open_debug_command_win",
            Command::OpenEquipWin => "command-open_equip_win",
            Command::OpenExitWin => "command-open_exit_win",
            Command::OpenGameInfoWin => "command-open_game_info_win",
            Command::OpenHelpWin => "command-open_help_win",
            Command::OpenStatusWin => "command-open_status_win",
            Command::OpenItemWin => "command-open_item_menu",
            Command::OpenItemMenu => "command-open_item_menu",
            Command::PickUpItem => "command-pick_up_item",
            Command::DropItem => "command-drop_item",
            Command::DrinkItem => "command-drink_item",
            Command::EatItem => "command-eat_item",
            Command::ReleaseItem => "command-release_item",
            Command::ActionShortcut(_) => "command-action_shortcut",
            Command::ChangeEquip { .. } => "command-change_equip",
            Command::TextInput { .. } => "command-text_input",
            Command::TextDelete => "command-text_delete",
            Command::MouseButtonDown { .. } => "command-mouse_button_down",
            Command::MouseButtonUp { .. } => "command-mouse_button_up",
            Command::MouseWheel { .. } => "command-mouse_wheel",
            Command::MouseState { .. } => "command-mouse_state",
        }
    }

    /// A copy of this command.
    pub fn copy(&self) -> (r: Command)
        ensures
            r == *self,
    {
        match self {
            Command::TextInput { text } => Command::TextInput { text: text.clone() },
            Command::Move { dir } => Command::Move { dir: *dir },
            Command::MoveTo { dest } => Command::MoveTo { dest: *dest },
            Command::Shoot { target } => Command::Shoot { target: *target },
            Command::UseTool { target } => Command::UseTool { target: *target },
            Command::Enter => Command::Enter,
            Command::Cancel => Command::Cancel,
            Command::RotateWindowRight => Command::RotateWindowRight,
            Command::RotateWindowLeft => Command::RotateWindowLeft,
            Command::ItemInformation => Command::ItemInformation,
            Command::OpenAbilityWin => Command::OpenAbilityWin,
            Command::OpenCreationWin => Command::OpenCreationWin,
            Command::OpenDebugCommandWin => Command::OpenDebugCommandWin,
            Command::OpenEquipWin => Command::OpenEquipWin,
            Command::OpenExitWin => Command::OpenExitWin,
            Command::OpenGameInfoWin => Command::OpenGameInfoWin,
            Command::OpenHelpWin => Command::OpenHelpWin,
            Command::OpenStatusWin => Command::OpenStatusWin,
            Command::OpenItemWin => Command::OpenItemWin,
            Command::OpenItemMenu => Command::OpenItemMenu,
            Command::PickUpItem => Command::PickUpItem,
            Command::DropItem => Command::DropItem,
            Command::DrinkItem => Command::DrinkItem,
            Command::EatItem => Command::EatItem,
            Command::ReleaseItem => Command::ReleaseItem,
            Command::ActionShortcut(n) => Command::ActionShortcut(*n),
            Command::ChangeEquip { kind } => Command::ChangeEquip { kind: *kind },
            Command::TextDelete => Command::TextDelete,
            Command::MouseButtonDown { x, y, button } => Command::MouseButtonDown { x: *x, y: *y, button: *button },
            Command::MouseButtonUp { x, y, button } => Command::MouseButtonUp { x: *x, y: *y, button: *button },
            Command::MouseWheel { x, y } => Command::MouseWheel { x: *x, y: *y },
            Command::MouseState { x, y, left_button, right_button, key_state, ui_only } =>
                Command::MouseState {
                    x: *x,
                    y: *y,
                    left_button: *left_button,
                    right_button: *right_button,
                    key_state: *key_state,
                    ui_only: *ui_only,
                },
        }
    }

    /// Whether this is `Cancel`.
    pub fn is_cancel(&self) -> (r: bool)
        ensures
            r == (*self is Cancel),
    {
        matches!(self, Command::Cancel)
    }
}


/// Whether the mouse position of `c` stays within `i32` when made relative
/// to `r`.
pub open spec fn relative_fits(c: Command, r: Rect) -> bool {
    match c {
        Command::MouseButtonDown { x, y, .. } | Command::MouseButtonUp { x, y, .. }
        | Command::MouseState { x, y, .. } => i32::MIN <= x - r.x <= i32::MAX && i32::MIN <= y - r.y <= i32::MAX,
        _ => true,
    }
}

/// Command `c` with its mouse position (of a button press, release or the
/// mouse state) made relative to the top-left corner of `r`; other commands
/// are unchanged.
pub open spec fn relative_command(c: Command, r: Rect) -> Command {
    match c {
        Command::MouseButtonDown { x, y, button } =>
            Command::MouseButtonDown { x: (x - r.x) as i32, y: (y - r.y) as i32, button },
        Command::MouseButtonUp { x, y, button } =>
            Command::MouseButtonUp { x: (x - r.x) as i32, y: (y - r.y) as i32, button },
        Command::MouseState { x, y, left_button, right_button, key_state, ui_only } =>
            Command::MouseState { x: (x - r.x) as i32, y: (y - r.y) as i32, left_button, right_button, key_state, ui_only },
        _ => c,
    }
}

impl Command {
    /// This command with its mouse position made relative to `r`.
    pub fn relative_to(&self, r: Rect) -> (c: Command)
        requires
            relative_fits(*self, r),
        ensures
            c == relative_command(*self, r),
    {
        match self {
            Command::MouseButtonDown { x, y, button } =>
                Command::MouseButtonDown { x: *x - r.x, y: *y - r.y, button: *button },
            Command::MouseButtonUp { x, y, button } =>
                Command::MouseButtonUp { x: *x - r.x, y: *y - r.y, button: *button },
            Command::MouseState { x, y, left_button, right_button, key_state, ui_only } =>
                Command::MouseState {
                    x: *x - r.x,
                    y: *y - r.y,
                    left_button: *left_button,
                    right_button: *right_button,
                    key_state: *key_state,
                    ui_only: *ui_only,
                },
            _ => self.copy(),
        }
    }
}

} // verus!
