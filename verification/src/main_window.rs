//! The main window: the map view, which turns mouse events on it into
//! commands.
use vstd::prelude::*;
use crate::command::{Command, MouseButton};
use crate::geom::Rect;

verus! {

/// What the main window is doing with the mouse.
#[derive(Clone, Copy, Debug, PartialEq, Eq, Structural)]
pub enum MainWindowMode {
    /// Mouse actions move, shoot or use a tool.
    Normal,
    /// A tile is being chosen as the target of an effect.
    Target,
}

/// The main window's part of the map view: where it is, the tile it
/// centers on, the tile under the mouse, and its mode.
pub struct MainWindow {
    pub rect: Rect,
    pub centering_tile: Option<(i32, i32)>,
    pub hover_tile: Option<(i32, i32)>,
    pub mode: MainWindowMode,
}

/// What a mouse event on the main window gives.
#[derive(Debug)]
pub enum ConvertMouseEventResult {
    /// Nothing.
    Ignored,
    /// This command.
    Command(Command),
    /// Open the menu of `tile` at the mouse position `(x, y)`;
    /// `centering` tells whether the view is centered on a tile.
    OpenTileMenu { tile: (i32, i32), x: i32, y: i32, centering: bool },
    /// Run the targeting action on `tile`.
    DoAction { tile: (i32, i32) },
}

/// What the main window makes of `command`, where `tile` is the tile under
/// the command's mouse position and `target_ok` tells whether that tile
/// can be targeted (in the effect's range, on the map and in sight).
pub open spec fn convert_result(w: MainWindow, command: Command, tile: (i32, i32), target_ok: bool) -> ConvertMouseEventResult {
    match command {
        Command::MouseButtonDown { .. } => ConvertMouseEventResult::Ignored,
        Command::MouseButtonUp { x, y, button } =>
            if !w.rect.spec_contains(x as int, y as int) {
                ConvertMouseEventResult::Ignored
            } else if button == MouseButton::Right {
                if w.mode == MainWindowMode::Target {
                    ConvertMouseEventResult::Ignored
                } else {
                    ConvertMouseEventResult::OpenTileMenu { tile, x, y, centering: w.centering_tile.is_some() }
                }
            } else if button == MouseButton::Left && w.mode == MainWindowMode::Target && target_ok {
                ConvertMouseEventResult::DoAction { tile }
            } else {
                ConvertMouseEventResult::Ignored
            },
        Command::MouseWheel { .. } => ConvertMouseEventResult::Ignored,
        Command::MouseState { x, y, left_button, key_state, ui_only, .. } =>
            if ui_only || !w.rect.spec_contains(x as int, y as int) || w.mode == MainWindowMode::Target || !left_button {
                ConvertMouseEventResult::Ignored
            } else if key_state.ctrl {
                ConvertMouseEventResult::Command(Command::Shoot { target: tile })
            } else if key_state.shift {
                ConvertMouseEventResult::Command(Command::UseTool { target: tile })
            } else {
                ConvertMouseEventResult::Command(Command::MoveTo { dest: tile })
            },
        _ => ConvertMouseEventResult::Command(command),
    }
}

/// The main window after `command`: a button released outside it, a right
/// click or a successful target click ends the targeting; a middle click
/// centers the view on the tile; mouse movement over it marks the tile
/// under the mouse.
pub open spec fn window_after(w: MainWindow, command: Command, tile: (i32, i32), target_ok: bool) -> MainWindow {
    match command {
        Command::MouseButtonUp { x, y, button } =>
            if !w.rect.spec_contains(x as int, y as int) || button == MouseButton::Right {
                MainWindow { mode: MainWindowMode::Normal, ..w }
            } else if button == MouseButton::Middle {
                MainWindow { centering_tile: Some(tile), ..w }
            } else if button == MouseButton::Left && w.mode == MainWindowMode::Target && target_ok {
                MainWindow { mode: MainWindowMode::Normal, ..w }
            } else {
                w
            },
        Command::MouseState { x, y, ui_only, .. } =>
            if !ui_only && w.rect.spec_contains(x as int, y as int) {
                MainWindow { hover_tile: Some(tile), ..w }
            } else {
                w
            },
        _ => w,
    }
}

impl MainWindow {
    /// The main window at `rect`, in the normal mode, not centered, with no
    /// tile under the mouse.
    pub fn new(rect: Rect) -> (w: MainWindow)
        ensures
            w == (MainWindow { rect, centering_tile: None, hover_tile: None, mode: MainWindowMode::Normal }),
    {
        MainWindow { rect, centering_tile: None, hover_tile: None, mode: MainWindowMode::Normal }
    }

    /// Centers the view on `tile`.
    pub fn start_centering_mode(&mut self, tile: (i32, i32))
        ensures
            *final(self) == (MainWindow { centering_tile: Some(tile), ..*old(self) }),
    {
        self.centering_tile = Some(tile);
    }

    /// Stops centering the view.
    pub fn stop_centering_mode(&mut self)
        ensures
            *final(self) == (MainWindow { centering_tile: None, ..*old(self) }),
    {
        self.centering_tile = None;
    }

    /// Marks `tile`, the tile under the mouse position `pos`, when `pos`
    /// lies in the window, and gives it; else `None`.
    pub fn update_tile_cursor(&mut self, pos: (i32, i32), tile: (i32, i32)) -> (r: Option<(i32, i32)>)
        ensures
            old(self).rect.spec_contains(pos.0 as int, pos.1 as int) ==>
                r == Some(tile) && *final(self) == (MainWindow { hover_tile: Some(tile), ..*old(self) }),
            !old(self).rect.spec_contains(pos.0 as int, pos.1 as int) ==>
                r.is_none() && *final(self) == *old(self),
    {
        if self.rect.contains_point(pos.0, pos.1) {
            self.hover_tile = Some(tile);
            Some(tile)
        } else {
            None
        }
    }

    /// Forgets the tile under the mouse.
    pub fn reset_tile_cursor(&mut self)
        ensures
            *final(self) == (MainWindow { hover_tile: None, ..*old(self) }),
    {
        self.hover_tile = None;
    }

    /// Starts choosing a target tile.
    pub fn start_targeting_mode(&mut self)
        ensures
            *final(self) == (MainWindow { mode: MainWindowMode::Target, ..*old(self) }),
    {
        self.mode = MainWindowMode::Target;
    }

    /// Turns a mouse event on the main window into what it gives; `tile` is
    /// the tile under the event's mouse position and `target_ok` whether it
    /// can be targeted.
    pub fn convert_mouse_event(&mut self, command: Command, tile: (i32, i32), target_ok: bool) -> (r: ConvertMouseEventResult)
        ensures
            r == convert_result(*old(self), command, tile, target_ok),
            *final(self) == window_after(*old(self), command, tile, target_ok),
    {
        match &command {
            Command::MouseButtonDown { .. } => ConvertMouseEventResult::Ignored,
            Command::MouseButtonUp { x, y, button } => {
                let (x, y, button) = (*x, *y, *button);
                if !self.rect.contains_point(x, y) {
                    if self.mode == MainWindowMode::Target {
                        self.mode = MainWindowMode::Normal;
                    }
                    return ConvertMouseEventResult::Ignored;
                }
                if button == MouseButton::Right {
                    if self.mode == MainWindowMode::Target {
                        self.mode = MainWindowMode::Normal;
                        return ConvertMouseEventResult::Ignored;
                    } else {
                        return ConvertMouseEventResult::OpenTileMenu {
                            tile,
                            x,
                            y,
                            centering: self.centering_tile.is_some(),
                        };
                    }
                }
                if button == MouseButton::Middle {
                    self.start_centering_mode(tile);
                }
                if button == MouseButton::Left {
                    if self.mode == MainWindowMode::Target && target_ok {
                        self.mode = MainWindowMode::Normal;
                        return ConvertMouseEventResult::DoAction { tile };
                    }
                }
                ConvertMouseEventResult::Ignored
            },
            Command::MouseWheel { .. } => ConvertMouseEventResult::Ignored,
            Command::MouseState { x, y, left_button, key_state, ui_only, .. } => {
                if *ui_only {
                    return ConvertMouseEventResult::Ignored;
                }
                if !self.rect.contains_point(*x, *y) {
                    return ConvertMouseEventResult::Ignored;
                }
                self.hover_tile = Some(tile);
                if self.mode == MainWindowMode::Target {
                    return ConvertMouseEventResult::Ignored;
                }
                if *left_button {
                    if key_state.ctrl {
                        return ConvertMouseEventResult::Command(Command::Shoot { target: tile });
                    } else if key_state.shift {
                        return ConvertMouseEventResult::Command(Command::UseTool { target: tile });
                    } else {
                        return ConvertMouseEventResult::Command(Command::MoveTo { dest: tile });
                    }
                }
                ConvertMouseEventResult::Ignored
            },
            _ => ConvertMouseEventResult::Command(command),
        }
    }
}


/// Choosing a target ends the targeting; a right click, or a button
/// released outside the window, ends it too; without targeting no target
/// is chosen.
pub proof fn law_targeting_ends(w: MainWindow, command: Command, tile: (i32, i32), target_ok: bool)
    ensures
        convert_result(w, command, tile, target_ok) is DoAction ==>
            w.mode == MainWindowMode::Target && window_after(w, command, tile, target_ok).mode == MainWindowMode::Normal,
        (command matches Command::MouseButtonUp { x, y, button }
            && (button == MouseButton::Right || !w.rect.spec_contains(x as int, y as int)))
            ==> window_after(w, command, tile, target_ok).mode == MainWindowMode::Normal,
        w.mode == MainWindowMode::Normal ==> !(convert_result(w, command, tile, target_ok) is DoAction),
{
}

} // verus!
