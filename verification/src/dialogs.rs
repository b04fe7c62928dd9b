//! Command handling of small dialogs.
use vstd::prelude::*;
use crate::command::{Command, MouseButton, InputMode};
use crate::dialog::DialogResult;
use crate::geom::Rect;
use crate::strutil::push_str;

verus! {

/// The closing part of a dialog: its close button, and a mouse click that
/// began outside the dialog.
pub struct DialogCloser {
    /// The bottom-right corner of the close button.
    pub button_corner: (i32, i32),
    pub escape_click: bool,
}

/// What the closer makes of a command for a dialog with rectangle `rect`,
/// where `button_clicked` tells whether the close button was clicked:
/// the close button closes the dialog; a left click that begins and ends
/// outside the dialog closes it and, when `reprocess`, closes all dialogs
/// and passes the command on; with `reprocess`, mouse movement outside the
/// dialog is passed on as a UI-only mouse state. `None` means the dialog
/// handles the command itself.
pub open spec fn closer_result<W, G>(
    escape_click: bool,
    rect: Rect,
    command: Command,
    reprocess: bool,
    button_clicked: bool,
) -> Option<DialogResult<W, G>> {
    if button_clicked {
        Some(DialogResult::Close)
    } else {
        match command {
            Command::MouseButtonUp { x, y, button } =>
                if escape_click && button == MouseButton::Left && !rect.spec_contains(x as int, y as int) {
                    if reprocess { Some(DialogResult::CloseAllAndReprocess(command)) } else { Some(DialogResult::Close) }
                } else {
                    None
                },
            Command::MouseState { x, y, left_button, right_button, key_state, ui_only } =>
                if reprocess && !rect.spec_contains(x as int, y as int) {
                    Some(DialogResult::Reprocess(Command::MouseState { x, y, left_button, right_button, key_state, ui_only: true }))
                } else {
                    None
                },
            _ => None,
        }
    }
}

/// Whether a click outside the dialog is under way after `command`.
pub open spec fn escape_click_after(escape_click: bool, rect: Rect, command: Command, button_clicked: bool) -> bool {
    if button_clicked {
        escape_click
    } else {
        match command {
            Command::MouseButtonDown { x, y, button } =>
                if button == MouseButton::Left && !rect.spec_contains(x as int, y as int) { true } else { escape_click },
            Command::MouseButtonUp { .. } => false,
            _ => escape_click,
        }
    }
}

impl DialogCloser {
    /// The closer of a dialog with rectangle `parent_rect`: its close
    /// button's bottom-right corner lies `closer_dx` right of and
    /// `closer_dy` above the dialog's top-right corner; no click under way.
    pub fn new(parent_rect: Rect, closer_dx: i32, closer_dy: i32) -> (c: DialogCloser)
        requires
            parent_rect.fits(),
            i32::MIN <= parent_rect.spec_right() + closer_dx <= i32::MAX,
            i32::MIN <= parent_rect.y - closer_dy <= i32::MAX,
        ensures
            c.button_corner == ((parent_rect.spec_right() + closer_dx) as i32, (parent_rect.y - closer_dy) as i32),
            !c.escape_click,
    {
        let p = parent_rect.top_right();
        DialogCloser { button_corner: (p.0 + closer_dx, p.1 - closer_dy), escape_click: false }
    }

    /// Whether the command closes the dialog through the close button,
    /// given the button's answer to it (`Some(true)`: clicked).
    pub fn process_command(&self, button_response: Option<bool>) -> (r: bool)
        ensures
            r == (button_response == Some(true)),
    {
        match button_response {
            Some(b) => b,
            None => false,
        }
    }

    /// Takes `command` for the dialog with rectangle `rect`; `Some` result
    /// ends the dialog's handling of the command.
    pub fn check<W, G>(&mut self, rect: Rect, command: &Command, reprocess: bool, button_clicked: bool) -> (r: Option<DialogResult<W, G>>)
        ensures
            r == closer_result::<W, G>(old(self).escape_click, rect, *command, reprocess, button_clicked),
            final(self).escape_click == escape_click_after(old(self).escape_click, rect, *command, button_clicked),
    {
        if button_clicked {
            return Some(DialogResult::Close);
        }
        match command {
            Command::MouseButtonDown { x, y, button } => {
                if *button == MouseButton::Left && !rect.contains_point(*x, *y) {
                    self.escape_click = true;
                }
                None
            },
            Command::MouseButtonUp { x, y, button } => {
                if self.escape_click {
                    self.escape_click = false;
                    if *button == MouseButton::Left && !rect.contains_point(*x, *y) {
                        if reprocess {
                            return Some(DialogResult::CloseAllAndReprocess(command.copy()));
                        } else {
                            return Some(DialogResult::Close);
                        }
                    }
                }
                None
            },
            Command::MouseState { x, y, left_button, right_button, key_state, .. } => {
                if reprocess && !rect.contains_point(*x, *y) {
                    return Some(DialogResult::Reprocess(Command::MouseState {
                        x: *x,
                        y: *y,
                        left_button: *left_button,
                        right_button: *right_button,
                        key_state: *key_state,
                        ui_only: true,
                    }));
                }
                None
            },
            _ => None,
        }
    }
}

/// The escape-click handling of a dialog without a close button: what the
/// closer makes of `command` with no button clicked. `escape_click` tells
/// whether a click outside the dialog is under way.
pub fn check_escape_click<W, G>(escape_click: &mut bool, rect: Rect, command: &Command, reprocess: bool) -> (r: Option<DialogResult<W, G>>)
    ensures
        r == closer_result::<W, G>(*old(escape_click), rect, *command, reprocess, false),
        *final(escape_click) == escape_click_after(*old(escape_click), rect, *command, false),
{
    let mut closer = DialogCloser { button_corner: (0, 0), escape_click: *escape_click };
    let r = closer.check(rect, command, reprocess, false);
    *escape_click = closer.escape_click;
    r
}

impl Default for DialogCloser {
    /// A closer whose button sits at the origin, with no click under way.
    fn default() -> (c: DialogCloser)
        ensures
            c.button_corner == (0i32, 0i32),
            !c.escape_click,
    {
        DialogCloser { button_corner: (0, 0), escape_click: false }
    }
}

/// Removes the last character of a string (`String::pop`).
#[verifier::external_body]
pub fn pop_char(s: &mut String) -> (r: Option<char>)
    ensures
        old(s)@.len() == 0 ==> r.is_none() && final(s)@ == old(s)@,
        old(s)@.len() > 0 ==> r == Some(old(s)@.last()) && final(s)@ == old(s)@.drop_last(),
{
    s.pop()
}

/// What a text input dialog asks of the text input of the screen.
#[derive(Clone, Copy, Debug, PartialEq, Eq, Structural)]
pub enum TextInputEffect {
    /// Nothing.
    Nothing,
    /// Start text input.
    Start,
    /// Stop text input.
    End,
    /// Stop text input and hand the text to the callback of this key.
    EndAndSubmit(u32),
}

/// A dialog in which the player types a text.
pub struct TextInputDialog {
    rect: Rect,
    text: String,
    callback: Option<u32>,
}

/// What a text input dialog with callback key `callback` does with `c`:
/// typed text is appended, a deletion removes the last character, Enter
/// submits the text to the callback (if there is one) and closes, Cancel
/// closes.
pub open spec fn text_input_result(c: Command, callback: Option<u32>) -> (bool, TextInputEffect) {
    match c {
        Command::Enter => (true, match callback {
            Some(k) => TextInputEffect::EndAndSubmit(k),
            None => TextInputEffect::End,
        }),
        Command::Cancel => (true, TextInputEffect::End),
        _ => (false, TextInputEffect::Nothing),
    }
}

/// The text after command `c`.
pub open spec fn text_after(text: Seq<char>, c: Command) -> Seq<char> {
    match c {
        Command::TextInput { text: t } => text + t@,
        Command::TextDelete => if text.len() > 0 { text.drop_last() } else { text },
        _ => text,
    }
}

impl TextInputDialog {
    /// Key presses are read as typed text while this dialog is on top.
    pub fn mode(&self) -> (m: InputMode)
        ensures
            m == InputMode::TextInput,
    {
        InputMode::TextInput
    }

    /// Where the dialog is.
    pub closed spec fn area(&self) -> Rect {
        self.rect
    }

    /// Where the dialog is.
    pub fn get_rect(&self) -> (r: Rect)
        ensures
            r == self.area(),
    {
        self.rect
    }

    /// The text typed so far.
    pub closed spec fn text_view(&self) -> Seq<char> {
        self.text@
    }

    /// The key of the callback that takes the submitted text.
    pub closed spec fn callback_view(&self) -> Option<u32> {
        self.callback
    }

    /// An empty dialog at `rect`, with no callback, and what the screen's
    /// text input is to do: start.
    pub fn new(rect: Rect) -> (r: (TextInputDialog, TextInputEffect))
        ensures
            r.0.text_view() == Seq::<char>::empty(),
            r.0.area() == rect,
            r.0.callback_view().is_none(),
            r.1 == TextInputEffect::Start,
    {
        (TextInputDialog { rect, text: String::new(), callback: None }, TextInputEffect::Start)
    }

    /// Sets the callback (by its key) that takes the text on Enter.
    pub fn set_callback(&mut self, callback: u32)
        ensures
            final(self).callback_view() == Some(callback),
            final(self).text_view() == old(self).text_view(),
            final(self).area() == old(self).area(),
    {
        self.callback = Some(callback);
    }

    /// Asks for text input again (when the text given was not valid).
    pub fn restart(&self) -> (e: TextInputEffect)
        ensures
            e == TextInputEffect::Start,
    {
        TextInputEffect::Start
    }

    /// The text typed so far.
    pub fn get_text(&self) -> (r: &str)
        ensures
            r@ == self.text_view(),
    {
        self.text.as_str()
    }

    /// Takes a command: whether the dialog closes, and what the screen's
    /// text input is to do.
    pub fn process_command(&mut self, command: &Command) -> (r: (bool, TextInputEffect))
        ensures
            r == text_input_result(*command, old(self).callback_view()),
            final(self).text_view() == text_after(old(self).text_view(), *command),
            final(self).area() == old(self).area(),
            final(self).callback_view() == old(self).callback_view(),
    {
        match command {
            Command::TextInput { text } => {
                push_str(&mut self.text, text.as_str());
                (false, TextInputEffect::Nothing)
            },
            Command::TextDelete => {
                let _ = pop_char(&mut self.text);
                (false, TextInputEffect::Nothing)
            },
            Command::Enter => match self.callback {
                Some(k) => (true, TextInputEffect::EndAndSubmit(k)),
                None => (true, TextInputEffect::End),
            },
            Command::Cancel => (true, TextInputEffect::End),
            _ => (false, TextInputEffect::Nothing),
        }
    }
}

/// Typing a text and deleting one character gives the text as it was
/// before, with the typed text shortened by one character.
pub proof fn law_type_then_delete(text: Seq<char>, typed: String)
    requires
        typed@.len() > 0,
    ensures
        text_after(text_after(text, Command::TextInput { text: typed }), Command::TextDelete)
            == text + typed@.drop_last(),
{
    assert((text + typed@).drop_last() =~= text + typed@.drop_last());
}

/// The items of the sidebar, from the top.
pub const ITEM_INVENTORY: u32 = 0;
pub const ITEM_EQUIPMENT: u32 = 1;
pub const ITEM_CHARAINFO: u32 = 2;
pub const ITEM_CREATION: u32 = 3;
pub const ITEM_GAMEINFO: u32 = 4;
pub const ITEM_SAVE: u32 = 5;
pub const N_ITEM: u32 = 6;

/// The sidebar: a column of icons that open the main windows.
pub struct Sidebar {
    pub rect: Rect,
    pub mouseover: Option<u32>,
    /// Height of an icon and the space below it.
    pub item_h: u32,
}

/// The sidebar item at height `y` of the sidebar with rectangle `rect`.
pub open spec fn sidebar_item(rect: Rect, item_h: u32, y: int) -> int {
    (y - rect.y) / (item_h as int)
}

/// The command that sidebar item `i` gives, if any.
pub open spec fn sidebar_command(i: int) -> Option<Command> {
    if i == ITEM_INVENTORY { Some(Command::OpenItemMenu) }
    else if i == ITEM_EQUIPMENT { Some(Command::OpenEquipWin) }
    else if i == ITEM_CHARAINFO { Some(Command::OpenStatusWin) }
    else if i == ITEM_CREATION { Some(Command::OpenCreationWin) }
    else if i == ITEM_GAMEINFO { Some(Command::OpenGameInfoWin) }
    else if i == ITEM_SAVE { Some(Command::OpenExitWin) }
    else { None }
}

/// What the sidebar answers to `c`: mouse activity on the sidebar is taken
/// (a left click released on an item gives that item's command), anything
/// else passes on.
pub open spec fn sidebar_result<W, G>(rect: Rect, item_h: u32, c: Command) -> DialogResult<W, G> {
    match c {
        Command::MouseState { x, y, .. } =>
            if rect.spec_contains(x as int, y as int) { DialogResult::Command(None) } else { DialogResult::Continue },
        Command::MouseButtonDown { x, y, .. } =>
            if rect.spec_contains(x as int, y as int) { DialogResult::Command(None) } else { DialogResult::Continue },
        Command::MouseButtonUp { x, y, button } =>
            if !rect.spec_contains(x as int, y as int) {
                DialogResult::Continue
            } else if button != MouseButton::Left {
                DialogResult::Command(None)
            } else {
                match sidebar_command(sidebar_item(rect, item_h, y as int)) {
                    Some(cmd) => DialogResult::Command(Some(cmd)),
                    None => DialogResult::Continue,
                }
            },
        _ => DialogResult::Continue,
    }
}

/// The item the mouse is over after `c`.
pub open spec fn mouseover_after(rect: Rect, item_h: u32, old_mouseover: Option<u32>, c: Command) -> Option<u32> {
    match c {
        Command::MouseState { x, y, .. } =>
            if rect.spec_contains(x as int, y as int) && sidebar_item(rect, item_h, y as int) < N_ITEM {
                Some(sidebar_item(rect, item_h, y as int) as u32)
            } else {
                None
            },
        _ => old_mouseover,
    }
}

impl Sidebar {
    /// How key presses are read while this window is on top.
    pub fn mode(&self) -> (m: InputMode)
        ensures
            m == InputMode::Dialog,
    {
        InputMode::Dialog
    }


    /// The sidebar at `(x, y)` with icons `icon_w` wide and `icon_h` high
    /// and `space` between them.
    pub fn new(x: i32, y: i32, icon_w: u32, icon_h: u32, space: u32) -> (s: Sidebar)
        requires
            0 < icon_h + space,
            (icon_h + space) * N_ITEM <= u32::MAX,
        ensures
            s.rect == Rect::new_spec(x, y, icon_w, ((icon_h + space) * N_ITEM) as u32),
            s.mouseover.is_none(),
            s.item_h == icon_h + space,
    {
        let item_h = icon_h + space;
        Sidebar { rect: Rect::new(x, y, icon_w, item_h * N_ITEM), mouseover: None, item_h }
    }

    /// Takes a command.
    pub fn process_command<W, G>(&mut self, command: &Command) -> (r: DialogResult<W, G>)
        requires
            old(self).item_h > 0,
        ensures
            r == sidebar_result::<W, G>(old(self).rect, old(self).item_h, *command),
            final(self).mouseover == mouseover_after(old(self).rect, old(self).item_h, old(self).mouseover, *command),
            final(self).rect == old(self).rect,
            final(self).item_h == old(self).item_h,
    {
        match command {
            Command::MouseState { x, y, .. } => {
                self.mouseover = None;
                if self.rect.contains_point(*x, *y) {
                    let i = ((*y as i64 - self.rect.y as i64) as u32) / self.item_h;
                    if i < N_ITEM {
                        self.mouseover = Some(i);
                    }
                    return DialogResult::Command(None);
                }
            },
            Command::MouseButtonDown { x, y, .. } => {
                if !self.rect.contains_point(*x, *y) {
                    return DialogResult::Continue;
                }
                return DialogResult::Command(None);
            },
            Command::MouseButtonUp { x, y, button } => {
                if !self.rect.contains_point(*x, *y) {
                    return DialogResult::Continue;
                }
                if *button != MouseButton::Left {
                    return DialogResult::Command(None);
                }
                let i = ((*y as i64 - self.rect.y as i64) as u32) / self.item_h;
                if i == ITEM_INVENTORY {
                    return DialogResult::Command(Some(Command::OpenItemMenu));
                } else if i == ITEM_EQUIPMENT {
                    return DialogResult::Command(Some(Command::OpenEquipWin));
                } else if i == ITEM_CHARAINFO {
                    return DialogResult::Command(Some(Command::OpenStatusWin));
                } else if i == ITEM_CREATION {
                    return DialogResult::Command(Some(Command::OpenCreationWin));
                } else if i == ITEM_GAMEINFO {
                    return DialogResult::Command(Some(Command::OpenGameInfoWin));
                } else if i == ITEM_SAVE {
                    return DialogResult::Command(Some(Command::OpenExitWin));
                }
            },
            _ => {},
        }
        DialogResult::Continue
    }

    /// The icon pattern of item `i`: the highlighted pattern when the mouse
    /// is over it.
    pub fn icon_pattern(&self, i: u32) -> (p: u32)
        requires
            i < N_ITEM,
        ensures
            p == i * 2 + (if self.mouseover == Some(i) { 1int } else { 0int }),
    {
        let over: u32 = match self.mouseover {
            Some(m) => if m == i { 1 } else { 0 },
            None => 0,
        };
        i * 2 + over
    }
}


/// Releasing a mouse button ends any click outside the dialog that was
/// under way (unless the close button took the command).
pub proof fn law_release_ends_escape_click(escape_click: bool, rect: Rect, x: i32, y: i32, button: MouseButton)
    ensures
        !escape_click_after(escape_click, rect, Command::MouseButtonUp { x, y, button }, false),
{
}

/// The item the mouse is over, after any command, is one of the sidebar's
/// items.
pub proof fn law_sidebar_mouseover_in_range(rect: Rect, item_h: u32, old_mouseover: Option<u32>, c: Command)
    requires
        item_h > 0,
        old_mouseover matches Some(i) ==> i < N_ITEM,
    ensures
        mouseover_after(rect, item_h, old_mouseover, c) matches Some(i) ==> i < N_ITEM,
{
    if let Command::MouseState { x, y, .. } = c {
        if rect.spec_contains(x as int, y as int) {
            let d = y - rect.y;
            assert(d >= 0);
            assert(d / (item_h as int) >= 0) by (nonlinear_arith)
                requires d >= 0, item_h > 0;
        }
    }
}

} // verus!
