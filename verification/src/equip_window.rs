//! The equipment window: the equipment slots of a character, and the menu
//! of a slot.
use vstd::prelude::*;
use crate::choose_window::ListResponse;
use crate::command::Command;
use crate::dialog::{DialogCloseValue, DialogResult};
use crate::dialogs::{check_escape_click, closer_result, escape_click_after};
use crate::geom::Rect;
use crate::texts::{TextBundles, lookup, no_args, ui_txt};

verus! {

/// The kinds of equipment slots.
#[derive(Clone, Copy, Debug, PartialEq, Eq, Structural)]
pub enum EquipSlotKind {
    MeleeWeapon,
    RangedWeapon,
    Tool,
    Shield,
    Head,
    Skin,
    Body,
    Arms,
    Legs,
    Accessory,
}

/// The id of the icon of a slot kind.
pub open spec fn slot_icon(esk: EquipSlotKind) -> Seq<char> {
    match esk {
        EquipSlotKind::MeleeWeapon => "!icon-melee-weapon"@,
        EquipSlotKind::RangedWeapon => "!icon-ranged-weapon"@,
        EquipSlotKind::Tool => "!icon-tool"@,
        EquipSlotKind::Shield => "!icon-shield"@,
        EquipSlotKind::Head => "!icon-head"@,
        EquipSlotKind::Skin => "!icon-skin"@,
        EquipSlotKind::Body => "!icon-body"@,
        EquipSlotKind::Arms => "!icon-arms"@,
        EquipSlotKind::Legs => "!icon-legs"@,
        EquipSlotKind::Accessory => "!icon-accessory"@,
    }
}

/// The id of the icon of a slot kind.
pub fn slot_icon_id(esk: EquipSlotKind) -> (r: &'static str)
    ensures
        r@ == slot_icon(esk),
{
    match esk {
        EquipSlotKind::MeleeWeapon => "!icon-melee-weapon",
        EquipSlotKind::RangedWeapon => "!icon-ranged-weapon",
        EquipSlotKind::Tool => "!icon-tool",
        EquipSlotKind::Shield => "!icon-shield",
        EquipSlotKind::Head => "!icon-head",
        EquipSlotKind::Skin => "!icon-skin",
        EquipSlotKind::Body => "!icon-body",
        EquipSlotKind::Arms => "!icon-arms",
        EquipSlotKind::Legs => "!icon-legs",
        EquipSlotKind::Accessory => "!icon-accessory",
    }
}

/// The entries of a slot's menu.
#[derive(Clone, Copy, Debug, PartialEq, Eq, Structural)]
pub enum EquipMenuItem {
    Remove,
    Information,
}

/// The menu of an equipment slot: its choices and what they do.
pub struct EquipMenu {
    pub choices: Vec<String>,
    pub menu_items: Vec<EquipMenuItem>,
    /// The slot's row in the equipment list.
    pub slot: u32,
    /// Where the menu opens (its top-left corner).
    pub pos: (i32, i32),
}

/// The entries of the menu of a slot of the player (with removal) or of
/// another character.
pub open spec fn equip_menu_items(is_player: bool) -> Seq<EquipMenuItem> {
    if is_player { seq![EquipMenuItem::Remove, EquipMenuItem::Information] } else { seq![EquipMenuItem::Information] }
}

/// The UI text id of a menu entry.
pub open spec fn equip_menu_text_id(item: EquipMenuItem) -> Seq<char> {
    match item {
        EquipMenuItem::Remove => "equip_menu-remove"@,
        EquipMenuItem::Information => "equip_menu-information"@,
    }
}

impl EquipMenu {
    /// The menu of slot row `slot` at `pos`.
    pub fn new(t: &TextBundles, is_player: bool, slot: u32, pos: (i32, i32)) -> (m: EquipMenu)
        ensures
            m.menu_items@ == equip_menu_items(is_player),
            m.choices.deep_view() == equip_menu_items(is_player).map_values(|item: EquipMenuItem| lookup(t.ui, equip_menu_text_id(item), no_args())),
            m.slot == slot,
            m.pos == pos,
    {
        let mut choices: Vec<String> = Vec::new();
        let mut menu_items: Vec<EquipMenuItem> = Vec::new();
        if is_player {
            choices.push(ui_txt(t, "equip_menu-remove"));
            menu_items.push(EquipMenuItem::Remove);
        }
        choices.push(ui_txt(t, "equip_menu-information"));
        menu_items.push(EquipMenuItem::Information);
        assert(menu_items@ =~= equip_menu_items(is_player));
        assert(choices.deep_view() =~= equip_menu_items(is_player).map_values(|item: EquipMenuItem| lookup(t.ui, equip_menu_text_id(item), no_args())));
        EquipMenu { choices, menu_items, slot, pos }
    }
}

/// What the equipment window asks of the game after a command.
#[derive(Clone, Copy, Debug, PartialEq, Eq, Structural)]
pub enum EquipRequest {
    Nothing,
    /// Rebuild the list from the equipment.
    UpdateList,
    /// Open the item window that chooses an item to equip in this slot row.
    SelectItemFor(u32),
    /// Remove the equipment of this slot row, then rebuild the list.
    RemoveEquipment(u32),
    /// Open the information window of the item in this slot row.
    ShowInfo(u32),
}

/// The equipment window of a character.
pub struct EquipWindow {
    pub rect: Rect,
    /// Whether the character is the player (whose equipment can change).
    pub is_player: bool,
    pub escape_click: bool,
    pub menu: Option<EquipMenu>,
}

/// What the window does with the answer of an open slot menu's choose
/// window: an entry chosen removes the equipment (and the list is rebuilt)
/// or shows the item's information; closing the menu, or all dialogs,
/// closes the menu; other answers are passed on with the menu left open.
/// The second result tells whether the menu stays open.
pub open spec fn menu_outcome<W, G>(menu_items: Seq<EquipMenuItem>, slot: u32, choice: DialogResult<W, G>) -> (DialogResult<W, G>, bool, EquipRequest) {
    match choice {
        DialogResult::CloseWithValue(DialogCloseValue::Index(n)) =>
            match menu_items[n as int] {
                EquipMenuItem::Remove => (DialogResult::Continue, false, EquipRequest::RemoveEquipment(slot)),
                EquipMenuItem::Information => (DialogResult::Continue, false, EquipRequest::ShowInfo(slot)),
            },
        DialogResult::Close => (DialogResult::Continue, false, EquipRequest::Nothing),
        DialogResult::CloseAll => (DialogResult::CloseAll, false, EquipRequest::Nothing),
        DialogResult::OpenChildDialog(child) => (DialogResult::OpenChildDialog(child), false, EquipRequest::Nothing),
        _ => (choice, true, EquipRequest::Nothing),
    }
}

/// What the window does with a command when no menu is open, after the
/// escape click and given the list's response: choosing a slot of the
/// player asks for the item to equip; the list scrolling rebuilds it;
/// Cancel (not taken by the list) closes the window.
pub open spec fn list_outcome<W, G>(is_player: bool, command: Command, response: Option<ListResponse>) -> (DialogResult<W, G>, EquipRequest) {
    match response {
        Some(ListResponse::Select(i)) =>
            if is_player { (DialogResult::Continue, EquipRequest::SelectItemFor(i)) } else { (DialogResult::Continue, EquipRequest::Nothing) },
        Some(ListResponse::Scrolled) => (DialogResult::Continue, EquipRequest::UpdateList),
        Some(_) => (DialogResult::Continue, EquipRequest::Nothing),
        None => if command is Cancel { (DialogResult::Close, EquipRequest::Nothing) } else { (DialogResult::Continue, EquipRequest::Nothing) },
    }
}

impl EquipWindow {
    /// The equipment window at `rect`.
    pub fn new(rect: Rect, is_player: bool) -> (w: EquipWindow)
        ensures
            w.rect == rect,
            w.is_player == is_player,
            !w.escape_click,
            w.menu.is_none(),
    {
        EquipWindow { rect, is_player, escape_click: false, menu: None }
    }

    /// Takes a command. With a slot menu open, `menu_choice` is the answer
    /// of its choose window, which decides (see `menu_outcome`). Else a
    /// click outside closes the window and passes the command on; then the
    /// list's `response` decides (see `list_outcome`), where choosing a
    /// slot for its menu opens the menu at the mouse when the slot is not
    /// empty (`slot_empty`). The request tells what the game is to do: the
    /// window that `ShowInfo` or `SelectItemFor` asks for is to be opened
    /// as a child dialog.
    pub fn process_command<W, G>(
        &mut self,
        t: &TextBundles,
        command: &Command,
        menu_choice: DialogResult<W, G>,
        response: Option<ListResponse>,
        slot_empty: bool,
    ) -> (r: (DialogResult<W, G>, EquipRequest))
        requires
            old(self).menu matches Some(m) ==> (menu_choice matches DialogResult::CloseWithValue(v) ==>
                (v matches DialogCloseValue::Index(n) && (n as int) < m.menu_items@.len())),
            old(self).menu.is_none() && (response matches Some(ListResponse::SelectForMenu(_))) && !slot_empty
                ==> (*command is MouseButtonUp),
        ensures
            final(self).rect == old(self).rect,
            final(self).is_player == old(self).is_player,
            old(self).menu matches Some(m) ==> {
                let o = menu_outcome::<W, G>(m.menu_items@, m.slot, menu_choice);
                &&& r == (o.0, o.2)
                &&& final(self).escape_click == old(self).escape_click
                &&& if o.1 { final(self).menu == old(self).menu } else { final(self).menu.is_none() }
            },
            old(self).menu.is_none() ==> {
                &&& final(self).escape_click == escape_click_after(old(self).escape_click, old(self).rect, *command, false)
                &&& match closer_result::<W, G>(old(self).escape_click, old(self).rect, *command, true, false) {
                    Some(c) => r == (c, EquipRequest::Nothing) && final(self).menu.is_none(),
                    None => {
                        &&& r == list_outcome::<W, G>(old(self).is_player, *command, response)
                        &&& match response {
                            Some(ListResponse::SelectForMenu(i)) =>
                                if slot_empty {
                                    final(self).menu.is_none()
                                } else {
                                    final(self).menu matches Some(m) && m.slot == i
                                        && m.menu_items@ == equip_menu_items(old(self).is_player)
                                        && m.pos == (match *command { Command::MouseButtonUp { x, y, .. } => (x, y), _ => (0i32, 0i32) })
                                },
                            _ => final(self).menu.is_none(),
                        }
                    },
                }
            },
    {
        if self.menu.is_some() {
            let menu = self.menu.take().unwrap();
            match menu_choice {
                DialogResult::CloseWithValue(DialogCloseValue::Index(n)) => {
                    let item = menu.menu_items[n as usize];
                    return match item {
                        EquipMenuItem::Remove => (DialogResult::Continue, EquipRequest::RemoveEquipment(menu.slot)),
                        EquipMenuItem::Information => (DialogResult::Continue, EquipRequest::ShowInfo(menu.slot)),
                    };
                },
                DialogResult::Close => {
                    return (DialogResult::Continue, EquipRequest::Nothing);
                },
                DialogResult::CloseAll => {
                    return (DialogResult::CloseAll, EquipRequest::Nothing);
                },
                DialogResult::OpenChildDialog(child) => {
                    return (DialogResult::OpenChildDialog(child), EquipRequest::Nothing);
                },
                other => {
                    self.menu = Some(menu);
                    return (other, EquipRequest::Nothing);
                },
            }
        }
        let cursor_pos: Option<(i32, i32)> = match command {
            Command::MouseButtonUp { x, y, .. } => Some((*x, *y)),
            _ => None,
        };
        if let Some(c) = check_escape_click(&mut self.escape_click, self.rect, command, true) {
            return (c, EquipRequest::Nothing);
        }
        match response {
            Some(ListResponse::Select(i)) => {
                if self.is_player {
                    (DialogResult::Continue, EquipRequest::SelectItemFor(i))
                } else {
                    (DialogResult::Continue, EquipRequest::Nothing)
                }
            },
            Some(ListResponse::SelectForMenu(i)) => {
                if !slot_empty {
                    let pos = cursor_pos.unwrap();
                    self.menu = Some(EquipMenu::new(t, self.is_player, i, pos));
                }
                (DialogResult::Continue, EquipRequest::Nothing)
            },
            Some(ListResponse::Scrolled) => (DialogResult::Continue, EquipRequest::UpdateList),
            Some(_) => (DialogResult::Continue, EquipRequest::Nothing),
            None => {
                if command.is_cancel() {
                    (DialogResult::Close, EquipRequest::Nothing)
                } else {
                    (DialogResult::Continue, EquipRequest::Nothing)
                }
            },
        }
    }

    /// A child dialog closed: the list is rebuilt.
    pub fn callback_child_closed<W, G>(&self) -> (r: (DialogResult<W, G>, EquipRequest))
        ensures
            r == (DialogResult::<W, G>::Continue, EquipRequest::UpdateList),
    {
        (DialogResult::Continue, EquipRequest::UpdateList)
    }

    /// The tab was switched away: the menu closes.
    pub fn tab_switched(&mut self)
        ensures
            final(self).menu.is_none(),
            final(self).rect == old(self).rect,
            final(self).is_player == old(self).is_player,
            final(self).escape_click == old(self).escape_click,
    {
        self.menu = None;
    }
}

} // verus!
