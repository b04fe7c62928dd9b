//! The item windows: which items each mode lists, what choosing an item
//! does, and how the item menu's answer is taken.
use vstd::prelude::*;
use crate::command::{Command, InputMode};
use crate::group_window::{MemberInfo, member_ids};
use crate::dialog::{DialogCloseValue, DialogResult, SpecialDialogResult};
use crate::strutil::{decimal, u64_to_string};
use crate::text::TextArgs;
use crate::texts::{TextBundles, lookup, no_args, ui_txt, ui_txt_with_args};
use crate::choose_window::ListResponse;
use crate::dialogs::{DialogCloser, closer_result, escape_click_after};
use crate::geom::Rect;
use crate::item_text::{Item, item_text};
use crate::strutil::push_decimal;
use crate::strutil::push_str;
use crate::text_ids::ToText;

verus! {

/// What an item window is for; `P` locates a container, a shop or a given
/// item list.
#[derive(Clone, Copy, Debug, PartialEq, Eq, Structural)]
pub enum ItemWindowMode<P> {
    List,
    PickUp,
    Drop,
    Throw,
    Drink,
    Eat,
    Use,
    Release,
    Read,
    Open,
    Take(P),
    Put(P),
    ShopSell,
    ShopBuy(P),
    Select(P),
}

/// The modes of the item window group's tabs.
pub open spec fn main_mode<P>(m: ItemWindowMode<P>) -> bool {
    m is List || m is Drop || m is Throw || m is Drink || m is Eat || m is Use || m is Release || m is Read || m is Open
}

impl<P: Copy> ItemWindowMode<P> {
    /// Whether the mode is one of the item window group's tabs.
    pub fn is_main_mode(&self) -> (r: bool)
        ensures
            r == main_mode(*self),
    {
        matches!(self, ItemWindowMode::List | ItemWindowMode::Drop | ItemWindowMode::Throw
            | ItemWindowMode::Drink | ItemWindowMode::Eat | ItemWindowMode::Use
            | ItemWindowMode::Release | ItemWindowMode::Read | ItemWindowMode::Open)
    }
}

/// The tab of the item window group for a main mode.
pub open spec fn spec_item_tab<P>(m: ItemWindowMode<P>) -> usize {
    match m {
        ItemWindowMode::List => 0,
        ItemWindowMode::Drop => 1,
        ItemWindowMode::Throw => 2,
        ItemWindowMode::Drink => 3,
        ItemWindowMode::Eat => 4,
        ItemWindowMode::Use => 5,
        ItemWindowMode::Release => 6,
        ItemWindowMode::Read => 7,
        _ => 8,
    }
}

/// The number of tabs of the item window group.
pub const ITEM_WINDOW_GROUP_SIZE: usize = 9;

/// The tab the item window group opens on: the mode's tab, or none given.
pub fn item_tab_index<P: Copy>(mode: Option<ItemWindowMode<P>>) -> (r: Option<usize>)
    requires
        mode matches Some(m) ==> main_mode(m),
    ensures
        r == (match mode { Some(m) => Some(spec_item_tab(m)), None => None }),
        r matches Some(i) ==> i < ITEM_WINDOW_GROUP_SIZE,
{
    match mode {
        Some(m) => Some(match m {
            ItemWindowMode::List => 0,
            ItemWindowMode::Drop => 1,
            ItemWindowMode::Throw => 2,
            ItemWindowMode::Drink => 3,
            ItemWindowMode::Eat => 4,
            ItemWindowMode::Use => 5,
            ItemWindowMode::Release => 6,
            ItemWindowMode::Read => 7,
            _ => 8,
        }),
        None => None,
    }
}

/// The main mode of each tab of the item window group, in order.
pub fn item_tab_modes<P: Copy>() -> (r: Vec<ItemWindowMode<P>>)
    ensures
        r@.len() == ITEM_WINDOW_GROUP_SIZE,
        forall|i: int| 0 <= i < r@.len() ==> main_mode(#[trigger] r@[i]) && spec_item_tab(r@[i]) == i,
{
    let mut v: Vec<ItemWindowMode<P>> = Vec::new();
    v.push(ItemWindowMode::List);
    v.push(ItemWindowMode::Drop);
    v.push(ItemWindowMode::Throw);
    v.push(ItemWindowMode::Drink);
    v.push(ItemWindowMode::Eat);
    v.push(ItemWindowMode::Use);
    v.push(ItemWindowMode::Release);
    v.push(ItemWindowMode::Read);
    v.push(ItemWindowMode::Open);
    v
}

/// Where the items listed come from.
#[derive(Clone, Copy, Debug, PartialEq, Eq, Structural)]
pub enum ItemSource<P> {
    /// The player's inventory.
    Player,
    /// The player's tile.
    Ground,
    /// The player's tile and then the player's inventory, merged.
    GroundAndPlayer,
    /// Inside the container at `P`.
    InContainer(P),
    /// The shop at `P`.
    Shop(P),
    /// The item list at `P`.
    Given(P),
}

/// Which items are listed.
#[derive(Clone, Copy, Debug, PartialEq, Eq, Structural)]
pub enum ItemSelection {
    /// Every item.
    All,
    /// Items the player can throw (by the player's strength).
    Throwable,
    Drinkable,
    Eatable,
    Usable,
    /// Magic devices.
    MagicDevice,
    Readable,
    Containers,
    /// Items that the container accepts (no containers; by the container's
    /// selector, and convertible by it if it converts).
    ForContainer,
    /// The filter the mode was made with.
    Given,
}

/// The items an item window lists in mode `m`.
pub open spec fn spec_item_list<P>(m: ItemWindowMode<P>) -> (ItemSource<P>, ItemSelection) {
    match m {
        ItemWindowMode::List => (ItemSource::Player, ItemSelection::All),
        ItemWindowMode::PickUp => (ItemSource::Ground, ItemSelection::All),
        ItemWindowMode::Drop => (ItemSource::Player, ItemSelection::All),
        ItemWindowMode::Throw => (ItemSource::Player, ItemSelection::Throwable),
        ItemWindowMode::Drink => (ItemSource::GroundAndPlayer, ItemSelection::Drinkable),
        ItemWindowMode::Eat => (ItemSource::GroundAndPlayer, ItemSelection::Eatable),
        ItemWindowMode::Use => (ItemSource::GroundAndPlayer, ItemSelection::Usable),
        ItemWindowMode::Release => (ItemSource::GroundAndPlayer, ItemSelection::MagicDevice),
        ItemWindowMode::Read => (ItemSource::GroundAndPlayer, ItemSelection::Readable),
        ItemWindowMode::Open => (ItemSource::GroundAndPlayer, ItemSelection::Containers),
        ItemWindowMode::Put(_) => (ItemSource::GroundAndPlayer, ItemSelection::ForContainer),
        ItemWindowMode::Take(p) => (ItemSource::InContainer(p), ItemSelection::All),
        ItemWindowMode::ShopBuy(p) => (ItemSource::Shop(p), ItemSelection::All),
        ItemWindowMode::ShopSell => (ItemSource::Player, ItemSelection::All),
        ItemWindowMode::Select(p) => (ItemSource::Given(p), ItemSelection::Given),
    }
}

/// The items an item window lists in mode `m`.
pub fn item_list_of<P: Copy>(m: &ItemWindowMode<P>) -> (r: (ItemSource<P>, ItemSelection))
    ensures
        r == spec_item_list(*m),
{
    match *m {
        ItemWindowMode::List => (ItemSource::Player, ItemSelection::All),
        ItemWindowMode::PickUp => (ItemSource::Ground, ItemSelection::All),
        ItemWindowMode::Drop => (ItemSource::Player, ItemSelection::All),
        ItemWindowMode::Throw => (ItemSource::Player, ItemSelection::Throwable),
        ItemWindowMode::Drink => (ItemSource::GroundAndPlayer, ItemSelection::Drinkable),
        ItemWindowMode::Eat => (ItemSource::GroundAndPlayer, ItemSelection::Eatable),
        ItemWindowMode::Use => (ItemSource::GroundAndPlayer, ItemSelection::Usable),
        ItemWindowMode::Release => (ItemSource::GroundAndPlayer, ItemSelection::MagicDevice),
        ItemWindowMode::Read => (ItemSource::GroundAndPlayer, ItemSelection::Readable),
        ItemWindowMode::Open => (ItemSource::GroundAndPlayer, ItemSelection::Containers),
        ItemWindowMode::Put(_) => (ItemSource::GroundAndPlayer, ItemSelection::ForContainer),
        ItemWindowMode::Take(p) => (ItemSource::InContainer(p), ItemSelection::All),
        ItemWindowMode::ShopBuy(p) => (ItemSource::Shop(p), ItemSelection::All),
        ItemWindowMode::ShopSell => (ItemSource::Player, ItemSelection::All),
        ItemWindowMode::Select(p) => (ItemSource::Given(p), ItemSelection::Given),
    }
}

/// Whether the window shows prices (the shop modes) or weights.
pub fn shows_prices<P: Copy>(m: &ItemWindowMode<P>) -> (r: bool)
    ensures
        r == (*m is ShopBuy || *m is ShopSell),
{
    matches!(m, ItemWindowMode::ShopBuy(_) | ItemWindowMode::ShopSell)
}

/// What choosing an item does.
#[derive(Clone, Copy, Debug, PartialEq, Eq, Structural)]
pub enum ItemAction {
    ShowInfo,
    PickUpAll,
    DropOne,
    Throw,
    Drink,
    Eat,
    Use,
    Release,
    Read,
    OpenContainer,
    TakeOne,
    PutOne,
    Buy,
    Sell,
    /// The action the mode was made with.
    Given,
}

/// What choosing an item does in mode `m`.
pub open spec fn spec_item_action<P>(m: ItemWindowMode<P>) -> ItemAction {
    match m {
        ItemWindowMode::List => ItemAction::ShowInfo,
        ItemWindowMode::PickUp => ItemAction::PickUpAll,
        ItemWindowMode::Drop => ItemAction::DropOne,
        ItemWindowMode::Throw => ItemAction::Throw,
        ItemWindowMode::Drink => ItemAction::Drink,
        ItemWindowMode::Eat => ItemAction::Eat,
        ItemWindowMode::Use => ItemAction::Use,
        ItemWindowMode::Release => ItemAction::Release,
        ItemWindowMode::Read => ItemAction::Read,
        ItemWindowMode::Open => ItemAction::OpenContainer,
        ItemWindowMode::Take(_) => ItemAction::TakeOne,
        ItemWindowMode::Put(_) => ItemAction::PutOne,
        ItemWindowMode::ShopBuy(_) => ItemAction::Buy,
        ItemWindowMode::ShopSell => ItemAction::Sell,
        ItemWindowMode::Select(_) => ItemAction::Given,
    }
}

/// What choosing an item does in mode `m`.
pub fn item_action<P: Copy>(m: &ItemWindowMode<P>) -> (r: ItemAction)
    ensures
        r == spec_item_action(*m),
{
    match *m {
        ItemWindowMode::List => ItemAction::ShowInfo,
        ItemWindowMode::PickUp => ItemAction::PickUpAll,
        ItemWindowMode::Drop => ItemAction::DropOne,
        ItemWindowMode::Throw => ItemAction::Throw,
        ItemWindowMode::Drink => ItemAction::Drink,
        ItemWindowMode::Eat => ItemAction::Eat,
        ItemWindowMode::Use => ItemAction::Use,
        ItemWindowMode::Release => ItemAction::Release,
        ItemWindowMode::Read => ItemAction::Read,
        ItemWindowMode::Open => ItemAction::OpenContainer,
        ItemWindowMode::Take(_) => ItemAction::TakeOne,
        ItemWindowMode::Put(_) => ItemAction::PutOne,
        ItemWindowMode::ShopBuy(_) => ItemAction::Buy,
        ItemWindowMode::ShopSell => ItemAction::Sell,
        ItemWindowMode::Select(_) => ItemAction::Given,
    }
}

/// How the window goes on after an action that is not the container
/// opening nor the given one: `items_left` tells whether items still lie
/// on the player's tile (after picking up), `read_on` whether reading goes
/// on. The second result tells whether the list is to be updated.
pub open spec fn spec_after_action<W, G>(a: ItemAction, items_left: bool, read_on: bool) -> (DialogResult<W, G>, bool) {
    match a {
        ItemAction::ShowInfo => (DialogResult::Continue, false),
        ItemAction::PickUpAll => if items_left { (DialogResult::Continue, true) } else { (DialogResult::Close, false) },
        ItemAction::Throw | ItemAction::Drink | ItemAction::Eat | ItemAction::Use | ItemAction::Release =>
            (DialogResult::CloseAll, false),
        ItemAction::Read => if read_on { (DialogResult::Continue, false) } else { (DialogResult::CloseAll, false) },
        _ => (DialogResult::Continue, true),
    }
}

/// How the window goes on after action `a`.
pub fn after_action<W, G>(a: ItemAction, items_left: bool, read_on: bool) -> (r: (DialogResult<W, G>, bool))
    requires
        a != ItemAction::OpenContainer && a != ItemAction::Given,
    ensures
        r == spec_after_action::<W, G>(a, items_left, read_on),
{
    match a {
        ItemAction::ShowInfo => (DialogResult::Continue, false),
        ItemAction::PickUpAll => if items_left { (DialogResult::Continue, true) } else { (DialogResult::Close, false) },
        ItemAction::Throw | ItemAction::Drink | ItemAction::Eat | ItemAction::Use | ItemAction::Release =>
            (DialogResult::CloseAll, false),
        ItemAction::Read => if read_on { (DialogResult::Continue, false) } else { (DialogResult::CloseAll, false) },
        _ => (DialogResult::Continue, true),
    }
}

/// What the item window does with its item menu's answer: whether the
/// menu closes, whether the list is updated, and the window's answer.
pub open spec fn spec_menu_answer<W, G>(r: DialogResult<W, G>) -> (bool, bool, DialogResult<W, G>) {
    match r {
        DialogResult::Special(SpecialDialogResult::ItemListUpdate) => (true, true, DialogResult::Continue),
        DialogResult::Close => (true, false, DialogResult::Continue),
        DialogResult::CloseAll => (true, false, DialogResult::CloseAll),
        _ => (false, false, DialogResult::Continue),
    }
}

/// What the item window does with its item menu's answer.
pub fn menu_answer<W, G>(r: DialogResult<W, G>) -> (out: (bool, bool, DialogResult<W, G>))
    ensures
        out == spec_menu_answer(r),
{
    match r {
        DialogResult::Special(SpecialDialogResult::ItemListUpdate) => (true, true, DialogResult::Continue),
        DialogResult::Close => (true, false, DialogResult::Continue),
        DialogResult::CloseAll => (true, false, DialogResult::CloseAll),
        _ => (false, false, DialogResult::Continue),
    }
}


/// An action on the toolbar: what it does, with the item it does it with.
#[derive(Clone, Copy, Debug, PartialEq, Eq, Structural)]
pub enum ActionShortcut {
    Throw(u32),
    Drink(u32),
    Eat(u32),
    Use(u32),
    Release(u32),
    Read(u32),
}

/// The shortcut of mode `m` for item `item`, if the mode has one.
pub open spec fn mode_shortcut<P>(m: ItemWindowMode<P>, item: u32) -> Option<ActionShortcut> {
    match m {
        ItemWindowMode::Throw => Some(ActionShortcut::Throw(item)),
        ItemWindowMode::Drink => Some(ActionShortcut::Drink(item)),
        ItemWindowMode::Eat => Some(ActionShortcut::Eat(item)),
        ItemWindowMode::Use => Some(ActionShortcut::Use(item)),
        ItemWindowMode::Release => Some(ActionShortcut::Release(item)),
        ItemWindowMode::Read => Some(ActionShortcut::Read(item)),
        _ => None,
    }
}

/// The entries of the item menu.
#[derive(Clone, Copy, Debug, PartialEq, Eq, Structural)]
pub enum ItemMenuItem {
    Information,
    RegisterAsShortcut(ActionShortcut),
    DropAll,
}

/// The entries of the item menu of item `item` in mode `m`: information;
/// dropping all (in the main modes); registering as a shortcut (in the
/// modes with a shortcut).
pub open spec fn item_menu_items<P>(m: ItemWindowMode<P>, item: u32) -> Seq<ItemMenuItem> {
    let s1 = seq![ItemMenuItem::Information];
    let s2 = if main_mode(m) { s1.push(ItemMenuItem::DropAll) } else { s1 };
    match mode_shortcut(m, item) {
        Some(sc) => s2.push(ItemMenuItem::RegisterAsShortcut(sc)),
        None => s2,
    }
}

/// The UI text id of an item menu entry.
pub open spec fn item_menu_text_id(e: ItemMenuItem) -> Seq<char> {
    match e {
        ItemMenuItem::Information => "item_menu-infomation"@,
        ItemMenuItem::RegisterAsShortcut(_) => "item_menu-register-as-shortcut"@,
        ItemMenuItem::DropAll => "item_menu-drop_all"@,
    }
}

/// The menu of an item in an item window.
pub struct ItemMenu {
    pub choices: Vec<String>,
    pub menu_items: Vec<ItemMenuItem>,
    /// Where the menu opens (its top-left corner); `None`: centered.
    pub pos: Option<(i32, i32)>,
}

/// What the item menu asks of the game.
#[derive(Clone, Copy, Debug, PartialEq, Eq, Structural)]
pub enum ItemMenuRequest {
    Nothing,
    /// Open the item's information window.
    ItemInfo,
    /// Drop all of the item.
    DropAll,
    /// Open the dialog that registers this shortcut.
    RegisterShortcut(ActionShortcut),
}

/// What the item menu answers to its choose window's answer.
pub open spec fn item_menu_outcome<W, G>(items: Seq<ItemMenuItem>, choice: DialogResult<W, G>) -> (DialogResult<W, G>, ItemMenuRequest) {
    match choice {
        DialogResult::CloseWithValue(DialogCloseValue::Index(n)) => match items[n as int] {
            ItemMenuItem::Information => (DialogResult::Close, ItemMenuRequest::ItemInfo),
            ItemMenuItem::DropAll => (DialogResult::Special(SpecialDialogResult::ItemListUpdate), ItemMenuRequest::DropAll),
            ItemMenuItem::RegisterAsShortcut(sc) => (DialogResult::Close, ItemMenuRequest::RegisterShortcut(sc)),
        },
        _ => (choice, ItemMenuRequest::Nothing),
    }
}

impl ItemMenu {
    /// How key presses are read while this window is on top.
    pub fn mode(&self) -> (m: InputMode)
        ensures
            m == InputMode::Dialog,
    {
        InputMode::Dialog
    }


    /// The menu of item `item` in mode `mode`, at `pos`.
    pub fn new<P: Copy>(t: &TextBundles, mode: &ItemWindowMode<P>, item: u32, pos: Option<(i32, i32)>) -> (m: ItemMenu)
        ensures
            m.menu_items@ == item_menu_items(*mode, item),
            m.choices.deep_view() == item_menu_items(*mode, item).map_values(|e: ItemMenuItem| lookup(t.ui, item_menu_text_id(e), no_args())),
            m.pos == pos,
    {
        let mut choices: Vec<String> = Vec::new();
        let mut menu_items: Vec<ItemMenuItem> = Vec::new();
        choices.push(ui_txt(t, "item_menu-infomation"));
        menu_items.push(ItemMenuItem::Information);
        if mode.is_main_mode() {
            choices.push(ui_txt(t, "item_menu-drop_all"));
            menu_items.push(ItemMenuItem::DropAll);
        }
        let shortcut: Option<ActionShortcut> = match *mode {
            ItemWindowMode::Throw => Some(ActionShortcut::Throw(item)),
            ItemWindowMode::Drink => Some(ActionShortcut::Drink(item)),
            ItemWindowMode::Eat => Some(ActionShortcut::Eat(item)),
            ItemWindowMode::Use => Some(ActionShortcut::Use(item)),
            ItemWindowMode::Release => Some(ActionShortcut::Release(item)),
            ItemWindowMode::Read => Some(ActionShortcut::Read(item)),
            _ => None,
        };
        if let Some(sc) = shortcut {
            choices.push(ui_txt(t, "item_menu-register-as-shortcut"));
            menu_items.push(ItemMenuItem::RegisterAsShortcut(sc));
        }
        assert(menu_items@ =~= item_menu_items(*mode, item));
        assert(choices.deep_view() =~= item_menu_items(*mode, item).map_values(|e: ItemMenuItem| lookup(t.ui, item_menu_text_id(e), no_args())));
        ItemMenu { choices, menu_items, pos }
    }

    /// Takes the answer of the menu's choose window: a chosen entry shows
    /// the item's information (and closes the menu), drops all of the item
    /// (and the item list is updated), or registers the item's shortcut
    /// (and closes the menu); other answers are passed on.
    pub fn process_command<W, G>(&self, choice: DialogResult<W, G>) -> (r: (DialogResult<W, G>, ItemMenuRequest))
        requires
            choice matches DialogResult::CloseWithValue(v) ==>
                (v matches DialogCloseValue::Index(n) && (n as int) < self.menu_items@.len()),
        ensures
            r == item_menu_outcome(self.menu_items@, choice),
    {
        match choice {
            DialogResult::CloseWithValue(DialogCloseValue::Index(n)) => match self.menu_items[n as usize] {
                ItemMenuItem::Information => (DialogResult::Close, ItemMenuRequest::ItemInfo),
                ItemMenuItem::DropAll => (DialogResult::Special(SpecialDialogResult::ItemListUpdate), ItemMenuRequest::DropAll),
                ItemMenuItem::RegisterAsShortcut(sc) => (DialogResult::Close, ItemMenuRequest::RegisterShortcut(sc)),
            },
            other => (other, ItemMenuRequest::Nothing),
        }
    }
}

/// The key of shortcut slot `i`: the slots are keyed 1 to 9, then 0.
pub open spec fn shortcut_key(i: nat) -> nat {
    if i != 9 { i + 1 } else { 0 }
}

/// The dialog that chooses the toolbar slot of a shortcut.
pub struct RegisterShortcutDialog {
    pub shortcut: ActionShortcut,
    pub choices: Vec<String>,
}

impl RegisterShortcutDialog {
    /// The dialog for `shortcut`, offering `n_shortcut` slots, each by the
    /// UI text `register_shortcut` with its key.
    pub fn new(t: &TextBundles, shortcut: ActionShortcut, n_shortcut: u32) -> (d: RegisterShortcutDialog)
        ensures
            d.shortcut == shortcut,
            d.choices.deep_view() == Seq::new(n_shortcut as nat, |i: int|
                lookup(t.ui, "register_shortcut"@, seq![("i"@, decimal(shortcut_key(i as nat)))])),
    {
        let mut choices: Vec<String> = Vec::new();
        let mut i: u32 = 0;
        while i < n_shortcut
            invariant
                i <= n_shortcut,
                choices.deep_view() == Seq::new(i as nat, |k: int|
                    lookup(t.ui, "register_shortcut"@, seq![("i"@, decimal(shortcut_key(k as nat)))])),
            decreases n_shortcut - i,
        {
            let key: u64 = if i != 9 { i as u64 + 1 } else { 0 };
            let mut args: TextArgs = Vec::new();
            args.push((String::from_str("i"), u64_to_string(key)));
            assert(args.deep_view() =~= seq![("i"@, decimal(shortcut_key(i as nat)))]);
            let s = ui_txt_with_args(t, "register_shortcut", &args);
            let ghost old_c = choices.deep_view();
            choices.push(s);
            assert(choices.deep_view() =~= old_c.push(s@));
            i = i + 1;
            assert(choices.deep_view() =~= Seq::new(i as nat, |k: int|
                lookup(t.ui, "register_shortcut"@, seq![("i"@, decimal(shortcut_key(k as nat)))])));
        }
        RegisterShortcutDialog { shortcut, choices }
    }

    /// Takes a command and its choose window's answer: Cancel closes the
    /// dialog; a slot chosen registers the shortcut there (the second
    /// result) and closes it; the choose window closing closes it.
    pub fn process_command<W, G>(&self, command: &Command, choice: DialogResult<W, G>) -> (r: (DialogResult<W, G>, Option<u32>))
        ensures
            r == (if *command is Cancel {
                (DialogResult::<W, G>::Close, None::<u32>)
            } else {
                match choice {
                    DialogResult::CloseWithValue(DialogCloseValue::Index(n)) => (DialogResult::Close, Some(n)),
                    DialogResult::CloseWithValue(_) => (DialogResult::Close, None),
                    DialogResult::Close => (DialogResult::Close, None),
                    _ => (DialogResult::Continue, None),
                }
            }),
    {
        if command.is_cancel() {
            return (DialogResult::Close, None);
        }
        match choice {
            DialogResult::CloseWithValue(DialogCloseValue::Index(n)) => (DialogResult::Close, Some(n)),
            DialogResult::CloseWithValue(_) => (DialogResult::Close, None),
            DialogResult::Close => (DialogResult::Close, None),
            _ => (DialogResult::Continue, None),
        }
    }
}


/// The members of the item window group, one per main mode, in the order of
/// `item_tab_modes`.
pub fn item_group_members() -> (r: Vec<MemberInfo>)
    ensures
        member_ids(r@) == seq![
            ("!tab-icon-item-list"@, "tab_text-item_list"@),
            ("!tab-icon-item-drop"@, "tab_text-item_drop"@),
            ("!tab-icon-item-throw"@, "tab_text-item_throw"@),
            ("!tab-icon-item-drink"@, "tab_text-item_drink"@),
            ("!tab-icon-item-eat"@, "tab_text-item_eat"@),
            ("!tab-icon-item-use"@, "tab_text-item_use"@),
            ("!tab-icon-item-release"@, "tab_text-item_release"@),
            ("!tab-icon-item-read"@, "tab_text-item_read"@),
            ("!tab-icon-item-open"@, "tab_text-item_open"@)
        ],
{
    let mut v: Vec<MemberInfo> = Vec::new();
    v.push(MemberInfo { icon_id: "!tab-icon-item-list", text_id: "tab_text-item_list" });
    v.push(MemberInfo { icon_id: "!tab-icon-item-drop", text_id: "tab_text-item_drop" });
    v.push(MemberInfo { icon_id: "!tab-icon-item-throw", text_id: "tab_text-item_throw" });
    v.push(MemberInfo { icon_id: "!tab-icon-item-drink", text_id: "tab_text-item_drink" });
    v.push(MemberInfo { icon_id: "!tab-icon-item-eat", text_id: "tab_text-item_eat" });
    v.push(MemberInfo { icon_id: "!tab-icon-item-use", text_id: "tab_text-item_use" });
    v.push(MemberInfo { icon_id: "!tab-icon-item-release", text_id: "tab_text-item_release" });
    v.push(MemberInfo { icon_id: "!tab-icon-item-read", text_id: "tab_text-item_read" });
    v.push(MemberInfo { icon_id: "!tab-icon-item-open", text_id: "tab_text-item_open" });
    assert(member_ids(v@) =~= seq![
            ("!tab-icon-item-list"@, "tab_text-item_list"@),
            ("!tab-icon-item-drop"@, "tab_text-item_drop"@),
            ("!tab-icon-item-throw"@, "tab_text-item_throw"@),
            ("!tab-icon-item-drink"@, "tab_text-item_drink"@),
            ("!tab-icon-item-eat"@, "tab_text-item_eat"@),
            ("!tab-icon-item-use"@, "tab_text-item_use"@),
            ("!tab-icon-item-release"@, "tab_text-item_release"@),
            ("!tab-icon-item-read"@, "tab_text-item_read"@),
            ("!tab-icon-item-open"@, "tab_text-item_open"@)
        ]);
    v
}

/// The members of the group that takes items out of a container and puts
/// items in: taking, then putting.
pub fn take_put_group_members() -> (r: Vec<MemberInfo>)
    ensures
        member_ids(r@) == seq![
            ("!tab-icon-item-take"@, "tab_text-item_take"@),
            ("!tab-icon-item-put"@, "tab_text-item_put"@)
        ],
{
    let mut v: Vec<MemberInfo> = Vec::new();
    v.push(MemberInfo { icon_id: "!tab-icon-item-take", text_id: "tab_text-item_take" });
    v.push(MemberInfo { icon_id: "!tab-icon-item-put", text_id: "tab_text-item_put" });
    assert(member_ids(v@) =~= seq![
            ("!tab-icon-item-take"@, "tab_text-item_take"@),
            ("!tab-icon-item-put"@, "tab_text-item_put"@)
        ]);
    v
}


/// What the item window asks of the game after a command.
#[derive(Clone, Copy, Debug, PartialEq, Eq, Structural)]
pub enum ItemRequest<L> {
    Nothing,
    /// List the items anew (see `spec_item_list`).
    Update,
    /// Do the mode's action with the item at this location; the window's
    /// answer is then that of `after_action` (for the container opening
    /// and the given action, that of the game).
    Act(ItemAction, L),
    /// What the item menu asked (after a drop, the list is updated too).
    Menu(ItemMenuRequest),
}

/// The text of an item row: the item's text and the count, `"<item> x <n>"`.
pub open spec fn item_row_text(t: TextBundles, item: Item, n: u32) -> Seq<char> {
    item_text(t, item) + " x "@ + decimal(n as nat)
}

/// The item window: the items of its mode, what choosing one does, and the
/// item menu. `L` locates an item.
pub struct ItemWindow<P, L> {
    pub rect: Rect,
    pub closer: DialogCloser,
    pub mode: ItemWindowMode<P>,
    /// The items listed, by row.
    pub item_locations: Vec<L>,
    /// The rows: the item's text and the information beside it (weight or
    /// price).
    pub rows: Vec<(String, String)>,
    pub menu: Option<ItemMenu>,
}

/// What the item window does with the answer of its open menu: the menu
/// closes (and the list is updated after a drop) or the answer is ignored.
/// The second result tells whether the menu stays open.
pub open spec fn item_menu_close<W, G>(r: DialogResult<W, G>) -> (DialogResult<W, G>, bool) {
    match r {
        DialogResult::Special(SpecialDialogResult::ItemListUpdate) => (DialogResult::Continue, false),
        DialogResult::Close => (DialogResult::Continue, false),
        DialogResult::CloseAll => (DialogResult::CloseAll, false),
        _ => (DialogResult::Continue, true),
    }
}

impl<P: Copy, L: Copy> ItemWindow<P, L> {
    /// The item window at `rect` (its closer placed by `closer_dx` and
    /// `closer_dy`) in mode `mode`, with no item listed yet.
    pub fn new(rect: Rect, closer_dx: i32, closer_dy: i32, mode: ItemWindowMode<P>) -> (w: ItemWindow<P, L>)
        requires
            rect.fits(),
            i32::MIN <= rect.spec_right() + closer_dx <= i32::MAX,
            i32::MIN <= rect.y - closer_dy <= i32::MAX,
        ensures
            w.rect == rect,
            !w.closer.escape_click,
            w.mode == mode,
            w.item_locations@.len() == 0,
            w.rows@.len() == 0,
            w.menu.is_none(),
    {
        ItemWindow {
            rect,
            closer: DialogCloser::new(rect, closer_dx, closer_dy),
            mode,
            item_locations: Vec::new(),
            rows: Vec::new(),
            menu: None,
        }
    }

    /// Lists the items `entries`: each with its location, the item, its
    /// count, and the information beside it.
    pub fn update_list(&mut self, t: &TextBundles, entries: Vec<(L, Item, u32, String)>)
        ensures
            final(self).rect == old(self).rect,
            final(self).closer == old(self).closer,
            final(self).mode == old(self).mode,
            final(self).menu == old(self).menu,
            final(self).item_locations@ == entries@.map_values(|e: (L, Item, u32, String)| e.0),
            final(self).rows@.len() == entries@.len(),
            forall|i: int| 0 <= i < entries@.len() ==>
                (#[trigger] final(self).rows@[i]).0@ == item_row_text(*t, entries@[i].1, entries@[i].2)
                && final(self).rows@[i].1@ == entries@[i].3@,
    {
        let mut locations: Vec<L> = Vec::new();
        let mut rows: Vec<(String, String)> = Vec::new();
        let ghost all = entries@;
        let mut entries = entries;
        let mut k: usize = 0;
        let n = entries.len();
        while entries.len() > 0
            invariant
                n == all.len(),
                k + entries@.len() == n,
                entries@ == all.skip(k as int),
                locations@ == all.take(k as int).map_values(|e: (L, Item, u32, String)| e.0),
                rows@.len() == k,
                forall|i: int| 0 <= i < k ==>
                    (#[trigger] rows@[i]).0@ == item_row_text(*t, all[i].1, all[i].2)
                    && rows@[i].1@ == all[i].3@,
            decreases entries@.len(),
        {
            let e = entries.remove(0);
            assert(e == all[k as int]);
            let mut text = e.1.to_text(t);
            push_str(&mut text, " x ");
            push_decimal(&mut text, e.2 as u64);
            locations.push(e.0);
            rows.push((text, e.3));
            assert(all.take(k + 1).map_values(|x: (L, Item, u32, String)| x.0)
                =~= all.take(k as int).map_values(|x: (L, Item, u32, String)| x.0).push(all[k as int].0));
            k = k + 1;
            assert(entries@ =~= all.skip(k as int));
        }
        assert(all.take(n as int) =~= all);
        self.item_locations = locations;
        self.rows = rows;
    }

    /// Takes a command. With the menu open, `menu_choice` is its choose
    /// window's answer, taken by the menu (see `ItemMenu::process_command`)
    /// and then by the window (see `item_menu_close`). Else the closer sees
    /// it first (a click outside passes it on only in the main modes); the
    /// item information command asks for the information of the item at
    /// the list's cursor `current_choice` (the third result); then the
    /// list's `response`: choosing an item asks for the mode's action on
    /// it, choosing it for its menu opens the menu at the mouse (for item
    /// `menu_item`), the list scrolling updates it; Cancel closes the
    /// window.
    pub fn process_command<W, G>(
        &mut self,
        t: &TextBundles,
        command: &Command,
        close_clicked: bool,
        menu_choice: DialogResult<W, G>,
        response: Option<ListResponse>,
        current_choice: u32,
        menu_item: u32,
    ) -> (r: (DialogResult<W, G>, ItemRequest<L>, Option<L>))
        requires
            old(self).menu matches Some(m) ==> (menu_choice matches DialogResult::CloseWithValue(v) ==>
                (v matches DialogCloseValue::Index(n) && (n as int) < m.menu_items@.len())),
            old(self).menu.is_none() && *command is ItemInformation ==> (current_choice as int) < old(self).item_locations@.len(),
            old(self).menu.is_none() ==> (response matches Some(ListResponse::Select(i)) ==> (i as int) < old(self).item_locations@.len()),
        ensures
            final(self).rect == old(self).rect,
            final(self).mode == old(self).mode,
            final(self).item_locations == old(self).item_locations,
            final(self).rows == old(self).rows,
            old(self).menu matches Some(m) ==> {
                let o = item_menu_outcome(m.menu_items@, menu_choice);
                let c = item_menu_close(o.0);
                &&& r.0 == c.0
                &&& r.1 == ItemRequest::<L>::Menu(o.1)
                &&& r.2.is_none()
                &&& if c.1 { final(self).menu == old(self).menu } else { final(self).menu.is_none() }
            },
            old(self).menu.is_none() ==> {
                let closed = closer_result::<W, G>(old(self).closer.escape_click, old(self).rect, *command,
                    main_mode(old(self).mode), close_clicked);
                &&& final(self).closer.escape_click == escape_click_after(old(self).closer.escape_click, old(self).rect, *command, close_clicked)
                &&& match closed {
                    Some(c) => r == (c, ItemRequest::<L>::Nothing, None::<L>) && final(self).menu.is_none(),
                    None => {
                        &&& r.2 == (if *command is ItemInformation { Some(old(self).item_locations@[current_choice as int]) } else { None })
                        &&& match response {
                            Some(ListResponse::Select(i)) => r.0 is Continue
                                && r.1 == ItemRequest::Act(spec_item_action(old(self).mode), old(self).item_locations@[i as int])
                                && final(self).menu.is_none(),
                            Some(ListResponse::SelectForMenu(_)) => r.0 is Continue && r.1 is Nothing
                                && (final(self).menu matches Some(m) && m.menu_items@ == item_menu_items(old(self).mode, menu_item)
                                    && m.pos == (match *command { Command::MouseButtonUp { x, y, .. } => Some((x, y)), _ => None })),
                            Some(ListResponse::Scrolled) => r.0 is Continue && r.1 is Update && final(self).menu.is_none(),
                            Some(_) => r.0 is Continue && r.1 is Nothing && final(self).menu.is_none(),
                            None => r.1 is Nothing && final(self).menu.is_none()
                                && r.0 == (if *command is Cancel { DialogResult::<W, G>::Close } else { DialogResult::Continue }),
                        }
                    },
                }
            },
    {
        if self.menu.is_some() {
            let menu = self.menu.take().unwrap();
            let (result, request) = menu.process_command(menu_choice);
            match result {
                DialogResult::Special(SpecialDialogResult::ItemListUpdate) => {
                    return (DialogResult::Continue, ItemRequest::Menu(request), None);
                },
                DialogResult::Close => {
                    return (DialogResult::Continue, ItemRequest::Menu(request), None);
                },
                DialogResult::CloseAll => {
                    return (DialogResult::CloseAll, ItemRequest::Menu(request), None);
                },
                _ => {
                    self.menu = Some(menu);
                    return (DialogResult::Continue, ItemRequest::Menu(request), None);
                },
            }
        }
        let cursor_pos: Option<(i32, i32)> = match command {
            Command::MouseButtonUp { x, y, .. } => Some((*x, *y)),
            _ => None,
        };
        let reprocess = self.mode.is_main_mode();
        if let Some(c) = self.closer.check(self.rect, command, reprocess, close_clicked) {
            return (c, ItemRequest::Nothing, None);
        }
        let info: Option<L> = match command {
            Command::ItemInformation => Some(self.item_locations[current_choice as usize]),
            _ => None,
        };
        match response {
            Some(ListResponse::Select(i)) => {
                let il = self.item_locations[i as usize];
                (DialogResult::Continue, ItemRequest::Act(item_action(&self.mode), il), info)
            },
            Some(ListResponse::SelectForMenu(_)) => {
                self.menu = Some(ItemMenu::new(t, &self.mode, menu_item, cursor_pos));
                (DialogResult::Continue, ItemRequest::Nothing, info)
            },
            Some(ListResponse::Scrolled) => (DialogResult::Continue, ItemRequest::Update, info),
            Some(_) => (DialogResult::Continue, ItemRequest::Nothing, info),
            None => {
                if command.is_cancel() {
                    (DialogResult::Close, ItemRequest::Nothing, info)
                } else {
                    (DialogResult::Continue, ItemRequest::Nothing, info)
                }
            },
        }
    }

    /// The tab was switched away: the menu closes.
    pub fn tab_switched(&mut self)
        ensures
            final(self).menu.is_none(),
            final(self).rect == old(self).rect,
            final(self).mode == old(self).mode,
            final(self).item_locations == old(self).item_locations,
            final(self).rows == old(self).rows,
    {
        self.menu = None;
    }
}

} // verus!
