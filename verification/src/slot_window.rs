//! The module slot windows and the building dialog.
use vstd::prelude::*;
use crate::choose_window::ListResponse;
use crate::command::Command;
use crate::dialog::{DialogResult, is_close_result};
use crate::dialogs::{DialogCloser, check_escape_click, closer_result, escape_click_after};
use crate::geom::Rect;
use crate::item_text::{Item, item_text};
use crate::strutil::{int_decimal, push_int};
use crate::text_ids::ToText;
use crate::texts::{TextBundles, obj_text, obj_txt};

verus! {

/// A row of the slot installation list: the item's text and the cost.
pub open spec fn install_row(t: TextBundles, item: Item, cost: i64) -> (Seq<char>, Seq<char>) {
    (item_text(t, item), int_decimal(cost as int))
}

/// The window that installs a module slot into an item: the items that
/// can take a slot of its kind, with the cost. `L` locates an item.
pub struct SlotInstallWindow<L> {
    pub rect: Rect,
    pub closer: DialogCloser,
    /// The items listed, by row, with the cost.
    pub il_cost: Vec<(L, i64)>,
    pub rows: Vec<(String, String)>,
}

impl<L: Copy> SlotInstallWindow<L> {
    /// The window at `rect` (its closer placed by `closer_dx` and
    /// `closer_dy`), listing `il_cost`; `items[i]` is the item at the
    /// `i`-th location.
    pub fn new(t: &TextBundles, rect: Rect, closer_dx: i32, closer_dy: i32, il_cost: Vec<(L, i64)>, items: &Vec<Item>) -> (w: SlotInstallWindow<L>)
        requires
            items@.len() == il_cost@.len(),
            rect.fits(),
            i32::MIN <= rect.spec_right() + closer_dx <= i32::MAX,
            i32::MIN <= rect.y - closer_dy <= i32::MAX,
        ensures
            w.rect == rect,
            !w.closer.escape_click,
            w.il_cost@ == il_cost@,
            w.rows@.len() == il_cost@.len(),
            forall|i: int| 0 <= i < w.rows@.len() ==>
                ((#[trigger] w.rows@[i]).0@, w.rows@[i].1@) == install_row(*t, items@[i], il_cost@[i].1),
    {
        let mut w = SlotInstallWindow {
            rect,
            closer: DialogCloser::new(rect, closer_dx, closer_dy),
            il_cost: Vec::new(),
            rows: Vec::new(),
        };
        w.update(t, il_cost, items);
        w
    }

    /// Lists `il_cost`; `items[i]` is the item at the `i`-th location.
    pub fn update(&mut self, t: &TextBundles, il_cost: Vec<(L, i64)>, items: &Vec<Item>)
        requires
            items@.len() == il_cost@.len(),
        ensures
            final(self).rect == old(self).rect,
            final(self).closer == old(self).closer,
            final(self).il_cost@ == il_cost@,
            final(self).rows@.len() == il_cost@.len(),
            forall|i: int| 0 <= i < final(self).rows@.len() ==>
                ((#[trigger] final(self).rows@[i]).0@, final(self).rows@[i].1@) == install_row(*t, items@[i], il_cost@[i].1),
    {
        let mut rows: Vec<(String, String)> = Vec::new();
        let mut i: usize = 0;
        while i < il_cost.len()
            invariant
                items@.len() == il_cost@.len(),
                i <= il_cost@.len(),
                rows@.len() == i,
                forall|k: int| 0 <= k < i ==>
                    ((#[trigger] rows@[k]).0@, rows@[k].1@) == install_row(*t, items@[k], il_cost@[k].1),
            decreases il_cost@.len() - i,
        {
            let name = items[i].to_text(t);
            let mut cost = String::new();
            push_int(&mut cost, il_cost[i].1);
            rows.push((name, cost));
            i = i + 1;
        }
        self.il_cost = il_cost;
        self.rows = rows;
    }

    /// Takes a command; `close_clicked` tells whether the close button was
    /// clicked, `response` is the list's. The closer sees it first (a click
    /// outside closes without passing it on). Choosing a row asks to
    /// install the slot into that item at its cost (and to update the
    /// list). Cancel closes the window.
    pub fn process_command<W, G>(&mut self, command: &Command, close_clicked: bool, response: Option<ListResponse>)
        -> (r: (DialogResult<W, G>, Option<(L, i64)>))
        requires
            response matches Some(ListResponse::Select(i)) ==> (i as int) < old(self).il_cost@.len(),
        ensures
            final(self).rect == old(self).rect,
            final(self).il_cost == old(self).il_cost,
            final(self).rows == old(self).rows,
            final(self).closer.escape_click == escape_click_after(old(self).closer.escape_click, old(self).rect, *command, close_clicked),
            r == (match closer_result::<W, G>(old(self).closer.escape_click, old(self).rect, *command, false, close_clicked) {
                Some(c) => (c, None),
                None => match response {
                    Some(ListResponse::Select(i)) => (DialogResult::Continue, Some(old(self).il_cost@[i as int])),
                    _ => (if *command is Cancel { DialogResult::<W, G>::Close } else { DialogResult::Continue }, None),
                },
            }),
    {
        if let Some(c) = self.closer.check(self.rect, command, false, close_clicked) {
            return (c, None);
        }
        match response {
            Some(ListResponse::Select(i)) => (DialogResult::Continue, Some(self.il_cost[i as usize])),
            _ => (if command.is_cancel() { DialogResult::Close } else { DialogResult::Continue }, None),
        }
    }
}

/// The window that inserts modules into the slots of an item taken out of
/// the inventory: a row per slot, with its kind (`K`) and text.
pub struct SlotInsertWindow<K> {
    pub rect: Rect,
    pub closer: DialogCloser,
    pub slots: Vec<(K, String)>,
}

/// What the slot insertion window asks of the game.
#[derive(Clone, Copy, Debug, PartialEq, Eq, Structural)]
pub enum SlotInsertRequest<K> {
    Nothing,
    /// Open the window that chooses a module for the slot of this kind at
    /// this row, as a child dialog.
    SelectModule(K, u32),
    /// Give the item back to the inventory (the window closes).
    ReturnItem,
}

impl<K: Copy> SlotInsertWindow<K> {
    /// The window at `rect` (its closer placed by `closer_dx` and
    /// `closer_dy`) for an item with the slots `slots`.
    pub fn new(rect: Rect, closer_dx: i32, closer_dy: i32, slots: Vec<(K, String)>) -> (w: SlotInsertWindow<K>)
        requires
            rect.fits(),
            i32::MIN <= rect.spec_right() + closer_dx <= i32::MAX,
            i32::MIN <= rect.y - closer_dy <= i32::MAX,
        ensures
            w.rect == rect,
            !w.closer.escape_click,
            w.slots == slots,
    {
        SlotInsertWindow { rect, closer: DialogCloser::new(rect, closer_dx, closer_dy), slots }
    }

    /// Lists the item's slots anew (after a module was inserted).
    pub fn update(&mut self, slots: Vec<(K, String)>)
        ensures
            final(self).slots == slots,
            final(self).rect == old(self).rect,
            final(self).closer == old(self).closer,
    {
        self.slots = slots;
    }

    /// Takes a command; `close_clicked` tells whether the close button was
    /// clicked, `response` is the list's. The closer sees it first (a click
    /// outside closes without passing it on). Choosing a slot asks for the
    /// module to insert; Cancel closes the window. Whenever the window
    /// closes, the item goes back to the inventory.
    pub fn process_command<W, G>(&mut self, command: &Command, close_clicked: bool, response: Option<ListResponse>)
        -> (r: (DialogResult<W, G>, SlotInsertRequest<K>))
        requires
            response matches Some(ListResponse::Select(i)) ==> (i as int) < old(self).slots@.len(),
        ensures
            final(self).rect == old(self).rect,
            final(self).slots == old(self).slots,
            final(self).closer.escape_click == escape_click_after(old(self).closer.escape_click, old(self).rect, *command, close_clicked),
            r.1 is ReturnItem <==> is_close_result(r.0),
            !is_close_result(r.0) ==> r == (match closer_result::<W, G>(old(self).closer.escape_click, old(self).rect, *command, false, close_clicked) {
                Some(c) => (c, SlotInsertRequest::Nothing),
                None => match response {
                    Some(ListResponse::Select(i)) => (DialogResult::Continue, SlotInsertRequest::SelectModule(old(self).slots@[i as int].0, i)),
                    _ => (DialogResult::<W, G>::Continue, SlotInsertRequest::Nothing),
                },
            }),
            is_close_result(r.0) ==> r.0 == (match closer_result::<W, G>(old(self).closer.escape_click, old(self).rect, *command, false, close_clicked) {
                Some(c) => c,
                None => DialogResult::<W, G>::Close,
            }),
            is_close_result(r.0) == (match closer_result::<W, G>(old(self).closer.escape_click, old(self).rect, *command, false, close_clicked) {
                Some(c) => is_close_result(c),
                None => !(response matches Some(ListResponse::Select(_))) && *command is Cancel,
            }),
    {
        let (result, request) = self.process_command_inner(command, close_clicked, response);
        if result.is_close() {
            (result, SlotInsertRequest::ReturnItem)
        } else {
            (result, request)
        }
    }

    /// The answer before the item is given back on closing.
    fn process_command_inner<W, G>(&mut self, command: &Command, close_clicked: bool, response: Option<ListResponse>)
        -> (r: (DialogResult<W, G>, SlotInsertRequest<K>))
        requires
            response matches Some(ListResponse::Select(i)) ==> (i as int) < old(self).slots@.len(),
        ensures
            final(self).rect == old(self).rect,
            final(self).slots == old(self).slots,
            final(self).closer.escape_click == escape_click_after(old(self).closer.escape_click, old(self).rect, *command, close_clicked),
            r == (match closer_result::<W, G>(old(self).closer.escape_click, old(self).rect, *command, false, close_clicked) {
                Some(c) => (c, SlotInsertRequest::Nothing),
                None => match response {
                    Some(ListResponse::Select(i)) => (DialogResult::Continue, SlotInsertRequest::SelectModule(old(self).slots@[i as int].0, i)),
                    _ => (if *command is Cancel { DialogResult::<W, G>::Close } else { DialogResult::Continue }, SlotInsertRequest::Nothing),
                },
            }),
    {
        if let Some(c) = self.closer.check(self.rect, command, false, close_clicked) {
            return (c, SlotInsertRequest::Nothing);
        }
        match response {
            Some(ListResponse::Select(i)) => (DialogResult::Continue, SlotInsertRequest::SelectModule(self.slots[i as usize].0, i)),
            _ => (if command.is_cancel() { DialogResult::Close } else { DialogResult::Continue }, SlotInsertRequest::Nothing),
        }
    }
}

/// What can be built: a tile or a wall, by object id.
pub enum BuildObj {
    Tile(String),
    Wall(String),
}

/// The object id of what is built.
pub open spec fn build_obj_id(b: BuildObj) -> Seq<char> {
    match b {
        BuildObj::Tile(id) => id@,
        BuildObj::Wall(id) => id@,
    }
}

/// The dialog that chooses what to build with a building item.
pub struct BuildObjDialog {
    pub rect: Rect,
    /// What can be built, with the count of material needed.
    pub build_objs: Vec<(BuildObj, u32)>,
    /// The names listed, by row.
    pub names: Vec<String>,
    pub escape_click: bool,
}

impl BuildObjDialog {
    /// The dialog at `rect` offering `build_objs`.
    pub fn new(t: &TextBundles, rect: Rect, build_objs: Vec<(BuildObj, u32)>) -> (d: BuildObjDialog)
        ensures
            d.rect == rect,
            d.build_objs@ == build_objs@,
            d.names.deep_view() == Seq::new(build_objs@.len(), |i: int| obj_text(*t, build_obj_id(build_objs@[i].0))),
            !d.escape_click,
    {
        let mut names: Vec<String> = Vec::new();
        let mut i: usize = 0;
        while i < build_objs.len()
            invariant
                i <= build_objs@.len(),
                names.deep_view() == Seq::new(i as nat, |k: int| obj_text(*t, build_obj_id(build_objs@[k].0))),
            decreases build_objs@.len() - i,
        {
            let s = match &build_objs[i].0 {
                BuildObj::Tile(id) => obj_txt(t, id.as_str()),
                BuildObj::Wall(id) => obj_txt(t, id.as_str()),
            };
            let ghost old_n = names.deep_view();
            names.push(s);
            assert(names.deep_view() =~= old_n.push(s@));
            i = i + 1;
            assert(names.deep_view() =~= Seq::new(i as nat, |k: int| obj_text(*t, build_obj_id(build_objs@[k].0))));
        }
        BuildObjDialog { rect, build_objs, names, escape_click: false }
    }

    /// Takes a command and the list's response: Cancel closes the dialog;
    /// a click outside closes it and passes the command on; choosing a row
    /// builds that (the second result) and closes the dialog.
    pub fn process_command<W, G>(&mut self, command: &Command, response: Option<ListResponse>) -> (r: (DialogResult<W, G>, Option<usize>))
        ensures
            final(self).rect == old(self).rect,
            final(self).names == old(self).names,
            *command is Cancel ==> r == (DialogResult::<W, G>::Close, None::<usize>) && final(self).escape_click == old(self).escape_click,
            !(*command is Cancel) ==> {
                &&& final(self).escape_click == escape_click_after(old(self).escape_click, old(self).rect, *command, false)
                &&& r == (match closer_result::<W, G>(old(self).escape_click, old(self).rect, *command, true, false) {
                    Some(c) => (c, None),
                    None => match response {
                        Some(ListResponse::Select(i)) => (DialogResult::Close, Some(i as usize)),
                        _ => (DialogResult::<W, G>::Continue, None),
                    },
                })
            },
    {
        if command.is_cancel() {
            return (DialogResult::Close, None);
        }
        if let Some(c) = check_escape_click(&mut self.escape_click, self.rect, command, true) {
            return (c, None);
        }
        match response {
            Some(ListResponse::Select(i)) => (DialogResult::Close, Some(i as usize)),
            _ => (DialogResult::Continue, None),
        }
    }
}

} // verus!
