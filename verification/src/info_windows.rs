//! Labels of the game information windows, the help window and the
//! flavor text window.
use vstd::prelude::*;
use crate::command::{Command, command_text_id, InputMode};
use crate::dialog::DialogResult;
use crate::dialogs::{check_escape_click, closer_result, escape_click_after};
use crate::geom::Rect;
use crate::group_window::{MemberInfo, member_ids};
use crate::strutil::{decimal, decimal2, push_decimal, push_decimal2, push_str};
use crate::text::bundle_text;
use crate::texts::{TextBundles, flavor_txt_checked, lookup, no_args, obj_text, obj_txt, ui_txt};

verus! {

/// The play-time label for `s` seconds of play: the UI text
/// `label_text-play_time`, two spaces, and hours, minutes and seconds, each
/// of at least two digits, separated by colons.
pub open spec fn play_time_label(t: TextBundles, s: nat) -> Seq<char> {
    lookup(t.ui, "label_text-play_time"@, no_args()) + "  "@ + decimal2(s / 3600) + ":"@
        + decimal2((s / 60) % 60) + ":"@ + decimal2(s % 60)
}

/// The play-time label for `s` seconds of play.
pub fn play_time_text(t: &TextBundles, s: u64) -> (r: String)
    ensures
        r@ == play_time_label(*t, s as nat),
{
    let mut text = ui_txt(t, "label_text-play_time");
    push_str(&mut text, "  ");
    push_decimal2(&mut text, s / 3600);
    push_str(&mut text, ":");
    push_decimal2(&mut text, (s / 60) % 60);
    push_str(&mut text, ":");
    push_decimal2(&mut text, s % 60);
    text
}

/// The money label: `"<money> Gold"`.
pub fn money_text(money: u64) -> (r: String)
    ensures
        r@ == decimal(money as nat) + " Gold"@,
{
    let mut text = String::new();
    push_decimal(&mut text, money);
    push_str(&mut text, " Gold");
    text
}

/// The commands listed in the help window, in order.
pub open spec fn help_commands() -> Seq<Command> {
    seq![
        Command::OpenHelpWin,
        Command::OpenStatusWin,
        Command::OpenGameInfoWin,
        Command::OpenItemMenu,
        Command::OpenEquipWin,
        Command::EatItem,
        Command::DrinkItem,
        Command::DropItem,
        Command::OpenExitWin,
        Command::OpenCreationWin,
    ]
}

/// The commands listed in the help window, in order.
pub fn help_command_list() -> (r: Vec<Command>)
    ensures
        r@ == help_commands(),
{
    let mut v: Vec<Command> = Vec::new();
    v.push(Command::OpenHelpWin);
    v.push(Command::OpenStatusWin);
    v.push(Command::OpenGameInfoWin);
    v.push(Command::OpenItemMenu);
    v.push(Command::OpenEquipWin);
    v.push(Command::EatItem);
    v.push(Command::DrinkItem);
    v.push(Command::DropItem);
    v.push(Command::OpenExitWin);
    v.push(Command::OpenCreationWin);
    assert(v@ =~= help_commands());
    v
}

/// The help label of a command: its name and, after a space, its key.
pub open spec fn help_label(t: TextBundles, c: Command, key: Seq<char>) -> Seq<char> {
    lookup(t.ui, command_text_id(c), no_args()) + " "@ + key
}

/// The labels of the help window; `keys[i]` is the key of the `i`-th
/// command listed.
pub fn help_labels(t: &TextBundles, keys: &Vec<String>) -> (r: Vec<String>)
    requires
        keys@.len() == help_commands().len(),
    ensures
        r.deep_view() == Seq::new(help_commands().len(), |i: int| help_label(*t, help_commands()[i], keys@[i]@)),
{
    let commands = help_command_list();
    let mut labels: Vec<String> = Vec::new();
    let mut i: usize = 0;
    while i < commands.len()
        invariant
            commands@ == help_commands(),
            keys@.len() == commands@.len(),
            i <= commands@.len(),
            labels.deep_view() == Seq::new(i as nat, |k: int| help_label(*t, help_commands()[k], keys@[k]@)),
        decreases commands@.len() - i,
    {
        let mut s = ui_txt(t, commands[i].text_id());
        push_str(&mut s, " ");
        push_str(&mut s, keys[i].as_str());
        let ghost old_l = labels.deep_view();
        labels.push(s);
        assert(labels.deep_view() =~= old_l.push(s@));
        i = i + 1;
        assert(labels.deep_view() =~= Seq::new(i as nat, |k: int| help_label(*t, help_commands()[k], keys@[k]@)));
    }
    labels
}

/// The name of a command: the UI text of its text id.
pub fn command_to_text(t: &TextBundles, c: &Command) -> (r: String)
    ensures
        r@ == lookup(t.ui, command_text_id(*c), no_args()),
{
    ui_txt(t, c.text_id())
}

/// The texts of the flavor text window of `id`: the object's name, its
/// flavor text and the close button's text; `None` when `id` has no flavor
/// text.
pub fn flavor_text_window_texts(t: &TextBundles, id: &str) -> (r: Option<(String, String, String)>)
    ensures
        r.is_some() == bundle_text(t.flavor, id@, no_args()).is_some(),
        r.is_some() ==> r.unwrap().0@ == obj_text(*t, id@)
            && r.unwrap().1@ == bundle_text(t.flavor, id@, no_args()).unwrap()
            && r.unwrap().2@ == lookup(t.ui, "button_text-close"@, no_args()),
{
    let text = flavor_txt_checked(t, id)?;
    let name = obj_txt(t, id);
    let close = ui_txt(t, "button_text-close");
    Some((name, text, close))
}


/// The window that shows an object's flavor text with its image.
pub struct FlavorTextWindow {
    pub rect: Rect,
    pub escape_click: bool,
    /// The object's name.
    pub name: String,
    /// The flavor text.
    pub text: String,
    /// The text of the close button.
    pub close_label: String,
    /// The image shown.
    pub image_idx: u32,
}

impl FlavorTextWindow {
    /// How key presses are read while this window is on top.
    pub fn mode(&self) -> (m: InputMode)
        ensures
            m == InputMode::Dialog,
    {
        InputMode::Dialog
    }


    /// The flavor text window of object `id` at `rect`, showing image
    /// `image_idx`; `None` when `id` has no flavor text.
    pub fn new(t: &TextBundles, rect: Rect, id: &str, image_idx: u32) -> (r: Option<FlavorTextWindow>)
        ensures
            r.is_some() == bundle_text(t.flavor, id@, no_args()).is_some(),
            r matches Some(w) ==> {
                &&& w.rect == rect
                &&& !w.escape_click
                &&& w.name@ == obj_text(*t, id@)
                &&& w.text@ == bundle_text(t.flavor, id@, no_args()).unwrap()
                &&& w.close_label@ == lookup(t.ui, "button_text-close"@, no_args())
                &&& w.image_idx == image_idx
            },
    {
        let (name, text, close_label) = flavor_text_window_texts(t, id)?;
        Some(FlavorTextWindow { rect, escape_click: false, name, text, close_label, image_idx })
    }

    /// Takes a command; `close_clicked` tells whether the close button was
    /// clicked. A click outside closes the window (and passes nothing on);
    /// the close button closes it.
    pub fn process_command<W, G>(&mut self, command: &Command, close_clicked: bool) -> (r: DialogResult<W, G>)
        ensures
            final(self).rect == old(self).rect,
            final(self).escape_click == escape_click_after(old(self).escape_click, old(self).rect, *command, false),
            r == (match closer_result::<W, G>(old(self).escape_click, old(self).rect, *command, false, false) {
                Some(c) => c,
                None => if close_clicked { DialogResult::Close } else { DialogResult::Continue },
            }),
    {
        if let Some(c) = check_escape_click(&mut self.escape_click, self.rect, command, false) {
            return c;
        }
        if close_clicked { DialogResult::Close } else { DialogResult::Continue }
    }
}

/// The game information window: money and play time.
pub struct GameInfoWindow {
    pub rect: Rect,
    pub money_label: String,
    pub play_time_label: String,
    pub escape_click: bool,
}

impl GameInfoWindow {
    /// The window at `rect` for a player with `money`, after `play_secs`
    /// seconds of play.
    pub fn new(t: &TextBundles, rect: Rect, money: u64, play_secs: u64) -> (w: GameInfoWindow)
        ensures
            w.rect == rect,
            w.money_label@ == decimal(money as nat) + " Gold"@,
            w.play_time_label@ == play_time_label(*t, play_secs as nat),
            !w.escape_click,
    {
        let mut w = GameInfoWindow {
            rect,
            money_label: money_text(money),
            play_time_label: String::new(),
            escape_click: false,
        };
        w.update(t, play_secs);
        w
    }

    /// Shows the play time of `play_secs` seconds (each time the window is
    /// drawn).
    pub fn update(&mut self, t: &TextBundles, play_secs: u64)
        ensures
            final(self).play_time_label@ == play_time_label(*t, play_secs as nat),
            final(self).rect == old(self).rect,
            final(self).money_label == old(self).money_label,
            final(self).escape_click == old(self).escape_click,
    {
        self.play_time_label = play_time_text(t, play_secs);
    }

    /// Takes a command: a click outside closes the window and passes the
    /// command on; Cancel closes it.
    pub fn process_command<W, G>(&mut self, command: &Command) -> (r: DialogResult<W, G>)
        ensures
            final(self).rect == old(self).rect,
            final(self).escape_click == escape_click_after(old(self).escape_click, old(self).rect, *command, false),
            r == (match closer_result::<W, G>(old(self).escape_click, old(self).rect, *command, true, false) {
                Some(c) => c,
                None => if *command is Cancel { DialogResult::Close } else { DialogResult::Continue },
            }),
    {
        if let Some(c) = check_escape_click(&mut self.escape_click, self.rect, command, true) {
            return c;
        }
        if command.is_cancel() { DialogResult::Close } else { DialogResult::Continue }
    }
}

/// The help window: a label per command, with its key.
pub struct HelpWindow {
    pub rect: Rect,
    /// The labels: where each is and what it says.
    pub key_labels: Vec<(Rect, String)>,
}

/// Where the help label of row `i` is: `start` moved down by `i` rows of
/// height `row_h`.
pub open spec fn help_label_rect(start: Rect, row_h: i32, i: int) -> Rect {
    Rect::new_spec(start.x, (start.y + row_h * i) as i32, start.w, start.h)
}

impl HelpWindow {
    /// The help window at `rect`; the first label is at `key_label_start`,
    /// each next one `key_label_h` lower; `keys[i]` is the key of the
    /// `i`-th command listed.
    pub fn new(t: &TextBundles, rect: Rect, key_label_start: Rect, key_label_h: i32, keys: &Vec<String>) -> (w: HelpWindow)
        requires
            keys@.len() == help_commands().len(),
            i32::MIN <= key_label_start.y + key_label_h * 9 <= i32::MAX,
        ensures
            w.rect == rect,
            w.key_labels@.len() == help_commands().len(),
            forall|i: int| 0 <= i < help_commands().len() ==> {
                &&& (#[trigger] w.key_labels@[i]).0 == help_label_rect(key_label_start, key_label_h, i)
                &&& w.key_labels@[i].1@ == help_label(*t, help_commands()[i], keys@[i]@)
            },
    {
        let labels = help_labels(t, keys);
        let mut key_labels: Vec<(Rect, String)> = Vec::new();
        let mut labels = labels;
        let n = labels.len();
        let ghost texts = labels.deep_view();
        assert(labels.deep_view().len() == labels@.len());
        assert(n == help_commands().len());
        let mut i: usize = 0;
        while i < n
            invariant
                n == help_commands().len(),
                i <= n,
                labels@.len() == n - i,
                labels.deep_view() == texts.subrange(i as int, n as int),
                texts == Seq::new(help_commands().len(), |k: int| help_label(*t, help_commands()[k], keys@[k]@)),
                i32::MIN <= key_label_start.y + key_label_h * 9 <= i32::MAX,
                key_labels@.len() == i,
                forall|k: int| 0 <= k < i ==> {
                    &&& (#[trigger] key_labels@[k]).0 == help_label_rect(key_label_start, key_label_h, k)
                    &&& key_labels@[k].1@ == texts[k]
                },
            decreases n - i,
        {
            assert(labels.deep_view()[0] == labels@[0]@);
            let ghost old_dv = labels.deep_view();
            let label = labels.remove(0);
            assert forall|k: int| 0 <= k < labels@.len() implies #[trigger] labels.deep_view()[k] == old_dv[k + 1] by {
                assert(labels.deep_view()[k] == labels@[k]@);
            }
            assert(label@ == texts[i as int]);
            let ghost ii: int = i as int;
            assert(i32::MIN <= key_label_start.y + key_label_h * ii <= i32::MAX) by (nonlinear_arith)
                requires
                    0 <= ii <= 9,
                    i32::MIN <= key_label_start.y + key_label_h * 9 <= i32::MAX,
                    i32::MIN <= key_label_start.y <= i32::MAX;
            let y: i64 = key_label_start.y as i64 + (key_label_h as i64) * (i as i64);
            let r = Rect::new(key_label_start.x, y as i32, key_label_start.w, key_label_start.h);
            key_labels.push((r, label));
            assert(labels.deep_view() =~= texts.subrange(i + 1, n as int));
            i = i + 1;
        }
        HelpWindow { rect, key_labels }
    }

    /// Takes a command: Cancel closes the window.
    pub fn process_command<W, G>(&self, command: &Command) -> (r: DialogResult<W, G>)
        ensures
            r == (if *command is Cancel { DialogResult::<W, G>::Close } else { DialogResult::Continue }),
    {
        if command.is_cancel() { DialogResult::Close } else { DialogResult::Continue }
    }
}

/// A list with a description beside it: the description on the left half,
/// the list on the right.
pub struct ListWithDescWindow<T> {
    pub rect: Rect,
    pub text_rect: Rect,
    pub list_rect: Rect,
    /// Rows the list shows at once.
    pub list_page_size: u32,
    pub column_pos: Vec<i32>,
    pub items: Vec<T>,
    /// The description shown.
    pub text: String,
    pub escape_click: bool,
}

/// The halves of a list-with-description window of rectangle `rect`: each
/// `w / 2 - 2` wide, the list's starting 2 pixels right of the text's end.
pub open spec fn desc_layout(rect: Rect) -> (Rect, Rect) {
    let w2 = (rect.w / 2 - 2) as u32;
    (Rect::new_spec(0, 0, w2, rect.h), Rect::new_spec((w2 + 2) as i32, 0, w2, rect.h))
}

impl<T> ListWithDescWindow<T> {
    /// The window at `rect` with list columns at `column_pos` and rows
    /// `items`; the list shows as many rows as fit rows of height
    /// `row_h`. The description is empty.
    pub fn new(rect: Rect, column_pos: Vec<i32>, items: Vec<T>, row_h: u32) -> (w: ListWithDescWindow<T>)
        requires
            rect.w >= 4,
            row_h > 0,
        ensures
            w.rect == rect,
            (w.text_rect, w.list_rect) == desc_layout(rect),
            w.list_page_size == rect.h / row_h,
            w.column_pos == column_pos,
            w.items == items,
            w.text@ == Seq::<char>::empty(),
            !w.escape_click,
    {
        let w2 = rect.w / 2 - 2;
        let text_rect = Rect::new(0, 0, w2, rect.h);
        let list_rect = Rect::new((w2 + 2) as i32, 0, w2, rect.h);
        ListWithDescWindow {
            rect,
            text_rect,
            list_rect,
            list_page_size: rect.h / row_h,
            column_pos,
            items,
            text: String::new(),
            escape_click: false,
        }
    }

    /// Takes a command (after its list has seen it): a click outside closes
    /// the window and passes the command on; Cancel closes it.
    pub fn process_command<W, G>(&mut self, command: &Command) -> (r: DialogResult<W, G>)
        ensures
            final(self).rect == old(self).rect,
            final(self).text_rect == old(self).text_rect,
            final(self).list_rect == old(self).list_rect,
            final(self).items == old(self).items,
            final(self).text == old(self).text,
            final(self).escape_click == escape_click_after(old(self).escape_click, old(self).rect, *command, false),
            r == (match closer_result::<W, G>(old(self).escape_click, old(self).rect, *command, true, false) {
                Some(c) => c,
                None => if *command is Cancel { DialogResult::Close } else { DialogResult::Continue },
            }),
    {
        if let Some(c) = check_escape_click(&mut self.escape_click, self.rect, command, true) {
            return c;
        }
        if command.is_cancel() { DialogResult::Close } else { DialogResult::Continue }
    }
}

/// A window that shows one image.
pub struct ImageWindow {
    pub rect: Rect,
    /// Where the image is, in the window.
    pub image_rect: Rect,
    /// The character template whose image is shown.
    pub chara: u32,
}

impl ImageWindow {
    /// The window at `rect` showing the image of character template
    /// `chara`, one tile of `tile_size` pixels at the window's corner.
    pub fn chara(rect: Rect, chara: u32, tile_size: u32) -> (w: ImageWindow)
        ensures
            w.rect == rect,
            w.image_rect == Rect::new_spec(0, 0, tile_size, tile_size),
            w.chara == chara,
    {
        ImageWindow { rect, image_rect: Rect::new(0, 0, tile_size, tile_size), chara }
    }
}


/// The information window of an item: its name, its kind, its flavor
/// text, and a list of what it does.
pub struct ItemInfoWindow {
    pub rect: Rect,
    pub item_name: String,
    pub item_kind: String,
    pub flavor_text: String,
    /// The list of what the item does: an icon id and a text per row.
    pub attrs: Vec<(String, String)>,
    pub list_rect: Rect,
    /// Rows the list shows at once.
    pub list_page_size: u32,
    pub escape_click: bool,
}

impl ItemInfoWindow {
    /// The window at `rect` on the item with object id `item_id`, whose
    /// name, kind and description rows (`attrs`) are given; the list
    /// begins `list_y` down and has rows of height `row_h`.
    pub fn new(
        t: &TextBundles,
        rect: Rect,
        item_id: &str,
        item_name: String,
        item_kind: String,
        attrs: Vec<(String, String)>,
        list_y: u32,
        row_h: u32,
    ) -> (w: ItemInfoWindow)
        requires
            list_y <= rect.h,
            list_y <= i32::MAX,
            row_h > 0,
        ensures
            w.rect == rect,
            w.item_name == item_name,
            w.item_kind == item_kind,
            w.flavor_text@ == (match bundle_text(t.flavor, item_id@, no_args()) { Some(s) => s, None => Seq::empty() }),
            w.attrs == attrs,
            w.list_rect == Rect::new_spec(0, list_y as i32, rect.w, (rect.h - list_y) as u32),
            w.list_page_size == (rect.h - list_y) as u32 / row_h,
            !w.escape_click,
    {
        let flavor_text = match flavor_txt_checked(t, item_id) {
            Some(s) => s,
            None => String::new(),
        };
        let list_rect = Rect::new(0, list_y as i32, rect.w, rect.h - list_y);
        ItemInfoWindow {
            rect,
            item_name,
            item_kind,
            flavor_text,
            attrs,
            list_rect,
            list_page_size: list_rect.h / row_h,
            escape_click: false,
        }
    }

    /// Takes a command (after its list has seen it): a click outside closes
    /// the window (passing nothing on); Cancel closes it.
    pub fn process_command<W, G>(&mut self, command: &Command) -> (r: DialogResult<W, G>)
        ensures
            final(self).rect == old(self).rect,
            final(self).escape_click == escape_click_after(old(self).escape_click, old(self).rect, *command, false),
            r == (match closer_result::<W, G>(old(self).escape_click, old(self).rect, *command, false, false) {
                Some(c) => c,
                None => if *command is Cancel { DialogResult::Close } else { DialogResult::Continue },
            }),
    {
        if let Some(c) = check_escape_click(&mut self.escape_click, self.rect, command, false) {
            return c;
        }
        if command.is_cancel() { DialogResult::Close } else { DialogResult::Continue }
    }
}


/// The members of the game information window group: the game information,
/// the quests and the factions.
pub fn game_info_group_members() -> (r: Vec<MemberInfo>)
    ensures
        member_ids(r@) == seq![
            ("!tab-icon-game-info"@, "tab_text-game_info"@),
            ("!tab-icon-game-info-quest"@, "tab_text-game_info_quest"@),
            ("!tab-icon-game-info-faction"@, "tab_text-game_info_faction"@)
        ],
{
    let mut v: Vec<MemberInfo> = Vec::new();
    v.push(MemberInfo { icon_id: "!tab-icon-game-info", text_id: "tab_text-game_info" });
    v.push(MemberInfo { icon_id: "!tab-icon-game-info-quest", text_id: "tab_text-game_info_quest" });
    v.push(MemberInfo { icon_id: "!tab-icon-game-info-faction", text_id: "tab_text-game_info_faction" });
    assert(member_ids(v@) =~= seq![
            ("!tab-icon-game-info"@, "tab_text-game_info"@),
            ("!tab-icon-game-info-quest"@, "tab_text-game_info_quest"@),
            ("!tab-icon-game-info-faction"@, "tab_text-game_info_faction"@)
        ]);
    v
}

} // verus!
