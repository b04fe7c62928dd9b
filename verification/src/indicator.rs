//! The indicators over the map: the bars, the floor, the time, the
//! character states, and what is under the mouse.
use vstd::prelude::*;
use crate::geom::Rect;
use crate::strutil::{decimal, decimal2, digit_char, push_decimal, push_decimal2, push_str};
use crate::text_ids::{CharaStatus, DungeonKind, ToText, ToTextId, to_txt};
use crate::texts::{TextBundles, lookup, no_args, obj_text, obj_txt, obj_txt_checked};
use crate::text::bundle_text;

verus! {

/// The bar indicators.
#[derive(Clone, Copy, Debug, PartialEq, Eq, Structural)]
pub enum BarIndicatorKind {
    Hp,
    Mp,
    Sp,
}

/// The id of the label image of a bar.
pub open spec fn bar_label(kind: BarIndicatorKind) -> Seq<char> {
    match kind {
        BarIndicatorKind::Hp => "!label-hp"@,
        BarIndicatorKind::Mp => "!label-mp"@,
        BarIndicatorKind::Sp => "!label-sp"@,
    }
}

/// The colouring of a gauge.
#[derive(Clone, Copy, Debug, PartialEq, Eq, Structural)]
pub enum GaugeColorMode {
    Hp,
    Mp,
    Sp,
}

impl BarIndicatorKind {
    /// The colouring of the bar's gauge: that of its own kind.
    pub fn color_mode(self) -> (r: GaugeColorMode)
        ensures
            r == (match self {
                BarIndicatorKind::Hp => GaugeColorMode::Hp,
                BarIndicatorKind::Mp => GaugeColorMode::Mp,
                BarIndicatorKind::Sp => GaugeColorMode::Sp,
            }),
    {
        match self {
            BarIndicatorKind::Hp => GaugeColorMode::Hp,
            BarIndicatorKind::Mp => GaugeColorMode::Mp,
            BarIndicatorKind::Sp => GaugeColorMode::Sp,
        }
    }

    /// The id of the label image of the bar.
    pub fn label_id(self) -> (r: &'static str)
        ensures
            r@ == bar_label(self),
    {
        match self {
            BarIndicatorKind::Hp => "!label-hp",
            BarIndicatorKind::Mp => "!label-mp",
            BarIndicatorKind::Sp => "!label-sp",
        }
    }
}

/// The rectangle `w` by `h` centred on `(cx, cy)`.
pub open spec fn centered(cx: int, cy: int, w: u32, h: u32) -> Rect {
    Rect { x: (cx - w as int / 2) as i32, y: (cy - h as int / 2) as i32, w, h }
}

/// A bar over the map (hit points, magic points or satiety), with its
/// label image centred over the bar.
pub struct BarIndicator {
    pub rect: Rect,
    pub kind: BarIndicatorKind,
    /// Where the label is drawn, within the bar.
    pub label_rect: Rect,
}

impl BarIndicator {
    /// The bar of `kind` at `rect`, whose label image is `label_w` by
    /// `label_h` pixels.
    pub fn new(kind: BarIndicatorKind, rect: Rect, label_w: u32, label_h: u32) -> (b: BarIndicator)
        requires
            label_w <= i32::MAX,
            label_h <= i32::MAX,
            rect.w <= i32::MAX,
            rect.h <= i32::MAX,
        ensures
            b.rect == rect,
            b.kind == kind,
            b.label_rect == centered(rect.w as int / 2, rect.h as int / 2, label_w, label_h),
    {
        let cx: i64 = (rect.w / 2) as i64;
        let cy: i64 = (rect.h / 2) as i64;
        let x: i64 = cx - (label_w / 2) as i64;
        let y: i64 = cy - (label_h / 2) as i64;
        BarIndicator { rect, kind, label_rect: Rect::new(x as i32, y as i32, label_w, label_h) }
    }
}

/// A map: the floor of a site, or a region's map.
#[derive(Clone, Copy, Debug, PartialEq, Eq, Structural)]
pub enum MapId {
    SiteMap { sid: u32, floor: u32 },
    RegionMap { rid: u32 },
}

/// What a site holds.
pub enum SiteContent {
    /// A generated dungeon of this kind.
    AutoGenDungeon { dungeon_kind: DungeonKind },
    /// A town, by id.
    Town { town_id: String },
    /// The player's home.
    Player,
    /// A temporary site.
    Temp,
    Other,
}

/// A site of a region: its name (if it has one of its own), its id, and
/// what it holds.
pub struct Site {
    pub name: Option<String>,
    pub id: Option<String>,
    pub content: SiteContent,
}

/// The text of a site: its own name; else the object text of its id, if
/// there is one; else after what it holds: the dungeon kind's text, the
/// town's text, `home`, `temp` or nothing.
pub open spec fn site_text(t: TextBundles, s: Site) -> Seq<char> {
    match s.name {
        Some(n) => n@,
        None => {
            let by_id = match s.id {
                Some(id) => bundle_text(t.obj, id@, no_args()),
                None => None,
            };
            match by_id {
                Some(text) => text,
                None => match s.content {
                    SiteContent::AutoGenDungeon { dungeon_kind } => lookup(t.misc, dungeon_kind.text_id_of(), no_args()),
                    SiteContent::Town { town_id } => obj_text(t, town_id@),
                    SiteContent::Player => "home"@,
                    SiteContent::Temp => "temp"@,
                    SiteContent::Other => Seq::empty(),
                },
            }
        },
    }
}

impl ToText for Site {
    open spec fn text_of(&self, t: TextBundles) -> Seq<char> {
        site_text(t, *self)
    }

    fn to_text(&self, t: &TextBundles) -> (r: String) {
        if let Some(name) = &self.name {
            return name.clone();
        }
        if let Some(id) = &self.id {
            if let Some(text) = obj_txt_checked(t, id.as_str()) {
                return text;
            }
        }
        match &self.content {
            SiteContent::AutoGenDungeon { dungeon_kind } => to_txt(t, dungeon_kind),
            SiteContent::Town { town_id } => obj_txt(t, town_id.as_str()),
            SiteContent::Player => String::from_str("home"),
            SiteContent::Temp => String::from_str("temp"),
            SiteContent::Other => String::new(),
        }
    }
}

/// The floor indicator: the place of the current map.
pub struct FloorInfo {
    pub rect: Rect,
    pub label: String,
    /// The map the label is for.
    pub mid: Option<MapId>,
}

/// The label of map `mid` whose place has text `place`: on a site's
/// floor, the floor counted from 1 in brackets after it.
pub open spec fn floor_label(mid: MapId, place: Seq<char>) -> Seq<char> {
    match mid {
        MapId::SiteMap { floor, .. } => place + " ("@ + decimal(floor as nat + 1) + ")"@,
        MapId::RegionMap { .. } => place,
    }
}

impl FloorInfo {
    /// The indicator at `rect`, for no map yet.
    pub fn new(rect: Rect) -> (f: FloorInfo)
        ensures
            f.rect == rect,
            f.label@ == Seq::<char>::empty(),
            f.mid.is_none(),
    {
        FloorInfo { rect, label: String::new(), mid: None }
    }

    /// Shows the current map `current_mid`, whose place (the site or the
    /// region) has text `place`; the label changes only with the map. The
    /// result tells whether it changed.
    pub fn update(&mut self, current_mid: MapId, place: &str) -> (changed: bool)
        ensures
            changed == (old(self).mid != Some(current_mid)),
            final(self).mid == Some(current_mid),
            final(self).rect == old(self).rect,
            changed ==> final(self).label@ == floor_label(current_mid, place@),
            !changed ==> final(self).label == old(self).label,
    {
        let same = match self.mid {
            Some(m) => m == current_mid,
            None => false,
        };
        if same {
            return false;
        }
        self.mid = Some(current_mid);
        let mut label = String::new();
        push_str(&mut label, place);
        match current_mid {
            MapId::SiteMap { floor, .. } => {
                push_str(&mut label, " (");
                push_decimal(&mut label, floor as u64 + 1);
                push_str(&mut label, ")");
            },
            MapId::RegionMap { .. } => {},
        }
        self.label = label;
        true
    }
}

/// A moment of the game's calendar.
#[derive(Clone, Copy, Debug, PartialEq, Eq, Structural)]
pub struct GameDate {
    pub year: u32,
    pub month: u16,
    pub day: u16,
    pub hour: u16,
    pub minute: u16,
}

/// The date and time indicator; the time is shown in steps of ten
/// minutes.
pub struct TimeInfo {
    pub date_label: String,
    pub time_label: String,
    pub year: u32,
    pub month: u16,
    pub day: u16,
    pub hour: u16,
    pub minute: u16,
}

/// The date label: `"<year>/<month>/<day>"`, month and day with two digits.
pub open spec fn date_label(year: u32, month: u16, day: u16) -> Seq<char> {
    decimal(year as nat) + "/"@ + decimal2(month as nat) + "/"@ + decimal2(day as nat)
}

/// The time label: `"<hour>:<minute>"`, each with two digits.
pub open spec fn time_label(hour: u16, minute: u16) -> Seq<char> {
    decimal2(hour as nat) + ":"@ + decimal2(minute as nat)
}

impl TimeInfo {
    /// The indicator before any date is shown.
    pub fn new() -> (ti: TimeInfo)
        ensures
            ti.year == 0 && ti.month == 0 && ti.day == 0 && ti.hour == 0 && ti.minute == 0,
            ti.date_label@ == Seq::<char>::empty(),
            ti.time_label@ == Seq::<char>::empty(),
    {
        TimeInfo { date_label: String::new(), time_label: String::new(), year: 0, month: 0, day: 0, hour: 0, minute: 0 }
    }

    /// Shows the moment `date`: the date label changes when the date does,
    /// the time label when the hour or the ten minutes do.
    pub fn update(&mut self, date: GameDate)
        ensures
            final(self).year == date.year,
            final(self).month == date.month,
            final(self).day == date.day,
            final(self).hour == date.hour,
            final(self).minute == date.minute - date.minute % 10,
            (old(self).year != date.year || old(self).month != date.month || old(self).day != date.day)
                ==> final(self).date_label@ == date_label(date.year, date.month, date.day),
            !(old(self).year != date.year || old(self).month != date.month || old(self).day != date.day)
                ==> final(self).date_label == old(self).date_label,
            (old(self).hour != date.hour || old(self).minute != date.minute - date.minute % 10)
                ==> final(self).time_label@ == time_label(date.hour, (date.minute - date.minute % 10) as u16),
            !(old(self).hour != date.hour || old(self).minute != date.minute - date.minute % 10)
                ==> final(self).time_label == old(self).time_label,
    {
        let mut date_changed = false;
        if self.year != date.year {
            self.year = date.year;
            date_changed = true;
        }
        if self.month != date.month {
            self.month = date.month;
            date_changed = true;
        }
        if self.day != date.day {
            self.day = date.day;
            date_changed = true;
        }
        let mut time_changed = false;
        if self.hour != date.hour {
            self.hour = date.hour;
            time_changed = true;
        }
        let minute10 = date.minute - date.minute % 10;
        if self.minute != minute10 {
            self.minute = minute10;
            time_changed = true;
        }
        if date_changed {
            let mut s = String::new();
            push_decimal(&mut s, self.year as u64);
            push_str(&mut s, "/");
            push_decimal2(&mut s, self.month as u64);
            push_str(&mut s, "/");
            push_decimal2(&mut s, self.day as u64);
            self.date_label = s;
        }
        if time_changed {
            let mut s = String::new();
            push_decimal2(&mut s, self.hour as u64);
            push_str(&mut s, ":");
            push_decimal2(&mut s, minute10 as u64);
            self.time_label = s;
        }
    }
}

/// The states of the player's character, shown upwards from a corner.
pub struct StatusInfo {
    pub status: Vec<CharaStatus>,
    /// The labels: where each is and what it says.
    pub labels: Vec<(Rect, String)>,
}

/// Where the label of the `i`-th state is: `i` rows of height `rect.h`
/// above `rect`, one pixel large.
pub open spec fn status_label_rect(rect: Rect, i: int) -> Rect {
    Rect::new_spec(rect.x, (rect.y - rect.h * i) as i32, 1, 1)
}

impl StatusInfo {
    /// No states shown.
    pub fn new() -> (s: StatusInfo)
        ensures
            s.status@.len() == 0,
            s.labels@.len() == 0,
    {
        StatusInfo { status: Vec::new(), labels: Vec::new() }
    }

    /// Shows the states `status` of the player's character from `rect`
    /// upwards; the labels change only with the states. The result tells
    /// whether they changed.
    pub fn update(&mut self, t: &TextBundles, rect: Rect, status: &Vec<CharaStatus>) -> (changed: bool)
        requires
            status@.len() == 0 || rect.y - rect.h * (status@.len() - 1) >= i32::MIN,
        ensures
            changed == (old(self).status@ != status@),
            final(self).status@ == status@,
            !changed ==> final(self).labels == old(self).labels,
            changed ==> final(self).labels@.len() == status@.len(),
            changed ==> forall|i: int| 0 <= i < status@.len() ==>
                (#[trigger] final(self).labels@[i]).0 == status_label_rect(rect, i)
                && final(self).labels@[i].1@ == lookup(t.misc, status@[i].text_id_of(), no_args()),
    {
        let mut same = self.status.len() == status.len();
        let mut k: usize = 0;
        while same && k < status.len()
            invariant
                same ==> self.status@.len() == status@.len(),
                same ==> forall|j: int| 0 <= j < k ==> self.status@[j] == status@[j],
                !same ==> self.status@ != status@,
                k <= status@.len(),
            decreases status@.len() - k,
        {
            if self.status[k] != status[k] {
                same = false;
            }
            k = k + 1;
        }
        if same {
            assert(self.status@ =~= status@);
            return false;
        }
        let mut labels: Vec<(Rect, String)> = Vec::new();
        let mut copy: Vec<CharaStatus> = Vec::new();
        let n = status.len();
        let mut i: usize = 0;
        while i < n
            invariant
                n == status@.len(),
                n == 0 || rect.y - rect.h * (n - 1) >= i32::MIN,
                i <= n,
                copy@ == status@.take(i as int),
                labels@.len() == i,
                forall|j: int| 0 <= j < i ==>
                    (#[trigger] labels@[j]).0 == status_label_rect(rect, j)
                    && labels@[j].1@ == lookup(t.misc, status@[j].text_id_of(), no_args()),
            decreases n - i,
        {
            let ghost ii = i as int;
            let ghost hh = rect.h as int;
            assert(hh * ii <= hh * (n - 1)) by (nonlinear_arith)
                requires 0 <= ii <= n - 1, hh >= 0;
            assert(hh * ii >= 0) by (nonlinear_arith)
                requires 0 <= ii, hh >= 0;
            let y: i128 = rect.y as i128 - (rect.h as i128) * (i as i128);
            let r = Rect::new(rect.x, y as i32, 1, 1);
            let text = to_txt(t, &status[i]);
            labels.push((r, text));
            copy.push(status[i]);
            assert(copy@ =~= status@.take(i + 1));
            i = i + 1;
        }
        assert(copy@ =~= status@);
        self.status = copy;
        self.labels = labels;
        true
    }
}

/// What is shown of the tile under the mouse: the site on it and the
/// character on it.
pub struct SupplementInfo {
    pub hover_tile: Option<(i32, i32)>,
    pub tile_obj: Option<String>,
    pub chara: Option<String>,
}

impl SupplementInfo {
    /// Nothing under the mouse.
    pub fn new() -> (s: SupplementInfo)
        ensures
            s.hover_tile.is_none() && s.tile_obj.is_none() && s.chara.is_none(),
    {
        SupplementInfo { hover_tile: None, tile_obj: None, chara: None }
    }

    /// The mouse is over `pos`; the result tells whether the tile changed
    /// (and what is shown is to be updated).
    pub fn update_hover_tile(&mut self, pos: (i32, i32)) -> (changed: bool)
        ensures
            changed == (old(self).hover_tile != Some(pos)),
            final(self).hover_tile == Some(pos),
            final(self).tile_obj == old(self).tile_obj,
            final(self).chara == old(self).chara,
    {
        let same = match self.hover_tile {
            Some(p) => p.0 == pos.0 && p.1 == pos.1,
            None => false,
        };
        self.hover_tile = Some(pos);
        !same
    }

    /// Shows what is on the tile under the mouse: `visible` tells whether
    /// the tile is in sight, `site` is the text of the site on it (on a
    /// region map), `chara` that of the character on it. A tile out of
    /// sight clears everything, the tile too; with no tile nothing changes.
    pub fn update(&mut self, visible: bool, site: Option<String>, chara: Option<String>)
        ensures
            old(self).hover_tile.is_none() ==> *final(self) == *old(self),
            old(self).hover_tile.is_some() && !visible ==>
                final(self).hover_tile.is_none() && final(self).tile_obj.is_none() && final(self).chara.is_none(),
            old(self).hover_tile.is_some() && visible ==>
                final(self).hover_tile == old(self).hover_tile && final(self).tile_obj == site && final(self).chara == chara,
    {
        if self.hover_tile.is_none() {
            return;
        }
        if !visible {
            self.hover_tile = None;
            self.tile_obj = None;
            self.chara = None;
            return;
        }
        self.tile_obj = site;
        self.chara = chara;
    }
}


/// The time label of an hour below 100 and a minute below 60 is five
/// characters: the hour with two digits, a colon, and the minute rounded
/// down to ten minutes with two digits (its second digit always `0`).
pub proof fn law_time_label_digits(hour: u16, minute: u16)
    requires
        hour < 100,
        minute < 60,
    ensures
        time_label(hour, (minute - minute % 10) as u16) == seq![
            digit_char(hour as int / 10), digit_char(hour as int % 10), ':', digit_char(minute as int / 10), '0'
        ],
{
    lemma_decimal2_two_digits(hour as nat);
    let m10 = (minute - minute % 10) as u16;
    assert(m10 / 10 == minute / 10 && m10 % 10 == 0);
    lemma_decimal2_two_digits(m10 as nat);
    reveal_strlit(":");
    assert(time_label(hour, m10) =~= seq![
        digit_char(hour as int / 10), digit_char(hour as int % 10), ':', digit_char(minute as int / 10), '0'
    ]);
}

/// The date label of a month and a day below 100 is the year, a slash, the
/// month with two digits, a slash, and the day with two digits.
pub proof fn law_date_label_digits(year: u32, month: u16, day: u16)
    requires
        month < 100,
        day < 100,
    ensures
        date_label(year, month, day) == decimal(year as nat) + seq![
            '/', digit_char(month as int / 10), digit_char(month as int % 10),
            '/', digit_char(day as int / 10), digit_char(day as int % 10)
        ],
{
    lemma_decimal2_two_digits(month as nat);
    lemma_decimal2_two_digits(day as nat);
    reveal_strlit("/");
    assert(date_label(year, month, day) =~= decimal(year as nat) + seq![
        '/', digit_char(month as int / 10), digit_char(month as int % 10),
        '/', digit_char(day as int / 10), digit_char(day as int % 10)
    ]);
}

/// Below 100, two-digit decimal notation is the tens digit and the units
/// digit.
proof fn lemma_decimal2_two_digits(n: nat)
    requires
        n < 100,
    ensures
        decimal2(n) == seq![digit_char((n / 10) as int), digit_char((n % 10) as int)],
{
    if n >= 10 {
        assert(decimal(n / 10) == seq![digit_char((n / 10) as int)]);
        assert(decimal(n) =~= seq![digit_char((n / 10) as int), digit_char((n % 10) as int)]);
    } else {
        assert(n / 10 == 0);
    }
}

/// The minute shown is the minute of the date rounded down to ten minutes.
pub proof fn law_time_minute_step(minute: u16)
    ensures
        (minute - minute % 10) % 10 == 0,
        minute - 10 < minute - minute % 10 <= minute,
{
}

} // verus!
