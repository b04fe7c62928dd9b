//! Game values that are shown as text: their text ids, and their texts.
use vstd::prelude::*;
use crate::command::{Command, command_text_id};
use crate::quest_window::{CustomQuest, TownQuest};
use crate::strutil::{push_str, string_from_chars, to_chars};
use crate::texts::{TextBundles, ability_txt, lookup, misc_txt, no_args, obj_text, obj_txt, quest_txt, ui_txt};

verus! {

/// Values with a text id; the id is translated by the miscellaneous texts.
pub trait ToTextId {
    /// The text id of the value.
    spec fn text_id_of(&self) -> Seq<char>;

    /// The text id of the value.
    fn to_textid(&self) -> (r: &'static str)
        ensures
            r@ == self.text_id_of();
}

/// Values that are printed in the game.
pub trait ToText {
    /// The text of the value, with the texts of `t`.
    spec fn text_of(&self, t: TextBundles) -> Seq<char>;

    /// The text of the value.
    fn to_text(&self, t: &TextBundles) -> (r: String)
        ensures
            r@ == self.text_of(*t);
}

/// The miscellaneous text of a value's text id.
pub fn to_txt<T: ToTextId>(t: &TextBundles, a: &T) -> (r: String)
    ensures
        r@ == lookup(t.misc, a.text_id_of(), no_args()),
{
    misc_txt(t, a.to_textid())
}

/// The kinds of generated dungeons.
#[derive(Clone, Copy, Debug, PartialEq, Eq, Structural)]
pub enum DungeonKind {
    Cave,
    Ruin,
    /// Not a dungeon.
    NoDungeon,
}

impl ToTextId for DungeonKind {
    open spec fn text_id_of(&self) -> Seq<char> {
        match *self {
            DungeonKind::Cave => "dungeon_kind-cave"@,
            DungeonKind::Ruin => "dungeon_kind-ruin"@,
            DungeonKind::NoDungeon => "dungeon_kind-none"@,
        }
    }

    fn to_textid(&self) -> (r: &'static str) {
        match *self {
            DungeonKind::Cave => "dungeon_kind-cave",
            DungeonKind::Ruin => "dungeon_kind-ruin",
            DungeonKind::NoDungeon => "dungeon_kind-none",
        }
    }
}

/// The states a character can be in.
#[derive(Clone, Copy, Debug, PartialEq, Eq, Structural)]
pub enum CharaStatus {
    Hungry,
    Weak,
    Starving,
    Burdened,
    Stressed,
    Strained,
    Overloaded,
    Asleep,
    Poisoned,
    Creation,
}

impl ToTextId for CharaStatus {
    open spec fn text_id_of(&self) -> Seq<char> {
        match *self {
            CharaStatus::Hungry => "chara_status-hungry"@,
            CharaStatus::Weak => "chara_status-weak"@,
            CharaStatus::Starving => "chara_status-starving"@,
            CharaStatus::Burdened => "chara_status-burdened"@,
            CharaStatus::Stressed => "chara_status-stressed"@,
            CharaStatus::Strained => "chara_status-strained"@,
            CharaStatus::Overloaded => "chara_status-overloaded"@,
            CharaStatus::Asleep => "chara_status-asleep"@,
            CharaStatus::Poisoned => "chara_status-poisoned"@,
            CharaStatus::Creation => "chara_status-creation"@,
        }
    }

    fn to_textid(&self) -> (r: &'static str) {
        match *self {
            CharaStatus::Hungry => "chara_status-hungry",
            CharaStatus::Weak => "chara_status-weak",
            CharaStatus::Starving => "chara_status-starving",
            CharaStatus::Burdened => "chara_status-burdened",
            CharaStatus::Stressed => "chara_status-stressed",
            CharaStatus::Strained => "chara_status-strained",
            CharaStatus::Overloaded => "chara_status-overloaded",
            CharaStatus::Asleep => "chara_status-asleep",
            CharaStatus::Poisoned => "chara_status-poisoned",
            CharaStatus::Creation => "chara_status-creation",
        }
    }
}

/// The kinds of weapons.
#[derive(Clone, Copy, Debug, PartialEq, Eq, Structural)]
pub enum WeaponKind {
    Axe,
    Bow,
    Crossbow,
    Firearm,
    Spear,
    Sword,
    Whip,
}

impl ToTextId for WeaponKind {
    open spec fn text_id_of(&self) -> Seq<char> {
        match *self {
            WeaponKind::Axe => "weapon_kind-axe"@,
            WeaponKind::Bow => "weapon_kind-bow"@,
            WeaponKind::Crossbow => "weapon_kind-cross_bow"@,
            WeaponKind::Firearm => "weapon_kind-firearm"@,
            WeaponKind::Spear => "weapon_kind-spear"@,
            WeaponKind::Sword => "weapon_kind-sword"@,
            WeaponKind::Whip => "weapon_kind-whip"@,
        }
    }

    fn to_textid(&self) -> (r: &'static str) {
        match *self {
            WeaponKind::Axe => "weapon_kind-axe",
            WeaponKind::Bow => "weapon_kind-bow",
            WeaponKind::Crossbow => "weapon_kind-cross_bow",
            WeaponKind::Firearm => "weapon_kind-firearm",
            WeaponKind::Spear => "weapon_kind-spear",
            WeaponKind::Sword => "weapon_kind-sword",
            WeaponKind::Whip => "weapon_kind-whip",
        }
    }
}

/// The kinds of armor.
#[derive(Clone, Copy, Debug, PartialEq, Eq, Structural)]
pub enum ArmorKind {
    Body,
    Shield,
}

impl ToTextId for ArmorKind {
    open spec fn text_id_of(&self) -> Seq<char> {
        match *self {
            ArmorKind::Body => "armor_kind-body"@,
            ArmorKind::Shield => "armor_kind-shield"@,
        }
    }

    fn to_textid(&self) -> (r: &'static str) {
        match *self {
            ArmorKind::Body => "armor_kind-body",
            ArmorKind::Shield => "armor_kind-shield",
        }
    }
}

/// The kinds of items; weapons and armor by their own kind.
#[derive(Clone, Copy, Debug, PartialEq, Eq, Structural)]
pub enum ItemKind {
    Potion,
    Food,
    MagicDevice,
    Weapon(WeaponKind),
    Armor(ArmorKind),
    Tool,
    Container,
    Special,
    Material,
    Object,
}

impl ToTextId for ItemKind {
    open spec fn text_id_of(&self) -> Seq<char> {
        match *self {
            ItemKind::Potion => "item_kind-potion"@,
            ItemKind::Food => "item_kind-food"@,
            ItemKind::MagicDevice => "item_kind-magic_device"@,
            ItemKind::Weapon(k) => k.text_id_of(),
            ItemKind::Armor(k) => k.text_id_of(),
            ItemKind::Tool => "item_kind-tool"@,
            ItemKind::Container => "item_kind-container"@,
            ItemKind::Special => "item_kind-special"@,
            ItemKind::Material => "item_kind-material"@,
            ItemKind::Object => "item_kind-object"@,
        }
    }

    fn to_textid(&self) -> (r: &'static str) {
        match self {
            ItemKind::Potion => "item_kind-potion",
            ItemKind::Food => "item_kind-food",
            ItemKind::MagicDevice => "item_kind-magic_device",
            ItemKind::Weapon(k) => k.to_textid(),
            ItemKind::Armor(k) => k.to_textid(),
            ItemKind::Tool => "item_kind-tool",
            ItemKind::Container => "item_kind-container",
            ItemKind::Special => "item_kind-special",
            ItemKind::Material => "item_kind-material",
            ItemKind::Object => "item_kind-object",
        }
    }
}

/// The kinds of skills; weapon skills by their weapon kind.
#[derive(Clone, Copy, Debug, PartialEq, Eq, Structural)]
pub enum SkillKind {
    Endurance,
    Healing,
    BareHands,
    Defence,
    Evasion,
    Carrying,
    MagicDevice,
    Weapon(WeaponKind),
}

impl ToTextId for SkillKind {
    open spec fn text_id_of(&self) -> Seq<char> {
        match *self {
            SkillKind::Endurance => "skill_kind-endurance"@,
            SkillKind::Healing => "skill_kind-healing"@,
            SkillKind::BareHands => "skill_kind-bare_hands"@,
            SkillKind::Defence => "skill_kind-defence"@,
            SkillKind::Evasion => "skill_kind-evasion"@,
            SkillKind::Carrying => "skill_kind-carrying"@,
            SkillKind::MagicDevice => "skill_kind-magic_device"@,
            SkillKind::Weapon(k) => k.text_id_of(),
        }
    }

    fn to_textid(&self) -> (r: &'static str) {
        match self {
            SkillKind::Endurance => "skill_kind-endurance",
            SkillKind::Healing => "skill_kind-healing",
            SkillKind::BareHands => "skill_kind-bare_hands",
            SkillKind::Defence => "skill_kind-defence",
            SkillKind::Evasion => "skill_kind-evasion",
            SkillKind::Carrying => "skill_kind-carrying",
            SkillKind::MagicDevice => "skill_kind-magic_device",
            SkillKind::Weapon(k) => k.to_textid(),
        }
    }
}

impl ToText for Command {
    open spec fn text_of(&self, t: TextBundles) -> Seq<char> {
        lookup(t.ui, command_text_id(*self), no_args())
    }

    fn to_text(&self, t: &TextBundles) -> (r: String) {
        ui_txt(t, self.text_id())
    }
}

impl ToText for CustomQuest {
    open spec fn text_of(&self, t: TextBundles) -> Seq<char> {
        lookup(t.quest, self.id@, no_args())
    }

    fn to_text(&self, t: &TextBundles) -> (r: String) {
        quest_txt(t, self.id.as_str())
    }
}

impl ToText for TownQuest {
    open spec fn text_of(&self, t: TextBundles) -> Seq<char> {
        lookup(t.quest, self.text_id@, no_args())
    }

    fn to_text(&self, t: &TextBundles) -> (r: String) {
        quest_txt(t, self.text_id.as_str())
    }
}

/// An ability, by id.
pub struct AbilityId(pub String);

impl ToText for AbilityId {
    open spec fn text_of(&self, t: TextBundles) -> Seq<char> {
        lookup(t.ability, self.0@, no_args())
    }

    fn to_text(&self, t: &TextBundles) -> (r: String) {
        ability_txt(t, self.0.as_str())
    }
}

/// A faction, by id; an id may begin with `!`.
pub struct FactionId(pub String);

/// The text id of faction `id`: `faction-` and the id without a leading
/// `!`.
pub open spec fn faction_text_id(id: Seq<char>) -> Seq<char> {
    "faction-"@ + (if id.len() > 0 && id[0] == '!' { id.drop_first() } else { id })
}

impl ToText for FactionId {
    open spec fn text_of(&self, t: TextBundles) -> Seq<char> {
        lookup(t.misc, faction_text_id(self.0@), no_args())
    }

    fn to_text(&self, t: &TextBundles) -> (r: String) {
        let chars = to_chars(self.0.as_str());
        let start: usize = if chars.len() > 0 && chars[0] == '!' { 1 } else { 0 };
        let rest = string_from_chars(&chars, start, chars.len());
        proof {
            if start == 1 {
                assert(rest@ =~= self.0@.drop_first());
            } else {
                assert(rest@ =~= self.0@);
            }
        }
        let mut id = String::new();
        push_str(&mut id, "faction-");
        push_str(&mut id, rest.as_str());
        misc_txt(t, id.as_str())
    }
}

/// A region of the world, by name.
pub struct Region {
    pub name: String,
}

impl ToText for Region {
    open spec fn text_of(&self, t: TextBundles) -> Seq<char> {
        obj_text(t, self.name@)
    }

    fn to_text(&self, t: &TextBundles) -> (r: String) {
        obj_txt(t, self.name.as_str())
    }
}

/// A trait of a character: the player's own, or one of the rules by id.
pub enum CharaTrait {
    Player,
    Id(String),
}

/// The text id of a character trait: `player`, or its id.
pub open spec fn chara_trait_id(c: CharaTrait) -> Seq<char> {
    match c {
        CharaTrait::Player => "player"@,
        CharaTrait::Id(id) => id@,
    }
}

impl CharaTrait {
    /// The text id of the trait.
    pub fn text_id(&self) -> (r: &str)
        ensures
            r@ == chara_trait_id(*self),
    {
        match self {
            CharaTrait::Player => "player",
            CharaTrait::Id(id) => id.as_str(),
        }
    }
}

impl ToText for CharaTrait {
    open spec fn text_of(&self, t: TextBundles) -> Seq<char> {
        lookup(t.misc, "trait-"@ + chara_trait_id(*self), no_args())
    }

    fn to_text(&self, t: &TextBundles) -> (r: String) {
        let mut id = String::new();
        push_str(&mut id, "trait-");
        push_str(&mut id, self.text_id());
        misc_txt(t, id.as_str())
    }
}


/// A faction id marked with a leading `!` has the text of the id without
/// the mark.
pub proof fn law_faction_mark(id: Seq<char>)
    ensures
        faction_text_id(seq!['!'] + id) == "faction-"@ + id,
{
    assert((seq!['!'] + id).drop_first() =~= id);
}

} // verus!
