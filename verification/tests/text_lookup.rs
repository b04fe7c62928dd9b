use rusted_ruins::command::Command;
use rusted_ruins::item_text::{Item, Remaining};
use rusted_ruins::readable::{readable_title_txt, readable_txt, split_pages};
use rusted_ruins::text::Bundle;
use rusted_ruins::text_ids::{
    AbilityId, ArmorKind, CharaStatus, CharaTrait, DungeonKind, FactionId, ItemKind, SkillKind,
    ToText, ToTextId, WeaponKind, to_txt,
};
use rusted_ruins::texts::{
    TextBundles, ability_txt, flavor_txt_checked, log_txt, material, material_group, misc_txt,
    misc_txt_checked, obj_txt, obj_txt_checked, quest_txt, quest_txt_checked, talk_txt,
    talk_txt_checked, ui_txt, ui_txt_checked, ui_txt_with_args,
};

fn bundle(first: &str, second: &str) -> Bundle {
    Bundle::load("en-US", "ja", vec![first.to_string()], vec![second.to_string()])
}

fn texts() -> TextBundles {
    TextBundles {
        ability: bundle("fire-ball = Fire Ball\n", ""),
        flavor: bundle("sword = An old sword.\n", ""),
        log: bundle("log-start = The adventure begins.\n", ""),
        misc: bundle(
            "material_group-metal = Metal\nmaterial-iron = Iron\nweapon_kind-sword = Sword\nchara_status-hungry = Hungry\nfaction-player = Player\ntrait-player = Player trait\nduration-days = days\nduration-hours = hours\nduration-minutes = minutes\nitem_info_text-remaining = , { $duration } left\nskill_kind-healing = Healing\n",
            "only-second = From the second language\n",
        ),
        obj: bundle("sword = Sword\nchara = Person\nwall = Wall\n", ""),
        quest: bundle("q1 = First quest\n", ""),
        readable: bundle(
            "book = Line one\n    Line two\nbook-title = The Book\n",
            "",
        ),
        talk: bundle("hello = Hello, { $name }!\n", ""),
        ui: bundle(
            "button_text-close = Close\ncommand-cancel = Cancel\nitem-charges = charges\ngreeting = Hi { $who }\n",
            "",
        ),
    }
}

#[test]
fn ui_text_found_and_falls_back_to_id() {
    let t = texts();
    assert_eq!(ui_txt(&t, "button_text-close"), "Close");
    assert_eq!(ui_txt(&t, "no-such-id"), "no-such-id");
    assert_eq!(ui_txt_checked(&t, "button_text-close"), Some("Close".to_string()));
    assert_eq!(ui_txt_checked(&t, "no-such-id"), None);
}

#[test]
fn second_language_is_used_when_the_first_lacks_the_message() {
    let t = texts();
    assert_eq!(misc_txt(&t, "only-second"), "From the second language");
    assert_eq!(misc_txt_checked(&t, "missing", &Vec::new()), None);
}

#[test]
fn isolation_marks_are_removed_from_arguments() {
    let t = texts();
    let args = vec![("who".to_string(), "Ann".to_string())];
    assert_eq!(ui_txt_with_args(&t, "greeting", &args), "Hi Ann");
    let args = vec![("name".to_string(), "Bob".to_string())];
    assert_eq!(talk_txt_checked(&t, "hello", &args), Some("Hello, Bob!".to_string()));
}

#[test]
fn each_text_kind_has_its_own_bundle() {
    let t = texts();
    assert_eq!(ability_txt(&t, "fire-ball"), "Fire Ball");
    assert_eq!(flavor_txt_checked(&t, "sword"), Some("An old sword.".to_string()));
    assert_eq!(flavor_txt_checked(&t, "fire-ball"), None);
    assert_eq!(log_txt(&t, "log-start"), "The adventure begins.");
    assert_eq!(quest_txt(&t, "q1"), "First quest");
    assert_eq!(quest_txt(&t, "q2"), "q2");
    assert_eq!(quest_txt_checked(&t, "q2"), None);
    assert_eq!(talk_txt(&t, "bye"), "bye");
}

#[test]
fn object_text_falls_back_to_the_base_id() {
    let t = texts();
    assert_eq!(obj_txt(&t, "sword"), "Sword");
    assert_eq!(obj_txt(&t, "sword-3"), "Sword");
    assert_eq!(obj_txt(&t, "chara-m-12"), "Person");
    assert_eq!(obj_txt(&t, "shield-3"), "shield-3");
    assert_eq!(obj_txt(&t, "unknown"), "unknown");
    assert_eq!(obj_txt_checked(&t, "sword-3"), None);
}

#[test]
fn material_texts_use_prefixed_ids() {
    let t = texts();
    assert_eq!(material_group(&t, "metal"), "Metal");
    assert_eq!(material(&t, "iron"), "Iron");
    assert_eq!(material(&t, "wood"), "material-wood");
}

#[test]
fn readable_text_is_split_into_pages() {
    let pages = split_pages("a\nb\n<newpage>\nc\n");
    assert_eq!(pages, vec!["a\nb\n".to_string(), "c\n".to_string()]);
    let pages = split_pages("<newpage>\nx");
    assert_eq!(pages, vec!["".to_string(), "x\n".to_string()]);
    assert_eq!(split_pages(""), Vec::<String>::new());
}

#[test]
fn readable_texts_and_titles() {
    let t = texts();
    assert_eq!(readable_txt(&t, "book"), vec!["Line one\nLine two\n".to_string()]);
    assert_eq!(readable_txt(&t, "nothing"), vec!["(empty)".to_string()]);
    assert_eq!(readable_title_txt(&t, "book"), Some("The Book".to_string()));
    assert_eq!(readable_title_txt(&t, "nothing"), None);
}

#[test]
fn text_ids_of_game_kinds() {
    assert_eq!(DungeonKind::Cave.to_textid(), "dungeon_kind-cave");
    assert_eq!(DungeonKind::NoDungeon.to_textid(), "dungeon_kind-none");
    assert_eq!(ItemKind::Weapon(WeaponKind::Crossbow).to_textid(), "weapon_kind-cross_bow");
    assert_eq!(ItemKind::Armor(ArmorKind::Shield).to_textid(), "armor_kind-shield");
    assert_eq!(ItemKind::MagicDevice.to_textid(), "item_kind-magic_device");
    assert_eq!(SkillKind::BareHands.to_textid(), "skill_kind-bare_hands");
    assert_eq!(SkillKind::Weapon(WeaponKind::Bow).to_textid(), "weapon_kind-bow");
    assert_eq!(CharaStatus::Asleep.to_textid(), "chara_status-asleep");
    let t = texts();
    assert_eq!(to_txt(&t, &ItemKind::Weapon(WeaponKind::Sword)), "Sword");
    assert_eq!(to_txt(&t, &CharaStatus::Hungry), "Hungry");
    assert_eq!(to_txt(&t, &CharaStatus::Weak), "chara_status-weak");
}

#[test]
fn texts_of_game_values() {
    let t = texts();
    assert_eq!(Command::Cancel.to_text(&t), "Cancel");
    assert_eq!(Command::Enter.to_text(&t), "command-enter");
    assert_eq!(AbilityId("fire-ball".to_string()).to_text(&t), "Fire Ball");
    assert_eq!(FactionId("!player".to_string()).to_text(&t), "Player");
    assert_eq!(FactionId("player".to_string()).to_text(&t), "Player");
    assert_eq!(FactionId("!!x".to_string()).to_text(&t), "faction-!x");
    assert_eq!(CharaTrait::Player.to_text(&t), "Player trait");
    assert_eq!(CharaTrait::Id("brave".to_string()).to_text(&t), "trait-brave");
    assert_eq!(CharaTrait::Id("brave".to_string()).text_id(), "brave");
}

#[test]
fn item_text_shows_all_parts() {
    let t = texts();
    let item = Item {
        id: "sword-2".to_string(),
        charge: Some(3),
        title: Some("book".to_string()),
        material: Some("iron".to_string()),
        remaining: Some(Remaining { days: 0, hours: 0, minutes: 25 }),
        build_obj: Some("wall".to_string()),
        quality: -2,
        skill_learning: vec![SkillKind::Healing],
    };
    assert_eq!(
        item.to_text(&t),
        "Sword (charges : 3) <The Book> (Iron), 30 minutes left (Wall) -2 <Healing>"
    );
    let plain = Item {
        id: "sword".to_string(),
        charge: None,
        title: Some("nothing".to_string()),
        material: None,
        remaining: Some(Remaining { days: 2, hours: 5, minutes: 0 }),
        build_obj: None,
        quality: 1,
        skill_learning: vec![],
    };
    assert_eq!(plain.to_text(&t), "Sword, 2 days left +1");
    let hours = Item {
        id: "sword".to_string(),
        charge: None,
        title: None,
        material: None,
        remaining: Some(Remaining { days: 0, hours: 4, minutes: 59 }),
        build_obj: None,
        quality: 0,
        skill_learning: vec![],
    };
    assert_eq!(hours.to_text(&t), "Sword, 4 hours left");
}

#[test]
fn a_language_that_does_not_parse_is_refused() {
    assert!(Bundle::try_load("en-US", "", vec![], vec![]).is_none());
    assert!(Bundle::try_load("not a language!", "ja", vec![], vec![]).is_none());
    assert!(Bundle::try_load("en-US", "ja", vec![], vec![]).is_some());
}

#[test]
fn first_definition_of_an_id_stays() {
    let b = Bundle::load(
        "en-US",
        "ja",
        vec!["a = One\n-brand = Acme\n".to_string(), "a = Two\nbrand = Message\nc =\n    .attr = x\n".to_string()],
        vec!["c = Second\n".to_string()],
    );
    let args = vec![];
    // a later resource does not replace a message
    assert_eq!(b.format("a", &args), Some("One".to_string()));
    // a term takes its id from messages
    assert_eq!(b.format("brand", &args), None);
    // a message without a value in the first language is looked up in the second
    assert_eq!(b.format("c", &args), Some("Second".to_string()));
}

#[test]
fn bundles_keep_their_languages_and_sources() {
    let b = Bundle::try_load("en-us", "ja", vec!["a = One\n".to_string()], vec!["b = Two\n".to_string()]).unwrap();
    assert_eq!(b.first.locales.len(), 1);
    assert_eq!(b.first.locales[0].to_string(), "en-US");
    assert_eq!(b.second.locales[0].to_string(), "ja");
    let args = vec![];
    assert_eq!(b.format("a", &args), Some("One".to_string()));
    assert_eq!(b.format("b", &args), Some("Two".to_string()));
    assert!(Bundle::try_load("en-US", "", vec![], vec![]).is_none());
}
