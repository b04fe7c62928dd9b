use rusted_ruins::ability_window::{AbilityWindow, FactionWindow, cost_text};
use rusted_ruins::choose_window::ListResponse;
use rusted_ruins::command::{InputMode, Command, KeyState, MouseButton};
use rusted_ruins::creation_window::{
    CreationDetailDialog, CreationKind, CreationRequest, CreationWindow, Recipe, creation_tab_index,
};
use rusted_ruins::dialog::{DialogCloseValue, DialogResult, SpecialDialogResult, WindowStack};
use rusted_ruins::equip_window::{EquipMenuItem, EquipRequest, EquipSlotKind, EquipWindow, slot_icon_id};
use rusted_ruins::geom::{CENTERING_POS, CENTERING_POS_FOR_SCREEN, CfgRect, Rect, ScreenLayout, rect_from_cfg};
use rusted_ruins::indicator::{BarIndicator, BarIndicatorKind, FloorInfo, GaugeColorMode, GameDate, MapId, Site, SiteContent, StatusInfo, SupplementInfo, TimeInfo};
use rusted_ruins::info_windows::{
    FlavorTextWindow, GameInfoWindow, HelpWindow, ImageWindow, ListWithDescWindow, money_text,
    play_time_text,
};
use rusted_ruins::item_window::{
    ActionShortcut, ItemMenu, ItemMenuItem, ItemMenuRequest, ItemWindowMode, RegisterShortcutDialog,
    item_tab_index,
};
use rusted_ruins::main_window::{ConvertMouseEventResult, MainWindow, MainWindowMode};
use rusted_ruins::manager::{input_mode, AnimationFrames, OpenedDialog, apply_special_action, dialog_opened_by, GameAction, ItemTab, ManageMode, SpecialAction, game_action, process_special_result};
use rusted_ruins::newgame::{opening_text_window, ChooseClassDialog, DummyNewGameDialog, NewGameBuildPage, NewGameStep, process_newgame_command};
use rusted_ruins::quest_window::{DescTarget, QuestRequest, QuestSelection, QuestWindow, QuestWindowKind};
use rusted_ruins::slot_window::{BuildObj, BuildObjDialog, SlotInsertRequest, SlotInsertWindow};
use rusted_ruins::status_window::{Chara, CharaAttrs, SkillWindow, StatusWindow, skill_level_label, sort_skills};
use rusted_ruins::talk::{AdvanceScriptResult, TalkStep, TalkText, TalkWindow};
use rusted_ruins::text::Bundle;
use rusted_ruins::text_ids::{CharaStatus, DungeonKind, FactionId, SkillKind, ToText, WeaponKind};
use rusted_ruins::texts::TextBundles;

use rusted_ruins::item_text::Item;
use rusted_ruins::item_window::{ItemAction, ItemRequest, ItemWindow};
use rusted_ruins::desc::{CharaModifier, ModuleEffect, trait_description};
use rusted_ruins::text_ids::CharaTrait;
use rusted_ruins::creation_window::creation_group_members;
use rusted_ruins::group_window::{GroupWindow, TabsNavigator};
use rusted_ruins::item_window::item_group_members;
use rusted_ruins::log_window::LogWindow;
use rusted_ruins::menus::ChooseSaveFileDialog;
use rusted_ruins::newgame::{next_ok, player_name_entered};
use rusted_ruins::info_windows::ItemInfoWindow;
use rusted_ruins::effect::{EffectKind, effect, effect_kind};

type Answer = DialogResult<u32, ()>;

fn bundle(src: &str) -> Bundle {
    Bundle::load("en-US", "ja", vec![src.to_string()], vec![])
}

fn texts() -> TextBundles {
    TextBundles {
        ability: bundle("heal = Heal\n"),
        flavor: bundle("sword = An old sword.\n"),
        log: bundle(""),
        misc: bundle(
            "you = You\nfaction-bandits = Bandits\nclass-warrior-desc = Strong\nwarrior = Warrior\nmage = Mage\nchara_status-hungry = Hungry\nchara_status-weak = Weak\ndungeon_kind-cave = Cave\nfacility-anvil = Anvil\nmaterial_group-metal = Metal\nskill_kind-healing = Healing\nweapon_kind-axe = Axe\n",
        ),
        obj: bundle("sword = Sword\nknight = Knight\niron-ingot = Iron ingot\nwood = Wood\n"),
        quest: bundle(""),
        readable: bundle(""),
        talk: bundle("greet =\n    First page\n\n    Second page\nyes = Yes!\n"),
        ui: bundle(
            "button_text-close = Close\nlabel_text-play_time = Play time\nequip_menu-remove = Remove\nequip_menu-information = Info\nitem_menu-infomation = Info\nitem_menu-drop_all = Drop all\nitem_menu-register-as-shortcut = Shortcut\nregister_shortcut = Slot { $i }\nlist_header-faction = Faction\nlist_header-relation = Relation\nlabel_text-status-faction = Faction\nlabel_text-status-carry = Carry\nlabel_text-status-travel_speed = Speed\nlabel_text-creation-required_skill = Skill\nlabel_text-creation-required-facility = Needs\nlabel_text-creation-enough-ingredients = Enough\nlabel_text-creation-not-enough-ingredients = Not enough\nbutton_text-creation-start = Start\nbutton_text-creation-cancel = Cancel\nlist_item_text-creation-no_ingredient = No { $group }\ncommand-open_help_win = Help\n",
        ),
    }
}

fn up(x: i32, y: i32, button: MouseButton) -> Command {
    Command::MouseButtonUp { x, y, button }
}

fn state(x: i32, y: i32, left_button: bool, ctrl: bool, shift: bool) -> Command {
    Command::MouseState { x, y, left_button, right_button: false, key_state: KeyState { ctrl, shift }, ui_only: false }
}

#[test]
fn configured_rectangles_are_centered() {
    let s = ScreenLayout {
        screen_w: 800,
        screen_h: 600,
        main_window: Rect::new(100, 50, 600, 400),
        tab_h: 20,
    };
    let r = rect_from_cfg(CfgRect { x: CENTERING_POS_FOR_SCREEN, y: 7, w: 200, h: 100 }, s);
    assert_eq!(r, Rect::new(300, 7, 200, 100));
    let r = rect_from_cfg(CfgRect { x: CENTERING_POS, y: CENTERING_POS, w: 200, h: 100 }, s);
    assert_eq!(r, Rect::new(300, 50 + 150 + 10, 200, 100));
    let r = rect_from_cfg(CfgRect { x: 3, y: CENTERING_POS, w: 10, h: 390 }, s);
    assert_eq!(r, Rect::new(3, 105, 10, 390));
    // taller than the main window: centered on the screen
    let r = rect_from_cfg(CfgRect { x: 3, y: CENTERING_POS, w: 10, h: 500 }, s);
    assert_eq!(r, Rect::new(3, 50, 10, 500));
    // a rectangle that is not centered ignores the layout
    let odd = ScreenLayout { screen_w: 0, screen_h: 0, main_window: Rect::new(-5, -5, 0, 0), tab_h: 0 };
    let r = rect_from_cfg(CfgRect { x: 10, y: 20, w: 30, h: 40 }, odd);
    assert_eq!(r, Rect::new(10, 20, 30, 40));
}

#[test]
fn labels_of_the_info_windows() {
    let t = texts();
    assert_eq!(play_time_text(&t, 3 * 3600 + 5 * 60 + 9), "Play time  03:05:09");
    assert_eq!(play_time_text(&t, 100 * 3600), "Play time  100:00:00");
    assert_eq!(money_text(1234), "1234 Gold");
    let mut w = GameInfoWindow::new(&t, Rect::new(0, 0, 10, 10), 5, 61);
    assert_eq!(w.money_label, "5 Gold");
    assert_eq!(w.play_time_label, "Play time  00:01:01");
    let r: Answer = w.process_command(&Command::Cancel);
    assert!(matches!(r, DialogResult::Close));
    let f = FlavorTextWindow::new(&t, Rect::new(0, 0, 10, 10), "sword", 4).unwrap();
    assert_eq!((f.name.as_str(), f.text.as_str(), f.close_label.as_str()), ("Sword", "An old sword.", "Close"));
    assert!(FlavorTextWindow::new(&t, Rect::new(0, 0, 10, 10), "knight", 4).is_none());
    let img = ImageWindow::chara(Rect::new(1, 2, 3, 4), 7, 48);
    assert_eq!(img.image_rect, Rect::new(0, 0, 48, 48));
}

#[test]
fn help_window_lists_the_commands_with_their_keys() {
    let t = texts();
    let keys: Vec<String> = (0..10).map(|i| format!("k{}", i)).collect();
    let w = HelpWindow::new(&t, Rect::new(0, 0, 100, 100), Rect::new(5, 10, 80, 20), 25, &keys);
    assert_eq!(w.key_labels.len(), 10);
    assert_eq!(w.key_labels[0], (Rect::new(5, 10, 80, 20), "Help k0".to_string()));
    assert_eq!(w.key_labels[2], (Rect::new(5, 60, 80, 20), "command-open_game_info_win k2".to_string()));
    let r: Answer = w.process_command(&Command::Cancel);
    assert!(matches!(r, DialogResult::Close));
}

#[test]
fn list_with_description_layout_and_class_choice() {
    let w: ListWithDescWindow<u8> = ListWithDescWindow::new(Rect::new(0, 0, 101, 60), vec![0, 10], vec![1, 2], 20);
    assert_eq!(w.text_rect, Rect::new(0, 0, 48, 60));
    assert_eq!(w.list_rect, Rect::new(50, 0, 48, 60));
    assert_eq!(w.list_page_size, 3);
    let t = texts();
    let ids = vec!["warrior".to_string(), "mage".to_string()];
    let mut d = ChooseClassDialog::new(&t, Rect::new(0, 0, 100, 60), vec![0], 20, &ids);
    assert_eq!(d.window.items, vec!["Warrior".to_string(), "Mage".to_string()]);
    let r: (Answer, Option<u32>) = d.process_command(&t, &Command::Enter, Some(ListResponse::SelectionChanged(0)), &ids);
    assert!(matches!(r.0, DialogResult::Continue));
    assert_eq!(d.window.text, "Strong");
    let r: (Answer, Option<u32>) = d.process_command(&t, &Command::Enter, Some(ListResponse::Select(1)), &ids);
    assert_eq!(r.1, Some(1));
    assert_eq!(d.choice.checked, vec![false, true]);
    let r: (Answer, Option<u32>) = d.process_command(&t, &Command::Enter, Some(ListResponse::Select(1)), &ids);
    assert_eq!(r.1, None);
    let r: (Answer, Option<u32>) = d.process_command(&t, &Command::Enter, Some(ListResponse::Select(0)), &ids);
    assert_eq!(r.1, Some(0));
    assert_eq!(d.choice.checked, vec![true, false]);
    let r: (Answer, Option<u32>) = d.process_command(&t, &Command::Cancel, None, &ids);
    assert!(matches!(r.0, DialogResult::Close));
}

#[test]
fn new_game_pages_go_back_and_forth() {
    let p = NewGameBuildPage::default();
    assert_eq!(p, NewGameBuildPage::ChooseClass);
    assert_eq!(p.next(), Some(NewGameBuildPage::PlayerNameInput));
    assert_eq!(p.back(), None);
    assert_eq!(NewGameBuildPage::PlayerInfo.back(), Some(NewGameBuildPage::PlayerNameInput));
    assert_eq!(p.explanation_text(), "newgame-chooseclass");
    let s = process_newgame_command(p, &Command::Cancel, false, false, false, false);
    assert_eq!(s, NewGameStep::ToStartScreen);
    let s = process_newgame_command(p, &Command::Enter, false, false, true, true);
    assert_eq!(s, NewGameStep::Next(NewGameBuildPage::PlayerNameInput));
    let s = process_newgame_command(NewGameBuildPage::PlayerNameInput, &Command::Enter, false, true, false, false);
    assert_eq!(s, NewGameStep::NextWithPlayer);
    let s = process_newgame_command(NewGameBuildPage::PlayerInfo, &Command::Enter, false, false, true, true);
    assert_eq!(s, NewGameStep::Finish);
}

#[test]
fn new_game_dialog_walks_its_pages() {
    let mut d = DummyNewGameDialog::new();
    // no class chosen: "next" is not offered
    assert_eq!(d.process_command(&Command::Enter, false, false, true, true, false), NewGameStep::Stay);
    assert_eq!(d.page, NewGameBuildPage::ChooseClass);
    d.set_class(1);
    assert_eq!(d.process_command(&Command::Enter, false, false, true, true, false), NewGameStep::Next(NewGameBuildPage::PlayerNameInput));
    assert_eq!(d.page, NewGameBuildPage::PlayerNameInput);
    d.set_player_name("  ");
    assert!(!d.next_ok());
    d.set_player_name("Ada");
    assert!(d.next_ok());
    assert_eq!(d.process_command(&Command::Enter, false, true, false, true, false), NewGameStep::NextWithPlayer);
    assert_eq!(d.page, NewGameBuildPage::PlayerInfo);
    assert_eq!(d.process_command(&Command::Cancel, false, false, false, true, false), NewGameStep::Back(NewGameBuildPage::PlayerNameInput));
    assert_eq!(d.page, NewGameBuildPage::PlayerNameInput);
    d.process_command(&Command::Enter, false, true, false, true, false);
    assert_eq!(d.process_command(&Command::Enter, false, false, true, true, false), NewGameStep::Finish);
    assert!(d.opening);
    // the opening text has not scrolled out yet
    assert_eq!(d.process_command(&Command::Enter, false, false, false, true, false), NewGameStep::Stay);
    assert_eq!(d.process_command(&Command::Enter, false, false, false, true, true), NewGameStep::Start);
    let (next, back) = DummyNewGameDialog::button_rect(800, 20, 100, 30, 500);
    assert_eq!(next, Rect::new(410, 500, 100, 30));
    assert_eq!(back, Rect::new(290, 500, 100, 30));
    let mut e = DummyNewGameDialog::new();
    e.set_class(0);
    e.set_player_name("Bo");
    e.process_command(&Command::Enter, false, false, true, false, false);
    e.process_command(&Command::Enter, false, true, false, false, false);
    assert_eq!(e.process_command(&Command::Enter, false, false, true, false, false), NewGameStep::Start);
}

#[test]
fn game_commands_and_special_results() {
    assert!(matches!(game_action(Command::Enter, true, false), GameAction::GotoNextFloor));
    assert!(matches!(game_action(Command::Enter, false, false), GameAction::Nothing));
    assert!(matches!(game_action(Command::PickUpItem, false, true), GameAction::OpenPickUpWin));
    assert!(matches!(game_action(Command::DrinkItem, false, false), GameAction::OpenItemWinOn(ItemTab::Drink)));
    assert!(matches!(game_action(Command::Move { dir: (1, 0) }, false, false), GameAction::TryMove((1, 0))));
    let (mode, action) = process_special_result::<u8>(ManageMode::Start, SpecialDialogResult::StartDialogNewGame);
    assert_eq!(mode, ManageMode::NewGame);
    assert!(matches!(action, SpecialAction::EnterNewGame));
    let (mode, action) = process_special_result::<u8>(ManageMode::OnGame, SpecialDialogResult::ReturnToStartScreen);
    assert_eq!(mode, ManageMode::Start);
    assert!(matches!(action, SpecialAction::ReturnToStart { clear_log: true }));
}

#[test]
fn main_window_turns_mouse_events_into_commands() {
    let mut w = MainWindow::new(Rect::new(0, 0, 100, 100));
    let r = w.convert_mouse_event(state(10, 10, true, false, false), (3, 4), false);
    assert!(matches!(r, ConvertMouseEventResult::Command(Command::MoveTo { dest: (3, 4) })));
    assert_eq!(w.hover_tile, Some((3, 4)));
    let r = w.convert_mouse_event(state(10, 10, true, true, false), (3, 4), false);
    assert!(matches!(r, ConvertMouseEventResult::Command(Command::Shoot { target: (3, 4) })));
    let r = w.convert_mouse_event(state(10, 10, true, false, true), (3, 4), false);
    assert!(matches!(r, ConvertMouseEventResult::Command(Command::UseTool { target: (3, 4) })));
    let r = w.convert_mouse_event(up(10, 10, MouseButton::Right), (3, 4), false);
    assert!(matches!(r, ConvertMouseEventResult::OpenTileMenu { tile: (3, 4), x: 10, y: 10, centering: false }));
    w.convert_mouse_event(up(10, 10, MouseButton::Middle), (7, 7), false);
    assert_eq!(w.centering_tile, Some((7, 7)));
    w.start_targeting_mode();
    let r = w.convert_mouse_event(up(10, 10, MouseButton::Left), (1, 1), false);
    assert!(matches!(r, ConvertMouseEventResult::Ignored));
    assert_eq!(w.mode, MainWindowMode::Target);
    let r = w.convert_mouse_event(up(10, 10, MouseButton::Left), (1, 1), true);
    assert!(matches!(r, ConvertMouseEventResult::DoAction { tile: (1, 1) }));
    assert_eq!(w.mode, MainWindowMode::Normal);
    w.start_targeting_mode();
    w.convert_mouse_event(up(500, 10, MouseButton::Left), (1, 1), true);
    assert_eq!(w.mode, MainWindowMode::Normal);
    let r = w.convert_mouse_event(Command::Cancel, (0, 0), false);
    assert!(matches!(r, ConvertMouseEventResult::Command(Command::Cancel)));
}

#[test]
fn quest_window_chooses_and_confirms_quests() {
    let info = Rect::new(0, 0, 200, 100);
    let (mut w, d) = QuestWindow::new_offer(info, 300, 20, 5, 0, 0, 3);
    assert_eq!(d, DescTarget::Offered(0));
    assert_eq!(w.list_rect, Rect::new(0, 0, 200, 100));
    assert_eq!(w.desc_rect, Rect::new(0, 102, 200, 198));
    let r: (Answer, QuestRequest) = w.process_command(&Command::Enter, false, true, false, None);
    assert!(matches!(r.0, DialogResult::Continue));
    let _: (Answer, QuestRequest) = w.process_command(&Command::Enter, false, false, false, Some(ListResponse::Select(2)));
    let _: (Answer, QuestRequest) = w.process_command(&Command::Enter, false, false, false, Some(ListResponse::Select(0)));
    let r: (Answer, QuestRequest) = w.process_command(&Command::Enter, false, true, false, None);
    assert!(matches!(r.0, DialogResult::Close));
    assert!(matches!(r.1, QuestRequest::Undertake(ref v) if *v == vec![0, 2]));
    let (mut rep, _) = QuestWindow::new_report(info, 300, 20, 5, 0, 0, vec![4, 7]);
    let _: (Answer, QuestRequest) = rep.process_command(&Command::Enter, false, false, false, Some(ListResponse::Select(0)));
    let r: (Answer, QuestRequest) = rep.process_command(&Command::Enter, false, false, false, Some(ListResponse::SelectionChanged(1)));
    assert!(matches!(r.1, QuestRequest::Describe(DescTarget::Town(7))));
    let r: (Answer, QuestRequest) = rep.process_command(&Command::Enter, false, true, false, None);
    assert!(matches!(r.1, QuestRequest::Report(ref v) if *v == vec![7]));
    let (mut list, checked, d) = QuestWindow::new_list(info, 300, 20, 5, 0, 0, 1, &vec![true]);
    assert_eq!(checked, vec![false, true]);
    assert_eq!(d, DescTarget::Custom(0));
    assert_eq!(list.kind, QuestWindowKind::List);
    let r: (Answer, QuestRequest) = list.process_command(&Command::Cancel, true, false, false, None);
    assert!(matches!(r.0, DialogResult::Close));
}

#[test]
fn equipment_menu_removes_and_informs() {
    let t = texts();
    assert_eq!(slot_icon_id(EquipSlotKind::Shield), "!icon-shield");
    let mut w = EquipWindow::new(Rect::new(0, 0, 100, 100), true);
    let r: (Answer, EquipRequest) = w.process_command(&t, &up(30, 40, MouseButton::Right), DialogResult::Continue, Some(ListResponse::SelectForMenu(2)), false);
    assert_eq!(r.1, EquipRequest::Nothing);
    let m = w.menu.as_ref().unwrap();
    assert_eq!(m.menu_items, vec![EquipMenuItem::Remove, EquipMenuItem::Information]);
    assert_eq!(m.choices, vec!["Remove".to_string(), "Info".to_string()]);
    assert_eq!(m.pos, (30, 40));
    let r: (Answer, EquipRequest) = w.process_command(&t, &Command::Enter, DialogResult::CloseWithValue(DialogCloseValue::Index(0)), None, false);
    assert_eq!(r.1, EquipRequest::RemoveEquipment(2));
    assert!(w.menu.is_none());
    let r: (Answer, EquipRequest) = w.process_command(&t, &Command::Enter, DialogResult::Continue, Some(ListResponse::Select(1)), false);
    assert_eq!(r.1, EquipRequest::SelectItemFor(1));
    let r: (Answer, EquipRequest) = w.process_command(&t, &Command::Enter, DialogResult::Continue, Some(ListResponse::Scrolled), false);
    assert_eq!(r.1, EquipRequest::UpdateList);
    let mut other = EquipWindow::new(Rect::new(0, 0, 100, 100), false);
    let _: (Answer, EquipRequest) = other.process_command(&t, &up(1, 1, MouseButton::Right), DialogResult::Continue, Some(ListResponse::SelectForMenu(0)), false);
    assert_eq!(other.menu.as_ref().unwrap().menu_items, vec![EquipMenuItem::Information]);
    let r: (Answer, EquipRequest) = other.process_command(&t, &Command::Enter, DialogResult::CloseWithValue(DialogCloseValue::Index(0)), None, false);
    assert_eq!(r.1, EquipRequest::ShowInfo(0));
    let r: (Answer, EquipRequest) = other.process_command(&t, &Command::Cancel, DialogResult::Continue, None, false);
    assert!(matches!(r.0, DialogResult::Close));
}

#[test]
fn status_window_labels() {
    let t = texts();
    let c = Chara {
        name: None,
        is_main_character: true,
        template_id: "knight".to_string(),
        faction: FactionId("bandits".to_string()),
        lv: 12,
        hp: -3,
        attr: CharaAttrs { max_hp: 40, str: 5, vit: 6, dex: 7, int: 8, wil: 9, cha: 10, spd: 11 },
        carry: 30,
        travel_speed: 2,
    };
    let w = StatusWindow::new(&t, Rect::new(0, 0, 10, 10), &c, 1, "SP  50".to_string());
    assert_eq!(w.name_label, "You");
    assert_eq!(w.faction_label, "Faction  Bandits");
    assert_eq!(w.lv_label, "Lv. 12");
    assert_eq!(w.hp_label, "HP  -3 / 40");
    assert_eq!(w.str_label, "STR  5");
    assert_eq!(w.spd_label, "SPD  11");
    assert_eq!(w.carry_label, "Carry  30");
    assert_eq!(w.travel_speed_label, "Speed  2");
    let named = Chara { name: Some("Ann".to_string()), is_main_character: false, ..c };
    assert_eq!(named.to_text(&t), "Ann");
    let other = Chara { name: None, is_main_character: false, template_id: "knight".to_string(), ..named };
    assert_eq!(other.to_text(&t), "Knight");
}

#[test]
fn skills_are_listed_in_the_order_of_their_kinds() {
    assert_eq!(skill_level_label(3, 0), "Lv. 3");
    assert_eq!(skill_level_label(3, -2), "Lv. 3 - 2");
    assert_eq!(skill_level_label(3, 4), "Lv. 3 + 4");
    let skills = vec![
        (SkillKind::Weapon(WeaponKind::Axe), 2, 0),
        (SkillKind::Healing, 5, 1),
        (SkillKind::Endurance, 1, 0),
    ];
    let sorted = sort_skills(&skills);
    assert_eq!(sorted, vec![(SkillKind::Endurance, 1, 0), (SkillKind::Healing, 5, 1), (SkillKind::Weapon(WeaponKind::Axe), 2, 0)]);
    let t = texts();
    let w = SkillWindow::new(&t, Rect::new(0, 0, 10, 10), &skills);
    assert_eq!(w.rows[1], ("Healing".to_string(), "Lv. 5 + 1".to_string()));
    assert_eq!(w.rows[2], ("Axe".to_string(), "Lv. 2".to_string()));
}

fn recipe() -> Recipe {
    Recipe {
        product: "sword".to_string(),
        ingredients: vec![("metal".to_string(), 2), ("wood".to_string(), 1)],
        groups: vec![Some("metal".to_string()), None],
        facility: Some("anvil".to_string()),
        difficulty: 4,
    }
}

#[test]
fn creation_detail_lists_the_ingredients() {
    let t = texts();
    let available = vec![("iron-ingot".to_string(), 5), ("copper".to_string(), 1)];
    let mut d = CreationDetailDialog::new(&t, Rect::new(0, 0, 100, 100), CreationKind::Smith, "Smithing", 3, recipe(), available, None, true, &vec![5, 0]);
    assert_eq!(d.rows.len(), 2);
    assert_eq!(d.recipe.ingredients, recipe().ingredients);
    assert_eq!(d.rows[0].name, "(Metal) Iron ingot");
    assert_eq!(d.rows[0].count, "5/2");
    assert_eq!(d.rows[1].name, "Wood");
    assert_eq!(d.rows[1].count, "0/1");
    assert!(!d.enough_ingredients);
    assert_eq!(d.enough_ingredients_label, "Not enough");
    assert!(!d.facility_ok);
    assert_eq!(d.facility_label, "Needs: Anvil");
    assert_eq!(d.required_skill_label, "Skill (Smithing: 4)");
    assert!(d.start_button.is_none());
    let r: (Answer, CreationRequest) = d.process_command(&Command::Enter, Some(ListResponse::Select(0)), false, false);
    assert!(matches!(r.1, CreationRequest::UpdateDetail));
    assert_eq!(d.selected_material, 1);
    let r: (Answer, CreationRequest) = d.process_command(&Command::Enter, Some(ListResponse::Select(0)), false, false);
    assert!(matches!(r.1, CreationRequest::UpdateDetail));
    assert_eq!(d.selected_material, 0);
    let r: (Answer, CreationRequest) = d.process_command(&Command::Enter, Some(ListResponse::Select(1)), false, false);
    assert!(matches!(r.1, CreationRequest::Nothing));
    assert_eq!(d.ingredient_items(), vec![Some("iron-ingot".to_string()), Some("wood".to_string())]);
    let mut ok = CreationDetailDialog::new(&t, Rect::new(0, 0, 100, 100), CreationKind::Smith, "Smithing", 3, recipe(), vec![("iron-ingot".to_string(), 5)], Some("Old anvil".to_string()), true, &vec![5, 1]);
    assert!(ok.enough_ingredients);
    assert_eq!(ok.facility_label, "label_text-creation-use-facility: Old anvil");
    assert_eq!(ok.start_button, Some("Start".to_string()));
    let r: (Answer, CreationRequest) = ok.process_command(&Command::Enter, None, true, false);
    assert!(matches!(r.0, DialogResult::CloseAll));
    assert!(matches!(r.1, CreationRequest::StartCreation { kind: CreationKind::Smith, recipe_index: 3, material: Some(0) }));
    let none = CreationDetailDialog::new(&t, Rect::new(0, 0, 100, 100), CreationKind::Smith, "Smithing", 3, recipe(), vec![], None, true, &vec![0, 1]);
    assert_eq!(none.rows[0].item, None);
    assert_eq!(none.rows[0].name, "No Metal");
    assert_eq!(none.rows[0].count, "0/2");
}

#[test]
fn creation_window_opens_and_closes_its_detail() {
    let t = texts();
    assert_eq!(creation_tab_index(Some(CreationKind::Cooking)), 2);
    assert_eq!(creation_tab_index(None), 0);
    let mut w = CreationWindow::new(&t, Rect::new(0, 0, 100, 100), CreationKind::Smith, vec!["sword".to_string()]);
    assert_eq!(w.names, vec!["Sword".to_string()]);
    let r: (Answer, CreationRequest) = w.process_command(&Command::Enter, Some(ListResponse::Select(0)), false, false);
    assert!(matches!(r.1, CreationRequest::OpenDetail(0)));
    let d = CreationDetailDialog::new(&t, Rect::new(0, 0, 100, 100), CreationKind::Smith, "Smithing", 0, recipe(), vec![], None, true, &vec![0, 0]);
    w.open_detail(d);
    let r: (Answer, CreationRequest) = w.process_command(&Command::Cancel, None, false, false);
    assert!(matches!(r.0, DialogResult::Continue));
    assert!(w.detail_dialog.is_none());
    let r: (Answer, CreationRequest) = w.process_command(&Command::Cancel, None, false, false);
    assert!(matches!(r.0, DialogResult::Close));
}

#[test]
fn indicators_show_the_place_time_and_states() {
    let t = texts();
    let mut f = FloorInfo::new(Rect::new(0, 0, 10, 10));
    assert!(f.update(MapId::SiteMap { sid: 1, floor: 2 }, "Cave"));
    assert_eq!(f.label, "Cave (3)");
    assert!(!f.update(MapId::SiteMap { sid: 1, floor: 2 }, "Other"));
    assert_eq!(f.label, "Cave (3)");
    assert!(f.update(MapId::RegionMap { rid: 0 }, "Plains"));
    assert_eq!(f.label, "Plains");
    let site = Site { name: None, id: None, content: SiteContent::AutoGenDungeon { dungeon_kind: DungeonKind::Cave } };
    assert_eq!(site.to_text(&t), "Cave");
    let home = Site { name: None, id: Some("nothing".to_string()), content: SiteContent::Player };
    assert_eq!(home.to_text(&t), "home");
    let mut ti = TimeInfo::new();
    ti.update(GameDate { year: 2024, month: 3, day: 7, hour: 9, minute: 47 });
    assert_eq!(ti.date_label, "2024/03/07");
    assert_eq!(ti.time_label, "09:40");
    assert_eq!(ti.minute, 40);
    let mut si = StatusInfo::new();
    assert!(si.update(&t, Rect::new(10, 100, 5, 20), &vec![CharaStatus::Hungry, CharaStatus::Weak]));
    assert_eq!(si.labels[1], (Rect::new(10, 80, 1, 1), "Weak".to_string()));
    assert!(!si.update(&t, Rect::new(10, 100, 5, 20), &vec![CharaStatus::Hungry, CharaStatus::Weak]));
    let mut sup = SupplementInfo::new();
    assert!(sup.update_hover_tile((1, 2)));
    assert!(!sup.update_hover_tile((1, 2)));
    sup.update(true, Some("Town".to_string()), None);
    assert_eq!(sup.tile_obj, Some("Town".to_string()));
    sup.update(false, None, None);
    assert_eq!(sup.hover_tile, None);
}

#[test]
fn ability_and_faction_rows() {
    let t = texts();
    assert_eq!(cost_text(3, 0), "SP 3 ");
    assert_eq!(cost_text(3, 4), "SP 3 MP 4 ");
    assert_eq!(cost_text(0, 0), "");
    let entries = vec![("heal".to_string(), Some((0, 5))), ("unknown".to_string(), None)];
    let mut w = AbilityWindow::new(&t, Rect::new(0, 0, 200, 100), 0, 0, 120, 10, true, &entries);
    assert_eq!(w.rows, vec![("Heal".to_string(), "MP 5 ".to_string())]);
    assert_eq!(w.abilities, vec!["heal".to_string()]);
    assert_eq!(w.cost_w, 70);
    let r: (Answer, Option<u32>) = w.process_command(&Command::Enter, false, Some(ListResponse::Select(0)));
    assert_eq!(r.1, Some(0));
    let factions = vec![("bandits".to_string(), -20), ("!player".to_string(), 100)];
    let f = FactionWindow::new(&t, Rect::new(0, 0, 200, 100), 120, 10, &factions);
    assert_eq!(f.rows, vec![("Bandits".to_string(), "-20".to_string())]);
    assert_eq!(f.header, ("Faction".to_string(), "Relation".to_string()));
}

#[test]
fn slot_and_build_dialogs() {
    let t = texts();
    let mut w: SlotInsertWindow<u8> = SlotInsertWindow::new(Rect::new(0, 0, 100, 100), 0, 0, vec![(1, "Slot A".to_string())]);
    let r: (Answer, SlotInsertRequest<u8>) = w.process_command(&Command::Enter, false, Some(ListResponse::Select(0)));
    assert_eq!(r.1, SlotInsertRequest::SelectModule(1, 0));
    let r: (Answer, SlotInsertRequest<u8>) = w.process_command(&Command::Cancel, false, None);
    assert!(matches!(r.0, DialogResult::Close));
    assert_eq!(r.1, SlotInsertRequest::ReturnItem);
    let mut b = BuildObjDialog::new(&t, Rect::new(0, 0, 100, 100), vec![(BuildObj::Wall("wood".to_string()), 2)]);
    assert_eq!(b.names, vec!["Wood".to_string()]);
    let r: (Answer, Option<usize>) = b.process_command(&Command::Enter, Some(ListResponse::Select(0)));
    assert!(matches!(r.0, DialogResult::Close));
    assert_eq!(r.1, Some(0));
}

#[test]
fn item_menu_entries_follow_the_mode() {
    let t = texts();
    assert_eq!(item_tab_index::<u8>(Some(ItemWindowMode::Read)), Some(7));
    let m = ItemMenu::new(&t, &ItemWindowMode::<u8>::Drink, 42, None);
    assert_eq!(m.menu_items, vec![ItemMenuItem::Information, ItemMenuItem::DropAll, ItemMenuItem::RegisterAsShortcut(ActionShortcut::Drink(42))]);
    assert_eq!(m.choices, vec!["Info".to_string(), "Drop all".to_string(), "Shortcut".to_string()]);
    let r: (Answer, ItemMenuRequest) = m.process_command(DialogResult::CloseWithValue(DialogCloseValue::Index(1)));
    assert!(matches!(r.0, DialogResult::Special(SpecialDialogResult::ItemListUpdate)));
    assert_eq!(r.1, ItemMenuRequest::DropAll);
    let shop = ItemMenu::new(&t, &ItemWindowMode::<u8>::ShopSell, 1, Some((3, 4)));
    assert_eq!(shop.menu_items, vec![ItemMenuItem::Information]);
    let d = RegisterShortcutDialog::new(&t, ActionShortcut::Eat(2), 10);
    assert_eq!(d.choices[0], "Slot 1");
    assert_eq!(d.choices[9], "Slot 0");
    let r: (Answer, Option<u32>) = d.process_command(&Command::Enter, DialogResult::CloseWithValue(DialogCloseValue::Index(9)));
    assert_eq!(r.1, Some(9));
}

#[test]
fn talk_window_turns_pages_then_advances() {
    let t = texts();
    let mut w = TalkWindow::new(&t, "greet", &vec!["yes".to_string()]);
    assert_eq!(w.text(), "First page");
    assert_eq!(w.answers(), &None);
    assert_eq!(w.process_command(&t, &Command::Enter, None), TalkStep::PageTurned);
    assert_eq!(w.text(), "Second page");
    // the last page offers the answers
    assert_eq!(w.answers(), &Some(vec!["Yes!".to_string()]));
    assert_eq!(w.process_command(&t, &Command::Enter, None), TalkStep::Continue);
    assert_eq!(w.process_command(&t, &Command::Enter, Some(0)), TalkStep::Advance(Some(0)));
    let mut w2 = TalkWindow::new(&t, "missing", &vec![]);
    assert_eq!(w2.text(), "missing");
    assert_eq!(w2.process_command(&t, &Command::Enter, None), TalkStep::Advance(None));
}

#[test]
fn item_window_rows_actions_and_menu() {
    let t = texts();
    let mut w: ItemWindow<u8, u16> = ItemWindow::new(Rect::new(0, 0, 100, 100), 0, 0, ItemWindowMode::Drink);
    let sword = Item {
        id: "sword".to_string(),
        charge: None,
        title: None,
        material: None,
        remaining: None,
        build_obj: None,
        quality: 0,
        skill_learning: vec![],
    };
    w.update_list(&t, vec![(7, sword, 2, "1.5kg".to_string())]);
    assert_eq!(w.item_locations, vec![7]);
    assert_eq!(w.rows, vec![("Sword x 2".to_string(), "1.5kg".to_string())]);
    let r: (Answer, ItemRequest<u16>, Option<u16>) = w.process_command(&t, &Command::ItemInformation, false, DialogResult::Continue, None, 0, 0);
    assert_eq!(r.2, Some(7));
    let r: (Answer, ItemRequest<u16>, Option<u16>) = w.process_command(&t, &Command::Enter, false, DialogResult::Continue, Some(ListResponse::Select(0)), 0, 0);
    assert_eq!(r.1, ItemRequest::Act(ItemAction::Drink, 7));
    let r: (Answer, ItemRequest<u16>, Option<u16>) = w.process_command(&t, &up(5, 6, MouseButton::Right), false, DialogResult::Continue, Some(ListResponse::SelectForMenu(0)), 0, 99);
    assert_eq!(r.1, ItemRequest::Nothing);
    assert_eq!(w.menu.as_ref().unwrap().pos, Some((5, 6)));
    assert_eq!(w.menu.as_ref().unwrap().menu_items[2], ItemMenuItem::RegisterAsShortcut(ActionShortcut::Drink(99)));
    let r: (Answer, ItemRequest<u16>, Option<u16>) = w.process_command(&t, &Command::Enter, false, DialogResult::Continue, None, 0, 0);
    assert!(matches!(r.0, DialogResult::Continue));
    assert!(w.menu.is_some());
    let r: (Answer, ItemRequest<u16>, Option<u16>) = w.process_command(&t, &Command::Enter, false, DialogResult::CloseWithValue(DialogCloseValue::Index(0)), None, 0, 0);
    assert_eq!(r.1, ItemRequest::Menu(ItemMenuRequest::ItemInfo));
    assert!(w.menu.is_none());
    let r: (Answer, ItemRequest<u16>, Option<u16>) = w.process_command(&t, &Command::Cancel, false, DialogResult::Continue, None, 0, 0);
    assert!(matches!(r.0, DialogResult::Close));
}

#[test]
fn trait_descriptions_and_modifiers() {
    let t = texts();
    assert_eq!(CharaModifier::Str(2).to_text(), "STR +2");
    assert_eq!(CharaModifier::Spd(-3).to_text(), "SPD -3");
    assert_eq!(CharaModifier::Vit(0).to_text(), "VIT +0");
    assert_eq!(CharaModifier::Defence { element: "Fire".to_string(), value: -5 }.to_text(), "Defence Fire -5");
    assert_eq!(ModuleEffect::Core.to_text(&t), "Core");
    assert_eq!(ModuleEffect::Ability { group: "magic".to_string() }.to_text(&t), "ability_group-magic");
    let d = trait_description(&t, &CharaTrait::Id("brave".to_string()), &vec!["STR +2".to_string(), "VIT +1".to_string()]);
    assert_eq!(d, "trait-brave-desc\n\nSTR +2\nVIT +1\n");
    let p = trait_description(&t, &CharaTrait::Player, &vec!["ignored".to_string()]);
    assert_eq!(p, "trait-player-desc\n\n");
}

#[test]
fn tabs_groups_and_log_lines() {
    let t = texts();
    let ids = vec!["button_text-close".to_string(), "x".to_string()];
    let mut n = TabsNavigator::new(&t, (10, 100), &ids, 1, 30, 20, 10, 2);
    assert_eq!(n.rect, Rect::new(10, 68, 60, 30));
    assert_eq!(n.labels[1], (Rect::new(30, 20, 30, 10), "x".to_string()));
    assert_eq!(n.labels[0].1, "Close");
    n.set_current_tab(0);
    assert_eq!(n.i, 0);
    let m = item_group_members();
    assert_eq!(m.len(), 9);
    assert_eq!(m[7].icon_id, "!tab-icon-item-read");
    assert_eq!(creation_group_members()[5].text_id, "tab_text-creation_smith");
    let mut log: LogWindow<u32> = LogWindow::new(Rect::new(0, 0, 10, 10));
    for i in 0..5 {
        log.line_cache.append(i);
    }
    assert_eq!(log.line_positions(3, 12), vec![(2, 0), (3, 12), (4, 24)]);
    assert_eq!(log.line_positions(8, 12).len(), 5);
}

#[test]
fn save_files_are_listed_by_stem() {
    let d = ChooseSaveFileDialog::new(Rect::new(0, 0, 10, 10), vec!["/save/alice.rrsve".to_string(), "/save/bob".to_string()]);
    assert_eq!(d.names, vec!["alice".to_string(), "bob".to_string()]);
    let r: (Answer, Option<usize>) = d.process_command(&Command::Enter, Some(ListResponse::Select(1)));
    assert_eq!(r.1, Some(1));
    let r: (Answer, Option<usize>) = d.process_command(&Command::Cancel, None);
    assert!(matches!(r.0, DialogResult::Close));
}

#[test]
fn player_name_must_not_be_blank() {
    assert!(!next_ok(NewGameBuildPage::PlayerNameInput, true, &Some(" \t ".to_string())));
    assert!(next_ok(NewGameBuildPage::PlayerNameInput, false, &Some(" a ".to_string())));
    assert!(!next_ok(NewGameBuildPage::PlayerNameInput, true, &None));
    assert!(next_ok(NewGameBuildPage::ChooseClass, true, &None));
    assert!(player_name_entered("x"));
    assert!(!player_name_entered(""));
}

#[test]
fn item_information_window() {
    let t = texts();
    let mut w = ItemInfoWindow::new(&t, Rect::new(0, 0, 100, 100), "sword", "Sword".to_string(), "Weapon".to_string(), vec![], 40, 20);
    assert_eq!(w.flavor_text, "An old sword.");
    assert_eq!(w.list_rect, Rect::new(0, 40, 100, 60));
    assert_eq!(w.list_page_size, 3);
    let r: Answer = w.process_command(&Command::Cancel);
    assert!(matches!(r, DialogResult::Close));
}

#[test]
fn choosing_a_quest_twice_undoes_the_choice() {
    let mut s = QuestSelection::new(3, false);
    assert!(s.toggle(1));
    assert!(s.any());
    assert!(!s.toggle(1));
    assert_eq!(s.selected, vec![false, false, false]);
    assert!(!s.any());
    let all = QuestSelection::new(2, true);
    assert_eq!(all.report_targets(&vec![5, 9]), vec![5, 9]);
    assert_eq!(all.positions(), vec![0, 1]);
}

#[test]
fn bar_label_is_centred_on_the_bar() {
    let b = BarIndicator::new(BarIndicatorKind::Hp, Rect::new(10, 20, 100, 20), 40, 10);
    assert_eq!(b.label_rect, Rect::new(30, 5, 40, 10));
    assert_eq!(b.rect, Rect::new(10, 20, 100, 20));
    assert_eq!(BarIndicatorKind::Mp.color_mode(), GaugeColorMode::Mp);
}

#[test]
fn animation_frames_restart_after_the_last_frame() {
    assert!(ManageMode::OnGame.is_on_game());
    assert!(!ManageMode::Start.is_on_game());
    let mut f = AnimationFrames::new();
    assert!(!f.before_draw(Some(2)));
    f.after_draw(true);
    f.after_draw(true);
    assert_eq!(f.passed_frame, 2);
    assert!(f.before_draw(Some(2)));
    assert_eq!(f.passed_frame, 0);
    f.after_draw(false);
    assert_eq!(f.passed_frame, 0);
    assert!(!f.before_draw(None));
}

#[test]
fn effect_texts_carry_power_and_hit() {
    let mut t = texts();
    t.misc = bundle("effect_kind-restore_hp = Restores { $power } HP\neffect_kind-status = { $status } ({ $hit }%)\neffect_kind-wall_damage = Breaks walls\n");
    let r = effect_kind(&t, &EffectKind::RestoreHp, "30", "100");
    assert_eq!(r, ("!", "Restores 30 HP".to_string()));
    let r = effect_kind(&t, &EffectKind::Status { status: "Poisoned".to_string() }, "1", "50");
    assert_eq!(r.1, "Poisoned (50%)");
    // a kind without text shows its text id
    let r = effect_kind(&t, &EffectKind::Melee, "5", "100");
    assert_eq!(r.1, "effect_kind-melee");
    let v = effect(&t, &vec![EffectKind::WallDamage, EffectKind::RestoreHp], "7", "0");
    assert_eq!(v, vec![("!", "Breaks walls".to_string()), ("!", "Restores 7 HP".to_string())]);
}

#[test]
fn special_actions_change_the_dialog_stack() {
    let mut st: WindowStack<u32> = WindowStack::new();
    st.push(1);
    st.push(2);
    let a: SpecialAction<()> = SpecialAction::ChooseSaveFile;
    assert_eq!(dialog_opened_by(&a), Some(OpenedDialog::ChooseSaveFile));
    apply_special_action(&mut st, &a, Some(9));
    assert_eq!(st.len(), 3);
    assert_eq!(*st.top(), 9);
    let a: SpecialAction<()> = SpecialAction::EnterNewGame;
    apply_special_action(&mut st, &a, Some(5));
    assert_eq!(st.len(), 1);
    assert_eq!(*st.top(), 5);
    let a: SpecialAction<u8> = SpecialAction::SetGameData(3);
    assert_eq!(dialog_opened_by(&a), None);
    apply_special_action(&mut st, &a, None);
    assert_eq!(st.len(), 1);
    let a: SpecialAction<u8> = SpecialAction::StartNewGame(3);
    apply_special_action(&mut st, &a, None);
    assert!(st.is_empty());
}

#[test]
fn talk_window_takes_the_scripts_answer() {
    let t = texts();
    let mut w = TalkWindow::new(&t, "missing", &vec![]);
    let r: Answer = w.take_advance(&t, AdvanceScriptResult::UpdateTalkText(TalkText { text_id: "greet".to_string(), choices: vec![] }));
    assert!(matches!(r, DialogResult::Continue));
    assert_eq!(w.text(), "First page");
    let r: Answer = w.take_advance(&t, AdvanceScriptResult::Continue);
    assert!(matches!(r, DialogResult::Continue));
    let r: Answer = w.take_advance(&t, AdvanceScriptResult::Quit);
    assert!(matches!(r, DialogResult::Close));
}

#[test]
fn name_page_and_opening_text() {
    let mut d = DummyNewGameDialog::new();
    assert_eq!(d.process_name_page(false, "Ada"), (false, false));
    assert_eq!(d.player_name, None);
    assert_eq!(d.process_name_page(true, ""), (false, true));
    assert_eq!(d.process_name_page(true, "Ada"), (true, false));
    assert_eq!(d.player_name, Some("Ada".to_string()));
    let mut t = texts();
    assert!(opening_text_window(&t, Rect::new(0, 0, 10, 10)).is_none());
    t.misc = bundle("op-scroll =\n    Long ago\n    the ruins slept.\n");
    let w = opening_text_window(&t, Rect::new(0, 0, 10, 10)).unwrap();
    assert_eq!(w.lines(), &vec!["Long ago".to_string(), "the ruins slept.".to_string()]);
    assert_eq!(w.get_rect(), Rect::new(0, 0, 10, 10));
}

#[test]
fn windows_ask_for_their_input_mode() {
    assert_eq!(input_mode(None), InputMode::Normal);
    assert_eq!(input_mode(Some(InputMode::TextInput)), InputMode::TextInput);
    let mut d = DummyNewGameDialog::new();
    assert_eq!(d.mode(), InputMode::Dialog);
    d.set_class(0);
    d.process_command(&Command::Enter, false, false, true, true, false);
    assert_eq!(d.page, NewGameBuildPage::PlayerNameInput);
    assert_eq!(d.mode(), InputMode::TextInput);
    let (g, _) = GroupWindow::<u32>::new(2, 0);
    assert_eq!(g.mode(), InputMode::Dialog);
}
