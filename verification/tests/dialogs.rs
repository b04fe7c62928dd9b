use rusted_ruins::choose_window::{ChooseWindow, DefaultBehavior, ListResponse};
use rusted_ruins::command::{InputMode, Command, KeyState, MouseButton};
use rusted_ruins::dialog::{DialogCloseValue, DialogResult, SpecialDialogResult, StackStep, WindowStack};
use rusted_ruins::dialogs::{DialogCloser, Sidebar, TextInputDialog, TextInputEffect};
use rusted_ruins::geom::Rect;
use rusted_ruins::group_window::GroupWindow;
use rusted_ruins::log_window::{LineCache, display_range};
use rusted_ruins::menus::{ExitButton, ExitWindow, GameOverWindow, MsgDialog, StartDialog};
use rusted_ruins::read_window::{PageWindow, ReadWindow, page_label_text, page_window_label};
use rusted_ruins::text::Bundle;
use rusted_ruins::texts::TextBundles;

type Answer = DialogResult<u32, ()>;

fn bundle(src: &str) -> Bundle {
    Bundle::load("en-US", "ja", vec![src.to_string()], vec![])
}

fn texts() -> TextBundles {
    TextBundles {
        ability: bundle(""),
        flavor: bundle(""),
        log: bundle(""),
        misc: bundle(""),
        obj: bundle(""),
        quest: bundle(""),
        readable: bundle(""),
        talk: bundle(""),
        ui: bundle("dialog-choice-newgame = New game\ndialog-choice-loadgame = Load\ndialog-choice-exit = Exit\n"),
    }
}

fn up(x: i32, y: i32, button: MouseButton) -> Command {
    Command::MouseButtonUp { x, y, button }
}

fn down(x: i32, y: i32, button: MouseButton) -> Command {
    Command::MouseButtonDown { x, y, button }
}

#[test]
fn closing_the_top_window_notifies_its_parent() {
    let mut stack: WindowStack<u32> = WindowStack::new();
    stack.push(1);
    stack.push(2);
    let (closed, step) = stack.apply_result::<()>(DialogResult::CloseWithValue(DialogCloseValue::Index(4)));
    assert_eq!(closed, Some(2));
    assert!(matches!(step, StackStep::NotifyParent(Some(DialogCloseValue::Index(4)))));
    assert_eq!(stack.len(), 1);
    assert_eq!(*stack.top(), 1);
    let (closed, step) = stack.apply_result::<()>(DialogResult::Close);
    assert_eq!(closed, Some(1));
    assert!(matches!(step, StackStep::Done));
    assert!(stack.is_empty());
}

#[test]
fn closing_all_windows_passes_the_command_on() {
    let mut stack: WindowStack<u32> = WindowStack::new();
    stack.push(1);
    stack.push(2);
    stack.push(3);
    let (closed, step) = stack.apply_result::<()>(DialogResult::CloseAllAndReprocess(Command::Enter));
    assert_eq!(closed, Some(3));
    assert!(matches!(step, StackStep::Reprocess(Command::Enter)));
    assert!(stack.is_empty());
    stack.push(5);
    let (closed, step) = stack.apply_result::<()>(DialogResult::OpenChildDialog(9));
    assert_eq!(closed, None);
    assert!(matches!(step, StackStep::Open(9)));
    assert_eq!(stack.len(), 1);
    let (_, step) = stack.apply_result::<()>(DialogResult::CloseAndOpen(7));
    assert!(matches!(step, StackStep::Open(7)));
    assert!(stack.is_empty());
}

#[test]
fn the_sidebar_gives_the_command_of_the_icon_clicked() {
    let mut s = Sidebar::new(0, 100, 48, 48, 4);
    assert_eq!(s.rect, Rect { x: 0, y: 100, w: 48, h: 312 });
    let r: Answer = s.process_command(&up(10, 100 + 52 + 3, MouseButton::Left));
    assert!(matches!(r, DialogResult::Command(Some(Command::OpenEquipWin))));
    let r: Answer = s.process_command(&up(10, 100 + 52 * 5, MouseButton::Left));
    assert!(matches!(r, DialogResult::Command(Some(Command::OpenExitWin))));
    let r: Answer = s.process_command(&up(10, 101, MouseButton::Right));
    assert!(matches!(r, DialogResult::Command(None)));
    let r: Answer = s.process_command(&up(60, 101, MouseButton::Left));
    assert!(matches!(r, DialogResult::Continue));
    let state = Command::MouseState {
        x: 5,
        y: 100 + 52 * 2,
        left_button: false,
        right_button: false,
        key_state: KeyState { ctrl: false, shift: false },
        ui_only: false,
    };
    let r: Answer = s.process_command(&state);
    assert!(matches!(r, DialogResult::Command(None)));
    assert_eq!(s.mouseover, Some(2));
    assert_eq!(s.icon_pattern(2), 5);
    assert_eq!(s.icon_pattern(3), 6);
}

#[test]
fn a_click_outside_a_dialog_closes_it() {
    let rect = Rect::new(10, 10, 100, 50);
    let mut c = DialogCloser::new(rect, 5, 7);
    assert_eq!(c.button_corner, (115, 3));
    assert!(c.process_command(Some(true)));
    assert!(!c.process_command(Some(false)));
    assert!(!c.process_command(None));
    let r: Option<Answer> = c.check(rect, &down(0, 0, MouseButton::Left), true, false);
    assert!(r.is_none());
    assert!(c.escape_click);
    let r: Option<Answer> = c.check(rect, &up(1, 1, MouseButton::Left), true, false);
    assert!(matches!(r, Some(DialogResult::CloseAllAndReprocess(Command::MouseButtonUp { x: 1, y: 1, .. }))));
    assert!(!c.escape_click);
    let _: Option<Answer> = c.check(rect, &down(0, 0, MouseButton::Left), false, false);
    let r: Option<Answer> = c.check(rect, &up(1, 1, MouseButton::Left), false, false);
    assert!(matches!(r, Some(DialogResult::Close)));
    let _: Option<Answer> = c.check(rect, &down(20, 20, MouseButton::Left), false, false);
    assert!(!c.escape_click);
    let r: Option<Answer> = c.check(rect, &Command::Enter, false, true);
    assert!(matches!(r, Some(DialogResult::Close)));
}

#[test]
fn text_input_dialog_types_deletes_and_submits() {
    let (mut d, effect) = TextInputDialog::new(Rect::new(0, 0, 10, 10));
    assert_eq!(d.mode(), InputMode::TextInput);
    assert_eq!(effect, TextInputEffect::Start);
    assert_eq!(d.get_text(), "");
    assert_eq!(d.process_command(&Command::TextInput { text: "abc".to_string() }), (false, TextInputEffect::Nothing));
    assert_eq!(d.process_command(&Command::TextDelete), (false, TextInputEffect::Nothing));
    assert_eq!(d.get_text(), "ab");
    assert_eq!(d.process_command(&Command::Enter), (true, TextInputEffect::End));
    d.set_callback(3);
    assert_eq!(d.process_command(&Command::Enter), (true, TextInputEffect::EndAndSubmit(3)));
    assert_eq!(d.process_command(&Command::Cancel), (true, TextInputEffect::End));
    assert_eq!(d.restart(), TextInputEffect::Start);
    let (mut e, _) = TextInputDialog::new(Rect::new(0, 0, 10, 10));
    e.process_command(&Command::TextDelete);
    assert_eq!(e.get_text(), "");
}

#[test]
fn choose_window_returns_the_choice() {
    let mut w = ChooseWindow::new(vec!["a".to_string(), "b".to_string()], DefaultBehavior::Close);
    let r: (Answer, Option<u32>) = w.process_command(&Command::Cancel, None);
    assert!(matches!(r.0, DialogResult::Continue));
    w.set_rect(Rect::new(0, 0, 50, 20));
    let r: (Answer, Option<u32>) = w.process_command(&Command::Enter, Some(ListResponse::Select(1)));
    assert!(matches!(r.0, DialogResult::CloseWithValue(DialogCloseValue::Index(1))));
    assert_eq!(r.1, None);
    let r: (Answer, Option<u32>) = w.process_command(&Command::Cancel, None);
    assert!(matches!(r.0, DialogResult::Close));
    let _: (Answer, Option<u32>) = w.process_command(&down(100, 100, MouseButton::Left), None);
    let r: (Answer, Option<u32>) = w.process_command(&up(100, 100, MouseButton::Left), None);
    assert!(matches!(r.0, DialogResult::Close));
    let mut y = ChooseWindow::with_yesno(DefaultBehavior::Ignore);
    assert_eq!(y.choices(), &vec!["Yes".to_string(), "No".to_string()]);
    y.set_rect(Rect::new(0, 0, 50, 20));
    let r: (Answer, Option<u32>) = y.process_command(&Command::Cancel, None);
    assert!(matches!(r.0, DialogResult::Continue));
}

#[test]
fn start_dialog_choices_and_answers() {
    let t = texts();
    let d = StartDialog::new(&t, Rect::new(0, 0, 10, 10));
    assert_eq!(d.choices, vec!["New game".to_string(), "Load".to_string(), "Exit".to_string()]);
    let r: Answer = d.process_command(Some(ListResponse::Select(2)));
    assert!(matches!(r, DialogResult::Quit));
    let r: Answer = d.process_command(Some(ListResponse::SelectionChanged(2)));
    assert!(matches!(r, DialogResult::Continue));
}

#[test]
fn exit_window_saves_and_closes() {
    let mut w = ExitWindow::new(Rect::new(0, 0, 100, 100));
    let r: (Answer, bool) = w.process_command(&Command::Enter, false, Some(ExitButton::Save));
    assert!(matches!(r.0, DialogResult::Close));
    assert!(r.1);
    let r: (Answer, bool) = w.process_command(&Command::Enter, false, Some(ExitButton::Exit));
    assert!(matches!(r.0, DialogResult::Quit));
    let r: (Answer, bool) = w.process_command(&Command::Cancel, false, None);
    assert!(matches!(r.0, DialogResult::Close));
    assert!(!r.1);
}

#[test]
fn game_over_window_answers_its_choices() {
    let t = texts();
    let w = GameOverWindow::new(&t, Rect::new(0, 0, 100, 100));
    assert_eq!(w.choices.len(), 3);
    let r: (Answer, bool) = w.process_command(&Command::Enter, Some(0));
    assert!(matches!(r.0, DialogResult::Close) && r.1);
    let r: (Answer, bool) = w.process_command(&Command::Enter, Some(1));
    assert!(matches!(r.0, DialogResult::Special(SpecialDialogResult::ReturnToStartScreen)) && !r.1);
    let r: (Answer, bool) = w.process_command(&Command::Enter, Some(2));
    assert!(matches!(r.0, DialogResult::Quit) && !r.1);
    let r: (Answer, bool) = w.process_command(&Command::Cancel, Some(0));
    assert!(matches!(r.0, DialogResult::Continue) && !r.1);
}

#[test]
fn msg_dialog_hands_the_choice_to_its_callback() {
    let d = MsgDialog::with_yesno(Rect::new(0, 0, 100, 40), "Really?");
    assert_eq!(d.message, "Really?");
    let r: Result<Answer, u32> = d.process_command(&Command::Enter, DialogResult::CloseWithValue(DialogCloseValue::Index(1)));
    assert!(matches!(r, Err(1)));
    let r: Result<Answer, u32> = d.process_command(&Command::Cancel, DialogResult::CloseWithValue(DialogCloseValue::Index(1)));
    assert!(matches!(r, Ok(DialogResult::Close)));
    let r: Result<Answer, u32> = d.process_command(&Command::Enter, DialogResult::Continue);
    assert!(matches!(r, Ok(DialogResult::Continue)));
}

#[test]
fn group_window_rotates_through_its_tabs() {
    let (mut g, need) = GroupWindow::<u32>::new(3, 1);
    assert!(need);
    assert_eq!(g.current_window(), 1);
    g.install(10);
    assert!(g.rotate_right());
    assert_eq!(g.current_window(), 2);
    assert!(g.rotate_right());
    assert_eq!(g.current_window(), 0);
    assert!(g.rotate_left());
    assert_eq!(g.current_window(), 2);
    assert!(!g.rotate_left());
    assert_eq!(g.current_window(), 1);
    assert_eq!(g.take_current(), Some(10));
}

#[test]
fn log_keeps_the_last_twenty_lines() {
    let mut c: LineCache<u32> = LineCache::new();
    for i in 0..15 {
        c.append(i);
    }
    c.update((15..30).collect(), 30);
    assert_eq!(c.len(), 20);
    assert_eq!(*c.get(0), 10);
    assert_eq!(*c.get(19), 29);
    assert_eq!(display_range(30, 5), (25, 30));
    assert_eq!(display_range(3, 5), (0, 3));
}

#[test]
fn read_window_turns_pages_back_and_forth() {
    let pages = vec!["one".to_string(), "two".to_string(), "three".to_string()];
    let mut w = ReadWindow::from_pages(Rect::new(0, 0, 100, 100), 0, 0, pages);
    assert_eq!(w.button_available(), (true, false));
    let r: Answer = w.process_command(&Command::Enter, false, true, false);
    assert!(matches!(r, DialogResult::Continue));
    assert_eq!(w.button_available(), (true, true));
    w.process_buttons(false, true);
    assert_eq!(w.button_available(), (true, false));
    w.set_page(2);
    assert_eq!(w.button_available(), (false, true));
    let r: Answer = w.process_command(&Command::Enter, true, false, false);
    assert!(matches!(r, DialogResult::Close));
}

#[test]
fn page_labels() {
    assert_eq!(page_label_text(1, 3), "1 / 3");
    assert_eq!(page_window_label(0, 2), "1 / 3");
    let mut p = PageWindow::new(Rect::new(5, 6, 40, 20), 3, Some(100), None);
    assert_eq!(p.rect, Rect::new(100, 6, 40, 20));
    assert_eq!(p.label_rect, Rect::new(0, 3, 40, 20));
    assert_eq!(p.label, "1 / 1");
    p.set_page(4, 9);
    assert_eq!(p.label, "5 / 10");
}
