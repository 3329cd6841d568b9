use campaign::error::AppError;
use campaign::session::{edit_target, Action, AppMode, AppState, EditTarget, InputType, Key, Tab};
use campaign::types::{Character, Spell, Status};

fn state() -> AppState {
    let mut c = Character::with_name("Jozan".to_string());
    c.max_hp = 30;
    c.rages = 2;
    c.spell_slots[0] = 2;
    AppState::new(c, Status::default())
}

fn type_text(s: &mut AppState, text: &str) {
    for ch in text.chars() {
        assert!(s.can_handle(Key::Char(ch)));
        s.handle_key(Key::Char(ch));
    }
}

fn press(s: &mut AppState, key: Key) -> Action {
    assert!(s.can_handle(key));
    s.handle_key(key)
}

#[test]
fn new_session_is_idle() {
    let s = state();
    assert!(s.mode == AppMode::Idle);
    assert!(s.input.is_empty());
    assert_eq!(s.head, 0);
    assert!(s.active_tab == Tab::Items);
    assert!(!s.state_updated);
    assert!(s.err.is_none());
}

#[test]
fn letters_pick_the_mode() {
    let cases = [
        ('d', AppMode::Input(InputType::Damage)),
        ('h', AppMode::Input(InputType::Heal)),
        ('c', AppMode::Input(InputType::Cast)),
        ('e', AppMode::EditSelection),
        ('?', AppMode::Help),
        ('q', AppMode::Exiting),
        ('x', AppMode::Idle),
    ];
    for (ch, mode) in cases {
        let mut s = state();
        assert!(press(&mut s, Key::Char(ch)) == Action::Nothing);
        assert!(s.mode == mode);
    }
    let mut s = state();
    press(&mut s, Key::Char('q'));
    assert!(s.is_exiting());
}

#[test]
fn damage_at_the_prompt() {
    let mut s = state();
    press(&mut s, Key::Char('d'));
    type_text(&mut s, "12");
    press(&mut s, Key::Enter);
    assert!(s.mode == AppMode::Idle);
    assert_eq!(s.status.damage, 12);
    assert!(s.state_updated);
    assert!(s.input.is_empty());
    assert_eq!(s.head, 0);
}

#[test]
fn damage_is_capped_at_max_hp() {
    let mut s = state();
    press(&mut s, Key::Char('d'));
    type_text(&mut s, "+200");
    press(&mut s, Key::Enter);
    assert_eq!(s.status.damage, 30);
}

#[test]
fn heal_at_the_prompt() {
    let mut s = state();
    s.status.damage = 20;
    press(&mut s, Key::Char('h'));
    type_text(&mut s, "5");
    press(&mut s, Key::Enter);
    assert_eq!(s.status.damage, 15);
    assert!(s.mode == AppMode::Idle);
}

#[test]
fn not_a_number_is_reported() {
    for text in ["", "abc", "-3", "256", " 4"] {
        let mut s = state();
        press(&mut s, Key::Char('d'));
        type_text(&mut s, text);
        press(&mut s, Key::Enter);
        assert!(s.mode == AppMode::Error, "{}", text);
        assert!(matches!(s.err, Some(AppError::InvalidInt(_))), "{}", text);
        assert!(!s.state_updated);
        assert!(s.input.is_empty());
        s.acknowledge_error();
        assert!(s.mode == AppMode::Idle);
    }
}

#[test]
fn casting_uses_a_slot() {
    let mut s = state();
    press(&mut s, Key::Char('c'));
    type_text(&mut s, "1");
    press(&mut s, Key::Enter);
    assert!(s.mode == AppMode::Idle);
    assert_eq!(s.status.used_slots[0], 1);
    assert!(s.state_updated);
}

#[test]
fn casting_without_slots_is_refused() {
    let mut s = state();
    s.status.used_slots[0] = 2;
    press(&mut s, Key::Char('c'));
    type_text(&mut s, "1");
    press(&mut s, Key::Enter);
    assert!(s.mode == AppMode::Error);
    assert_eq!(s.take_error_message(), "Encountered error: not enough slots available");
    assert!(s.err.is_none());
    assert_eq!(s.status.used_slots[0], 2);
    assert!(!s.state_updated);
}

#[test]
fn casting_outside_levels_is_refused() {
    for text in ["0", "10"] {
        let mut s = state();
        press(&mut s, Key::Char('c'));
        type_text(&mut s, text);
        press(&mut s, Key::Enter);
        assert!(s.mode == AppMode::Error);
        assert_eq!(
            s.take_error_message(),
            "Encountered error: spell slots must be > 0 and < 9"
        );
    }
}

#[test]
fn overspent_slots_cannot_be_handled() {
    let mut s = state();
    s.status.used_slots[0] = 3;
    press(&mut s, Key::Char('c'));
    type_text(&mut s, "1");
    assert!(!s.can_handle(Key::Enter));
    assert!(s.can_handle(Key::Backspace));
}

#[test]
fn rages_run_out() {
    let mut s = state();
    press(&mut s, Key::Char('r'));
    press(&mut s, Key::Char('r'));
    assert_eq!(s.status.used_rages, 2);
    assert!(s.state_updated);
    assert!(s.mode == AppMode::Idle);
    press(&mut s, Key::Char('r'));
    assert_eq!(s.status.used_rages, 2);
    assert!(s.mode == AppMode::Error);
    assert_eq!(s.take_error_message(), "Encountered error: You ran out of rages");
}

#[test]
fn editing_the_prompt() {
    let mut s = state();
    press(&mut s, Key::Char('d'));
    type_text(&mut s, "13");
    press(&mut s, Key::Left);
    type_text(&mut s, "2");
    assert_eq!(s.input, vec!['1', '2', '3']);
    assert_eq!(s.head, 2);
    press(&mut s, Key::Backspace);
    assert_eq!(s.input, vec!['1', '3']);
    assert_eq!(s.head, 1);
    press(&mut s, Key::Right);
    press(&mut s, Key::Right);
    assert_eq!(s.head, 2);
    press(&mut s, Key::Left);
    press(&mut s, Key::Left);
    press(&mut s, Key::Left);
    assert_eq!(s.head, 0);
    press(&mut s, Key::Backspace);
    assert_eq!(s.input, vec!['1', '3']);
    press(&mut s, Key::Esc);
    assert!(s.mode == AppMode::Idle);
    assert!(s.input.is_empty());
    assert_eq!(s.head, 0);
    assert_eq!(s.status.damage, 0);
}

#[test]
fn backspace_undoes_a_typed_character() {
    let mut s = state();
    press(&mut s, Key::Char('h'));
    type_text(&mut s, "45");
    press(&mut s, Key::Left);
    let before = (s.input.clone(), s.head);
    type_text(&mut s, "9");
    press(&mut s, Key::Backspace);
    assert_eq!((s.input.clone(), s.head), before);
}

#[test]
fn tabs_with_spells() {
    let mut s = state();
    s.character.spells.push(Spell { name: "bless".to_string(), level: 1, description: String::new() });
    press(&mut s, Key::Right);
    assert!(s.active_tab == Tab::Spells);
    press(&mut s, Key::Right);
    assert!(s.active_tab == Tab::Notes);
    press(&mut s, Key::Right);
    assert!(s.active_tab == Tab::Items);
    press(&mut s, Key::Left);
    assert!(s.active_tab == Tab::Notes);
    press(&mut s, Key::Left);
    assert!(s.active_tab == Tab::Spells);
}

#[test]
fn tabs_without_spells() {
    let mut s = state();
    press(&mut s, Key::Right);
    assert!(s.active_tab == Tab::Notes);
    press(&mut s, Key::Right);
    assert!(s.active_tab == Tab::Items);
    press(&mut s, Key::Left);
    assert!(s.active_tab == Tab::Notes);
    press(&mut s, Key::Left);
    assert!(s.active_tab == Tab::Items);
}

#[test]
fn scrolling_follows_the_tab() {
    let mut s = state();
    assert!(press(&mut s, Key::Up) == Action::ItemsPrevious);
    assert!(press(&mut s, Key::Down) == Action::ItemsNext);
    s.active_tab = Tab::Spells;
    assert!(press(&mut s, Key::Up) == Action::SpellsPrevious);
    assert!(press(&mut s, Key::Down) == Action::SpellsNext);
    s.active_tab = Tab::Notes;
    assert!(press(&mut s, Key::Up) == Action::NotesBackward);
    assert!(press(&mut s, Key::Down) == Action::NotesForward);
}

#[test]
fn help_page() {
    let mut s = state();
    press(&mut s, Key::Char('?'));
    press(&mut s, Key::Char('q'));
    assert!(s.mode == AppMode::Help);
    press(&mut s, Key::Esc);
    assert!(s.mode == AppMode::Idle);
}

#[test]
fn choosing_a_file_to_edit() {
    let mut s = state();
    press(&mut s, Key::Char('e'));
    assert!(press(&mut s, Key::Down) == Action::EditListNext);
    assert!(press(&mut s, Key::Up) == Action::EditListPrevious);
    assert!(press(&mut s, Key::Esc) == Action::EditListReset);
    assert!(s.mode == AppMode::Idle);
    press(&mut s, Key::Char('e'));
    assert!(press(&mut s, Key::Enter) == Action::Nothing);
    assert!(s.mode == AppMode::Editing);
    assert!(press(&mut s, Key::Char('q')) == Action::Nothing);
    assert!(s.mode == AppMode::Editing);
    s.finish_editing();
    assert!(s.mode == AppMode::Idle);
    assert!(edit_target(None).is_none());
    assert!(edit_target(Some(0)) == Some(EditTarget::Character));
    assert!(edit_target(Some(1)) == Some(EditTarget::Status));
    assert!(edit_target(Some(2)) == Some(EditTarget::Notes));
}

#[test]
fn errors_are_shown_once() {
    let mut s = state();
    s.set_err(AppError::from("boom".to_string()));
    assert!(s.mode == AppMode::Error);
    assert_eq!(s.take_error_message(), "Encountered error: boom");
    assert_eq!(s.take_error_message(), "something wrong happened");
}

#[test]
fn changes_stay_marked() {
    let mut s = state();
    press(&mut s, Key::Char('r'));
    assert!(s.state_updated);
    press(&mut s, Key::Char('h'));
    type_text(&mut s, "x");
    press(&mut s, Key::Enter);
    assert!(s.mode == AppMode::Error);
    assert!(s.state_updated);
}

#[test]
fn the_cursor_counts_bytes() {
    let mut s = state();
    press(&mut s, Key::Char('h'));
    press(&mut s, Key::Char('é'));
    assert_eq!(s.head, 1);
    assert!(!s.can_handle(Key::Char('1')));
    press(&mut s, Key::Right);
    assert_eq!(s.head, 2);
    press(&mut s, Key::Right);
    assert_eq!(s.head, 2);
    press(&mut s, Key::Char('1'));
    assert_eq!(s.input, vec!['é', '1']);
    assert_eq!(s.head, 3);
    press(&mut s, Key::Backspace);
    assert_eq!(s.input, vec!['é']);
    assert_eq!(s.head, 2);
    assert!(!s.can_handle(Key::Backspace));
    press(&mut s, Key::Left);
    press(&mut s, Key::Left);
    assert_eq!(s.head, 0);
    press(&mut s, Key::Char('7'));
    assert_eq!(s.input, vec!['7', 'é']);
}

#[test]
fn backspace_removes_a_wide_character() {
    let mut s = state();
    press(&mut s, Key::Char('d'));
    press(&mut s, Key::Char('€'));
    assert_eq!(s.head, 1);
    press(&mut s, Key::Backspace);
    assert!(s.input.is_empty());
    assert_eq!(s.head, 0);
}

#[test]
fn other_errors_show_their_own_text() {
    let mut s = state();
    press(&mut s, Key::Char('d'));
    type_text(&mut s, "abc");
    press(&mut s, Key::Enter);
    let expected = "abc".parse::<u8>().unwrap_err().to_string();
    assert_eq!(s.take_error_message(), expected);

    let io = std::io::Error::new(std::io::ErrorKind::NotFound, "notes.txt is missing");
    s.set_err(AppError::from(io));
    assert_eq!(s.take_error_message(), "notes.txt is missing");

    let yaml = serde_yaml::from_str::<u8>("[").unwrap_err();
    let yaml_text = yaml.to_string();
    assert_eq!(AppError::from(yaml).message(), yaml_text);
}
