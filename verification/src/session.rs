use vstd::prelude::*;

use crate::error::{is_message_of, AppError};
use crate::text::{
    boundary_index, boundary_index_at, char_width, char_width_of, is_boundary, is_boundary_at,
    lemma_boundary_unique, lemma_insert_width, lemma_remove_width, parse_u8, parse_usize,
    string_from_chars, text_width, text_width_of, unsigned_decimal,
};
use crate::types::{absorbed, damage_after, healed, Character, Status};
use crate::view::tab_position;

verus! {

/// What a number typed at the prompt is for.
#[derive(Clone, Copy, PartialEq, Eq, Structural)]
pub enum InputType {
    Damage,
    Heal,
    Cast,
}

/// The tabs on the right-hand side of the sheet.
#[derive(Clone, Copy, PartialEq, Eq, Structural)]
pub enum Tab {
    Items,
    Spells,
    Notes,
}

/// What the session is doing, and so what a key press means.
#[derive(Clone, Copy, PartialEq, Eq, Structural)]
pub enum AppMode {
    Idle,
    Help,
    Input(InputType),
    EditSelection,
    Editing,
    Error,
    Exiting,
}

/// A key press, as far as the session tells keys apart.
#[derive(Clone, Copy, PartialEq, Eq, Structural)]
pub enum Key {
    Char(char),
    Up,
    Down,
    Left,
    Right,
    Enter,
    Esc,
    Backspace,
    Other,
}

/// Work on the widgets that a key press asks of the terminal front end.
#[derive(Clone, Copy, PartialEq, Eq, Structural)]
pub enum Action {
    Nothing,
    ItemsPrevious,
    ItemsNext,
    SpellsPrevious,
    SpellsNext,
    NotesBackward,
    NotesForward,
    EditListPrevious,
    EditListNext,
    EditListReset,
}

/// The file that the player chose to edit.
#[derive(Clone, Copy, PartialEq, Eq, Structural)]
pub enum EditTarget {
    Character,
    Status,
    Notes,
}

/// The tab to the right of `tab`; the spells tab is skipped when the
/// character knows no spells, and the last tab wraps round to the first.
pub open spec fn tab_right(tab: Tab, has_spells: bool) -> Tab {
    match tab {
        Tab::Items => if has_spells {
            Tab::Spells
        } else {
            Tab::Notes
        },
        Tab::Spells => Tab::Notes,
        Tab::Notes => Tab::Items,
    }
}

/// The tab to the left of `tab`; the spells tab is skipped when the
/// character knows no spells, and the first tab wraps round to the last.
pub open spec fn tab_left(tab: Tab, has_spells: bool) -> Tab {
    match tab {
        Tab::Items => Tab::Notes,
        Tab::Spells => Tab::Items,
        Tab::Notes => if has_spells {
            Tab::Spells
        } else {
            Tab::Items
        },
    }
}

/// The widget work that Up (`down == false`) or Down asks for on a tab.
pub open spec fn scroll_action(tab: Tab, down: bool) -> Action {
    match tab {
        Tab::Items => if down {
            Action::ItemsNext
        } else {
            Action::ItemsPrevious
        },
        Tab::Spells => if down {
            Action::SpellsNext
        } else {
            Action::SpellsPrevious
        },
        Tab::Notes => if down {
            Action::NotesForward
        } else {
            Action::NotesBackward
        },
    }
}

/// The number typed at the prompt, if it is one that the prompt's type can hold.
pub open spec fn typed_number(t: InputType, input: Seq<char>) -> Option<nat> {
    match unsigned_decimal(input) {
        Some(v) => if (t == InputType::Cast && v <= usize::MAX) || (t != InputType::Cast && v
            <= u8::MAX) {
            Some(v)
        } else {
            None
        },
        None => None,
    }
}

pub open spec fn slot_range_message() -> Seq<char> {
    "spell slots must be > 0 and < 9"@
}

pub open spec fn no_slots_message() -> Seq<char> {
    "not enough slots available"@
}

pub open spec fn no_rages_message() -> Seq<char> {
    "You ran out of rages"@
}

/// The rule, if any, that submitting the number `v` breaks, as the message
/// the player sees: a spell slot level must lie in 1..=9 and a slot of that
/// level must be left.
pub open spec fn broken_rule(t: InputType, v: nat, c: Character, s: Status) -> Option<Seq<char>> {
    if t == InputType::Cast {
        if v == 0 || v > 9 {
            Some(slot_range_message())
        } else if s.used_slots@[v - 1] >= c.spell_slots@[v - 1] {
            Some(no_slots_message())
        } else {
            None
        }
    } else {
        None
    }
}

/// `after` is the status once the number `v` has been applied to `before`:
/// damage taken (capped at the character's maximum hit points), damage
/// healed, or one spell slot of level `v` used.
pub open spec fn applied(t: InputType, v: nat, c: Character, before: Status, after: Status) -> bool {
    match t {
        InputType::Damage => {
            &&& after.temp_hp == before.temp_hp - absorbed(before.temp_hp, v as u8)
            &&& after.damage == damage_after(before.damage, before.temp_hp, v as u8, c.max_hp)
            &&& after.same_but_hit_points(before)
        },
        InputType::Heal => {
            &&& after.damage == healed(before.damage, v as u8)
            &&& after.temp_hp == before.temp_hp
            &&& after.same_but_hit_points(before)
        },
        InputType::Cast => {
            &&& after.used_slots@ == before.used_slots@.update(
                v - 1,
                (before.used_slots@[v - 1] + 1) as u8,
            )
            &&& after.same_but_slots(before)
        },
    }
}

/// The state of one play session: the sheet being played and what the
/// player is doing with it.
pub struct AppState {
    pub mode: AppMode,
    /// The text typed at the prompt, one character per entry.
    pub input: Vec<char>,
    /// The cursor position in `input`, counted in bytes of its UTF-8 text:
    /// one step per key press, whatever the width of the character.
    pub head: usize,
    pub character: Character,
    pub status: Status,
    pub active_tab: Tab,
    /// Set once the status has changed, so that it is saved.
    pub state_updated: bool,
    pub err: Option<AppError>,
}

impl AppState {
    /// The cursor stands within the typed text, whose UTF-8 length fits in a `usize`.
    pub open spec fn wf(self) -> bool {
        &&& self.head <= text_width(self.input@)
        &&& text_width(self.input@) <= usize::MAX
    }

    pub open spec fn has_spells(self) -> bool {
        self.character.spells@.len() > 0
    }

    /// Everything but the mode, the prompt text and the cursor is as in `other`.
    pub open spec fn same_sheet(self, other: AppState) -> bool {
        &&& self.character == other.character
        &&& self.status == other.status
        &&& self.active_tab == other.active_tab
        &&& self.state_updated == other.state_updated
        &&& self.err == other.err
    }

    /// Only the mode differs from `other`.
    pub open spec fn same_but_mode(self, other: AppState) -> bool {
        &&& self.same_sheet(other)
        &&& self.input == other.input
        &&& self.head == other.head
    }

    /// `self` is `other` with the mode set to `mode`.
    pub open spec fn moved_to(self, other: AppState, mode: AppMode) -> bool {
        self.mode == mode && self.same_but_mode(other)
    }

    /// `self` is `other` after a broken rule with the message `m` was
    /// reported: the error is kept for display and the session shows it.
    pub open spec fn reported(self, other: AppState, m: Seq<char>) -> bool {
        &&& self.mode == AppMode::Error
        &&& self.err matches Some(AppError::Error(msg)) && msg@ == m
        &&& self.character == other.character
        &&& self.status == other.status
        &&& self.active_tab == other.active_tab
        &&& self.state_updated == other.state_updated
        &&& self.input == other.input
        &&& self.head == other.head
    }

    /// The session with nothing typed, on the items tab, doing nothing yet.
    pub fn new(character: Character, status: Status) -> (r: AppState)
        ensures
            r.mode == AppMode::Idle,
            r.input@.len() == 0,
            r.head == 0,
            r.character == character,
            r.status == status,
            r.active_tab == Tab::Items,
            !r.state_updated,
            r.err is None,
            r.wf(),
    {
        AppState {
            mode: AppMode::Idle,
            input: Vec::new(),
            head: 0,
            character,
            status,
            active_tab: Tab::Items,
            state_updated: false,
            err: None,
        }
    }

    /// Keeps an error for display and shows it.
    pub fn set_err(&mut self, err: AppError)
        ensures
            final(self).err == Some(err),
            final(self).mode == AppMode::Error,
            final(self).character == old(self).character,
            final(self).status == old(self).status,
            final(self).active_tab == old(self).active_tab,
            final(self).state_updated == old(self).state_updated,
            final(self).input == old(self).input,
            final(self).head == old(self).head,
    {
        self.err = Some(err);
        self.mode = AppMode::Error;
    }
}


/// `new` (with the widget work `act`) is `old` after a key press in the idle
/// mode: letters pick what to do next, Up and Down scroll the open tab, Left
/// and Right switch tabs, and `r` uses a rage if one is left.
pub open spec fn idle_effect(old: AppState, new: AppState, key: Key, act: Action) -> bool {
    match key {
        Key::Char(c) => act == Action::Nothing && if c == 'q' {
            new.moved_to(old, AppMode::Exiting)
        } else if c == 'd' {
            new.moved_to(old, AppMode::Input(InputType::Damage))
        } else if c == 'h' {
            new.moved_to(old, AppMode::Input(InputType::Heal))
        } else if c == 'c' {
            new.moved_to(old, AppMode::Input(InputType::Cast))
        } else if c == 'e' {
            new.moved_to(old, AppMode::EditSelection)
        } else if c == '?' {
            new.moved_to(old, AppMode::Help)
        } else if c == 'r' {
            if old.status.used_rages == old.character.rages {
                new.reported(old, no_rages_message())
            } else {
                &&& new.status.used_rages == old.status.used_rages + 1
                &&& new.status.same_but_rages(old.status)
                &&& new.state_updated
                &&& new.kept_but_status(old)
            }
        } else {
            new == old
        },
        Key::Up => act == scroll_action(old.active_tab, false) && new == old,
        Key::Down => act == scroll_action(old.active_tab, true) && new == old,
        Key::Right => {
            &&& act == Action::Nothing
            &&& new.active_tab == tab_right(old.active_tab, old.has_spells())
            &&& new.same_but_tab(old)
        },
        Key::Left => {
            &&& act == Action::Nothing
            &&& new.active_tab == tab_left(old.active_tab, old.has_spells())
            &&& new.same_but_tab(old)
        },
        _ => act == Action::Nothing && new == old,
    }
}

/// `new` is `old` once the text at the prompt for `t` was submitted: the
/// prompt is cleared, and either the number is applied to the status and
/// the session goes back to idle, or the error is kept and shown.
pub open spec fn submit_effect(old: AppState, new: AppState, t: InputType) -> bool {
    &&& new.input@.len() == 0
    &&& new.head == 0
    &&& new.character == old.character
    &&& new.active_tab == old.active_tab
    &&& match typed_number(t, old.input@) {
        None => {
            &&& new.mode == AppMode::Error
            &&& new.err matches Some(AppError::InvalidInt(_))
            &&& new.status == old.status
            &&& new.state_updated == old.state_updated
        },
        Some(v) => match broken_rule(t, v, old.character, old.status) {
            Some(m) => {
                &&& new.mode == AppMode::Error
                &&& new.err matches Some(AppError::Error(msg)) && msg@ == m
                &&& new.status == old.status
                &&& new.state_updated == old.state_updated
            },
            None => {
                &&& new.mode == AppMode::Idle
                &&& new.err == old.err
                &&& applied(t, v, old.character, old.status, new.status)
                &&& new.state_updated
            },
        },
    }
}

/// `new` is `old` after a key press at the prompt for `t`: a character is
/// inserted at the cursor's byte offset and the cursor moves one byte on,
/// Backspace deletes the character that starts one byte before the cursor,
/// Left and Right move it by one byte within the text, Esc abandons the
/// prompt and Enter submits it.
pub open spec fn input_effect(old: AppState, new: AppState, t: InputType, key: Key) -> bool {
    match key {
        Key::Esc => {
            &&& new.mode == AppMode::Idle
            &&& new.input@.len() == 0
            &&& new.head == 0
            &&& new.same_sheet(old)
        },
        Key::Char(c) => {
            &&& new.mode == old.mode
            &&& new.input@ == old.input@.insert(boundary_index(old.input@, old.head as int), c)
            &&& new.head == old.head + 1
            &&& new.same_sheet(old)
        },
        Key::Enter => submit_effect(old, new, t),
        Key::Backspace => if old.head > 0 {
            &&& new.mode == old.mode
            &&& new.input@ == old.input@.remove(boundary_index(old.input@, old.head - 1))
            &&& new.head == old.head - 1
            &&& new.same_sheet(old)
        } else {
            new == old
        },
        Key::Left => if old.head > 0 {
            &&& new.mode == old.mode
            &&& new.input == old.input
            &&& new.head == old.head - 1
            &&& new.same_sheet(old)
        } else {
            new == old
        },
        Key::Right => if old.head < text_width(old.input@) {
            &&& new.mode == old.mode
            &&& new.input == old.input
            &&& new.head == old.head + 1
            &&& new.same_sheet(old)
        } else {
            new == old
        },
        _ => new == old,
    }
}

/// `new` (with the widget work `act`) is `old` after a key press while the
/// player picks a file to edit.
pub open spec fn edit_select_effect(old: AppState, new: AppState, key: Key, act: Action) -> bool {
    match key {
        Key::Up => act == Action::EditListPrevious && new == old,
        Key::Down => act == Action::EditListNext && new == old,
        Key::Esc => act == Action::EditListReset && new.moved_to(old, AppMode::Idle),
        Key::Enter => act == Action::Nothing && new.moved_to(old, AppMode::Editing),
        _ => act == Action::Nothing && new == old,
    }
}

/// `new` (with the widget work `act`) is `old` after a key press.
pub open spec fn key_effect(old: AppState, new: AppState, key: Key, act: Action) -> bool {
    match old.mode {
        AppMode::Idle => idle_effect(old, new, key, act),
        AppMode::Help => act == Action::Nothing && if key == Key::Esc {
            new.moved_to(old, AppMode::Idle)
        } else {
            new == old
        },
        AppMode::Input(t) => act == Action::Nothing && input_effect(old, new, t, key),
        AppMode::EditSelection => edit_select_effect(old, new, key, act),
        _ => act == Action::Nothing && new == old,
    }
}

impl AppState {
    /// Only the active tab differs from `other`.
    pub open spec fn same_but_tab(self, other: AppState) -> bool {
        &&& self.mode == other.mode
        &&& self.input == other.input
        &&& self.head == other.head
        &&& self.character == other.character
        &&& self.status == other.status
        &&& self.state_updated == other.state_updated
        &&& self.err == other.err
    }

    /// Only the status and whether it changed differ from `other`.
    pub open spec fn kept_but_status(self, other: AppState) -> bool {
        &&& self.mode == other.mode
        &&& self.input == other.input
        &&& self.head == other.head
        &&& self.character == other.character
        &&& self.active_tab == other.active_tab
        &&& self.err == other.err
    }

    /// Casting a spell of the typed level needs no more used slots of that
    /// level than the character has.
    pub open spec fn submit_in_range(self, t: InputType) -> bool {
        t == InputType::Cast ==> match typed_number(t, self.input@) {
            Some(v) => 1 <= v <= 9 ==> self.status.used_slots@[v - 1]
                <= self.character.spell_slots@[v - 1],
            None => true,
        }
    }

    /// The key press can be handled: using a rage needs fewer than 255 used
    /// rages, casting needs a slot count that is not already exceeded, and a
    /// character can only be inserted, or deleted, where a character of the
    /// typed text starts or ends (the prompt's text grows to no more bytes
    /// than a `usize` counts).
    pub open spec fn key_in_range(self, key: Key) -> bool {
        match self.mode {
            AppMode::Idle => key == Key::Char('r') && self.status.used_rages
                != self.character.rages ==> self.status.used_rages < 255,
            AppMode::Input(t) => match key {
                Key::Enter => self.submit_in_range(t),
                Key::Char(c) => {
                    &&& is_boundary(self.input@, self.head as int)
                    &&& text_width(self.input@) + char_width(c) <= usize::MAX
                },
                Key::Backspace => self.head > 0 ==> is_boundary(self.input@, self.head - 1),
                _ => true,
            },
            _ => true,
        }
    }

    /// Applies the number typed at the prompt for `t` to the status.
    fn submit_input(&mut self, t: InputType) -> (r: Result<(), AppError>)
        requires
            old(self).submit_in_range(t),
        ensures
            final(self).mode == old(self).mode,
            final(self).input == old(self).input,
            final(self).head == old(self).head,
            final(self).character == old(self).character,
            final(self).active_tab == old(self).active_tab,
            final(self).err == old(self).err,
            match typed_number(t, old(self).input@) {
                None => {
                    &&& r matches Err(AppError::InvalidInt(_))
                    &&& final(self).status == old(self).status
                    &&& final(self).state_updated == old(self).state_updated
                },
                Some(v) => match broken_rule(t, v, old(self).character, old(self).status) {
                    Some(m) => {
                        &&& r matches Err(AppError::Error(msg)) && msg@ == m
                        &&& final(self).status == old(self).status
                        &&& final(self).state_updated == old(self).state_updated
                    },
                    None => {
                        &&& r is Ok
                        &&& applied(t, v, old(self).character, old(self).status, final(self).status)
                        &&& final(self).state_updated
                    },
                },
            },
    {
        let text = string_from_chars(&self.input);
        match t {
            InputType::Damage => match parse_u8(text.as_str()) {
                Ok(v) => {
                    let max = self.character.max_hp;
                    self.status.damage(v, max);
                    self.state_updated = true;
                    Ok(())
                },
                Err(e) => Err(AppError::InvalidInt(e)),
            },
            InputType::Heal => match parse_u8(text.as_str()) {
                Ok(v) => {
                    self.status.heal(v);
                    self.state_updated = true;
                    Ok(())
                },
                Err(e) => Err(AppError::InvalidInt(e)),
            },
            InputType::Cast => match parse_usize(text.as_str()) {
                Ok(slot) => {
                    if slot == 0 || slot > 9 {
                        return Err(AppError::Error(String::from_str("spell slots must be > 0 and < 9")));
                    }
                    let available: u8 = self.character.spell_slots[slot - 1]
                        - self.status.used_slots[slot - 1];
                    if available > 0 {
                        self.status.cast(slot);
                        self.state_updated = true;
                        Ok(())
                    } else {
                        Err(AppError::Error(String::from_str("not enough slots available")))
                    }
                },
                Err(e) => Err(AppError::InvalidInt(e)),
            },
        }
    }
}


impl AppState {
    fn handle_idle_key(&mut self, key: Key) -> (r: Action)
        requires
            old(self).mode == AppMode::Idle,
            old(self).key_in_range(key),
        ensures
            idle_effect(*old(self), *final(self), key, r),
    {
        match key {
            Key::Char(c) => {
                if c == 'q' {
                    self.mode = AppMode::Exiting;
                } else if c == 'd' {
                    self.mode = AppMode::Input(InputType::Damage);
                } else if c == 'h' {
                    self.mode = AppMode::Input(InputType::Heal);
                } else if c == 'c' {
                    self.mode = AppMode::Input(InputType::Cast);
                } else if c == 'e' {
                    self.mode = AppMode::EditSelection;
                } else if c == '?' {
                    self.mode = AppMode::Help;
                } else if c == 'r' {
                    if self.status.used_rages == self.character.rages {
                        self.set_err(AppError::Error(String::from_str("You ran out of rages")));
                    } else {
                        self.status.rage();
                        self.state_updated = true;
                    }
                }
                Action::Nothing
            },
            Key::Up => match self.active_tab {
                Tab::Items => Action::ItemsPrevious,
                Tab::Spells => Action::SpellsPrevious,
                Tab::Notes => Action::NotesBackward,
            },
            Key::Down => match self.active_tab {
                Tab::Items => Action::ItemsNext,
                Tab::Spells => Action::SpellsNext,
                Tab::Notes => Action::NotesForward,
            },
            Key::Right => {
                self.active_tab = match self.active_tab {
                    Tab::Items => if self.character.spells.len() > 0 {
                        Tab::Spells
                    } else {
                        Tab::Notes
                    },
                    Tab::Spells => Tab::Notes,
                    Tab::Notes => Tab::Items,
                };
                Action::Nothing
            },
            Key::Left => {
                self.active_tab = match self.active_tab {
                    Tab::Items => Tab::Notes,
                    Tab::Spells => Tab::Items,
                    Tab::Notes => if self.character.spells.len() > 0 {
                        Tab::Spells
                    } else {
                        Tab::Items
                    },
                };
                Action::Nothing
            },
            _ => Action::Nothing,
        }
    }

    fn handle_input_key(&mut self, t: InputType, key: Key)
        requires
            old(self).mode == AppMode::Input(t),
            old(self).wf(),
            old(self).key_in_range(key),
        ensures
            final(self).wf(),
            input_effect(*old(self), *final(self), t, key),
    {
        match key {
            Key::Esc => {
                self.mode = AppMode::Idle;
                self.input = Vec::new();
                self.head = 0;
            },
            Key::Char(c) => {
                let k = boundary_index_at(&self.input, self.head);
                proof {
                    lemma_insert_width(self.input@, k as int, c);
                }
                self.input.insert(k, c);
                self.head = self.head + 1;
            },
            Key::Enter => {
                match self.submit_input(t) {
                    Err(err) => self.set_err(err),
                    Ok(()) => self.mode = AppMode::Idle,
                }
                self.input = Vec::new();
                self.head = 0;
            },
            Key::Backspace => {
                if self.head > 0 {
                    let j = boundary_index_at(&self.input, self.head - 1);
                    proof {
                        if j == self.input@.len() {
                            crate::text::lemma_prefix_width_whole(self.input@, j as int);
                        }
                        lemma_remove_width(self.input@, j as int);
                        crate::text::lemma_prefix_width_step(self.input@, j as int);
                        crate::text::lemma_prefix_width_whole(self.input@, j + 1);
                    }
                    self.input.remove(j);
                    self.head = self.head - 1;
                }
            },
            Key::Left => {
                if self.head > 0 {
                    self.head = self.head - 1;
                }
            },
            Key::Right => {
                if self.head < text_width_of(&self.input) {
                    self.head = self.head + 1;
                }
            },
            _ => {},
        }
    }

    fn handle_edit_select_key(&mut self, key: Key) -> (r: Action)
        requires
            old(self).mode == AppMode::EditSelection,
        ensures
            edit_select_effect(*old(self), *final(self), key, r),
    {
        match key {
            Key::Up => Action::EditListPrevious,
            Key::Down => Action::EditListNext,
            Key::Esc => {
                self.mode = AppMode::Idle;
                Action::EditListReset
            },
            Key::Enter => {
                self.mode = AppMode::Editing;
                Action::Nothing
            },
            _ => Action::Nothing,
        }
    }

    /// Handles one key press in the current mode and says what the widgets
    /// must do about it.
    pub fn handle_key(&mut self, key: Key) -> (r: Action)
        requires
            old(self).wf(),
            old(self).key_in_range(key),
        ensures
            final(self).wf(),
            key_effect(*old(self), *final(self), key, r),
    {
        match self.mode {
            AppMode::Idle => self.handle_idle_key(key),
            AppMode::Help => {
                if key == Key::Esc {
                    self.mode = AppMode::Idle;
                }
                Action::Nothing
            },
            AppMode::Input(t) => {
                self.handle_input_key(t, key);
                Action::Nothing
            },
            AppMode::EditSelection => self.handle_edit_select_key(key),
            _ => Action::Nothing,
        }
    }

    /// Whether `handle_key` can take this key press; unverified callers
    /// test it before each call.
    pub fn can_handle(&self, key: Key) -> (r: bool)
        requires
            self.wf(),
        ensures
            r == self.key_in_range(key),
    {
        match self.mode {
            AppMode::Idle => {
                key != Key::Char('r') || self.status.used_rages == self.character.rages
                    || self.status.used_rages < 255
            },
            AppMode::Input(t) => match key {
                Key::Enter => {
                    if t == InputType::Cast {
                        let text = string_from_chars(&self.input);
                        match parse_usize(text.as_str()) {
                            Ok(slot) => slot == 0 || slot > 9 || self.status.used_slots[slot - 1]
                                <= self.character.spell_slots[slot - 1],
                            Err(_) => true,
                        }
                    } else {
                        true
                    }
                },
                Key::Char(c) => {
                    is_boundary_at(&self.input, self.head) && text_width_of(&self.input)
                        <= usize::MAX - char_width_of(c)
                },
                Key::Backspace => self.head == 0 || is_boundary_at(&self.input, self.head - 1),
                _ => true,
            },
            _ => true,
        }
    }

    /// Leaves the error display once any key was pressed.
    pub fn acknowledge_error(&mut self)
        ensures
            final(self).moved_to(*old(self), AppMode::Idle),
    {
        self.mode = AppMode::Idle;
    }

    /// Goes back to idle once the editor has closed without error.
    pub fn finish_editing(&mut self)
        ensures
            final(self).moved_to(*old(self), AppMode::Idle),
    {
        self.mode = AppMode::Idle;
    }

    /// Whether the session has ended.
    pub fn is_exiting(&self) -> (r: bool)
        ensures
            r == (self.mode == AppMode::Exiting),
    {
        self.mode == AppMode::Exiting
    }

    /// The message of the kept error, which is dropped once shown; a
    /// placeholder message when there is none.
    pub fn take_error_message(&mut self) -> (r: String)
        ensures
            final(self).err is None,
            final(self).mode == old(self).mode,
            final(self).input == old(self).input,
            final(self).head == old(self).head,
            final(self).character == old(self).character,
            final(self).status == old(self).status,
            final(self).active_tab == old(self).active_tab,
            final(self).state_updated == old(self).state_updated,
            old(self).err is None ==> r@ == "something wrong happened"@,
            old(self).err matches Some(e) ==> is_message_of(e, r),
    {
        let err = self.err.take();
        match err {
            Some(e) => e.message(),
            None => String::from_str("something wrong happened"),
        }
    }
}

/// The file to open for editing, by its position in the list offered to the
/// player: the character, the status, then the notes. Nothing is opened when
/// nothing is selected.
pub fn edit_target(selected: Option<usize>) -> (r: Option<EditTarget>)
    requires
        selected matches Some(i) ==> i <= 2,
    ensures
        r == match selected {
            None => None,
            Some(i) => Some(
                if i == 0 {
                    EditTarget::Character
                } else if i == 1 {
                    EditTarget::Status
                } else {
                    EditTarget::Notes
                },
            ),
        },
{
    match selected {
        None => None,
        Some(0) => Some(EditTarget::Character),
        Some(1) => Some(EditTarget::Status),
        Some(_) => Some(EditTarget::Notes),
    }
}


/// Moving one tab to the left undoes moving one to the right, and the other
/// way round, for every tab that can be open: the spells tab only when the
/// character knows spells.
pub proof fn lemma_tab_moves_undo(tab: Tab, has_spells: bool)
    requires
        has_spells || tab != Tab::Spells,
    ensures
        tab_left(tab_right(tab, has_spells), has_spells) == tab,
        tab_right(tab_left(tab, has_spells), has_spells) == tab,
{
}

/// Moving right through every tab comes back to the first: three moves with
/// the spells tab, two without it.
pub proof fn lemma_tab_cycle(tab: Tab, has_spells: bool)
    requires
        has_spells || tab != Tab::Spells,
    ensures
        has_spells ==> tab_right(tab_right(tab_right(tab, true), true), true) == tab,
        !has_spells ==> tab_right(tab_right(tab, false), false) == tab,
{
}

/// Backspace undoes typing a character at the prompt, whatever its width:
/// the text, the cursor, the mode and the sheet are as before it was typed.
pub proof fn lemma_backspace_undoes_typing(
    old: AppState,
    mid: AppState,
    new: AppState,
    c: char,
    a1: Action,
    a2: Action,
)
    requires
        old.mode is Input,
        old.wf(),
        old.key_in_range(Key::Char(c)),
        key_effect(old, mid, Key::Char(c), a1),
        key_effect(mid, new, Key::Backspace, a2),
    ensures
        new.input@ == old.input@,
        new.head == old.head,
        new.mode == old.mode,
        new.same_sheet(old),
{
    let s = old.input@;
    let k = boundary_index(s, old.head as int);
    lemma_insert_width(s, k, c);
    lemma_boundary_unique(mid.input@, old.head as int, k);
    assert(s.insert(k, c).remove(k) =~= s);
}

/// Esc always leads back to the idle mode from the help page, the prompt
/// and the choice of a file to edit.
pub proof fn lemma_esc_returns_to_idle(old: AppState, new: AppState, a: Action)
    requires
        old.mode == AppMode::Help || old.mode is Input || old.mode == AppMode::EditSelection,
        key_effect(old, new, Key::Esc, a),
    ensures
        new.mode == AppMode::Idle,
{
}

/// Once the status has changed it stays marked for saving: no key press
/// clears the mark.
pub proof fn lemma_changes_stay_marked(old: AppState, new: AppState, key: Key, a: Action)
    requires
        key_effect(old, new, key, a),
        old.state_updated,
    ensures
        new.state_updated,
{
}

/// Play never uses more rages than the character has: a key press keeps the
/// used rages within the character's rages.
pub proof fn lemma_rages_within_limit(old: AppState, new: AppState, key: Key, a: Action)
    requires
        key_effect(old, new, key, a),
        old.status.used_rages <= old.character.rages,
    ensures
        new.status.used_rages <= new.character.rages,
{
}

/// Play never uses more spell slots of a level than the character has: a
/// key press keeps every level's used slots within its slots.
pub proof fn lemma_slots_within_limit(old: AppState, new: AppState, key: Key, a: Action)
    requires
        key_effect(old, new, key, a),
        forall|i: int| 0 <= i < 9 ==> old.status.used_slots@[i] <= old.character.spell_slots@[i],
    ensures
        forall|i: int| 0 <= i < 9 ==> new.status.used_slots@[i] <= new.character.spell_slots@[i],
{
}

/// The damage typed at the prompt never takes the character past the
/// maximum hit points.
pub proof fn lemma_damage_within_max_hp(old: AppState, new: AppState, key: Key, a: Action)
    requires
        key_effect(old, new, key, a),
        old.status.damage <= old.character.max_hp,
    ensures
        new.status.damage <= new.character.max_hp,
{
}


/// Casting at the prompt: Enter on a spell level `v` from 1 to 9 uses one
/// slot of that level, and only that one, exactly when the character has a
/// slot of that level left; otherwise it is refused with "not enough slots
/// available" and the status is left alone.
pub proof fn lemma_cast_uses_a_slot_when_one_is_left(
    old: AppState,
    new: AppState,
    a: Action,
    v: nat,
)
    requires
        old.mode == AppMode::Input(InputType::Cast),
        unsigned_decimal(old.input@) == Some(v),
        1 <= v <= 9,
        key_effect(old, new, Key::Enter, a),
    ensures
        old.status.used_slots@[v - 1] < old.character.spell_slots@[v - 1] ==> {
            &&& new.mode == AppMode::Idle
            &&& new.status.used_slots@[v - 1] == old.status.used_slots@[v - 1] + 1
            &&& forall|i: int|
                0 <= i < 9 && i != v - 1 ==> new.status.used_slots@[i]
                    == old.status.used_slots@[i]
            &&& new.status.damage == old.status.damage
            &&& new.status.used_rages == old.status.used_rages
            &&& new.state_updated
        },
        old.status.used_slots@[v - 1] >= old.character.spell_slots@[v - 1] ==> {
            &&& new.mode == AppMode::Error
            &&& new.err matches Some(AppError::Error(m)) && m@ == "not enough slots available"@
            &&& new.status == old.status
        },
{
}

/// Taking damage at the prompt: a hit of `v` is first absorbed by the
/// temporary hit points. A hit they cover only lowers them by `v`; a larger
/// hit uses them all up and adds the rest, `v - temp_hp`, to the damage
/// taken, which never goes past 255 nor past the maximum hit points.
pub proof fn lemma_damage_at_prompt(old: AppState, new: AppState, a: Action, v: nat)
    requires
        old.mode == AppMode::Input(InputType::Damage),
        unsigned_decimal(old.input@) == Some(v),
        v <= 255,
        key_effect(old, new, Key::Enter, a),
    ensures
        new.mode == AppMode::Idle,
        new.state_updated,
        v <= old.status.temp_hp ==> {
            &&& new.status.temp_hp == old.status.temp_hp - v
            &&& new.status.damage == (if old.status.damage <= old.character.max_hp {
                old.status.damage as int
            } else {
                old.character.max_hp as int
            })
        },
        v > old.status.temp_hp ==> {
            let raised = old.status.damage + (v - old.status.temp_hp);
            let capped = if raised > 255 { 255 } else { raised };
            &&& new.status.temp_hp == 0
            &&& new.status.damage == (if capped <= old.character.max_hp {
                capped
            } else {
                old.character.max_hp as int
            })
        },
{
}

/// Healing at the prompt: Enter on an amount `v` takes `v` off the damage
/// taken, and a heal of at least the damage taken leaves no damage at all.
pub proof fn lemma_heal_at_prompt(old: AppState, new: AppState, a: Action, v: nat)
    requires
        old.mode == AppMode::Input(InputType::Heal),
        unsigned_decimal(old.input@) == Some(v),
        v <= 255,
        key_effect(old, new, Key::Enter, a),
    ensures
        new.mode == AppMode::Idle,
        new.state_updated,
        v >= old.status.damage ==> new.status.damage == 0,
        v < old.status.damage ==> new.status.damage == old.status.damage - v,
        new.status.temp_hp == old.status.temp_hp,
{
}


/// Typing a character at the prompt puts it right where the cursor stands:
/// the characters before the cursor, then the new one, then the rest.
pub proof fn lemma_typing_inserts_at_cursor(old: AppState, new: AppState, c: char, a: Action, k: int)
    requires
        old.mode is Input,
        old.wf(),
        0 <= k <= old.input@.len(),
        text_width(old.input@.take(k)) == old.head,
        key_effect(old, new, Key::Char(c), a),
    ensures
        new.input@ == old.input@.take(k) + seq![c] + old.input@.skip(k),
        new.head == old.head + 1,
        text_width(new.input@) == text_width(old.input@) + char_width(c),
{
    lemma_boundary_unique(old.input@, old.head as int, k);
    lemma_insert_width(old.input@, k, c);
    assert(old.input@.insert(k, c) =~= old.input@.take(k) + seq![c] + old.input@.skip(k));
}

/// Backspace deletes the character that starts one byte before the cursor
/// and keeps everything else in order.
pub proof fn lemma_backspace_deletes_before_cursor(old: AppState, new: AppState, a: Action, j: int)
    requires
        old.mode is Input,
        old.wf(),
        old.head > 0,
        0 <= j < old.input@.len(),
        text_width(old.input@.take(j)) == old.head - 1,
        key_effect(old, new, Key::Backspace, a),
    ensures
        new.input@ == old.input@.take(j) + old.input@.skip(j + 1),
        new.head == old.head - 1,
{
    lemma_boundary_unique(old.input@, old.head - 1, j);
    assert(old.input@.remove(j) =~= old.input@.take(j) + old.input@.skip(j + 1));
}

/// Moving right moves to the next tab title, wrapping from the last to the
/// first; moving left moves to the previous one.
pub proof fn lemma_tab_moves_follow_titles(tab: Tab, has_spells: bool)
    requires
        has_spells || tab != Tab::Spells,
    ensures
        ({
            let n: int = if has_spells { 3 } else { 2 };
            let p: int = tab_position(tab, has_spells) as int;
            &&& p < n
            &&& tab_position(tab_right(tab, has_spells), has_spells) as int == (p + 1) % n
            &&& tab_position(tab_left(tab, has_spells), has_spells) as int == (p + n - 1) % n
        }),
{
}

} // verus!
