use vstd::prelude::*;

use crate::session::{InputType, Tab};
use crate::text::{digits_value, is_digit, push_char, unsigned_decimal};
use crate::types::{kind_name, kind_proficiencies, Ability, Character, Item, Spell, Status};

verus! {

/// The character of a decimal digit.
pub open spec fn digit_char(d: nat) -> char {
    ('0' as int + d) as char
}

/// The decimal representation of a natural number, without leading zeros.
pub open spec fn decimal(n: nat) -> Seq<char>
    decreases n,
{
    if n < 10 {
        seq![digit_char(n)]
    } else {
        decimal(n / 10).push(digit_char(n % 10))
    }
}

/// The decimal representation of an integer, with a leading `-` when negative.
pub open spec fn signed_decimal(n: int) -> Seq<char> {
    if n < 0 {
        seq!['-'] + decimal((-n) as nat)
    } else {
        decimal(n as nat)
    }
}

fn digit(d: u64) -> (c: char)
    requires
        d < 10,
    ensures
        c == digit_char(d as nat),
{
    if d == 0 {
        '0'
    } else if d == 1 {
        '1'
    } else if d == 2 {
        '2'
    } else if d == 3 {
        '3'
    } else if d == 4 {
        '4'
    } else if d == 5 {
        '5'
    } else if d == 6 {
        '6'
    } else if d == 7 {
        '7'
    } else if d == 8 {
        '8'
    } else {
        '9'
    }
}

/// The decimal text of a number.
pub fn decimal_text(n: u64) -> (r: String)
    ensures
        r@ == decimal(n as nat),
    decreases n,
{
    if n < 10 {
        let mut s = String::new();
        push_char(&mut s, digit(n));
        assert(s@ =~= decimal(n as nat));
        s
    } else {
        let mut s = decimal_text(n / 10);
        push_char(&mut s, digit(n % 10));
        s
    }
}

/// The decimal text of a signed number, with a leading `-` when negative.
pub fn signed_decimal_text(n: i16) -> (r: String)
    ensures
        r@ == signed_decimal(n as int),
{
    if n < 0 {
        let magnitude: u64 = (0 - (n as i32)) as u64;
        let mut s = String::new();
        push_char(&mut s, '-');
        let digits = decimal_text(magnitude);
        let r = s.concat(digits.as_str());
        assert(r@ =~= signed_decimal(n as int));
        r
    } else {
        decimal_text(n as u64)
    }
}

/// The roman numeral of 1 to 9.
pub open spec fn roman(n: int) -> Seq<char> {
    if n == 1 {
        "I"@
    } else if n == 2 {
        "II"@
    } else if n == 3 {
        "III"@
    } else if n == 4 {
        "IV"@
    } else if n == 5 {
        "V"@
    } else if n == 6 {
        "VI"@
    } else if n == 7 {
        "VII"@
    } else if n == 8 {
        "VIII"@
    } else {
        "IX"@
    }
}

/// The roman numeral of a number from 1 to 9; only those are supported.
pub fn to_roman_numerals(n: usize) -> (r: &'static str)
    requires
        0 < n < 10,
    ensures
        r@ == roman(n as int),
{
    match n {
        1 => "I",
        2 => "II",
        3 => "III",
        4 => "IV",
        5 => "V",
        6 => "VI",
        7 => "VII",
        8 => "VIII",
        _ => "IX",
    }
}


/// The label of a spell's level: `C` for a cantrip, else its roman numeral.
pub open spec fn level_label(level: u8) -> Seq<char> {
    if level == 0 {
        "C"@
    } else {
        roman(level as int)
    }
}

/// The label of a spell's level; levels above 9 are not supported.
pub fn spell_level_label(level: u8) -> (r: String)
    requires
        level < 10,
    ensures
        r@ == level_label(level),
{
    if level == 0 {
        String::from_str("C")
    } else {
        String::from_str(to_roman_numerals(level as usize))
    }
}

/// What is left of `total` once `used` of it is spent; never below zero.
pub open spec fn remaining(total: u8, used: u8) -> u8 {
    if total >= used {
        (total - used) as u8
    } else {
        0
    }
}

impl Status {
    /// The rages the character has left.
    pub fn remaining_rages(&self, c: &Character) -> (r: u8)
        ensures
            r == remaining(c.rages, self.used_rages),
    {
        if self.used_rages > c.rages {
            0
        } else {
            c.rages - self.used_rages
        }
    }

    /// The spell slots of the level `level + 1` that the character has left.
    pub fn available_slots(&self, c: &Character, level: usize) -> (r: u8)
        requires
            level < 9,
        ensures
            r == remaining(c.spell_slots@[level as int], self.used_slots@[level as int]),
    {
        if c.spell_slots[level] >= self.used_slots[level] {
            c.spell_slots[level] - self.used_slots[level]
        } else {
            0
        }
    }
}

/// The sum of the first `n` numbers of `s`.
pub open spec fn prefix_sum(s: Seq<u8>, n: int) -> int
    decreases n,
{
    if n <= 0 {
        0
    } else {
        prefix_sum(s, n - 1) + s[n - 1]
    }
}

proof fn lemma_prefix_sum_grows(s: Seq<u8>, i: int, j: int)
    requires
        0 <= i <= j <= s.len(),
    ensures
        prefix_sum(s, i) <= prefix_sum(s, j),
    decreases j - i,
{
    if i < j {
        lemma_prefix_sum_grows(s, i, j - 1);
    }
}

/// All spell slots of the character, of every level.
pub open spec fn slot_total(c: Character) -> int {
    prefix_sum(c.spell_slots@, 9)
}

impl Character {
    /// Whether the character can rage at all.
    pub fn has_rage(&self) -> (r: bool)
        ensures
            r == (self.rages > 0),
    {
        self.rages > 0
    }

    /// Whether all spell slots together can be counted in a `u8`.
    pub fn slot_total_fits(&self) -> (r: bool)
        ensures
            r == (slot_total(*self) <= u8::MAX),
    {
        let mut total: u64 = 0;
        let mut i: usize = 0;
        while i < 9
            invariant
                i <= 9,
                total == prefix_sum(self.spell_slots@, i as int),
                total <= 255 * i,
            decreases 9 - i,
        {
            total = total + self.spell_slots[i] as u64;
            i = i + 1;
        }
        total <= 255
    }

    /// Whether the character has any spell slot; the slots are summed in a
    /// `u8`, so together they must fit in one.
    pub fn has_magic(&self) -> (r: bool)
        requires
            slot_total(*self) <= u8::MAX,
        ensures
            r == (slot_total(*self) > 0),
    {
        let mut total: u8 = 0;
        let mut i: usize = 0;
        while i < 9
            invariant
                i <= 9,
                total == prefix_sum(self.spell_slots@, i as int),
                prefix_sum(self.spell_slots@, 9) <= u8::MAX,
            decreases 9 - i,
        {
            proof {
                lemma_prefix_sum_grows(self.spell_slots@, i + 1, 9);
            }
            total = total + self.spell_slots[i];
            i = i + 1;
        }
        total > 0
    }
}

/// The height of the section for rages (3 rows) and spell slots (12 rows),
/// by which of them the character has.
pub fn class_section_height(has_rage: bool, has_magic: bool) -> (r: u16)
    ensures
        r == (if has_rage { 3int } else { 0int }) + (if has_magic { 12int } else { 0int }),
{
    let mut height: u16 = 0;
    if has_rage {
        height = height + 3;
    }
    if has_magic {
        height = height + 12;
    }
    height
}

/// The titles of the tabs: the spells tab only when the character knows spells.
pub fn tab_titles(has_spells: bool) -> (r: Vec<&'static str>)
    ensures
        has_spells ==> r@.len() == 3 && r@[0]@ == "items"@ && r@[1]@ == "spells"@ && r@[2]@
            == "notes"@,
        !has_spells ==> r@.len() == 2 && r@[0]@ == "items"@ && r@[1]@ == "notes"@,
{
    let mut v: Vec<&'static str> = Vec::new();
    v.push("items");
    if has_spells {
        v.push("spells");
    }
    v.push("notes");
    v
}

/// Where a tab stands among the tab titles.
pub open spec fn tab_position(tab: Tab, has_spells: bool) -> nat {
    match tab {
        Tab::Items => 0,
        Tab::Spells => 1,
        Tab::Notes => if has_spells {
            2
        } else {
            1
        },
    }
}

/// The position of the open tab among the tab titles.
pub fn tab_index(tab: Tab, has_spells: bool) -> (r: usize)
    ensures
        r == tab_position(tab, has_spells),
{
    match tab {
        Tab::Items => 0,
        Tab::Spells => 1,
        Tab::Notes => if has_spells {
            2
        } else {
            1
        },
    }
}

/// The ability modifier of a score: (score - 10) / 2, rounded toward zero.
pub open spec fn modifier(score: u8) -> int {
    let d = score - 10;
    if d >= 0 {
        d / 2
    } else {
        -((-d) / 2)
    }
}

/// The ability modifier of a score.
pub fn ability_modifier(score: u8) -> (r: i16)
    ensures
        r == modifier(score),
{
    let d: i16 = (score as i16) - 10;
    if d >= 0 {
        d / 2
    } else {
        0 - ((0 - d) / 2)
    }
}

/// The title of an ability's box: its name and its modifier.
pub open spec fn ability_title_text(a: Ability) -> Seq<char> {
    " "@ + kind_name(a.name) + " : "@ + signed_decimal(modifier(a.score)) + " "@
}

/// The title of an ability's box.
pub fn ability_title(a: &Ability) -> (r: String)
    ensures
        r@ == ability_title_text(*a),
{
    let m = ability_modifier(a.score);
    let name = a.name.to_string();
    let number = signed_decimal_text(m);
    let r = String::from_str(" ").concat(name.as_str()).concat(" : ").concat(number.as_str()).concat(
        " ",
    );
    r
}

/// Whether `v` holds the text `s`.
fn contains_text(v: &Vec<String>, s: &String) -> (r: bool)
    ensures
        r == v.deep_view().contains(s@),
{
    let mut i: usize = 0;
    while i < v.len()
        invariant
            i <= v.len(),
            forall|j: int| 0 <= j < i ==> v.deep_view()[j] != s@,
        decreases v.len() - i,
    {
        if v[i] == *s {
            assert(v.deep_view()[i as int] == s@);
            return true;
        }
        i = i + 1;
    }
    false
}

/// Each proficiency that an ability governs, with whether the character has it.
pub fn proficiency_marks(a: &Ability) -> (r: Vec<(String, bool)>)
    ensures
        r@.len() == kind_proficiencies(a.name).len(),
        forall|i: int|
            0 <= i < r@.len() ==> {
                &&& (#[trigger] r@[i]).0@ == kind_proficiencies(a.name)[i]
                &&& r@[i].1 == a.proficiencies.deep_view().contains(kind_proficiencies(a.name)[i])
            },
{
    let all = a.name.proficiencies();
    let mut marks: Vec<(String, bool)> = Vec::new();
    let mut i: usize = 0;
    while i < all.len()
        invariant
            i <= all.len(),
            all.deep_view() == kind_proficiencies(a.name),
            marks@.len() == i,
            forall|j: int|
                0 <= j < i ==> {
                    &&& (#[trigger] marks@[j]).0@ == kind_proficiencies(a.name)[j]
                    &&& marks@[j].1 == a.proficiencies.deep_view().contains(
                        kind_proficiencies(a.name)[j],
                    )
                },
        decreases all.len() - i,
    {
        let p = all[i].clone();
        assert(p@ == all.deep_view()[i as int]);
        let has = contains_text(&a.proficiencies, &p);
        marks.push((p, has));
        i = i + 1;
    }
    marks
}

/// A row of `n` blocks separated by spaces.
pub open spec fn block_row(n: nat) -> Seq<char>
    decreases n,
{
    if n == 0 {
        Seq::empty()
    } else if n == 1 {
        seq!['█']
    } else {
        block_row((n - 1) as nat) + seq![' ', '█']
    }
}

/// The temporary hit points as a row of blocks; beyond 17 blocks the rest
/// is written as a number.
pub open spec fn temp_hp_bar(temp_hp: u8) -> Seq<char> {
    if temp_hp > 17 {
        block_row(17) + " +"@ + decimal((temp_hp - 17) as nat)
    } else {
        block_row(temp_hp as nat)
    }
}

fn blocks(n: u8) -> (r: String)
    ensures
        r@ == block_row(n as nat),
{
    let mut s = String::new();
    let mut i: u8 = 0;
    while i < n
        invariant
            i <= n,
            s@ == block_row(i as nat),
        decreases n - i,
    {
        if i > 0 {
            push_char(&mut s, ' ');
        }
        push_char(&mut s, '█');
        i = i + 1;
        assert(s@ =~= block_row(i as nat));
    }
    s
}

/// The temporary hit points as a row of blocks.
pub fn temp_health_bar(temp_hp: u8) -> (r: String)
    ensures
        r@ == temp_hp_bar(temp_hp),
{
    if temp_hp > 17 {
        let row = blocks(17);
        let extra = decimal_text((temp_hp - 17) as u64);
        row.concat(" +").concat(extra.as_str())
    } else {
        blocks(temp_hp)
    }
}

/// The texts joined with `sep` between each two of them.
pub open spec fn joined(parts: Seq<Seq<char>>, sep: Seq<char>) -> Seq<char>
    decreases parts.len(),
{
    if parts.len() == 0 {
        Seq::empty()
    } else if parts.len() == 1 {
        parts[0]
    } else {
        joined(parts.drop_last(), sep) + sep + parts.last()
    }
}

/// The texts joined with spaces.
pub fn join_with_spaces(parts: &Vec<String>) -> (r: String)
    ensures
        r@ == joined(parts.deep_view(), " "@),
{
    let mut s = String::new();
    let mut i: usize = 0;
    while i < parts.len()
        invariant
            i <= parts.len(),
            s@ == joined(parts.deep_view().take(i as int), " "@),
        decreases parts.len() - i,
    {
        let ghost before = parts.deep_view().take(i as int);
        if i > 0 {
            s.append(" ");
        }
        s.append(parts[i].as_str());
        i = i + 1;
        assert(parts.deep_view().take(i as int).drop_last() =~= before);
        assert(s@ =~= joined(parts.deep_view().take(i as int), " "@));
    }
    assert(parts.deep_view().take(parts.len() as int) =~= parts.deep_view());
    s
}

/// The title and the text of each box of the sheet's header, in order:
/// level, race, class, sub-class, luck, armor class, speed and languages.
pub fn header_fields(c: &Character, s: &Status) -> (r: Vec<(&'static str, String)>)
    ensures
        r@.len() == 8,
        r@[0].0@ == " lvl "@ && r@[0].1@ == decimal(c.level as nat),
        r@[1].0@ == " race "@ && r@[1].1@ == c.race@,
        r@[2].0@ == " class "@ && r@[2].1@ == c.class@,
        r@[3].0@ == " sub-class "@ && r@[3].1@ == c.sub_class@,
        r@[4].0@ == " luck "@ && r@[4].1@ == decimal(s.luck as nat),
        r@[5].0@ == " AC "@ && r@[5].1@ == decimal(c.armor_class as nat),
        r@[6].0@ == " speed "@ && r@[6].1@ == decimal(c.speed as nat),
        r@[7].0@ == " languages "@ && r@[7].1@ == joined(c.languages.deep_view(), " "@),
{
    let mut v: Vec<(&'static str, String)> = Vec::new();
    v.push((" lvl ", decimal_text(c.level as u64)));
    v.push((" race ", c.race.clone()));
    v.push((" class ", c.class.clone()));
    v.push((" sub-class ", c.sub_class.clone()));
    v.push((" luck ", decimal_text(s.luck as u64)));
    v.push((" AC ", decimal_text(c.armor_class as u64)));
    v.push((" speed ", decimal_text(c.speed as u64)));
    v.push((" languages ", join_with_spaces(&c.languages)));
    v
}

/// The title of the box of a coin, by position: copper, silver, electrum,
/// gold, platinum.
pub fn coin_title(i: usize) -> (r: &'static str)
    requires
        i < 5,
    ensures
        r@ == (if i == 0 {
            " C "@
        } else if i == 1 {
            " S "@
        } else if i == 2 {
            " E "@
        } else if i == 3 {
            " G "@
        } else {
            " P "@
        }),
{
    match i {
        0 => " C ",
        1 => " S ",
        2 => " E ",
        3 => " G ",
        _ => " P ",
    }
}

impl InputType {
    /// The prompt shown while a number of this type is typed.
    pub fn prompt(&self) -> (r: &'static str)
        ensures
            r@ == match *self {
                InputType::Damage => "Damage"@,
                InputType::Heal => "Heal"@,
                InputType::Cast => "Cast Slot #"@,
            },
    {
        match self {
            InputType::Damage => "Damage",
            InputType::Heal => "Heal",
            InputType::Cast => "Cast Slot #",
        }
    }
}

/// The cells of a spell's row: its name, the label of its level and its
/// description. Levels above 9 are not supported.
pub fn spell_row(spell: &Spell) -> (r: (String, String, String))
    requires
        spell.level < 10,
    ensures
        r.0@ == spell.name@,
        r.1@ == level_label(spell.level),
        r.2@ == spell.description@,
{
    (spell.name.clone(), spell_level_label(spell.level), spell.description.clone())
}

/// The cells of an item's row: its name, its count and its description.
pub fn item_row(item: &Item) -> (r: (String, String, String))
    ensures
        r.0@ == item.name@,
        r.1@ == decimal(item.count as nat),
        r.2@ == item.description@,
{
    (item.name.clone(), decimal_text(item.count as u64), item.description.clone())
}


/// The colour of the health gauge.
#[derive(Clone, Copy, PartialEq, Eq, Structural)]
pub enum HealthColor {
    Red,
    Yellow,
    LightYellow,
    Green,
    LightGreen,
}

/// The colour for the fraction `damage / max_hp` of hit points lost: red
/// from 90%, yellow from 75%, light yellow from 50%, green for any other
/// loss and light green for none. With no maximum the fraction is infinite
/// when damage was taken, and undefined otherwise, which counts as a loss.
pub open spec fn health_color(damage: u8, max_hp: u8) -> HealthColor {
    if max_hp == 0 {
        if damage > 0 {
            HealthColor::Red
        } else {
            HealthColor::Green
        }
    } else if 10 * damage >= 9 * max_hp {
        HealthColor::Red
    } else if 4 * damage >= 3 * max_hp {
        HealthColor::Yellow
    } else if 2 * damage >= max_hp {
        HealthColor::LightYellow
    } else if damage != 0 {
        HealthColor::Green
    } else {
        HealthColor::LightGreen
    }
}

/// The colour of the health gauge for `damage` taken of `max_hp` hit points.
pub fn color_for_damage_percent_lost(damage: u8, max_hp: u8) -> (r: HealthColor)
    ensures
        r == health_color(damage, max_hp),
{
    let d: u32 = damage as u32;
    let m: u32 = max_hp as u32;
    if m == 0 {
        if d > 0 {
            HealthColor::Red
        } else {
            HealthColor::Green
        }
    } else if 10 * d >= 9 * m {
        HealthColor::Red
    } else if 4 * d >= 3 * m {
        HealthColor::Yellow
    } else if 2 * d >= m {
        HealthColor::LightYellow
    } else if d != 0 {
        HealthColor::Green
    } else {
        HealthColor::LightGreen
    }
}


/// The height left for a tab's content below the row of tab titles.
pub fn tab_content_height(height: u16) -> (r: u16)
    ensures
        r == (if height > 0 { height - 1 } else { 0 }),
{
    if height > 0 {
        height - 1
    } else {
        height
    }
}

/// The scroll length of notes that wrap to `n_lines` lines in a box of
/// `height` rows: none when they fit, else the lines beyond all but the
/// box's last row. A box of no rows cannot show a scrollbar.
pub fn notes_scroll_length(n_lines: usize, height: u16) -> (r: Option<usize>)
    requires
        n_lines > height ==> height > 0,
    ensures
        r == (if n_lines > height {
            Some((n_lines - (height - 1)) as usize)
        } else {
            None::<usize>
        }),
{
    if n_lines > height as usize {
        Some(n_lines - (height - 1) as usize)
    } else {
        None
    }
}


/// Joining puts the separator between every two adjacent parts: a join of
/// two or more parts is the first part, the separator, and the join of the
/// rest.
pub proof fn lemma_joined_front(parts: Seq<Seq<char>>, sep: Seq<char>)
    requires
        parts.len() >= 2,
    ensures
        joined(parts, sep) == parts[0] + sep + joined(parts.drop_first(), sep),
    decreases parts.len(),
{
    let dl = parts.drop_last();
    let df = parts.drop_first();
    assert(joined(parts, sep) == joined(dl, sep) + sep + parts.last());
    if parts.len() == 2 {
        assert(dl.len() == 1);
        assert(joined(dl, sep) == dl[0]);
        assert(df.len() == 1);
        assert(joined(df, sep) == df[0]);
        assert(joined(parts, sep) =~= parts[0] + sep + joined(df, sep));
    } else {
        lemma_joined_front(dl, sep);
        assert(dl.drop_first() =~= df.drop_last());
        assert(df.last() == parts.last());
        assert(dl[0] == parts[0]);
        assert(joined(df, sep) == joined(df.drop_last(), sep) + sep + df.last());
        assert(joined(parts, sep) =~= parts[0] + sep + joined(df, sep));
    }
}

/// A join of no parts is empty and a join of one part is that part.
pub proof fn lemma_joined_short(p: Seq<char>, sep: Seq<char>)
    ensures
        joined(Seq::<Seq<char>>::empty(), sep) == Seq::<char>::empty(),
        joined(seq![p], sep) == p,
{
}

/// The length of a join: the parts' lengths and one separator between each
/// two adjacent parts.
pub open spec fn parts_length(parts: Seq<Seq<char>>) -> int
    decreases parts.len(),
{
    if parts.len() == 0 {
        0
    } else {
        parts_length(parts.drop_last()) + parts.last().len()
    }
}

/// A join of `n >= 1` parts holds every part and `n - 1` separators.
pub proof fn lemma_joined_length(parts: Seq<Seq<char>>, sep: Seq<char>)
    requires
        parts.len() >= 1,
    ensures
        joined(parts, sep).len() == parts_length(parts) + (parts.len() - 1) * sep.len(),
    decreases parts.len(),
{
    let dl = parts.drop_last();
    assert(parts_length(parts) == parts_length(dl) + parts.last().len());
    if parts.len() == 1 {
        assert(dl =~= Seq::<Seq<char>>::empty());
        assert(parts_length(dl) == 0);
        assert(joined(parts, sep) == parts[0]);
    } else {
        lemma_joined_length(dl, sep);
        assert(joined(parts, sep) == joined(dl, sep) + sep + parts.last());
        assert((parts.len() - 1) * sep.len() == (parts.len() - 2) * sep.len() + sep.len())
            by (nonlinear_arith);
    }
}

/// The modifier is half of `score - 10` rounded toward zero: twice the
/// modifier falls short of `score - 10` by at most one, on the side of zero.
pub proof fn lemma_modifier_rounds_toward_zero(score: u8)
    ensures
        score >= 10 ==> 0 <= (score - 10) - 2 * modifier(score) <= 1,
        score < 10 ==> 0 <= 2 * modifier(score) - (score - 10) <= 1,
        score >= 10 ==> modifier(score) >= 0,
        score < 10 ==> modifier(score) <= 0,
{
}

/// Reading the decimal text of `n` back gives `n`: it is made of digits
/// only, has no leading zero, and its digits denote `n`.
pub proof fn lemma_decimal_reads_back(n: nat)
    ensures
        forall|i: int| 0 <= i < decimal(n).len() ==> is_digit(#[trigger] decimal(n)[i]),
        digits_value(decimal(n)) == n,
        n > 0 ==> decimal(n)[0] != '0',
        decimal(n).len() >= 1,
        unsigned_decimal(decimal(n)) == Some(n),
    decreases n,
{
    let d = decimal(n);
    if n < 10 {
        assert(d == seq![digit_char(n)]);
        assert(d.drop_last() =~= Seq::<char>::empty());
        assert(digits_value(d.drop_last()) == 0);
        assert(d.last() as int == '0' as int + n);
    } else {
        lemma_decimal_reads_back(n / 10);
        assert(d == decimal(n / 10).push(digit_char(n % 10)));
        assert(d.drop_last() =~= decimal(n / 10));
        assert(d.last() as int == '0' as int + n % 10);
        assert(d[0] == decimal(n / 10)[0]);
        assert(digits_value(d) == digits_value(d.drop_last()) * 10 + ((d.last() as int - '0' as int) as nat));
        assert((n / 10) * 10 + n % 10 == n);
    }
    assert(crate::text::unsigned_digits(d) =~= d);
}

/// A row of `n` blocks alternates blocks and spaces, starting and ending
/// with a block.
pub proof fn lemma_block_row_shape(n: nat)
    ensures
        block_row(n).len() == (if n == 0 { 0 } else { 2 * n - 1 }),
        forall|i: int|
            0 <= i < block_row(n).len() ==> #[trigger] block_row(n)[i] == (if i % 2 == 0 {
                '█'
            } else {
                ' '
            }),
    decreases n,
{
    if n > 1 {
        lemma_block_row_shape((n - 1) as nat);
    }
}

/// What is left of a total: spending no more than the total leaves the
/// difference, spending more leaves nothing.
pub proof fn lemma_remaining_rule(total: u8, used: u8)
    ensures
        used <= total ==> remaining(total, used) + used == total,
        used > total ==> remaining(total, used) == 0,
{
}


/// How severe a colour of the health gauge is, from no loss up to red.
pub open spec fn severity(c: HealthColor) -> int {
    match c {
        HealthColor::LightGreen => 0,
        HealthColor::Green => 1,
        HealthColor::LightYellow => 2,
        HealthColor::Yellow => 3,
        HealthColor::Red => 4,
    }
}

/// The gauge's colour only grows more severe as damage grows, and it marks
/// the thresholds of the fraction lost: no damage is light green, at least
/// half lost is light yellow or worse, at least three quarters is yellow or
/// worse, at least nine tenths is red.
pub proof fn lemma_health_color_thresholds(damage: u8, more: u8, max_hp: u8)
    requires
        max_hp > 0,
        damage <= more,
    ensures
        severity(health_color(damage, max_hp)) <= severity(health_color(more, max_hp)),
        damage == 0 <==> health_color(damage, max_hp) == HealthColor::LightGreen,
        2 * damage >= max_hp <==> severity(health_color(damage, max_hp)) >= 2,
        4 * damage >= 3 * max_hp <==> severity(health_color(damage, max_hp)) >= 3,
        10 * damage >= 9 * max_hp <==> severity(health_color(damage, max_hp)) >= 4,
{
}

} // verus!
