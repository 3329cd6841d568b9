use vstd::prelude::*;

verus! {

/// A spell the character knows. Level 0 denotes a cantrip.
pub struct Spell {
    pub name: String,
    pub level: u8,
    pub description: String,
}

/// The six abilities of a character.
#[derive(Clone, Copy, PartialEq, Eq, Structural)]
pub enum AbilityKind {
    Strength,
    Dexterity,
    Constitution,
    Intelligence,
    Wisdom,
    Charisma,
}

/// The skill proficiencies that belong to each ability, in the order they
/// are listed on the sheet.
pub open spec fn kind_proficiencies(kind: AbilityKind) -> Seq<Seq<char>> {
    match kind {
        AbilityKind::Strength => seq!["athletics"@],
        AbilityKind::Dexterity => seq![""@],
        AbilityKind::Constitution => seq![""@],
        AbilityKind::Intelligence => seq![
            "arcana"@,
            "history"@,
            "investigation"@,
            "nature"@,
            "religion"@,
        ],
        AbilityKind::Wisdom => seq![
            "animal handling"@,
            "insight"@,
            "medicine"@,
            "perception"@,
            "survival"@,
        ],
        AbilityKind::Charisma => seq![
            "deception"@,
            "intimidation"@,
            "performance"@,
            "persuassion"@,
        ],
    }
}

/// The lower-case name of an ability, as shown on the sheet.
pub open spec fn kind_name(kind: AbilityKind) -> Seq<char> {
    match kind {
        AbilityKind::Strength => "strength"@,
        AbilityKind::Dexterity => "dexterity"@,
        AbilityKind::Constitution => "constitution"@,
        AbilityKind::Intelligence => "intelligence"@,
        AbilityKind::Wisdom => "wisdom"@,
        AbilityKind::Charisma => "charisma"@,
    }
}

/// The order in which the abilities stand on a character sheet.
pub open spec fn kind_at(i: int) -> AbilityKind {
    if i == 0 {
        AbilityKind::Strength
    } else if i == 1 {
        AbilityKind::Dexterity
    } else if i == 2 {
        AbilityKind::Constitution
    } else if i == 3 {
        AbilityKind::Intelligence
    } else if i == 4 {
        AbilityKind::Wisdom
    } else {
        AbilityKind::Charisma
    }
}

fn push_str(v: &mut Vec<String>, s: &str)
    ensures
        final(v).deep_view() == old(v).deep_view().push(s@),
{
    let ghost before = v.deep_view();
    v.push(String::from_str(s));
    assert(v.deep_view() =~= before.push(s@));
}

impl AbilityKind {
    /// The skill proficiencies that this ability governs.
    pub fn proficiencies(&self) -> (r: Vec<String>)
        ensures
            r.deep_view() == kind_proficiencies(*self),
    {
        let mut v: Vec<String> = Vec::new();
        assert(v.deep_view() =~= Seq::<Seq<char>>::empty());
        match self {
            AbilityKind::Strength => {
                push_str(&mut v, "athletics");
            },
            AbilityKind::Dexterity => {
                push_str(&mut v, "");
            },
            AbilityKind::Constitution => {
                push_str(&mut v, "");
            },
            AbilityKind::Intelligence => {
                push_str(&mut v, "arcana");
                push_str(&mut v, "history");
                push_str(&mut v, "investigation");
                push_str(&mut v, "nature");
                push_str(&mut v, "religion");
            },
            AbilityKind::Wisdom => {
                push_str(&mut v, "animal handling");
                push_str(&mut v, "insight");
                push_str(&mut v, "medicine");
                push_str(&mut v, "perception");
                push_str(&mut v, "survival");
            },
            AbilityKind::Charisma => {
                push_str(&mut v, "deception");
                push_str(&mut v, "intimidation");
                push_str(&mut v, "performance");
                push_str(&mut v, "persuassion");
            },
        }
        assert(v.deep_view() =~= kind_proficiencies(*self));
        v
    }

    /// The lower-case name of the ability.
    pub fn to_string(&self) -> (r: String)
        ensures
            r@ == kind_name(*self),
    {
        match self {
            AbilityKind::Strength => String::from_str("strength"),
            AbilityKind::Dexterity => String::from_str("dexterity"),
            AbilityKind::Constitution => String::from_str("constitution"),
            AbilityKind::Intelligence => String::from_str("intelligence"),
            AbilityKind::Wisdom => String::from_str("wisdom"),
            AbilityKind::Charisma => String::from_str("charisma"),
        }
    }
}

/// One ability of a character: its score and the proficiencies the character has in it.
pub struct Ability {
    pub name: AbilityKind,
    pub score: u8,
    pub proficiencies: Vec<String>,
}

impl Ability {
    /// A fresh ability of the given kind: score 0 and every proficiency of the kind.
    pub open spec fn is_default_for(self, kind: AbilityKind) -> bool {
        &&& self.name == kind
        &&& self.score == 0
        &&& self.proficiencies.deep_view() == kind_proficiencies(kind)
    }

    fn default_for_kind(k: AbilityKind) -> (r: Ability)
        ensures
            r.is_default_for(k),
    {
        Ability { name: k, score: 0, proficiencies: k.proficiencies() }
    }
}

/// The semi-permanent traits of a character.
pub struct Character {
    pub name: String,
    pub class: String,
    pub race: String,
    pub sub_class: String,
    /// proficiency is tied to level
    pub level: u8,
    pub armor_class: u8,
    pub max_hp: u8,
    pub speed: u8,
    pub abilities: [Ability; 6],
    pub spell_slots: [u8; 9],
    pub spells: Vec<Spell>,
    pub rages: u8,
    pub languages: Vec<String>,
    pub proficiencies: Vec<String>,
}

impl Character {
    /// Every trait but the name is that of a new, blank character.
    pub open spec fn is_blank_but_name(self) -> bool {
        &&& self.class@ == Seq::<char>::empty()
        &&& self.race@ == Seq::<char>::empty()
        &&& self.sub_class@ == Seq::<char>::empty()
        &&& self.level == 0
        &&& self.armor_class == 0
        &&& self.max_hp == 0
        &&& self.speed == 0
        &&& forall|i: int| 0 <= i < 6 ==> (#[trigger] self.abilities@[i]).is_default_for(kind_at(i))
        &&& forall|i: int| 0 <= i < 9 ==> #[trigger] self.spell_slots@[i] == 0
        &&& self.spells@.len() == 0
        &&& self.rages == 0
        &&& self.languages@.len() == 0
        &&& self.proficiencies@.len() == 0
    }

    /// A blank character with the given name.
    pub fn with_name(name: String) -> (r: Character)
        ensures
            r.name == name,
            r.is_blank_but_name(),
    {
        let mut c = Character::default();
        c.name = name;
        c
    }
}

/// The text of a new character's notes file, headed by the character's name.
pub open spec fn notes_template_text(name: Seq<char>) -> Seq<char> {
    "# "@ + name + "\nThanks for using Campaign!\n\nAs you are creating you character be sure to flesh out the following characterisitics for your character:\n- age:\n- appearence:\n- history:\n- motivations:\n"@
}

/// The notes file that a new character starts with.
pub fn notes_template(name: &str) -> (r: String)
    ensures
        r@ == notes_template_text(name@),
{
    String::from_str("# ").concat(name).concat(
        "\nThanks for using Campaign!\n\nAs you are creating you character be sure to flesh out the following characterisitics for your character:\n- age:\n- appearence:\n- history:\n- motivations:\n",
    )
}

impl Default for Character {
    fn default() -> (r: Character)
        ensures
            r.name@ == Seq::<char>::empty(),
            r.is_blank_but_name(),
    {
        Character {
            name: String::new(),
            class: String::new(),
            race: String::new(),
            sub_class: String::new(),
            level: 0,
            armor_class: 0,
            max_hp: 0,
            speed: 0,
            abilities: [
                Ability::default_for_kind(AbilityKind::Strength),
                Ability::default_for_kind(AbilityKind::Dexterity),
                Ability::default_for_kind(AbilityKind::Constitution),
                Ability::default_for_kind(AbilityKind::Intelligence),
                Ability::default_for_kind(AbilityKind::Wisdom),
                Ability::default_for_kind(AbilityKind::Charisma),
            ],
            spell_slots: [0, 0, 0, 0, 0, 0, 0, 0, 0],
            spells: Vec::new(),
            rages: 0,
            languages: Vec::new(),
            proficiencies: Vec::new(),
        }
    }
}

/// An item carried by the character.
pub struct Item {
    pub name: String,
    pub count: u8,
    pub description: String,
}

/// Hit points that a hit of `hit` takes from `temp_hp` temporary hit points.
pub open spec fn absorbed(temp_hp: u8, hit: u8) -> u8 {
    if temp_hp < hit {
        temp_hp
    } else {
        hit
    }
}

/// Damage taken after a hit of `hit`: what the temporary hit points do not
/// absorb is added (saturating at 255) and the total is capped at `max`.
pub open spec fn damage_after(damage: u8, temp_hp: u8, hit: u8, max: u8) -> u8 {
    let through = hit - absorbed(temp_hp, hit);
    let raised: int = if damage + through > 255 { 255 } else { damage + through };
    (if raised < max { raised } else { max as int }) as u8
}

/// Damage taken after healing `heal` points; it never drops below zero.
pub open spec fn healed(damage: u8, heal: u8) -> u8 {
    if damage >= heal {
        (damage - heal) as u8
    } else {
        0
    }
}

/// The death saving throw counts `(succeeded, failed)` after one more throw.
/// A success counts only while fewer than three throws have failed; a failure
/// counts only while fewer than three have succeeded; each count stops at three.
pub open spec fn next_death_saves(saves: Option<(u8, u8)>, succeeded: bool) -> Option<(u8, u8)> {
    match saves {
        None => None,
        Some((s, f)) => if succeeded && f < 3 {
            Some((if s + 1 < 3 { (s + 1) as u8 } else { 3u8 }, f))
        } else if s < 3 {
            Some((s, if f + 1 < 3 { (f + 1) as u8 } else { 3u8 }))
        } else {
            Some((s, f))
        },
    }
}

/// The count that a throw raises is below 255, so it can be raised.
pub open spec fn death_save_in_range(saves: Option<(u8, u8)>, succeeded: bool) -> bool {
    match saves {
        None => true,
        Some((s, f)) => if succeeded && f < 3 {
            s < 255
        } else if s < 3 {
            f < 255
        } else {
            true
        },
    }
}

/// The mutable, per-session state of a character.
pub struct Status {
    pub damage: u8,
    pub temp_hp: u8,
    pub used_slots: [u8; 9],
    pub used_rages: u8,
    pub luck: u8,
    /// platinum gold electrum silver copper
    pub coins: [usize; 5],
    pub items: Vec<Item>,
    /// None when not making death saving throws, Some((succeeded, failed)) while doing so
    pub death_saves: Option<(u8, u8)>,
}

impl Status {
    /// Only the hit points (damage and temporary hit points) differ between the two.
    pub open spec fn same_but_hit_points(self, other: Status) -> bool {
        &&& self.used_slots == other.used_slots
        &&& self.used_rages == other.used_rages
        &&& self.luck == other.luck
        &&& self.coins == other.coins
        &&& self.items == other.items
        &&& self.death_saves == other.death_saves
    }

    /// Only the used spell slots differ between the two.
    pub open spec fn same_but_slots(self, other: Status) -> bool {
        &&& self.damage == other.damage
        &&& self.temp_hp == other.temp_hp
        &&& self.used_rages == other.used_rages
        &&& self.luck == other.luck
        &&& self.coins == other.coins
        &&& self.items == other.items
        &&& self.death_saves == other.death_saves
    }

    /// Only the used rages differ between the two.
    pub open spec fn same_but_rages(self, other: Status) -> bool {
        &&& self.damage == other.damage
        &&& self.temp_hp == other.temp_hp
        &&& self.used_slots == other.used_slots
        &&& self.luck == other.luck
        &&& self.coins == other.coins
        &&& self.items == other.items
        &&& self.death_saves == other.death_saves
    }

    /// Only the death saving throws differ between the two.
    pub open spec fn same_but_death_saves(self, other: Status) -> bool {
        &&& self.damage == other.damage
        &&& self.temp_hp == other.temp_hp
        &&& self.used_slots == other.used_slots
        &&& self.used_rages == other.used_rages
        &&& self.luck == other.luck
        &&& self.coins == other.coins
        &&& self.items == other.items
    }

    /// Takes a hit of `damage` points: temporary hit points absorb what they
    /// can, the rest is added to the damage taken, which never exceeds `max`.
    pub fn damage(&mut self, damage: u8, max: u8)
        ensures
            final(self).temp_hp == old(self).temp_hp - absorbed(old(self).temp_hp, damage),
            final(self).damage == damage_after(old(self).damage, old(self).temp_hp, damage, max),
            final(self).damage <= max,
            final(self).same_but_hit_points(*old(self)),
    {
        let absorbed: u8 = if self.temp_hp < damage { self.temp_hp } else { damage };
        let actual_damage: u8 = damage.saturating_sub(absorbed);

        self.temp_hp = self.temp_hp - absorbed;
        let raised: u8 = self.damage.saturating_add(actual_damage);
        self.damage = if raised < max { raised } else { max };
    }

    /// Heals `heal` points of damage; damage never drops below zero.
    pub fn heal(&mut self, heal: u8)
        ensures
            final(self).damage == healed(old(self).damage, heal),
            final(self).temp_hp == old(self).temp_hp,
            final(self).same_but_hit_points(*old(self)),
    {
        self.damage = self.damage.saturating_sub(heal);
    }

    /// Uses one spell slot of level `slot`; a level outside 1..=9 is ignored.
    pub fn cast(&mut self, slot: usize)
        requires
            1 <= slot <= 9 ==> old(self).used_slots@[slot - 1] < 255,
        ensures
            final(self).used_slots@ == (if 1 <= slot <= 9 {
                old(self).used_slots@.update(
                    slot - 1,
                    (old(self).used_slots@[slot - 1] + 1) as u8,
                )
            } else {
                old(self).used_slots@
            }),
            final(self).same_but_slots(*old(self)),
    {
        if slot >= 1 && slot <= 9 {
            let used: u8 = self.used_slots[slot - 1];
            self.used_slots[slot - 1] = used + 1;
        }
    }

    /// Uses one rage.
    pub fn rage(&mut self)
        requires
            old(self).used_rages < 255,
        ensures
            final(self).used_rages == old(self).used_rages + 1,
            final(self).same_but_rages(*old(self)),
    {
        self.used_rages = self.used_rages + 1;
    }

    /// Whether the character is making death saving throws.
    pub fn is_in_death_saving(&self) -> (r: bool)
        ensures
            r == self.death_saves is Some,
    {
        self.death_saves.is_some()
    }

    /// Starts death saving throws with no successes and no failures.
    pub fn enter_death_saving(&mut self)
        ensures
            final(self).death_saves == Some((0u8, 0u8)),
            final(self).same_but_death_saves(*old(self)),
    {
        self.death_saves = Some((0, 0));
    }

    /// Stops making death saving throws.
    pub fn exit_death_saving(&mut self)
        ensures
            final(self).death_saves is None,
            final(self).same_but_death_saves(*old(self)),
    {
        self.death_saves = None;
    }

    /// Records one death saving throw; nothing happens when the character is
    /// not making death saving throws.
    pub fn death_saving_throw(&mut self, succeeded: bool)
        requires
            death_save_in_range(old(self).death_saves, succeeded),
        ensures
            final(self).death_saves == next_death_saves(old(self).death_saves, succeeded),
            final(self).same_but_death_saves(*old(self)),
    {
        match self.death_saves {
            None => {},
            Some((succeeded_count, failed_count)) => {
                if succeeded && failed_count < 3 {
                    let s: u8 = succeeded_count + 1;
                    self.death_saves = Some((if s < 3 { s } else { 3 }, failed_count));
                } else if succeeded_count < 3 {
                    let f: u8 = failed_count + 1;
                    self.death_saves = Some((succeeded_count, if f < 3 { f } else { 3 }));
                }
            },
        }
    }
}

impl Default for Status {
    fn default() -> (r: Status)
        ensures
            r.damage == 0,
            r.temp_hp == 0,
            forall|i: int| 0 <= i < 9 ==> #[trigger] r.used_slots@[i] == 0,
            r.used_rages == 0,
            r.luck == 0,
            forall|i: int| 0 <= i < 5 ==> #[trigger] r.coins@[i] == 0,
            r.items@.len() == 0,
            r.death_saves is None,
    {
        Status {
            damage: 0,
            temp_hp: 0,
            used_slots: [0, 0, 0, 0, 0, 0, 0, 0, 0],
            used_rages: 0,
            luck: 0,
            coins: [0, 0, 0, 0, 0],
            items: Vec::new(),
            death_saves: None,
        }
    }
}


/// Healing a hit undoes it: without temporary hit points, and when the hit
/// does not reach the cap, healing as many points as the hit took restores
/// the damage taken before.
pub proof fn lemma_heal_undoes_damage(damage: u8, hit: u8, max: u8)
    requires
        damage + hit <= max,
    ensures
        healed(damage_after(damage, 0, hit, max), hit) == damage,
{
}

/// Temporary hit points absorb a hit first: a hit no larger than them leaves
/// the damage taken as it was (when it is within the cap) and uses up as
/// many temporary hit points as the hit.
pub proof fn lemma_temp_hp_absorbs_first(damage: u8, temp_hp: u8, hit: u8, max: u8)
    requires
        hit <= temp_hp,
        damage <= max,
    ensures
        damage_after(damage, temp_hp, hit, max) == damage,
        temp_hp - absorbed(temp_hp, hit) == temp_hp - hit,
{
}

/// The damage taken never exceeds the cap it is taken against.
pub proof fn lemma_damage_capped(damage: u8, temp_hp: u8, hit: u8, max: u8)
    ensures
        damage_after(damage, temp_hp, hit, max) <= max,
{
}

/// Death saving throw counts never pass three: from counts of at most three
/// a throw can always be recorded and leaves both counts at most three.
pub proof fn lemma_death_saves_bounded(s: u8, f: u8, succeeded: bool)
    requires
        s <= 3,
        f <= 3,
    ensures
        death_save_in_range(Some((s, f)), succeeded),
        next_death_saves(Some((s, f)), succeeded) matches Some((s2, f2)) && s2 <= 3 && f2 <= 3,
{
}

/// Once three throws have succeeded or three have failed, the outcome is
/// settled: further throws change nothing.
pub proof fn lemma_death_saves_settled(s: u8, f: u8, succeeded: bool)
    requires
        s == 3 || f == 3,
    ensures
        next_death_saves(Some((s, f)), succeeded) == Some((s, f)),
{
}

/// While the outcome is open, each throw adds one to exactly one count: the
/// successes on a success, the failures on a failure.
pub proof fn lemma_death_save_counts_one(s: u8, f: u8, succeeded: bool)
    requires
        s < 3,
        f < 3,
    ensures
        succeeded ==> next_death_saves(Some((s, f)), succeeded) == Some(((s + 1) as u8, f)),
        !succeeded ==> next_death_saves(Some((s, f)), succeeded) == Some((s, (f + 1) as u8)),
{
}

/// A throw made when no death saving throws are being made records nothing.
pub proof fn lemma_no_throw_outside_death_saving(succeeded: bool)
    ensures
        next_death_saves(None, succeeded) is None,
{
}


/// The death saving throw counts after the throws `throws`, made in order.
pub open spec fn death_saves_after(saves: Option<(u8, u8)>, throws: Seq<bool>) -> Option<(u8, u8)>
    decreases throws.len(),
{
    if throws.len() == 0 {
        saves
    } else {
        next_death_saves(death_saves_after(saves, throws.drop_last()), throws.last())
    }
}

/// Counts of at most three stay within three over any run of throws, and
/// every throw of the run can be recorded.
pub proof fn lemma_death_saves_bounded_over_throws(s: u8, f: u8, throws: Seq<bool>)
    requires
        s <= 3,
        f <= 3,
    ensures
        death_saves_after(Some((s, f)), throws) matches Some((s2, f2)) && s2 <= 3 && f2 <= 3,
        forall|i: int|
            0 <= i < throws.len() ==> death_save_in_range(
                #[trigger] death_saves_after(Some((s, f)), throws.take(i)),
                throws[i],
            ),
    decreases throws.len(),
{
    if throws.len() > 0 {
        let rest = throws.drop_last();
        lemma_death_saves_bounded_over_throws(s, f, rest);
        let prev = death_saves_after(Some((s, f)), rest);
        if let Some((s1, f1)) = prev {
            lemma_death_saves_bounded(s1, f1, throws.last());
        }
        assert forall|i: int|
            0 <= i < throws.len() implies death_save_in_range(
                #[trigger] death_saves_after(Some((s, f)), throws.take(i)),
                throws[i],
            ) by {
            if i < rest.len() {
                assert(throws.take(i) =~= rest.take(i));
                assert(rest[i] == throws[i]);
            } else {
                assert(throws.take(i) =~= rest);
            }
        }
    }
}

/// Once three throws have succeeded or three have failed, no run of
/// further throws changes the counts.
pub proof fn lemma_death_saves_settled_over_throws(s: u8, f: u8, throws: Seq<bool>)
    requires
        s == 3 || f == 3,
    ensures
        death_saves_after(Some((s, f)), throws) == Some((s, f)),
    decreases throws.len(),
{
    if throws.len() > 0 {
        lemma_death_saves_settled_over_throws(s, f, throws.drop_last());
        lemma_death_saves_settled(s, f, throws.last());
    }
}


/// A hit of `hit` against `temp_hp` temporary hit points: a hit they cover
/// only lowers them; a larger hit uses them all up and raises the damage
/// taken by the rest, at most to 255 and to the cap `max`.
pub proof fn lemma_hit_splits_over_temp_hp(damage: u8, temp_hp: u8, hit: u8, max: u8)
    ensures
        hit <= temp_hp ==> {
            &&& temp_hp - absorbed(temp_hp, hit) == temp_hp - hit
            &&& damage_after(damage, temp_hp, hit, max) == (if damage <= max {
                damage
            } else {
                max
            })
        },
        hit > temp_hp ==> {
            let raised = damage + (hit - temp_hp);
            let capped = if raised > 255 { 255 } else { raised };
            &&& temp_hp - absorbed(temp_hp, hit) == 0
            &&& damage_after(damage, temp_hp, hit, max) == (if capped <= max {
                capped
            } else {
                max as int
            })
        },
{
}

/// Healing takes the healed amount off the damage taken, and a heal of at
/// least the damage taken leaves none.
pub proof fn lemma_heal_takes_off(damage: u8, heal: u8)
    ensures
        heal >= damage ==> healed(damage, heal) == 0,
        heal < damage ==> healed(damage, heal) + heal == damage,
{
}

} // verus!
