use campaign::types::{notes_template, AbilityKind, Character};

#[test]
fn proficiencies_per_ability() {
    assert_eq!(AbilityKind::Strength.proficiencies(), vec!["athletics".to_string()]);
    assert_eq!(AbilityKind::Dexterity.proficiencies(), vec![String::new()]);
    assert_eq!(AbilityKind::Constitution.proficiencies(), vec![String::new()]);
    assert_eq!(
        AbilityKind::Intelligence.proficiencies(),
        vec!["arcana", "history", "investigation", "nature", "religion"]
    );
    assert_eq!(
        AbilityKind::Wisdom.proficiencies(),
        vec!["animal handling", "insight", "medicine", "perception", "survival"]
    );
    assert_eq!(
        AbilityKind::Charisma.proficiencies(),
        vec!["deception", "intimidation", "performance", "persuassion"]
    );
}

#[test]
fn ability_names() {
    assert_eq!(AbilityKind::Strength.to_string(), "strength");
    assert_eq!(AbilityKind::Dexterity.to_string(), "dexterity");
    assert_eq!(AbilityKind::Constitution.to_string(), "constitution");
    assert_eq!(AbilityKind::Intelligence.to_string(), "intelligence");
    assert_eq!(AbilityKind::Wisdom.to_string(), "wisdom");
    assert_eq!(AbilityKind::Charisma.to_string(), "charisma");
}

#[test]
fn with_name_is_blank_but_the_name() {
    let c = Character::with_name(String::from("Tordek"));
    assert_eq!(c.name, "Tordek");
    assert_eq!(c.class, "");
    assert_eq!(c.race, "");
    assert_eq!(c.sub_class, "");
    assert_eq!(c.level, 0);
    assert_eq!(c.armor_class, 0);
    assert_eq!(c.max_hp, 0);
    assert_eq!(c.speed, 0);
    assert_eq!(c.rages, 0);
    assert_eq!(c.spell_slots, [0; 9]);
    assert!(c.spells.is_empty());
    assert!(c.languages.is_empty());
    assert!(c.proficiencies.is_empty());
    let kinds = [
        AbilityKind::Strength,
        AbilityKind::Dexterity,
        AbilityKind::Constitution,
        AbilityKind::Intelligence,
        AbilityKind::Wisdom,
        AbilityKind::Charisma,
    ];
    for (ability, kind) in c.abilities.iter().zip(kinds.iter()) {
        assert!(ability.name == *kind);
        assert_eq!(ability.score, 0);
        assert_eq!(ability.proficiencies, kind.proficiencies());
    }
}

#[test]
fn default_character_has_no_name() {
    let c = Character::default();
    assert_eq!(c.name, "");
    assert_eq!(c.abilities[3].proficiencies.len(), 5);
}

#[test]
fn notes_template_names_the_character() {
    let text = notes_template("Mialee");
    assert_eq!(
        text,
        "# Mialee\nThanks for using Campaign!\n\nAs you are creating you character be sure to flesh out the following characterisitics for your character:\n- age:\n- appearence:\n- history:\n- motivations:\n"
    );
}
