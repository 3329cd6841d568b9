use campaign::session::{InputType, Tab};
use campaign::types::{Ability, AbilityKind, Character, Item, Spell, Status};
use campaign::view::{
    ability_modifier, ability_title, class_section_height, coin_title,
    color_for_damage_percent_lost, decimal_text, HealthColor,
    header_fields, item_row, join_with_spaces, proficiency_marks, signed_decimal_text,
    notes_scroll_length, spell_level_label, spell_row, tab_content_height, tab_index, tab_titles,
    temp_health_bar, to_roman_numerals,
};

#[test]
fn roman_numerals_one_to_nine() {
    let expected = ["I", "II", "III", "IV", "V", "VI", "VII", "VIII", "IX"];
    for n in 1..10 {
        assert_eq!(to_roman_numerals(n), expected[n - 1]);
    }
}

#[test]
fn spell_levels() {
    assert_eq!(spell_level_label(0), "C");
    assert_eq!(spell_level_label(3), "III");
    assert_eq!(spell_level_label(9), "IX");
}

#[test]
fn decimals() {
    assert_eq!(decimal_text(0), "0");
    assert_eq!(decimal_text(7), "7");
    assert_eq!(decimal_text(250), "250");
    assert_eq!(decimal_text(18446744073709551615), "18446744073709551615");
    assert_eq!(signed_decimal_text(-5), "-5");
    assert_eq!(signed_decimal_text(-32768), "-32768");
    assert_eq!(signed_decimal_text(12), "12");
}

#[test]
fn modifiers_round_toward_zero() {
    assert_eq!(ability_modifier(10), 0);
    assert_eq!(ability_modifier(11), 0);
    assert_eq!(ability_modifier(9), 0);
    assert_eq!(ability_modifier(8), -1);
    assert_eq!(ability_modifier(18), 4);
    assert_eq!(ability_modifier(0), -5);
    assert_eq!(ability_modifier(255), 122);
}

#[test]
fn ability_titles() {
    let a = Ability { name: AbilityKind::Wisdom, score: 6, proficiencies: vec![] };
    assert_eq!(ability_title(&a), " wisdom : -2 ");
    let b = Ability { name: AbilityKind::Strength, score: 14, proficiencies: vec![] };
    assert_eq!(ability_title(&b), " strength : 2 ");
}

#[test]
fn proficiency_marks_follow_the_sheet() {
    let a = Ability {
        name: AbilityKind::Charisma,
        score: 12,
        proficiencies: vec!["persuassion".to_string(), "stealth".to_string()],
    };
    let marks = proficiency_marks(&a);
    let expected = vec![
        ("deception".to_string(), false),
        ("intimidation".to_string(), false),
        ("performance".to_string(), false),
        ("persuassion".to_string(), true),
    ];
    assert_eq!(marks, expected);
}

#[test]
fn temp_hp_bars() {
    assert_eq!(temp_health_bar(0), "");
    assert_eq!(temp_health_bar(1), "█");
    assert_eq!(temp_health_bar(3), "█ █ █");
    let seventeen = vec!["█"; 17].join(" ");
    assert_eq!(temp_health_bar(17), seventeen);
    assert_eq!(temp_health_bar(20), format!("{} +3", seventeen));
}

#[test]
fn rages_and_slots_left() {
    let mut c = Character::default();
    c.rages = 3;
    c.spell_slots[0] = 4;
    c.spell_slots[1] = 1;
    let mut s = Status::default();
    s.used_rages = 1;
    s.used_slots[0] = 2;
    s.used_slots[1] = 5;
    assert_eq!(s.remaining_rages(&c), 2);
    assert_eq!(s.available_slots(&c, 0), 2);
    assert_eq!(s.available_slots(&c, 1), 0);
    assert_eq!(s.available_slots(&c, 2), 0);
    s.used_rages = 9;
    assert_eq!(s.remaining_rages(&c), 0);
}

#[test]
fn class_features() {
    let mut c = Character::default();
    assert!(!c.has_rage());
    assert!(c.slot_total_fits());
    assert!(!c.has_magic());
    c.rages = 2;
    c.spell_slots[8] = 1;
    assert!(c.has_rage());
    assert!(c.has_magic());
    c.spell_slots = [200, 56, 0, 0, 0, 0, 0, 0, 0];
    assert!(!c.slot_total_fits());
    assert_eq!(class_section_height(false, false), 0);
    assert_eq!(class_section_height(true, false), 3);
    assert_eq!(class_section_height(false, true), 12);
    assert_eq!(class_section_height(true, true), 15);
}

#[test]
fn tabs() {
    assert_eq!(tab_titles(true), vec!["items", "spells", "notes"]);
    assert_eq!(tab_titles(false), vec!["items", "notes"]);
    assert_eq!(tab_index(Tab::Items, true), 0);
    assert_eq!(tab_index(Tab::Spells, true), 1);
    assert_eq!(tab_index(Tab::Notes, true), 2);
    assert_eq!(tab_index(Tab::Notes, false), 1);
}

#[test]
fn header() {
    let mut c = Character::with_name("Lidda".to_string());
    c.level = 5;
    c.race = "halfling".to_string();
    c.class = "rogue".to_string();
    c.sub_class = "thief".to_string();
    c.armor_class = 15;
    c.speed = 25;
    c.languages = vec!["common".to_string(), "halfling".to_string()];
    let mut s = Status::default();
    s.luck = 2;
    let fields = header_fields(&c, &s);
    let expected: Vec<(&str, String)> = vec![
        (" lvl ", "5".to_string()),
        (" race ", "halfling".to_string()),
        (" class ", "rogue".to_string()),
        (" sub-class ", "thief".to_string()),
        (" luck ", "2".to_string()),
        (" AC ", "15".to_string()),
        (" speed ", "25".to_string()),
        (" languages ", "common halfling".to_string()),
    ];
    assert_eq!(fields, expected);
    assert_eq!(join_with_spaces(&vec![]), "");
}

#[test]
fn coins_prompts_and_rows() {
    let titles: Vec<&str> = (0..5).map(coin_title).collect();
    assert_eq!(titles, vec![" C ", " S ", " E ", " G ", " P "]);
    assert_eq!(InputType::Damage.prompt(), "Damage");
    assert_eq!(InputType::Heal.prompt(), "Heal");
    assert_eq!(InputType::Cast.prompt(), "Cast Slot #");
    let spell = Spell { name: "light".to_string(), level: 0, description: "glow".to_string() };
    assert_eq!(spell_row(&spell), ("light".to_string(), "C".to_string(), "glow".to_string()));
    let item = Item { name: "torch".to_string(), count: 12, description: "".to_string() };
    assert_eq!(item_row(&item), ("torch".to_string(), "12".to_string(), String::new()));
}

fn float_band(percent_lost: f32) -> HealthColor {
    if percent_lost >= 0.90 {
        HealthColor::Red
    } else if percent_lost >= 0.75 {
        HealthColor::Yellow
    } else if percent_lost >= 0.50 {
        HealthColor::LightYellow
    } else if percent_lost != 0.0 {
        HealthColor::Green
    } else {
        HealthColor::LightGreen
    }
}

#[test]
fn health_color_matches_the_fraction_lost() {
    for damage in 0..=255u8 {
        for max_hp in 0..=255u8 {
            let fraction = damage as f32 / max_hp as f32;
            assert!(
                color_for_damage_percent_lost(damage, max_hp) == float_band(fraction),
                "{} / {}",
                damage,
                max_hp
            );
        }
    }
}

#[test]
fn health_colors() {
    assert!(color_for_damage_percent_lost(0, 20) == HealthColor::LightGreen);
    assert!(color_for_damage_percent_lost(1, 20) == HealthColor::Green);
    assert!(color_for_damage_percent_lost(10, 20) == HealthColor::LightYellow);
    assert!(color_for_damage_percent_lost(15, 20) == HealthColor::Yellow);
    assert!(color_for_damage_percent_lost(18, 20) == HealthColor::Red);
    assert!(color_for_damage_percent_lost(3, 0) == HealthColor::Red);
    assert!(color_for_damage_percent_lost(0, 0) == HealthColor::Green);
}

#[test]
fn tab_content_and_notes_scrolling() {
    assert_eq!(tab_content_height(0), 0);
    assert_eq!(tab_content_height(1), 0);
    assert_eq!(tab_content_height(20), 19);
    assert_eq!(notes_scroll_length(10, 10), None);
    assert_eq!(notes_scroll_length(3, 10), None);
    assert_eq!(notes_scroll_length(25, 10), Some(16));
    assert_eq!(notes_scroll_length(2, 1), Some(2));
}
