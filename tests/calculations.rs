use sheetgen::actions::{calculate_action, compute_actions, CalculatedAction};
use sheetgen::checks::{compute_saving_throws, compute_skills, skill_rows, CalculatedSkill};
use sheetgen::equipment::{format_equipment, format_features};
use sheetgen::modifiers::{compute_score_modifiers, find_modifier, score_modifier, CalculatedScoreModifier};
use sheetgen::notes::{footnote_key, Tooltip};
use sheetgen::report::build_report;
use sheetgen::sheet::{
    CharacterAction, CharacterEquipment, CharacterFeatures, CharacterHealth, CharacterMetadata, CharacterMoney,
    CharacterSavingThrows, CharacterScores, CharacterSheet, CharacterSkills, CharacterSpeeds,
};
use sheetgen::text::{decimal_string, with_bonus};

fn metadata(proficiency_bonus: i32, rage_bonus: Option<i32>) -> CharacterMetadata {
    CharacterMetadata {
        name: "Grog".to_string(),
        class: "Barbarian".to_string(),
        level: 5,
        race: "Goliath".to_string(),
        alignment: "Chaotic Good".to_string(),
        background: "Outlander".to_string(),
        player_name: "Travis".to_string(),
        proficiency_bonus,
        initiative: 2,
        passive_perception: 11,
        rage_bonus,
    }
}

fn score(key: &str, value: i32) -> CharacterScores {
    CharacterScores { key: key.to_string(), value }
}

fn action(bonus_block: Option<&str>, damage: Option<&str>, magic: Option<bool>, text: &str) -> CharacterAction {
    CharacterAction {
        action_type: "Melee".to_string(),
        name: "Axe".to_string(),
        bonus_block: bonus_block.map(|s| s.to_string()),
        proficient: None,
        damage: damage.map(|s| s.to_string()),
        dmg_type: Some("slashing".to_string()),
        magic_bonus: magic,
        text: text.to_string(),
    }
}

fn skill(key: &str) -> CharacterSkills {
    CharacterSkills { key: key.to_string(), score_key: "dex".to_string(), proficient: false }
}

fn calculated_skills(n: usize) -> Vec<CalculatedSkill> {
    let skills: Vec<CharacterSkills> = (0..n).map(|i| skill(&format!("skill{i}"))).collect();
    compute_skills(&skills, &compute_score_modifiers(&vec![score("dex", 14)]), 2)
}

fn sample_sheet() -> CharacterSheet {
    CharacterSheet {
        metadata: metadata(3, Some(2)),
        scores: vec![score("str", 17), score("dex", 12), score("con", 15)],
        speeds: CharacterSpeeds { walking: 30, swimming: None, climbing: Some(15) },
        health: CharacterHealth { max: 55, current: 40, temp: 0, dice: "5d12".to_string() },
        actions: vec![
            action(Some("str"), Some("1d12"), Some(true), "Heavy *two-handed* weapon."),
            action(None, None, None, ""),
            action(Some("dex"), Some("1d4"), None, "Thrown"),
        ],
        equipment: vec![
            CharacterEquipment { name: "Rope".to_string(), amount: Some(1), text: Some("50 feet".to_string()) },
            CharacterEquipment { name: "Torch".to_string(), amount: Some(5), text: None },
            CharacterEquipment { name: "Ration".to_string(), amount: None, text: Some(String::new()) },
            CharacterEquipment { name: "Map".to_string(), amount: None, text: Some("Of the **coast**".to_string()) },
        ],
        money: CharacterMoney { cp: Some(3), sp: None, ep: None, gp: Some(12), pp: None },
        features: vec![CharacterFeatures { title: "Rage".to_string(), text: "Advantage on *Strength* checks.".to_string() }],
        saving_throws: vec![
            CharacterSavingThrows { key: "str".to_string(), proficient: true },
            CharacterSavingThrows { key: "wis".to_string(), proficient: false },
        ],
        skills: (0..17).map(|i| skill(&format!("skill{i}"))).collect(),
    }
}

#[test]
fn modifier_floors_toward_negative_infinity() {
    assert_eq!(score_modifier(10), 0);
    assert_eq!(score_modifier(11), 0);
    assert_eq!(score_modifier(8), -1);
    assert_eq!(score_modifier(20), 5);
    assert_eq!(score_modifier(7), -2);
    assert_eq!(score_modifier(9), -1);
    assert_eq!(score_modifier(1), -5);
}

#[test]
fn modifier_at_the_ends_of_the_range() {
    assert_eq!(score_modifier(i32::MAX), 1073741818);
    assert_eq!(score_modifier(i32::MIN), -1073741829);
}

#[test]
fn modifiers_keep_input_order() {
    let mods = compute_score_modifiers(&vec![score("str", 16), score("dex", 7), score("int", 10)]);
    assert_eq!(
        mods,
        vec![
            CalculatedScoreModifier { name: "str".to_string(), total: 16, modifier: 3 },
            CalculatedScoreModifier { name: "dex".to_string(), total: 7, modifier: -2 },
            CalculatedScoreModifier { name: "int".to_string(), total: 10, modifier: 0 },
        ]
    );
    assert!(compute_score_modifiers(&vec![]).is_empty());
}

#[test]
fn unknown_key_falls_back_to_zero() {
    let mods = compute_score_modifiers(&vec![score("str", 18), score("dex", 8)]);
    assert_eq!(find_modifier(&mods, &"dex".to_string()), -1);
    assert_eq!(find_modifier(&mods, &"cha".to_string()), 0);
    assert_eq!(find_modifier(&vec![], &"str".to_string()), 0);
}

#[test]
fn sixteen_skills_make_one_row() {
    let rows = skill_rows(&calculated_skills(16));
    assert_eq!(rows.len(), 1);
    assert_eq!(rows[0].len(), 16);
}

#[test]
fn seventeen_skills_make_two_rows() {
    let skills = calculated_skills(17);
    let rows = skill_rows(&skills);
    assert_eq!(rows.iter().map(|r| r.len()).collect::<Vec<_>>(), vec![16, 1]);
    assert_eq!(rows[1][0], skills[16]);
    assert_eq!(rows[0][..], skills[..16]);
}

#[test]
fn no_skills_make_no_rows() {
    assert!(skill_rows(&calculated_skills(0)).is_empty());
}

#[test]
fn thirty_three_skills_make_three_rows() {
    let rows = skill_rows(&calculated_skills(33));
    assert_eq!(rows.iter().map(|r| r.len()).collect::<Vec<_>>(), vec![16, 16, 1]);
}

#[test]
fn skill_values_use_their_score_key() {
    let mods = compute_score_modifiers(&vec![score("dex", 14), score("wis", 9)]);
    let skills = vec![
        CharacterSkills { key: "stealth".to_string(), score_key: "dex".to_string(), proficient: true },
        CharacterSkills { key: "insight".to_string(), score_key: "wis".to_string(), proficient: false },
        CharacterSkills { key: "arcana".to_string(), score_key: "int".to_string(), proficient: true },
    ];
    let r = compute_skills(&skills, &mods, 3);
    assert_eq!(r.iter().map(|s| s.value).collect::<Vec<_>>(), vec![5, -1, 3]);
    assert_eq!(r[0].score_key, "dex");
    assert!(r[2].proficient);
}

#[test]
fn textless_action_gets_no_footnote() {
    let mods = compute_score_modifiers(&vec![score("str", 16)]);
    let mut tooltips = vec![Tooltip { key: "x".to_string(), text: "y".to_string() }];
    let r = compute_actions(&vec![action(Some("str"), None, None, "")], &mods, &metadata(2, None), &mut tooltips);
    assert_eq!(r[0].text, "");
    assert_eq!(tooltips, vec![Tooltip { key: "x".to_string(), text: "y".to_string() }]);
}

#[test]
fn two_noted_actions_are_keyed_in_order() {
    let mods = compute_score_modifiers(&vec![score("str", 16)]);
    let mut tooltips = vec![];
    let actions = vec![action(None, None, None, "First"), action(None, None, None, "Second *one*")];
    let r = compute_actions(&actions, &mods, &metadata(2, None), &mut tooltips);
    assert_eq!(r[0].text, "a1");
    assert_eq!(r[1].text, "a2");
    assert_eq!(
        tooltips,
        vec![
            Tooltip { key: "a1".to_string(), text: markdown::to_html("First") },
            Tooltip { key: "a2".to_string(), text: markdown::to_html("Second *one*") },
        ]
    );
    assert_ne!(tooltips[1].text, "Second *one*");
}

#[test]
fn proficient_saving_throw_adds_the_bonus() {
    let mods = compute_score_modifiers(&vec![score("con", 15), score("wis", 8)]);
    let throws = vec![
        CharacterSavingThrows { key: "con".to_string(), proficient: true },
        CharacterSavingThrows { key: "wis".to_string(), proficient: false },
        CharacterSavingThrows { key: "cha".to_string(), proficient: true },
    ];
    let r = compute_saving_throws(&throws, &mods, 3);
    assert_eq!(r.iter().map(|t| t.value).collect::<Vec<_>>(), vec![5, -1, 3]);
    assert_eq!(r[0].key, "con");
}

#[test]
fn magic_strength_action_with_rage() {
    let mods = compute_score_modifiers(&vec![score("str", 16)]);
    let a = action(Some("str"), Some("1d8"), Some(true), "");
    let r = calculate_action(&a, &mods, &metadata(2, Some(2)), String::new());
    assert_eq!(r.damage.as_deref(), Some("1d8+4"));
    assert_eq!(r.rage_damage.as_deref(), Some("1d8+6"));
    assert_eq!(r.atk_bonus, 4);
}

#[test]
fn proficient_action_adds_bonus_to_attack_only() {
    let mods = compute_score_modifiers(&vec![score("str", 16)]);
    let mut a = action(Some("str"), Some("2d6"), None, "");
    a.proficient = Some(true);
    let r = calculate_action(&a, &mods, &metadata(3, None), String::new());
    assert_eq!(r.atk_bonus, 6);
    assert_eq!(r.damage.as_deref(), Some("2d6+3"));
    assert_eq!(r.rage_damage.as_deref(), Some("2d6+3"));
}

#[test]
fn action_without_bonus_block() {
    let mods = compute_score_modifiers(&vec![score("str", 16)]);
    let a = action(None, Some("1d4"), None, "");
    let r = calculate_action(&a, &mods, &metadata(2, Some(2)), String::new());
    assert_eq!(r.damage.as_deref(), Some("1d4+0"));
    assert_eq!(r.rage_damage, None);
    assert_eq!(r.atk_bonus, 0);
}

#[test]
fn action_without_damage_has_no_expressions() {
    let mods = compute_score_modifiers(&vec![score("str", 16)]);
    let a = action(Some("str"), None, Some(true), "");
    let r = calculate_action(&a, &mods, &metadata(2, Some(2)), "a7".to_string());
    assert_eq!(
        r,
        CalculatedAction {
            action_type: "Melee".to_string(),
            name: "Axe".to_string(),
            damage: None,
            rage_damage: None,
            atk_bonus: 4,
            dmg_type: Some("slashing".to_string()),
            text: "a7".to_string(),
        }
    );
}

#[test]
fn negative_damage_bonus_is_written_as_is() {
    let mods = compute_score_modifiers(&vec![score("dex", 8)]);
    let a = action(Some("dex"), Some("1d6"), None, "");
    let r = calculate_action(&a, &mods, &metadata(2, None), String::new());
    assert_eq!(r.damage.as_deref(), Some("1d6+-1"));
    assert_eq!(r.rage_damage, None);
}

#[test]
fn rage_bonus_needs_the_exact_key_str() {
    let mods = compute_score_modifiers(&vec![score("STR", 16)]);
    let a = action(Some("STR"), Some("1d8"), None, "");
    let r = calculate_action(&a, &mods, &metadata(2, Some(2)), String::new());
    assert_eq!(r.damage.as_deref(), Some("1d8+3"));
    assert_eq!(r.rage_damage, None);
}

#[test]
fn equipment_keys_follow_action_keys() {
    let mut tooltips = vec![Tooltip { key: "a1".to_string(), text: "x".to_string() }];
    let items = vec![
        CharacterEquipment { name: "Rope".to_string(), amount: Some(1), text: Some("50 feet".to_string()) },
        CharacterEquipment { name: "Torch".to_string(), amount: Some(5), text: None },
        CharacterEquipment { name: "Ration".to_string(), amount: None, text: Some(String::new()) },
        CharacterEquipment { name: "Map".to_string(), amount: None, text: Some("Of the **coast**".to_string()) },
    ];
    let r = format_equipment(&items, &mut tooltips);
    assert_eq!(r.iter().map(|e| e.text.as_str()).collect::<Vec<_>>(), vec!["e1", "", "", "e2"]);
    assert_eq!(r[1].amount, Some(5));
    assert_eq!(r[3].name, "Map");
    assert_eq!(
        tooltips,
        vec![
            Tooltip { key: "a1".to_string(), text: "x".to_string() },
            Tooltip { key: "e1".to_string(), text: markdown::to_html("50 feet") },
            Tooltip { key: "e2".to_string(), text: markdown::to_html("Of the **coast**") },
        ]
    );
}

#[test]
fn features_are_rendered_in_place() {
    let features = vec![CharacterFeatures { title: "Rage".to_string(), text: "*Angry*".to_string() }];
    let r = format_features(&features);
    assert_eq!(r[0].title, "Rage");
    assert_eq!(r[0].text, markdown::to_html("*Angry*"));
    assert_ne!(r[0].text, "*Angry*");
}

#[test]
fn whole_report_of_a_sheet() {
    let r = build_report(&sample_sheet());
    assert_eq!(r.calculated_score_modifier.iter().map(|m| m.modifier).collect::<Vec<_>>(), vec![3, 1, 2]);
    assert_eq!(r.calculated_action[0].damage.as_deref(), Some("1d12+4"));
    assert_eq!(r.calculated_action[0].rage_damage.as_deref(), Some("1d12+6"));
    assert_eq!(r.calculated_action[0].atk_bonus, 4);
    assert_eq!(r.calculated_action.iter().map(|a| a.text.as_str()).collect::<Vec<_>>(), vec!["a1", "", "a2"]);
    assert_eq!(r.calculated_action[2].damage.as_deref(), Some("1d4+1"));
    assert_eq!(r.calculated_action[2].rage_damage, None);
    assert_eq!(r.calculated_saving_throw.iter().map(|t| t.value).collect::<Vec<_>>(), vec![6, 0]);
    assert_eq!(r.calculated_skill_rows.iter().map(|row| row.len()).collect::<Vec<_>>(), vec![16, 1]);
    assert_eq!(r.formatted_equipment.iter().map(|e| e.text.as_str()).collect::<Vec<_>>(), vec!["e1", "", "", "e2"]);
    assert_eq!(r.tooltips.iter().map(|t| t.key.as_str()).collect::<Vec<_>>(), vec!["a1", "a2", "e1", "e2"]);
    assert_eq!(r.formatted_feats[0].text, markdown::to_html("Advantage on *Strength* checks."));
}

#[test]
fn report_is_the_same_on_every_run() {
    let sheet = sample_sheet();
    let first = build_report(&sheet);
    let second = build_report(&sheet.clone());
    assert_eq!(first, second);
}

#[test]
fn decimal_forms() {
    assert_eq!(decimal_string(0), "0");
    assert_eq!(decimal_string(42), "42");
    assert_eq!(decimal_string(-7), "-7");
    assert_eq!(decimal_string(i64::MAX), "9223372036854775807");
    assert_eq!(decimal_string(i64::MIN), "-9223372036854775808");
    assert_eq!(with_bonus(&"2d6".to_string(), 10), "2d6+10");
}

#[test]
fn footnote_keys() {
    assert_eq!(footnote_key("a", 1), "a1");
    assert_eq!(footnote_key("e", 12), "e12");
}
