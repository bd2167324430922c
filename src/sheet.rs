//! The character document as the library receives it.
use vstd::prelude::*;

verus! {

/// Everything a character document holds.
#[derive(Debug, Clone)]
pub struct CharacterSheet {
    pub metadata: CharacterMetadata,
    pub scores: Vec<CharacterScores>,
    pub speeds: CharacterSpeeds,
    pub health: CharacterHealth,
    pub actions: Vec<CharacterAction>,
    pub equipment: Vec<CharacterEquipment>,
    pub money: CharacterMoney,
    pub features: Vec<CharacterFeatures>,
    pub saving_throws: Vec<CharacterSavingThrows>,
    pub skills: Vec<CharacterSkills>,
}

/// Who the character is, and the flat bonuses that the calculations add.
#[derive(Debug, Clone)]
pub struct CharacterMetadata {
    pub name: String,
    pub class: String,
    pub level: i64,
    pub race: String,
    pub alignment: String,
    pub background: String,
    pub player_name: String,
    pub proficiency_bonus: i32,
    pub initiative: i64,
    pub passive_perception: i64,
    pub rage_bonus: Option<i32>,
}

/// One raw ability score, such as `str` 16.
#[derive(Debug, Clone)]
pub struct CharacterScores {
    pub key: String,
    pub value: i32,
}

#[derive(Debug, Clone)]
pub struct CharacterSpeeds {
    pub walking: i64,
    pub swimming: Option<i64>,
    pub climbing: Option<i64>,
}

#[derive(Debug, Clone)]
pub struct CharacterHealth {
    pub max: i64,
    pub current: i64,
    pub temp: i64,
    pub dice: String,
}

/// An attack or other action; `bonus_block` names the ability score it uses.
#[derive(Debug, Clone)]
pub struct CharacterAction {
    pub action_type: String,
    pub name: String,
    pub bonus_block: Option<String>,
    pub proficient: Option<bool>,
    pub damage: Option<String>,
    pub dmg_type: Option<String>,
    pub magic_bonus: Option<bool>,
    pub text: String,
}

#[derive(Debug, Clone)]
pub struct CharacterEquipment {
    pub name: String,
    pub amount: Option<i64>,
    pub text: Option<String>,
}

#[derive(Debug, Clone)]
pub struct CharacterMoney {
    pub cp: Option<i64>,
    pub sp: Option<i64>,
    pub ep: Option<i64>,
    pub gp: Option<i64>,
    pub pp: Option<i64>,
}

#[derive(Debug, Clone)]
pub struct CharacterFeatures {
    pub title: String,
    pub text: String,
}

#[derive(Debug, Clone)]
pub struct CharacterSavingThrows {
    pub key: String,
    pub proficient: bool,
}

/// A skill, resolved through the ability score named by `score_key`.
#[derive(Debug, Clone)]
pub struct CharacterSkills {
    pub key: String,
    pub score_key: String,
    pub proficient: bool,
}

/// An optional flag that is set only when present and true.
pub open spec fn flag_set(f: Option<bool>) -> bool {
    f == Some(true)
}

/// The view of an optional string.
pub open spec fn opt_view(o: Option<String>) -> Option<Seq<char>> {
    match o {
        Some(s) => Some(s@),
        None => None,
    }
}

/// A copy of an optional string.
pub fn copy_opt(o: &Option<String>) -> (r: Option<String>)
    ensures
        r == *o,
{
    match o {
        Some(s) => Some(s.clone()),
        None => None,
    }
}

} // verus!
