//! Ability modifiers, and their lookup by ability key.
use vstd::prelude::*;
use crate::sheet::CharacterScores;

verus! {

/// floor((value - 10) / 2); `/` on `int` rounds toward negative infinity.
pub open spec fn modifier_of(value: int) -> int {
    (value - 10) / 2
}

/// An ability score together with its modifier.
#[derive(Debug, Clone, PartialEq, Eq)]
pub struct CalculatedScoreModifier {
    pub name: String,
    pub total: i32,
    pub modifier: i32,
}

pub struct ModifierModel {
    pub name: Seq<char>,
    pub total: int,
    pub modifier: int,
}

impl View for CalculatedScoreModifier {
    type V = ModifierModel;

    open spec fn view(&self) -> ModifierModel {
        ModifierModel { name: self.name@, total: self.total as int, modifier: self.modifier as int }
    }
}

pub open spec fn modifier_views(s: Seq<CalculatedScoreModifier>) -> Seq<ModifierModel> {
    s.map_values(|m: CalculatedScoreModifier| m@)
}

/// The modifier of each score, in the same order.
pub open spec fn modifiers_model(scores: Seq<CharacterScores>) -> Seq<ModifierModel> {
    Seq::new(
        scores.len(),
        |i: int|
            ModifierModel {
                name: scores[i].key@,
                total: scores[i].value as int,
                modifier: modifier_of(scores[i].value as int),
            },
    )
}

/// The modifier of the first entry named `key`, or 0 where none is.
pub open spec fn lookup_modifier(mods: Seq<ModifierModel>, key: Seq<char>) -> int
    decreases mods.len(),
{
    if mods.len() == 0 {
        0
    } else if mods[0].name == key {
        mods[0].modifier
    } else {
        lookup_modifier(mods.drop_first(), key)
    }
}

/// The modifier of an ability score.
pub fn score_modifier(value: i32) -> (r: i32)
    ensures
        r as int == modifier_of(value as int),
{
    let d: i64 = value as i64 - 10;
    if d >= 0 {
        (d / 2) as i32
    } else {
        (-((1 - d) / 2)) as i32
    }
}

/// One modifier per score, in input order.
pub fn compute_score_modifiers(scores: &Vec<CharacterScores>) -> (r: Vec<CalculatedScoreModifier>)
    ensures
        modifier_views(r@) == modifiers_model(scores@),
{
    let mut r: Vec<CalculatedScoreModifier> = Vec::new();
    let mut i: usize = 0;
    while i < scores.len()
        invariant
            i <= scores@.len(),
            modifier_views(r@) == modifiers_model(scores@).take(i as int),
        decreases scores@.len() - i,
    {
        let s = &scores[i];
        let m = CalculatedScoreModifier { name: s.key.clone(), total: s.value, modifier: score_modifier(s.value) };
        let ghost prev = r@;
        r.push(m);
        proof {
            assert(modifier_views(r@) =~= modifier_views(prev).push(m@));
            assert(modifiers_model(scores@).take(i + 1) =~= modifiers_model(scores@).take(i as int).push(m@));
        }
        i = i + 1;
    }
    proof {
        assert(modifiers_model(scores@).take(i as int) =~= modifiers_model(scores@));
    }
    r
}

/// The modifier named `key`, or 0 where no entry has that name.
pub fn find_modifier(mods: &Vec<CalculatedScoreModifier>, key: &String) -> (r: i32)
    ensures
        r as int == lookup_modifier(modifier_views(mods@), key@),
{
    let mut i: usize = 0;
    proof {
        assert(modifier_views(mods@).skip(0) =~= modifier_views(mods@));
    }
    while i < mods.len()
        invariant
            i <= mods@.len(),
            lookup_modifier(modifier_views(mods@), key@)
                == lookup_modifier(modifier_views(mods@).skip(i as int), key@),
        decreases mods@.len() - i,
    {
        proof {
            let rest = modifier_views(mods@).skip(i as int);
            assert(rest.drop_first() =~= modifier_views(mods@).skip(i + 1));
        }
        if mods[i].name == *key {
            return mods[i].modifier;
        }
        i = i + 1;
    }
    0
}

} // verus!
