//! Saving throws and skills, and the rows the skills are laid out in.
use vstd::prelude::*;
use crate::modifiers::{find_modifier, lookup_modifier, modifier_views, CalculatedScoreModifier, ModifierModel};
use crate::sheet::{CharacterSavingThrows, CharacterSkills};

verus! {

/// How many skills one display row holds.
pub const SKILL_ROW_LEN: usize = 16;

#[derive(Debug, Clone, PartialEq, Eq)]
pub struct CalculatedSavingThrow {
    pub key: String,
    pub value: i64,
    pub proficient: bool,
}

pub struct SavingThrowModel {
    pub key: Seq<char>,
    pub value: int,
    pub proficient: bool,
}

impl View for CalculatedSavingThrow {
    type V = SavingThrowModel;

    open spec fn view(&self) -> SavingThrowModel {
        SavingThrowModel { key: self.key@, value: self.value as int, proficient: self.proficient }
    }
}

#[derive(Debug, Clone, PartialEq, Eq)]
pub struct CalculatedSkill {
    pub key: String,
    pub score_key: String,
    pub value: i64,
    pub proficient: bool,
}

pub struct SkillModel {
    pub key: Seq<char>,
    pub score_key: Seq<char>,
    pub value: int,
    pub proficient: bool,
}

impl View for CalculatedSkill {
    type V = SkillModel;

    open spec fn view(&self) -> SkillModel {
        SkillModel { key: self.key@, score_key: self.score_key@, value: self.value as int, proficient: self.proficient }
    }
}

pub open spec fn saving_throw_views(s: Seq<CalculatedSavingThrow>) -> Seq<SavingThrowModel> {
    s.map_values(|t: CalculatedSavingThrow| t@)
}

pub open spec fn skill_views(s: Seq<CalculatedSkill>) -> Seq<SkillModel> {
    s.map_values(|t: CalculatedSkill| t@)
}

pub open spec fn skill_row_views(rows: Seq<Vec<CalculatedSkill>>) -> Seq<Seq<SkillModel>> {
    rows.map_values(|row: Vec<CalculatedSkill>| skill_views(row@))
}

/// The modifier of the ability, plus the proficiency bonus where proficient.
pub open spec fn check_value(mods: Seq<ModifierModel>, key: Seq<char>, proficient: bool, proficiency: int) -> int {
    lookup_modifier(mods, key) + if proficient { proficiency } else { 0 }
}

pub open spec fn saving_throws_model(
    throws: Seq<CharacterSavingThrows>,
    mods: Seq<ModifierModel>,
    proficiency: int,
) -> Seq<SavingThrowModel> {
    Seq::new(
        throws.len(),
        |i: int|
            SavingThrowModel {
                key: throws[i].key@,
                value: check_value(mods, throws[i].key@, throws[i].proficient, proficiency),
                proficient: throws[i].proficient,
            },
    )
}

pub open spec fn skills_model(skills: Seq<CharacterSkills>, mods: Seq<ModifierModel>, proficiency: int) -> Seq<SkillModel> {
    Seq::new(
        skills.len(),
        |i: int|
            SkillModel {
                key: skills[i].key@,
                score_key: skills[i].score_key@,
                value: check_value(mods, skills[i].score_key@, skills[i].proficient, proficiency),
                proficient: skills[i].proficient,
            },
    )
}

/// How many rows `n` entries take: n / 16, rounded up.
pub open spec fn row_count(n: int) -> int {
    (n + SKILL_ROW_LEN - 1) / SKILL_ROW_LEN as int
}

/// Consecutive rows of 16 entries, the last one possibly shorter.
pub open spec fn rows_model<T>(s: Seq<T>) -> Seq<Seq<T>> {
    Seq::new(
        row_count(s.len() as int) as nat,
        |k: int|
            s.subrange(
                k * SKILL_ROW_LEN,
                if (k + 1) * SKILL_ROW_LEN <= s.len() { (k + 1) * SKILL_ROW_LEN } else { s.len() as int },
            ),
    )
}

fn check_total(mods: &Vec<CalculatedScoreModifier>, key: &String, proficient: bool, proficiency: i32) -> (r: i64)
    ensures
        r as int == check_value(modifier_views(mods@), key@, proficient, proficiency as int),
{
    let m = find_modifier(mods, key) as i64;
    if proficient { m + proficiency as i64 } else { m }
}

/// Each saving throw's total, in order.
pub fn compute_saving_throws(
    throws: &Vec<CharacterSavingThrows>,
    mods: &Vec<CalculatedScoreModifier>,
    proficiency: i32,
) -> (r: Vec<CalculatedSavingThrow>)
    ensures
        saving_throw_views(r@) == saving_throws_model(throws@, modifier_views(mods@), proficiency as int),
{
    let ghost model = saving_throws_model(throws@, modifier_views(mods@), proficiency as int);
    let mut r: Vec<CalculatedSavingThrow> = Vec::new();
    let mut i: usize = 0;
    while i < throws.len()
        invariant
            i <= throws@.len(),
            saving_throw_views(r@) == model.take(i as int),
            model == saving_throws_model(throws@, modifier_views(mods@), proficiency as int),
        decreases throws@.len() - i,
    {
        let t = &throws[i];
        let c = CalculatedSavingThrow {
            key: t.key.clone(),
            value: check_total(mods, &t.key, t.proficient, proficiency),
            proficient: t.proficient,
        };
        let ghost prev = r@;
        r.push(c);
        proof {
            assert(saving_throw_views(r@) =~= saving_throw_views(prev).push(c@));
            assert(model.take(i + 1) =~= model.take(i as int).push(c@));
        }
        i = i + 1;
    }
    proof {
        assert(model.take(i as int) =~= model);
    }
    r
}

/// Each skill's total, in order.
pub fn compute_skills(
    skills: &Vec<CharacterSkills>,
    mods: &Vec<CalculatedScoreModifier>,
    proficiency: i32,
) -> (r: Vec<CalculatedSkill>)
    ensures
        skill_views(r@) == skills_model(skills@, modifier_views(mods@), proficiency as int),
{
    let ghost model = skills_model(skills@, modifier_views(mods@), proficiency as int);
    let mut r: Vec<CalculatedSkill> = Vec::new();
    let mut i: usize = 0;
    while i < skills.len()
        invariant
            i <= skills@.len(),
            skill_views(r@) == model.take(i as int),
            model == skills_model(skills@, modifier_views(mods@), proficiency as int),
        decreases skills@.len() - i,
    {
        let t = &skills[i];
        let c = CalculatedSkill {
            key: t.key.clone(),
            score_key: t.score_key.clone(),
            value: check_total(mods, &t.score_key, t.proficient, proficiency),
            proficient: t.proficient,
        };
        let ghost prev = r@;
        r.push(c);
        proof {
            assert(skill_views(r@) =~= skill_views(prev).push(c@));
            assert(model.take(i + 1) =~= model.take(i as int).push(c@));
        }
        i = i + 1;
    }
    proof {
        assert(model.take(i as int) =~= model);
    }
    r
}

fn copy_skill(s: &CalculatedSkill) -> (r: CalculatedSkill)
    ensures
        r@ == s@,
{
    CalculatedSkill { key: s.key.clone(), score_key: s.score_key.clone(), value: s.value, proficient: s.proficient }
}

/// The skills split into rows of 16, in order; the last row may be shorter.
pub fn skill_rows(skills: &Vec<CalculatedSkill>) -> (r: Vec<Vec<CalculatedSkill>>)
    ensures
        skill_row_views(r@) == rows_model(skill_views(skills@)),
{
    let ghost model = rows_model(skill_views(skills@));
    let n = skills.len();
    let mut rows: Vec<Vec<CalculatedSkill>> = Vec::new();
    let mut start: usize = 0;
    while start < n
        invariant
            n == skills@.len(),
            start <= n,
            start < n ==> start == rows@.len() * SKILL_ROW_LEN,
            start == n ==> rows@.len() == row_count(n as int),
            model == rows_model(skill_views(skills@)),
            skill_row_views(rows@) == model.take(rows@.len() as int),
        decreases n - start,
    {
        let end: usize = if n - start >= SKILL_ROW_LEN { start + SKILL_ROW_LEN } else { n };
        let mut row: Vec<CalculatedSkill> = Vec::new();
        let mut j: usize = start;
        while j < end
            invariant
                n == skills@.len(),
                start <= j <= end <= n,
                skill_views(row@) == skill_views(skills@).subrange(start as int, j as int),
            decreases end - j,
        {
            let ghost prev = row@;
            let c = copy_skill(&skills[j]);
            row.push(c);
            proof {
                assert(skill_views(row@) =~= skill_views(prev).push(c@));
                assert(skill_views(skills@).subrange(start as int, j + 1)
                    =~= skill_views(skills@).subrange(start as int, j as int).push(c@));
            }
            j = j + 1;
        }
        let ghost prev_rows = rows@;
        rows.push(row);
        proof {
            let k = prev_rows.len() as int;
            assert(row_count(n as int) > k);
            assert(end == n ==> row_count(n as int) == k + 1);
            assert(model[k] == skill_views(row@));
            assert(skill_row_views(rows@) =~= skill_row_views(prev_rows).push(skill_views(row@)));
            assert(model.take(k + 1) =~= model.take(k).push(skill_views(row@)));
        }
        start = end;
    }
    proof {
        if n == 0 {
            assert(row_count(0) == 0);
        }
        let k = rows@.len() as int;
        assert(model.take(k) =~= model);
    }
    rows
}

} // verus!
