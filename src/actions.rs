//! Attack bonuses, damage expressions and footnotes of actions.
use vstd::prelude::*;
use crate::markup::{html_of, to_html};
use crate::modifiers::{find_modifier, lookup_modifier, modifier_views, CalculatedScoreModifier, ModifierModel};
use crate::notes::{footnote_key, note_key, push_tooltip, tooltip_views, Tooltip, TooltipModel};
use crate::sheet::{copy_opt, flag_set, opt_view, CharacterAction, CharacterMetadata};
use crate::text::{bonus_expr, with_bonus};

verus! {

/// An action with its bonuses worked out; `text` holds its footnote key or is empty.
#[derive(Debug, Clone, PartialEq, Eq)]
pub struct CalculatedAction {
    pub action_type: String,
    pub name: String,
    pub damage: Option<String>,
    pub rage_damage: Option<String>,
    pub atk_bonus: i64,
    pub dmg_type: Option<String>,
    pub text: String,
}

pub struct ActionModel {
    pub action_type: Seq<char>,
    pub name: Seq<char>,
    pub damage: Option<Seq<char>>,
    pub rage_damage: Option<Seq<char>>,
    pub atk_bonus: int,
    pub dmg_type: Option<Seq<char>>,
    pub text: Seq<char>,
}

impl View for CalculatedAction {
    type V = ActionModel;

    open spec fn view(&self) -> ActionModel {
        ActionModel {
            action_type: self.action_type@,
            name: self.name@,
            damage: opt_view(self.damage),
            rage_damage: opt_view(self.rage_damage),
            atk_bonus: self.atk_bonus as int,
            dmg_type: opt_view(self.dmg_type),
            text: self.text@,
        }
    }
}

pub open spec fn action_views(s: Seq<CalculatedAction>) -> Seq<ActionModel> {
    s.map_values(|a: CalculatedAction| a@)
}

/// The modifier of the ability the action names, 0 where it names none or an unknown one.
pub open spec fn block_modifier(a: CharacterAction, mods: Seq<ModifierModel>) -> int {
    match a.bonus_block {
        Some(b) => lookup_modifier(mods, b@),
        None => 0,
    }
}

pub open spec fn magic_of(a: CharacterAction) -> int {
    if flag_set(a.magic_bonus) { 1 } else { 0 }
}

/// Ability modifier, plus the proficiency bonus if proficient, plus 1 if magical.
pub open spec fn attack_bonus(a: CharacterAction, mods: Seq<ModifierModel>, proficiency: int) -> int {
    block_modifier(a, mods) + (if flag_set(a.proficient) { proficiency } else { 0 }) + magic_of(a)
}

/// Ability modifier, plus 1 if magical.
pub open spec fn damage_bonus(a: CharacterAction, mods: Seq<ModifierModel>) -> int {
    block_modifier(a, mods) + magic_of(a)
}

pub open spec fn rage_of(meta: CharacterMetadata) -> int {
    match meta.rage_bonus {
        Some(r) => r as int,
        None => 0,
    }
}

/// Whether the action is keyed to the ability `str`.
pub open spec fn is_strength_block(a: CharacterAction) -> bool {
    match a.bonus_block {
        Some(b) => b@ == seq!['s', 't', 'r'],
        None => false,
    }
}

/// The damage dice followed by the damage bonus.
pub open spec fn damage_expr(a: CharacterAction, mods: Seq<ModifierModel>) -> Option<Seq<char>> {
    match a.damage {
        Some(d) => Some(bonus_expr(d@, damage_bonus(a, mods))),
        None => None,
    }
}

/// For a strength action, the damage dice followed by the damage bonus plus the
/// rage bonus; absent for an action without damage or not keyed to `str`.
pub open spec fn rage_expr(a: CharacterAction, mods: Seq<ModifierModel>, rage: int) -> Option<Seq<char>> {
    match a.damage {
        Some(d) => if is_strength_block(a) {
            Some(bonus_expr(d@, damage_bonus(a, mods) + rage))
        } else {
            None
        },
        None => None,
    }
}

pub open spec fn action_model(
    a: CharacterAction,
    mods: Seq<ModifierModel>,
    meta: CharacterMetadata,
    note: Seq<char>,
) -> ActionModel {
    ActionModel {
        action_type: a.action_type@,
        name: a.name@,
        damage: damage_expr(a, mods),
        rage_damage: rage_expr(a, mods, rage_of(meta)),
        atk_bonus: attack_bonus(a, mods, meta.proficiency_bonus as int),
        dmg_type: opt_view(a.dmg_type),
        text: note,
    }
}

/// The footnotes that a run of actions adds, in order: one for each action with
/// text, keyed `a1`, `a2`, ...
pub open spec fn action_notes(actions: Seq<CharacterAction>) -> Seq<TooltipModel>
    decreases actions.len(),
{
    if actions.len() == 0 {
        seq![]
    } else {
        let prev = action_notes(actions.drop_last());
        let text = actions.last().text@;
        if text.len() == 0 {
            prev
        } else {
            prev.push(TooltipModel { key: note_key(seq!['a'], prev.len() + 1 as int), text: html_of(text) })
        }
    }
}

/// The footnote key of the `i`th action, empty where it has no text.
pub open spec fn action_ref(actions: Seq<CharacterAction>, i: int) -> Seq<char> {
    if actions[i].text@.len() == 0 {
        seq![]
    } else {
        note_key(seq!['a'], action_notes(actions.take(i)).len() + 1 as int)
    }
}

pub open spec fn actions_model(
    actions: Seq<CharacterAction>,
    mods: Seq<ModifierModel>,
    meta: CharacterMetadata,
) -> Seq<ActionModel> {
    Seq::new(actions.len(), |i: int| action_model(actions[i], mods, meta, action_ref(actions, i)))
}

fn is_strength_key(b: &String) -> (r: bool)
    ensures
        r == (b@ == seq!['s', 't', 'r']),
{
    let k = String::from_str("str");
    proof {
        reveal_strlit("str");
        assert(k@ =~= seq!['s', 't', 'r']);
    }
    *b == k
}

/// Works out one action, given the footnote key it was assigned.
pub fn calculate_action(
    a: &CharacterAction,
    mods: &Vec<CalculatedScoreModifier>,
    meta: &CharacterMetadata,
    note: String,
) -> (r: CalculatedAction)
    ensures
        r@ == action_model(*a, modifier_views(mods@), *meta, note@),
{
    let block: i64 = match &a.bonus_block {
        Some(b) => find_modifier(mods, b) as i64,
        None => 0,
    };
    let magic: i64 = if a.magic_bonus == Some(true) { 1 } else { 0 };
    let proficiency: i64 = if a.proficient == Some(true) { meta.proficiency_bonus as i64 } else { 0 };
    let dmg_bonus: i64 = block + magic;
    let strength = match &a.bonus_block {
        Some(b) => is_strength_key(b),
        None => false,
    };
    let rage: i64 = match meta.rage_bonus {
        Some(x) => x as i64,
        None => 0,
    };
    let (damage, rage_damage) = match &a.damage {
        Some(d) => {
            let rage_damage = if strength { Some(with_bonus(d, dmg_bonus + rage)) } else { None };
            (Some(with_bonus(d, dmg_bonus)), rage_damage)
        },
        None => (None, None),
    };
    CalculatedAction {
        action_type: a.action_type.clone(),
        name: a.name.clone(),
        damage,
        rage_damage,
        atk_bonus: block + proficiency + magic,
        dmg_type: copy_opt(&a.dmg_type),
        text: note,
    }
}

/// Works out every action in order, appending a footnote to `tooltips` for each
/// action with text.
pub fn compute_actions(
    actions: &Vec<CharacterAction>,
    mods: &Vec<CalculatedScoreModifier>,
    meta: &CharacterMetadata,
    tooltips: &mut Vec<Tooltip>,
) -> (r: Vec<CalculatedAction>)
    ensures
        action_views(r@) == actions_model(actions@, modifier_views(mods@), *meta),
        tooltip_views(final(tooltips)@) == tooltip_views(old(tooltips)@) + action_notes(actions@),
{
    let mut r: Vec<CalculatedAction> = Vec::new();
    let mut count: usize = 0;
    let mut i: usize = 0;
    proof {
        assert(actions@.take(0) =~= Seq::<CharacterAction>::empty());
        assert(tooltip_views(tooltips@) =~= tooltip_views(old(tooltips)@) + action_notes(actions@.take(0)));
    }
    while i < actions.len()
        invariant
            i <= actions@.len(),
            count as int == action_notes(actions@.take(i as int)).len(),
            count <= i,
            action_views(r@) == actions_model(actions@, modifier_views(mods@), *meta).take(i as int),
            tooltip_views(tooltips@) == tooltip_views(old(tooltips)@) + action_notes(actions@.take(i as int)),
        decreases actions@.len() - i,
    {
        let a = &actions[i];
        let ghost notes_before = action_notes(actions@.take(i as int));
        proof {
            assert(actions@.take(i + 1).drop_last() =~= actions@.take(i as int));
            assert(actions@.take(i + 1).last() == actions@[i as int]);
        }
        let note = if a.text.as_str().is_empty() {
            String::new()
        } else {
            let key = footnote_key("a", (count + 1) as u64);
            proof {
                reveal_strlit("a");
            }
            let html = to_html(a.text.as_str());
            push_tooltip(tooltips, key.clone(), html);
            count = count + 1;
            key
        };
        proof {
            assert(note@ == action_ref(actions@, i as int));
            assert(tooltip_views(tooltips@) =~= tooltip_views(old(tooltips)@) + action_notes(actions@.take(i + 1)));
        }
        let c = calculate_action(a, mods, meta, note);
        let ghost prev = r@;
        r.push(c);
        proof {
            assert(action_views(r@) =~= action_views(prev).push(c@));
            assert(actions_model(actions@, modifier_views(mods@), *meta).take(i + 1)
                =~= actions_model(actions@, modifier_views(mods@), *meta).take(i as int).push(c@));
        }
        i = i + 1;
    }
    proof {
        assert(actions@.take(i as int) =~= actions@);
        assert(actions_model(actions@, modifier_views(mods@), *meta).take(i as int)
            =~= actions_model(actions@, modifier_views(mods@), *meta));
    }
    r
}

} // verus!
