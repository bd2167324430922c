//! Laws of the calculation, proved over the models of its results.
use vstd::prelude::*;
use crate::actions::{action_notes, action_ref};
use crate::checks::saving_throws_model;
use crate::modifiers::{lookup_modifier, modifier_of, modifiers_model, ModifierModel};
use crate::notes::note_key;
use crate::report::{report_model, SheetReport};
use crate::sheet::{CharacterAction, CharacterSavingThrows, CharacterScores, CharacterSheet};
use crate::text::decimal;

verus! {

/// No two scores share a key.
pub open spec fn keys_unique(scores: Seq<CharacterScores>) -> bool {
    forall|i: int, j: int| 0 <= i < j < scores.len() ==> scores[i].key@ != scores[j].key@
}

/// An action without text gets an empty footnote key and adds no footnote.
pub proof fn lemma_textless_action_adds_no_note(actions: Seq<CharacterAction>, i: int)
    requires
        0 <= i < actions.len(),
        actions[i].text@.len() == 0,
    ensures
        action_ref(actions, i) == Seq::<char>::empty(),
        action_notes(actions.take(i + 1)) == action_notes(actions.take(i)),
{
    assert(actions.take(i + 1).drop_last() =~= actions.take(i));
}

/// Where every action has text, the `i`th one is keyed `a` followed by `i + 1`,
/// and the footnotes come in the same order, one per action.
pub proof fn lemma_noted_actions_keyed_in_order(actions: Seq<CharacterAction>)
    requires
        forall|i: int| 0 <= i < actions.len() ==> actions[i].text@.len() > 0,
    ensures
        action_notes(actions).len() == actions.len(),
        forall|i: int| 0 <= i < actions.len() ==> action_ref(actions, i) == note_key(seq!['a'], i + 1),
        forall|i: int| 0 <= i < actions.len() ==> #[trigger] action_notes(actions)[i].key == note_key(seq!['a'], i + 1),
    decreases actions.len(),
{
    if actions.len() > 0 {
        let prev = actions.drop_last();
        lemma_noted_actions_keyed_in_order(prev);
        assert forall|i: int| 0 <= i < actions.len() implies action_ref(actions, i) == note_key(seq!['a'], i + 1) by {
            let t = actions.take(i);
            assert forall|j: int| 0 <= j < t.len() implies t[j].text@.len() > 0 by {
                assert(t[j] == actions[j]);
            }
            lemma_noted_actions_keyed_in_order(t);
        }
    }
}

/// Two actions with text are keyed `a1` and `a2`, and add those two footnotes in
/// that order.
pub proof fn lemma_two_noted_actions(actions: Seq<CharacterAction>)
    requires
        actions.len() == 2,
        actions[0].text@.len() > 0,
        actions[1].text@.len() > 0,
    ensures
        action_ref(actions, 0) == seq!['a', '1'],
        action_ref(actions, 1) == seq!['a', '2'],
        action_notes(actions).len() == 2,
        action_notes(actions)[0].key == seq!['a', '1'],
        action_notes(actions)[1].key == seq!['a', '2'],
{
    lemma_noted_actions_keyed_in_order(actions);
    assert(decimal(1) =~= seq!['1']);
    assert(decimal(2) =~= seq!['2']);
    assert(note_key(seq!['a'], 1) =~= seq!['a', '1']);
    assert(note_key(seq!['a'], 2) =~= seq!['a', '2']);
}

proof fn lemma_lookup_finds(mods: Seq<ModifierModel>, key: Seq<char>, j: int)
    requires
        0 <= j < mods.len(),
        mods[j].name == key,
        forall|i: int| 0 <= i < j ==> mods[i].name != key,
    ensures
        lookup_modifier(mods, key) == mods[j].modifier,
    decreases j,
{
    if j > 0 {
        let rest = mods.drop_first();
        assert forall|i: int| 0 <= i < j - 1 implies rest[i].name != key by {
            assert(rest[i] == mods[i + 1]);
        }
        assert(mods[0].name != key);
        lemma_lookup_finds(rest, key, j - 1);
    }
}

/// A proficient saving throw on an ability that has a score is worth that
/// ability's modifier plus the proficiency bonus.
pub proof fn lemma_proficient_saving_throw(
    scores: Seq<CharacterScores>,
    throws: Seq<CharacterSavingThrows>,
    proficiency: int,
    i: int,
    j: int,
)
    requires
        keys_unique(scores),
        0 <= i < throws.len(),
        0 <= j < scores.len(),
        throws[i].key@ == scores[j].key@,
        throws[i].proficient,
    ensures
        saving_throws_model(throws, modifiers_model(scores), proficiency)[i].value
            == modifier_of(scores[j].value as int) + proficiency,
{
    let mods = modifiers_model(scores);
    assert forall|k: int| 0 <= k < j implies mods[k].name != scores[j].key@ by {
        assert(mods[k].name == scores[k].key@);
    }
    lemma_lookup_finds(mods, scores[j].key@, j);
}

/// The calculation is a function of the document: two reports derived from the
/// same document are the same.
pub proof fn lemma_report_deterministic(sheet: CharacterSheet, first: SheetReport, second: SheetReport)
    requires
        first@ == report_model(sheet),
        second@ == report_model(sheet),
    ensures
        first@ == second@,
{
}

} // verus!
