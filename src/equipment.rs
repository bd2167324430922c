//! Equipment, whose descriptions become footnotes, and features, whose
//! descriptions are rendered in place.
use vstd::prelude::*;
use crate::markup::{html_of, to_html};
use crate::notes::{footnote_key, note_key, push_tooltip, tooltip_views, Tooltip, TooltipModel};
use crate::sheet::{CharacterEquipment, CharacterFeatures};

verus! {

/// An item of equipment; `text` holds its footnote key or is empty.
#[derive(Debug, Clone, PartialEq, Eq)]
pub struct FormattedEquipment {
    pub amount: Option<i64>,
    pub name: String,
    pub text: String,
}

pub struct EquipmentModel {
    pub amount: Option<i64>,
    pub name: Seq<char>,
    pub text: Seq<char>,
}

impl View for FormattedEquipment {
    type V = EquipmentModel;

    open spec fn view(&self) -> EquipmentModel {
        EquipmentModel { amount: self.amount, name: self.name@, text: self.text@ }
    }
}

/// A feature with its description rendered.
#[derive(Debug, Clone, PartialEq, Eq)]
pub struct FormattedFeatures {
    pub title: String,
    pub text: String,
}

pub struct FeatureModel {
    pub title: Seq<char>,
    pub text: Seq<char>,
}

impl View for FormattedFeatures {
    type V = FeatureModel;

    open spec fn view(&self) -> FeatureModel {
        FeatureModel { title: self.title@, text: self.text@ }
    }
}

pub open spec fn equipment_views(s: Seq<FormattedEquipment>) -> Seq<EquipmentModel> {
    s.map_values(|e: FormattedEquipment| e@)
}

pub open spec fn feature_views(s: Seq<FormattedFeatures>) -> Seq<FeatureModel> {
    s.map_values(|f: FormattedFeatures| f@)
}

/// The description of an item, empty where it has none.
pub open spec fn description(e: CharacterEquipment) -> Seq<char> {
    match e.text {
        Some(t) => t@,
        None => seq![],
    }
}

/// The footnotes that a run of equipment adds, in order: one for each item with
/// a non-empty description, keyed `e1`, `e2`, ...
pub open spec fn equipment_notes(items: Seq<CharacterEquipment>) -> Seq<TooltipModel>
    decreases items.len(),
{
    if items.len() == 0 {
        seq![]
    } else {
        let prev = equipment_notes(items.drop_last());
        let text = description(items.last());
        if text.len() == 0 {
            prev
        } else {
            prev.push(TooltipModel { key: note_key(seq!['e'], prev.len() + 1 as int), text: html_of(text) })
        }
    }
}

/// The footnote key of the `i`th item, empty where it has no description.
pub open spec fn equipment_ref(items: Seq<CharacterEquipment>, i: int) -> Seq<char> {
    if description(items[i]).len() == 0 {
        seq![]
    } else {
        note_key(seq!['e'], equipment_notes(items.take(i)).len() + 1 as int)
    }
}

pub open spec fn equipment_model(items: Seq<CharacterEquipment>) -> Seq<EquipmentModel> {
    Seq::new(
        items.len(),
        |i: int| EquipmentModel { amount: items[i].amount, name: items[i].name@, text: equipment_ref(items, i) },
    )
}

pub open spec fn features_model(features: Seq<CharacterFeatures>) -> Seq<FeatureModel> {
    Seq::new(features.len(), |i: int| FeatureModel { title: features[i].title@, text: html_of(features[i].text@) })
}

/// Formats every item in order, appending a footnote to `tooltips` for each
/// item with a non-empty description.
pub fn format_equipment(items: &Vec<CharacterEquipment>, tooltips: &mut Vec<Tooltip>) -> (r: Vec<FormattedEquipment>)
    ensures
        equipment_views(r@) == equipment_model(items@),
        tooltip_views(final(tooltips)@) == tooltip_views(old(tooltips)@) + equipment_notes(items@),
{
    let ghost model = equipment_model(items@);
    let mut r: Vec<FormattedEquipment> = Vec::new();
    let mut count: usize = 0;
    let mut i: usize = 0;
    proof {
        assert(items@.take(0) =~= Seq::<CharacterEquipment>::empty());
        assert(tooltip_views(tooltips@) =~= tooltip_views(old(tooltips)@) + equipment_notes(items@.take(0)));
    }
    while i < items.len()
        invariant
            i <= items@.len(),
            count <= i,
            count as int == equipment_notes(items@.take(i as int)).len(),
            model == equipment_model(items@),
            equipment_views(r@) == model.take(i as int),
            tooltip_views(tooltips@) == tooltip_views(old(tooltips)@) + equipment_notes(items@.take(i as int)),
        decreases items@.len() - i,
    {
        let e = &items[i];
        proof {
            assert(items@.take(i + 1).drop_last() =~= items@.take(i as int));
            assert(items@.take(i + 1).last() == items@[i as int]);
        }
        let described = match &e.text {
            Some(t) => !t.as_str().is_empty(),
            None => false,
        };
        let note = if described {
            let key = footnote_key("e", (count + 1) as u64);
            proof {
                reveal_strlit("e");
            }
            let html = match &e.text {
                Some(t) => to_html(t.as_str()),
                None => String::new(),
            };
            push_tooltip(tooltips, key.clone(), html);
            count = count + 1;
            key
        } else {
            String::new()
        };
        proof {
            assert(note@ == equipment_ref(items@, i as int));
            assert(tooltip_views(tooltips@) =~= tooltip_views(old(tooltips)@) + equipment_notes(items@.take(i + 1)));
        }
        let f = FormattedEquipment { amount: e.amount, name: e.name.clone(), text: note };
        let ghost prev = r@;
        r.push(f);
        proof {
            assert(equipment_views(r@) =~= equipment_views(prev).push(f@));
            assert(model.take(i + 1) =~= model.take(i as int).push(f@));
        }
        i = i + 1;
    }
    proof {
        assert(items@.take(i as int) =~= items@);
        assert(model.take(i as int) =~= model);
    }
    r
}

/// Renders every feature's description in place, in order.
pub fn format_features(features: &Vec<CharacterFeatures>) -> (r: Vec<FormattedFeatures>)
    ensures
        feature_views(r@) == features_model(features@),
{
    let ghost model = features_model(features@);
    let mut r: Vec<FormattedFeatures> = Vec::new();
    let mut i: usize = 0;
    while i < features.len()
        invariant
            i <= features@.len(),
            model == features_model(features@),
            feature_views(r@) == model.take(i as int),
        decreases features@.len() - i,
    {
        let f = &features[i];
        let c = FormattedFeatures { title: f.title.clone(), text: to_html(f.text.as_str()) };
        let ghost prev = r@;
        r.push(c);
        proof {
            assert(feature_views(r@) =~= feature_views(prev).push(c@));
            assert(model.take(i + 1) =~= model.take(i as int).push(c@));
        }
        i = i + 1;
    }
    proof {
        assert(model.take(i as int) =~= model);
    }
    r
}

} // verus!
