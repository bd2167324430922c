//! The whole calculation: from one character document to every derived
//! collection that the printed sheet shows.
use vstd::prelude::*;
use crate::actions::{action_notes, action_views, actions_model, compute_actions, ActionModel, CalculatedAction};
use crate::checks::{
    compute_saving_throws, compute_skills, rows_model, saving_throw_views, saving_throws_model, skill_row_views,
    skill_rows, skills_model, CalculatedSavingThrow, CalculatedSkill, SavingThrowModel, SkillModel,
};
use crate::equipment::{
    equipment_model, equipment_notes, equipment_views, feature_views, features_model, format_equipment,
    format_features, EquipmentModel, FeatureModel, FormattedEquipment, FormattedFeatures,
};
use crate::modifiers::{compute_score_modifiers, modifier_views, modifiers_model, CalculatedScoreModifier, ModifierModel};
use crate::notes::{tooltip_views, Tooltip, TooltipModel};
use crate::sheet::CharacterSheet;

verus! {

/// Every collection derived from one document, ready for rendering.
#[derive(Debug, Clone, PartialEq, Eq)]
pub struct SheetReport {
    pub calculated_score_modifier: Vec<CalculatedScoreModifier>,
    pub calculated_action: Vec<CalculatedAction>,
    pub calculated_skill_rows: Vec<Vec<CalculatedSkill>>,
    pub calculated_saving_throw: Vec<CalculatedSavingThrow>,
    pub formatted_equipment: Vec<FormattedEquipment>,
    pub formatted_feats: Vec<FormattedFeatures>,
    pub tooltips: Vec<Tooltip>,
}

pub struct ReportModel {
    pub modifiers: Seq<ModifierModel>,
    pub actions: Seq<ActionModel>,
    pub skill_rows: Seq<Seq<SkillModel>>,
    pub saving_throws: Seq<SavingThrowModel>,
    pub equipment: Seq<EquipmentModel>,
    pub features: Seq<FeatureModel>,
    pub tooltips: Seq<TooltipModel>,
}

impl View for SheetReport {
    type V = ReportModel;

    open spec fn view(&self) -> ReportModel {
        ReportModel {
            modifiers: modifier_views(self.calculated_score_modifier@),
            actions: action_views(self.calculated_action@),
            skill_rows: skill_row_views(self.calculated_skill_rows@),
            saving_throws: saving_throw_views(self.calculated_saving_throw@),
            equipment: equipment_views(self.formatted_equipment@),
            features: feature_views(self.formatted_feats@),
            tooltips: tooltip_views(self.tooltips@),
        }
    }
}

/// What a document derives: footnotes of actions come first, then those of
/// equipment.
pub open spec fn report_model(sheet: CharacterSheet) -> ReportModel {
    let mods = modifiers_model(sheet.scores@);
    let proficiency = sheet.metadata.proficiency_bonus as int;
    ReportModel {
        modifiers: mods,
        actions: actions_model(sheet.actions@, mods, sheet.metadata),
        skill_rows: rows_model(skills_model(sheet.skills@, mods, proficiency)),
        saving_throws: saving_throws_model(sheet.saving_throws@, mods, proficiency),
        equipment: equipment_model(sheet.equipment@),
        features: features_model(sheet.features@),
        tooltips: action_notes(sheet.actions@) + equipment_notes(sheet.equipment@),
    }
}

/// Derives every collection of the printed sheet from one document.
pub fn build_report(sheet: &CharacterSheet) -> (r: SheetReport)
    ensures
        r@ == report_model(*sheet),
{
    let proficiency = sheet.metadata.proficiency_bonus;
    let mut tooltips: Vec<Tooltip> = Vec::new();
    let mods = compute_score_modifiers(&sheet.scores);
    let calculated_action = compute_actions(&sheet.actions, &mods, &sheet.metadata, &mut tooltips);
    let calculated_saving_throw = compute_saving_throws(&sheet.saving_throws, &mods, proficiency);
    let skills = compute_skills(&sheet.skills, &mods, proficiency);
    let calculated_skill_rows = skill_rows(&skills);
    let formatted_equipment = format_equipment(&sheet.equipment, &mut tooltips);
    let formatted_feats = format_features(&sheet.features);
    proof {
        assert(tooltip_views(Seq::<Tooltip>::empty()) =~= Seq::<TooltipModel>::empty());
        assert(tooltip_views(tooltips@) =~= action_notes(sheet.actions@) + equipment_notes(sheet.equipment@));
    }
    SheetReport {
        calculated_score_modifier: mods,
        calculated_action,
        calculated_skill_rows,
        calculated_saving_throw,
        formatted_equipment,
        formatted_feats,
        tooltips,
    }
}

} // verus!
