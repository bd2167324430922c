//! Derived statistics for a tabletop role-playing character sheet.
//!
//! The library turns raw ability scores, actions, proficiency flags and
//! metadata into attack bonuses, damage expressions, saving-throw and skill
//! totals, and the footnote blocks that the printed sheet cross-references.
pub mod text;
pub mod sheet;
pub mod markup;
pub mod modifiers;
pub mod notes;
pub mod actions;
pub mod checks;
pub mod equipment;
pub mod report;
pub mod laws;
