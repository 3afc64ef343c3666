//! The categories that attributes belong to.

use vstd::prelude::*;
use vstd::std_specs::convert::FromSpecImpl;
use crate::enums::Attribute;

verus! {

/// The kind of play an attribute helps with.
#[derive(Debug, Clone, Copy, PartialEq, Eq, Hash, Structural)]
pub enum AttributeCategory {
    Batting,
    Pitching,
    Defense,
    Baserunning,
    Generic,
}

impl AttributeCategory {
    /// The category of `attribute`.
    pub open spec fn spec_of(attribute: Attribute) -> AttributeCategory {
        match attribute {
            Attribute::Priority | Attribute::Luck => AttributeCategory::Generic,
            Attribute::Aiming | Attribute::Contact | Attribute::Cunning | Attribute::Determination | Attribute::Discipline
            | Attribute::Insight | Attribute::Intimidation | Attribute::Lift | Attribute::Muscle | Attribute::Selflessness
            | Attribute::Vision | Attribute::Wisdom => AttributeCategory::Batting,
            Attribute::Greed | Attribute::Performance | Attribute::Speed | Attribute::Stealth => AttributeCategory::Baserunning,
            Attribute::Accuracy | Attribute::Control | Attribute::Defiance | Attribute::Guts | Attribute::Persuasion
            | Attribute::Presence | Attribute::Rotation | Attribute::Stamina | Attribute::Stuff | Attribute::Velocity
            | Attribute::Acrobatics | Attribute::Agility => AttributeCategory::Pitching,
            Attribute::Arm | Attribute::Awareness | Attribute::Composure | Attribute::Dexterity | Attribute::Patience
            | Attribute::Reaction => AttributeCategory::Defense,
        }
    }
}

impl From<Attribute> for AttributeCategory {
    fn from(value: Attribute) -> (r: AttributeCategory) {
        match value {
            Attribute::Priority | Attribute::Luck => AttributeCategory::Generic,
            Attribute::Aiming | Attribute::Contact | Attribute::Cunning | Attribute::Determination | Attribute::Discipline
            | Attribute::Insight | Attribute::Intimidation | Attribute::Lift | Attribute::Muscle | Attribute::Selflessness
            | Attribute::Vision | Attribute::Wisdom => AttributeCategory::Batting,
            Attribute::Greed | Attribute::Performance | Attribute::Speed | Attribute::Stealth => AttributeCategory::Baserunning,
            Attribute::Accuracy | Attribute::Control | Attribute::Defiance | Attribute::Guts | Attribute::Persuasion
            | Attribute::Presence | Attribute::Rotation | Attribute::Stamina | Attribute::Stuff | Attribute::Velocity
            | Attribute::Acrobatics | Attribute::Agility => AttributeCategory::Pitching,
            Attribute::Arm | Attribute::Awareness | Attribute::Composure | Attribute::Dexterity | Attribute::Patience
            | Attribute::Reaction => AttributeCategory::Defense,
        }
    }
}

impl FromSpecImpl<Attribute> for AttributeCategory {
    open spec fn obeys_from_spec() -> bool {
        true
    }

    open spec fn from_spec(v: Attribute) -> AttributeCategory {
        AttributeCategory::spec_of(v)
    }
}

} // verus!
