//! The host's conditional-formatting rule state, as the formatting panel
//! edits it. Numbers that the rules carry (percentiles, percents, standard
//! deviation multipliers) are held as IEEE-754 bit patterns.
use vstd::prelude::*;

verus! {

/// A threshold of a conditional-formatting rule.
#[derive(Debug, Clone, Copy, PartialEq, Eq, Structural)]
pub enum FormulaConditionalFormattingThreshold {
    Min,
    Mid,
    Max,
    Percent(u64),
    Percentile(u64),
    Number(u64),
}

/// One stop of a colour scale: where it sits and its colour.
#[derive(Debug, PartialEq, Eq)]
pub struct FormulaColorScaleStop {
    pub position: FormulaConditionalFormattingThreshold,
    pub color: String,
}

impl Clone for FormulaColorScaleStop {
    fn clone(&self) -> (r: Self)
        ensures
            r == *self,
    {
        FormulaColorScaleStop { position: self.position, color: self.color.clone() }
    }
}

#[derive(Debug, PartialEq, Eq)]
pub struct FormulaColorScaleRuleOptions {
    pub stops: Vec<FormulaColorScaleStop>,
}

#[derive(Debug, Clone, Copy, PartialEq, Eq, Structural)]
pub enum FormulaDataBarDirection {
    Left,
    Right,
}

#[derive(Debug, PartialEq, Eq)]
pub struct FormulaDataBarRuleOptions {
    pub bar_color: Option<String>,
    pub direction: Option<FormulaDataBarDirection>,
    pub show_bar_only: bool,
}

impl Clone for FormulaDataBarRuleOptions {
    fn clone(&self) -> (r: Self)
        ensures
            r == *self,
    {
        FormulaDataBarRuleOptions {
            bar_color: self.bar_color.clone(),
            direction: self.direction,
            show_bar_only: self.show_bar_only,
        }
    }
}

#[derive(Debug, PartialEq, Eq)]
pub struct FormulaIconSetRuleOptions {
    pub set_kind: String,
    pub thresholds: Vec<FormulaConditionalFormattingThreshold>,
}

#[derive(Debug, Clone, Copy, PartialEq, Eq, Structural)]
pub struct FormulaAverageRuleOptions {
    pub include_equal: bool,
    pub stddev_multiplier: Option<u64>,
}

#[derive(Debug, Clone, Copy, PartialEq, Eq, Structural)]
pub enum FormulaConditionalFormattingRank {
    Count(usize),
    Percent(u64),
}

#[derive(Debug, Clone, Copy, PartialEq, Eq, Structural)]
pub struct FormulaRankRuleOptions {
    pub rank: FormulaConditionalFormattingRank,
}

/// The per-kind options of a visualisation rule; each kind fills its own.
#[derive(Debug, PartialEq, Eq)]
pub struct FormulaConditionalFormattingTypedRule {
    pub color_scale: Option<FormulaColorScaleRuleOptions>,
    pub data_bar: Option<FormulaDataBarRuleOptions>,
    pub icon_set: Option<FormulaIconSetRuleOptions>,
    pub average: Option<FormulaAverageRuleOptions>,
    pub rank: Option<FormulaRankRuleOptions>,
}

/// A conditional-formatting rule of a formula space.
#[derive(Debug, PartialEq, Eq)]
pub struct FormulaConditionalFormattingRule {
    pub rule_kind: String,
    pub operator: Option<String>,
    pub thresholds: Vec<String>,
    pub font_color: Option<String>,
    pub fill_color: Option<String>,
    pub typed_rule: Option<FormulaConditionalFormattingTypedRule>,
}

impl FormulaColorScaleRuleOptions {
    pub open spec fn is_copy_of(self, other: Self) -> bool {
        self.stops@ == other.stops@
    }

    pub fn copy(&self) -> (r: Self)
        ensures
            r.is_copy_of(*self),
    {
        let stops = self.stops.clone();
        assert(stops@ =~= self.stops@);
        FormulaColorScaleRuleOptions { stops }
    }
}

impl FormulaIconSetRuleOptions {
    pub open spec fn is_copy_of(self, other: Self) -> bool {
        self.set_kind == other.set_kind && self.thresholds@ == other.thresholds@
    }

    pub fn copy(&self) -> (r: Self)
        ensures
            r.is_copy_of(*self),
    {
        let thresholds = self.thresholds.clone();
        assert(thresholds@ =~= self.thresholds@);
        FormulaIconSetRuleOptions { set_kind: self.set_kind.clone(), thresholds }
    }
}

impl FormulaConditionalFormattingTypedRule {
    /// `self` holds the same options as `other`, list by list.
    pub open spec fn is_copy_of(self, other: Self) -> bool {
        &&& match (self.color_scale, other.color_scale) {
            (Some(a), Some(b)) => a.is_copy_of(b),
            (None, None) => true,
            _ => false,
        }
        &&& self.data_bar == other.data_bar
        &&& match (self.icon_set, other.icon_set) {
            (Some(a), Some(b)) => a.is_copy_of(b),
            (None, None) => true,
            _ => false,
        }
        &&& self.average == other.average
        &&& self.rank == other.rank
    }

    pub fn copy(&self) -> (r: Self)
        ensures
            r.is_copy_of(*self),
    {
        FormulaConditionalFormattingTypedRule {
            color_scale: match &self.color_scale {
                Some(c) => Some(c.copy()),
                None => None,
            },
            data_bar: self.data_bar.clone(),
            icon_set: match &self.icon_set {
                Some(i) => Some(i.copy()),
                None => None,
            },
            average: self.average,
            rank: self.rank,
        }
    }
}

} // verus!
