//! Text decisions of the Inspect shell: the summary lines of the parse,
//! bind, eval and provenance cards, and the fallbacks for missing values.
use vstd::prelude::*;

use crate::adapters::FormulaWalkNodeState;
use crate::services::{BindSummary, EvalSummary, ParseSummary, ProvenanceSummary};
use crate::text::{decimal_digits, push_decimal};

verus! {

/// A value, or `Unavailable` when there is none.
pub fn or_unavailable(value: Option<String>) -> (r: String)
    ensures
        r@ == (match value { Some(v) => v@, None => "Unavailable"@ }),
{
    match value {
        Some(v) => v,
        None => "Unavailable".to_owned(),
    }
}

/// The parse card's line: the parse status.
pub fn parse_status_text(summary: &Option<ParseSummary>) -> (r: String)
    ensures
        r@ == (match *summary { Some(p) => p.status@, None => "Unavailable"@ }),
{
    match summary {
        Some(p) => p.status.clone(),
        None => "Unavailable".to_owned(),
    }
}

/// The bind card's line: `vars=…, refs=…`.
pub fn bind_summary_text(summary: &Option<BindSummary>) -> (r: String)
    ensures
        r@ == (match *summary {
            Some(b) => "vars="@ + decimal_digits(b.variable_count as nat) + ", refs="@
                + decimal_digits(b.reference_count as nat),
            None => "Unavailable"@,
        }),
{
    match summary {
        Some(b) => {
            let mut s = "vars=".to_owned();
            push_decimal(&mut s, b.variable_count);
            s.append(", refs=");
            push_decimal(&mut s, b.reference_count);
            s
        },
        None => "Unavailable".to_owned(),
    }
}

/// The eval card's line: `steps=…, duration=…`.
pub fn eval_summary_text(summary: &Option<EvalSummary>) -> (r: String)
    ensures
        r@ == (match *summary {
            Some(e) => "steps="@ + decimal_digits(e.step_count as nat) + ", duration="@ + e.duration_text@,
            None => "Unavailable"@,
        }),
{
    match summary {
        Some(e) => {
            let mut s = "steps=".to_owned();
            push_decimal(&mut s, e.step_count);
            s.append(", duration=");
            s.append(e.duration_text.as_str());
            s
        },
        None => "Unavailable".to_owned(),
    }
}

/// The provenance card's line: the profile summary.
pub fn provenance_summary_text(summary: &Option<ProvenanceSummary>) -> (r: String)
    ensures
        r@ == (match *summary { Some(p) => p.profile_summary@, None => "Unavailable"@ }),
{
    match summary {
        Some(p) => p.profile_summary.clone(),
        None => "Unavailable".to_owned(),
    }
}

/// The green tree key, or `none`.
pub fn green_tree_text(key: Option<String>) -> (r: String)
    ensures
        r@ == (match key { Some(k) => k@, None => "none"@ }),
{
    match key {
        Some(k) => k,
        None => "none".to_owned(),
    }
}

/// The blocked reason, or a note that none was recorded.
pub fn blocked_reason_text(reason: Option<String>) -> (r: String)
    ensures
        r@ == (match reason { Some(b) => b@, None => "No blocked dimension recorded"@ }),
{
    match reason {
        Some(b) => b,
        None => "No blocked dimension recorded".to_owned(),
    }
}

/// The state label of a walk node: the state's variant name.
pub fn walk_node_state_label(state: FormulaWalkNodeState) -> (r: &'static str)
    ensures
        r@ == (match state {
            FormulaWalkNodeState::Evaluated => "Evaluated"@,
            FormulaWalkNodeState::Bound => "Bound"@,
            FormulaWalkNodeState::Opaque => "Opaque"@,
            FormulaWalkNodeState::Blocked => "Blocked"@,
        }),
{
    match state {
        FormulaWalkNodeState::Evaluated => "Evaluated",
        FormulaWalkNodeState::Bound => "Bound",
        FormulaWalkNodeState::Opaque => "Opaque",
        FormulaWalkNodeState::Blocked => "Blocked",
    }
}

} // verus!
