//! The Value Panel's model of a formula result: its value, presentation,
//! effective display, display pipeline and provenance. Numbers are held as
//! their IEEE-754 bit patterns.
use vstd::prelude::*;

use crate::text::{
    ascii_lower, ascii_lowercase, chars_of, lowered_equals, lowered_starts_with, starts_with, string_from_chars, trim_bounds,
    trimmed, utf16_len, utf16_len_of, decimal_digits, push_decimal,
};
use crate::ui::editor::state::EditorLiveState;

verus! {

/// The bit pattern of the quiet NaN that std's `f64::NAN` holds.
pub const NAN_BITS: u64 = 0x7ff8_0000_0000_0000;

/// The most UTF-16 code units a cell's text can hold.
pub const UTF16_CODE_UNIT_LIMIT: usize = 32_767;

#[derive(Debug, PartialEq, Eq)]
pub struct ValuePanelKeyValue {
    pub label: String,
    pub value: String,
}

#[derive(Debug, Clone, Copy, PartialEq, Eq, Structural)]
pub enum ValuePanelErrorSurface {
    Worksheet,
    XllTransferable,
    ExtendedWorksheetOnly,
}

impl ValuePanelErrorSurface {
    pub open spec fn label_spec(self) -> Seq<char> {
        match self {
            Self::Worksheet => "Worksheet"@,
            Self::XllTransferable => "XLL transferable"@,
            Self::ExtendedWorksheetOnly => "Extended worksheet only"@,
        }
    }

    pub open spec fn slug_spec(self) -> Seq<char> {
        match self {
            Self::Worksheet => "worksheet"@,
            Self::XllTransferable => "xll-transferable"@,
            Self::ExtendedWorksheetOnly => "extended-worksheet-only"@,
        }
    }

    pub fn label(self) -> (r: &'static str)
        ensures
            r@ == self.label_spec(),
    {
        match self {
            Self::Worksheet => "Worksheet",
            Self::XllTransferable => "XLL transferable",
            Self::ExtendedWorksheetOnly => "Extended worksheet only",
        }
    }

    pub fn slug(self) -> (r: &'static str)
        ensures
            r@ == self.slug_spec(),
    {
        match self {
            Self::Worksheet => "worksheet",
            Self::XllTransferable => "xll-transferable",
            Self::ExtendedWorksheetOnly => "extended-worksheet-only",
        }
    }
}

#[derive(Debug, Clone, Copy, PartialEq, Eq, Structural)]
pub struct ValuePanelArrayShape {
    pub rows: usize,
    pub cols: usize,
}

impl ValuePanelArrayShape {
    /// The number of cells, saturating at `usize::MAX`.
    pub fn cell_count(self) -> (r: usize)
        ensures
            r == if self.rows * self.cols > usize::MAX { usize::MAX as int } else { self.rows * self.cols },
    {
        if self.rows == 0 {
            return 0;
        }
        if self.cols > usize::MAX / self.rows {
            proof {
                assert(self.rows * self.cols > usize::MAX) by (nonlinear_arith)
                    requires
                        self.rows > 0,
                        self.cols > usize::MAX / self.rows,
                ;
            }
            usize::MAX
        } else {
            proof {
                assert(self.rows * self.cols <= usize::MAX) by (nonlinear_arith)
                    requires
                        self.rows > 0,
                        self.cols <= usize::MAX / self.rows,
                ;
            }
            self.rows * self.cols
        }
    }
}

#[derive(Debug, PartialEq, Eq)]
pub enum ValuePanelArrayCell {
    /// A number, as its IEEE-754 bit pattern.
    Number(u64),
    Text(String),
    Logical(bool),
    Error(String),
    EmptyCell,
}

#[derive(Debug, Clone, Copy, PartialEq, Eq, Structural)]
pub enum ValuePanelReferenceKind {
    A1,
    Area,
    MultiArea,
    ThreeD,
    Structured,
    SpillAnchor,
}

impl ValuePanelReferenceKind {
    pub open spec fn label_spec(self) -> Seq<char> {
        match self {
            Self::A1 => "A1"@,
            Self::Area => "Area"@,
            Self::MultiArea => "Multi-area"@,
            Self::ThreeD => "3-D"@,
            Self::Structured => "Structured"@,
            Self::SpillAnchor => "Spill anchor"@,
        }
    }

    pub open spec fn slug_spec(self) -> Seq<char> {
        match self {
            Self::A1 => "a1"@,
            Self::Area => "area"@,
            Self::MultiArea => "multi-area"@,
            Self::ThreeD => "three-d"@,
            Self::Structured => "structured"@,
            Self::SpillAnchor => "spill-anchor"@,
        }
    }

    pub fn label(self) -> (r: &'static str)
        ensures
            r@ == self.label_spec(),
    {
        match self {
            Self::A1 => "A1",
            Self::Area => "Area",
            Self::MultiArea => "Multi-area",
            Self::ThreeD => "3-D",
            Self::Structured => "Structured",
            Self::SpillAnchor => "Spill anchor",
        }
    }

    pub fn slug(self) -> (r: &'static str)
        ensures
            r@ == self.slug_spec(),
    {
        match self {
            Self::A1 => "a1",
            Self::Area => "area",
            Self::MultiArea => "multi-area",
            Self::ThreeD => "three-d",
            Self::Structured => "structured",
            Self::SpillAnchor => "spill-anchor",
        }
    }
}

#[derive(Debug, PartialEq, Eq)]
pub struct ValuePanelRichValue {
    pub rich_type_name: String,
    pub fallback: ValuePanelRichValueData,
    pub key_value_pairs: Vec<ValuePanelRichKvp>,
}

#[derive(Debug, PartialEq, Eq)]
pub enum ValuePanelRichValueData {
    /// A number, as its IEEE-754 bit pattern.
    Number(u64),
    Text(String),
    Logical(bool),
    Error(String),
    EmptyCell,
    Array { shape: ValuePanelArrayShape, rows: Vec<Vec<ValuePanelRichValueData>> },
    Nested(Box<ValuePanelRichValue>),
}

#[derive(Debug, PartialEq, Eq)]
pub struct ValuePanelRichKvp {
    pub key: String,
    pub value: ValuePanelRichValueData,
    pub exclude_from_calc_comparison: bool,
}

#[derive(Debug, PartialEq, Eq)]
pub struct ValuePanelPresentation {
    pub number_format_hint: Option<ValuePanelNumberFormatHint>,
    pub style_hint: Option<ValuePanelStyleHint>,
    pub format_code: Option<String>,
}

#[derive(Debug, Clone, Copy, PartialEq, Eq, Structural)]
pub enum ValuePanelNumberFormatHint {
    General,
    DateLike,
    Percentage,
    Currency,
    Scientific,
    Fraction,
    Custom,
}

impl ValuePanelNumberFormatHint {
    pub open spec fn label_spec(self) -> Seq<char> {
        match self {
            Self::General => "General"@,
            Self::DateLike => "Date-like"@,
            Self::Percentage => "Percentage"@,
            Self::Currency => "Currency"@,
            Self::Scientific => "Scientific"@,
            Self::Fraction => "Fraction"@,
            Self::Custom => "Custom"@,
        }
    }

    pub open spec fn slug_spec(self) -> Seq<char> {
        match self {
            Self::General => "general"@,
            Self::DateLike => "date-like"@,
            Self::Percentage => "percentage"@,
            Self::Currency => "currency"@,
            Self::Scientific => "scientific"@,
            Self::Fraction => "fraction"@,
            Self::Custom => "custom"@,
        }
    }

    pub fn label(self) -> (r: &'static str)
        ensures
            r@ == self.label_spec(),
    {
        match self {
            Self::General => "General",
            Self::DateLike => "Date-like",
            Self::Percentage => "Percentage",
            Self::Currency => "Currency",
            Self::Scientific => "Scientific",
            Self::Fraction => "Fraction",
            Self::Custom => "Custom",
        }
    }

    pub fn slug(self) -> (r: &'static str)
        ensures
            r@ == self.slug_spec(),
    {
        match self {
            Self::General => "general",
            Self::DateLike => "date-like",
            Self::Percentage => "percentage",
            Self::Currency => "currency",
            Self::Scientific => "scientific",
            Self::Fraction => "fraction",
            Self::Custom => "custom",
        }
    }
}

#[derive(Debug, Clone, Copy, PartialEq, Eq, Structural)]
pub enum ValuePanelStyleHint {
    Hyperlink,
}

impl ValuePanelStyleHint {
    pub fn label(self) -> (r: &'static str)
        ensures
            r@ == "Hyperlink"@,
    {
        match self {
            Self::Hyperlink => "Hyperlink",
        }
    }

    pub fn slug(self) -> (r: &'static str)
        ensures
            r@ == "hyperlink"@,
    {
        match self {
            Self::Hyperlink => "hyperlink",
        }
    }
}

#[derive(Debug, PartialEq, Eq)]
pub struct ValuePanelPipelineStep {
    pub label: String,
    pub value_preview: Option<String>,
    pub status: ValuePanelPipelineStepStatus,
}

#[derive(Debug, PartialEq, Eq)]
pub enum ValuePanelPipelineStepStatus {
    Live,
    NotImplemented { seam_id: String },
}

impl ValuePanelPipelineStepStatus {
    pub fn slug(&self) -> (r: &'static str)
        ensures
            r@ == (match self {
                Self::Live => "live"@,
                Self::NotImplemented { .. } => "not-implemented"@,
            }),
    {
        match self {
            Self::Live => "live",
            Self::NotImplemented { .. } => "not-implemented",
        }
    }
}

#[derive(Debug, PartialEq, Eq)]
pub struct ValuePanelProvenance {
    pub green_tree_key: Option<String>,
    pub walk_node_id: Option<String>,
}

#[derive(Debug, PartialEq, Eq)]
pub enum ValuePanelValue {
    Number {
        /// The number's IEEE-754 bit pattern.
        raw_bits: u64,
        /// Extra rows shown under the main number.
        detail_rows: Vec<ValuePanelKeyValue>,
    },
    Text {
        content: String,
        utf16_code_units: usize,
        utf16_code_unit_limit: usize,
        has_dangling_surrogate: bool,
    },
    Logical(bool),
    Error {
        code_label: String,
        code_numeric: Option<u16>,
        surface: Option<ValuePanelErrorSurface>,
        detail: Option<String>,
    },
    Array {
        shape: ValuePanelArrayShape,
        rows: Vec<Vec<ValuePanelArrayCell>>,
        truncated: bool,
    },
    Reference {
        kind: ValuePanelReferenceKind,
        target: String,
        multi_area_targets: Vec<String>,
        normalized_differs: bool,
    },
    Lambda {
        callable_token: String,
        origin_kind: String,
        arity_min: usize,
        arity_max: Option<usize>,
        capture_mode: String,
        invocation_contract_ref: String,
    },
    RichValue(Box<ValuePanelRichValue>),
    /// The formula space has no proved result yet.
    Unevaluated,
}

#[derive(Debug, PartialEq, Eq)]
pub struct ValuePanelViewModel {
    pub value: ValuePanelValue,
    pub presentation: Option<ValuePanelPresentation>,
    pub effective_display_text: Option<String>,
    pub display_pipeline: Vec<ValuePanelPipelineStep>,
    pub provenance: Option<ValuePanelProvenance>,
    pub live_state: EditorLiveState,
}

impl ValuePanelValue {
    pub open spec fn slug_spec(self) -> Seq<char> {
        match self {
            Self::Number { .. } => "number"@,
            Self::Text { .. } => "text"@,
            Self::Logical(_) => "logical"@,
            Self::Error { .. } => "error"@,
            Self::Array { .. } => "array"@,
            Self::Reference { .. } => "reference"@,
            Self::Lambda { .. } => "lambda"@,
            Self::RichValue(_) => "rich-value"@,
            Self::Unevaluated => "unevaluated"@,
        }
    }

    /// The header shown above the value.
    pub open spec fn header_label_spec(self) -> Seq<char> {
        match self {
            Self::Number { .. } => "Number"@,
            Self::Text { .. } => "Text"@,
            Self::Logical(_) => "Logical"@,
            Self::Error { code_label, .. } => "Error ("@ + code_label@ + ")"@,
            Self::Array { shape, .. } => "Array ["@ + decimal_digits(shape.rows as nat) + " × "@
                + decimal_digits(shape.cols as nat) + "]"@,
            Self::Reference { kind, .. } => "Reference ("@ + kind.label_spec() + ")"@,
            Self::Lambda { .. } => "Lambda"@,
            Self::RichValue(rich) => "Rich value ("@ + rich.rich_type_name@ + ")"@,
            Self::Unevaluated => "Unevaluated"@,
        }
    }

    /// Stable header slug for CSS/data-attribute selection.
    pub fn slug(&self) -> (r: &'static str)
        ensures
            r@ == self.slug_spec(),
    {
        match self {
            Self::Number { .. } => "number",
            Self::Text { .. } => "text",
            Self::Logical(_) => "logical",
            Self::Error { .. } => "error",
            Self::Array { .. } => "array",
            Self::Reference { .. } => "reference",
            Self::Lambda { .. } => "lambda",
            Self::RichValue(_) => "rich-value",
            Self::Unevaluated => "unevaluated",
        }
    }

    /// Header label shown to the user.
    pub fn header_label(&self) -> (r: String)
        ensures
            r@ == self.header_label_spec(),
    {
        match self {
            Self::Number { .. } => "Number".to_owned(),
            Self::Text { .. } => "Text".to_owned(),
            Self::Logical(_) => "Logical".to_owned(),
            Self::Error { code_label, .. } => {
                let mut s = "Error (".to_owned();
                s.append(code_label.as_str());
                s.append(")");
                s
            },
            Self::Array { shape, .. } => {
                let mut s = "Array [".to_owned();
                push_decimal(&mut s, shape.rows);
                s.append(" × ");
                push_decimal(&mut s, shape.cols);
                s.append("]");
                s
            },
            Self::Reference { kind, .. } => {
                let mut s = "Reference (".to_owned();
                s.append(kind.label());
                s.append(")");
                s
            },
            Self::Lambda { .. } => "Lambda".to_owned(),
            Self::RichValue(rich) => {
                let mut s = "Rich value (".to_owned();
                s.append(rich.rich_type_name.as_str());
                s.append(")");
                s
            },
            Self::Unevaluated => "Unevaluated".to_owned(),
        }
    }
}

// ---------------------------------------------------------------------------
// Building the panel from Explore's summary strings
// ---------------------------------------------------------------------------

/// What a result summary is classified as.
#[derive(PartialEq, Eq)]
pub enum SummaryKind {
    Unevaluated,
    Number,
    Text,
    Logical(bool),
    Array,
    Error,
}

/// The kind of a trimmed result summary `t`, read case-insensitively.
pub open spec fn summary_kind(t: Seq<char>) -> SummaryKind {
    let low = ascii_lowercase(t);
    if t.len() == 0 {
        SummaryKind::Unevaluated
    } else if low == "number"@ || starts_with(low, "number "@) || starts_with(low, "number·"@) {
        SummaryKind::Number
    } else if low == "text"@ || starts_with(low, "text "@) {
        SummaryKind::Text
    } else if low == "logical"@ || low == "true"@ || low == "false"@ {
        SummaryKind::Logical(low == "true"@)
    } else if low == "array"@ || starts_with(low, "array"@) {
        SummaryKind::Array
    } else if starts_with(low, "error"@) || starts_with(t, "#"@) {
        SummaryKind::Error
    } else {
        SummaryKind::Text
    }
}

/// `v` is the text value `t`.
pub open spec fn is_text_value(v: ValuePanelValue, t: Seq<char>) -> bool {
    &&& v matches ValuePanelValue::Text { content, utf16_code_units, utf16_code_unit_limit, has_dangling_surrogate }
    &&& content@ == t
    &&& utf16_code_units == utf16_len(t)
    &&& utf16_code_unit_limit == UTF16_CODE_UNIT_LIMIT
    &&& !has_dangling_surrogate
}

/// `v` is what the result summary `summary` is classified as: nothing is
/// unevaluated; otherwise the trimmed summary, by its kind, becomes a NaN
/// number carrying the summary as a detail row, a text, a logical, an
/// empty truncated array, or an error labelled with the summary.
pub open spec fn classified_as(v: ValuePanelValue, summary: Option<Seq<char>>) -> bool {
    match summary {
        None => v is Unevaluated,
        Some(raw) => {
            let t = trimmed(raw);
            match summary_kind(t) {
                SummaryKind::Unevaluated => v is Unevaluated,
                SummaryKind::Number => {
                    &&& v matches ValuePanelValue::Number { raw_bits, detail_rows }
                    &&& raw_bits == NAN_BITS
                    &&& detail_rows@.len() == 1
                    &&& detail_rows@[0].label@ == "summary"@
                    &&& detail_rows@[0].value@ == t
                },
                SummaryKind::Text => is_text_value(v, t),
                SummaryKind::Logical(b) => v == ValuePanelValue::Logical(b),
                SummaryKind::Array => {
                    &&& v matches ValuePanelValue::Array { shape, rows, truncated }
                    &&& shape == ValuePanelArrayShape { rows: 0, cols: 0 }
                    &&& rows@.len() == 0
                    &&& truncated
                },
                SummaryKind::Error => {
                    &&& v matches ValuePanelValue::Error { code_label, code_numeric, surface, detail }
                    &&& code_label@ == t
                    &&& code_numeric is None
                    &&& surface is None
                    &&& detail is None
                },
            }
        },
    }
}

pub open spec fn str_view(o: Option<&str>) -> Option<Seq<char>> {
    match o {
        Some(s) => Some(s@),
        None => None,
    }
}

pub open spec fn string_view(o: Option<String>) -> Option<Seq<char>> {
    match o {
        Some(s) => Some(s@),
        None => None,
    }
}


fn text_value(v: &Vec<char>, a: usize, b: usize) -> (r: ValuePanelValue)
    requires
        a <= b <= v@.len(),
        2 * (b - a) <= usize::MAX,
    ensures
        is_text_value(r, v@.subrange(a as int, b as int)),
{
    ValuePanelValue::Text {
        content: string_from_chars(v, a, b),
        utf16_code_units: utf16_len_of(v, a, b),
        utf16_code_unit_limit: UTF16_CODE_UNIT_LIMIT,
        has_dangling_surrogate: false,
    }
}

/// Classifies Explore's result summary string into a panel value.
fn classify_result_summary(summary: Option<&str>) -> (r: ValuePanelValue)
    requires
        summary matches Some(t) ==> 2 * t@.len() <= usize::MAX,
    ensures
        classified_as(r, str_view(summary)),
{
    let text = match summary {
        Some(text) => text,
        None => return ValuePanelValue::Unevaluated,
    };
    let chars = chars_of(text);
    let (a, b) = trim_bounds(&chars);
    let ghost t = chars@.subrange(a as int, b as int);
    if a == b {
        return ValuePanelValue::Unevaluated;
    }
    if lowered_equals(&chars, a, b, "number") || lowered_starts_with(&chars, a, b, "number ")
        || lowered_starts_with(&chars, a, b, "number·")
    {
        let mut detail_rows: Vec<ValuePanelKeyValue> = Vec::new();
        detail_rows.push(ValuePanelKeyValue { label: "summary".to_owned(), value: string_from_chars(&chars, a, b) });
        return ValuePanelValue::Number { raw_bits: NAN_BITS, detail_rows };
    }
    if lowered_equals(&chars, a, b, "text") || lowered_starts_with(&chars, a, b, "text ") {
        return text_value(&chars, a, b);
    }
    let is_true = lowered_equals(&chars, a, b, "true");
    if lowered_equals(&chars, a, b, "logical") || is_true || lowered_equals(&chars, a, b, "false") {
        return ValuePanelValue::Logical(is_true);
    }
    if lowered_equals(&chars, a, b, "array") || lowered_starts_with(&chars, a, b, "array") {
        return ValuePanelValue::Array {
            shape: ValuePanelArrayShape { rows: 0, cols: 0 },
            rows: Vec::new(),
            truncated: true,
        };
    }
    let starts_hash = chars[a] == '#';
    proof {
        reveal_strlit("#");
        if starts_hash {
            assert(t.subrange(0, 1) =~= "#"@);
        } else {
            assert(t.subrange(0, 1)[0] != "#"@[0]);
        }
    }
    if lowered_starts_with(&chars, a, b, "error") || starts_hash {
        return ValuePanelValue::Error {
            code_label: string_from_chars(&chars, a, b),
            code_numeric: None,
            surface: None,
            detail: None,
        };
    }
    text_value(&chars, a, b)
}

/// `step` has this label, preview and status (`None` for live, else the
/// seam id of the missing piece).
pub open spec fn step_is(
    step: ValuePanelPipelineStep,
    label: Seq<char>,
    preview: Option<Seq<char>>,
    seam: Option<Seq<char>>,
) -> bool {
    &&& step.label@ == label
    &&& string_view(step.value_preview) == preview
    &&& match (step.status, seam) {
        (ValuePanelPipelineStepStatus::Live, None) => true,
        (ValuePanelPipelineStepStatus::NotImplemented { seam_id }, Some(id)) => seam_id@ == id,
        _ => false,
    }
}

fn step(label: &str, value_preview: Option<String>, seam_id: Option<&str>) -> (r: ValuePanelPipelineStep)
    ensures
        step_is(r, label@, string_view(value_preview), str_view(seam_id)),
{
    ValuePanelPipelineStep {
        label: label.to_owned(),
        value_preview,
        status: match seam_id {
            Some(id) => ValuePanelPipelineStepStatus::NotImplemented { seam_id: id.to_owned() },
            None => ValuePanelPipelineStepStatus::Live,
        },
    }
}

fn owned(s: Option<&str>) -> (r: Option<String>)
    ensures
        string_view(r) == str_view(s),
{
    match s {
        Some(s) => Some(s.to_owned()),
        None => None,
    }
}

/// Builds a minimal panel from Explore's string-only projection: the
/// classified value, no presentation, the effective display text, a
/// five-step display pipeline (raw, format code, locale, CF override,
/// effective) whose unimplemented steps name their seam, and the green tree
/// key as provenance.
pub fn build_value_panel_from_explore_strings(
    result_value_summary: Option<&str>,
    effective_display_summary: Option<&str>,
    green_tree_key: Option<&str>,
    live_state: EditorLiveState,
) -> (r: ValuePanelViewModel)
    requires
        result_value_summary matches Some(t) ==> 2 * t@.len() <= usize::MAX,
    ensures
        classified_as(r.value, str_view(result_value_summary)),
        r.presentation is None,
        string_view(r.effective_display_text) == str_view(effective_display_summary),
        r.display_pipeline@.len() == 5,
        step_is(r.display_pipeline@[0], "raw"@, Some(r.value.header_label_spec()), None),
        step_is(r.display_pipeline@[1], "format code"@, None, Some("SEAM-ONECALC-EXTENDED-VALUE-ROUTING"@)),
        step_is(r.display_pipeline@[2], "locale"@, None, Some("SEAM-OXFUNC-LOCALE-EXPAND"@)),
        step_is(r.display_pipeline@[3], "CF override"@, None, Some("SEAM-OXFML-CF-COLORSCALE"@)),
        step_is(
            r.display_pipeline@[4],
            "effective"@,
            str_view(effective_display_summary),
            if effective_display_summary is Some { None } else { Some("SEAM-ONECALC-EXTENDED-VALUE-ROUTING"@) },
        ),
        match green_tree_key {
            Some(key) => r.provenance matches Some(p) && string_view(p.green_tree_key) == Some(key@)
                && p.walk_node_id is None,
            None => r.provenance is None,
        },
        r.live_state == live_state,
{
    let value = classify_result_summary(result_value_summary);
    let mut display_pipeline: Vec<ValuePanelPipelineStep> = Vec::new();
    display_pipeline.push(step("raw", Some(value.header_label()), None));
    display_pipeline.push(step("format code", None, Some("SEAM-ONECALC-EXTENDED-VALUE-ROUTING")));
    display_pipeline.push(step("locale", None, Some("SEAM-OXFUNC-LOCALE-EXPAND")));
    display_pipeline.push(step("CF override", None, Some("SEAM-OXFML-CF-COLORSCALE")));
    let effective_seam = if effective_display_summary.is_some() {
        None
    } else {
        Some("SEAM-ONECALC-EXTENDED-VALUE-ROUTING")
    };
    display_pipeline.push(step("effective", owned(effective_display_summary), effective_seam));
    let provenance = match green_tree_key {
        Some(key) => Some(ValuePanelProvenance { green_tree_key: Some(key.to_owned()), walk_node_id: None }),
        None => None,
    };
    ValuePanelViewModel {
        value,
        presentation: None,
        effective_display_text: owned(effective_display_summary),
        display_pipeline,
        provenance,
        live_state,
    }
}

/// `v` is an error value labelled `label`.
pub open spec fn is_error_labelled(v: ValuePanelValue, label: Seq<char>) -> bool {
    v matches ValuePanelValue::Error { code_label, .. } && code_label@ == label
}

/// How a result summary is read, by its trimmed text in any ASCII case:
/// nothing or only whitespace is unevaluated; `true` is the logical TRUE,
/// `false` and `logical` the logical FALSE; `number` is a number, `text` a
/// text, anything starting with `array` an array; and a summary starting
/// with `#` or `error` is an error labelled with the summary; a summary that
/// starts with no letter of these words (nor `#`) is a text.
pub proof fn law_summary_classification(v: ValuePanelValue, raw: Option<Seq<char>>)
    requires
        classified_as(v, raw),
    ensures
        raw is None ==> v is Unevaluated,
        raw matches Some(x) && trimmed(x).len() == 0 ==> v is Unevaluated,
        raw matches Some(x) && ascii_lowercase(trimmed(x)) == "true"@ ==> v == ValuePanelValue::Logical(true),
        raw matches Some(x) && (ascii_lowercase(trimmed(x)) == "false"@ || ascii_lowercase(trimmed(x)) == "logical"@)
            ==> v == ValuePanelValue::Logical(false),
        raw matches Some(x) && ascii_lowercase(trimmed(x)) == "number"@ ==> v is Number,
        raw matches Some(x) && ascii_lowercase(trimmed(x)) == "text"@ ==> v is Text,
        raw matches Some(x) && trimmed(x).len() >= 5 && ascii_lowercase(trimmed(x)).subrange(0, 5) == "array"@
            ==> v is Array,
        match raw {
            Some(x) => trimmed(x).len() > 0 && trimmed(x)[0] == '#' ==> is_error_labelled(v, trimmed(x)),
            None => true,
        },
        match raw {
            Some(x) => trimmed(x).len() >= 5 && ascii_lowercase(trimmed(x)).subrange(0, 5) == "error"@
                ==> is_error_labelled(v, trimmed(x)),
            None => true,
        },
        match raw {
            Some(x) => trimmed(x).len() > 0 && {
                let c = ascii_lower(trimmed(x)[0]);
                c != 'n' && c != 't' && c != 'l' && c != 'f' && c != 'a' && c != 'e' && c != '#'
            } ==> is_text_value(v, trimmed(x)),
            None => true,
        },
{
    reveal_strlit("number");
    reveal_strlit("number ");
    reveal_strlit("number·");
    reveal_strlit("text");
    reveal_strlit("text ");
    reveal_strlit("logical");
    reveal_strlit("true");
    reveal_strlit("false");
    reveal_strlit("array");
    reveal_strlit("error");
    reveal_strlit("#");
    if let Some(x) = raw {
        let t = trimmed(x);
        let low = ascii_lowercase(t);
        assert(low.len() == t.len());
        if low.len() > 0 {
            let c = low[0];
            assert(c == ascii_lower(t[0]));
            if c != "number"@[0] {
                assert(low != "number"@);
                assert(!starts_with(low, "number "@)) by {
                    if low.len() >= 7 { assert(low.subrange(0, 7)[0] != "number "@[0]); }
                }
                assert(!starts_with(low, "number·"@)) by {
                    if low.len() >= 7 { assert(low.subrange(0, 7)[0] != "number·"@[0]); }
                }
            }
            if c != "text"@[0] {
                assert(low != "text"@);
                assert(!starts_with(low, "text "@)) by {
                    if low.len() >= 5 { assert(low.subrange(0, 5)[0] != "text "@[0]); }
                }
            }
            if c != "array"@[0] {
                assert(low != "array"@);
                assert(!starts_with(low, "array"@)) by {
                    if low.len() >= 5 { assert(low.subrange(0, 5)[0] != "array"@[0]); }
                }
            }
            if low == "true"@ {
                assert(low[1] == 'r' && "text"@[1] == 'e');
                assert(low != "text"@);
                assert(!starts_with(low, "text "@));
                assert(!starts_with(low, "number "@) && !starts_with(low, "number·"@));
            }
            if low == "false"@ || low == "logical"@ {
                assert(low != "true"@);
                assert(!starts_with(low, "number "@)) by {
                    if low.len() >= 7 { assert(low.subrange(0, 7)[0] != "number "@[0]); }
                }
            }
            if low == "text"@ {
                assert(!starts_with(low, "number "@) && !starts_with(low, "number·"@));
            }
            if t.len() >= 5 && low.subrange(0, 5) == "array"@ {
                assert(low[0] == 'a');
                assert(low != "logical"@ && low != "true"@ && low != "false"@) by {
                    assert("logical"@[0] != 'a' && "true"@[0] != 'a' && "false"@[0] != 'a');
                }
                assert(starts_with(low, "array"@));
            }
            if c != 'l' && c != 't' && c != 'f' {
                assert(low != "logical"@ && low != "true"@ && low != "false"@) by {
                    assert("logical"@[0] == 'l' && "true"@[0] == 't' && "false"@[0] == 'f');
                }
            }
            if c != 'e' {
                assert(!starts_with(low, "error"@)) by {
                    if low.len() >= 5 { assert(low.subrange(0, 5)[0] != "error"@[0]); }
                }
            }
            if t[0] != '#' {
                assert(!starts_with(t, "#"@)) by {
                    if t.len() >= 1 { assert(t.subrange(0, 1)[0] != "#"@[0]); }
                }
            }
            if t.len() >= 5 && low.subrange(0, 5) == "error"@ {
                assert(low[0] == 'e');
                assert(low != "logical"@ && low != "true"@ && low != "false"@) by {
                    assert("logical"@[0] != 'e' && "true"@[0] != 'e' && "false"@[0] != 'e');
                }
                assert(starts_with(low, "error"@));
            }
            if t[0] == '#' {
                assert(c == '#');
                assert(low != "logical"@ && low != "true"@ && low != "false"@) by {
                    assert("logical"@[0] != '#' && "true"@[0] != '#' && "false"@[0] != '#');
                }
                assert(!starts_with(low, "array"@));
                assert(t.subrange(0, 1) =~= "#"@);
                assert(starts_with(t, "#"@));
            }
        }
    }
}

} // verus!
