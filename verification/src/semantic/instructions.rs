//! The instruction registry: the known layout/style instructions, their
//! parameters and the keywords each parameter accepts. Used during semantic
//! analysis to validate instruction usage and to tell contextual keywords from
//! variable references.

use vstd::prelude::*;
use crate::text::str_eq;

verus! {

broadcast use vstd::seq::group_seq_axioms;

/// The kind of values a parameter accepts
#[derive(Debug, Clone, Copy)]
pub enum ParamKind {
    /// Any expression (numeric, string, color, etc.)
    Expression,
    /// Must be one of these keyword values
    Keywords(&'static [&'static str]),
    /// Either a keyword from the list, or any expression
    KeywordOrExpr(&'static [&'static str]),
}

/// What a parameter kind accepts, with keywords as character sequences.
pub enum ParamKindView {
    Expression,
    Keywords(Seq<Seq<char>>),
    KeywordOrExpr(Seq<Seq<char>>),
}

/// A parameter's name and accepted values.
pub struct ParamView {
    pub name: Seq<char>,
    pub kind: ParamKindView,
}

/// The keywords of a keyword list.
pub open spec fn words_view(w: &'static [&'static str]) -> Seq<Seq<char>> {
    w@.map_values(|s: &str| s@)
}

impl ParamKind {
    pub open spec fn view(&self) -> ParamKindView {
        match self {
            ParamKind::Expression => ParamKindView::Expression,
            ParamKind::Keywords(w) => ParamKindView::Keywords(words_view(*w)),
            ParamKind::KeywordOrExpr(w) => ParamKindView::KeywordOrExpr(words_view(*w)),
        }
    }
}

/// Definition of an instruction parameter
#[derive(Debug, Clone, Copy)]
pub struct ParamDef {
    /// Parameter name (empty string for positional/unnamed params)
    pub name: &'static str,
    /// What kind of values this parameter accepts
    pub kind: ParamKind,
}

impl ParamDef {
    pub open spec fn view(&self) -> ParamView {
        ParamView { name: self.name@, kind: self.kind.view() }
    }
}

/// The views of a parameter list.
pub open spec fn params_view(ps: Seq<ParamDef>) -> Seq<ParamView> {
    ps.map_values(|p: ParamDef| p.view())
}

/// Definition of an instruction
#[derive(Debug, Clone)]
pub struct InstructionDef {
    /// Name of the instruction
    pub name: &'static str,
    /// Parameter definitions
    pub params: Vec<ParamDef>,
}

/// Whether a registry parameter name matches a parsed parameter name. The
/// registry uses "" for positional params, the parser uses "value" by default.
pub open spec fn params_match_spec(registry_name: Seq<char>, parsed_name: Seq<char>) -> bool {
    ||| registry_name == parsed_name
    ||| (registry_name.len() == 0 && parsed_name == "value"@)
    ||| (registry_name == "value"@ && parsed_name.len() == 0)
}

/// The first parameter (in declaration order) whose name matches `name`.
pub open spec fn first_matching_param(params: Seq<ParamView>, name: Seq<char>) -> Option<ParamView>
    decreases params.len(),
{
    if params.len() == 0 {
        None
    } else if params_match_spec(params[0].name, name) {
        Some(params[0])
    } else {
        first_matching_param(params.drop_first(), name)
    }
}

/// Parameters of the `dimension` instructions.
pub open spec fn dimension_params_spec() -> Seq<ParamView> {
    seq![ParamView { name: ""@, kind: ParamKindView::KeywordOrExpr(seq!["expand"@, "container"@, "content"@]) }, ParamView { name: "value"@, kind: ParamKindView::KeywordOrExpr(seq!["expand"@, "container"@, "content"@]) }, ParamView { name: "min"@, kind: ParamKindView::Expression }, ParamView { name: "max"@, kind: ParamKindView::Expression }] 
}

fn dimension_params() -> (r: Vec<ParamDef>)
    ensures
        params_view(r@) == dimension_params_spec(),
{

    let w0: &'static [&'static str] = &["expand", "container", "content"];
    proof {
        assert(words_view(w0) =~= seq!["expand"@, "container"@, "content"@]);
    }
    let w1: &'static [&'static str] = &["expand", "container", "content"];
    proof {
        assert(words_view(w1) =~= seq!["expand"@, "container"@, "content"@]);
    }
    let r = vec![ParamDef { name: "", kind: ParamKind::KeywordOrExpr(w0) }, ParamDef { name: "value", kind: ParamKind::KeywordOrExpr(w1) }, ParamDef { name: "min", kind: ParamKind::Expression }, ParamDef { name: "max", kind: ParamKind::Expression }];
    proof {
        assert(params_view(r@) =~= dimension_params_spec());
    }
    r
}

/// Parameters of the `single_expression` instructions.
pub open spec fn single_expression_params_spec() -> Seq<ParamView> {
    seq![ParamView { name: ""@, kind: ParamKindView::Expression }] 
}

fn single_expression_params() -> (r: Vec<ParamDef>)
    ensures
        params_view(r@) == single_expression_params_spec(),
{

    let r = vec![ParamDef { name: "", kind: ParamKind::Expression }];
    proof {
        assert(params_view(r@) =~= single_expression_params_spec());
    }
    r
}

/// Parameters of the `position` instructions.
pub open spec fn position_params_spec() -> Seq<ParamView> {
    seq![ParamView { name: "top"@, kind: ParamKindView::Expression }, ParamView { name: "left"@, kind: ParamKindView::Expression }, ParamView { name: "right"@, kind: ParamKindView::Expression }, ParamView { name: "bottom"@, kind: ParamKindView::Expression }] 
}

fn position_params() -> (r: Vec<ParamDef>)
    ensures
        params_view(r@) == position_params_spec(),
{

    let r = vec![ParamDef { name: "top", kind: ParamKind::Expression }, ParamDef { name: "left", kind: ParamKind::Expression }, ParamDef { name: "right", kind: ParamKind::Expression }, ParamDef { name: "bottom", kind: ParamKind::Expression }];
    proof {
        assert(params_view(r@) =~= position_params_spec());
    }
    r
}

/// Parameters of the `surrounding` instructions.
pub open spec fn surrounding_params_spec() -> Seq<ParamView> {
    seq![ParamView { name: ""@, kind: ParamKindView::Expression }, ParamView { name: "top"@, kind: ParamKindView::Expression }, ParamView { name: "right"@, kind: ParamKindView::Expression }, ParamView { name: "bottom"@, kind: ParamKindView::Expression }, ParamView { name: "left"@, kind: ParamKindView::Expression }, ParamView { name: "horizontal"@, kind: ParamKindView::Expression }, ParamView { name: "vertical"@, kind: ParamKindView::Expression }] 
}

fn surrounding_params() -> (r: Vec<ParamDef>)
    ensures
        params_view(r@) == surrounding_params_spec(),
{

    let r = vec![ParamDef { name: "", kind: ParamKind::Expression }, ParamDef { name: "top", kind: ParamKind::Expression }, ParamDef { name: "right", kind: ParamKind::Expression }, ParamDef { name: "bottom", kind: ParamKind::Expression }, ParamDef { name: "left", kind: ParamKind::Expression }, ParamDef { name: "horizontal", kind: ParamKind::Expression }, ParamDef { name: "vertical", kind: ParamKind::Expression }];
    proof {
        assert(params_view(r@) =~= surrounding_params_spec());
    }
    r
}

/// Parameters of the `border` instructions.
pub open spec fn border_params_spec() -> Seq<ParamView> {
    seq![ParamView { name: ""@, kind: ParamKindView::Expression }, ParamView { name: "top"@, kind: ParamKindView::Expression }, ParamView { name: "right"@, kind: ParamKindView::Expression }, ParamView { name: "bottom"@, kind: ParamKindView::Expression }, ParamView { name: "left"@, kind: ParamKindView::Expression }, ParamView { name: "horizontal"@, kind: ParamKindView::Expression }, ParamView { name: "vertical"@, kind: ParamKindView::Expression }, ParamView { name: "color"@, kind: ParamKindView::Expression }, ParamView { name: "width"@, kind: ParamKindView::Expression }] 
}

fn border_params() -> (r: Vec<ParamDef>)
    ensures
        params_view(r@) == border_params_spec(),
{

    let r = vec![ParamDef { name: "", kind: ParamKind::Expression }, ParamDef { name: "top", kind: ParamKind::Expression }, ParamDef { name: "right", kind: ParamKind::Expression }, ParamDef { name: "bottom", kind: ParamKind::Expression }, ParamDef { name: "left", kind: ParamKind::Expression }, ParamDef { name: "horizontal", kind: ParamKind::Expression }, ParamDef { name: "vertical", kind: ParamKind::Expression }, ParamDef { name: "color", kind: ParamKind::Expression }, ParamDef { name: "width", kind: ParamKind::Expression }];
    proof {
        assert(params_view(r@) =~= border_params_spec());
    }
    r
}

/// Parameters of the `fill_strategy` instructions.
pub open spec fn fill_strategy_params_spec() -> Seq<ParamView> {
    seq![ParamView { name: ""@, kind: ParamKindView::Keywords(seq!["constrain"@, "constrain_reverse"@, "resize_to_max"@]) }] 
}

fn fill_strategy_params() -> (r: Vec<ParamDef>)
    ensures
        params_view(r@) == fill_strategy_params_spec(),
{

    let w0: &'static [&'static str] = &["constrain", "constrain_reverse", "resize_to_max"];
    proof {
        assert(words_view(w0) =~= seq!["constrain"@, "constrain_reverse"@, "resize_to_max"@]);
    }
    let r = vec![ParamDef { name: "", kind: ParamKind::Keywords(w0) }];
    proof {
        assert(params_view(r@) =~= fill_strategy_params_spec());
    }
    r
}

/// Parameters of the `gap` instructions.
pub open spec fn gap_params_spec() -> Seq<ParamView> {
    seq![ParamView { name: ""@, kind: ParamKindView::Expression }, ParamView { name: "width"@, kind: ParamKindView::Expression }, ParamView { name: "height"@, kind: ParamKindView::Expression }] 
}

fn gap_params() -> (r: Vec<ParamDef>)
    ensures
        params_view(r@) == gap_params_spec(),
{

    let r = vec![ParamDef { name: "", kind: ParamKind::Expression }, ParamDef { name: "width", kind: ParamKind::Expression }, ParamDef { name: "height", kind: ParamKind::Expression }];
    proof {
        assert(params_view(r@) =~= gap_params_spec());
    }
    r
}

/// Parameters of the `alignment` instructions.
pub open spec fn alignment_params_spec() -> Seq<ParamView> {
    seq![ParamView { name: "horizontal"@, kind: ParamKindView::Keywords(seq!["start"@, "center"@, "end"@]) }, ParamView { name: "vertical"@, kind: ParamKindView::Keywords(seq!["top"@, "center"@, "baseline"@, "bottom"@]) }] 
}

fn alignment_params() -> (r: Vec<ParamDef>)
    ensures
        params_view(r@) == alignment_params_spec(),
{

    let w0: &'static [&'static str] = &["start", "center", "end"];
    proof {
        assert(words_view(w0) =~= seq!["start"@, "center"@, "end"@]);
    }
    let w1: &'static [&'static str] = &["top", "center", "baseline", "bottom"];
    proof {
        assert(words_view(w1) =~= seq!["top"@, "center"@, "baseline"@, "bottom"@]);
    }
    let r = vec![ParamDef { name: "horizontal", kind: ParamKind::Keywords(w0) }, ParamDef { name: "vertical", kind: ParamKind::Keywords(w1) }];
    proof {
        assert(params_view(r@) =~= alignment_params_spec());
    }
    r
}

/// Parameters of the `align_relative` instructions.
pub open spec fn align_relative_params_spec() -> Seq<ParamView> {
    seq![ParamView { name: "horizontal"@, kind: ParamKindView::Keywords(seq!["before"@, "start"@, "center"@, "end"@, "after"@]) }, ParamView { name: "vertical"@, kind: ParamKindView::Keywords(seq!["above"@, "start"@, "center"@, "end"@, "below"@]) }] 
}

fn align_relative_params() -> (r: Vec<ParamDef>)
    ensures
        params_view(r@) == align_relative_params_spec(),
{

    let w0: &'static [&'static str] = &["before", "start", "center", "end", "after"];
    proof {
        assert(words_view(w0) =~= seq!["before"@, "start"@, "center"@, "end"@, "after"@]);
    }
    let w1: &'static [&'static str] = &["above", "start", "center", "end", "below"];
    proof {
        assert(words_view(w1) =~= seq!["above"@, "start"@, "center"@, "end"@, "below"@]);
    }
    let r = vec![ParamDef { name: "horizontal", kind: ParamKind::Keywords(w0) }, ParamDef { name: "vertical", kind: ParamKind::Keywords(w1) }];
    proof {
        assert(params_view(r@) =~= align_relative_params_spec());
    }
    r
}

/// Parameters of the `scroll` instructions.
pub open spec fn scroll_params_spec() -> Seq<ParamView> {
    seq![ParamView { name: ""@, kind: ParamKindView::Keywords(seq!["horizontal"@, "vertical"@, "both"@]) }] 
}

fn scroll_params() -> (r: Vec<ParamDef>)
    ensures
        params_view(r@) == scroll_params_spec(),
{

    let w0: &'static [&'static str] = &["horizontal", "vertical", "both"];
    proof {
        assert(words_view(w0) =~= seq!["horizontal"@, "vertical"@, "both"@]);
    }
    let r = vec![ParamDef { name: "", kind: ParamKind::Keywords(w0) }];
    proof {
        assert(params_view(r@) =~= scroll_params_spec());
    }
    r
}

/// Parameters of the `background` instructions.
pub open spec fn background_params_spec() -> Seq<ParamView> {
    seq![ParamView { name: "color"@, kind: ParamKindView::Expression }, ParamView { name: "opacity"@, kind: ParamKindView::Expression }, ParamView { name: "gradient"@, kind: ParamKindView::Expression }, ParamView { name: "image"@, kind: ParamKindView::Expression }] 
}

fn background_params() -> (r: Vec<ParamDef>)
    ensures
        params_view(r@) == background_params_spec(),
{

    let r = vec![ParamDef { name: "color", kind: ParamKind::Expression }, ParamDef { name: "opacity", kind: ParamKind::Expression }, ParamDef { name: "gradient", kind: ParamKind::Expression }, ParamDef { name: "image", kind: ParamKind::Expression }];
    proof {
        assert(params_view(r@) =~= background_params_spec());
    }
    r
}

/// Parameters of the `corner_radius` instructions.
pub open spec fn corner_radius_params_spec() -> Seq<ParamView> {
    seq![ParamView { name: ""@, kind: ParamKindView::Expression }, ParamView { name: "top"@, kind: ParamKindView::Expression }, ParamView { name: "bottom"@, kind: ParamKindView::Expression }, ParamView { name: "left"@, kind: ParamKindView::Expression }, ParamView { name: "right"@, kind: ParamKindView::Expression }, ParamView { name: "top_left"@, kind: ParamKindView::Expression }, ParamView { name: "top_right"@, kind: ParamKindView::Expression }, ParamView { name: "bottom_left"@, kind: ParamKindView::Expression }, ParamView { name: "bottom_right"@, kind: ParamKindView::Expression }] 
}

fn corner_radius_params() -> (r: Vec<ParamDef>)
    ensures
        params_view(r@) == corner_radius_params_spec(),
{

    let r = vec![ParamDef { name: "", kind: ParamKind::Expression }, ParamDef { name: "top", kind: ParamKind::Expression }, ParamDef { name: "bottom", kind: ParamKind::Expression }, ParamDef { name: "left", kind: ParamKind::Expression }, ParamDef { name: "right", kind: ParamKind::Expression }, ParamDef { name: "top_left", kind: ParamKind::Expression }, ParamDef { name: "top_right", kind: ParamKind::Expression }, ParamDef { name: "bottom_left", kind: ParamKind::Expression }, ParamDef { name: "bottom_right", kind: ParamKind::Expression }];
    proof {
        assert(params_view(r@) =~= corner_radius_params_spec());
    }
    r
}

/// Parameters of the `shadow` instructions.
pub open spec fn shadow_params_spec() -> Seq<ParamView> {
    seq![ParamView { name: "color"@, kind: ParamKindView::Expression }, ParamView { name: "offset_x"@, kind: ParamKindView::Expression }, ParamView { name: "offset_y"@, kind: ParamKindView::Expression }, ParamView { name: "blur"@, kind: ParamKindView::Expression }] 
}

fn shadow_params() -> (r: Vec<ParamDef>)
    ensures
        params_view(r@) == shadow_params_spec(),
{

    let r = vec![ParamDef { name: "color", kind: ParamKind::Expression }, ParamDef { name: "offset_x", kind: ParamKind::Expression }, ParamDef { name: "offset_y", kind: ParamKind::Expression }, ParamDef { name: "blur", kind: ParamKind::Expression }];
    proof {
        assert(params_view(r@) =~= shadow_params_spec());
    }
    r
}

/// Parameters of the `cursor` instructions.
pub open spec fn cursor_params_spec() -> Seq<ParamView> {
    seq![ParamView { name: ""@, kind: ParamKindView::Keywords(seq!["default"@, "pointer"@, "text"@, "crosshair"@, "move"@, "none"@, "grab"@, "grabbing"@]) }] 
}

fn cursor_params() -> (r: Vec<ParamDef>)
    ensures
        params_view(r@) == cursor_params_spec(),
{

    let w0: &'static [&'static str] = &["default", "pointer", "text", "crosshair", "move", "none", "grab", "grabbing"];
    proof {
        assert(words_view(w0) =~= seq!["default"@, "pointer"@, "text"@, "crosshair"@, "move"@, "none"@, "grab"@, "grabbing"@]);
    }
    let r = vec![ParamDef { name: "", kind: ParamKind::Keywords(w0) }];
    proof {
        assert(params_view(r@) =~= cursor_params_spec());
    }
    r
}

/// Parameters of the `focusable` instructions.
pub open spec fn focusable_params_spec() -> Seq<ParamView> {
    seq![ParamView { name: ""@, kind: ParamKindView::KeywordOrExpr(seq!["false"@, "programmatic"@]) }, ParamView { name: "order"@, kind: ParamKindView::KeywordOrExpr(seq!["false"@, "programmatic"@]) }] 
}

fn focusable_params() -> (r: Vec<ParamDef>)
    ensures
        params_view(r@) == focusable_params_spec(),
{

    let w0: &'static [&'static str] = &["false", "programmatic"];
    proof {
        assert(words_view(w0) =~= seq!["false"@, "programmatic"@]);
    }
    let w1: &'static [&'static str] = &["false", "programmatic"];
    proof {
        assert(words_view(w1) =~= seq!["false"@, "programmatic"@]);
    }
    let r = vec![ParamDef { name: "", kind: ParamKind::KeywordOrExpr(w0) }, ParamDef { name: "order", kind: ParamKind::KeywordOrExpr(w1) }];
    proof {
        assert(params_view(r@) =~= focusable_params_spec());
    }
    r
}

/// Parameters of the `pointer_events` instructions.
pub open spec fn pointer_events_params_spec() -> Seq<ParamView> {
    seq![ParamView { name: ""@, kind: ParamKindView::Keywords(seq!["enabled"@, "disabled"@]) }] 
}

fn pointer_events_params() -> (r: Vec<ParamDef>)
    ensures
        params_view(r@) == pointer_events_params_spec(),
{

    let w0: &'static [&'static str] = &["enabled", "disabled"];
    proof {
        assert(words_view(w0) =~= seq!["enabled"@, "disabled"@]);
    }
    let r = vec![ParamDef { name: "", kind: ParamKind::Keywords(w0) }];
    proof {
        assert(params_view(r@) =~= pointer_events_params_spec());
    }
    r
}

/// Parameters of the `font` instructions.
pub open spec fn font_params_spec() -> Seq<ParamView> {
    seq![ParamView { name: "name"@, kind: ParamKindView::Expression }, ParamView { name: "size"@, kind: ParamKindView::Expression }, ParamView { name: "weight"@, kind: ParamKindView::Expression }, ParamView { name: "color"@, kind: ParamKindView::Expression }] 
}

fn font_params() -> (r: Vec<ParamDef>)
    ensures
        params_view(r@) == font_params_spec(),
{

    let r = vec![ParamDef { name: "name", kind: ParamKind::Expression }, ParamDef { name: "size", kind: ParamKind::Expression }, ParamDef { name: "weight", kind: ParamKind::Expression }, ParamDef { name: "color", kind: ParamKind::Expression }];
    proof {
        assert(params_view(r@) =~= font_params_spec());
    }
    r
}

/// Parameters of the `line_height` instructions.
pub open spec fn line_height_params_spec() -> Seq<ParamView> {
    seq![ParamView { name: ""@, kind: ParamKindView::Expression }, ParamView { name: "height"@, kind: ParamKindView::Expression }] 
}

fn line_height_params() -> (r: Vec<ParamDef>)
    ensures
        params_view(r@) == line_height_params_spec(),
{

    let r = vec![ParamDef { name: "", kind: ParamKind::Expression }, ParamDef { name: "height", kind: ParamKind::Expression }];
    proof {
        assert(params_view(r@) =~= line_height_params_spec());
    }
    r
}

/// Parameters of the `text_wrap` instructions.
pub open spec fn text_wrap_params_spec() -> Seq<ParamView> {
    seq![ParamView { name: ""@, kind: ParamKindView::Keywords(seq!["none"@, "wrap"@]) }] 
}

fn text_wrap_params() -> (r: Vec<ParamDef>)
    ensures
        params_view(r@) == text_wrap_params_spec(),
{

    let w0: &'static [&'static str] = &["none", "wrap"];
    proof {
        assert(words_view(w0) =~= seq!["none"@, "wrap"@]);
    }
    let r = vec![ParamDef { name: "", kind: ParamKind::Keywords(w0) }];
    proof {
        assert(params_view(r@) =~= text_wrap_params_spec());
    }
    r
}

/// Parameters of the `text_overflow` instructions.
pub open spec fn text_overflow_params_spec() -> Seq<ParamView> {
    seq![ParamView { name: ""@, kind: ParamKindView::Keywords(seq!["visible"@, "ellipsis"@]) }] 
}

fn text_overflow_params() -> (r: Vec<ParamDef>)
    ensures
        params_view(r@) == text_overflow_params_spec(),
{

    let w0: &'static [&'static str] = &["visible", "ellipsis"];
    proof {
        assert(words_view(w0) =~= seq!["visible"@, "ellipsis"@]);
    }
    let r = vec![ParamDef { name: "", kind: ParamKind::Keywords(w0) }];
    proof {
        assert(params_view(r@) =~= text_overflow_params_spec());
    }
    r
}

/// Parameters of the `letter_spacing` instructions.
pub open spec fn letter_spacing_params_spec() -> Seq<ParamView> {
    seq![ParamView { name: ""@, kind: ParamKindView::Expression }, ParamView { name: "value"@, kind: ParamKindView::Expression }] 
}

fn letter_spacing_params() -> (r: Vec<ParamDef>)
    ensures
        params_view(r@) == letter_spacing_params_spec(),
{

    let r = vec![ParamDef { name: "", kind: ParamKind::Expression }, ParamDef { name: "value", kind: ParamKind::Expression }];
    proof {
        assert(params_view(r@) =~= letter_spacing_params_spec());
    }
    r
}

/// Parameters of the `stereotype` instructions.
pub open spec fn stereotype_params_spec() -> Seq<ParamView> {
    seq![ParamView { name: ""@, kind: ParamKindView::Keywords(seq!["cancel"@, "save"@]) }] 
}

fn stereotype_params() -> (r: Vec<ParamDef>)
    ensures
        params_view(r@) == stereotype_params_spec(),
{

    let w0: &'static [&'static str] = &["cancel", "save"];
    proof {
        assert(words_view(w0) =~= seq!["cancel"@, "save"@]);
    }
    let r = vec![ParamDef { name: "", kind: ParamKind::Keywords(w0) }];
    proof {
        assert(params_view(r@) =~= stereotype_params_spec());
    }
    r
}

/// The instructions of the registry: each name with its parameter list, as
/// registered in order (a later registration of a name replaces an earlier one).
pub open spec fn instruction_table() -> Map<Seq<char>, Seq<ParamView>> {
    Map::<Seq<char>, Seq<ParamView>>::empty()
        .insert("width"@, dimension_params_spec())
        .insert("height"@, dimension_params_spec())
        .insert("size"@, single_expression_params_spec())
        .insert("position"@, position_params_spec())
        .insert("padding"@, surrounding_params_spec())
        .insert("margin"@, surrounding_params_spec())
        .insert("border"@, border_params_spec())
        .insert("fill_strategy"@, fill_strategy_params_spec())
        .insert("gap"@, gap_params_spec())
        .insert("align_self"@, alignment_params_spec())
        .insert("align_items"@, alignment_params_spec())
        .insert("align_relative"@, align_relative_params_spec())
        .insert("scroll"@, scroll_params_spec())
        .insert("background"@, background_params_spec())
        .insert("corner_radius"@, corner_radius_params_spec())
        .insert("shadow"@, shadow_params_spec())
        .insert("cursor"@, cursor_params_spec())
        .insert("tint"@, single_expression_params_spec())
        .insert("focusable"@, focusable_params_spec())
        .insert("pointer_events"@, pointer_events_params_spec())
        .insert("font"@, font_params_spec())
        .insert("line_height"@, line_height_params_spec())
        .insert("text_wrap"@, text_wrap_params_spec())
        .insert("text_overflow"@, text_overflow_params_spec())
        .insert("letter_spacing"@, letter_spacing_params_spec())
        .insert("stereotype"@, stereotype_params_spec())
        .insert("on_click"@, single_expression_params_spec())
        .insert("on_double_click"@, single_expression_params_spec())
        .insert("on_long_press"@, single_expression_params_spec())
        .insert("on_right_click"@, single_expression_params_spec())
        .insert("on_context_menu"@, single_expression_params_spec())
        .insert("on_hover_start"@, single_expression_params_spec())
        .insert("on_hover_end"@, single_expression_params_spec())
        .insert("on_key_down"@, single_expression_params_spec())
        .insert("on_key_up"@, single_expression_params_spec())
        .insert("on_key_press"@, single_expression_params_spec())
        .insert("on_scroll"@, single_expression_params_spec())
        .insert("on_resize"@, single_expression_params_spec())
        .insert("on_focus"@, single_expression_params_spec())
        .insert("on_blur"@, single_expression_params_spec())
        .insert("on_drag_start"@, single_expression_params_spec())
        .insert("on_drag_end"@, single_expression_params_spec())
        .insert("on_drag_enter"@, single_expression_params_spec())
        .insert("on_drag_leave"@, single_expression_params_spec())
        .insert("on_drop"@, single_expression_params_spec())
}

/// The shorthand instruction names of the registry.
pub open spec fn shorthand_table() -> Set<Seq<char>> {
    Set::<Seq<char>>::empty()
        .insert("fit_content"@)
        .insert("fill_width"@)
        .insert("fill_height"@)
        .insert("fill"@)
        .insert("expand"@)
        .insert("constrain"@)
        .insert("constrain_reverse"@)
        .insert("resize_to_max"@)
        .insert("align_self_center"@)
        .insert("align_items_center"@)
        .insert("align_self_start_top"@)
        .insert("align_self_start_center"@)
        .insert("align_self_start_bottom"@)
        .insert("align_self_start_baseline"@)
        .insert("align_self_center_top"@)
        .insert("align_self_center_center"@)
        .insert("align_self_center_bottom"@)
        .insert("align_self_center_baseline"@)
        .insert("align_self_end_top"@)
        .insert("align_self_end_center"@)
        .insert("align_self_end_bottom"@)
        .insert("align_self_end_baseline"@)
        .insert("align_items_start_top"@)
        .insert("align_items_start_center"@)
        .insert("align_items_start_bottom"@)
        .insert("align_items_start_baseline"@)
        .insert("align_items_center_top"@)
        .insert("align_items_center_center"@)
        .insert("align_items_center_bottom"@)
        .insert("align_items_center_baseline"@)
        .insert("align_items_end_top"@)
        .insert("align_items_end_center"@)
        .insert("align_items_end_bottom"@)
        .insert("align_items_end_baseline"@)
        .insert("space_around"@)
        .insert("space_between"@)
        .insert("focusable"@)
        .insert("not_focusable"@)
        .insert("autofocus"@)
        .insert("focus_trap"@)
        .insert("with_pointer_events"@)
        .insert("no_pointer_events"@)
        .insert("no_select"@)
        .insert("underline"@)
        .insert("small_caps"@)
}

/// Registry of all known instructions and their valid parameters
pub struct InstructionRegistry {
    instructions: Vec<InstructionDef>,
    /// All known shorthand instruction names (no params)
    shorthands: Vec<&'static str>,
}

/// Whether instruction `i` is named `name`.
pub open spec fn instr_named(defs: Seq<InstructionDef>, i: int, name: Seq<char>) -> bool {
    0 <= i < defs.len() && defs[i].name@ == name
}

impl InstructionRegistry {
    /// No two instructions, and no two shorthands, share a name.
    pub closed spec fn wf(&self) -> bool {
        &&& forall|i: int, j: int| 0 <= i < j < self.instructions@.len()
            ==> self.instructions@[i].name@ != self.instructions@[j].name@
        &&& forall|i: int, j: int| 0 <= i < j < self.shorthands@.len()
            ==> self.shorthands@[i]@ != self.shorthands@[j]@
    }

    /// The registered instructions: name to parameter list.
    pub closed spec fn instrs(&self) -> Map<Seq<char>, Seq<ParamView>> {
        Map::new(
            |n: Seq<char>| exists|i: int| instr_named(self.instructions@, i, n),
            |n: Seq<char>| params_view(self.instructions@[choose|i: int| instr_named(self.instructions@, i, n)].params@),
        )
    }

    /// The registered shorthand names.
    pub closed spec fn shorts(&self) -> Set<Seq<char>> {
        Set::new(|n: Seq<char>| exists|i: int| 0 <= i < self.shorthands@.len() && self.shorthands@[i]@ == n)
    }

    /// Create a new instruction registry with all known instructions
    pub fn new() -> (r: Self)
        ensures
            r.wf(),
            r.instrs() == instruction_table(),
            r.shorts() == shorthand_table(),
    {
        let mut registry = InstructionRegistry { instructions: Vec::new(), shorthands: Vec::new() };
        proof {
            assert(registry.instrs() =~= Map::<Seq<char>, Seq<ParamView>>::empty());
            assert(registry.shorts() =~= Set::<Seq<char>>::empty());
        }
        registry.register_all();
        registry
    }

    fn find(&self, name: &str) -> (r: Option<usize>)
        ensures
            match r {
                Some(i) => instr_named(self.instructions@, i as int, name@),
                None => !exists|i: int| instr_named(self.instructions@, i, name@),
            },
    {
        let mut i: usize = 0;
        while i < self.instructions.len()
            invariant
                i <= self.instructions@.len(),
                forall|j: int| 0 <= j < i ==> !instr_named(self.instructions@, j, name@),
            decreases self.instructions.len() - i,
        {
            if str_eq(self.instructions[i].name, name) {
                return Some(i);
            }
            i = i + 1;
        }
        None
    }

    /// Get the definition of an instruction by name
    pub fn get(&self, name: &str) -> (r: Option<&InstructionDef>)
        requires
            self.wf(),
        ensures
            match r {
                Some(d) => self.instrs().contains_key(name@) && d.name@ == name@
                    && params_view(d.params@) == self.instrs()[name@],
                None => !self.instrs().contains_key(name@),
            },
    {
        match self.find(name) {
            Some(i) => {
                proof {
                    let j = choose|j: int| instr_named(self.instructions@, j, name@);
                    if j != i as int {
                        assert(self.instructions@[i as int].name@ != self.instructions@[j].name@ || j == i as int);
                    }
                }
                Some(&self.instructions[i])
            },
            None => None,
        }
    }

    /// Check if a name is a known shorthand instruction
    pub fn is_shorthand(&self, name: &str) -> (r: bool)
        ensures
            r == self.shorts().contains(name@),
    {
        let mut i: usize = 0;
        while i < self.shorthands.len()
            invariant
                i <= self.shorthands@.len(),
                forall|j: int| 0 <= j < i ==> self.shorthands@[j]@ != name@,
            decreases self.shorthands.len() - i,
        {
            if str_eq(self.shorthands[i], name) {
                return true;
            }
            i = i + 1;
        }
        false
    }

    /// Check if a name is a known instruction (including shorthands)
    pub fn is_known(&self, name: &str) -> (r: bool)
        ensures
            r == (self.instrs().contains_key(name@) || self.shorts().contains(name@)),
    {
        self.find(name).is_some() || self.is_shorthand(name)
    }

    fn params_match(registry_name: &str, parsed_name: &str) -> (r: bool)
        ensures
            r == params_match_spec(registry_name@, parsed_name@),
    {
        str_eq(registry_name, parsed_name)
            || (registry_name.is_empty() && str_eq(parsed_name, "value"))
            || (str_eq(registry_name, "value") && parsed_name.is_empty())
    }

    /// The parameter of `instr_name` that `param_name` selects, if any.
    pub open spec fn param_spec(&self, instr_name: Seq<char>, param_name: Seq<char>) -> Option<ParamView> {
        if self.instrs().contains_key(instr_name) {
            first_matching_param(self.instrs()[instr_name], param_name)
        } else {
            None
        }
    }

    fn find_param(&self, instr_name: &str, param_name: &str) -> (r: Option<ParamKind>)
        requires
            self.wf(),
        ensures
            match r {
                Some(k) => self.param_spec(instr_name@, param_name@) matches Some(p) && p.kind == k.view(),
                None => self.param_spec(instr_name@, param_name@).is_none(),
            },
    {
        match self.get(instr_name) {
            Some(instr) => {
                let params = &instr.params;
                let ghost pv = params_view(params@);
                let mut i: usize = 0;
                proof {
                    assert(pv.subrange(0, pv.len() as int) =~= pv);
                }
                while i < params.len()
                    invariant
                        self.wf(),
                        self.instrs().contains_key(instr_name@),
                        pv == self.instrs()[instr_name@],
                        pv == params_view(params@),
                        i <= params@.len(),
                        first_matching_param(pv, param_name@) == first_matching_param(pv.subrange(i as int, pv.len() as int), param_name@),
                    decreases params.len() - i,
                {
                    proof {
                        assert(pv.subrange(i as int, pv.len() as int).drop_first() =~= pv.subrange(i + 1, pv.len() as int));
                        assert(pv.subrange(i as int, pv.len() as int)[0] == params@[i as int].view());
                    }
                    if Self::params_match(params[i].name, param_name) {
                        proof {
                            assert(pv[i as int] == params@[i as int].view());
                        }
                        return Some(params[i].kind);
                    }
                    i = i + 1;
                }
                None
            },
            None => None,
        }
    }

    /// Check if a value is a valid keyword for a specific instruction parameter
    pub fn is_valid_keyword(&self, instr_name: &str, param_name: &str, value: &str) -> (r: bool)
        requires
            self.wf(),
        ensures
            r == match self.param_spec(instr_name@, param_name@) {
                Some(p) => match p.kind {
                    ParamKindView::Expression => false,
                    ParamKindView::Keywords(w) => w.contains(value@),
                    ParamKindView::KeywordOrExpr(w) => w.contains(value@),
                },
                None => false,
            },
    {
        match self.find_param(instr_name, param_name) {
            Some(ParamKind::Expression) => false,
            Some(ParamKind::Keywords(w)) => contains_word(w, value),
            Some(ParamKind::KeywordOrExpr(w)) => contains_word(w, value),
            None => false,
        }
    }

    /// Get the list of valid keywords for an instruction parameter
    pub fn valid_keywords(&self, instr_name: &str, param_name: &str) -> (r: Option<&'static [&'static str]>)
        requires
            self.wf(),
        ensures
            match r {
                Some(w) => self.param_spec(instr_name@, param_name@) matches Some(p) && (
                    p.kind == ParamKindView::Keywords(words_view(w)) || p.kind == ParamKindView::KeywordOrExpr(words_view(w))),
                None => match self.param_spec(instr_name@, param_name@) {
                    Some(p) => p.kind is Expression,
                    None => true,
                },
            },
    {
        match self.find_param(instr_name, param_name) {
            Some(ParamKind::Expression) => None,
            Some(ParamKind::Keywords(w)) => Some(w),
            Some(ParamKind::KeywordOrExpr(w)) => Some(w),
            None => None,
        }
    }

    /// Check if an instruction parameter accepts expressions (not just keywords);
    /// unknown instructions and parameters accept expressions
    pub fn accepts_expression(&self, instr_name: &str, param_name: &str) -> (r: bool)
        requires
            self.wf(),
        ensures
            r == match self.param_spec(instr_name@, param_name@) {
                Some(p) => !(p.kind is Keywords),
                None => true,
            },
    {
        match self.find_param(instr_name, param_name) {
            Some(ParamKind::Keywords(_)) => false,
            Some(_) => true,
            None => true,
        }
    }

    fn register_instruction(&mut self, name: &'static str, params: Vec<ParamDef>)
        requires
            old(self).wf(),
        ensures
            final(self).wf(),
            final(self).instrs() == old(self).instrs().insert(name@, params_view(params@)),
            final(self).shorts() == old(self).shorts(),
    {
        let ghost pv = params_view(params@);
        let found = self.find(name);
        let ghost before = self.instructions@;
        match found {
            Some(i) => {
                self.instructions.set(i, InstructionDef { name, params });
            },
            None => {
                self.instructions.push(InstructionDef { name, params });
            },
        }
        proof {
            let after = self.instructions@;
            let k = match found { Some(i) => i as int, None => before.len() as int };
            assert(instr_named(after, k, name@));
            assert forall|a: int, b: int| 0 <= a < b < after.len() implies after[a].name@ != after[b].name@ by {
                if found is None {
                    if b == before.len() {
                        assert(!instr_named(before, a, name@));
                    }
                } else {
                    if a == k {
                        assert(before[b].name@ != before[k].name@);
                    } else if b == k {
                        assert(before[a].name@ != before[k].name@);
                    }
                }
            }
            let m_old = old(self).instrs();
            let m_new = self.instrs();
            assert forall|n: Seq<char>| #[trigger] m_new.dom().contains(n) == m_old.insert(name@, pv).dom().contains(n) by {
                if n != name@ {
                    if exists|i: int| instr_named(before, i, n) {
                        let i = choose|i: int| instr_named(before, i, n);
                        assert(instr_named(after, i, n));
                    }
                    if exists|i: int| instr_named(after, i, n) {
                        let i = choose|i: int| instr_named(after, i, n);
                        assert(instr_named(before, i, n));
                    }
                }
            }
            assert forall|n: Seq<char>| #[trigger] m_new.dom().contains(n) implies m_new[n] == m_old.insert(name@, pv)[n] by {
                let i = choose|i: int| instr_named(after, i, n);
                if n == name@ {
                    assert(i == k);
                } else {
                    assert(instr_named(before, i, n));
                    let j = choose|j: int| instr_named(before, j, n);
                    assert(i == j);
                }
            }
            assert(m_new =~= m_old.insert(name@, pv));
            assert(self.shorts() =~= old(self).shorts());
        }
    }

    fn register_shorthand(&mut self, name: &'static str)
        requires
            old(self).wf(),
        ensures
            final(self).wf(),
            final(self).instrs() == old(self).instrs(),
            final(self).shorts() == old(self).shorts().insert(name@),
    {
        if !self.is_shorthand(name) {
            let ghost before = self.shorthands@;
            self.shorthands.push(name);
            proof {
                let after = self.shorthands@;
                assert forall|a: int, b: int| 0 <= a < b < after.len() implies after[a]@ != after[b]@ by {
                    if b == before.len() {
                        assert(!old(self).shorts().contains(name@));
                        assert(after[a] == before[a]);
                    }
                }
                assert(self.shorts() =~= old(self).shorts().insert(name@)) by {
                    assert forall|n: Seq<char>| self.shorts().contains(n) == old(self).shorts().insert(name@).contains(n) by {
                        if n == name@ {
                            assert(after[before.len() as int]@ == n);
                        }
                        if self.shorts().contains(n) && n != name@ {
                            let i = choose|i: int| 0 <= i < after.len() && after[i]@ == n;
                            assert(i < before.len());
                            assert(before[i]@ == n);
                        }
                        if old(self).shorts().contains(n) {
                            let i = choose|i: int| 0 <= i < before.len() && before[i]@ == n;
                            assert(after[i]@ == n);
                        }
                    }
                }
                assert(self.instrs() =~= old(self).instrs());
            }
        } else {
            proof {
                assert(old(self).shorts().insert(name@) =~= old(self).shorts());
            }
        }
    }

    fn register_all(&mut self)
        requires
            old(self).wf(),
            old(self).instrs() == Map::<Seq<char>, Seq<ParamView>>::empty(),
            old(self).shorts() == Set::<Seq<char>>::empty(),
        ensures
            final(self).wf(),
            final(self).instrs() == instruction_table(),
            final(self).shorts() == shorthand_table(),
    {
        self.register_group_0();
        self.register_group_1();
        self.register_group_2();
        self.register_group_3();
        self.register_group_4();
        self.register_group_5();
        self.register_group_6();
        self.register_group_7();
        self.register_group_8();
    }

    #[verifier::rlimit(50)]
    fn register_group_0(&mut self)
        requires
            old(self).wf(),
        ensures
            final(self).wf(),
            final(self).instrs() == old(self).instrs().insert("width"@, dimension_params_spec()).insert("height"@, dimension_params_spec()).insert("size"@, single_expression_params_spec()).insert("position"@, position_params_spec()).insert("padding"@, surrounding_params_spec()),
            final(self).shorts() == old(self).shorts().insert("fit_content"@).insert("fill_width"@).insert("fill_height"@).insert("fill"@).insert("expand"@),
    {
        self.register_instruction("width", dimension_params());
        self.register_instruction("height", dimension_params());
        self.register_instruction("size", single_expression_params());
        self.register_shorthand("fit_content");
        self.register_shorthand("fill_width");
        self.register_shorthand("fill_height");
        self.register_shorthand("fill");
        self.register_shorthand("expand");
        self.register_instruction("position", position_params());
        self.register_instruction("padding", surrounding_params());
    }

    #[verifier::rlimit(50)]
    fn register_group_1(&mut self)
        requires
            old(self).wf(),
        ensures
            final(self).wf(),
            final(self).instrs() == old(self).instrs().insert("margin"@, surrounding_params_spec()).insert("border"@, border_params_spec()).insert("fill_strategy"@, fill_strategy_params_spec()).insert("gap"@, gap_params_spec()).insert("align_self"@, alignment_params_spec()).insert("align_items"@, alignment_params_spec()).insert("align_relative"@, align_relative_params_spec()),
            final(self).shorts() == old(self).shorts().insert("constrain"@).insert("constrain_reverse"@).insert("resize_to_max"@),
    {
        self.register_instruction("margin", surrounding_params());
        self.register_instruction("border", border_params());
        self.register_instruction("fill_strategy", fill_strategy_params());
        self.register_shorthand("constrain");
        self.register_shorthand("constrain_reverse");
        self.register_shorthand("resize_to_max");
        self.register_instruction("gap", gap_params());
        self.register_instruction("align_self", alignment_params());
        self.register_instruction("align_items", alignment_params());
        self.register_instruction("align_relative", align_relative_params());
    }

    #[verifier::rlimit(50)]
    fn register_group_2(&mut self)
        requires
            old(self).wf(),
        ensures
            final(self).wf(),
            final(self).instrs() == old(self).instrs(),
            final(self).shorts() == old(self).shorts().insert("align_self_center"@).insert("align_items_center"@).insert("align_self_start_top"@).insert("align_self_start_center"@).insert("align_self_start_bottom"@).insert("align_self_start_baseline"@).insert("align_self_center_top"@).insert("align_self_center_center"@).insert("align_self_center_bottom"@).insert("align_self_center_baseline"@),
    {
        self.register_shorthand("align_self_center");
        self.register_shorthand("align_items_center");
        self.register_shorthand("align_self_start_top");
        self.register_shorthand("align_self_start_center");
        self.register_shorthand("align_self_start_bottom");
        self.register_shorthand("align_self_start_baseline");
        self.register_shorthand("align_self_center_top");
        self.register_shorthand("align_self_center_center");
        self.register_shorthand("align_self_center_bottom");
        self.register_shorthand("align_self_center_baseline");
    }

    #[verifier::rlimit(50)]
    fn register_group_3(&mut self)
        requires
            old(self).wf(),
        ensures
            final(self).wf(),
            final(self).instrs() == old(self).instrs(),
            final(self).shorts() == old(self).shorts().insert("align_self_end_top"@).insert("align_self_end_center"@).insert("align_self_end_bottom"@).insert("align_self_end_baseline"@).insert("align_items_start_top"@).insert("align_items_start_center"@).insert("align_items_start_bottom"@).insert("align_items_start_baseline"@).insert("align_items_center_top"@).insert("align_items_center_center"@),
    {
        self.register_shorthand("align_self_end_top");
        self.register_shorthand("align_self_end_center");
        self.register_shorthand("align_self_end_bottom");
        self.register_shorthand("align_self_end_baseline");
        self.register_shorthand("align_items_start_top");
        self.register_shorthand("align_items_start_center");
        self.register_shorthand("align_items_start_bottom");
        self.register_shorthand("align_items_start_baseline");
        self.register_shorthand("align_items_center_top");
        self.register_shorthand("align_items_center_center");
    }

    #[verifier::rlimit(50)]
    fn register_group_4(&mut self)
        requires
            old(self).wf(),
        ensures
            final(self).wf(),
            final(self).instrs() == old(self).instrs().insert("scroll"@, scroll_params_spec()).insert("background"@, background_params_spec()),
            final(self).shorts() == old(self).shorts().insert("align_items_center_bottom"@).insert("align_items_center_baseline"@).insert("align_items_end_top"@).insert("align_items_end_center"@).insert("align_items_end_bottom"@).insert("align_items_end_baseline"@).insert("space_around"@).insert("space_between"@),
    {
        self.register_shorthand("align_items_center_bottom");
        self.register_shorthand("align_items_center_baseline");
        self.register_shorthand("align_items_end_top");
        self.register_shorthand("align_items_end_center");
        self.register_shorthand("align_items_end_bottom");
        self.register_shorthand("align_items_end_baseline");
        self.register_shorthand("space_around");
        self.register_shorthand("space_between");
        self.register_instruction("scroll", scroll_params());
        self.register_instruction("background", background_params());
    }

    #[verifier::rlimit(50)]
    fn register_group_5(&mut self)
        requires
            old(self).wf(),
        ensures
            final(self).wf(),
            final(self).instrs() == old(self).instrs().insert("corner_radius"@, corner_radius_params_spec()).insert("shadow"@, shadow_params_spec()).insert("cursor"@, cursor_params_spec()).insert("tint"@, single_expression_params_spec()).insert("focusable"@, focusable_params_spec()).insert("pointer_events"@, pointer_events_params_spec()),
            final(self).shorts() == old(self).shorts().insert("focusable"@).insert("not_focusable"@).insert("autofocus"@).insert("focus_trap"@),
    {
        self.register_instruction("corner_radius", corner_radius_params());
        self.register_instruction("shadow", shadow_params());
        self.register_instruction("cursor", cursor_params());
        self.register_instruction("tint", single_expression_params());
        self.register_instruction("focusable", focusable_params());
        self.register_shorthand("focusable");
        self.register_shorthand("not_focusable");
        self.register_shorthand("autofocus");
        self.register_shorthand("focus_trap");
        self.register_instruction("pointer_events", pointer_events_params());
    }

    #[verifier::rlimit(50)]
    fn register_group_6(&mut self)
        requires
            old(self).wf(),
        ensures
            final(self).wf(),
            final(self).instrs() == old(self).instrs().insert("font"@, font_params_spec()).insert("line_height"@, line_height_params_spec()).insert("text_wrap"@, text_wrap_params_spec()).insert("text_overflow"@, text_overflow_params_spec()).insert("letter_spacing"@, letter_spacing_params_spec()),
            final(self).shorts() == old(self).shorts().insert("with_pointer_events"@).insert("no_pointer_events"@).insert("no_select"@).insert("underline"@).insert("small_caps"@),
    {
        self.register_shorthand("with_pointer_events");
        self.register_shorthand("no_pointer_events");
        self.register_shorthand("no_select");
        self.register_shorthand("underline");
        self.register_shorthand("small_caps");
        self.register_instruction("font", font_params());
        self.register_instruction("line_height", line_height_params());
        self.register_instruction("text_wrap", text_wrap_params());
        self.register_instruction("text_overflow", text_overflow_params());
        self.register_instruction("letter_spacing", letter_spacing_params());
    }

    #[verifier::rlimit(50)]
    fn register_group_7(&mut self)
        requires
            old(self).wf(),
        ensures
            final(self).wf(),
            final(self).instrs() == old(self).instrs().insert("stereotype"@, stereotype_params_spec()).insert("on_click"@, single_expression_params_spec()).insert("on_double_click"@, single_expression_params_spec()).insert("on_long_press"@, single_expression_params_spec()).insert("on_right_click"@, single_expression_params_spec()).insert("on_context_menu"@, single_expression_params_spec()).insert("on_hover_start"@, single_expression_params_spec()).insert("on_hover_end"@, single_expression_params_spec()).insert("on_key_down"@, single_expression_params_spec()).insert("on_key_up"@, single_expression_params_spec()),
            final(self).shorts() == old(self).shorts(),
    {
        self.register_instruction("stereotype", stereotype_params());
        self.register_instruction("on_click", single_expression_params());
        self.register_instruction("on_double_click", single_expression_params());
        self.register_instruction("on_long_press", single_expression_params());
        self.register_instruction("on_right_click", single_expression_params());
        self.register_instruction("on_context_menu", single_expression_params());
        self.register_instruction("on_hover_start", single_expression_params());
        self.register_instruction("on_hover_end", single_expression_params());
        self.register_instruction("on_key_down", single_expression_params());
        self.register_instruction("on_key_up", single_expression_params());
    }

    #[verifier::rlimit(50)]
    fn register_group_8(&mut self)
        requires
            old(self).wf(),
        ensures
            final(self).wf(),
            final(self).instrs() == old(self).instrs().insert("on_key_press"@, single_expression_params_spec()).insert("on_scroll"@, single_expression_params_spec()).insert("on_resize"@, single_expression_params_spec()).insert("on_focus"@, single_expression_params_spec()).insert("on_blur"@, single_expression_params_spec()).insert("on_drag_start"@, single_expression_params_spec()).insert("on_drag_end"@, single_expression_params_spec()).insert("on_drag_enter"@, single_expression_params_spec()).insert("on_drag_leave"@, single_expression_params_spec()).insert("on_drop"@, single_expression_params_spec()),
            final(self).shorts() == old(self).shorts(),
    {
        self.register_instruction("on_key_press", single_expression_params());
        self.register_instruction("on_scroll", single_expression_params());
        self.register_instruction("on_resize", single_expression_params());
        self.register_instruction("on_focus", single_expression_params());
        self.register_instruction("on_blur", single_expression_params());
        self.register_instruction("on_drag_start", single_expression_params());
        self.register_instruction("on_drag_end", single_expression_params());
        self.register_instruction("on_drag_enter", single_expression_params());
        self.register_instruction("on_drag_leave", single_expression_params());
        self.register_instruction("on_drop", single_expression_params());
    }

}

fn contains_word(words: &'static [&'static str], value: &str) -> (r: bool)
    ensures
        r == words_view(words).contains(value@),
{
    let mut i: usize = 0;
    while i < words.len()
        invariant
            i <= words@.len(),
            forall|j: int| 0 <= j < i ==> words@[j]@ != value@,
        decreases words.len() - i,
    {
        if str_eq(words[i], value) {
            proof {
                assert(words_view(words)[i as int] == value@);
            }
            return true;
        }
        i = i + 1;
    }
    proof {
        if words_view(words).contains(value@) {
            let j = choose|j: int| 0 <= j < words_view(words).len() && words_view(words)[j] == value@;
            assert(words@[j]@ == value@);
        }
    }
    false
}

impl Default for InstructionRegistry {
    fn default() -> (r: Self)
        ensures
            r.wf(),
            r.instrs() == instruction_table(),
            r.shorts() == shorthand_table(),
    {
        InstructionRegistry::new()
    }
}

/// Get an instruction registry with all known instructions
pub fn instruction_registry() -> (r: InstructionRegistry)
    ensures
        r.wf(),
        r.instrs() == instruction_table(),
        r.shorts() == shorthand_table(),
{
    InstructionRegistry::new()
}

} // verus!
