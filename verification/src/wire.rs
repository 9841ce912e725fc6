//! Serialization of the configuration model into the wire document.
//!
//! Every entity has a spec function giving its wire value and an exec
//! serializer proved to produce exactly that value. Optional fields that
//! are absent are omitted entirely, never emitted as null; extension
//! fields are merged after the typed ones, and typed fields win when a key
//! collides.

use vstd::prelude::*;
use crate::json::{Json, JsonV, extra_fields_view, merged_extra, push_extra_fields,
    view_json_fields, view_json_seq};
use crate::axis_typing::{AxisKindMarker, ValueSerializeWrapper, wire_of};
use crate::options::{AreaStyle, Axis, AxisPointer, EChartOptions, AxisPointerTargetAxis, AxisPointerType,
    AxisFillOrigin, AxisType, ClusteringConfig, DataPointSymbol, DataVariant, DatasetComponent,
    DatasetTransform, DatasetTransformConfig, DatasetTransformType, Grid, LabelledSource, Legend,
    LegendOrient, NamedValue, NamedValuePair, Order, Position, PositionKeyword, RegressionConfig,
    RegressionMethod, Series, SeriesDataSource, SeriesType, SortConfig, Source, Title, Tooltip,
    TooltipTrigger, Transform};
use crate::common::Size;

verus! {

/// The wire token of a keyword position.
pub open spec fn position_keyword_token(k: PositionKeyword) -> Seq<char> {
    match k {
        PositionKeyword::Left => "left"@,
        PositionKeyword::Right => "right"@,
        PositionKeyword::Top => "top"@,
        PositionKeyword::Bottom => "bottom"@,
        PositionKeyword::Middle => "middle"@,
        PositionKeyword::Center => "center"@,
        PositionKeyword::Auto => "auto"@,
    }
}

pub fn position_keyword_str(k: &PositionKeyword) -> (r: &'static str)
    ensures
        r@ == position_keyword_token(*k),
{
    match k {
        PositionKeyword::Left => "left",
        PositionKeyword::Right => "right",
        PositionKeyword::Top => "top",
        PositionKeyword::Bottom => "bottom",
        PositionKeyword::Middle => "middle",
        PositionKeyword::Center => "center",
        PositionKeyword::Auto => "auto",
    }
}

/// The wire token of a tooltip trigger.
pub open spec fn tooltip_trigger_token(t: TooltipTrigger) -> Seq<char> {
    match t {
        TooltipTrigger::Item => "item"@,
        TooltipTrigger::Axis => "axis"@,
        TooltipTrigger::Disabled => "none"@,
    }
}

pub fn tooltip_trigger_str(t: &TooltipTrigger) -> (r: &'static str)
    ensures
        r@ == tooltip_trigger_token(*t),
{
    match t {
        TooltipTrigger::Item => "item",
        TooltipTrigger::Axis => "axis",
        TooltipTrigger::Disabled => "none",
    }
}

/// The wire token of an axis pointer type.
pub open spec fn axis_pointer_type_token(t: AxisPointerType) -> Seq<char> {
    match t {
        AxisPointerType::Cross => "cross"@,
        AxisPointerType::Line => "line"@,
        AxisPointerType::Shadow => "shadow"@,
        AxisPointerType::Disabled => "none"@,
    }
}

pub fn axis_pointer_type_str(t: &AxisPointerType) -> (r: &'static str)
    ensures
        r@ == axis_pointer_type_token(*t),
{
    match t {
        AxisPointerType::Cross => "cross",
        AxisPointerType::Line => "line",
        AxisPointerType::Shadow => "shadow",
        AxisPointerType::Disabled => "none",
    }
}

/// The wire token of an axis pointer target axis.
pub open spec fn axis_pointer_target_token(t: AxisPointerTargetAxis) -> Seq<char> {
    match t {
        AxisPointerTargetAxis::Auto => "auto"@,
        AxisPointerTargetAxis::X => "x"@,
        AxisPointerTargetAxis::Y => "y"@,
        AxisPointerTargetAxis::Radius => "radius"@,
        AxisPointerTargetAxis::Angle => "angle"@,
    }
}

pub fn axis_pointer_target_str(t: &AxisPointerTargetAxis) -> (r: &'static str)
    ensures
        r@ == axis_pointer_target_token(*t),
{
    match t {
        AxisPointerTargetAxis::Auto => "auto",
        AxisPointerTargetAxis::X => "x",
        AxisPointerTargetAxis::Y => "y",
        AxisPointerTargetAxis::Radius => "radius",
        AxisPointerTargetAxis::Angle => "angle",
    }
}

/// The wire token of a legend orientation.
pub open spec fn legend_orient_token(o: LegendOrient) -> Seq<char> {
    match o {
        LegendOrient::Horizontal => "horizontal"@,
        LegendOrient::Vertical => "vertical"@,
    }
}

pub fn legend_orient_str(o: &LegendOrient) -> (r: &'static str)
    ensures
        r@ == legend_orient_token(*o),
{
    match o {
        LegendOrient::Horizontal => "horizontal",
        LegendOrient::Vertical => "vertical",
    }
}

/// The wire token of an axis presentation type.
pub open spec fn axis_type_token(t: AxisType) -> Seq<char> {
    match t {
        AxisType::Value => "value"@,
        AxisType::Category => "category"@,
        AxisType::Time => "time"@,
        AxisType::Log => "log"@,
    }
}

pub fn axis_type_str(t: &AxisType) -> (r: &'static str)
    ensures
        r@ == axis_type_token(*t),
{
    match t {
        AxisType::Value => "value",
        AxisType::Category => "category",
        AxisType::Time => "time",
        AxisType::Log => "log",
    }
}

/// The wire token of a series type.
pub open spec fn series_type_token(t: SeriesType) -> Seq<char> {
    match t {
        SeriesType::Line => "line"@,
        SeriesType::Bar => "bar"@,
        SeriesType::Pie => "pie"@,
        SeriesType::Scatter => "scatter"@,
        SeriesType::EffectScatter => "effectScatter"@,
        SeriesType::Radar => "radar"@,
        SeriesType::Tree => "tree"@,
        SeriesType::Treemap => "treemap"@,
        SeriesType::Sunburst => "sunburst"@,
        SeriesType::Boxplot => "boxplot"@,
        SeriesType::Candlestick => "candlestick"@,
        SeriesType::Heatmap => "heatmap"@,
        SeriesType::GeoMap => "map"@,
        SeriesType::Parallel => "parallel"@,
        SeriesType::Lines => "lines"@,
        SeriesType::Graph => "graph"@,
        SeriesType::Sankey => "sankey"@,
        SeriesType::Funnel => "funnel"@,
        SeriesType::Gauge => "gauge"@,
        SeriesType::PictorialBar => "pictorialBar"@,
        SeriesType::ThemeRiver => "themeRiver"@,
        SeriesType::Custom => "custom"@,
    }
}

pub fn series_type_str(t: &SeriesType) -> (r: &'static str)
    ensures
        r@ == series_type_token(*t),
{
    match t {
        SeriesType::Line => "line",
        SeriesType::Bar => "bar",
        SeriesType::Pie => "pie",
        SeriesType::Scatter => "scatter",
        SeriesType::EffectScatter => "effectScatter",
        SeriesType::Radar => "radar",
        SeriesType::Tree => "tree",
        SeriesType::Treemap => "treemap",
        SeriesType::Sunburst => "sunburst",
        SeriesType::Boxplot => "boxplot",
        SeriesType::Candlestick => "candlestick",
        SeriesType::Heatmap => "heatmap",
        SeriesType::GeoMap => "map",
        SeriesType::Parallel => "parallel",
        SeriesType::Lines => "lines",
        SeriesType::Graph => "graph",
        SeriesType::Sankey => "sankey",
        SeriesType::Funnel => "funnel",
        SeriesType::Gauge => "gauge",
        SeriesType::PictorialBar => "pictorialBar",
        SeriesType::ThemeRiver => "themeRiver",
        SeriesType::Custom => "custom",
    }
}

/// The wire token of a point symbol.
pub open spec fn symbol_token(s: DataPointSymbol) -> Seq<char> {
    match s {
        DataPointSymbol::Circle => "circle"@,
        DataPointSymbol::Rect => "rect"@,
        DataPointSymbol::RoundRect => "roundRect"@,
        DataPointSymbol::Triangle => "triangle"@,
        DataPointSymbol::Diamond => "diamond"@,
        DataPointSymbol::Pin => "pin"@,
        DataPointSymbol::Arrow => "arrow"@,
        DataPointSymbol::NoSymbol => "none"@,
    }
}

pub fn symbol_str(s: &DataPointSymbol) -> (r: &'static str)
    ensures
        r@ == symbol_token(*s),
{
    match s {
        DataPointSymbol::Circle => "circle",
        DataPointSymbol::Rect => "rect",
        DataPointSymbol::RoundRect => "roundRect",
        DataPointSymbol::Triangle => "triangle",
        DataPointSymbol::Diamond => "diamond",
        DataPointSymbol::Pin => "pin",
        DataPointSymbol::Arrow => "arrow",
        DataPointSymbol::NoSymbol => "none",
    }
}

/// The wire token of an area fill origin.
pub open spec fn fill_origin_token(o: AxisFillOrigin) -> Seq<char> {
    match o {
        AxisFillOrigin::Auto => "auto"@,
        AxisFillOrigin::Start => "start"@,
        AxisFillOrigin::End => "end"@,
        AxisFillOrigin::Number => "number"@,
    }
}

pub fn fill_origin_str(o: &AxisFillOrigin) -> (r: &'static str)
    ensures
        r@ == fill_origin_token(*o),
{
    match o {
        AxisFillOrigin::Auto => "auto",
        AxisFillOrigin::Start => "start",
        AxisFillOrigin::End => "end",
        AxisFillOrigin::Number => "number",
    }
}

/// The wire token of a transform type. The regression and clustering
/// tokens reproduce the `ecStat` convention verbatim.
pub open spec fn transform_type_token(t: DatasetTransformType) -> Seq<char> {
    match t {
        DatasetTransformType::Filter => "filter"@,
        DatasetTransformType::Sort => "sort"@,
        DatasetTransformType::Boxplot => "boxplot"@,
        DatasetTransformType::Regression => "ecStat:regression"@,
        DatasetTransformType::Clustering => "ecStat:clustering"@,
    }
}

pub fn transform_type_str(t: &DatasetTransformType) -> (r: &'static str)
    ensures
        r@ == transform_type_token(*t),
{
    match t {
        DatasetTransformType::Filter => "filter",
        DatasetTransformType::Sort => "sort",
        DatasetTransformType::Boxplot => "boxplot",
        DatasetTransformType::Regression => "ecStat:regression",
        DatasetTransformType::Clustering => "ecStat:clustering",
    }
}

/// The wire token of a regression method.
pub open spec fn regression_method_token(m: RegressionMethod) -> Seq<char> {
    match m {
        RegressionMethod::Linear => "linear"@,
        RegressionMethod::Exponential => "exponential"@,
        RegressionMethod::Logarithmic => "logarithmic"@,
        RegressionMethod::Polynomial => "polynomial"@,
    }
}

pub fn regression_method_str(m: &RegressionMethod) -> (r: &'static str)
    ensures
        r@ == regression_method_token(*m),
{
    match m {
        RegressionMethod::Linear => "linear",
        RegressionMethod::Exponential => "exponential",
        RegressionMethod::Logarithmic => "logarithmic",
        RegressionMethod::Polynomial => "polynomial",
    }
}

/// The wire token of a sort order.
pub open spec fn order_token(o: Order) -> Seq<char> {
    match o {
        Order::Asc => "asc"@,
        Order::Desc => "desc"@,
    }
}

pub fn order_str(o: &Order) -> (r: &'static str)
    ensures
        r@ == order_token(*o),
{
    match o {
        Order::Asc => "asc",
        Order::Desc => "desc",
    }
}

/// The wire value of a position.
pub open spec fn position_wire(p: Position) -> JsonV {
    match p {
        Position::Keyword(k) => JsonV::Str(position_keyword_token(k)),
        Position::Number(n) => JsonV::Int(n as int),
        Position::Percent(pc) => JsonV::Str(pc.0@ + "%"@),
    }
}

pub fn position_to_wire(p: &Position) -> (j: Json)
    ensures
        j@ == position_wire(*p),
{
    match p {
        Position::Keyword(k) => Json::Str(position_keyword_str(k).to_owned()),
        Position::Number(n) => Json::Int(*n as i128),
        Position::Percent(pc) => {
            let mut s = pc.0.clone();
            s.append("%");
            Json::Str(s)
        },
    }
}

/// The wire value of a size.
pub open spec fn size_wire(s: Size) -> JsonV {
    JsonV::Str(s.spec_text())
}

pub fn size_to_wire(s: &Size) -> (j: Json)
    ensures
        j@ == size_wire(*s),
{
    Json::Str(s.to_string())
}

/// One optional object entry: present exactly when the value is.
pub open spec fn opt_entry(key: Seq<char>, v: Option<JsonV>) -> Seq<(Seq<char>, JsonV)> {
    match v {
        Some(x) => seq![(key, x)],
        None => Seq::empty(),
    }
}

/// Appends one object entry under the given key.
fn push_entry(entries: &mut Vec<(String, Json)>, key: &str, v: Json)
    ensures
        view_json_fields(final(entries)@) == view_json_fields(old(entries)@) + seq![(key@, v@)],
{
    let ghost pre = entries@;
    let ghost vv = v@;
    entries.push((key.to_owned(), v));
    proof {
        crate::json::lemma_view_json_fields_push(pre, entries@.last());
        assert(view_json_fields(entries@) =~= view_json_fields(pre) + seq![(key@, vv)]);
    }
}

/// The wire value of an area style.
pub open spec fn area_style_entries(a: AreaStyle) -> Seq<(Seq<char>, JsonV)> {
    opt_entry(
        "color"@,
        match a.color {
            Some(c) => Some(c@),
            None => None,
        },
    ) + opt_entry(
        "origin"@,
        match a.origin {
            Some(o) => Some(JsonV::Str(fill_origin_token(o))),
            None => None,
        },
    )
}

pub open spec fn area_style_wire(a: AreaStyle) -> JsonV {
    JsonV::Obj(area_style_entries(a))
}

pub fn area_style_to_wire(a: AreaStyle) -> (j: Json)
    ensures
        j@ == area_style_wire(a),
{
    let mut entries: Vec<(String, Json)> = Vec::new();
    if let Some(c) = a.color {
        push_entry(&mut entries, "color", c);
    }
    if let Some(o) = a.origin {
        push_entry(&mut entries, "origin", Json::Str(fill_origin_str(&o).to_owned()));
    }
    let j = Json::Obj(entries);
    proof {
        assert(j@ == JsonV::Obj(view_json_fields(entries@)));
        assert(view_json_fields(entries@) =~= area_style_entries(a));
    }
    j
}

/// The wire value of an axis pointer.
pub open spec fn axis_pointer_entries(p: AxisPointer) -> Seq<(Seq<char>, JsonV)> {
    opt_entry(
        "type"@,
        match p.pointer_type {
            Some(t) => Some(JsonV::Str(axis_pointer_type_token(t))),
            None => None,
        },
    ) + opt_entry(
        "snap"@,
        match p.snap {
            Some(b) => Some(JsonV::Bool(b)),
            None => None,
        },
    ) + opt_entry(
        "animation"@,
        match p.animation {
            Some(b) => Some(JsonV::Bool(b)),
            None => None,
        },
    ) + opt_entry(
        "axis"@,
        match p.axis {
            Some(a) => Some(JsonV::Str(axis_pointer_target_token(a))),
            None => None,
        },
    )
}

pub open spec fn axis_pointer_wire(p: AxisPointer) -> JsonV {
    JsonV::Obj(axis_pointer_entries(p))
}

pub fn axis_pointer_to_wire(p: AxisPointer) -> (j: Json)
    ensures
        j@ == axis_pointer_wire(p),
{
    let mut entries: Vec<(String, Json)> = Vec::new();
    if let Some(t) = p.pointer_type {
        push_entry(&mut entries, "type", Json::Str(axis_pointer_type_str(&t).to_owned()));
    }
    if let Some(b) = p.snap {
        push_entry(&mut entries, "snap", Json::Bool(b));
    }
    if let Some(b) = p.animation {
        push_entry(&mut entries, "animation", Json::Bool(b));
    }
    if let Some(a) = p.axis {
        push_entry(&mut entries, "axis", Json::Str(axis_pointer_target_str(&a).to_owned()));
    }
    let j = Json::Obj(entries);
    proof {
        assert(view_json_fields(entries@) =~= axis_pointer_entries(p));
    }
    j
}

/// The wire value of a tooltip.
pub open spec fn tooltip_entries(t: Tooltip) -> Seq<(Seq<char>, JsonV)> {
    seq![("show"@, JsonV::Bool(t.show))] + opt_entry(
        "showDelay"@,
        match t.show_delay {
            Some(d) => Some(JsonV::Int(d as int)),
            None => None,
        },
    ) + opt_entry(
        "hideDelay"@,
        match t.hide_delay {
            Some(d) => Some(JsonV::Int(d as int)),
            None => None,
        },
    ) + opt_entry(
        "trigger"@,
        match t.trigger {
            Some(tr) => Some(JsonV::Str(tooltip_trigger_token(tr))),
            None => None,
        },
    ) + opt_entry(
        "formatter"@,
        match t.formatter {
            Some(f) => Some(f@),
            None => None,
        },
    ) + opt_entry(
        "axisPointer"@,
        match t.axis_pointer {
            Some(p) => Some(axis_pointer_wire(p)),
            None => None,
        },
    )
}

pub open spec fn tooltip_wire(t: Tooltip) -> JsonV {
    JsonV::Obj(tooltip_entries(t))
}

pub fn tooltip_to_wire(t: Tooltip) -> (j: Json)
    ensures
        j@ == tooltip_wire(t),
{
    let mut entries: Vec<(String, Json)> = Vec::new();
    push_entry(&mut entries, "show", Json::Bool(t.show));
    if let Some(d) = t.show_delay {
        push_entry(&mut entries, "showDelay", Json::Int(d as i128));
    }
    if let Some(d) = t.hide_delay {
        push_entry(&mut entries, "hideDelay", Json::Int(d as i128));
    }
    if let Some(tr) = t.trigger {
        push_entry(&mut entries, "trigger", Json::Str(tooltip_trigger_str(&tr).to_owned()));
    }
    if let Some(f) = t.formatter {
        push_entry(&mut entries, "formatter", f);
    }
    if let Some(p) = t.axis_pointer {
        push_entry(&mut entries, "axisPointer", axis_pointer_to_wire(p));
    }
    let j = Json::Obj(entries);
    proof {
        assert(view_json_fields(entries@) =~= tooltip_entries(t));
    }
    j
}

/// The wire value of a legend.
pub open spec fn legend_entries(l: Legend) -> Seq<(Seq<char>, JsonV)> {
    opt_entry(
        "data"@,
        match l.data {
            Some(d) => Some(JsonV::Arr(d@.map(|i: int, s: String| JsonV::Str(s@)))),
            None => None,
        },
    ) + opt_entry(
        "orient"@,
        match l.orient {
            Some(o) => Some(JsonV::Str(legend_orient_token(o))),
            None => None,
        },
    ) + opt_entry(
        "left"@,
        match l.left {
            Some(p) => Some(position_wire(p)),
            None => None,
        },
    ) + opt_entry(
        "right"@,
        match l.right {
            Some(p) => Some(position_wire(p)),
            None => None,
        },
    ) + opt_entry(
        "top"@,
        match l.top {
            Some(p) => Some(position_wire(p)),
            None => None,
        },
    ) + opt_entry(
        "bottom"@,
        match l.bottom {
            Some(p) => Some(position_wire(p)),
            None => None,
        },
    )
}

pub open spec fn legend_wire(l: Legend) -> JsonV {
    JsonV::Obj(legend_entries(l))
}

/// Turns legend entries into wire strings, keeping the order.
fn strings_to_wire(values: Vec<String>) -> (j: Json)
    ensures
        j@ == JsonV::Arr(values@.map(|i: int, s: String| JsonV::Str(s@))),
{
    let ghost orig = values@;
    let mut rest = values;
    let mut out: Vec<Json> = Vec::new();
    while rest.len() > 0
        invariant
            out@.len() + rest@.len() == orig.len(),
            forall|i: int| 0 <= i < rest@.len() ==> rest@[i] == orig[out@.len() + i],
            view_json_seq(out@) =~= orig.take(out@.len() as int).map(
                |i: int, s: String| JsonV::Str(s@),
            ),
        decreases rest@.len(),
    {
        let x = rest.remove(0);
        let ghost pre = out@;
        out.push(Json::Str(x));
        proof {
            crate::json::lemma_view_json_seq_push(pre, out@.last());
            assert(view_json_seq(out@) =~= orig.take(out@.len() as int).map(
                |i: int, s: String| JsonV::Str(s@),
            ));
        }
    }
    proof {
        assert(orig.take(out@.len() as int) =~= orig);
    }
    Json::Arr(out)
}

pub fn legend_to_wire(l: Legend) -> (j: Json)
    ensures
        j@ == legend_wire(l),
{
    let mut entries: Vec<(String, Json)> = Vec::new();
    if let Some(d) = l.data {
        push_entry(&mut entries, "data", strings_to_wire(d));
    }
    if let Some(o) = l.orient {
        push_entry(&mut entries, "orient", Json::Str(legend_orient_str(&o).to_owned()));
    }
    if let Some(p) = l.left {
        push_entry(&mut entries, "left", position_to_wire(&p));
    }
    if let Some(p) = l.right {
        push_entry(&mut entries, "right", position_to_wire(&p));
    }
    if let Some(p) = l.top {
        push_entry(&mut entries, "top", position_to_wire(&p));
    }
    if let Some(p) = l.bottom {
        push_entry(&mut entries, "bottom", position_to_wire(&p));
    }
    let j = Json::Obj(entries);
    proof {
        assert(view_json_fields(entries@) =~= legend_entries(l));
    }
    j
}

/// The typed wire fields of a grid.
pub open spec fn grid_entries(g: Grid) -> Seq<(Seq<char>, JsonV)> {
    opt_entry(
        "left"@,
        match g.left {
            Some(p) => Some(position_wire(p)),
            None => None,
        },
    ) + opt_entry(
        "right"@,
        match g.right {
            Some(p) => Some(position_wire(p)),
            None => None,
        },
    ) + opt_entry(
        "top"@,
        match g.top {
            Some(p) => Some(position_wire(p)),
            None => None,
        },
    ) + opt_entry(
        "bottom"@,
        match g.bottom {
            Some(p) => Some(position_wire(p)),
            None => None,
        },
    ) + opt_entry(
        "containLabel"@,
        match g.contain_label {
            Some(b) => Some(JsonV::Bool(b)),
            None => None,
        },
    ) + opt_entry(
        "backgroundColor"@,
        match g.background_color {
            Some(c) => Some(c@),
            None => None,
        },
    ) + opt_entry(
        "borderColor"@,
        match g.border_color {
            Some(c) => Some(c@),
            None => None,
        },
    ) + opt_entry(
        "borderWidth"@,
        match g.border_width {
            Some(w) => Some(JsonV::Int(w as int)),
            None => None,
        },
    ) + opt_entry(
        "show"@,
        match g.show {
            Some(b) => Some(JsonV::Bool(b)),
            None => None,
        },
    ) + opt_entry(
        "z"@,
        match g.z {
            Some(z) => Some(JsonV::Int(z as int)),
            None => None,
        },
    ) + opt_entry(
        "zlevel"@,
        match g.zlevel {
            Some(z) => Some(JsonV::Int(z as int)),
            None => None,
        },
    )
}

/// The wire value of a grid: the typed fields, then the extension fields
/// that collide with none of them.
pub open spec fn grid_wire(g: Grid) -> JsonV {
    JsonV::Obj(grid_entries(g) + merged_extra(grid_entries(g), extra_fields_view(g.extra)))
}

#[verifier::rlimit(100)]
pub fn grid_to_wire(g: Grid) -> (j: Json)
    ensures
        j@ == grid_wire(g),
{
    let mut entries: Vec<(String, Json)> = Vec::new();
    if let Some(p) = g.left {
        push_entry(&mut entries, "left", position_to_wire(&p));
    }
    if let Some(p) = g.right {
        push_entry(&mut entries, "right", position_to_wire(&p));
    }
    if let Some(p) = g.top {
        push_entry(&mut entries, "top", position_to_wire(&p));
    }
    if let Some(p) = g.bottom {
        push_entry(&mut entries, "bottom", position_to_wire(&p));
    }
    if let Some(b) = g.contain_label {
        push_entry(&mut entries, "containLabel", Json::Bool(b));
    }
    if let Some(c) = g.background_color {
        push_entry(&mut entries, "backgroundColor", c);
    }
    if let Some(c) = g.border_color {
        push_entry(&mut entries, "borderColor", c);
    }
    if let Some(w) = g.border_width {
        push_entry(&mut entries, "borderWidth", Json::Int(w as i128));
    }
    if let Some(b) = g.show {
        push_entry(&mut entries, "show", Json::Bool(b));
    }
    if let Some(z) = g.z {
        push_entry(&mut entries, "z", Json::Int(z as i128));
    }
    if let Some(z) = g.zlevel {
        push_entry(&mut entries, "zlevel", Json::Int(z as i128));
    }
    proof {
        assert(view_json_fields(entries@) =~= grid_entries(g));
    }
    push_extra_fields(&mut entries, g.extra);
    let j = Json::Obj(entries);
    proof {
        assert(view_json_fields(entries@) =~= grid_entries(g) + merged_extra(
            grid_entries(g),
            extra_fields_view(g.extra),
        ));
    }
    j
}

/// The typed wire fields of a title.
pub open spec fn title_entries(t: Title) -> Seq<(Seq<char>, JsonV)> {
    opt_entry(
        "text"@,
        match t.text {
            Some(s) => Some(JsonV::Str(s@)),
            None => None,
        },
    ) + opt_entry(
        "subtext"@,
        match t.sub_text {
            Some(s) => Some(JsonV::Str(s@)),
            None => None,
        },
    ) + opt_entry(
        "link"@,
        match t.link {
            Some(s) => Some(JsonV::Str(s@)),
            None => None,
        },
    ) + opt_entry(
        "left"@,
        match t.left {
            Some(p) => Some(position_wire(p)),
            None => None,
        },
    ) + opt_entry(
        "top"@,
        match t.top {
            Some(p) => Some(position_wire(p)),
            None => None,
        },
    ) + opt_entry(
        "right"@,
        match t.right {
            Some(p) => Some(position_wire(p)),
            None => None,
        },
    ) + opt_entry(
        "bottom"@,
        match t.bottom {
            Some(p) => Some(position_wire(p)),
            None => None,
        },
    )
}

/// The wire value of a title.
pub open spec fn title_wire(t: Title) -> JsonV {
    JsonV::Obj(title_entries(t) + merged_extra(title_entries(t), extra_fields_view(t.extra)))
}

pub fn title_to_wire(t: Title) -> (j: Json)
    ensures
        j@ == title_wire(t),
{
    let mut entries: Vec<(String, Json)> = Vec::new();
    if let Some(s) = t.text {
        push_entry(&mut entries, "text", Json::Str(s));
    }
    if let Some(s) = t.sub_text {
        push_entry(&mut entries, "subtext", Json::Str(s));
    }
    if let Some(s) = t.link {
        push_entry(&mut entries, "link", Json::Str(s));
    }
    if let Some(p) = t.left {
        push_entry(&mut entries, "left", position_to_wire(&p));
    }
    if let Some(p) = t.top {
        push_entry(&mut entries, "top", position_to_wire(&p));
    }
    if let Some(p) = t.right {
        push_entry(&mut entries, "right", position_to_wire(&p));
    }
    if let Some(p) = t.bottom {
        push_entry(&mut entries, "bottom", position_to_wire(&p));
    }
    proof {
        assert(view_json_fields(entries@) =~= title_entries(t));
    }
    push_extra_fields(&mut entries, t.extra);
    let j = Json::Obj(entries);
    proof {
        assert(view_json_fields(entries@) =~= title_entries(t) + merged_extra(
            title_entries(t),
            extra_fields_view(t.extra),
        ));
    }
    j
}

/// The wire values of a sequence of classified values.
pub open spec fn values_wire<X: AxisKindMarker>(s: Seq<ValueSerializeWrapper<X>>) -> Seq<JsonV> {
    s.map(|i: int, w: ValueSerializeWrapper<X>| wire_of(&w.0))
}

/// The wire value of one `[x, y]` pair.
pub open spec fn pair_wire<X: AxisKindMarker, Y: AxisKindMarker>(
    p: (ValueSerializeWrapper<X>, ValueSerializeWrapper<Y>),
) -> JsonV {
    JsonV::Arr(seq![wire_of(&p.0.0), wire_of(&p.1.0)])
}

/// The wire values of a sequence of pairs.
pub open spec fn pairs_wire<X: AxisKindMarker, Y: AxisKindMarker>(
    s: Seq<(ValueSerializeWrapper<X>, ValueSerializeWrapper<Y>)>,
) -> Seq<JsonV> {
    s.map(|i: int, p: (ValueSerializeWrapper<X>, ValueSerializeWrapper<Y>)| pair_wire(p))
}

/// The wire value of one named value.
pub open spec fn named_value_wire<X: AxisKindMarker>(n: NamedValue<X>) -> JsonV {
    JsonV::Obj(seq![("value"@, wire_of(&n.value.0)), ("name"@, JsonV::Str(n.name@))])
}

/// The wire values of a sequence of named values.
pub open spec fn named_values_wire<X: AxisKindMarker>(s: Seq<NamedValue<X>>) -> Seq<JsonV> {
    s.map(|i: int, n: NamedValue<X>| named_value_wire(n))
}

/// The wire value of one named pair.
pub open spec fn named_pair_wire<X: AxisKindMarker, Y: AxisKindMarker>(
    n: NamedValuePair<X, Y>,
) -> JsonV {
    JsonV::Obj(
        seq![
            ("value"@, JsonV::Arr(seq![wire_of(&n.value.0.0), wire_of(&n.value.1.0)])),
            ("name"@, JsonV::Str(n.name@)),
        ],
    )
}

/// The wire values of a sequence of named pairs.
pub open spec fn named_pairs_wire<X: AxisKindMarker, Y: AxisKindMarker>(
    s: Seq<NamedValuePair<X, Y>>,
) -> Seq<JsonV> {
    s.map(|i: int, n: NamedValuePair<X, Y>| named_pair_wire(n))
}

/// The wire value of one `[x, y, label]` triple.
pub open spec fn triple_wire<X: AxisKindMarker, Y: AxisKindMarker>(
    t: (ValueSerializeWrapper<X>, ValueSerializeWrapper<Y>, String),
) -> JsonV {
    JsonV::Arr(seq![wire_of(&t.0.0), wire_of(&t.1.0), JsonV::Str(t.2@)])
}

/// The wire values of a sequence of triples.
pub open spec fn triples_wire<X: AxisKindMarker, Y: AxisKindMarker>(
    s: Seq<(ValueSerializeWrapper<X>, ValueSerializeWrapper<Y>, String)>,
) -> Seq<JsonV> {
    s.map(
        |i: int, t: (ValueSerializeWrapper<X>, ValueSerializeWrapper<Y>, String)| triple_wire(t),
    )
}

/// The wire value of inline series data.
pub open spec fn data_variant_wire<X: AxisKindMarker, Y: AxisKindMarker>(
    d: DataVariant<X, Y>,
) -> JsonV {
    match d {
        DataVariant::Data(v) => JsonV::Arr(values_wire(v@)),
        DataVariant::Pair(v) => JsonV::Arr(pairs_wire(v@)),
        DataVariant::Named(v) => JsonV::Arr(named_values_wire(v@)),
        DataVariant::NamedPair(v) => JsonV::Arr(named_pairs_wire(v@)),
    }
}

/// The one wire field a data source contributes to its series: inline data
/// under `data`, or the referenced index under `datasetIndex`.
pub open spec fn data_source_entry<X: AxisKindMarker, Y: AxisKindMarker>(
    s: SeriesDataSource<X, Y>,
) -> Seq<(Seq<char>, JsonV)> {
    match s {
        SeriesDataSource::Data(d) => seq![("data"@, data_variant_wire(d))],
        SeriesDataSource::DatasetIndex(i) => seq![("datasetIndex"@, JsonV::Int(i as int))],
    }
}

fn values_to_wire<X: AxisKindMarker>(values: Vec<ValueSerializeWrapper<X>>) -> (j: Json)
    ensures
        j@ == JsonV::Arr(values_wire(values@)),
{
    let ghost orig = values@;
    let mut rest = values;
    let mut out: Vec<Json> = Vec::new();
    while rest.len() > 0
        invariant
            out@.len() + rest@.len() == orig.len(),
            forall|i: int| 0 <= i < rest@.len() ==> rest@[i] == orig[out@.len() + i],
            view_json_seq(out@) =~= values_wire(orig.take(out@.len() as int)),
        decreases rest@.len(),
    {
        let w = rest.remove(0);
        let ghost pre = out@;
        out.push(w.to_wire());
        proof {
            crate::json::lemma_view_json_seq_push(pre, out@.last());
            assert(view_json_seq(out@) =~= values_wire(orig.take(out@.len() as int)));
        }
    }
    proof {
        assert(orig.take(out@.len() as int) =~= orig);
    }
    Json::Arr(out)
}

fn pair_to_wire<X: AxisKindMarker, Y: AxisKindMarker>(
    p: (ValueSerializeWrapper<X>, ValueSerializeWrapper<Y>),
) -> (j: Json)
    ensures
        j@ == pair_wire(p),
{
    let mut items: Vec<Json> = Vec::new();
    items.push(p.0.to_wire());
    items.push(p.1.to_wire());
    let j = Json::Arr(items);
    proof {
        reveal_with_fuel(view_json_seq, 3);
        assert(view_json_seq(j->Arr_0@) =~= seq![wire_of(&p.0.0), wire_of(&p.1.0)]);
    }
    j
}

fn pairs_to_wire<X: AxisKindMarker, Y: AxisKindMarker>(
    pairs: Vec<(ValueSerializeWrapper<X>, ValueSerializeWrapper<Y>)>,
) -> (j: Json)
    ensures
        j@ == JsonV::Arr(pairs_wire(pairs@)),
{
    let ghost orig = pairs@;
    let mut rest = pairs;
    let mut out: Vec<Json> = Vec::new();
    while rest.len() > 0
        invariant
            out@.len() + rest@.len() == orig.len(),
            forall|i: int| 0 <= i < rest@.len() ==> rest@[i] == orig[out@.len() + i],
            view_json_seq(out@) =~= pairs_wire(orig.take(out@.len() as int)),
        decreases rest@.len(),
    {
        let p = rest.remove(0);
        let ghost pre = out@;
        out.push(pair_to_wire(p));
        proof {
            crate::json::lemma_view_json_seq_push(pre, out@.last());
            assert(view_json_seq(out@) =~= pairs_wire(orig.take(out@.len() as int)));
        }
    }
    proof {
        assert(orig.take(out@.len() as int) =~= orig);
    }
    Json::Arr(out)
}

fn named_value_to_wire<X: AxisKindMarker>(n: NamedValue<X>) -> (j: Json)
    ensures
        j@ == named_value_wire(n),
{
    let mut entries: Vec<(String, Json)> = Vec::new();
    push_entry(&mut entries, "value", n.value.to_wire());
    push_entry(&mut entries, "name", Json::Str(n.name));
    let j = Json::Obj(entries);
    proof {
        assert(view_json_fields(entries@) =~= named_value_wire(n)->Obj_0);
    }
    j
}

fn named_values_to_wire<X: AxisKindMarker>(values: Vec<NamedValue<X>>) -> (j: Json)
    ensures
        j@ == JsonV::Arr(named_values_wire(values@)),
{
    let ghost orig = values@;
    let mut rest = values;
    let mut out: Vec<Json> = Vec::new();
    while rest.len() > 0
        invariant
            out@.len() + rest@.len() == orig.len(),
            forall|i: int| 0 <= i < rest@.len() ==> rest@[i] == orig[out@.len() + i],
            view_json_seq(out@) =~= named_values_wire(orig.take(out@.len() as int)),
        decreases rest@.len(),
    {
        let n = rest.remove(0);
        let ghost pre = out@;
        out.push(named_value_to_wire(n));
        proof {
            crate::json::lemma_view_json_seq_push(pre, out@.last());
            assert(view_json_seq(out@) =~= named_values_wire(orig.take(out@.len() as int)));
        }
    }
    proof {
        assert(orig.take(out@.len() as int) =~= orig);
    }
    Json::Arr(out)
}

fn named_pair_to_wire<X: AxisKindMarker, Y: AxisKindMarker>(n: NamedValuePair<X, Y>) -> (j: Json)
    ensures
        j@ == named_pair_wire(n),
{
    let mut items: Vec<Json> = Vec::new();
    items.push(n.value.0.to_wire());
    items.push(n.value.1.to_wire());
    let value = Json::Arr(items);
    proof {
        reveal_with_fuel(view_json_seq, 3);
        assert(view_json_seq(value->Arr_0@) =~= seq![
            wire_of(&n.value.0.0),
            wire_of(&n.value.1.0),
        ]);
    }
    let mut entries: Vec<(String, Json)> = Vec::new();
    push_entry(&mut entries, "value", value);
    push_entry(&mut entries, "name", Json::Str(n.name));
    let j = Json::Obj(entries);
    proof {
        assert(view_json_fields(entries@) =~= named_pair_wire(n)->Obj_0);
    }
    j
}

fn named_pairs_to_wire<X: AxisKindMarker, Y: AxisKindMarker>(
    values: Vec<NamedValuePair<X, Y>>,
) -> (j: Json)
    ensures
        j@ == JsonV::Arr(named_pairs_wire(values@)),
{
    let ghost orig = values@;
    let mut rest = values;
    let mut out: Vec<Json> = Vec::new();
    while rest.len() > 0
        invariant
            out@.len() + rest@.len() == orig.len(),
            forall|i: int| 0 <= i < rest@.len() ==> rest@[i] == orig[out@.len() + i],
            view_json_seq(out@) =~= named_pairs_wire(orig.take(out@.len() as int)),
        decreases rest@.len(),
    {
        let n = rest.remove(0);
        let ghost pre = out@;
        out.push(named_pair_to_wire(n));
        proof {
            crate::json::lemma_view_json_seq_push(pre, out@.last());
            assert(view_json_seq(out@) =~= named_pairs_wire(orig.take(out@.len() as int)));
        }
    }
    proof {
        assert(orig.take(out@.len() as int) =~= orig);
    }
    Json::Arr(out)
}

fn triple_to_wire<X: AxisKindMarker, Y: AxisKindMarker>(
    t: (ValueSerializeWrapper<X>, ValueSerializeWrapper<Y>, String),
) -> (j: Json)
    ensures
        j@ == triple_wire(t),
{
    let (x, y, label) = t;
    let mut items: Vec<Json> = Vec::new();
    items.push(x.to_wire());
    items.push(y.to_wire());
    items.push(Json::Str(label));
    let j = Json::Arr(items);
    proof {
        reveal_with_fuel(view_json_seq, 4);
        assert(view_json_seq(j->Arr_0@) =~= triple_wire(t)->Arr_0);
    }
    j
}

fn triples_to_wire<X: AxisKindMarker, Y: AxisKindMarker>(
    values: Vec<(ValueSerializeWrapper<X>, ValueSerializeWrapper<Y>, String)>,
) -> (j: Json)
    ensures
        j@ == JsonV::Arr(triples_wire(values@)),
{
    let ghost orig = values@;
    let mut rest = values;
    let mut out: Vec<Json> = Vec::new();
    while rest.len() > 0
        invariant
            out@.len() + rest@.len() == orig.len(),
            forall|i: int| 0 <= i < rest@.len() ==> rest@[i] == orig[out@.len() + i],
            view_json_seq(out@) =~= triples_wire(orig.take(out@.len() as int)),
        decreases rest@.len(),
    {
        let t = rest.remove(0);
        let ghost pre = out@;
        out.push(triple_to_wire(t));
        proof {
            crate::json::lemma_view_json_seq_push(pre, out@.last());
            assert(view_json_seq(out@) =~= triples_wire(orig.take(out@.len() as int)));
        }
    }
    proof {
        assert(orig.take(out@.len() as int) =~= orig);
    }
    Json::Arr(out)
}

fn data_variant_to_wire<X: AxisKindMarker, Y: AxisKindMarker>(d: DataVariant<X, Y>) -> (j: Json)
    ensures
        j@ == data_variant_wire(d),
{
    match d {
        DataVariant::Data(v) => values_to_wire(v),
        DataVariant::Pair(v) => pairs_to_wire(v),
        DataVariant::Named(v) => named_values_to_wire(v),
        DataVariant::NamedPair(v) => named_pairs_to_wire(v),
    }
}

/// The typed wire fields of a regression configuration.
pub open spec fn regression_config_entries(c: RegressionConfig) -> Seq<(Seq<char>, JsonV)> {
    seq![("method"@, JsonV::Str(regression_method_token(c.method)))] + opt_entry(
        "order"@,
        match c.order {
            Some(o) => Some(JsonV::Int(o as int)),
            None => None,
        },
    )
}

/// The wire value of a regression configuration: the `order` field is
/// present exactly when an order is set.
pub open spec fn regression_config_wire(c: RegressionConfig) -> JsonV {
    JsonV::Obj(
        regression_config_entries(c) + merged_extra(
            regression_config_entries(c),
            extra_fields_view(c.extra),
        ),
    )
}

pub fn regression_config_to_wire(c: RegressionConfig) -> (j: Json)
    ensures
        j@ == regression_config_wire(c),
{
    let mut entries: Vec<(String, Json)> = Vec::new();
    push_entry(&mut entries, "method", Json::Str(regression_method_str(&c.method).to_owned()));
    if let Some(o) = c.order {
        push_entry(&mut entries, "order", Json::Int(o as i128));
    }
    proof {
        assert(view_json_fields(entries@) =~= regression_config_entries(c));
    }
    push_extra_fields(&mut entries, c.extra);
    let j = Json::Obj(entries);
    proof {
        assert(view_json_fields(entries@) =~= regression_config_wire(c)->Obj_0);
    }
    j
}

/// The wire value of a clustering configuration.
pub open spec fn clustering_config_wire(c: ClusteringConfig) -> JsonV {
    JsonV::Obj(
        seq![
            ("clusterCount"@, JsonV::Int(c.cluster_count as int)),
            ("outputClusterIndexDimension"@, JsonV::Int(c.output_cluster_index_dimension as int)),
        ] + opt_entry(
            "dimensions"@,
            match c.dimensions {
                Some(d) => Some(JsonV::Arr(d@.map(|i: int, n: usize| JsonV::Int(n as int)))),
                None => None,
            },
        ),
    )
}

fn usizes_to_wire(values: Vec<usize>) -> (j: Json)
    ensures
        j@ == JsonV::Arr(values@.map(|i: int, n: usize| JsonV::Int(n as int))),
{
    let ghost orig = values@;
    let mut out: Vec<Json> = Vec::new();
    let n = values.len();
    for k in 0..n
        invariant
            n == values@.len(),
            values@ == orig,
            out@.len() == k,
            view_json_seq(out@) =~= orig.take(k as int).map(|i: int, m: usize| JsonV::Int(m as int)),
        decreases n - k,
    {
        let ghost pre = out@;
        out.push(Json::Int(values[k] as i128));
        proof {
            crate::json::lemma_view_json_seq_push(pre, out@.last());
            assert(view_json_seq(out@) =~= orig.take(k + 1).map(
                |i: int, m: usize| JsonV::Int(m as int),
            ));
        }
    }
    proof {
        assert(orig.take(n as int) =~= orig);
    }
    Json::Arr(out)
}

pub fn clustering_config_to_wire(c: ClusteringConfig) -> (j: Json)
    ensures
        j@ == clustering_config_wire(c),
{
    let mut entries: Vec<(String, Json)> = Vec::new();
    push_entry(&mut entries, "clusterCount", Json::Int(c.cluster_count as i128));
    push_entry(
        &mut entries,
        "outputClusterIndexDimension",
        Json::Int(c.output_cluster_index_dimension as i128),
    );
    if let Some(d) = c.dimensions {
        push_entry(&mut entries, "dimensions", usizes_to_wire(d));
    }
    let j = Json::Obj(entries);
    proof {
        assert(view_json_fields(entries@) =~= clustering_config_wire(c)->Obj_0);
    }
    j
}

/// The wire value of a sort configuration.
pub open spec fn sort_config_wire(c: SortConfig) -> JsonV {
    JsonV::Obj(
        seq![
            ("dimension"@, JsonV::Int(c.dimension as int)),
            ("order"@, JsonV::Str(order_token(c.order))),
        ],
    )
}

pub fn sort_config_to_wire(c: SortConfig) -> (j: Json)
    ensures
        j@ == sort_config_wire(c),
{
    let mut entries: Vec<(String, Json)> = Vec::new();
    push_entry(&mut entries, "dimension", Json::Int(c.dimension as i128));
    push_entry(&mut entries, "order", Json::Str(order_str(&c.order).to_owned()));
    let j = Json::Obj(entries);
    proof {
        assert(view_json_fields(entries@) =~= sort_config_wire(c)->Obj_0);
    }
    j
}

/// The wire value of a transform configuration.
pub open spec fn transform_config_wire(c: DatasetTransformConfig) -> JsonV {
    match c {
        DatasetTransformConfig::Regression(rc) => regression_config_wire(rc),
        DatasetTransformConfig::Clustering(cc) => clustering_config_wire(cc),
        DatasetTransformConfig::Sort(sc) => sort_config_wire(sc),
    }
}

pub fn transform_config_to_wire(c: DatasetTransformConfig) -> (j: Json)
    ensures
        j@ == transform_config_wire(c),
{
    match c {
        DatasetTransformConfig::Regression(rc) => regression_config_to_wire(rc),
        DatasetTransformConfig::Clustering(cc) => clustering_config_to_wire(cc),
        DatasetTransformConfig::Sort(sc) => sort_config_to_wire(sc),
    }
}

/// The wire value of one dataset transform.
pub open spec fn dataset_transform_wire(t: DatasetTransform) -> JsonV {
    JsonV::Obj(
        seq![
            ("type"@, JsonV::Str(transform_type_token(t.transform_type))),
            ("config"@, transform_config_wire(t.config)),
        ],
    )
}

pub fn dataset_transform_to_wire(t: DatasetTransform) -> (j: Json)
    ensures
        j@ == dataset_transform_wire(t),
{
    let mut entries: Vec<(String, Json)> = Vec::new();
    push_entry(&mut entries, "type", Json::Str(transform_type_str(&t.transform_type).to_owned()));
    push_entry(&mut entries, "config", transform_config_to_wire(t.config));
    let j = Json::Obj(entries);
    proof {
        assert(view_json_fields(entries@) =~= dataset_transform_wire(t)->Obj_0);
    }
    j
}

/// The wire values of a transform chain.
pub open spec fn transforms_wire(s: Seq<DatasetTransform>) -> Seq<JsonV> {
    s.map(|i: int, t: DatasetTransform| dataset_transform_wire(t))
}

fn transforms_to_wire(values: Vec<DatasetTransform>) -> (j: Json)
    ensures
        j@ == JsonV::Arr(transforms_wire(values@)),
{
    let ghost orig = values@;
    let mut rest = values;
    let mut out: Vec<Json> = Vec::new();
    while rest.len() > 0
        invariant
            out@.len() + rest@.len() == orig.len(),
            forall|i: int| 0 <= i < rest@.len() ==> rest@[i] == orig[out@.len() + i],
            view_json_seq(out@) =~= transforms_wire(orig.take(out@.len() as int)),
        decreases rest@.len(),
    {
        let t = rest.remove(0);
        let ghost pre = out@;
        out.push(dataset_transform_to_wire(t));
        proof {
            crate::json::lemma_view_json_seq_push(pre, out@.last());
            assert(view_json_seq(out@) =~= transforms_wire(orig.take(out@.len() as int)));
        }
    }
    proof {
        assert(orig.take(out@.len() as int) =~= orig);
    }
    Json::Arr(out)
}

/// The wire value of a transform dataset entry.
pub open spec fn transform_block_wire(t: Transform) -> JsonV {
    JsonV::Obj(
        seq![("transform"@, JsonV::Arr(transforms_wire(t.transform@)))] + opt_entry(
            "fromDatasetIndex"@,
            match t.from_dataset_index {
                Some(i) => Some(JsonV::Int(i as int)),
                None => None,
            },
        ),
    )
}

pub fn transform_block_to_wire(t: Transform) -> (j: Json)
    ensures
        j@ == transform_block_wire(t),
{
    let mut entries: Vec<(String, Json)> = Vec::new();
    push_entry(&mut entries, "transform", transforms_to_wire(t.transform));
    if let Some(i) = t.from_dataset_index {
        push_entry(&mut entries, "fromDatasetIndex", Json::Int(i as i128));
    }
    let j = Json::Obj(entries);
    proof {
        assert(view_json_fields(entries@) =~= transform_block_wire(t)->Obj_0);
    }
    j
}

/// The wire value of a raw source dataset entry.
pub open spec fn source_wire<X: AxisKindMarker, Y: AxisKindMarker>(s: Source<X, Y>) -> JsonV {
    JsonV::Obj(seq![("source"@, JsonV::Arr(pairs_wire(s.source@)))])
}

pub fn source_to_wire<X: AxisKindMarker, Y: AxisKindMarker>(s: Source<X, Y>) -> (j: Json)
    ensures
        j@ == source_wire(s),
{
    let mut entries: Vec<(String, Json)> = Vec::new();
    push_entry(&mut entries, "source", pairs_to_wire(s.source));
    let j = Json::Obj(entries);
    proof {
        assert(view_json_fields(entries@) =~= source_wire(s)->Obj_0);
    }
    j
}

/// The wire value of a labelled source dataset entry.
pub open spec fn labelled_source_wire<X: AxisKindMarker, Y: AxisKindMarker>(
    s: LabelledSource<X, Y>,
) -> JsonV {
    JsonV::Obj(seq![("source"@, JsonV::Arr(triples_wire(s.source@)))])
}

pub fn labelled_source_to_wire<X: AxisKindMarker, Y: AxisKindMarker>(
    s: LabelledSource<X, Y>,
) -> (j: Json)
    ensures
        j@ == labelled_source_wire(s),
{
    let mut entries: Vec<(String, Json)> = Vec::new();
    push_entry(&mut entries, "source", triples_to_wire(s.source));
    let j = Json::Obj(entries);
    proof {
        assert(view_json_fields(entries@) =~= labelled_source_wire(s)->Obj_0);
    }
    j
}

/// The wire value of one dataset entry.
pub open spec fn dataset_component_wire<X: AxisKindMarker, Y: AxisKindMarker>(
    d: DatasetComponent<X, Y>,
) -> JsonV {
    match d {
        DatasetComponent::Source(s) => source_wire(s),
        DatasetComponent::LabelledSource(s) => labelled_source_wire(s),
        DatasetComponent::Transform(t) => transform_block_wire(t),
    }
}

pub fn dataset_component_to_wire<X: AxisKindMarker, Y: AxisKindMarker>(
    d: DatasetComponent<X, Y>,
) -> (j: Json)
    ensures
        j@ == dataset_component_wire(d),
{
    match d {
        DatasetComponent::Source(s) => source_to_wire(s),
        DatasetComponent::LabelledSource(s) => labelled_source_to_wire(s),
        DatasetComponent::Transform(t) => transform_block_to_wire(t),
    }
}

/// The wire values of the dataset list.
pub open spec fn datasets_wire<X: AxisKindMarker, Y: AxisKindMarker>(
    s: Seq<DatasetComponent<X, Y>>,
) -> Seq<JsonV> {
    s.map(|i: int, d: DatasetComponent<X, Y>| dataset_component_wire(d))
}

fn datasets_to_wire<X: AxisKindMarker, Y: AxisKindMarker>(
    values: Vec<DatasetComponent<X, Y>>,
) -> (j: Json)
    ensures
        j@ == JsonV::Arr(datasets_wire(values@)),
{
    let ghost orig = values@;
    let mut rest = values;
    let mut out: Vec<Json> = Vec::new();
    while rest.len() > 0
        invariant
            out@.len() + rest@.len() == orig.len(),
            forall|i: int| 0 <= i < rest@.len() ==> rest@[i] == orig[out@.len() + i],
            view_json_seq(out@) =~= datasets_wire(orig.take(out@.len() as int)),
        decreases rest@.len(),
    {
        let d = rest.remove(0);
        let ghost pre = out@;
        out.push(dataset_component_to_wire(d));
        proof {
            crate::json::lemma_view_json_seq_push(pre, out@.last());
            assert(view_json_seq(out@) =~= datasets_wire(orig.take(out@.len() as int)));
        }
    }
    proof {
        assert(orig.take(out@.len() as int) =~= orig);
    }
    Json::Arr(out)
}

/// The typed wire fields of an axis.
pub open spec fn axis_entries<T: AxisKindMarker>(a: Axis<T>) -> Seq<(Seq<char>, JsonV)> {
    seq![("type"@, JsonV::Str(axis_type_token(a.axis_type)))] + opt_entry(
        "inverse"@,
        match a.inverse {
            Some(b) => Some(JsonV::Bool(b)),
            None => None,
        },
    ) + opt_entry(
        "name"@,
        match a.name {
            Some(n) => Some(JsonV::Str(n@)),
            None => None,
        },
    ) + opt_entry(
        "data"@,
        match a.data {
            Some(d) => Some(JsonV::Arr(values_wire(d@))),
            None => None,
        },
    )
}

/// The wire value of an axis.
pub open spec fn axis_wire<T: AxisKindMarker>(a: Axis<T>) -> JsonV {
    JsonV::Obj(axis_entries(a) + merged_extra(axis_entries(a), extra_fields_view(a.extra)))
}

pub fn axis_to_wire<T: AxisKindMarker>(a: Axis<T>) -> (j: Json)
    ensures
        j@ == axis_wire(a),
{
    let mut entries: Vec<(String, Json)> = Vec::new();
    push_entry(&mut entries, "type", Json::Str(axis_type_str(&a.axis_type).to_owned()));
    if let Some(b) = a.inverse {
        push_entry(&mut entries, "inverse", Json::Bool(b));
    }
    if let Some(n) = a.name {
        push_entry(&mut entries, "name", Json::Str(n));
    }
    if let Some(d) = a.data {
        push_entry(&mut entries, "data", values_to_wire(d));
    }
    proof {
        assert(view_json_fields(entries@) =~= axis_entries(a));
    }
    push_extra_fields(&mut entries, a.extra);
    let j = Json::Obj(entries);
    proof {
        assert(view_json_fields(entries@) =~= axis_wire(a)->Obj_0);
    }
    j
}

/// The typed wire fields of a series; the data source contributes its one
/// field in place.
pub open spec fn series_entries<X: AxisKindMarker, Y: AxisKindMarker>(
    s: Series<X, Y>,
) -> Seq<(Seq<char>, JsonV)> {
    opt_entry(
        "type"@,
        match s.series_type {
            Some(t) => Some(JsonV::Str(series_type_token(t))),
            None => None,
        },
    ) + opt_entry(
        "name"@,
        match s.name {
            Some(n) => Some(JsonV::Str(n@)),
            None => None,
        },
    ) + opt_entry(
        "smooth"@,
        match s.smooth {
            Some(b) => Some(JsonV::Bool(b)),
            None => None,
        },
    ) + opt_entry(
        "areaStyle"@,
        match s.area_style {
            Some(a) => Some(area_style_wire(a)),
            None => None,
        },
    ) + data_source_entry(s.data) + opt_entry(
        "showSymbol"@,
        match s.show_symbol {
            Some(b) => Some(JsonV::Bool(b)),
            None => None,
        },
    ) + opt_entry(
        "symbol"@,
        match s.symbol {
            Some(sy) => Some(JsonV::Str(symbol_token(sy))),
            None => None,
        },
    ) + opt_entry(
        "symbolSize"@,
        match s.symbol_size {
            Some(n) => Some(JsonV::Int(n as int)),
            None => None,
        },
    )
}

/// The wire value of a series.
pub open spec fn series_wire<X: AxisKindMarker, Y: AxisKindMarker>(s: Series<X, Y>) -> JsonV {
    JsonV::Obj(series_entries(s) + merged_extra(series_entries(s), extra_fields_view(s.extra)))
}

#[verifier::rlimit(50)]
pub fn series_to_wire<X: AxisKindMarker, Y: AxisKindMarker>(s: Series<X, Y>) -> (j: Json)
    ensures
        j@ == series_wire(s),
{
    let ghost orig = s;
    let Series { series_type, name, smooth, area_style, data, show_symbol, symbol, symbol_size, extra } = s;
    let mut entries: Vec<(String, Json)> = Vec::new();
    if let Some(t) = series_type {
        push_entry(&mut entries, "type", Json::Str(series_type_str(&t).to_owned()));
    }
    if let Some(n) = name {
        push_entry(&mut entries, "name", Json::Str(n));
    }
    if let Some(b) = smooth {
        push_entry(&mut entries, "smooth", Json::Bool(b));
    }
    if let Some(a) = area_style {
        push_entry(&mut entries, "areaStyle", area_style_to_wire(a));
    }
    match data {
        SeriesDataSource::Data(d) => {
            push_entry(&mut entries, "data", data_variant_to_wire(d));
        },
        SeriesDataSource::DatasetIndex(i) => {
            push_entry(&mut entries, "datasetIndex", Json::Int(i as i128));
        },
    }
    if let Some(b) = show_symbol {
        push_entry(&mut entries, "showSymbol", Json::Bool(b));
    }
    if let Some(sy) = symbol {
        push_entry(&mut entries, "symbol", Json::Str(symbol_str(&sy).to_owned()));
    }
    if let Some(n) = symbol_size {
        push_entry(&mut entries, "symbolSize", Json::Int(n as i128));
    }
    proof {
        assert(view_json_fields(entries@) =~= series_entries(orig));
    }
    push_extra_fields(&mut entries, extra);
    let j = Json::Obj(entries);
    proof {
        assert(view_json_fields(entries@) =~= series_wire(orig)->Obj_0);
    }
    j
}

/// The wire values of the series list.
pub open spec fn series_list_wire<X: AxisKindMarker, Y: AxisKindMarker>(
    s: Seq<Series<X, Y>>,
) -> Seq<JsonV> {
    s.map(|i: int, e: Series<X, Y>| series_wire(e))
}

fn series_list_to_wire<X: AxisKindMarker, Y: AxisKindMarker>(values: Vec<Series<X, Y>>) -> (j:
    Json)
    ensures
        j@ == JsonV::Arr(series_list_wire(values@)),
{
    let ghost orig = values@;
    let mut rest = values;
    let mut out: Vec<Json> = Vec::new();
    while rest.len() > 0
        invariant
            out@.len() + rest@.len() == orig.len(),
            forall|i: int| 0 <= i < rest@.len() ==> rest@[i] == orig[out@.len() + i],
            view_json_seq(out@) =~= series_list_wire(orig.take(out@.len() as int)),
        decreases rest@.len(),
    {
        let e = rest.remove(0);
        let ghost pre = out@;
        out.push(series_to_wire(e));
        proof {
            crate::json::lemma_view_json_seq_push(pre, out@.last());
            assert(view_json_seq(out@) =~= series_list_wire(orig.take(out@.len() as int)));
        }
    }
    proof {
        assert(orig.take(out@.len() as int) =~= orig);
    }
    Json::Arr(out)
}

/// The typed wire fields of a chart configuration. The dataset and series
/// lists appear exactly when they are non-empty; both axes always appear.
pub open spec fn options_entries<X: AxisKindMarker, Y: AxisKindMarker>(
    c: EChartOptions<X, Y>,
) -> Seq<(Seq<char>, JsonV)> {
    opt_entry(
        "title"@,
        match c.title {
            Some(t) => Some(title_wire(t)),
            None => None,
        },
    ) + opt_entry(
        "grid"@,
        match c.grid {
            Some(g) => Some(grid_wire(g)),
            None => None,
        },
    ) + opt_entry(
        "tooltip"@,
        match c.tooltip {
            Some(t) => Some(tooltip_wire(t)),
            None => None,
        },
    ) + opt_entry(
        "legend"@,
        match c.legend {
            Some(l) => Some(legend_wire(l)),
            None => None,
        },
    ) + (if c.dataset@.len() > 0 {
        seq![("dataset"@, JsonV::Arr(datasets_wire(c.dataset@)))]
    } else {
        Seq::<(Seq<char>, JsonV)>::empty()
    }) + seq![("xAxis"@, axis_wire(c.x_axis)), ("yAxis"@, axis_wire(c.y_axis))] + (
    if c.series@.len() > 0 {
        seq![("series"@, JsonV::Arr(series_list_wire(c.series@)))]
    } else {
        Seq::<(Seq<char>, JsonV)>::empty()
    })
}

/// The wire document of a chart configuration.
pub open spec fn options_wire<X: AxisKindMarker, Y: AxisKindMarker>(
    c: EChartOptions<X, Y>,
) -> JsonV {
    JsonV::Obj(options_entries(c) + merged_extra(options_entries(c), extra_fields_view(c.extra)))
}

impl<X: AxisKindMarker, Y: AxisKindMarker> EChartOptions<X, Y> {
    /// The wire document of this configuration.
    #[verifier::rlimit(100)]
    pub fn to_wire(self) -> (j: Json)
        ensures
            j@ == options_wire(self),
    {
        let ghost orig = self;
        let EChartOptions { title, grid, tooltip, legend, dataset, x_axis, y_axis, series, extra } =
            self;
        let mut entries: Vec<(String, Json)> = Vec::new();
        if let Some(t) = title {
            push_entry(&mut entries, "title", title_to_wire(t));
        }
        if let Some(g) = grid {
            push_entry(&mut entries, "grid", grid_to_wire(g));
        }
        if let Some(t) = tooltip {
            push_entry(&mut entries, "tooltip", tooltip_to_wire(t));
        }
        if let Some(l) = legend {
            push_entry(&mut entries, "legend", legend_to_wire(l));
        }
        if dataset.len() > 0 {
            push_entry(&mut entries, "dataset", datasets_to_wire(dataset));
        }
        push_entry(&mut entries, "xAxis", axis_to_wire(x_axis));
        push_entry(&mut entries, "yAxis", axis_to_wire(y_axis));
        if series.len() > 0 {
            push_entry(&mut entries, "series", series_list_to_wire(series));
        }
        proof {
            assert(view_json_fields(entries@) =~= options_entries(orig));
        }
        push_extra_fields(&mut entries, extra);
        let j = Json::Obj(entries);
        proof {
            assert(view_json_fields(entries@) =~= options_wire(orig)->Obj_0);
        }
        j
    }

    /// The configuration serialized to its JSON text.
    pub fn to_json_text(self) -> (r: String)
        ensures
            r@ == crate::json::json_text(options_wire(self)),
    {
        let w = self.to_wire();
        w.render()
    }
}

} // verus!
