//! The configuration data model: title, grid, tooltip, legend, axes,
//! series, datasets and dataset transforms, each with optional fields and
//! an open extension bag of extra wire fields.

use vstd::prelude::*;
use crate::axis_typing::{AxisKind, AxisKindMarker, ValueSerializeWrapper, kind_of};
use crate::axis_typing::AxisInfo;
use crate::common::Percent;
use crate::json::Json;

verus! {

/// Keyword positions.
#[derive(Clone, Copy, Debug, PartialEq, Eq, Structural)]
pub enum PositionKeyword {
    Left,
    Right,
    Top,
    Bottom,
    Middle,
    Center,
    Auto,
}

/// A position: a keyword, a pixel count, or a percentage.
#[derive(Clone, Debug)]
pub enum Position {
    /// Predefined keyword position.
    Keyword(PositionKeyword),
    /// Numeric pixel value.
    Number(i64),
    /// Percentage value.
    Percent(Percent),
}

/// Title component.
#[derive(Clone, Debug)]
pub struct Title {
    /// Main title text.
    pub text: Option<String>,
    /// Subtitle text.
    pub sub_text: Option<String>,
    /// Link for the title.
    pub link: Option<String>,
    pub left: Option<Position>,
    pub top: Option<Position>,
    pub right: Option<Position>,
    pub bottom: Option<Position>,
    /// Additional raw title fields.
    pub extra: Option<Vec<(String, Json)>>,
}

impl Title {
    /// A title with nothing set.
    pub open spec fn spec_empty() -> Title {
        Title {
            text: None,
            sub_text: None,
            link: None,
            left: None,
            top: None,
            right: None,
            bottom: None,
            extra: None,
        }
    }

    pub fn new(text: &str) -> (r: Title)
        ensures
            r == (Title { text: r.text, ..Title::spec_empty() }),
            r.text is Some,
            r.text->0@ == text@,
    {
        Title {
            text: Some(text.to_owned()),
            sub_text: None,
            link: None,
            left: None,
            top: None,
            right: None,
            bottom: None,
            extra: None,
        }
    }
}

impl Default for Title {
    fn default() -> (r: Title)
        ensures
            r == Title::spec_empty(),
    {
        Title {
            text: None,
            sub_text: None,
            link: None,
            left: None,
            top: None,
            right: None,
            bottom: None,
            extra: None,
        }
    }
}

/// Grid component.
#[derive(Clone, Debug)]
pub struct Grid {
    pub left: Option<Position>,
    pub right: Option<Position>,
    pub top: Option<Position>,
    pub bottom: Option<Position>,
    /// Whether the grid area contains the axis labels.
    pub contain_label: Option<bool>,
    pub background_color: Option<Json>,
    pub border_color: Option<Json>,
    /// Border width in pixels.
    pub border_width: Option<i64>,
    pub show: Option<bool>,
    pub z: Option<i32>,
    pub zlevel: Option<i32>,
    /// Additional raw grid fields.
    pub extra: Option<Vec<(String, Json)>>,
}

impl Grid {
    /// A grid with nothing set.
    pub open spec fn spec_empty() -> Grid {
        Grid {
            left: None,
            right: None,
            top: None,
            bottom: None,
            contain_label: None,
            background_color: None,
            border_color: None,
            border_width: None,
            show: None,
            z: None,
            zlevel: None,
            extra: None,
        }
    }
}

#[derive(Clone, Copy, Debug, PartialEq, Eq, Structural)]
pub enum TooltipTrigger {
    Item,
    Axis,
    Disabled,
}

#[derive(Clone, Copy, Debug, PartialEq, Eq, Structural)]
pub enum AxisPointerType {
    Cross,
    Line,
    Shadow,
    Disabled,
}

#[derive(Clone, Copy, Debug, PartialEq, Eq, Structural)]
pub enum AxisPointerTargetAxis {
    Auto,
    X,
    Y,
    Radius,
    Angle,
}

#[derive(Clone, Copy, Debug, PartialEq, Eq, Structural)]
pub struct AxisPointer {
    pub pointer_type: Option<AxisPointerType>,
    pub snap: Option<bool>,
    pub animation: Option<bool>,
    pub axis: Option<AxisPointerTargetAxis>,
}

/// Tooltip component.
#[derive(Clone, Debug)]
pub struct Tooltip {
    pub show: bool,
    pub show_delay: Option<i32>,
    pub hide_delay: Option<i32>,
    /// Trigger mode: item or axis.
    pub trigger: Option<TooltipTrigger>,
    /// Tooltip formatter template.
    pub formatter: Option<Json>,
    pub axis_pointer: Option<AxisPointer>,
}

#[derive(Clone, Copy, Debug, PartialEq, Eq, Structural)]
pub enum LegendOrient {
    Horizontal,
    Vertical,
}

/// Legend component.
#[derive(Clone, Debug)]
pub struct Legend {
    /// Data items in the legend.
    pub data: Option<Vec<String>>,
    pub orient: Option<LegendOrient>,
    pub left: Option<Position>,
    pub right: Option<Position>,
    pub top: Option<Position>,
    pub bottom: Option<Position>,
}

impl Default for Legend {
    fn default() -> (r: Legend)
        ensures
            r.data is None,
            r.orient is None,
            r.left is None,
            r.right is None,
            r.top is None,
            r.bottom is None,
    {
        Legend { data: None, orient: None, left: None, right: None, top: None, bottom: None }
    }
}

/// Axis presentation types; `Log` is the logarithmic presentation variant
/// of a value axis, chosen explicitly by the caller.
#[derive(Clone, Copy, Debug, PartialEq, Eq, Structural)]
pub enum AxisType {
    Value,
    Category,
    Time,
    Log,
}

/// The presentation type that a classification kind maps to.
pub open spec fn axis_type_of_kind(k: AxisKind) -> AxisType {
    match k {
        AxisKind::Value => AxisType::Value,
        AxisKind::Category => AxisType::Category,
        AxisKind::Time => AxisType::Time,
    }
}

fn axis_type_for<T: AxisKindMarker>() -> (t: AxisType)
    ensures
        t == axis_type_of_kind(kind_of::<T>()),
{
    match T::AxisType::axis_kind() {
        AxisKind::Value => AxisType::Value,
        AxisKind::Category => AxisType::Category,
        AxisKind::Time => AxisType::Time,
    }
}

/// A two-dimensional data point with a display name.
#[derive(Debug)]
pub struct NamedValuePair<X: AxisKindMarker, Y: AxisKindMarker> {
    pub value: (ValueSerializeWrapper<X>, ValueSerializeWrapper<Y>),
    pub name: String,
}

impl<X: AxisKindMarker, Y: AxisKindMarker> NamedValuePair<X, Y> {
    pub fn new(x: X, y: Y, name: String) -> (r: Self)
        ensures
            r == (NamedValuePair {
                value: (ValueSerializeWrapper(x), ValueSerializeWrapper(y)),
                name,
            }),
    {
        NamedValuePair { value: (ValueSerializeWrapper(x), ValueSerializeWrapper(y)), name }
    }
}

/// A one-dimensional data point with a display name.
#[derive(Debug)]
pub struct NamedValue<X: AxisKindMarker> {
    pub value: ValueSerializeWrapper<X>,
    pub name: String,
}

/// Axis (cartesian).
#[derive(Debug)]
pub struct Axis<T: AxisKindMarker> {
    /// Presentation type: fixed by `T`, except for the explicit `Log`
    /// choice on value axes.
    pub axis_type: AxisType,
    pub inverse: Option<bool>,
    /// Axis display name.
    pub name: Option<String>,
    /// Explicit data for a category axis.
    pub data: Option<Vec<ValueSerializeWrapper<T>>>,
    /// Additional raw axis fields.
    pub extra: Option<Vec<(String, Json)>>,
}

impl<T: AxisKindMarker> Axis<T> {
    /// The default axis for `T`: typed from the classification alone.
    pub open spec fn spec_default() -> Axis<T> {
        Axis {
            axis_type: axis_type_of_kind(kind_of::<T>()),
            inverse: None,
            name: None,
            data: None,
            extra: None,
        }
    }

    pub fn new_named(name: String) -> (r: Self)
        ensures
            r == (Axis { name: Some(name), ..Axis::<T>::spec_default() }),
    {
        Axis {
            axis_type: axis_type_for::<T>(),
            name: Some(name),
            inverse: None,
            data: None,
            extra: None,
        }
    }

    /// A named axis with an explicit inversion flag; a logarithmic scale
    /// may be requested and is honoured exactly when `T` classifies as a
    /// value axis, and ignored otherwise.
    pub fn new(name: String, is_log: bool, inverse: bool) -> (r: Self)
        ensures
            r.axis_type == (if kind_of::<T>() == AxisKind::Value && is_log {
                AxisType::Log
            } else {
                axis_type_of_kind(kind_of::<T>())
            }),
            r.name == Some(name),
            r.inverse == Some(inverse),
            r.data is None,
            r.extra is None,
    {
        let kind_is_value = match T::AxisType::axis_kind() {
            AxisKind::Value => true,
            _ => false,
        };
        if kind_is_value && is_log {
            Axis {
                axis_type: AxisType::Log,
                name: Some(name),
                inverse: Some(inverse),
                data: None,
                extra: None,
            }
        } else {
            Axis {
                axis_type: axis_type_for::<T>(),
                name: Some(name),
                inverse: Some(inverse),
                data: None,
                extra: None,
            }
        }
    }
}

impl<T: AxisKindMarker> Default for Axis<T> {
    fn default() -> (r: Axis<T>)
        ensures
            r == Axis::<T>::spec_default(),
    {
        Axis {
            axis_type: axis_type_for::<T>(),
            inverse: None,
            name: None,
            data: None,
            extra: None,
        }
    }
}

/// Available series types.
#[derive(Clone, Copy, Debug, PartialEq, Eq, Structural)]
pub enum SeriesType {
    Line,
    Bar,
    Pie,
    Scatter,
    EffectScatter,
    Radar,
    Tree,
    Treemap,
    Sunburst,
    Boxplot,
    Candlestick,
    Heatmap,
    GeoMap,
    Parallel,
    Lines,
    Graph,
    Sankey,
    Funnel,
    Gauge,
    PictorialBar,
    ThemeRiver,
    Custom,
}

/// Inline series data, in one of four shapes.
#[derive(Debug)]
pub enum DataVariant<X: AxisKindMarker, Y: AxisKindMarker> {
    /// Single-dimension data.
    Data(Vec<ValueSerializeWrapper<X>>),
    /// Two-dimensional data: `[x, y]` pairs.
    Pair(Vec<(ValueSerializeWrapper<X>, ValueSerializeWrapper<Y>)>),
    /// Single-dimension data with a name per point.
    Named(Vec<NamedValue<X>>),
    /// Two-dimensional data with a name per point.
    NamedPair(Vec<NamedValuePair<X, Y>>),
}

/// The data source for a series: inline data or a dataset reference.
#[derive(Debug)]
pub enum SeriesDataSource<X: AxisKindMarker, Y: AxisKindMarker> {
    /// Direct data.
    Data(DataVariant<X, Y>),
    /// Reference to a dataset by its index.
    DatasetIndex(usize),
}

impl<X: AxisKindMarker, Y: AxisKindMarker> SeriesDataSource<X, Y> {
    /// A source that references a dataset by index.
    pub fn from_dataset_index(index: usize) -> (r: Self)
        ensures
            r == SeriesDataSource::<X, Y>::DatasetIndex(index),
    {
        Self::DatasetIndex(index)
    }

    /// A source with a simple array of values.
    pub fn from_values(values: Vec<X>) -> (r: Self)
        ensures
            r is Data,
            r->Data_0 is Data,
            r->Data_0->Data_0@.len() == values@.len(),
            forall|i: int|
                0 <= i < values@.len() ==> r->Data_0->Data_0@[i].0 == values@[i],
    {
        Self::Data(DataVariant::Data(wrap_values(values)))
    }

    /// A source with an array of `[x, y]` pairs.
    pub fn from_pairs(pairs: Vec<(X, Y)>) -> (r: Self)
        ensures
            r is Data,
            r->Data_0 is Pair,
            r->Data_0->Pair_0@.len() == pairs@.len(),
            forall|i: int|
                0 <= i < pairs@.len() ==> r->Data_0->Pair_0@[i].0.0 == pairs@[i].0
                    && r->Data_0->Pair_0@[i].1.0 == pairs@[i].1,
    {
        Self::Data(DataVariant::Pair(wrap_pairs(pairs)))
    }

    /// A source of named pairs.
    pub fn from_named_value_pairs(named_pairs: Vec<NamedValuePair<X, Y>>) -> (r: Self)
        ensures
            r == SeriesDataSource::<X, Y>::Data(DataVariant::NamedPair(named_pairs)),
    {
        Self::Data(DataVariant::NamedPair(named_pairs))
    }

    /// A source of named values.
    pub fn with_named_values(named_values: Vec<NamedValue<X>>) -> (r: Self)
        ensures
            r == SeriesDataSource::<X, Y>::Data(DataVariant::Named(named_values)),
    {
        Self::Data(DataVariant::Named(named_values))
    }

    /// A source of labelled values: each value with its display name.
    pub fn from_labeled_values(values: Vec<(X, String)>) -> (r: Self)
        ensures
            r is Data,
            r->Data_0 is Named,
            r->Data_0->Named_0@.len() == values@.len(),
            forall|i: int|
                0 <= i < values@.len() ==> r->Data_0->Named_0@[i].value.0 == values@[i].0
                    && r->Data_0->Named_0@[i].name == values@[i].1,
    {
        Self::Data(DataVariant::Named(wrap_labeled(values)))
    }

    /// A source of labelled pairs; the label always comes last.
    pub fn from_tuples_with_label(values: Vec<(X, Y, String)>) -> (r: Self)
        ensures
            r is Data,
            r->Data_0 is NamedPair,
            r->Data_0->NamedPair_0@.len() == values@.len(),
            forall|i: int|
                0 <= i < values@.len() ==> r->Data_0->NamedPair_0@[i].value.0.0 == values@[i].0
                    && r->Data_0->NamedPair_0@[i].value.1.0 == values@[i].1
                    && r->Data_0->NamedPair_0@[i].name == values@[i].2,
    {
        Self::Data(DataVariant::NamedPair(wrap_named_pairs(values)))
    }
}


/// Point symbols.
#[derive(Clone, Copy, Debug, PartialEq, Eq, Structural)]
pub enum DataPointSymbol {
    Circle,
    Rect,
    RoundRect,
    Triangle,
    Diamond,
    Pin,
    Arrow,
    NoSymbol,
}

/// Series definition.
#[derive(Debug)]
pub struct Series<X: AxisKindMarker, Y: AxisKindMarker> {
    /// Chart type.
    pub series_type: Option<SeriesType>,
    /// Series display name.
    pub name: Option<String>,
    pub smooth: Option<bool>,
    pub area_style: Option<AreaStyle>,
    /// The data source.
    pub data: SeriesDataSource<X, Y>,
    /// Whether symbols show outside hover.
    pub show_symbol: Option<bool>,
    pub symbol: Option<DataPointSymbol>,
    pub symbol_size: Option<usize>,
    /// Additional raw series fields.
    pub extra: Option<Vec<(String, Json)>>,
}

impl<X: AxisKindMarker, Y: AxisKindMarker> Series<X, Y> {
    pub fn new(name: String, series_type: SeriesType, data: SeriesDataSource<X, Y>) -> (r:
        Series<X, Y>)
        ensures
            r == (Series {
                series_type: Some(series_type),
                name: Some(name),
                smooth: None,
                area_style: None,
                data,
                show_symbol: None,
                symbol: None,
                symbol_size: None,
                extra: None,
            }),
    {
        Series {
            series_type: Some(series_type),
            name: Some(name),
            smooth: None,
            area_style: None,
            data,
            show_symbol: None,
            symbol: None,
            symbol_size: None,
            extra: None,
        }
    }
}

#[derive(Clone, Copy, Debug, PartialEq, Eq, Structural)]
pub enum AxisFillOrigin {
    Auto,
    Start,
    End,
    Number,
}

#[derive(Debug, Clone)]
pub struct AreaStyle {
    pub color: Option<Json>,
    pub origin: Option<AxisFillOrigin>,
}

/// A chain of transforms applied to an upstream dataset.
#[derive(Debug, Clone)]
pub struct Transform {
    pub transform: Vec<DatasetTransform>,
    pub from_dataset_index: Option<usize>,
}

/// A raw tabular data block of `(x, y)` pairs.
#[derive(Debug)]
pub struct Source<X: AxisKindMarker, Y: AxisKindMarker> {
    pub source: Vec<(ValueSerializeWrapper<X>, ValueSerializeWrapper<Y>)>,
}

/// A raw tabular data block of `(x, y, label)` triples.
#[derive(Debug)]
pub struct LabelledSource<X: AxisKindMarker, Y: AxisKindMarker> {
    pub source: Vec<(ValueSerializeWrapper<X>, ValueSerializeWrapper<Y>, String)>,
}

/// One entry of the chart's dataset list; the position in that list is the
/// dataset index that series and transforms reference.
#[derive(Debug)]
pub enum DatasetComponent<X: AxisKindMarker, Y: AxisKindMarker> {
    Source(Source<X, Y>),
    LabelledSource(LabelledSource<X, Y>),
    Transform(Transform),
}

impl<X: AxisKindMarker, Y: AxisKindMarker> DatasetComponent<X, Y> {
    /// A component holding one transform chained from the given dataset.
    pub fn tr(transform: DatasetTransform, index: usize) -> (r: Self)
        ensures
            r is Transform,
            r->Transform_0.transform@ == seq![transform],
            r->Transform_0.from_dataset_index == Some(index),
    {
        let mut transforms: Vec<DatasetTransform> = Vec::new();
        transforms.push(transform);
        Self::Transform(Transform { transform: transforms, from_dataset_index: Some(index) })
    }

    /// A component holding several transforms chained from the given
    /// dataset.
    pub fn trs(transform: Vec<DatasetTransform>, index: usize) -> (r: Self)
        ensures
            r == (DatasetComponent::<X, Y>::Transform(Transform {
                transform,
                from_dataset_index: Some(index),
            })),
    {
        Self::Transform(Transform { transform, from_dataset_index: Some(index) })
    }

    /// A source component from `(x, y)` pairs.
    pub fn src(source: Vec<(X, Y)>) -> (r: Self)
        ensures
            r is Source,
            r->Source_0.source@.len() == source@.len(),
            forall|i: int|
                0 <= i < source@.len() ==> r->Source_0.source@[i].0.0 == source@[i].0
                    && r->Source_0.source@[i].1.0 == source@[i].1,
    {
        Self::Source(Source { source: wrap_pairs(source) })
    }

    /// A labelled source component; the label always comes last.
    pub fn labelled_source(source: Vec<(X, Y, String)>) -> (r: Self)
        ensures
            r is LabelledSource,
            r->LabelledSource_0.source@.len() == source@.len(),
            forall|i: int|
                0 <= i < source@.len() ==> r->LabelledSource_0.source@[i].0.0 == source@[i].0
                    && r->LabelledSource_0.source@[i].1.0 == source@[i].1
                    && r->LabelledSource_0.source@[i].2 == source@[i].2,
    {
        Self::LabelledSource(LabelledSource { source: wrap_labeled_pairs(source) })
    }
}

/// Transform types.
#[derive(Clone, Copy, Debug, PartialEq, Eq, Structural)]
pub enum DatasetTransformType {
    Filter,
    Sort,
    Boxplot,
    Regression,
    Clustering,
}

/// Transform applied to a dataset.
#[derive(Debug, Clone)]
pub struct DatasetTransform {
    /// Transform type.
    pub transform_type: DatasetTransformType,
    /// Transform configuration.
    pub config: DatasetTransformConfig,
}

impl DatasetTransform {
    pub fn regression(config: RegressionConfig) -> (r: Self)
        ensures
            r == (DatasetTransform {
                transform_type: DatasetTransformType::Regression,
                config: DatasetTransformConfig::Regression(config),
            }),
    {
        Self {
            transform_type: DatasetTransformType::Regression,
            config: DatasetTransformConfig::Regression(config),
        }
    }

    pub fn clustering(clustering_config: ClusteringConfig) -> (r: Self)
        ensures
            r == (DatasetTransform {
                transform_type: DatasetTransformType::Clustering,
                config: DatasetTransformConfig::Clustering(clustering_config),
            }),
    {
        Self {
            transform_type: DatasetTransformType::Clustering,
            config: DatasetTransformConfig::Clustering(clustering_config),
        }
    }

    pub fn sort(sort_config: SortConfig) -> (r: Self)
        ensures
            r == (DatasetTransform {
                transform_type: DatasetTransformType::Sort,
                config: DatasetTransformConfig::Sort(sort_config),
            }),
    {
        Self {
            transform_type: DatasetTransformType::Sort,
            config: DatasetTransformConfig::Sort(sort_config),
        }
    }
}

/// The per-kind configuration of a transform.
#[derive(Debug, Clone)]
pub enum DatasetTransformConfig {
    Regression(RegressionConfig),
    Clustering(ClusteringConfig),
    Sort(SortConfig),
}

/// Regression methods.
#[derive(Clone, Copy, Debug, PartialEq, Eq, Structural)]
pub enum RegressionMethod {
    Linear,
    Exponential,
    Logarithmic,
    Polynomial,
}

#[derive(Clone, Copy, Debug, PartialEq, Eq, Structural)]
pub struct SortConfig {
    pub dimension: u8,
    pub order: Order,
}

#[derive(Clone, Copy, Debug, PartialEq, Eq, Structural)]
pub enum Order {
    Asc,
    Desc,
}

/// Configuration for regression transforms.
#[derive(Debug, Clone)]
pub struct RegressionConfig {
    /// Regression method.
    pub method: RegressionMethod,
    /// Polynomial order; only meaningful when the method is `Polynomial`.
    pub order: Option<u8>,
    /// Additional raw regression config fields.
    pub extra: Option<Vec<(String, Json)>>,
}

/// Configuration for clustering transforms.
#[derive(Debug, Clone)]
pub struct ClusteringConfig {
    /// The number of clusters to generate (must be above one).
    pub cluster_count: u8,
    /// The dimension the cluster index is written to.
    pub output_cluster_index_dimension: u8,
    /// The source dimensions used to compute a cluster.
    pub dimensions: Option<Vec<usize>>,
}

impl ClusteringConfig {
    /// A clustering configuration; clustering into fewer than two
    /// clusters is meaningless, so such a count is rejected.
    pub fn new(
        cluster_count: u8,
        output_cluster_index_dimension: u8,
        dimensions: Option<Vec<usize>>,
    ) -> (r: Option<ClusteringConfig>)
        ensures
            cluster_count > 1 <==> r is Some,
            r is Some ==> r->0 == (ClusteringConfig {
                cluster_count,
                output_cluster_index_dimension,
                dimensions,
            }),
    {
        if cluster_count > 1 {
            Some(ClusteringConfig { cluster_count, output_cluster_index_dimension, dimensions })
        } else {
            None
        }
    }
}

/// Root object of a chart configuration.
#[derive(Debug)]
pub struct EChartOptions<X: AxisKindMarker, Y: AxisKindMarker> {
    /// Chart title.
    pub title: Option<Title>,
    /// Grid positioning and style.
    pub grid: Option<Grid>,
    /// Tooltip options.
    pub tooltip: Option<Tooltip>,
    /// Legend options.
    pub legend: Option<Legend>,
    /// The dataset list; positions in it are the dataset indices.
    pub dataset: Vec<DatasetComponent<X, Y>>,
    /// X-axis options.
    pub x_axis: Axis<X>,
    /// Y-axis options.
    pub y_axis: Axis<Y>,
    /// The series list.
    pub series: Vec<Series<X, Y>>,
    /// Additional raw top-level fields.
    pub extra: Option<Vec<(String, Json)>>,
}

/// Turns labelled pairs into wrapped triples, keeping the order.
fn wrap_labeled_pairs<X: AxisKindMarker, Y: AxisKindMarker>(values: Vec<(X, Y, String)>) -> (r:
    Vec<(ValueSerializeWrapper<X>, ValueSerializeWrapper<Y>, String)>)
    ensures
        r@.len() == values@.len(),
        forall|i: int|
            0 <= i < values@.len() ==> r@[i].0.0 == values@[i].0 && r@[i].1.0 == values@[i].1
                && r@[i].2 == values@[i].2,
{
    let ghost orig = values@;
    let mut rest = values;
    let mut wrapped: Vec<(ValueSerializeWrapper<X>, ValueSerializeWrapper<Y>, String)> = Vec::new();
    while rest.len() > 0
        invariant
            wrapped@.len() + rest@.len() == orig.len(),
            forall|i: int|
                0 <= i < wrapped@.len() ==> wrapped@[i].0.0 == orig[i].0 && wrapped@[i].1.0
                    == orig[i].1 && wrapped@[i].2 == orig[i].2,
            forall|i: int| 0 <= i < rest@.len() ==> rest@[i] == orig[wrapped@.len() + i],
        decreases rest@.len(),
    {
        let (x, y, label) = rest.remove(0);
        wrapped.push((ValueSerializeWrapper(x), ValueSerializeWrapper(y), label));
    }
    wrapped
}


/// Wraps every value of a vector, keeping the order.
fn wrap_values<X: AxisKindMarker>(values: Vec<X>) -> (r: Vec<ValueSerializeWrapper<X>>)
    ensures
        r@.len() == values@.len(),
        forall|i: int| 0 <= i < values@.len() ==> r@[i].0 == values@[i],
{
    let ghost orig = values@;
    let mut rest = values;
    let mut wrapped: Vec<ValueSerializeWrapper<X>> = Vec::new();
    while rest.len() > 0
        invariant
            wrapped@.len() + rest@.len() == orig.len(),
            forall|i: int| 0 <= i < wrapped@.len() ==> wrapped@[i].0 == orig[i],
            forall|i: int| 0 <= i < rest@.len() ==> rest@[i] == orig[wrapped@.len() + i],
        decreases rest@.len(),
    {
        let x = rest.remove(0);
        wrapped.push(ValueSerializeWrapper(x));
    }
    wrapped
}

/// Wraps both components of every pair of a vector, keeping the order.
fn wrap_pairs<X: AxisKindMarker, Y: AxisKindMarker>(pairs: Vec<(X, Y)>) -> (r: Vec<
    (ValueSerializeWrapper<X>, ValueSerializeWrapper<Y>),
>)
    ensures
        r@.len() == pairs@.len(),
        forall|i: int|
            0 <= i < pairs@.len() ==> r@[i].0.0 == pairs@[i].0 && r@[i].1.0 == pairs@[i].1,
{
    let ghost orig = pairs@;
    let mut rest = pairs;
    let mut wrapped: Vec<(ValueSerializeWrapper<X>, ValueSerializeWrapper<Y>)> = Vec::new();
    while rest.len() > 0
        invariant
            wrapped@.len() + rest@.len() == orig.len(),
            forall|i: int|
                0 <= i < wrapped@.len() ==> wrapped@[i].0.0 == orig[i].0 && wrapped@[i].1.0
                    == orig[i].1,
            forall|i: int| 0 <= i < rest@.len() ==> rest@[i] == orig[wrapped@.len() + i],
        decreases rest@.len(),
    {
        let (x, y) = rest.remove(0);
        wrapped.push((ValueSerializeWrapper(x), ValueSerializeWrapper(y)));
    }
    wrapped
}

/// Turns labelled values into named data points, keeping the order.
fn wrap_labeled<X: AxisKindMarker>(values: Vec<(X, String)>) -> (r: Vec<NamedValue<X>>)
    ensures
        r@.len() == values@.len(),
        forall|i: int|
            0 <= i < values@.len() ==> r@[i].value.0 == values@[i].0 && r@[i].name
                == values@[i].1,
{
    let ghost orig = values@;
    let mut rest = values;
    let mut wrapped: Vec<NamedValue<X>> = Vec::new();
    while rest.len() > 0
        invariant
            wrapped@.len() + rest@.len() == orig.len(),
            forall|i: int|
                0 <= i < wrapped@.len() ==> wrapped@[i].value.0 == orig[i].0 && wrapped@[i].name
                    == orig[i].1,
            forall|i: int| 0 <= i < rest@.len() ==> rest@[i] == orig[wrapped@.len() + i],
        decreases rest@.len(),
    {
        let (x, label) = rest.remove(0);
        wrapped.push(NamedValue { value: ValueSerializeWrapper(x), name: label });
    }
    wrapped
}

/// Turns labelled pairs into named data points, keeping the order.
fn wrap_named_pairs<X: AxisKindMarker, Y: AxisKindMarker>(values: Vec<(X, Y, String)>) -> (r:
    Vec<NamedValuePair<X, Y>>)
    ensures
        r@.len() == values@.len(),
        forall|i: int|
            0 <= i < values@.len() ==> r@[i].value.0.0 == values@[i].0 && r@[i].value.1.0
                == values@[i].1 && r@[i].name == values@[i].2,
{
    let ghost orig = values@;
    let mut rest = values;
    let mut wrapped: Vec<NamedValuePair<X, Y>> = Vec::new();
    while rest.len() > 0
        invariant
            wrapped@.len() + rest@.len() == orig.len(),
            forall|i: int|
                0 <= i < wrapped@.len() ==> wrapped@[i].value.0.0 == orig[i].0
                    && wrapped@[i].value.1.0 == orig[i].1 && wrapped@[i].name == orig[i].2,
            forall|i: int| 0 <= i < rest@.len() ==> rest@[i] == orig[wrapped@.len() + i],
        decreases rest@.len(),
    {
        let (x, y, label) = rest.remove(0);
        wrapped.push(NamedValuePair { value: (ValueSerializeWrapper(x), ValueSerializeWrapper(y)), name: label });
    }
    wrapped
}

} // verus!
