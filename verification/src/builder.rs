//! The builder protocol: a fluent, ownership-transferring API that
//! assembles a chart configuration incrementally. Every operation states
//! exactly how the new configuration relates to the old one; the
//! regression family is only available when both axes classify as value
//! axes.

use vstd::prelude::*;
use crate::axis_typing::{AxisKindMarker, ValueAxisCapable};
use crate::common::{Percent, Size};
use crate::json::{Json, JsonV, extra_fields_view};
use crate::options::{Axis, DataPointSymbol, DatasetComponent, DatasetTransform,
    DatasetTransformConfig, DatasetTransformType, EChartOptions, Grid, Legend, LegendOrient,
    Position, PositionKeyword, RegressionConfig, RegressionMethod, Series, SeriesDataSource,
    SeriesType, Title, Tooltip, AxisPointer, AxisPointerType, TooltipTrigger};
use crate::templates::ScriptTemplate;

verus! {

/// The tooltip a fresh configuration is seeded with: shown, triggered per
/// item, with a cross-hair axis pointer that does not snap.
pub open spec fn default_tooltip() -> Tooltip {
    Tooltip {
        show: true,
        show_delay: None,
        hide_delay: None,
        trigger: Some(TooltipTrigger::Item),
        formatter: None,
        axis_pointer: Some(
            AxisPointer {
                pointer_type: Some(AxisPointerType::Cross),
                snap: Some(false),
                animation: None,
                axis: None,
            },
        ),
    }
}

/// Whether a position is a percentage with the given numeric text.
pub open spec fn is_percent_pos(p: Option<Position>, text: Seq<char>) -> bool {
    &&& p is Some
    &&& p->0 is Percent
    &&& p->0->Percent_0.0@ == text
}

/// Relies on `uuid::Uuid::new_v4` and its display form: a fresh random
/// identifier, rendered in the hyphenated format of 36 characters.
#[verifier::external_body]
fn fresh_target_id() -> (r: String)
    ensures
        r@.len() == 36,
{
    uuid::Uuid::new_v4().to_string()
}

fn exec_default_tooltip() -> (t: Tooltip)
    ensures
        t == default_tooltip(),
{
    Tooltip {
        show: true,
        show_delay: None,
        hide_delay: None,
        trigger: Some(TooltipTrigger::Item),
        formatter: None,
        axis_pointer: Some(
            AxisPointer {
                pointer_type: Some(AxisPointerType::Cross),
                snap: Some(false),
                animation: None,
                axis: None,
            },
        ),
    }
}

impl<X: AxisKindMarker, Y: AxisKindMarker> EChartOptions<X, Y> {
    /// A fresh configuration around the given axes: no title, grid,
    /// legend, datasets or series, and the default tooltip.
    pub fn new(x_axis: Axis<X>, y_axis: Axis<Y>) -> (r: Self)
        ensures
            r.title is None,
            r.grid is None,
            r.tooltip == Some(default_tooltip()),
            r.legend is None,
            r.dataset@.len() == 0,
            r.x_axis == x_axis,
            r.y_axis == y_axis,
            r.series@.len() == 0,
            r.extra is None,
    {
        EChartOptions {
            title: None,
            grid: None,
            tooltip: Some(exec_default_tooltip()),
            legend: None,
            dataset: Vec::new(),
            x_axis,
            y_axis,
            series: Vec::new(),
            extra: None,
        }
    }

    /// Enables the legend: installs (or repositions) a vertical legend
    /// anchored at the right edge, and reserves space for it by setting
    /// the grid's right margin. The margins are a fixed layout policy.
    pub fn enable_legend(self) -> (r: Self)
        ensures
            r.legend is Some,
            r.legend->0.orient == Some(LegendOrient::Vertical),
            is_percent_pos(r.legend->0.right, "0"@),
            is_percent_pos(r.legend->0.top, "20"@),
            is_percent_pos(r.legend->0.bottom, "20"@),
            r.legend->0.data == (match self.legend {
                Some(l) => l.data,
                None => None,
            }),
            r.legend->0.left == (match self.legend {
                Some(l) => l.left,
                None => None,
            }),
            r.grid is Some,
            is_percent_pos(r.grid->0.right, "20"@),
            r.grid->0 == (Grid {
                right: r.grid->0.right,
                ..(match self.grid {
                    Some(g) => g,
                    None => Grid::spec_empty(),
                })
            }),
            r == (EChartOptions { legend: r.legend, grid: r.grid, ..self }),
    {
        let EChartOptions { title, grid, tooltip, legend, dataset, x_axis, y_axis, series, extra } =
            self;
        let legend_base = match legend {
            Some(l) => l,
            None => Legend {
                data: None,
                orient: None,
                left: None,
                right: None,
                top: None,
                bottom: None,
            },
        };
        let new_legend = Legend {
            orient: Some(LegendOrient::Vertical),
            right: Some(Position::Percent(Percent("0".to_owned()))),
            top: Some(Position::Percent(Percent("20".to_owned()))),
            bottom: Some(Position::Percent(Percent("20".to_owned()))),
            ..legend_base
        };
        let grid_base = match grid {
            Some(g) => g,
            None => Grid {
                left: None,
                right: None,
                top: None,
                bottom: None,
                contain_label: None,
                background_color: None,
                border_color: None,
                border_width: None,
                show: None,
                z: None,
                zlevel: None,
                extra: None,
            },
        };
        let new_grid = Grid { right: Some(Position::Percent(Percent("20".to_owned()))), ..grid_base };
        EChartOptions {
            title,
            grid: Some(new_grid),
            tooltip,
            legend: Some(new_legend),
            dataset,
            x_axis,
            y_axis,
            series,
            extra,
        }
    }

    /// Sets the title text, centering the title; other title fields keep
    /// their values, and a missing title is created empty first.
    pub fn title_str(self, title: String) -> (r: Self)
        ensures
            r == (EChartOptions {
                title: Some(Title {
                    text: Some(title),
                    left: Some(Position::Keyword(PositionKeyword::Center)),
                    ..(match self.title {
                        Some(t) => t,
                        None => Title::spec_empty(),
                    })
                }),
                ..self
            }),
    {
        let EChartOptions { title: old_title, grid, tooltip, legend, dataset, x_axis, y_axis, series, extra } =
            self;
        let base = match old_title {
            Some(t) => t,
            None => Title::default(),
        };
        let new_title = Title {
            text: Some(title),
            left: Some(Position::Keyword(PositionKeyword::Center)),
            ..base
        };
        EChartOptions {
            title: Some(new_title),
            grid,
            tooltip,
            legend,
            dataset,
            x_axis,
            y_axis,
            series,
            extra,
        }
    }

    /// Sets the subtitle; a missing title is created empty first.
    pub fn subtitle_str(self, subtitle: String) -> (r: Self)
        ensures
            r == (EChartOptions {
                title: Some(Title {
                    sub_text: Some(subtitle),
                    ..(match self.title {
                        Some(t) => t,
                        None => Title::spec_empty(),
                    })
                }),
                ..self
            }),
    {
        let EChartOptions { title: old_title, grid, tooltip, legend, dataset, x_axis, y_axis, series, extra } =
            self;
        let base = match old_title {
            Some(t) => t,
            None => Title::default(),
        };
        let new_title = Title { sub_text: Some(subtitle), ..base };
        EChartOptions {
            title: Some(new_title),
            grid,
            tooltip,
            legend,
            dataset,
            x_axis,
            y_axis,
            series,
            extra,
        }
    }

    /// Replaces the whole title.
    pub fn title(self, title: Title) -> (r: Self)
        ensures
            r == (EChartOptions { title: Some(title), ..self }),
    {
        let EChartOptions { title: _, grid, tooltip, legend, dataset, x_axis, y_axis, series, extra } =
            self;
        EChartOptions {
            title: Some(title),
            grid,
            tooltip,
            legend,
            dataset,
            x_axis,
            y_axis,
            series,
            extra,
        }
    }

    /// Sets the x-axis display name.
    pub fn x_axis_label(self, x: String) -> (r: Self)
        ensures
            r == (EChartOptions { x_axis: Axis { name: Some(x), ..self.x_axis }, ..self }),
    {
        let EChartOptions { title, grid, tooltip, legend, dataset, x_axis, y_axis, series, extra } =
            self;
        let new_axis = Axis { name: Some(x), ..x_axis };
        EChartOptions {
            title,
            grid,
            tooltip,
            legend,
            dataset,
            x_axis: new_axis,
            y_axis,
            series,
            extra,
        }
    }

    /// Sets the y-axis display name.
    pub fn y_axis_label(self, y: String) -> (r: Self)
        ensures
            r == (EChartOptions { y_axis: Axis { name: Some(y), ..self.y_axis }, ..self }),
    {
        let EChartOptions { title, grid, tooltip, legend, dataset, x_axis, y_axis, series, extra } =
            self;
        let new_axis = Axis { name: Some(y), ..y_axis };
        EChartOptions {
            title,
            grid,
            tooltip,
            legend,
            dataset,
            x_axis,
            y_axis: new_axis,
            series,
            extra,
        }
    }

    /// Appends a dataset entry and returns its index: its position in the
    /// dataset list, which later series and transforms reference.
    pub fn add_dataset(&mut self, data: DatasetComponent<X, Y>) -> (index: usize)
        ensures
            index == old(self).dataset@.len(),
            final(self).dataset@ == old(self).dataset@.push(data),
            *final(self) == (EChartOptions { dataset: final(self).dataset, ..*old(self) }),
    {
        let index = self.dataset.len();
        self.dataset.push(data);
        index
    }

    /// Appends a series that visualises the dataset at the given index.
    /// When the index does not refer to an existing dataset the call is a
    /// deliberate no-op and the configuration is returned unchanged. A
    /// labelled dataset additionally gets the fixed encoding hint: columns
    /// zero and one drive position, column two the tooltip text.
    pub fn add_dataset_visualisation(
        self,
        series_label: String,
        series_type: SeriesType,
        dataset_index: usize,
    ) -> (r: Self)
        ensures
            dataset_index >= self.dataset@.len() ==> r == self,
            dataset_index < self.dataset@.len() ==> {
                &&& r == (EChartOptions { series: r.series, ..self })
                &&& r.series@.len() == self.series@.len() + 1
                &&& r.series@.take(self.series@.len() as int) == self.series@
                &&& {
                    let s = r.series@.last();
                    &&& s.series_type == Some(series_type)
                    &&& s.name == Some(series_label)
                    &&& s.smooth == Some(true)
                    &&& s.area_style is None
                    &&& s.symbol is None
                    &&& s.symbol_size is None
                    &&& s.data is DatasetIndex
                    &&& s.data->DatasetIndex_0 == dataset_index
                    &&& s.show_symbol is None
                    &&& (if self.dataset@[dataset_index as int] is LabelledSource {
                        extra_fields_view(s.extra) == encode_hint_fields()
                    } else {
                        s.extra is None
                    })
                }
            },
    {
        if dataset_index >= self.dataset.len() {
            return self;
        }
        let EChartOptions { title, grid, tooltip, legend, dataset, x_axis, y_axis, mut series, extra } =
            self;
        let labelled = match &dataset[dataset_index] {
            DatasetComponent::LabelledSource(_) => true,
            _ => false,
        };
        let series_extra: Option<Vec<(String, Json)>> = if labelled {
            Some(encode_hint())
        } else {
            None
        };
        series.push(
            Series {
                series_type: Some(series_type),
                name: Some(series_label),
                smooth: Some(true),
                area_style: None,
                symbol: None,
                symbol_size: None,
                data: SeriesDataSource::DatasetIndex(dataset_index),
                extra: series_extra,
                show_symbol: None,
            },
        );
        let r = EChartOptions {
            title,
            grid,
            tooltip,
            legend,
            dataset,
            x_axis,
            y_axis,
            series,
            extra,
        };
        proof {
            assert(r.series@.take(self.series@.len() as int) =~= self.series@);
        }
        r
    }

    /// Appends a fully pre-constructed series verbatim.
    pub fn add_series_direct(self, series: Series<X, Y>) -> (r: Self)
        ensures
            r.series@ == self.series@.push(series),
            r == (EChartOptions { series: r.series, ..self }),
    {
        let EChartOptions { title, grid, tooltip, legend, dataset, x_axis, y_axis, series: mut list, extra } =
            self;
        list.push(series);
        EChartOptions {
            title,
            grid,
            tooltip,
            legend,
            dataset,
            x_axis,
            y_axis,
            series: list,
            extra,
        }
    }

    /// Appends a series with inline data.
    pub fn add_series(
        self,
        series_type: SeriesType,
        series_label: String,
        data: SeriesDataSource<X, Y>,
    ) -> (r: Self)
        ensures
            r.series@ == self.series@.push(
                Series {
                    series_type: Some(series_type),
                    name: Some(series_label),
                    smooth: None,
                    area_style: None,
                    data,
                    show_symbol: None,
                    symbol: None,
                    symbol_size: None,
                    extra: None,
                },
            ),
            r == (EChartOptions { series: r.series, ..self }),
    {
        let s = Series::new(series_label, series_type, data);
        self.add_series_direct(s)
    }

    /// Finalizes the chart: generates a fresh target element id, and
    /// wraps the dimensions and the configuration into the render-ready
    /// value.
    pub fn build(self, width: Size, height: Size) -> (r: ScriptTemplate<X, Y>)
        ensures
            r.width == width,
            r.height == height,
            r.options == self,
            r.chart_target_id@.len() == 36,
    {
        ScriptTemplate::new(fresh_target_id(), width, height, self)
    }
}

/// The fixed encoding hint of a labelled dataset visualisation: column
/// zero drives x, column one y, and column two the tooltip text.
pub open spec fn encode_hint_fields() -> Seq<(Seq<char>, JsonV)> {
    seq![
        (
            "encode"@,
            JsonV::Obj(
                seq![
                    ("tooltip"@, JsonV::Int(2)),
                    ("x"@, JsonV::Int(0)),
                    ("y"@, JsonV::Int(1)),
                ],
            ),
        ),
    ]
}

fn encode_hint() -> (r: Vec<(String, Json)>)
    ensures
        crate::json::view_json_fields(r@) == encode_hint_fields(),
{
    let mut encode: Vec<(String, Json)> = Vec::new();
    let ghost e0 = encode@;
    encode.push(("tooltip".to_owned(), Json::Int(2)));
    let ghost e1 = encode@;
    encode.push(("x".to_owned(), Json::Int(0)));
    let ghost e2 = encode@;
    encode.push(("y".to_owned(), Json::Int(1)));
    proof {
        crate::json::lemma_view_json_fields_push(e2, encode@.last());
        crate::json::lemma_view_json_fields_push(e1, e2.last());
        crate::json::lemma_view_json_fields_push(e0, e1.last());
        assert(crate::json::view_json_fields(encode@) =~= seq![
            ("tooltip"@, JsonV::Int(2)),
            ("x"@, JsonV::Int(0)),
            ("y"@, JsonV::Int(1)),
        ]);
    }
    let mut hint: Vec<(String, Json)> = Vec::new();
    let ghost h0 = hint@;
    hint.push(("encode".to_owned(), Json::Obj(encode)));
    proof {
        crate::json::lemma_view_json_fields_push(h0, hint@.last());
        assert(crate::json::view_json_fields(hint@) =~= encode_hint_fields());
    }
    hint
}

impl<X: AxisKindMarker, Y: AxisKindMarker> Default for EChartOptions<X, Y> {
    /// A fresh configuration with default axes, typed from the
    /// classifications of `X` and `Y` alone.
    fn default() -> (r: Self)
        ensures
            r.title is None,
            r.grid is None,
            r.tooltip == Some(default_tooltip()),
            r.legend is None,
            r.dataset@.len() == 0,
            r.x_axis == Axis::<X>::spec_default(),
            r.y_axis == Axis::<Y>::spec_default(),
            r.series@.len() == 0,
            r.extra is None,
    {
        EChartOptions::new(Axis::default(), Axis::default())
    }
}

/// The regression configuration an operation writes for the given method:
/// the polynomial order is kept only for the polynomial method and
/// ignored for every other, so it is never written into the wire form
/// where it has no meaning.
pub open spec fn regression_config_for(method: RegressionMethod, order: Option<u8>)
    -> RegressionConfig {
    RegressionConfig {
        method,
        order: if method == RegressionMethod::Polynomial {
            order
        } else {
            None
        },
        extra: None,
    }
}

/// The transform dataset entry a regression operation appends: one
/// regression transform chained from the given source dataset.
pub open spec fn is_regression_transform<X: AxisKindMarker, Y: AxisKindMarker>(
    d: DatasetComponent<X, Y>,
    source_index: usize,
    method: RegressionMethod,
    order: Option<u8>,
) -> bool {
    &&& d is Transform
    &&& d->Transform_0.from_dataset_index == Some(source_index)
    &&& d->Transform_0.transform@ == seq![
        DatasetTransform {
            transform_type: DatasetTransformType::Regression,
            config: DatasetTransformConfig::Regression(regression_config_for(method, order)),
        },
    ]
}

/// The scatter series a regression operation appends over the source
/// dataset: named `label (data)`, with circle symbols of size eight.
pub open spec fn is_regression_data_series<X: AxisKindMarker, Y: AxisKindMarker>(
    s: Series<X, Y>,
    label: Seq<char>,
    source_index: int,
) -> bool {
    &&& s.series_type == Some(SeriesType::Scatter)
    &&& s.name is Some
    &&& s.name->0@ == label + " (data)"@
    &&& s.smooth is None
    &&& s.area_style is None
    &&& s.data is DatasetIndex
    &&& s.data->DatasetIndex_0 == source_index
    &&& s.show_symbol is None
    &&& s.symbol == Some(DataPointSymbol::Circle)
    &&& s.symbol_size == Some(8usize)
    &&& s.extra is None
}

/// The smoothed line series a regression operation appends over the
/// transform dataset: named `label (regression)`, with no symbol.
pub open spec fn is_regression_line_series<X: AxisKindMarker, Y: AxisKindMarker>(
    s: Series<X, Y>,
    label: Seq<char>,
    transform_index: int,
) -> bool {
    &&& s.series_type == Some(SeriesType::Line)
    &&& s.name is Some
    &&& s.name->0@ == label + " (regression)"@
    &&& s.smooth == Some(true)
    &&& s.area_style is None
    &&& s.data is DatasetIndex
    &&& s.data->DatasetIndex_0 == transform_index
    &&& s.show_symbol is None
    &&& s.symbol == Some(DataPointSymbol::NoSymbol)
    &&& s.symbol_size is None
    &&& s.extra is None
}

impl<X: ValueAxisCapable, Y: ValueAxisCapable> EChartOptions<X, Y> {
    /// Appends a regression transform dataset chained from the given
    /// source dataset and returns its index. The order is written only
    /// for the polynomial method.
    pub fn add_regression_dataset(
        &mut self,
        data_source_index: usize,
        method: RegressionMethod,
        order: Option<u8>,
    ) -> (index: usize)
        ensures
            index == old(self).dataset@.len(),
            final(self).dataset@.len() == old(self).dataset@.len() + 1,
            final(self).dataset@.take(old(self).dataset@.len() as int) == old(self).dataset@,
            is_regression_transform(
                final(self).dataset@.last(),
                data_source_index,
                method,
                order,
            ),
            *final(self) == (EChartOptions { dataset: final(self).dataset, ..*old(self) }),
    {
        let index = self.dataset.len();
        let kept_order = if matches!(method, RegressionMethod::Polynomial) {
            order
        } else {
            None
        };
        let config = RegressionConfig { method, order: kept_order, extra: None };
        let transform = DatasetTransform::regression(config);
        let component = DatasetComponent::tr(transform, data_source_index);
        self.dataset.push(component);
        proof {
            assert(final(self).dataset@.take(old(self).dataset@.len() as int) =~= old(
                self,
            ).dataset@);
        }
        index
    }

    /// Appends a linear regression transform dataset.
    pub fn add_linear_regression_dataset(&mut self, data_source_index: usize) -> (index: usize)
        ensures
            index == old(self).dataset@.len(),
            final(self).dataset@.len() == old(self).dataset@.len() + 1,
            final(self).dataset@.take(old(self).dataset@.len() as int) == old(self).dataset@,
            is_regression_transform(
                final(self).dataset@.last(),
                data_source_index,
                RegressionMethod::Linear,
                None,
            ),
            *final(self) == (EChartOptions { dataset: final(self).dataset, ..*old(self) }),
    {
        self.add_regression_dataset(data_source_index, RegressionMethod::Linear, None)
    }

    /// Appends a polynomial regression transform dataset of the given
    /// order.
    pub fn add_polynomial_regression_dataset(&mut self, data_source_index: usize, order: u8)
        -> (index: usize)
        ensures
            index == old(self).dataset@.len(),
            final(self).dataset@.len() == old(self).dataset@.len() + 1,
            final(self).dataset@.take(old(self).dataset@.len() as int) == old(self).dataset@,
            is_regression_transform(
                final(self).dataset@.last(),
                data_source_index,
                RegressionMethod::Polynomial,
                Some(order),
            ),
            *final(self) == (EChartOptions { dataset: final(self).dataset, ..*old(self) }),
    {
        self.add_regression_dataset(data_source_index, RegressionMethod::Polynomial, Some(order))
    }

    /// Appends an exponential regression transform dataset.
    pub fn add_exponential_regression_dataset(&mut self, data_source_index: usize) -> (index:
        usize)
        ensures
            index == old(self).dataset@.len(),
            final(self).dataset@.len() == old(self).dataset@.len() + 1,
            final(self).dataset@.take(old(self).dataset@.len() as int) == old(self).dataset@,
            is_regression_transform(
                final(self).dataset@.last(),
                data_source_index,
                RegressionMethod::Exponential,
                None,
            ),
            *final(self) == (EChartOptions { dataset: final(self).dataset, ..*old(self) }),
    {
        self.add_regression_dataset(data_source_index, RegressionMethod::Exponential, None)
    }

    /// Appends a whole regression view of the given data: the source
    /// dataset, a chained regression transform dataset, a scatter series
    /// over the source named `label (data)`, and a smoothed line series
    /// over the transform named `label (regression)`, in that order.
    pub fn add_regression_series(
        self,
        series_label: &str,
        data: DatasetComponent<X, Y>,
        method: RegressionMethod,
        order: Option<u8>,
    ) -> (r: Self)
        ensures
            r.dataset@.len() == self.dataset@.len() + 2,
            r.dataset@.take(self.dataset@.len() as int) == self.dataset@,
            r.dataset@[self.dataset@.len() as int] == data,
            is_regression_transform(
                r.dataset@.last(),
                (self.dataset@.len() as usize),
                method,
                order,
            ),
            r.series@.len() == self.series@.len() + 2,
            r.series@.take(self.series@.len() as int) == self.series@,
            is_regression_data_series(
                r.series@[self.series@.len() as int],
                series_label@,
                self.dataset@.len() as int,
            ),
            is_regression_line_series(
                r.series@.last(),
                series_label@,
                self.dataset@.len() as int + 1,
            ),
            r == (EChartOptions { dataset: r.dataset, series: r.series, ..self }),
    {
        let mut c = self;
        let source_index = c.dataset.len();
        c.dataset.push(data);
        let transform_index = c.dataset.len();
        let kept_order = if matches!(method, RegressionMethod::Polynomial) {
            order
        } else {
            None
        };
        let config = RegressionConfig { method, order: kept_order, extra: None };
        let component = DatasetComponent::tr(DatasetTransform::regression(config), source_index);
        c.dataset.push(component);
        let mut scatter_name = series_label.to_owned();
        scatter_name.append(" (data)");
        c.series.push(
            Series {
                series_type: Some(SeriesType::Scatter),
                name: Some(scatter_name),
                smooth: None,
                area_style: None,
                data: SeriesDataSource::DatasetIndex(source_index),
                show_symbol: None,
                symbol: Some(DataPointSymbol::Circle),
                symbol_size: Some(8),
                extra: None,
            },
        );
        let mut line_name = series_label.to_owned();
        line_name.append(" (regression)");
        c.series.push(
            Series {
                series_type: Some(SeriesType::Line),
                name: Some(line_name),
                smooth: Some(true),
                area_style: None,
                data: SeriesDataSource::DatasetIndex(transform_index),
                show_symbol: None,
                symbol: Some(DataPointSymbol::NoSymbol),
                symbol_size: None,
                extra: None,
            },
        );
        proof {
            assert(c.dataset@.take(self.dataset@.len() as int) =~= self.dataset@);
            assert(c.series@.take(self.series@.len() as int) =~= self.series@);
        }
        c
    }

    /// Appends a linear regression view of the given data.
    pub fn add_linear_regression_series(self, series_label: &str, data: DatasetComponent<X, Y>)
        -> (r: Self)
        ensures
            r.dataset@.len() == self.dataset@.len() + 2,
            r.series@.len() == self.series@.len() + 2,
            r.dataset@.take(self.dataset@.len() as int) == self.dataset@,
            r.series@.take(self.series@.len() as int) == self.series@,
            r.dataset@[self.dataset@.len() as int] == data,
            is_regression_transform(
                r.dataset@.last(),
                (self.dataset@.len() as usize),
                RegressionMethod::Linear,
                None,
            ),
            is_regression_data_series(
                r.series@[self.series@.len() as int],
                series_label@,
                self.dataset@.len() as int,
            ),
            is_regression_line_series(
                r.series@.last(),
                series_label@,
                self.dataset@.len() as int + 1,
            ),
            r == (EChartOptions { dataset: r.dataset, series: r.series, ..self }),
    {
        self.add_regression_series(series_label, data, RegressionMethod::Linear, None)
    }

    /// Appends a polynomial regression view of the given data and order.
    pub fn add_polynomial_regression_series(
        self,
        series_label: &str,
        data: DatasetComponent<X, Y>,
        order: u8,
    ) -> (r: Self)
        ensures
            r.dataset@.len() == self.dataset@.len() + 2,
            r.series@.len() == self.series@.len() + 2,
            r.dataset@.take(self.dataset@.len() as int) == self.dataset@,
            r.series@.take(self.series@.len() as int) == self.series@,
            r.dataset@[self.dataset@.len() as int] == data,
            is_regression_transform(
                r.dataset@.last(),
                (self.dataset@.len() as usize),
                RegressionMethod::Polynomial,
                Some(order),
            ),
            is_regression_data_series(
                r.series@[self.series@.len() as int],
                series_label@,
                self.dataset@.len() as int,
            ),
            is_regression_line_series(
                r.series@.last(),
                series_label@,
                self.dataset@.len() as int + 1,
            ),
            r == (EChartOptions { dataset: r.dataset, series: r.series, ..self }),
    {
        self.add_regression_series(series_label, data, RegressionMethod::Polynomial, Some(order))
    }

    /// Appends an exponential regression view of the given data.
    pub fn add_exponential_regression_series(
        self,
        series_label: &str,
        data: DatasetComponent<X, Y>,
    ) -> (r: Self)
        ensures
            r.dataset@.len() == self.dataset@.len() + 2,
            r.series@.len() == self.series@.len() + 2,
            r.dataset@.take(self.dataset@.len() as int) == self.dataset@,
            r.series@.take(self.series@.len() as int) == self.series@,
            r.dataset@[self.dataset@.len() as int] == data,
            is_regression_transform(
                r.dataset@.last(),
                (self.dataset@.len() as usize),
                RegressionMethod::Exponential,
                None,
            ),
            is_regression_data_series(
                r.series@[self.series@.len() as int],
                series_label@,
                self.dataset@.len() as int,
            ),
            is_regression_line_series(
                r.series@.last(),
                series_label@,
                self.dataset@.len() as int + 1,
            ),
            r == (EChartOptions { dataset: r.dataset, series: r.series, ..self }),
    {
        self.add_regression_series(series_label, data, RegressionMethod::Exponential, None)
    }

    /// Appends a logarithmic regression view of the given data.
    pub fn add_logarithmic_regression_series(
        self,
        series_label: &str,
        data: DatasetComponent<X, Y>,
    ) -> (r: Self)
        ensures
            r.dataset@.len() == self.dataset@.len() + 2,
            r.series@.len() == self.series@.len() + 2,
            r.dataset@.take(self.dataset@.len() as int) == self.dataset@,
            r.series@.take(self.series@.len() as int) == self.series@,
            r.dataset@[self.dataset@.len() as int] == data,
            is_regression_transform(
                r.dataset@.last(),
                (self.dataset@.len() as usize),
                RegressionMethod::Logarithmic,
                None,
            ),
            is_regression_data_series(
                r.series@[self.series@.len() as int],
                series_label@,
                self.dataset@.len() as int,
            ),
            is_regression_line_series(
                r.series@.last(),
                series_label@,
                self.dataset@.len() as int + 1,
            ),
            r == (EChartOptions { dataset: r.dataset, series: r.series, ..self }),
    {
        self.add_regression_series(series_label, data, RegressionMethod::Logarithmic, None)
    }
}

/// Round trip of option presence: the document of a fresh configuration,
/// with no optional fields set, holds exactly the default-seeded tooltip
/// and the two axes, and no title, grid, legend, dataset or series keys.
pub proof fn lemma_fresh_wire_keys<X: AxisKindMarker, Y: AxisKindMarker>(c: EChartOptions<X, Y>)
    requires
        c.title is None,
        c.grid is None,
        c.tooltip is Some,
        c.legend is None,
        c.dataset@.len() == 0,
        c.series@.len() == 0,
        c.extra is None,
    ensures
        crate::json::obj_keys(crate::wire::options_wire(c)) == seq!["tooltip"@, "xAxis"@, "yAxis"@],
{
    assert(crate::json::obj_keys(crate::wire::options_wire(c)) =~= seq![
        "tooltip"@,
        "xAxis"@,
        "yAxis"@,
    ]);
}

/// Polynomial order discipline: the regression configuration written for
/// a method keeps the order only for the polynomial method, and the
/// `order` key stands in the serialized configuration exactly when an
/// order was kept.
pub proof fn lemma_regression_order_discipline(method: RegressionMethod, order: Option<u8>)
    ensures
        method == RegressionMethod::Polynomial ==> regression_config_for(method, order).order
            == order,
        method != RegressionMethod::Polynomial ==> regression_config_for(method, order).order
            is None,
        regression_config_for(method, order).order is Some ==> crate::json::obj_keys(
            crate::wire::regression_config_wire(regression_config_for(method, order)),
        ) == seq!["method"@, "order"@],
        regression_config_for(method, order).order is None ==> crate::json::obj_keys(
            crate::wire::regression_config_wire(regression_config_for(method, order)),
        ) == seq!["method"@],
{
    let c = regression_config_for(method, order);
    if c.order is Some {
        assert(crate::json::obj_keys(crate::wire::regression_config_wire(c)) =~= seq![
            "method"@,
            "order"@,
        ]);
    } else {
        assert(crate::json::obj_keys(crate::wire::regression_config_wire(c)) =~= seq!["method"@]);
    }
}

} // verus!
