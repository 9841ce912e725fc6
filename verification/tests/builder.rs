use apache_echarts_wrapper::axis_typing::JsonNumber;
use apache_echarts_wrapper::common::Size;
use apache_echarts_wrapper::options::{
    Axis, AxisType, DatasetComponent, EChartOptions, RegressionMethod, SeriesDataSource,
    SeriesType,
};

fn num(x: f64) -> JsonNumber {
    JsonNumber::from_text(format!("{}", x))
}

#[test]
fn default_document_holds_only_tooltip_and_axes() {
    let text = EChartOptions::<u32, u32>::default().to_json_text();
    assert_eq!(
        text,
        "{\"tooltip\":{\"show\":true,\"trigger\":\"item\",\"axisPointer\":{\"type\":\"cross\",\
         \"snap\":false}},\"xAxis\":{\"type\":\"value\"},\"yAxis\":{\"type\":\"value\"}}"
    );
}

#[test]
fn dataset_indices_are_positional() {
    let mut chart = EChartOptions::<i64, i64>::default();
    let first = chart.add_dataset(DatasetComponent::src(vec![(1, 2), (3, 4)]));
    let second = chart.add_dataset(DatasetComponent::src(vec![(5, 6)]));
    assert_eq!(first, 0);
    assert_eq!(second, 1);
}

#[test]
fn regression_series_expands_into_two_datasets_and_two_series() {
    let chart = EChartOptions::<JsonNumber, JsonNumber>::default()
        .title_str("T".to_string())
        .add_regression_series(
            "s",
            DatasetComponent::src(vec![
                (num(1.0), num(1.0)),
                (num(2.0), num(2.0)),
                (num(3.0), num(2.9)),
            ]),
            RegressionMethod::Linear,
            None,
        );
    let text = chart.to_json_text();
    assert_eq!(
        text,
        "{\"title\":{\"text\":\"T\",\"left\":\"center\"},\"tooltip\":{\"show\":true,\
         \"trigger\":\"item\",\"axisPointer\":{\"type\":\"cross\",\"snap\":false}},\
         \"dataset\":[{\"source\":[[1,1],[2,2],[3,2.9]]},{\"transform\":[{\"type\":\
         \"ecStat:regression\",\"config\":{\"method\":\"linear\"}}],\"fromDatasetIndex\":0}],\
         \"xAxis\":{\"type\":\"value\"},\"yAxis\":{\"type\":\"value\"},\"series\":[{\"type\":\
         \"scatter\",\"name\":\"s (data)\",\"datasetIndex\":0,\"symbol\":\"circle\",\
         \"symbolSize\":8},{\"type\":\"line\",\"name\":\"s (regression)\",\"smooth\":true,\
         \"datasetIndex\":1,\"symbol\":\"none\"}]}"
    );
}

#[test]
fn polynomial_order_is_serialized_only_for_polynomial() {
    let mut with_order = EChartOptions::<i64, i64>::default();
    with_order.add_dataset(DatasetComponent::src(vec![(1, 2)]));
    with_order.add_regression_dataset(0, RegressionMethod::Polynomial, Some(3));
    let text = with_order.to_json_text();
    assert!(text.contains("\"config\":{\"method\":\"polynomial\",\"order\":3}"));

    let mut without_order = EChartOptions::<i64, i64>::default();
    without_order.add_dataset(DatasetComponent::src(vec![(1, 2)]));
    without_order.add_regression_dataset(0, RegressionMethod::Linear, Some(3));
    let text = without_order.to_json_text();
    assert!(text.contains("\"config\":{\"method\":\"linear\"}"));
    assert!(!text.contains("order"));
}

#[test]
fn visualisation_of_missing_dataset_is_a_no_op() {
    let before = EChartOptions::<i64, i64>::default().to_json_text();
    let after = EChartOptions::<i64, i64>::default()
        .add_dataset_visualisation("x".to_string(), SeriesType::Line, 5)
        .to_json_text();
    assert_eq!(before, after);
    assert!(!after.contains("series"));
}

#[test]
fn visualisation_of_labelled_dataset_carries_encoding_hint() {
    let mut chart = EChartOptions::<i64, i64>::default();
    chart.add_dataset(DatasetComponent::labelled_source(vec![
        (1, 2, "a".to_string()),
        (3, 4, "b".to_string()),
    ]));
    let text = chart
        .add_dataset_visualisation("points".to_string(), SeriesType::Scatter, 0)
        .to_json_text();
    assert!(text.contains("\"source\":[[1,2,\"a\"],[3,4,\"b\"]]"));
    assert!(text.contains(
        "\"datasetIndex\":0,\"encode\":{\"tooltip\":2,\"x\":0,\"y\":1}"
    ));
}

#[test]
fn enable_legend_installs_legend_and_reserves_grid_margin() {
    let text = EChartOptions::<u32, u32>::default().enable_legend().to_json_text();
    assert!(text.contains(
        "\"legend\":{\"orient\":\"vertical\",\"right\":\"0%\",\"top\":\"20%\",\"bottom\":\"20%\"}"
    ));
    assert!(text.contains("\"grid\":{\"right\":\"20%\"}"));
}

#[test]
fn titles_and_axis_labels_compose() {
    let text = EChartOptions::<u32, String>::default()
        .title_str("Main".to_string())
        .subtitle_str("Sub".to_string())
        .x_axis_label("across".to_string())
        .y_axis_label("up".to_string())
        .to_json_text();
    assert!(text.contains("\"title\":{\"text\":\"Main\",\"subtext\":\"Sub\",\"left\":\"center\"}"));
    assert!(text.contains("\"xAxis\":{\"type\":\"value\",\"name\":\"across\"}"));
    assert!(text.contains("\"yAxis\":{\"type\":\"category\",\"name\":\"up\"}"));
}

#[test]
fn logarithmic_scale_applies_only_to_value_axes() {
    let log_axis = Axis::<i64>::new("n".to_string(), true, false);
    assert_eq!(log_axis.axis_type, AxisType::Log);
    let category_axis = Axis::<String>::new("c".to_string(), true, false);
    assert_eq!(category_axis.axis_type, AxisType::Category);
    let plain_axis = Axis::<i64>::new("n".to_string(), false, true);
    assert_eq!(plain_axis.axis_type, AxisType::Value);
}

#[test]
fn build_generates_a_fresh_target_id() {
    let one = EChartOptions::<u32, u32>::default()
        .build(Size::pixels(600), Size::pixels(400));
    assert_eq!(one.chart_target_id.len(), 36);
    let other = EChartOptions::<u32, u32>::default()
        .build(Size::pixels(600), Size::pixels(400));
    assert_ne!(one.chart_target_id, other.chart_target_id);
    let id = one.chart_target_id.clone();
    let body = one.render_once();
    assert!(body.starts_with(&format!("<div id=\"{}\" style=\"width:600px;height:400px;\">", id)));
    assert!(body.contains(");</script>"));
}

#[test]
fn inline_series_keep_their_shapes() {
    let text = EChartOptions::<i64, i64>::default()
        .add_series(
            SeriesType::Line,
            "plain".to_string(),
            SeriesDataSource::from_values(vec![7, 8, 9]),
        )
        .add_series(
            SeriesType::Scatter,
            "named".to_string(),
            SeriesDataSource::from_labeled_values(vec![(1, "a".to_string())]),
        )
        .add_series(
            SeriesType::Bar,
            "named pairs".to_string(),
            SeriesDataSource::from_tuples_with_label(vec![(1, 2, "p".to_string())]),
        )
        .add_series(
            SeriesType::Line,
            "referenced".to_string(),
            SeriesDataSource::from_dataset_index(0),
        )
        .to_json_text();
    assert!(text.contains("\"name\":\"plain\",\"data\":[7,8,9]"));
    assert!(text.contains("\"name\":\"named\",\"data\":[{\"value\":1,\"name\":\"a\"}]"));
    assert!(text.contains(
        "\"name\":\"named pairs\",\"data\":[{\"value\":[1,2],\"name\":\"p\"}]"
    ));
    assert!(text.contains("\"name\":\"referenced\",\"datasetIndex\":0"));
}
