use apache_echarts_wrapper::axis_typing::{JsonNumber, ValueSerializeWrapper};
use apache_echarts_wrapper::common::{Percent, Pixels, Size};
use apache_echarts_wrapper::json::Json;
use apache_echarts_wrapper::options::{
    Axis, AxisType, ClusteringConfig, DatasetComponent, DatasetTransform, EChartOptions, Order,
    SortConfig, SeriesType,
};
use apache_echarts_wrapper::temporal::{
    DateTimeValue, DateValue, MonthValue, TimeOfDayValue, WeekdayValue,
};
use apache_echarts_wrapper::templates::OnePage;

#[test]
fn datetime_serializes_to_epoch_milliseconds() {
    let new_year = DateTimeValue::from_unix_nanos(1609459200000000000);
    assert_eq!(ValueSerializeWrapper(new_year).to_wire().render(), "1609459200000");
    // Truncation toward zero, never rounding, also below the epoch.
    let fine = DateTimeValue::from_unix_nanos(1609459200123999999);
    assert_eq!(ValueSerializeWrapper(fine).to_wire().render(), "1609459200123");
    let before_epoch = DateTimeValue::from_unix_nanos(-1999999);
    assert_eq!(ValueSerializeWrapper(before_epoch).to_wire().render(), "-1");
}

#[test]
fn date_serializes_to_midnight_utc_milliseconds() {
    let day = DateValue::from_epoch_days(18628);
    assert_eq!(ValueSerializeWrapper(day).to_wire().render(), "1609459200000");
    let epoch = DateValue::from_epoch_days(0);
    assert_eq!(ValueSerializeWrapper(epoch).to_wire().render(), "0");
}

#[test]
fn time_of_day_serializes_to_padded_text() {
    let half_past_noon = TimeOfDayValue::new(12, 30, 0).unwrap();
    assert_eq!(ValueSerializeWrapper(half_past_noon).to_wire().render(), "\"12:30:00\"");
    let early = TimeOfDayValue::new(1, 2, 3).unwrap();
    assert_eq!(ValueSerializeWrapper(early).to_wire().render(), "\"01:02:03\"");
    assert!(TimeOfDayValue::new(24, 0, 0).is_none());
    assert!(TimeOfDayValue::new(12, 60, 0).is_none());
}

#[test]
fn weekday_and_month_serialize_to_their_names() {
    assert_eq!(ValueSerializeWrapper(WeekdayValue::Monday).to_wire().render(), "\"Monday\"");
    assert_eq!(ValueSerializeWrapper(MonthValue::January).to_wire().render(), "\"January\"");
}

#[test]
fn sizes_format_with_their_suffixes() {
    assert_eq!(Size::pixels(600).to_string(), "600px");
    assert_eq!(Size::percent(format!("{}", 20.0f32)).to_string(), "20%");
    assert_eq!(Size::percent("12.5".to_string()).to_string(), "12.5%");
}

#[test]
fn axis_types_follow_the_classification() {
    assert_eq!(Axis::<i64>::default().axis_type, AxisType::Value);
    assert_eq!(Axis::<u8>::default().axis_type, AxisType::Value);
    assert_eq!(Axis::<JsonNumber>::default().axis_type, AxisType::Value);
    assert_eq!(Axis::<String>::default().axis_type, AxisType::Category);
    assert_eq!(Axis::<WeekdayValue>::default().axis_type, AxisType::Category);
    assert_eq!(Axis::<MonthValue>::default().axis_type, AxisType::Category);
    assert_eq!(Axis::<TimeOfDayValue>::default().axis_type, AxisType::Category);
    assert_eq!(Axis::<DateTimeValue>::default().axis_type, AxisType::Time);
    assert_eq!(Axis::<DateValue>::default().axis_type, AxisType::Time);
}

#[test]
fn renderer_escapes_strings() {
    let text = EChartOptions::<u32, u32>::default()
        .title_str("a\"b\\c\nd\u{1}e".to_string())
        .to_json_text();
    assert!(text.contains("\"text\":\"a\\\"b\\\\c\\nd\\u0001e\""));
}

#[test]
fn renderer_prints_signed_integers() {
    assert_eq!(Json::Int(0).render(), "0");
    assert_eq!(Json::Int(-5).render(), "-5");
    assert_eq!(Json::Int(1609459200000).render(), "1609459200000");
    assert_eq!(
        Json::Int(i128::MIN).render(),
        "-170141183460469231731687303715884105728"
    );
    assert_eq!(
        Json::UInt(u128::MAX).render(),
        "340282366920938463463374607431768211455"
    );
    assert_eq!(ValueSerializeWrapper(u128::MAX).to_wire().render(),
        "340282366920938463463374607431768211455");
    assert_eq!(ValueSerializeWrapper(-7i8).to_wire().render(), "-7");
}

#[test]
fn typed_fields_win_over_extension_fields() {
    let mut chart = EChartOptions::<u32, u32>::default();
    chart.extra = Some(vec![
        ("xAxis".to_string(), Json::Null),
        ("custom".to_string(), Json::Bool(true)),
    ]);
    let text = chart.to_json_text();
    assert!(text.contains("\"xAxis\":{\"type\":\"value\"}"));
    assert!(!text.contains("\"xAxis\":null"));
    assert!(text.ends_with("\"custom\":true}"));
}

#[test]
fn clustering_and_sort_transforms_serialize() {
    let mut chart = EChartOptions::<i64, i64>::default();
    chart.add_dataset(DatasetComponent::src(vec![(1, 2), (3, 4)]));
    chart.add_dataset(DatasetComponent::trs(
        vec![
            DatasetTransform::clustering(ClusteringConfig {
                cluster_count: 3,
                output_cluster_index_dimension: 2,
                dimensions: Some(vec![0, 1]),
            }),
            DatasetTransform::sort(SortConfig { dimension: 1, order: Order::Desc }),
        ],
        0,
    ));
    let text = chart.to_json_text();
    assert!(text.contains(
        "{\"type\":\"ecStat:clustering\",\"config\":{\"clusterCount\":3,\
         \"outputClusterIndexDimension\":2,\"dimensions\":[0,1]}}"
    ));
    assert!(text.contains(
        "{\"type\":\"sort\",\"config\":{\"dimension\":1,\"order\":\"desc\"}}"
    ));
    assert!(text.contains("\"fromDatasetIndex\":0"));
}

#[test]
fn category_axis_data_serializes_in_order() {
    let mut axis: Axis<String> = Axis::default();
    axis.data = Some(vec![
        ValueSerializeWrapper("a".to_string()),
        ValueSerializeWrapper("b".to_string()),
    ]);
    let chart = EChartOptions::<String, u32>::new(axis, Axis::default());
    let text = chart.to_json_text();
    assert!(text.contains("\"xAxis\":{\"type\":\"category\",\"data\":[\"a\",\"b\"]}"));
}

#[test]
fn one_page_wraps_title_and_body() {
    let page = OnePage::new("charts", "<p>body</p>");
    assert_eq!(
        page.render_once(),
        "<!DOCTYPE html>\n<html><head><title>charts</title></head><body><p>body</p>\
         </body></html>\n"
    );
}

#[test]
fn visualisation_of_plain_dataset_has_no_encoding_hint() {
    let mut chart = EChartOptions::<i64, i64>::default();
    chart.add_dataset(DatasetComponent::src(vec![(1, 2)]));
    let text = chart
        .add_dataset_visualisation("s".to_string(), SeriesType::Line, 0)
        .to_json_text();
    assert!(text.contains(
        "\"series\":[{\"type\":\"line\",\"name\":\"s\",\"smooth\":true,\"datasetIndex\":0}]"
    ));
    assert!(!text.contains("encode"));
}

#[test]
fn pixel_and_percent_texts_parse_back() {
    assert_eq!(Pixels::parse("600px").unwrap().0, 600);
    assert_eq!(Pixels::parse("600").unwrap().0, 600);
    assert_eq!(Pixels::parse("600pxpx").unwrap().0, 600);
    assert!(Pixels::parse("px").is_none());
    assert!(Pixels::parse("").is_none());
    assert!(Pixels::parse("6a0px").is_none());
    assert!(Pixels::parse("99999999999999999999999999999999999999px").is_none());
    assert_eq!(Percent::parse("20%").0, "20");
    assert_eq!(Percent::parse("12.5%%").0, "12.5");
    assert_eq!(Percent::parse("7").0, "7");
}

#[test]
fn clustering_requires_more_than_one_cluster() {
    assert!(ClusteringConfig::new(1, 0, None).is_none());
    assert!(ClusteringConfig::new(0, 0, None).is_none());
    let config = ClusteringConfig::new(2, 1, None).unwrap();
    assert_eq!(config.cluster_count, 2);
    assert_eq!(config.output_cluster_index_dimension, 1);
}

#[test]
fn number_literals_are_recognised() {
    for good in ["0", "-0", "7", "42", "2.9", "-13.25", "1e5", "1E5", "2.5e-3", "0.0", "1e+2"] {
        assert!(JsonNumber::new(good.to_string()).is_some(), "rejected {}", good);
    }
    for bad in ["", "-", "01", "1.", ".5", "1e", "1e+", "+1", "nan", "inf", "1.2.3", "2,5", "5 "] {
        assert!(JsonNumber::new(bad.to_string()).is_none(), "accepted {}", bad);
    }
    assert_eq!(JsonNumber::new(format!("{}", 2.9f64)).unwrap().text, "2.9");
}

#[test]
fn empty_inline_data_serializes_as_empty_array() {
    let text = EChartOptions::<i64, i64>::default()
        .add_series(
            SeriesType::Line,
            "empty".to_string(),
            apache_echarts_wrapper::options::SeriesDataSource::from_pairs(vec![]),
        )
        .to_json_text();
    assert!(text.contains("\"name\":\"empty\",\"data\":[]"));
}

#[test]
fn largest_pixel_size_renders_in_full() {
    assert_eq!(
        Size::pixels(usize::MAX).to_string(),
        format!("{}px", usize::MAX)
    );
}
