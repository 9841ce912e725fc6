use chrono::Month::{August, February, January, September};
use chrono::TimeZone;
use apache_echarts_wrapper::axis_typing::JsonNumber;
use apache_echarts_wrapper::common::Size;
use apache_echarts_wrapper::options::{EChartOptions, SeriesDataSource, SeriesType};
use apache_echarts_wrapper::temporal::{DateTimeValue, MonthValue};

fn month_value(m: chrono::Month) -> MonthValue {
    match m {
        chrono::Month::January => MonthValue::January,
        chrono::Month::February => MonthValue::February,
        chrono::Month::March => MonthValue::March,
        chrono::Month::April => MonthValue::April,
        chrono::Month::May => MonthValue::May,
        chrono::Month::June => MonthValue::June,
        chrono::Month::July => MonthValue::July,
        chrono::Month::August => MonthValue::August,
        chrono::Month::September => MonthValue::September,
        chrono::Month::October => MonthValue::October,
        chrono::Month::November => MonthValue::November,
        chrono::Month::December => MonthValue::December,
    }
}

fn instant(dt: chrono::DateTime<chrono::Utc>) -> DateTimeValue {
    DateTimeValue::from_unix_millis(dt.timestamp_millis())
}

fn num(x: f64) -> JsonNumber {
    JsonNumber::from_text(format!("{}", x))
}

#[test]
fn test_chrono() {
    let chart_month = EChartOptions::<MonthValue, JsonNumber>::default()
        .title_str("Week test".to_string())
        .add_series(
            SeriesType::Bar,
            "lbl".to_string(),
            SeriesDataSource::from_pairs(vec![
                (month_value(January), num(10.0)),
                (month_value(February), num(12.0)),
                (month_value(August), num(5.0)),
                (month_value(September), num(300.0)),
            ]),
        )
        .build(Size::pixels(800), Size::pixels(600));

    let chart_datetime = EChartOptions::<DateTimeValue, JsonNumber>::default()
        .title_str("datetime test".to_string())
        .add_series(
            SeriesType::Line,
            "f".to_string(),
            SeriesDataSource::from_pairs(vec![
                (instant(chrono::Utc.with_ymd_and_hms(2021, 1, 1, 0, 0, 0).unwrap()), num(10.0)),
                (instant(chrono::Utc.with_ymd_and_hms(2021, 1, 2, 0, 0, 0).unwrap()), num(12.0)),
                (instant(chrono::Utc.with_ymd_and_hms(2021, 1, 3, 0, 0, 0).unwrap()), num(5.0)),
                (instant(chrono::Utc.with_ymd_and_hms(2021, 1, 4, 0, 0, 0).unwrap()), num(8.0)),
            ]),
        )
        .add_series(
            SeriesType::Bar,
            "lbl".to_string(),
            SeriesDataSource::from_pairs(vec![
                (instant(chrono::Utc.with_ymd_and_hms(2021, 1, 1, 0, 0, 0).unwrap()), num(10.0)),
                (instant(chrono::Utc.with_ymd_and_hms(2021, 1, 2, 0, 0, 0).unwrap()), num(12.0)),
            ]),
        )
        .build(Size::pixels(800), Size::pixels(600));

    let mut body = chart_month.render_once();
    body.push_str(&chart_datetime.render_once());
    assert!(body.contains("\"January\""));
    assert!(body.contains("1609459200000"));
    assert!(body.contains("Week test"));
    assert!(body.contains("datetime test"));
}
