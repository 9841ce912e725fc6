use apache_echarts_wrapper::axis_typing::JsonNumber;
use apache_echarts_wrapper::common::Size;
use apache_echarts_wrapper::options::{EChartOptions, SeriesDataSource, SeriesType};
use apache_echarts_wrapper::temporal::{DateTimeValue, TimeOfDayValue, WeekdayValue};
use time::Weekday::{Friday, Monday, Thursday, Tuesday};

fn weekday_value(d: time::Weekday) -> WeekdayValue {
    match d {
        time::Weekday::Monday => WeekdayValue::Monday,
        time::Weekday::Tuesday => WeekdayValue::Tuesday,
        time::Weekday::Wednesday => WeekdayValue::Wednesday,
        time::Weekday::Thursday => WeekdayValue::Thursday,
        time::Weekday::Friday => WeekdayValue::Friday,
        time::Weekday::Saturday => WeekdayValue::Saturday,
        time::Weekday::Sunday => WeekdayValue::Sunday,
    }
}

fn utc_noon(year: i32) -> DateTimeValue {
    let date = time::Date::from_calendar_date(year, time::Month::January, 1).unwrap();
    let odt = date.with_hms(12, 0, 0).unwrap().assume_utc();
    DateTimeValue::from_unix_nanos(odt.unix_timestamp_nanos())
}

fn tod(hour: u8, minute: u8) -> TimeOfDayValue {
    TimeOfDayValue::new(hour, minute, 0).unwrap()
}

fn num(x: f64) -> JsonNumber {
    JsonNumber::from_text(format!("{}", x))
}

fn time_chart_conf() -> EChartOptions<JsonNumber, TimeOfDayValue> {
    EChartOptions::<JsonNumber, TimeOfDayValue>::default()
        .title_str("Time test".to_string())
        .add_series(
            SeriesType::Line,
            "fist_set".to_string(),
            SeriesDataSource::from_pairs(vec![
                (num(12.5), tod(12, 0)),
                (num(14.0), tod(12, 30)),
                (num(15.0), tod(14, 0)),
                (num(10.0), tod(17, 0)),
            ]),
        )
        .add_series(
            SeriesType::Line,
            "second_set".to_string(),
            SeriesDataSource::from_pairs(vec![
                (num(2.0), tod(12, 0)),
                (num(14.0), tod(10, 0)),
                (num(15.0), tod(11, 0)),
                (num(20.0), tod(0, 0)),
            ]),
        )
}

#[test]
fn time_test() {
    let chart_week = EChartOptions::<JsonNumber, WeekdayValue>::default()
        .title_str("Week test".to_string())
        .add_series(
            SeriesType::Line,
            "first_set".to_string(),
            SeriesDataSource::from_pairs(vec![
                (num(12.5), weekday_value(Monday)),
                (num(14.0), weekday_value(Tuesday)),
                (num(15.0), weekday_value(Thursday)),
                (num(10.0), weekday_value(Friday)),
            ]),
        )
        .add_series(
            SeriesType::Line,
            "second_set".to_string(),
            SeriesDataSource::from_pairs(vec![
                (num(2.0), weekday_value(Monday)),
                (num(14.0), weekday_value(Thursday)),
                (num(15.0), weekday_value(Thursday)),
                (num(20.0), weekday_value(Monday)),
            ]),
        )
        .build(Size::pixels(600), Size::pixels(400));

    let now = time::UtcDateTime::now();
    let chart_date_time = EChartOptions::<JsonNumber, DateTimeValue>::default()
        .title_str("utc date time test".to_string())
        .add_series(
            SeriesType::Line,
            "fist_set".to_string(),
            SeriesDataSource::from_pairs(vec![
                (num(12.5), DateTimeValue::from_unix_nanos(now.unix_timestamp_nanos())),
                (num(14.0), utc_noon(2025)),
                (num(15.0), utc_noon(2024)),
                (num(10.0), utc_noon(2023)),
            ]),
        )
        .add_series(
            SeriesType::Line,
            "second_set".to_string(),
            SeriesDataSource::from_pairs(vec![
                (num(2.0), utc_noon(2025)),
                (num(14.0), utc_noon(2024)),
                (num(15.0), utc_noon(2023)),
                (num(20.0), utc_noon(2022)),
            ]),
        )
        .build(Size::pixels(600), Size::pixels(400));

    let ser = time_chart_conf().to_json_text();
    println!("{}", ser);
    assert!(ser.contains("\"12:30:00\""));
    let chart_time = time_chart_conf().build(Size::pixels(600), Size::pixels(400));
    let mut body = chart_week.render_once();
    body.push_str(&chart_date_time.render_once());
    body.push_str(&chart_time.render_once());
    assert!(body.contains("\"Monday\""));
    assert!(body.contains("Time test"));
}
