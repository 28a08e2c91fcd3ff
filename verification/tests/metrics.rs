use aranet_charts::{LineColor, Metric, Reading, Record, TimeError};

const SECOND: i128 = 1_000_000_000;

fn sample() -> Record {
    Record {
        timestamp_nanos: 1_741_091_640_000_000_000,
        celsius_bits: 21.5f32.to_bits(),
        pressure_bits: 1013.2f32.to_bits(),
        co2_level: 415,
        humidity: 40,
        battery: 97,
    }
}

#[test]
fn charts_are_listed_from_top_to_bottom() {
    assert_eq!(
        Metric::all(),
        [Metric::Temperature, Metric::Pressure, Metric::Co2, Metric::Humidity, Metric::Battery]
    );
}

#[test]
fn titles() {
    assert_eq!(Metric::Temperature.title(), "Temperature (°C)");
    assert_eq!(Metric::Pressure.title(), "Pressure (hPa)");
    assert_eq!(Metric::Co2.title(), "CO₂ (ppm)");
    assert_eq!(Metric::Humidity.title(), "Humidity (%)");
    assert_eq!(Metric::Battery.title(), "Battery (%)");
}

#[test]
fn captions_and_units() {
    let expected = [
        (Metric::Temperature, "temperature", "°C"),
        (Metric::Pressure, "pressure", " hPa"),
        (Metric::Co2, "CO₂", " ppm"),
        (Metric::Humidity, "Humidity", " %"),
        (Metric::Battery, "Battery", " %"),
    ];
    for (metric, caption, unit) in expected {
        assert_eq!(metric.caption(), caption);
        assert_eq!(metric.unit(), unit);
    }
}

#[test]
fn line_colors() {
    assert_eq!(Metric::Temperature.line_color(), LineColor::Green);
    assert_eq!(Metric::Pressure.line_color(), LineColor::Blue);
    assert_eq!(Metric::Co2.line_color(), LineColor::White);
    assert_eq!(Metric::Humidity.line_color(), LineColor::Cyan);
    assert_eq!(Metric::Battery.line_color(), LineColor::Yellow);
}

#[test]
fn only_the_lowest_chart_shows_the_time_axis() {
    for metric in Metric::all() {
        assert_eq!(metric.shows_time_axis(), metric == Metric::Battery);
    }
}

#[test]
fn each_chart_plots_its_own_field() {
    let record = sample();
    assert_eq!(Metric::Temperature.reading(&record), Reading::Real32(21.5f32.to_bits()));
    assert_eq!(Metric::Pressure.reading(&record), Reading::Real32(1013.2f32.to_bits()));
    assert_eq!(Metric::Co2.reading(&record), Reading::Count(415));
    assert_eq!(Metric::Humidity.reading(&record), Reading::Count(40));
    assert_eq!(Metric::Battery.reading(&record), Reading::Count(97));
}

#[test]
fn a_series_has_one_point_per_reading() {
    let mut later = sample();
    later.timestamp_nanos += 60_000_000_000;
    later.co2_level = 450;
    later.celsius_bits = 22.0f32.to_bits();
    let records = vec![sample(), later];
    assert_eq!(
        Metric::Co2.series(&records),
        vec![
            (1_741_091_640_000_000_000, Reading::Count(415)),
            (1_741_091_700_000_000_000, Reading::Count(450)),
        ]
    );
    assert_eq!(
        Metric::Temperature.series(&records),
        vec![
            (1_741_091_640_000_000_000, Reading::Real32(21.5f32.to_bits())),
            (1_741_091_700_000_000_000, Reading::Real32(22.0f32.to_bits())),
        ]
    );
    assert!(Metric::Battery.series(&Vec::new()).is_empty());
}

#[test]
fn tick_texts() {
    assert_eq!(Metric::Temperature.tick_text("22"), "22°C");
    assert_eq!(Metric::Pressure.tick_text("1013"), "1013 hPa");
    assert_eq!(Metric::Co2.tick_text("415"), "415 ppm");
    assert_eq!(Metric::Humidity.tick_text("40"), "40 %");
    assert_eq!(Metric::Battery.tick_text("97"), "97 %");
    assert_eq!(Metric::Battery.tick_text(""), " %");
}

#[test]
fn tooltip_texts() {
    let time = "Tue, 4 Mar 2025 12:34:00";
    assert_eq!(
        Metric::Temperature.tooltip_text("21.5", time),
        "temperature: 21.5°C\nOn: Tue, 4 Mar 2025 12:34:00"
    );
    assert_eq!(
        Metric::Pressure.tooltip_text("1013.2", time),
        "pressure: 1013.2 hPa\nOn: Tue, 4 Mar 2025 12:34:00"
    );
    assert_eq!(
        Metric::Co2.tooltip_text("415.0", time),
        "CO₂: 415.0 ppm\nOn: Tue, 4 Mar 2025 12:34:00"
    );
    assert_eq!(
        Metric::Humidity.tooltip_text("40.0", time),
        "Humidity: 40.0 %\nOn: Tue, 4 Mar 2025 12:34:00"
    );
    assert_eq!(
        Metric::Battery.tooltip_text("97.0", time),
        "Battery: 97.0 %\nOn: Tue, 4 Mar 2025 12:34:00"
    );
    assert_eq!(Metric::Battery.tooltip_text("", ""), "Battery:  %\nOn: ");
}

#[test]
fn a_tooltip_carries_the_time_rounded_to_the_minute() {
    let instant = 1_741_091_640 * SECOND + 31 * SECOND;
    assert_eq!(
        Metric::Temperature.tooltip("21.5", instant),
        Ok("temperature: 21.5°C\nOn: Tue, 4 Mar 2025 12:35:00".to_string())
    );
    assert_eq!(
        Metric::Co2.tooltip("415.0", instant - 2 * SECOND),
        Ok("CO₂: 415.0 ppm\nOn: Tue, 4 Mar 2025 12:34:00".to_string())
    );
}

#[test]
fn a_tooltip_needs_a_representable_instant() {
    assert_eq!(Metric::Humidity.tooltip("40.0", i128::MAX), Err(TimeError::OutOfRange));
    assert_eq!(
        Metric::Humidity.tooltip("40.0", -377_705_023_201 * SECOND - 1),
        Err(TimeError::OutOfRange)
    );
}
