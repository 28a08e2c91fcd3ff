//! The five charted quantities: what each chart is called, how it is
//! drawn, which field of a reading it plots, and the text of its labels.

use vstd::prelude::*;
use crate::instant::{spec_tooltip_time, tooltip_time, TimeError};
use crate::record::Record;

verus! {

/// A charted quantity.
#[derive(Clone, Copy, Debug, PartialEq, Eq, Structural)]
pub enum Metric {
    Temperature,
    Pressure,
    Co2,
    Humidity,
    Battery,
}

/// The colour of a chart's line.
#[derive(Clone, Copy, Debug, PartialEq, Eq, Structural)]
pub enum LineColor {
    Green,
    Blue,
    White,
    Cyan,
    Yellow,
}

/// The plotted value of one reading.
#[derive(Clone, Copy, Debug, PartialEq, Eq, Structural)]
pub enum Reading {
    /// A 32-bit real, by its bit pattern.
    Real32(u32),
    /// A whole number.
    Count(u32),
}

/// The charts from top to bottom.
pub open spec fn display_order() -> Seq<Metric> {
    seq![Metric::Temperature, Metric::Pressure, Metric::Co2, Metric::Humidity, Metric::Battery]
}

impl Metric {
    /// The chart's title.
    pub open spec fn spec_title(self) -> Seq<char> {
        match self {
            Metric::Temperature => "Temperature (°C)"@,
            Metric::Pressure => "Pressure (hPa)"@,
            Metric::Co2 => "CO₂ (ppm)"@,
            Metric::Humidity => "Humidity (%)"@,
            Metric::Battery => "Battery (%)"@,
        }
    }

    /// The word that opens a tooltip.
    pub open spec fn spec_caption(self) -> Seq<char> {
        match self {
            Metric::Temperature => "temperature"@,
            Metric::Pressure => "pressure"@,
            Metric::Co2 => "CO₂"@,
            Metric::Humidity => "Humidity"@,
            Metric::Battery => "Battery"@,
        }
    }

    /// The unit as it follows a value, with the space that parts them.
    pub open spec fn spec_unit(self) -> Seq<char> {
        match self {
            Metric::Temperature => "°C"@,
            Metric::Pressure => " hPa"@,
            Metric::Co2 => " ppm"@,
            Metric::Humidity => " %"@,
            Metric::Battery => " %"@,
        }
    }

    /// The colour of the chart's line.
    pub open spec fn spec_line_color(self) -> LineColor {
        match self {
            Metric::Temperature => LineColor::Green,
            Metric::Pressure => LineColor::Blue,
            Metric::Co2 => LineColor::White,
            Metric::Humidity => LineColor::Cyan,
            Metric::Battery => LineColor::Yellow,
        }
    }

    /// Whether the chart draws the shared time axis: only the lowest does.
    pub open spec fn spec_shows_time_axis(self) -> bool {
        self == Metric::Battery
    }

    /// The value of `record` that the chart plots.
    pub open spec fn spec_reading(self, record: Record) -> Reading {
        match self {
            Metric::Temperature => Reading::Real32(record.celsius_bits),
            Metric::Pressure => Reading::Real32(record.pressure_bits),
            Metric::Co2 => Reading::Count(record.co2_level),
            Metric::Humidity => Reading::Count(record.humidity),
            Metric::Battery => Reading::Count(record.battery),
        }
    }

    /// The text on a tick of the value axis.
    pub open spec fn spec_tick_text(self, value: Seq<char>) -> Seq<char> {
        value + self.spec_unit()
    }

    /// The text of a tooltip: the value with its unit, and below it the time.
    pub open spec fn spec_tooltip_text(self, value: Seq<char>, time: Seq<char>) -> Seq<char> {
        self.spec_caption() + ": "@ + value + self.spec_unit() + "\nOn: "@ + time
    }

    /// The charts from top to bottom.
    pub fn all() -> (r: [Metric; 5])
        ensures
            r@ == display_order(),
    {
        [Metric::Temperature, Metric::Pressure, Metric::Co2, Metric::Humidity, Metric::Battery]
    }

    /// The chart's title.
    pub fn title(self) -> (r: &'static str)
        ensures
            r@ == self.spec_title(),
    {
        match self {
            Metric::Temperature => "Temperature (°C)",
            Metric::Pressure => "Pressure (hPa)",
            Metric::Co2 => "CO₂ (ppm)",
            Metric::Humidity => "Humidity (%)",
            Metric::Battery => "Battery (%)",
        }
    }

    /// The word that opens a tooltip.
    pub fn caption(self) -> (r: &'static str)
        ensures
            r@ == self.spec_caption(),
    {
        match self {
            Metric::Temperature => "temperature",
            Metric::Pressure => "pressure",
            Metric::Co2 => "CO₂",
            Metric::Humidity => "Humidity",
            Metric::Battery => "Battery",
        }
    }

    /// The unit as it follows a value.
    pub fn unit(self) -> (r: &'static str)
        ensures
            r@ == self.spec_unit(),
    {
        match self {
            Metric::Temperature => "°C",
            Metric::Pressure => " hPa",
            Metric::Co2 => " ppm",
            Metric::Humidity => " %",
            Metric::Battery => " %",
        }
    }

    /// The colour of the chart's line.
    pub fn line_color(self) -> (r: LineColor)
        ensures
            r == self.spec_line_color(),
    {
        match self {
            Metric::Temperature => LineColor::Green,
            Metric::Pressure => LineColor::Blue,
            Metric::Co2 => LineColor::White,
            Metric::Humidity => LineColor::Cyan,
            Metric::Battery => LineColor::Yellow,
        }
    }

    /// Whether the chart draws the shared time axis.
    pub fn shows_time_axis(self) -> (r: bool)
        ensures
            r == self.spec_shows_time_axis(),
    {
        match self {
            Metric::Battery => true,
            _ => false,
        }
    }

    /// The value of `record` that the chart plots.
    pub fn reading(self, record: &Record) -> (r: Reading)
        ensures
            r == self.spec_reading(*record),
    {
        match self {
            Metric::Temperature => Reading::Real32(record.celsius_bits),
            Metric::Pressure => Reading::Real32(record.pressure_bits),
            Metric::Co2 => Reading::Count(record.co2_level),
            Metric::Humidity => Reading::Count(record.humidity),
            Metric::Battery => Reading::Count(record.battery),
        }
    }

    /// The points of the chart's line: for each reading its timestamp in
    /// nanoseconds and its plotted value, in the order of `records`.
    pub fn series(self, records: &Vec<Record>) -> (r: Vec<(u64, Reading)>)
        ensures
            r@.len() == records@.len(),
            forall|i: int|
                0 <= i < records@.len() ==> #[trigger] r@[i] == (
                    records@[i].timestamp_nanos,
                    self.spec_reading(records@[i]),
                ),
    {
        let mut points: Vec<(u64, Reading)> = Vec::new();
        let mut i: usize = 0;
        while i < records.len()
            invariant
                i <= records@.len(),
                points@.len() == i,
                forall|j: int|
                    0 <= j < i ==> #[trigger] points@[j] == (
                        records@[j].timestamp_nanos,
                        self.spec_reading(records@[j]),
                    ),
            decreases records@.len() - i,
        {
            let record = &records[i];
            points.push((record.timestamp_nanos, self.reading(record)));
            i += 1;
        }
        points
    }

    /// Writes the text on a tick of the value axis from the value's digits.
    pub fn tick_text(self, value: &str) -> (r: String)
        ensures
            r@ == self.spec_tick_text(value@),
    {
        String::from_str(value).concat(self.unit())
    }

    /// Writes a tooltip from the value's digits and the time's text.
    pub fn tooltip_text(self, value: &str, time: &str) -> (r: String)
        ensures
            r@ == self.spec_tooltip_text(value@, time@),
    {
        let mut text = String::from_str(self.caption());
        text.append(": ");
        text.append(value);
        text.append(self.unit());
        text.append("\nOn: ");
        text.append(time);
        text
    }

    /// Writes the tooltip of a point: `value` holds the digits of its
    /// value, `nanos` is its instant. Fails where the instant has no text.
    pub fn tooltip(self, value: &str, nanos: i128) -> (r: Result<String, TimeError>)
        ensures
            match r {
                Ok(text) => spec_tooltip_time(nanos as int) is Ok && text@
                    == self.spec_tooltip_text(value@, spec_tooltip_time(nanos as int)->Ok_0),
                Err(e) => spec_tooltip_time(nanos as int) == Err::<Seq<char>, TimeError>(e),
            },
    {
        match tooltip_time(nanos) {
            Ok(time) => Ok(self.tooltip_text(value, time.as_str())),
            Err(e) => Err(e),
        }
    }
}

} // verus!
