//! Sensor readings and the history of them that the charts show.

use vstd::prelude::*;
use crate::row::{Row, RowError};

verus! {

/// One timestamped sensor reading.
#[derive(Clone, Copy, Debug, PartialEq, Eq, Structural)]
pub struct Record {
    /// Nanoseconds since the Unix epoch.
    pub timestamp_nanos: u64,
    /// Temperature in degrees Celsius: the bit pattern of a 32-bit real.
    pub celsius_bits: u32,
    /// Pressure in hectopascal: the bit pattern of a 32-bit real.
    pub pressure_bits: u32,
    /// CO₂ concentration in parts per million.
    pub co2_level: u32,
    /// Relative humidity in percent.
    pub humidity: u32,
    /// Battery charge in percent.
    pub battery: u32,
}

/// The reading that `row` stores: two reals, then three unsigned integers.
/// Where several columns are at fault, the first of them is reported.
pub open spec fn decode(row: Row) -> Result<Record, RowError> {
    if row.spec_real32(0) is Err {
        Err(row.spec_real32(0)->Err_0)
    } else if row.spec_real32(1) is Err {
        Err(row.spec_real32(1)->Err_0)
    } else if row.spec_unsigned32(2) is Err {
        Err(row.spec_unsigned32(2)->Err_0)
    } else if row.spec_unsigned32(3) is Err {
        Err(row.spec_unsigned32(3)->Err_0)
    } else if row.spec_unsigned32(4) is Err {
        Err(row.spec_unsigned32(4)->Err_0)
    } else {
        Ok(
            (Record {
                timestamp_nanos: row.timestamp_nanos,
                celsius_bits: row.spec_real32(0)->Ok_0,
                pressure_bits: row.spec_real32(1)->Ok_0,
                co2_level: row.spec_unsigned32(2)->Ok_0,
                humidity: row.spec_unsigned32(3)->Ok_0,
                battery: row.spec_unsigned32(4)->Ok_0,
            }),
        )
    }
}

/// Whether `row` has the shape of a reading: at least five columns, the
/// first two of them 32-bit reals and the next three 32-bit unsigned
/// integers.
pub open spec fn has_reading_shape(row: Row) -> bool {
    &&& row.columns@.len() >= 5
    &&& row.columns@[0] is Real32
    &&& row.columns@[1] is Real32
    &&& row.columns@[2] is Unsigned32
    &&& row.columns@[3] is Unsigned32
    &&& row.columns@[4] is Unsigned32
}

/// A row decodes exactly if it has the shape of a reading, and the
/// reading then holds the row's timestamp and its first five columns.
pub proof fn lemma_decode_reads_the_shape(row: Row)
    ensures
        decode(row) is Ok <==> has_reading_shape(row),
        has_reading_shape(row) ==> decode(row) == Ok::<Record, RowError>(
            (Record {
                timestamp_nanos: row.timestamp_nanos,
                celsius_bits: row.columns@[0]->Real32_0,
                pressure_bits: row.columns@[1]->Real32_0,
                co2_level: row.columns@[2]->Unsigned32_0,
                humidity: row.columns@[3]->Unsigned32_0,
                battery: row.columns@[4]->Unsigned32_0,
            }),
        ),
{
}

/// Whether `rows` decode without fault up to, not including, `end`.
pub open spec fn decodable_before(rows: Seq<Row>, end: int) -> bool {
    forall|i: int| 0 <= i < end ==> (#[trigger] decode(rows[i])) is Ok
}

impl Record {
    /// Decodes a stored row.
    pub fn try_from(row: &Row) -> (r: Result<Record, RowError>)
        ensures
            r == decode(*row),
    {
        let celsius_bits = match row.real32(0) {
            Ok(bits) => bits,
            Err(e) => { return Err(e); },
        };
        let pressure_bits = match row.real32(1) {
            Ok(bits) => bits,
            Err(e) => { return Err(e); },
        };
        let co2_level = match row.unsigned32(2) {
            Ok(value) => value,
            Err(e) => { return Err(e); },
        };
        let humidity = match row.unsigned32(3) {
            Ok(value) => value,
            Err(e) => { return Err(e); },
        };
        let battery = match row.unsigned32(4) {
            Ok(value) => value,
            Err(e) => { return Err(e); },
        };
        Ok(
            Record {
                timestamp_nanos: row.timestamp_nanos,
                celsius_bits,
                pressure_bits,
                co2_level,
                humidity,
                battery,
            },
        )
    }
}

/// Decodes every row, in order, or reports the fault of the first row
/// that has one.
pub fn decode_rows(rows: &Vec<Row>) -> (r: Result<Vec<Record>, RowError>)
    ensures
        r is Ok <==> decodable_before(rows@, rows@.len() as int),
        r is Ok ==> r->Ok_0@.len() == rows@.len() && forall|i: int|
            0 <= i < rows@.len() ==> decode(rows@[i]) == Ok::<Record, RowError>(
                #[trigger] r->Ok_0@[i],
            ),
        r is Err ==> exists|i: int|
            0 <= i < rows@.len() && decodable_before(rows@, i) && #[trigger] decode(rows@[i])
                == Err::<Record, RowError>(r->Err_0),
{
    let mut records: Vec<Record> = Vec::new();
    let mut i: usize = 0;
    while i < rows.len()
        invariant
            i <= rows@.len(),
            records@.len() == i,
            decodable_before(rows@, i as int),
            forall|j: int|
                0 <= j < i ==> decode(rows@[j]) == Ok::<Record, RowError>(#[trigger] records@[j]),
        decreases rows@.len() - i,
    {
        match Record::try_from(&rows[i]) {
            Ok(record) => {
                records.push(record);
            },
            Err(e) => {
                return Err(e);
            },
        }
        i += 1;
    }
    Ok(records)
}

/// The readings on display.
#[derive(Clone, Debug)]
pub struct History {
    records: Vec<Record>,
}

impl View for History {
    type V = Seq<Record>;

    /// The readings, in the order in which the store delivered them.
    closed spec fn view(&self) -> Seq<Record> {
        self.records@
    }
}

impl Default for History {
    /// An empty history.
    fn default() -> (r: History)
        ensures
            r@ == Seq::<Record>::empty(),
    {
        History::new()
    }
}

impl History {
    /// An empty history.
    pub fn new() -> (r: History)
        ensures
            r@ == Seq::<Record>::empty(),
    {
        History { records: Vec::new() }
    }

    /// Replaces the readings by those that `rows` decode to. Where a row
    /// is at fault the history stays as it was.
    pub fn refresh(&mut self, rows: &Vec<Row>) -> (r: Result<(), RowError>)
        ensures
            r is Ok <==> decodable_before(rows@, rows@.len() as int),
            r is Ok ==> final(self)@.len() == rows@.len() && forall|i: int|
                0 <= i < rows@.len() ==> decode(rows@[i]) == Ok::<Record, RowError>(
                    #[trigger] final(self)@[i],
                ),
            r is Err ==> final(self)@ == old(self)@ && exists|i: int|
                0 <= i < rows@.len() && decodable_before(rows@, i) && #[trigger] decode(rows@[i])
                    == Err::<Record, RowError>(r->Err_0),
    {
        match decode_rows(rows) {
            Ok(records) => {
                self.records = records;
                Ok(())
            },
            Err(e) => Err(e),
        }
    }

    /// The readings on display.
    pub fn records(&self) -> (r: &Vec<Record>)
        ensures
            r@ == self@,
    {
        &self.records
    }
}

} // verus!
