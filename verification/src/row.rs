//! Stored rows as the time-series store hands them out: a timestamp and a
//! sequence of typed columns.

use vstd::prelude::*;

verus! {

/// One column of a stored row. Reals are held by their IEEE 754 bit
/// patterns, so that a row is made of integers and text alone.
#[derive(Clone, Debug)]
pub enum Column {
    /// A 32-bit real, by its bit pattern.
    Real32(u32),
    /// A 64-bit real, by its bit pattern.
    Real64(u64),
    /// A 32-bit signed integer.
    Signed32(i32),
    /// A 64-bit signed integer.
    Signed64(i64),
    /// A 32-bit unsigned integer.
    Unsigned32(u32),
    /// A 64-bit unsigned integer.
    Unsigned64(u64),
    /// A string.
    Text(String),
}

/// One stored row.
#[derive(Clone, Debug)]
pub struct Row {
    /// Nanoseconds since the Unix epoch.
    pub timestamp_nanos: u64,
    /// The columns, in stored order.
    pub columns: Vec<Column>,
}

/// Why a column could not be read.
#[derive(Clone, Copy, Debug, PartialEq, Eq, Structural)]
pub enum RowError {
    /// The row has no column at `index`.
    MissingColumn { index: usize },
    /// The column at `index` holds another type than the one asked for.
    WrongType { index: usize },
}

impl Row {
    /// The bit pattern of the 32-bit real at `index`. Only a `Real32`
    /// column is read as one.
    pub open spec fn spec_real32(self, index: usize) -> Result<u32, RowError> {
        if index >= self.columns@.len() {
            Err(RowError::MissingColumn { index })
        } else {
            match self.columns@[index as int] {
                Column::Real32(bits) => Ok(bits),
                _ => Err(RowError::WrongType { index }),
            }
        }
    }

    /// The 32-bit unsigned integer at `index`. Only an `Unsigned32` column
    /// is read as one.
    pub open spec fn spec_unsigned32(self, index: usize) -> Result<u32, RowError> {
        if index >= self.columns@.len() {
            Err(RowError::MissingColumn { index })
        } else {
            match self.columns@[index as int] {
                Column::Unsigned32(value) => Ok(value),
                _ => Err(RowError::WrongType { index }),
            }
        }
    }

    /// Reads the column at `index` as a 32-bit real.
    pub fn real32(&self, index: usize) -> (r: Result<u32, RowError>)
        ensures
            r == self.spec_real32(index),
    {
        if index >= self.columns.len() {
            return Err(RowError::MissingColumn { index });
        }
        match &self.columns[index] {
            Column::Real32(bits) => Ok(*bits),
            _ => Err(RowError::WrongType { index }),
        }
    }

    /// Reads the column at `index` as a 32-bit unsigned integer.
    pub fn unsigned32(&self, index: usize) -> (r: Result<u32, RowError>)
        ensures
            r == self.spec_unsigned32(index),
    {
        if index >= self.columns.len() {
            return Err(RowError::MissingColumn { index });
        }
        match &self.columns[index] {
            Column::Unsigned32(value) => Ok(*value),
            _ => Err(RowError::WrongType { index }),
        }
    }
}

} // verus!
