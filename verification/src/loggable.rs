//! The logging interface: a loggable value renders one data row and the
//! matching header row.

use vstd::prelude::*;

verus! {

/// A value that can be written as one row of a log.
pub trait Loggable {
    /// One comma-separated data row.
    fn output_log(&self) -> String;

    /// The comma-separated names of the components, in the data row's
    /// order.
    fn header(&self) -> String;
}

} // verus!
