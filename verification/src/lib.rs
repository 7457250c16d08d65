//! Logic of a dashboard that drives an arm of artificial muscles over a
//! serial port: the page's state machine, the reading of slider values, the
//! colour schemes, and the serial link with the frames it writes.
use vstd::prelude::*;

pub mod dashboard;
pub mod device;
pub mod numeric_input;
pub mod theme;
