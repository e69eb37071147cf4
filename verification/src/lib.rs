//! Decision logic of a second-stage firmware loader: which kernel image is
//! fetched, in which order the firmware is asked for its services, and how
//! every firmware failure is turned into one message for the operator.

pub mod console;
pub mod device;
pub mod loader;
pub mod outcome;
pub mod path;
pub mod status;
pub mod trace;
