//! Decisions and output of a one-shot "now playing" query: the steps of the
//! query as a state machine, the inline thumbnail URL, and the printed line.

pub mod encoding;
pub mod report;
pub mod session;
