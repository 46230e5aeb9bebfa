//! Looking up a Twitter user: the records that come back, the requests that
//! fetch them, the payload shown for them, and the order of the steps.

pub mod model;
pub mod request;
pub mod payload;
pub mod flow;
