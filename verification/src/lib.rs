//! Lookups that a chat bot performs against outside web services.
//!
//! * [`calendar`]: UTC timestamps and the long date text shown to users.
//! * [`text`]: substring substitution on character sequences.
//! * [`twitter`]: the user lookup, from request to display payload.
//! * [`tmdb`]: the shapes of movie and show records.

pub mod calendar;
pub mod text;
pub mod tmdb;
pub mod twitter;
