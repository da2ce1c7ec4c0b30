//! Turns a stream of raw keyboard hardware events into calendar-event
//! requests: fixed-size binary input records are decoded into symbolic
//! keypresses, keypresses between double-slash markers are aggregated into a
//! command string, and the command string is parsed with a small date/time
//! grammar into a start time, optional end time, description and optional
//! location.

pub mod capture;
pub mod chars;
pub mod clock;
pub mod dates;
pub mod input;
pub mod keys;
pub mod notification;
pub mod parser;
pub mod secret;
pub mod token;
