//! One entry of a `Server-Timing` header.

use crate::text::{decimal_digits, decimal_text};
use std::time::Duration;
use vstd::prelude::*;

verus! {

/// A named span of time, as a `Server-Timing` header reports it.
#[derive(Debug, Clone)]
pub struct Timing {
    pub name: String,
    /// The duration in milliseconds, as text.
    pub duration: String,
    pub description: Option<String>,
}

/// The whole milliseconds that a duration holds, as `Duration::as_millis`
/// counts them.
pub uninterp spec fn whole_millis(duration: Duration) -> u128;

/// `Duration::as_millis` is a function of the duration alone; its result is
/// named `whole_millis`.
pub assume_specification[ Duration::as_millis ](duration: &Duration) -> (millis: u128)
    ensures
        millis == whole_millis(*duration),
;

/// An entry of the header: the name, the description in quotes where there
/// is one, and the duration.
pub open spec fn entry_text(
    name: Seq<char>,
    duration: Seq<char>,
    description: Option<Seq<char>>,
) -> Seq<char> {
    match description {
        Some(desc) => name + ";desc=\""@ + desc + "\";dur="@ + duration,
        None => name + ";dur="@ + duration,
    }
}

impl Timing {
    /// The entry as the header shows it.
    pub open spec fn rendered(self) -> Seq<char> {
        entry_text(
            self.name@,
            self.duration@,
            match self.description {
                Some(desc) => Some(desc@),
                None => None,
            },
        )
    }

    /// A timing of `duration`, reported in whole milliseconds.
    pub fn new(name: &str, duration: Duration, description: Option<String>) -> (timing: Timing)
        ensures
            timing.name@ == name@,
            timing.duration@ == decimal_digits(whole_millis(duration) as nat),
            timing.description == description,
    {
        let dur = decimal_text(duration.as_millis());
        Timing { name: name.to_owned(), duration: dur, description }
    }

    /// The entry as the header shows it.
    pub fn to_string(&self) -> (text: String)
        ensures
            text@ == self.rendered(),
    {
        let mut text = self.name.clone();
        match &self.description {
            Some(desc) => {
                text.append(";desc=\"");
                text.append(desc.as_str());
                text.append("\";dur=");
            },
            None => {
                text.append(";dur=");
            },
        }
        text.append(self.duration.as_str());
        text
    }
}

} // verus!
