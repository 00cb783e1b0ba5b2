//! The `Server-Timing` header: the stages of a request and how long each took.

use crate::server_timing::timing::Timing;
use vstd::prelude::*;

pub mod timing;

verus! {

/// The timings of one request, in the order in which the header lists them.
#[derive(Debug)]
pub struct ServerTiming {
    timings: Vec<Timing>,
}

/// The entries of a header, one after the other with a comma and a space
/// between them.
pub open spec fn listed(timings: Seq<Timing>) -> Seq<char>
    decreases timings.len(),
{
    if timings.len() == 0 {
        Seq::empty()
    } else if timings.len() == 1 {
        timings[0].rendered()
    } else {
        listed(timings.drop_last()) + ", "@ + timings.last().rendered()
    }
}

impl View for ServerTiming {
    type V = Seq<Timing>;

    closed spec fn view(&self) -> Seq<Timing> {
        self.timings@
    }
}

impl ServerTiming {
    pub fn new(timings: Vec<Timing>) -> (server_timing: ServerTiming)
        ensures
            server_timing@ == timings@,
    {
        ServerTiming { timings }
    }

    /// The number of timings.
    pub fn len(&self) -> (count: usize)
        ensures
            count == self@.len(),
    {
        self.timings.len()
    }

    /// The value of the header. A header without a timing cannot be
    /// written.
    pub fn to_string(&self) -> (text: String)
        requires
            self@.len() > 0,
        ensures
            text@ == listed(self@),
    {
        let mut text = self.timings[0].to_string();
        let mut i: usize = 1;
        assert(self.timings@.take(1) =~= seq![self.timings@[0]]);
        while i < self.timings.len()
            invariant
                1 <= i <= self.timings.len(),
                text@ == listed(self.timings@.take(i as int)),
            decreases self.timings.len() - i,
        {
            let entry = self.timings[i].to_string();
            text.append(", ");
            text.append(entry.as_str());
            proof {
                let more = self.timings@.take(i + 1);
                assert(more.drop_last() =~= self.timings@.take(i as int));
                assert(more.last() == self.timings@[i as int]);
            }
            i += 1;
        }
        assert(self.timings@.take(self.timings.len() as int) =~= self.timings@);
        text
    }
}

} // verus!
