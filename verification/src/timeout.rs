//! How long a request waits for its response.
use vstd::prelude::*;

verus! {

/// The text that `{:?}` makes of a `std::time::Duration` of `secs` seconds and `nanos` nanoseconds.
pub uninterp spec fn duration_text(secs: u64, nanos: u32) -> Seq<char>;

/// `Debug` of `std::time::Duration`: the text depends on the duration alone. `Duration::new` panics
/// only where the nanoseconds make further seconds that do not fit.
#[verifier::external_body]
fn format_duration(secs: u64, nanos: u32) -> (text: String)
    requires
        nanos < 1_000_000_000,
    ensures
        text@ == duration_text(secs, nanos),
{
    format!("{:?}", std::time::Duration::new(secs, nanos))
}

/// A time that a request may wait for its response.
#[derive(Clone, Copy, Debug, PartialEq, Eq)]
pub struct Timeout {
    secs: u64,
    nanos: u32,
}

impl Timeout {
    #[verifier::type_invariant]
    spec fn valid(self) -> bool {
        self.nanos < 1_000_000_000
    }

    /// The whole seconds.
    pub closed spec fn secs(self) -> u64 {
        self.secs
    }

    /// The nanoseconds beyond the whole seconds.
    pub closed spec fn nanos(self) -> u32 {
        self.nanos
    }

    pub fn new(secs: u64, nanos: u32) -> (timeout: Timeout)
        requires
            nanos < 1_000_000_000,
        ensures
            timeout.secs() == secs,
            timeout.nanos() == nanos,
    {
        Timeout { secs, nanos }
    }

    /// The time in words.
    pub open spec fn text(self) -> Seq<char> {
        duration_text(self.secs(), self.nanos())
    }

    /// The time in words.
    pub fn describe(&self) -> (text: String)
        ensures
            text@ == self.text(),
    {
        proof {
            use_type_invariant(self);
        }
        format_duration(self.secs, self.nanos)
    }
}

} // verus!
