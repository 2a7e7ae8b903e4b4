//! Local state of the length-limit negotiation: the range of limits this
//! peer will accept, and the limit it has requested, if any.

use vstd::prelude::*;

use crate::MAX_LEN_LIMIT;
use crate::MIN_LEN_LIMIT;

verus! {

/// The negotiation state of one peer.
#[derive(Debug, Clone, Copy, PartialEq, Eq, Structural)]
pub struct LenLimit {
    /// Lowest limit this peer accepts from the other side.
    pub acceptable_min: usize,
    /// Highest limit this peer accepts from the other side.
    pub acceptable_max: usize,
    /// The limit requested by this peer while a request is outstanding.
    pub requested: Option<usize>,
}

impl LenLimit {
    /// The acceptable range stays inside the negotiable range.
    pub open spec fn wf(self) -> bool {
        MIN_LEN_LIMIT <= self.acceptable_min && self.acceptable_max <= MAX_LEN_LIMIT
    }

    /// Everything in the negotiable range is acceptable at first, and no
    /// request is outstanding.
    pub fn new() -> (r: LenLimit)
        ensures
            r.wf(),
            r.acceptable_min == MIN_LEN_LIMIT,
            r.acceptable_max == MAX_LEN_LIMIT,
            r.requested is None,
    {
        LenLimit {
            acceptable_min: MIN_LEN_LIMIT,
            acceptable_max: MAX_LEN_LIMIT,
            requested: None,
        }
    }

    /// Narrows the acceptable range to the intersection of the given
    /// bounds with the negotiable range, and reports the outcome.
    pub fn adjust_acceptable_range(&mut self, lower: usize, upper: usize) -> (r: (usize, usize))
        ensures
            final(self).acceptable_min == if lower >= MIN_LEN_LIMIT {
                lower
            } else {
                MIN_LEN_LIMIT
            },
            final(self).acceptable_max == if upper <= MAX_LEN_LIMIT {
                upper
            } else {
                MAX_LEN_LIMIT
            },
            r == (final(self).acceptable_min, final(self).acceptable_max),
            final(self).requested == old(self).requested,
            final(self).wf(),
    {
        let lower_bound = if lower >= MIN_LEN_LIMIT {
            lower
        } else {
            MIN_LEN_LIMIT
        };
        let upper_bound = if upper <= MAX_LEN_LIMIT {
            upper
        } else {
            MAX_LEN_LIMIT
        };
        self.acceptable_min = lower_bound;
        self.acceptable_max = upper_bound;
        (lower_bound, upper_bound)
    }
}

impl Default for LenLimit {
    /// The initial negotiation state, as `new` builds it.
    fn default() -> (r: LenLimit)
        ensures
            r.wf(),
            r.acceptable_min == MIN_LEN_LIMIT,
            r.acceptable_max == MAX_LEN_LIMIT,
            r.requested is None,
    {
        LenLimit::new()
    }
}

/// Session configuration carried between calls: the limit this side wants
/// to request.
#[derive(Debug, Clone, Copy, PartialEq, Eq, Structural)]
pub struct Config {
    pub requested_len_limit: Option<usize>,
}

impl Config {
    /// A configuration that requests nothing.
    pub fn new() -> (r: Config)
        ensures
            r.requested_len_limit is None,
    {
        Config { requested_len_limit: None }
    }

    /// Records a limit to request.
    pub fn request_len_limit(self, len_limit: usize) -> (r: Config)
        ensures
            r.requested_len_limit == Some(len_limit),
    {
        Config { requested_len_limit: Some(len_limit) }
    }
}

impl Default for Config {
    /// A configuration that requests nothing, as `new` builds it.
    fn default() -> (r: Config)
        ensures
            r.requested_len_limit is None,
    {
        Config::new()
    }
}

} // verus!
