use vstd::prelude::*;

use crate::entities::{law_time_span_name_duration, name_seconds, time_span_name, time_span_seconds, TimeSpan};
use crate::timing::{parse_timing_timelength, timing_timelength};

verus! {

/// The configured monitoring interval as the timing utility knows it: the
/// length of time of the same name, which every interval has.
pub fn monitoring_interval(interval: TimeSpan) -> (r: async_timing_util::Timelength)
    ensures
        timing_timelength(time_span_name(interval)) == Some(r),
        exists|name: Seq<char>|
            timing_timelength(name) == Some(r) && #[trigger] name_seconds(name) == time_span_seconds(
                interval,
            ),
{
    proof {
        law_time_span_name_duration(interval);
    }
    let name = interval.name();
    let parsed = parse_timing_timelength(name);
    parsed.unwrap()
}

} // verus!
