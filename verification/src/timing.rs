use vstd::prelude::*;

verus! {

/// A length of time of the timing utility that schedules periodic work.
#[verifier::external_type_specification]
#[verifier::external_body]
pub struct ExTimingTimelength(async_timing_util::Timelength);

/// The length of time of the timing utility that a name parses to.
pub uninterp spec fn timing_timelength(name: Seq<char>) -> Option<async_timing_util::Timelength>;

/// The names the timing utility's lengths of time are written with.
pub open spec fn is_timing_name(name: Seq<char>) -> bool {
    ||| name == "1-sec"@
    ||| name == "2-sec"@
    ||| name == "3-sec"@
    ||| name == "5-sec"@
    ||| name == "10-sec"@
    ||| name == "15-sec"@
    ||| name == "30-sec"@
    ||| name == "1-min"@
    ||| name == "2-min"@
    ||| name == "3-min"@
    ||| name == "5-min"@
    ||| name == "10-min"@
    ||| name == "15-min"@
    ||| name == "30-min"@
    ||| name == "1-hr"@
    ||| name == "2-hr"@
    ||| name == "3-hr"@
    ||| name == "6-hr"@
    ||| name == "8-hr"@
    ||| name == "12-hr"@
    ||| name == "1-day"@
    ||| name == "2-day"@
    ||| name == "3-day"@
    ||| name == "1-wk"@
    ||| name == "2-wk"@
    ||| name == "30-day"@
}

/// Parses a name with the `FromStr` of `async_timing_util::Timelength`. The
/// contract claims that the result is `timing_timelength(name)`, and that it
/// is `Some` exactly for the names the enum's variants are serialized as.
#[verifier::external_body]
pub(crate) fn parse_timing_timelength(name: &str) -> (r: Option<async_timing_util::Timelength>)
    ensures
        r == timing_timelength(name@),
        r is Some <==> is_timing_name(name@),
{
    <async_timing_util::Timelength as std::str::FromStr>::from_str(name).ok()
}

} // verus!
