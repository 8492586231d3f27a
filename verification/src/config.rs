//! Caller-supplied configuration, the local pre-send checks, and the prepared
//! call handed back to the transport.

use vstd::prelude::*;

verus! {

/// The configuration a caller supplies in place of process-wide environment
/// state: the required API key and the optional organization identifier.
#[derive(Debug)]
pub struct Credentials {
    pub api_key: Option<String>,
    pub org: Option<String>,
}

/// A request that passed every local check, together with what the transport
/// needs in order to send it: the bearer key, the optional organization
/// header value, and the body to serialize.
#[derive(Debug)]
pub struct PreparedCall<R> {
    pub api_key: String,
    pub org: Option<String>,
    pub body: R,
}

/// The verdict of the local checks made before any network call.
pub enum RequestCheck {
    MissingApiKey,
    TooManyStops,
    TemperatureConflict,
    StreamFlagSet,
    Accepted,
}

/// The local checks shared by both request families, in the order they are
/// made: the API key must be configured; at most 4 stop sequences may be
/// given; temperature and nucleus sampling are mutually exclusive; and a
/// non-streaming submit refuses a raised stream flag (`check_stream_flag`
/// holds for submit and not for the streaming operation).
pub open spec fn request_check(
    key_present: bool,
    n_stops: int,
    temperature_set: bool,
    top_p_set: bool,
    stream_raised: bool,
    check_stream_flag: bool,
) -> RequestCheck {
    if !key_present {
        RequestCheck::MissingApiKey
    } else if n_stops > 4 {
        RequestCheck::TooManyStops
    } else if temperature_set && top_p_set {
        RequestCheck::TemperatureConflict
    } else if check_stream_flag && stream_raised {
        RequestCheck::StreamFlagSet
    } else {
        RequestCheck::Accepted
    }
}

/// The number of configured stop sequences.
pub open spec fn stops_count(stop: Option<Vec<String>>) -> int {
    match stop {
        None => 0,
        Some(v) => v@.len() as int,
    }
}

pub(crate) fn clone_strings(items: &Vec<String>) -> (r: Vec<String>)
    ensures
        r@ == items@,
{
    let mut out: Vec<String> = Vec::new();
    let mut i: usize = 0;
    while i < items.len()
        invariant
            0 <= i <= items@.len(),
            out@.len() == i,
            forall|t: int| 0 <= t < i ==> out@[t] == items@[t],
        decreases items@.len() - i,
    {
        out.push(items[i].clone());
        i += 1;
    }
    proof {
        assert(out@ =~= items@);
    }
    out
}

pub(crate) fn clone_bias(items: &Vec<(String, i8)>) -> (r: Vec<(String, i8)>)
    ensures
        r@ == items@,
{
    let mut out: Vec<(String, i8)> = Vec::new();
    let mut i: usize = 0;
    while i < items.len()
        invariant
            0 <= i <= items@.len(),
            out@.len() == i,
            forall|t: int| 0 <= t < i ==> out@[t] == items@[t],
        decreases items@.len() - i,
    {
        out.push((items[i].0.clone(), items[i].1));
        i += 1;
    }
    proof {
        assert(out@ =~= items@);
    }
    out
}

} // verus!
