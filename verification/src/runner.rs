use crate::model::{IperfResult, IperfResultModel, ProbeError, ProbeRequest};
use crate::parse::{parse_payload, payload_model};
use crate::translate::exposition_text;
use vstd::prelude::*;
use vstd::utf8::{decode_utf8, valid_utf8};

verus! {

/// Raw outcome of one attempt to launch the external measurement tool and
/// capture its standard output in full. The surrounding service produces
/// this; classifying it into a result model or a failure happens here, so
/// the classification is checked for every value the launch can yield.
pub enum SpawnOutcome {
    /// The tool ran to completion; these are its captured stdout bytes,
    /// whatever its exit status was.
    Captured(Vec<u8>),
    /// The tool could not be launched at all — missing binary, denied
    /// permission, or any other spawn error.
    LaunchFailed,
}

/// The external tool's argument list for one request: JSON-output mode,
/// datagram mode, then the bitrate, duration and target as discrete opaque
/// values — never a shell line, so the values cannot inject options of their
/// own between arguments.
pub open spec fn probe_args(req: ProbeRequest) -> Seq<Seq<char>> {
    seq!["-J"@, "-u"@, "-b"@, req.bitrate@, "-t"@, req.duration@, "-c"@, req.target@]
}

/// Builds the argument list that the external tool is invoked with.
pub fn build_args(req: &ProbeRequest) -> (args: Vec<String>)
    ensures
        args@.map_values(|s: String| s@) == probe_args(*req),
{
    let mut args: Vec<String> = Vec::new();
    args.push("-J".to_owned());
    args.push("-u".to_owned());
    args.push("-b".to_owned());
    args.push(req.bitrate.clone());
    args.push("-t".to_owned());
    args.push(req.duration.clone());
    args.push("-c".to_owned());
    args.push(req.target.clone());
    proof {
        assert(args@.map_values(|s: String| s@) =~= probe_args(*req));
    }
    args
}

/// What one spawn outcome yields: the parsed result model when the tool ran,
/// its output decoded as text, and the payload conformed to the expected
/// shape; otherwise the class of the first failure — spawn, encoding, or
/// payload shape, in that order.
pub open spec fn outcome_model(o: SpawnOutcome) -> Result<IperfResultModel, ProbeError> {
    match o {
        SpawnOutcome::LaunchFailed => Err(ProbeError::SpawnFailure),
        SpawnOutcome::Captured(bytes) => if !valid_utf8(bytes@) {
            Err(ProbeError::EncodingFailure)
        } else {
            match payload_model(decode_utf8(bytes@)) {
                Some(m) => Ok(m),
                None => Err(ProbeError::MalformedResult),
            }
        },
    }
}

/// Relies on `String::from_utf8`: it succeeds exactly on valid UTF-8 input,
/// yielding the decoded text; vstd's UTF-8 model states both sides.
#[verifier::external_body]
fn decode_output(bytes: Vec<u8>) -> (r: Option<String>)
    ensures
        r is Some <==> valid_utf8(bytes@),
        (r matches Some(s) ==> s@ == decode_utf8(bytes@)),
{
    String::from_utf8(bytes).ok()
}

/// Classifies one spawn outcome into a parsed result or a failure. A failed
/// launch is a `SpawnFailure`; captured output that is not valid text is an
/// `EncodingFailure`; text that is not a conforming payload is a
/// `MalformedResult`; and a result value exists only when the whole payload
/// conformed — never partially.
pub fn interpret_outcome(outcome: SpawnOutcome) -> (r: Result<IperfResult, ProbeError>)
    ensures
        (match outcome_model(outcome) {
            Ok(m) => r matches Ok(x) && x@ == m,
            Err(e) => r matches Err(a) && a == e,
        }),
{
    match outcome {
        SpawnOutcome::LaunchFailed => Err(ProbeError::SpawnFailure),
        SpawnOutcome::Captured(bytes) => match decode_output(bytes) {
            None => Err(ProbeError::EncodingFailure),
            Some(text) => parse_payload(text.as_str()),
        },
    }
}

/// The response for one outcome at the request boundary: success carries the
/// exposition text with status 200; every failure class collapses into the
/// same no-metrics response with status 404.
pub open spec fn response_model(o: SpawnOutcome) -> (u16, Seq<char>) {
    match outcome_model(o) {
        Ok(m) => (200u16, exposition_text(m)),
        Err(_) => (404u16, "No metrics"@),
    }
}

/// Builds the status code and body answering one probe's spawn outcome.
pub fn respond(outcome: SpawnOutcome) -> (r: (u16, String))
    ensures
        r.0 == response_model(outcome).0,
        r.1@ == response_model(outcome).1,
{
    match interpret_outcome(outcome) {
        Ok(result) => (200, result.gather_metrics()),
        Err(_) => (404, "No metrics".to_owned()),
    }
}

} // verus!
