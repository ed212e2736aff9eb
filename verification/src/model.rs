use vstd::prelude::*;

verus! {

/// Failure classes for one probe request. All of them collapse to the same
/// "no metrics" outcome at the HTTP boundary; the distinction is diagnostic.
#[derive(Clone, Copy, Debug, PartialEq, Eq, Structural)]
pub enum ProbeError {
    /// The external measurement tool could not be launched.
    SpawnFailure,
    /// The tool's captured output was not valid UTF-8 text.
    EncodingFailure,
    /// The tool's output was not a payload of the expected two-section shape.
    MalformedResult,
}

/// Caller-supplied parameters for one measurement run. Values are passed to
/// the external tool as discrete opaque arguments, never through a shell.
pub struct ProbeRequest {
    pub target: String,
    pub bitrate: String,
    pub duration: String,
}

/// Default bitrate argument: `"0"`, the unlimited-rate sentinel.
pub fn default_bitrate() -> (r: String)
    ensures
        r@ == "0"@,
{
    "0".to_owned()
}

/// Default duration argument: `"5"`, in seconds.
pub fn default_duration() -> (r: String)
    ensures
        r@ == "5"@,
{
    "5".to_owned()
}

impl ProbeRequest {
    /// Builds a request, filling each absent optional parameter with its default.
    pub fn new(target: String, bitrate: Option<String>, duration: Option<String>) -> (r:
        ProbeRequest)
        ensures
            r.target@ == target@,
            (match bitrate {
                Some(b) => r.bitrate@ == b@,
                None => r.bitrate@ == "0"@,
            }),
            (match duration {
                Some(d) => r.duration@ == d@,
                None => r.duration@ == "5"@,
            }),
    {
        ProbeRequest {
            target,
            bitrate: match bitrate {
                Some(b) => b,
                None => default_bitrate(),
            },
            duration: match duration {
                Some(d) => d,
                None => default_duration(),
            },
        }
    }
}

/// Measurement aggregates for one direction. Packet and byte counters are
/// machine integers; rate, jitter and loss percentage are fractional numbers,
/// held as the decimal text of the payload's number tokens so that the
/// translation stage can render them without rounding.
pub struct DirectionStats {
    pub bytes: i64,
    pub bits_per_second: String,
    pub jitter_ms: String,
    pub lost_packets: i64,
    pub packets: i64,
    pub lost_percent: String,
}

/// Mathematical model of [`DirectionStats`].
pub struct DirectionStatsModel {
    pub bytes: int,
    pub bits_per_second: Seq<char>,
    pub jitter_ms: Seq<char>,
    pub lost_packets: int,
    pub packets: int,
    pub lost_percent: Seq<char>,
}

impl View for DirectionStats {
    type V = DirectionStatsModel;

    open spec fn view(&self) -> DirectionStatsModel {
        DirectionStatsModel {
            bytes: self.bytes as int,
            bits_per_second: self.bits_per_second@,
            jitter_ms: self.jitter_ms@,
            lost_packets: self.lost_packets as int,
            packets: self.packets as int,
            lost_percent: self.lost_percent@,
        }
    }
}

/// Parsed measurement outcome: one aggregate section per direction. A value
/// of this type exists only when the external tool's whole payload conformed
/// to the expected shape; no partial models are ever produced.
pub struct IperfResult {
    pub sent: DirectionStats,
    pub received: DirectionStats,
}

/// Mathematical model of [`IperfResult`].
pub struct IperfResultModel {
    pub sent: DirectionStatsModel,
    pub received: DirectionStatsModel,
}

impl View for IperfResult {
    type V = IperfResultModel;

    open spec fn view(&self) -> IperfResultModel {
        IperfResultModel { sent: self.sent@, received: self.received@ }
    }
}

} // verus!
