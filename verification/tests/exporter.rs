use iperf_exporter::gate::ProbeGate;
use iperf_exporter::model::{DirectionStats, IperfResult, ProbeError, ProbeRequest};
use iperf_exporter::model::{default_bitrate, default_duration};
use iperf_exporter::parse::parse_payload;
use iperf_exporter::runner::{build_args, interpret_outcome, respond, SpawnOutcome};
use iperf_exporter::translate::i64_text;

fn result_json() -> String {
    [
        "{",
        "  \"start\": { \"version\": \"iperf 3.9\", \"test_start\": { \"protocol\": \"UDP\" } },",
        "  \"intervals\": [],",
        "  \"end\": {",
        "    \"sum_sent\": {",
        "      \"start\": 0, \"end\": 5.000294, \"seconds\": 5.000294,",
        "      \"bytes\": 126240768, \"bits_per_second\": 201973568.4393558,",
        "      \"jitter_ms\": 0.0, \"lost_packets\": 0, \"packets\": 86718,",
        "      \"lost_percent\": 0.0, \"sender\": true",
        "    },",
        "    \"sum_received\": {",
        "      \"start\": 0, \"end\": 5.000294, \"seconds\": 5.000294,",
        "      \"bytes\": 126228672, \"bits_per_second\": 201954188.06585097,",
        "      \"jitter_ms\": 0.057079530215429858, \"lost_packets\": 0,",
        "      \"packets\": 86718, \"lost_percent\": 0.0, \"sender\": false",
        "    }",
        "  }",
        "}",
    ]
    .join("\n")
}

#[test]
fn test_result_to_prometheus() {
    let result = parse_payload(result_json().as_str()).unwrap();
    let metrics_string = result.gather_metrics();

    assert_eq!(
        201954188.06585097,
        result.received.bits_per_second.parse::<f64>().unwrap()
    );
    assert_eq!(
        0.057079530215429858,
        result.received.jitter_ms.parse::<f64>().unwrap()
    );
    assert_eq!(0.0, result.received.lost_percent.parse::<f64>().unwrap());

    metrics_string.lines().for_each(|line| println!("{}", line));
}

#[test]
fn translation_is_deterministic() {
    let result = parse_payload(result_json().as_str()).unwrap();
    let first = result.gather_metrics();
    let second = result.gather_metrics();
    assert_eq!(first, second);
}

fn stats(bytes: i64, bps: &str, jitter: &str, lost: i64, packets: i64, pct: &str) -> DirectionStats {
    DirectionStats {
        bytes,
        bits_per_second: bps.to_string(),
        jitter_ms: jitter.to_string(),
        lost_packets: lost,
        packets,
        lost_percent: pct.to_string(),
    }
}

#[test]
fn twelve_observations_even_when_zero() {
    let zero = IperfResult {
        sent: stats(0, "0.0", "0.0", 0, 0, "0.0"),
        received: stats(0, "0.0", "0.0", 0, 0, "0.0"),
    };
    let obs = zero.observations();
    assert_eq!(12, obs.len());
    assert_eq!("sent", obs[0].direction);
    assert_eq!("bytes", obs[0].field);
    assert_eq!("B", obs[0].unit);
    assert_eq!("received", obs[11].direction);
    assert_eq!("lost_percent", obs[11].field);
    assert_eq!("%", obs[11].unit);
}

#[test]
fn exposition_text_exact() {
    let result = IperfResult {
        sent: stats(1, "2", "0.5", 0, 10, "0"),
        received: stats(3, "4.5", "1.5", 1, 20, "12.5"),
    };
    let expected = "# HELP iperf_metrics Metrics from iperf3\n# TYPE iperf_metrics gauge\niperf_metrics{direction=\"sent\",field=\"bytes\",unit=\"B\"} 1\niperf_metrics{direction=\"sent\",field=\"bitrate\",unit=\"bit/s\"} 2\niperf_metrics{direction=\"sent\",field=\"jitter\",unit=\"ms\"} 0.5\niperf_metrics{direction=\"sent\",field=\"lost_packets\",unit=\"packets\"} 0\niperf_metrics{direction=\"sent\",field=\"packets\",unit=\"packets\"} 10\niperf_metrics{direction=\"sent\",field=\"lost_percent\",unit=\"%\"} 0\niperf_metrics{direction=\"received\",field=\"bytes\",unit=\"B\"} 3\niperf_metrics{direction=\"received\",field=\"bitrate\",unit=\"bit/s\"} 4.5\niperf_metrics{direction=\"received\",field=\"jitter\",unit=\"ms\"} 1.5\niperf_metrics{direction=\"received\",field=\"lost_packets\",unit=\"packets\"} 1\niperf_metrics{direction=\"received\",field=\"packets\",unit=\"packets\"} 20\niperf_metrics{direction=\"received\",field=\"lost_percent\",unit=\"%\"} 12.5\n";
    assert_eq!(expected, result.gather_metrics());
}

#[test]
fn integer_rendering_exact() {
    assert_eq!("0", i64_text(0));
    assert_eq!("7", i64_text(7));
    assert_eq!("1234567890", i64_text(1234567890));
    assert_eq!("-5", i64_text(-5));
    assert_eq!("9223372036854775807", i64_text(i64::MAX));
    assert_eq!("-9223372036854775808", i64_text(i64::MIN));
}

#[test]
fn parse_missing_field_is_all_or_nothing() {
    // Same shape as a conforming payload, but sum_received lacks jitter_ms.
    let payload = "{ \"end\": { \"sum_sent\": { \"bytes\": 1, \"bits_per_second\": 2.0, \"jitter_ms\": 0.1, \"lost_packets\": 0, \"packets\": 5, \"lost_percent\": 0.0 }, \"sum_received\": { \"bytes\": 1, \"bits_per_second\": 2.0, \"lost_packets\": 0, \"packets\": 5, \"lost_percent\": 0.0 } } }";
    assert_eq!(Err(ProbeError::MalformedResult), parse_payload(payload).map(|_| ()));
}

#[test]
fn parse_wrong_kind_is_malformed() {
    // bytes must be an integer; a fractional number is a shape mismatch.
    let payload = "{ \"end\": { \"sum_sent\": { \"bytes\": 1.5, \"bits_per_second\": 2.0, \"jitter_ms\": 0.1, \"lost_packets\": 0, \"packets\": 5, \"lost_percent\": 0.0 }, \"sum_received\": { \"bytes\": 1, \"bits_per_second\": 2.0, \"jitter_ms\": 0.1, \"lost_packets\": 0, \"packets\": 5, \"lost_percent\": 0.0 } } }";
    assert_eq!(Err(ProbeError::MalformedResult), parse_payload(payload).map(|_| ()));
}

#[test]
fn parse_malformed_syntax() {
    assert_eq!(
        Err(ProbeError::MalformedResult),
        parse_payload("this is not json").map(|_| ())
    );
}

#[test]
fn parse_normalizes_number_text() {
    // The parser stores a fractional number's canonical decimal text, not
    // the raw token: scientific notation comes out expanded.
    let payload = "{ \"end\": { \"sum_sent\": { \"bytes\": 3, \"bits_per_second\": 2.5e2, \"jitter_ms\": 0.1, \"lost_packets\": 0, \"packets\": 5, \"lost_percent\": 0.0 }, \"sum_received\": { \"bytes\": 4, \"bits_per_second\": 2.0, \"jitter_ms\": 0.1, \"lost_packets\": 0, \"packets\": 5, \"lost_percent\": 0.0 } } }";
    let result = parse_payload(payload).unwrap();
    assert_eq!("250.0", result.sent.bits_per_second);
    assert_eq!(3, result.sent.bytes);
    assert_eq!(4, result.received.bytes);
}

#[test]
fn spawn_failure_classified() {
    assert_eq!(
        Err(ProbeError::SpawnFailure),
        interpret_outcome(SpawnOutcome::LaunchFailed).map(|_| ())
    );
}

#[test]
fn encoding_failure_classified() {
    let bytes = vec![0xffu8, 0xfe, 0xfd];
    assert_eq!(
        Err(ProbeError::EncodingFailure),
        interpret_outcome(SpawnOutcome::Captured(bytes)).map(|_| ())
    );
}

#[test]
fn malformed_output_classified() {
    let bytes = "iperf3: error - unable to connect\n".as_bytes().to_vec();
    assert_eq!(
        Err(ProbeError::MalformedResult),
        interpret_outcome(SpawnOutcome::Captured(bytes)).map(|_| ())
    );
}

#[test]
fn probe_scenario_success() {
    // target=10.0.0.5, bitrate=0, duration=5 against a stub tool whose
    // payload reports the received bitrate below: the response is 200 and
    // carries the received-bitrate observation row.
    let request = ProbeRequest::new(
        "10.0.0.5".to_string(),
        Some("0".to_string()),
        Some("5".to_string()),
    );
    let args = build_args(&request);
    assert_eq!(
        vec!["-J", "-u", "-b", "0", "-t", "5", "-c", "10.0.0.5"],
        args
    );
    let payload = "{ \"end\": { \"sum_sent\": { \"bytes\": 126240768, \"bits_per_second\": 201954188.07, \"jitter_ms\": 0.0, \"lost_packets\": 0, \"packets\": 86718, \"lost_percent\": 0.0 }, \"sum_received\": { \"bytes\": 126228672, \"bits_per_second\": 201954188.07, \"jitter_ms\": 0.0571, \"lost_packets\": 0, \"packets\": 86718, \"lost_percent\": 0.0 } } }";
    let (status, body) = respond(SpawnOutcome::Captured(payload.as_bytes().to_vec()));
    assert_eq!(200, status);
    assert!(body.contains(
        "iperf_metrics{direction=\"received\",field=\"bitrate\",unit=\"bit/s\"} 201954188.07\n"
    ));
}

#[test]
fn probe_scenario_tool_failed() {
    // The tool exits non-zero with empty stdout: the response is 404 with
    // the no-metrics body, and the probe slot comes back to idle.
    let mut gate = ProbeGate::new();
    assert!(gate.try_acquire());
    let (status, body) = respond(SpawnOutcome::Captured(Vec::new()));
    gate.release();
    assert_eq!(404, status);
    assert_eq!("No metrics", body);
    assert!(gate.try_acquire());
}

#[test]
fn gate_excludes_second_caller() {
    // Two requests in the same window: the second acquisition is denied
    // until the first holder releases, so the runs cannot overlap.
    let mut gate = ProbeGate::new();
    assert!(gate.try_acquire());
    assert!(!gate.try_acquire());
    assert!(!gate.try_acquire());
    gate.release();
    assert!(gate.try_acquire());
}

#[test]
fn gate_releases_after_spawn_failure() {
    let mut gate = ProbeGate::new();
    assert!(gate.try_acquire());
    let outcome = interpret_outcome(SpawnOutcome::LaunchFailed);
    assert!(outcome.is_err());
    gate.release();
    assert!(gate.try_acquire());
}

#[test]
fn request_defaults() {
    assert_eq!("0", default_bitrate());
    assert_eq!("5", default_duration());
    let request = ProbeRequest::new("172.16.0.16".to_string(), None, None);
    assert_eq!("172.16.0.16", request.target);
    assert_eq!("0", request.bitrate);
    assert_eq!("5", request.duration);
}
