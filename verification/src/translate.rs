use crate::model::{DirectionStatsModel, IperfResult, IperfResultModel};
use vstd::prelude::*;
use vstd::string::StringExecFns;

verus! {

/// One row of the translation: a direction, a field name, the field's fixed
/// unit label, and the numeric value as decimal text.
pub struct MetricObservation {
    pub direction: String,
    pub field: String,
    pub unit: String,
    pub value: String,
}

/// Mathematical model of [`MetricObservation`].
pub struct MetricObservationModel {
    pub direction: Seq<char>,
    pub field: Seq<char>,
    pub unit: Seq<char>,
    pub value: Seq<char>,
}

impl View for MetricObservation {
    type V = MetricObservationModel;

    open spec fn view(&self) -> MetricObservationModel {
        MetricObservationModel {
            direction: self.direction@,
            field: self.field@,
            unit: self.unit@,
            value: self.value@,
        }
    }
}

/// The decimal digit character of one digit value.
pub open spec fn digit_char(d: int) -> char
    recommends
        0 <= d < 10,
{
    if d == 0 {
        '0'
    } else if d == 1 {
        '1'
    } else if d == 2 {
        '2'
    } else if d == 3 {
        '3'
    } else if d == 4 {
        '4'
    } else if d == 5 {
        '5'
    } else if d == 6 {
        '6'
    } else if d == 7 {
        '7'
    } else if d == 8 {
        '8'
    } else {
        '9'
    }
}

/// Decimal text of a non-negative integer, most significant digit first.
pub open spec fn dec_nat_text(n: int) -> Seq<char>
    recommends
        n >= 0,
    decreases n,
{
    if n < 10 {
        seq![digit_char(n)]
    } else {
        dec_nat_text(n / 10) + seq![digit_char(n % 10)]
    }
}

/// Decimal text of an integer, with a leading minus sign when negative.
pub open spec fn dec_text(n: int) -> Seq<char> {
    if n < 0 {
        seq!['-'] + dec_nat_text(-n)
    } else {
        dec_nat_text(n)
    }
}

/// The six observations of one direction, in the fixed field order: byte
/// count, bit rate, jitter, lost-packet count, total packet count, lost
/// percentage — always all six, whatever the values.
pub open spec fn direction_observations(direction: Seq<char>, d: DirectionStatsModel) -> Seq<
    MetricObservationModel> {
    seq![
        MetricObservationModel {
            direction,
            field: "bytes"@,
            unit: "B"@,
            value: dec_text(d.bytes),
        },
        MetricObservationModel {
            direction,
            field: "bitrate"@,
            unit: "bit/s"@,
            value: d.bits_per_second,
        },
        MetricObservationModel { direction, field: "jitter"@, unit: "ms"@, value: d.jitter_ms },
        MetricObservationModel {
            direction,
            field: "lost_packets"@,
            unit: "packets"@,
            value: dec_text(d.lost_packets),
        },
        MetricObservationModel {
            direction,
            field: "packets"@,
            unit: "packets"@,
            value: dec_text(d.packets),
        },
        MetricObservationModel {
            direction,
            field: "lost_percent"@,
            unit: "%"@,
            value: d.lost_percent,
        },
    ]
}

/// All twelve observations of a result: the sent section's six first, then
/// the received section's six.
pub open spec fn result_observations(m: IperfResultModel) -> Seq<MetricObservationModel> {
    direction_observations("sent"@, m.sent) + direction_observations("received"@, m.received)
}

/// One exposition line: the metric family name, the three labels, the value.
pub open spec fn observation_line(o: MetricObservationModel) -> Seq<char> {
    "iperf_metrics{direction=\""@ + o.direction + "\",field=\""@ + o.field + "\",unit=\""@
        + o.unit + "\"} "@ + o.value + "\n"@
}

/// The exposition header naming the single gauge family.
pub open spec fn exposition_header() -> Seq<char> {
    "# HELP iperf_metrics Metrics from iperf3\n# TYPE iperf_metrics gauge\n"@
}

/// The lines of a sequence of observations, in order.
pub open spec fn observation_lines(obs: Seq<MetricObservationModel>) -> Seq<char>
    decreases obs.len(),
{
    if obs.len() == 0 {
        Seq::empty()
    } else {
        observation_line(obs[0]) + observation_lines(obs.drop_first())
    }
}

/// The full exposition text of a result: the header, then all twelve
/// observation lines in the fixed order.
pub open spec fn exposition_text(m: IperfResultModel) -> Seq<char> {
    exposition_header() + observation_lines(result_observations(m))
}

proof fn lemma_observation_lines_snoc(obs: Seq<MetricObservationModel>, o: MetricObservationModel)
    ensures
        observation_lines(obs.push(o)) == observation_lines(obs) + observation_line(o),
    decreases obs.len(),
{
    if obs.len() == 0 {
        assert(obs.push(o)[0] == o);
        assert(obs.push(o).drop_first() =~= obs);
        assert(observation_lines(obs.push(o)) == observation_line(o) + observation_lines(obs));
        assert(observation_lines(obs) =~= Seq::<char>::empty());
        assert(observation_lines(obs.push(o)) =~= observation_lines(obs) + observation_line(o));
    } else {
        assert(obs.push(o).drop_first() =~= obs.drop_first().push(o));
        assert(obs.push(o)[0] == obs[0]);
        assert(observation_lines(obs.push(o)) == observation_line(obs[0]) + observation_lines(
            obs.drop_first().push(o)));
        lemma_observation_lines_snoc(obs.drop_first(), o);
        assert(observation_lines(obs.push(o)) =~= observation_lines(obs) + observation_line(o));
    }
}

/// The digit character of one digit value, as a one-character text.
fn digit_str(d: u64) -> (r: &'static str)
    requires
        d < 10,
    ensures
        r@ == seq![digit_char(d as int)],
{
    proof {
        reveal_strlit("0");
        reveal_strlit("1");
        reveal_strlit("2");
        reveal_strlit("3");
        reveal_strlit("4");
        reveal_strlit("5");
        reveal_strlit("6");
        reveal_strlit("7");
        reveal_strlit("8");
        reveal_strlit("9");
    }
    let r = if d == 0 {
        "0"
    } else if d == 1 {
        "1"
    } else if d == 2 {
        "2"
    } else if d == 3 {
        "3"
    } else if d == 4 {
        "4"
    } else if d == 5 {
        "5"
    } else if d == 6 {
        "6"
    } else if d == 7 {
        "7"
    } else if d == 8 {
        "8"
    } else {
        "9"
    };
    proof {
        assert(r@ =~= seq![digit_char(d as int)]);
    }
    r
}

/// Appends the decimal digits of a non-negative integer.
fn push_nat_digits(out: &mut String, n: u64)
    ensures
        final(out)@ == old(out)@ + dec_nat_text(n as int),
    decreases n,
{
    if n < 10 {
        out.append(digit_str(n));
    } else {
        push_nat_digits(out, n / 10);
        out.append(digit_str(n % 10));
        proof {
            assert(final(out)@ =~= old(out)@ + dec_nat_text(n as int));
        }
    }
}

/// Renders an integer as decimal text.
pub fn i64_text(n: i64) -> (r: String)
    ensures
        r@ == dec_text(n as int),
{
    let mut out = String::new();
    if n < 0 {
        proof {
            reveal_strlit("-");
        }
        out.append("-");
        let wide: i128 = -(n as i128);
        let magnitude: u64 = wide as u64;
        push_nat_digits(&mut out, magnitude);
        proof {
            assert("-"@ =~= seq!['-']);
            assert(out@ =~= dec_text(n as int));
        }
    } else {
        push_nat_digits(&mut out, n as u64);
    }
    out
}

impl IperfResult {
    /// The twelve labeled observations of this result: six fields per
    /// direction, sent first, always all present in the fixed field order.
    pub fn observations(&self) -> (obs: Vec<MetricObservation>)
        ensures
            obs@.map_values(|o: MetricObservation| o@) == result_observations(self@),
            obs@.len() == 12,
    {
        let mut obs: Vec<MetricObservation> = Vec::new();
        obs.push(MetricObservation {
            direction: "sent".to_owned(),
            field: "bytes".to_owned(),
            unit: "B".to_owned(),
            value: i64_text(self.sent.bytes),
        });
        obs.push(MetricObservation {
            direction: "sent".to_owned(),
            field: "bitrate".to_owned(),
            unit: "bit/s".to_owned(),
            value: self.sent.bits_per_second.clone(),
        });
        obs.push(MetricObservation {
            direction: "sent".to_owned(),
            field: "jitter".to_owned(),
            unit: "ms".to_owned(),
            value: self.sent.jitter_ms.clone(),
        });
        obs.push(MetricObservation {
            direction: "sent".to_owned(),
            field: "lost_packets".to_owned(),
            unit: "packets".to_owned(),
            value: i64_text(self.sent.lost_packets),
        });
        obs.push(MetricObservation {
            direction: "sent".to_owned(),
            field: "packets".to_owned(),
            unit: "packets".to_owned(),
            value: i64_text(self.sent.packets),
        });
        obs.push(MetricObservation {
            direction: "sent".to_owned(),
            field: "lost_percent".to_owned(),
            unit: "%".to_owned(),
            value: self.sent.lost_percent.clone(),
        });
        obs.push(MetricObservation {
            direction: "received".to_owned(),
            field: "bytes".to_owned(),
            unit: "B".to_owned(),
            value: i64_text(self.received.bytes),
        });
        obs.push(MetricObservation {
            direction: "received".to_owned(),
            field: "bitrate".to_owned(),
            unit: "bit/s".to_owned(),
            value: self.received.bits_per_second.clone(),
        });
        obs.push(MetricObservation {
            direction: "received".to_owned(),
            field: "jitter".to_owned(),
            unit: "ms".to_owned(),
            value: self.received.jitter_ms.clone(),
        });
        obs.push(MetricObservation {
            direction: "received".to_owned(),
            field: "lost_packets".to_owned(),
            unit: "packets".to_owned(),
            value: i64_text(self.received.lost_packets),
        });
        obs.push(MetricObservation {
            direction: "received".to_owned(),
            field: "packets".to_owned(),
            unit: "packets".to_owned(),
            value: i64_text(self.received.packets),
        });
        obs.push(MetricObservation {
            direction: "received".to_owned(),
            field: "lost_percent".to_owned(),
            unit: "%".to_owned(),
            value: self.received.lost_percent.clone(),
        });
        proof {
            assert(obs@.map_values(|o: MetricObservation| o@) =~= result_observations(self@));
        }
        obs
    }

    /// Serializes observations as exposition text: the family header, then
    /// one gauge line per observation, in the observations' own order.
    pub fn render_observations(obs: &Vec<MetricObservation>) -> (r: String)
        ensures
            r@ == exposition_header() + observation_lines(
                obs@.map_values(|o: MetricObservation| o@)),
    {
        let ghost models = obs@.map_values(|o: MetricObservation| o@);
        let mut out = String::new();
        out.append("# HELP iperf_metrics Metrics from iperf3\n# TYPE iperf_metrics gauge\n");
        let mut i: usize = 0;
        while i < obs.len()
            invariant
                0 <= i <= obs.len(),
                models == obs@.map_values(|o: MetricObservation| o@),
                models.len() == obs@.len(),
                out@ == exposition_header() + observation_lines(models.take(i as int)),
            decreases obs.len() - i,
        {
            let o = &obs[i];
            out.append("iperf_metrics{direction=\"");
            out.append(o.direction.as_str());
            out.append("\",field=\"");
            out.append(o.field.as_str());
            out.append("\",unit=\"");
            out.append(o.unit.as_str());
            out.append("\"} ");
            out.append(o.value.as_str());
            out.append("\n");
            proof {
                assert(models.take(i + 1) =~= models.take(i as int).push(models[i as int]));
                lemma_observation_lines_snoc(models.take(i as int), models[i as int]);
                assert(out@ =~= exposition_header() + observation_lines(models.take(i + 1)));
            }
            i = i + 1;
        }
        proof {
            assert(models.take(obs@.len() as int) =~= models);
        }
        out
    }

    /// Translates this result into the metrics exposition text. The output
    /// is a pure function of the result model: repeated calls on equal
    /// models yield byte-identical text, and the text always carries all
    /// twelve observations.
    pub fn gather_metrics(&self) -> (r: String)
        ensures
            r@ == exposition_text(self@),
    {
        let obs = self.observations();
        Self::render_observations(&obs)
    }
}

/// Determinism of translation: equal result models yield identical
/// exposition text, so repeated translations of one result cannot differ.
pub proof fn lemma_translation_deterministic(a: IperfResultModel, b: IperfResultModel)
    requires
        a == b,
    ensures
        exposition_text(a) == exposition_text(b),
{
}

/// Totality of fields: the translation of any result model holds exactly
/// twelve observations — six fields for each of the two directions — however
/// the model's values fall.
pub proof fn lemma_twelve_observations(m: IperfResultModel)
    ensures
        result_observations(m).len() == 12,
{
}

} // verus!
