//! The instruments that the probes write to, and the samples they write.
//!
//! The registry itself lives outside this crate. A probe loop hands out
//! [`Sample`]s; whoever owns the registry applies each one to the instrument
//! that it names.

use crate::time::TimeSpan;
use vstd::prelude::*;
use vstd::string::StringExecFns;

verus! {

/// How an instrument takes its values.
#[derive(Clone, Copy, Debug, PartialEq, Eq, Structural)]
pub enum InstrumentKind {
    /// Counts events; it only ever grows.
    Counter,
    /// Holds the value written last.
    Gauge,
    /// Collects every value observed.
    Histogram,
}

/// The instruments of the exporter.
#[derive(Clone, Copy, Debug, PartialEq, Eq, Structural)]
pub enum Instrument {
    /// Round-trip time to a host.
    PingDelay,
    /// Failed probes of a host, by kind of failure.
    PingFails,
    /// Bandwidth in one direction.
    Speed,
    /// Latency seen by the speed test, by phase and statistic.
    SpeedtestLatency,
    /// Bytes transferred in one direction.
    SpeedtestBytes,
    /// Time spent transferring in one direction.
    SpeedtestElapsed,
    /// Share of packets lost.
    SpeedtestPacketLoss,
    /// Failed speed tests, by kind of failure.
    SpeedtestFails,
}

impl Instrument {
    /// The name under which the instrument is exported.
    pub open spec fn name_of(self) -> Seq<char> {
        match self {
            Instrument::PingDelay => "ping_delay_seconds"@,
            Instrument::PingFails => "ping_fails"@,
            Instrument::Speed => "speed_bps"@,
            Instrument::SpeedtestLatency => "speedtest_latency_seconds"@,
            Instrument::SpeedtestBytes => "speedtest_bytes"@,
            Instrument::SpeedtestElapsed => "speedtest_elapsed_seconds"@,
            Instrument::SpeedtestPacketLoss => "speedtest_packet_loss"@,
            Instrument::SpeedtestFails => "speedtest_fails"@,
        }
    }

    /// One line for whoever reads the exported metrics.
    pub open spec fn help_of(self) -> Seq<char> {
        match self {
            Instrument::PingDelay => "ping delay in seconds"@,
            Instrument::PingFails => "number of failed pings"@,
            Instrument::Speed => "speed in bytes per second"@,
            Instrument::SpeedtestLatency => "speed test latency in seconds"@,
            Instrument::SpeedtestBytes => "speedtest bytes transferred"@,
            Instrument::SpeedtestElapsed => "elapsed time in seconds"@,
            Instrument::SpeedtestPacketLoss => "packet loss percentage"@,
            Instrument::SpeedtestFails => "number of failed speed tests"@,
        }
    }

    /// How the instrument takes its values.
    pub open spec fn kind_of(self) -> InstrumentKind {
        match self {
            Instrument::PingDelay => InstrumentKind::Histogram,
            Instrument::PingFails => InstrumentKind::Counter,
            Instrument::Speed => InstrumentKind::Gauge,
            Instrument::SpeedtestLatency => InstrumentKind::Histogram,
            Instrument::SpeedtestBytes => InstrumentKind::Gauge,
            Instrument::SpeedtestElapsed => InstrumentKind::Gauge,
            Instrument::SpeedtestPacketLoss => InstrumentKind::Gauge,
            Instrument::SpeedtestFails => InstrumentKind::Counter,
        }
    }

    /// The keys of the labels that every sample of the instrument carries, in
    /// the order of their values.
    pub open spec fn label_keys_of(self) -> Seq<Seq<char>> {
        match self {
            Instrument::PingDelay => seq!["hostname"@],
            Instrument::PingFails => seq!["hostname"@, "error_type"@],
            Instrument::Speed => seq!["direction"@],
            Instrument::SpeedtestLatency => seq!["state"@, "stat"@],
            Instrument::SpeedtestBytes => seq!["direction"@],
            Instrument::SpeedtestElapsed => seq!["direction"@],
            Instrument::SpeedtestPacketLoss => Seq::empty(),
            Instrument::SpeedtestFails => seq!["error_type"@],
        }
    }

    /// The name under which the instrument is exported.
    pub fn name(&self) -> (name: &'static str)
        ensures
            name@ == self.name_of(),
    {
        match self {
            Instrument::PingDelay => "ping_delay_seconds",
            Instrument::PingFails => "ping_fails",
            Instrument::Speed => "speed_bps",
            Instrument::SpeedtestLatency => "speedtest_latency_seconds",
            Instrument::SpeedtestBytes => "speedtest_bytes",
            Instrument::SpeedtestElapsed => "speedtest_elapsed_seconds",
            Instrument::SpeedtestPacketLoss => "speedtest_packet_loss",
            Instrument::SpeedtestFails => "speedtest_fails",
        }
    }

    /// One line for whoever reads the exported metrics.
    pub fn help(&self) -> (help: &'static str)
        ensures
            help@ == self.help_of(),
    {
        match self {
            Instrument::PingDelay => "ping delay in seconds",
            Instrument::PingFails => "number of failed pings",
            Instrument::Speed => "speed in bytes per second",
            Instrument::SpeedtestLatency => "speed test latency in seconds",
            Instrument::SpeedtestBytes => "speedtest bytes transferred",
            Instrument::SpeedtestElapsed => "elapsed time in seconds",
            Instrument::SpeedtestPacketLoss => "packet loss percentage",
            Instrument::SpeedtestFails => "number of failed speed tests",
        }
    }

    /// How the instrument takes its values.
    pub fn kind(&self) -> (kind: InstrumentKind)
        ensures
            kind == self.kind_of(),
    {
        match self {
            Instrument::PingDelay => InstrumentKind::Histogram,
            Instrument::PingFails => InstrumentKind::Counter,
            Instrument::Speed => InstrumentKind::Gauge,
            Instrument::SpeedtestLatency => InstrumentKind::Histogram,
            Instrument::SpeedtestBytes => InstrumentKind::Gauge,
            Instrument::SpeedtestElapsed => InstrumentKind::Gauge,
            Instrument::SpeedtestPacketLoss => InstrumentKind::Gauge,
            Instrument::SpeedtestFails => InstrumentKind::Counter,
        }
    }

    /// The keys of the labels that every sample of the instrument carries.
    pub fn label_keys(&self) -> (keys: Vec<&'static str>)
        ensures
            keys@.len() == self.label_keys_of().len(),
            forall|i: int| 0 <= i < keys@.len() ==> (#[trigger] keys@[i])@ == self.label_keys_of()[i],
    {
        let mut keys: Vec<&'static str> = Vec::new();
        match self {
            Instrument::PingDelay => {
                keys.push("hostname");
            },
            Instrument::PingFails => {
                keys.push("hostname");
                keys.push("error_type");
            },
            Instrument::Speed => {
                keys.push("direction");
            },
            Instrument::SpeedtestLatency => {
                keys.push("state");
                keys.push("stat");
            },
            Instrument::SpeedtestBytes => {
                keys.push("direction");
            },
            Instrument::SpeedtestElapsed => {
                keys.push("direction");
            },
            Instrument::SpeedtestPacketLoss => {},
            Instrument::SpeedtestFails => {
                keys.push("error_type");
            },
        }
        keys
    }
}

/// A share in percent, held as the bits of the double-precision number that
/// states it. This crate carries such a number and never computes with it.
#[derive(Clone, Copy, Debug, PartialEq, Eq, Structural)]
pub struct Percent {
    /// The bits of the number, as `f64::to_bits` gives them.
    pub bits: u64,
}

/// What a sample writes.
#[derive(Clone, Copy, Debug, PartialEq, Eq, Structural)]
pub enum Reading {
    /// One more event.
    Increment,
    /// A whole number, such as a count of bytes.
    Count(u64),
    /// A span of time, exported in seconds.
    Seconds(TimeSpan),
    /// A share in percent.
    Share(Percent),
}

impl Reading {
    /// Whether an instrument of the given kind takes such a value: a counter
    /// is incremented, a histogram observes spans of time, a gauge is set.
    pub open spec fn suits(self, kind: InstrumentKind) -> bool {
        match kind {
            InstrumentKind::Counter => self is Increment,
            InstrumentKind::Histogram => self is Seconds,
            InstrumentKind::Gauge => !(self is Increment),
        }
    }
}

/// One write to one instrument.
#[derive(Clone, Debug)]
pub struct Sample {
    /// The instrument written to.
    pub instrument: Instrument,
    /// The values of the instrument's labels, in the order of its keys.
    pub labels: Vec<String>,
    /// What is written.
    pub value: Reading,
}

/// A [`Sample`] as contracts see it.
pub struct SampleModel {
    /// The instrument written to.
    pub instrument: Instrument,
    /// The values of the labels.
    pub labels: Seq<Seq<char>>,
    /// What is written.
    pub value: Reading,
}

impl SampleModel {
    /// The sample carries one value for each label of its instrument, and a
    /// reading that its instrument takes.
    pub open spec fn well_formed(self) -> bool {
        &&& self.labels.len() == self.instrument.label_keys_of().len()
        &&& self.value.suits(self.instrument.kind_of())
    }
}

impl View for Sample {
    type V = SampleModel;

    open spec fn view(&self) -> SampleModel {
        SampleModel {
            instrument: self.instrument,
            labels: self.labels.deep_view(),
            value: self.value,
        }
    }
}

/// The models of a list of samples.
pub open spec fn models(samples: Seq<Sample>) -> Seq<SampleModel> {
    samples.map_values(|s: Sample| s@)
}

impl Sample {
    /// A sample without labels.
    pub fn bare(instrument: Instrument, value: Reading) -> (sample: Sample)
        ensures
            sample@ == (SampleModel { instrument, labels: Seq::empty(), value }),
    {
        let labels: Vec<String> = Vec::new();
        assert(labels.deep_view() =~= Seq::<Seq<char>>::empty());
        Sample { instrument, labels, value }
    }

    /// A sample with one label.
    pub fn labelled(instrument: Instrument, label: &str, value: Reading) -> (sample: Sample)
        ensures
            sample@ == (SampleModel { instrument, labels: seq![label@], value }),
    {
        let mut labels: Vec<String> = Vec::new();
        labels.push(String::from_str(label));
        assert(labels.deep_view() =~= seq![label@]);
        Sample { instrument, labels, value }
    }

    /// A sample with two labels.
    pub fn labelled_twice(instrument: Instrument, first: &str, second: &str, value: Reading) -> (sample:
        Sample)
        ensures
            sample@ == (SampleModel { instrument, labels: seq![first@, second@], value }),
    {
        let mut labels: Vec<String> = Vec::new();
        labels.push(String::from_str(first));
        labels.push(String::from_str(second));
        assert(labels.deep_view() =~= seq![first@, second@]);
        Sample { instrument, labels, value }
    }
}

} // verus!
