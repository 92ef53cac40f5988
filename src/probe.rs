//! Health aggregation: one probe per configured daemon, each classified on
//! its own, then joined into a report in configuration order.

use vstd::prelude::*;

use crate::json::{is_json_document, parse_document};
use crate::text::{http_url, http_url_text};

verus! {

/// How long a single probe may take, in milliseconds.
pub const PROBE_DEADLINE_MS: u64 = 2000;

/// One configured peer.
pub struct DaemonDef {
    pub name: String,
    pub port: u16,
}

/// What a probe concluded about one daemon.
#[derive(PartialEq, Eq, Structural, Clone, Copy, Debug)]
pub enum ProbeStatus {
    Up,
    Down,
    Timeout,
}

/// What came back from one probe, before classification.
pub enum ProbeOutcome {
    /// The daemon answered before the deadline; the body, if it could be read.
    Answered(Option<Vec<u8>>),
    /// The request failed at the transport level before the deadline.
    Failed,
    /// The deadline elapsed with no answer.
    Expired,
}

/// The classified result for one daemon.
pub struct DaemonStatus {
    pub name: String,
    pub port: u16,
    pub status: ProbeStatus,
    pub data: Option<serde_json::Value>,
}

pub open spec fn status_of(o: ProbeOutcome) -> ProbeStatus {
    match o {
        ProbeOutcome::Answered(_) => ProbeStatus::Up,
        ProbeOutcome::Failed => ProbeStatus::Down,
        ProbeOutcome::Expired => ProbeStatus::Timeout,
    }
}

/// A payload is kept only when the daemon answered with a readable JSON body.
pub open spec fn has_payload(o: ProbeOutcome) -> bool {
    match o {
        ProbeOutcome::Answered(Some(body)) => is_json_document(body@),
        _ => false,
    }
}

/// `r` is the classification of outcome `o` for daemon `def`.
pub open spec fn classifies(r: DaemonStatus, def: DaemonDef, o: ProbeOutcome) -> bool {
    &&& r.name@ == def.name@
    &&& r.port == def.port
    &&& r.status == status_of(o)
    &&& r.data.is_some() == has_payload(o)
}

impl ProbeStatus {
    pub open spec fn label(self) -> Seq<char> {
        match self {
            ProbeStatus::Up => "up"@,
            ProbeStatus::Down => "down"@,
            ProbeStatus::Timeout => "timeout"@,
        }
    }

    /// The wire name of the status.
    pub fn as_str(&self) -> (r: &'static str)
        ensures
            r@ == self.label(),
    {
        match self {
            ProbeStatus::Up => "up",
            ProbeStatus::Down => "down",
            ProbeStatus::Timeout => "timeout",
        }
    }
}

/// The health endpoint of the daemon at `host:port`.
pub fn probe_url(host: &str, port: u16) -> (r: String)
    ensures
        r@ == http_url(host@, port, "/health"@),
{
    http_url_text(host, port, "/health")
}

/// Classifies what one probe brought back.
pub fn classify(def: &DaemonDef, outcome: &ProbeOutcome) -> (r: DaemonStatus)
    ensures
        classifies(r, *def, *outcome),
{
    let (status, data) = match outcome {
        ProbeOutcome::Answered(body) => {
            let data = match body {
                Some(bytes) => parse_document(bytes.as_slice()),
                None => None,
            };
            (ProbeStatus::Up, data)
        },
        ProbeOutcome::Failed => (ProbeStatus::Down, None),
        ProbeOutcome::Expired => (ProbeStatus::Timeout, None),
    };
    DaemonStatus { name: def.name.clone(), port: def.port, status, data }
}

/// Counts of the report.
#[derive(PartialEq, Eq, Structural, Clone, Copy, Debug)]
pub struct PantheonSummary {
    pub total: usize,
    pub alive: usize,
    pub down: usize,
}

/// The aggregate report: one result per configured daemon, in configuration
/// order, with its counts and the capture time in milliseconds since the epoch.
pub struct PantheonResponse {
    pub pantheon: Vec<DaemonStatus>,
    pub summary: PantheonSummary,
    pub timestamp: u128,
}

/// How many of the results are `Up`.
pub open spec fn count_up(rs: Seq<DaemonStatus>) -> nat
    decreases rs.len(),
{
    if rs.len() == 0 {
        0
    } else {
        count_up(rs.drop_last()) + if rs.last().status == ProbeStatus::Up {
            1nat
        } else {
            0nat
        }
    }
}

pub open spec fn summary_of(rs: Seq<DaemonStatus>) -> PantheonSummary {
    PantheonSummary {
        total: rs.len() as usize,
        alive: count_up(rs) as usize,
        down: (rs.len() - count_up(rs)) as usize,
    }
}

/// `r` reports, at time `ts`, outcome `outcomes[i]` for daemon `defs[i]`.
pub open spec fn is_report_of(
    r: PantheonResponse,
    defs: Seq<DaemonDef>,
    outcomes: Seq<ProbeOutcome>,
    ts: u128,
) -> bool {
    &&& r.pantheon.len() == defs.len()
    &&& forall|i: int|
        0 <= i < defs.len() ==> #[trigger] classifies(r.pantheon@[i], defs[i], outcomes[i])
    &&& r.summary == summary_of(r.pantheon@)
    &&& r.timestamp == ts
}

pub proof fn lemma_count_up_bounded(rs: Seq<DaemonStatus>)
    ensures
        count_up(rs) <= rs.len(),
    decreases rs.len(),
{
    if rs.len() > 0 {
        lemma_count_up_bounded(rs.drop_last());
    }
}

/// Counts the results: how many are up, how many are not.
pub fn summarize(results: &Vec<DaemonStatus>) -> (s: PantheonSummary)
    ensures
        s == summary_of(results@),
        s.alive + s.down == s.total,
        s.total == results.len(),
{
    let mut alive: usize = 0;
    let mut i: usize = 0;
    while i < results.len()
        invariant
            i <= results.len(),
            alive == count_up(results@.take(i as int)),
        decreases results.len() - i,
    {
        proof {
            assert(results@.take(i as int + 1).drop_last() =~= results@.take(i as int));
            lemma_count_up_bounded(results@.take(i as int));
        }
        if results[i].status == ProbeStatus::Up {
            alive = alive + 1;
        }
        i = i + 1;
    }
    proof {
        assert(results@.take(results.len() as int) =~= results@);
        lemma_count_up_bounded(results@);
    }
    PantheonSummary { total: results.len(), alive, down: results.len() - alive }
}

/// Joins the probes' outcomes into the report; `outcomes[i]` belongs to
/// `defs[i]`, whatever order the probes finished in.
pub fn compose_report(defs: &Vec<DaemonDef>, outcomes: &Vec<ProbeOutcome>, timestamp: u128) -> (r:
    PantheonResponse)
    requires
        outcomes.len() == defs.len(),
    ensures
        is_report_of(r, defs@, outcomes@, timestamp),
{
    let mut results: Vec<DaemonStatus> = Vec::new();
    let mut i: usize = 0;
    while i < defs.len()
        invariant
            i <= defs.len(),
            outcomes.len() == defs.len(),
            results.len() == i,
            forall|j: int| 0 <= j < i ==> #[trigger] classifies(results@[j], defs@[j], outcomes@[j]),
        decreases defs.len() - i,
    {
        let r = classify(&defs[i], &outcomes[i]);
        results.push(r);
        i = i + 1;
    }
    let summary = summarize(&results);
    PantheonResponse { pantheon: results, summary, timestamp }
}

/// Every configured daemon gets exactly one result, found under its own name,
/// and the counts add up: alive plus down is the total, which is the number
/// of daemons.
pub proof fn lemma_report_covers_every_daemon(
    r: PantheonResponse,
    defs: Seq<DaemonDef>,
    outcomes: Seq<ProbeOutcome>,
    ts: u128,
)
    requires
        outcomes.len() == defs.len(),
        is_report_of(r, defs, outcomes, ts),
    ensures
        r.pantheon.len() == defs.len(),
        forall|i: int| 0 <= i < defs.len() ==> (#[trigger] r.pantheon@[i]).name@ == defs[i].name@,
        r.summary.total == defs.len(),
        r.summary.alive + r.summary.down == r.summary.total,
{
    lemma_count_up_bounded(r.pantheon@);
    assert forall|i: int| 0 <= i < defs.len() implies (#[trigger] r.pantheon@[i]).name@
        == defs[i].name@ by {
        assert(classifies(r.pantheon@[i], defs[i], outcomes[i]));
    }
}

} // verus!
