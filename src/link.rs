//! The connection supervisor: which port to probe, which transport to open,
//! when to poll, back off or start over. It decides only; the caller performs
//! each action and reports what happened as the next event.
use vstd::prelude::*;

verus! {

/// Timeout of one health probe.
pub const PROBE_TIMEOUT_MS: u64 = 2000;

/// Timeout for opening the stream.
pub const STREAM_TIMEOUT_MS: u64 = 5000;

/// Pause before each poll.
pub const POLL_INTERVAL_MS: u64 = 1000;

/// Timeout of one poll.
pub const POLL_TIMEOUT_MS: u64 = 3000;

/// Pause after a poll could not reach the source.
pub const BACKOFF_MS: u64 = 10000;

/// Pause before starting over once the stream ended.
pub const RESTART_DELAY_MS: u64 = 5000;

/// Number of candidate ports.
pub const CANDIDATE_COUNT: usize = 2;

/// The candidate ports, in the order they are probed.
pub open spec fn candidate(i: int) -> Seq<char> {
    if i == 0 {
        "5001"@
    } else {
        "5000"@
    }
}

pub open spec fn is_candidate(p: Seq<char>) -> bool {
    exists|i: int| 0 <= i < CANDIDATE_COUNT && #[trigger] candidate(i) == p
}

/// The port of the unrelated main server, which is never contacted.
pub open spec fn reserved_port() -> Seq<char> {
    "8001"@
}

/// The port used when no candidate answers and nothing else is configured.
pub open spec fn default_port() -> Seq<char> {
    "5001"@
}

/// The port used when no candidate answered the probes: the configured one,
/// unless it is absent or the reserved port.
pub open spec fn fallback_port(configured: Option<String>) -> Seq<char> {
    match configured {
        Some(p) => if p@ != reserved_port() {
            p@
        } else {
            default_port()
        },
        None => default_port(),
    }
}

/// The action contacts no port but candidates and configured ones, and
/// never the reserved port.
pub open spec fn avoids_reserved(a: Action) -> bool {
    match a {
        Action::Probe { port, .. } => is_candidate(port@) && port@ != reserved_port(),
        Action::OpenStream { port, .. } => port@ != reserved_port(),
        Action::Poll { port, .. } => port@ != reserved_port(),
        _ => true,
    }
}

/// No candidate and not the default port is the reserved port.
pub proof fn lemma_candidates_not_reserved()
    ensures
        forall|i: int| 0 <= i < CANDIDATE_COUNT ==> #[trigger] candidate(i) != reserved_port(),
        default_port() != reserved_port(),
{
    reveal_strlit("5001");
    reveal_strlit("5000");
    reveal_strlit("8001");
    assert("5001"@[0] != "8001"@[0]);
    assert("5000"@[0] != "8001"@[0]);
}

/// The first candidate at or after index `j` other than `port`.
pub open spec fn other_from(port: Seq<char>, j: int) -> Option<int>
    decreases CANDIDATE_COUNT - j,
{
    if j < 0 || j >= CANDIDATE_COUNT {
        None
    } else if candidate(j) != port {
        Some(j)
    } else {
        other_from(port, j + 1)
    }
}

/// A candidate found from index `j` lies at or after `j`.
pub proof fn lemma_other_in_range(port: Seq<char>, j: int)
    ensures
        other_from(port, j) matches Some(k) ==> j <= k < CANDIDATE_COUNT,
    decreases CANDIDATE_COUNT - j,
{
    if 0 <= j < CANDIDATE_COUNT && candidate(j) == port {
        lemma_other_in_range(port, j + 1);
    }
}

pub enum Phase {
    /// Probing candidate `next` for a first connection.
    Probing { next: usize },
    /// Opening the stream on `port`.
    Opening { port: String },
    /// Reading the stream from `port`.
    Streaming { port: String },
    /// Polling `port`.
    Polling { port: String },
    /// A poll on `port` failed; probing candidate `next` instead.
    Reprobing { port: String, next: usize },
    /// Pausing before polling `port` again.
    Backoff { port: String },
    /// Pausing before starting over.
    Restarting,
}

pub enum Event {
    /// A probe got a success status.
    ProbeAnswered,
    /// A probe failed or got another status.
    ProbeFailed,
    /// The stream is open with a success status.
    StreamOpened,
    /// The stream could not be opened, or not with a success status.
    StreamRefused,
    /// The stream ended or failed.
    StreamEnded,
    /// A poll got a success status.
    PollAnswered,
    /// A poll could not reach the source or got another status.
    PollFailed,
    /// A pause is over.
    Waited,
}

pub enum Action {
    Probe { port: String, timeout_ms: u64 },
    OpenStream { port: String, timeout_ms: u64 },
    /// Read the open stream until it ends.
    ReadStream,
    /// Pause `delay_ms`, then poll `port`.
    Poll { port: String, delay_ms: u64, timeout_ms: u64 },
    Wait { ms: u64 },
}

/// What the status line should say, besides the action.
pub enum Notice {
    Quiet,
    /// A candidate answered: connected to `port`.
    Connected { port: String },
    /// No candidate answered.
    Searching,
    /// A poll could not reach the source.
    Unreachable,
}

pub struct Step {
    pub notice: Notice,
    pub action: Action,
}

pub struct Supervisor {
    pub phase: Phase,
    /// The configured port to use when no candidate answers.
    pub configured: Option<String>,
}

pub open spec fn probes(r: Step, k: int) -> bool {
    r.action matches Action::Probe { port, timeout_ms } && port@ == candidate(k) && timeout_ms
        == PROBE_TIMEOUT_MS
}

pub open spec fn opens(r: Step, p: Seq<char>) -> bool {
    r.action matches Action::OpenStream { port, timeout_ms } && port@ == p && timeout_ms
        == STREAM_TIMEOUT_MS
}

pub open spec fn polls(r: Step, p: Seq<char>) -> bool {
    r.action matches Action::Poll { port, delay_ms, timeout_ms } && port@ == p && delay_ms
        == POLL_INTERVAL_MS && timeout_ms == POLL_TIMEOUT_MS
}

pub open spec fn waits(r: Step, ms: u64) -> bool {
    r.action matches Action::Wait { ms: m } && m == ms
}

pub open spec fn quiet(r: Step) -> bool {
    r.notice is Quiet
}

/// Starting over: probe the first candidate.
pub open spec fn restarts(q: Phase, r: Step) -> bool {
    q == Phase::Probing { next: 0 } && quiet(r) && probes(r, 0)
}

/// After a failed probe for `port`, from candidate index `j` on.
pub open spec fn reprobes(port: String, j: int, q: Phase, r: Step) -> bool {
    match other_from(port@, j) {
        Some(k) => q == (Phase::Reprobing { port, next: k as usize }) && probes(r, k),
        None => q == (Phase::Backoff { port }) && waits(r, BACKOFF_MS),
    }
}

/// From phase `p`, event `e` leads to phase `q` and step `r`.
pub open spec fn transition(p: Phase, configured: Option<String>, e: Event, q: Phase, r: Step) -> bool {
    match (p, e) {
        (Phase::Probing { next }, Event::ProbeAnswered) => {
            &&& q matches Phase::Opening { port } && port@ == candidate(next as int)
            &&& r.notice matches Notice::Connected { port } && port@ == candidate(next as int)
            &&& opens(r, candidate(next as int))
        },
        (Phase::Probing { next }, Event::ProbeFailed) => if next + 1 < CANDIDATE_COUNT {
            q == (Phase::Probing { next: (next + 1) as usize }) && quiet(r) && probes(
                r,
                next + 1,
            )
        } else {
            &&& q matches Phase::Opening { port } && port@ == fallback_port(configured)
            &&& r.notice is Searching
            &&& opens(r, fallback_port(configured))
        },
        (Phase::Opening { port }, Event::StreamOpened) => {
            q == (Phase::Streaming { port }) && quiet(r) && r.action is ReadStream
        },
        (Phase::Opening { port }, Event::StreamRefused) => {
            q == (Phase::Polling { port }) && quiet(r) && polls(r, port@)
        },
        (Phase::Streaming { .. }, Event::StreamEnded) => {
            q == Phase::Restarting && quiet(r) && waits(r, RESTART_DELAY_MS)
        },
        (Phase::Restarting, Event::Waited) => restarts(q, r),
        (Phase::Polling { port }, Event::PollAnswered) => {
            q == (Phase::Polling { port }) && quiet(r) && polls(r, port@)
        },
        (Phase::Polling { port }, Event::PollFailed) => {
            r.notice is Unreachable && reprobes(port, 0, q, r)
        },
        (Phase::Reprobing { port, next }, Event::ProbeAnswered) => {
            &&& q matches Phase::Backoff { port } && port@ == candidate(next as int)
            &&& quiet(r)
            &&& waits(r, BACKOFF_MS)
        },
        (Phase::Reprobing { port, next }, Event::ProbeFailed) => {
            quiet(r) && reprobes(port, next + 1, q, r)
        },
        (Phase::Backoff { port }, Event::Waited) => {
            q == (Phase::Polling { port }) && quiet(r) && polls(r, port@)
        },
        _ => restarts(q, r),
    }
}

/// The candidate port at index `i`.
pub fn candidate_port(i: usize) -> (r: String)
    requires
        i < CANDIDATE_COUNT,
    ensures
        r@ == candidate(i as int),
{
    if i == 0 {
        "5001".to_string()
    } else {
        "5000".to_string()
    }
}

fn other_candidate(port: &String, j: usize) -> (r: Option<usize>)
    requires
        j <= CANDIDATE_COUNT,
    ensures
        match other_from(port@, j as int) {
            Some(k) => r == Some(k as usize) && j <= k < CANDIDATE_COUNT,
            None => r is None,
        },
{
    proof {
        lemma_other_in_range(port@, j as int);
    }
    let mut k = j;
    while k < CANDIDATE_COUNT
        invariant
            j <= k <= CANDIDATE_COUNT,
            other_from(port@, j as int) == other_from(port@, k as int),
        decreases CANDIDATE_COUNT - k,
    {
        let c = candidate_port(k);
        if c != *port {
            return Some(k);
        }
        k = k + 1;
    }
    None
}

fn probe_step(k: usize) -> (r: Step)
    requires
        k < CANDIDATE_COUNT,
    ensures
        quiet(r),
        probes(r, k as int),
{
    Step { notice: Notice::Quiet, action: Action::Probe { port: candidate_port(k), timeout_ms: PROBE_TIMEOUT_MS } }
}

fn poll_step(port: &String) -> (r: Step)
    ensures
        quiet(r),
        polls(r, port@),
{
    Step {
        notice: Notice::Quiet,
        action: Action::Poll {
            port: port.clone(),
            delay_ms: POLL_INTERVAL_MS,
            timeout_ms: POLL_TIMEOUT_MS,
        },
    }
}

fn reprobe(port: String, j: usize, notice: Notice) -> (r: (Phase, Step))
    requires
        j <= CANDIDATE_COUNT,
    ensures
        r.1.notice == notice,
        reprobes(port, j as int, r.0, r.1),
        r.0 matches Phase::Reprobing { next, .. } ==> next < CANDIDATE_COUNT,
{
    match other_candidate(&port, j) {
        Some(k) => {
            let s = probe_step(k);
            (Phase::Reprobing { port, next: k }, Step { notice, action: s.action })
        },
        None => (Phase::Backoff { port }, Step { notice, action: Action::Wait { ms: BACKOFF_MS } }),
    }
}

impl Supervisor {
    /// The supervisor's phase indices name candidates, and no port it
    /// holds is the reserved port.
    pub open spec fn wf(&self) -> bool {
        match self.phase {
            Phase::Probing { next } => next < CANDIDATE_COUNT,
            Phase::Reprobing { port, next } => next < CANDIDATE_COUNT && port@ != reserved_port(),
            Phase::Opening { port } => port@ != reserved_port(),
            Phase::Streaming { port } => port@ != reserved_port(),
            Phase::Polling { port } => port@ != reserved_port(),
            Phase::Backoff { port } => port@ != reserved_port(),
            Phase::Restarting => true,
        }
    }

    /// A supervisor about to probe the first candidate, with the step that
    /// does so; `configured` is the port to fall back on.
    pub fn start(configured: Option<String>) -> (r: (Supervisor, Step))
        ensures
            r.0.wf(),
            r.0.configured == configured,
            restarts(r.0.phase, r.1),
            avoids_reserved(r.1.action),
    {
        proof {
            lemma_candidates_not_reserved();
            assert(is_candidate(candidate(0)));
        }
        (Supervisor { phase: Phase::Probing { next: 0 }, configured }, probe_step(0))
    }

    /// Moves to the next phase on event `e` and says what to do next.
    pub fn step(&mut self, e: Event) -> (r: Step)
        requires
            old(self).wf(),
        ensures
            final(self).wf(),
            final(self).configured == old(self).configured,
            transition(old(self).phase, old(self).configured, e, final(self).phase, r),
            avoids_reserved(r.action),
    {
        proof {
            lemma_candidates_not_reserved();
        }
        let ghost p0 = self.phase;
        let mut phase = Phase::Restarting;
        core::mem::swap(&mut phase, &mut self.phase);
        let (next, r) = match (phase, e) {
            (Phase::Probing { next }, Event::ProbeAnswered) => {
                let port = candidate_port(next);
                let shown = port.clone();
                let action = Action::OpenStream { port: port.clone(), timeout_ms: STREAM_TIMEOUT_MS };
                (Phase::Opening { port }, Step { notice: Notice::Connected { port: shown }, action })
            },
            (Phase::Probing { next }, Event::ProbeFailed) => {
                if next + 1 < CANDIDATE_COUNT {
                    (Phase::Probing { next: next + 1 }, probe_step(next + 1))
                } else {
                    let reserved = "8001".to_string();
                    let port = match &self.configured {
                        Some(p) => if *p != reserved {
                            p.clone()
                        } else {
                            "5001".to_string()
                        },
                        None => "5001".to_string(),
                    };
                    let action = Action::OpenStream { port: port.clone(), timeout_ms: STREAM_TIMEOUT_MS };
                    (Phase::Opening { port }, Step { notice: Notice::Searching, action })
                }
            },
            (Phase::Opening { port }, Event::StreamOpened) => {
                (Phase::Streaming { port }, Step { notice: Notice::Quiet, action: Action::ReadStream })
            },
            (Phase::Opening { port }, Event::StreamRefused) => {
                let s = poll_step(&port);
                (Phase::Polling { port }, s)
            },
            (Phase::Streaming { .. }, Event::StreamEnded) => {
                (Phase::Restarting, Step { notice: Notice::Quiet, action: Action::Wait { ms: RESTART_DELAY_MS } })
            },
            (Phase::Polling { port }, Event::PollAnswered) => {
                let s = poll_step(&port);
                (Phase::Polling { port }, s)
            },
            (Phase::Polling { port }, Event::PollFailed) => reprobe(port, 0, Notice::Unreachable),
            (Phase::Reprobing { next, .. }, Event::ProbeAnswered) => {
                (Phase::Backoff { port: candidate_port(next) }, Step { notice: Notice::Quiet, action: Action::Wait { ms: BACKOFF_MS } })
            },
            (Phase::Reprobing { port, next }, Event::ProbeFailed) => reprobe(port, next + 1, Notice::Quiet),
            (Phase::Backoff { port }, Event::Waited) => {
                let s = poll_step(&port);
                (Phase::Polling { port }, s)
            },
            _ => (Phase::Probing { next: 0 }, probe_step(0)),
        };
        self.phase = next;
        proof {
            lemma_never_contacts_reserved(p0, self.configured, e, self.phase, r);
        }
        r
    }
}

/// Whatever port is configured, no action of the supervisor contacts the
/// reserved port of the main server, and every probe goes to a candidate.
pub proof fn lemma_never_contacts_reserved(
    p: Phase,
    configured: Option<String>,
    e: Event,
    q: Phase,
    r: Step,
)
    requires
        (Supervisor { phase: p, configured }).wf(),
        transition(p, configured, e, q, r),
    ensures
        avoids_reserved(r.action),
        (Supervisor { phase: q, configured }).wf(),
{
    lemma_candidates_not_reserved();
    match (p, e) {
        (Phase::Polling { port }, Event::PollFailed) => {
            lemma_other_in_range(port@, 0);
        },
        (Phase::Reprobing { port, next }, Event::ProbeFailed) => {
            lemma_other_in_range(port@, next + 1);
        },
        _ => {},
    }
    if r.action is Probe {
        let k = choose|k: int| 0 <= k < CANDIDATE_COUNT && probes(r, k);
        assert(is_candidate(candidate(k)));
    }
}

/// A poll that got a success status keeps the supervisor polling the same
/// port, whatever the body held.
pub proof fn lemma_answered_poll_keeps_polling(
    port: String,
    configured: Option<String>,
    q: Phase,
    r: Step,
)
    requires
        transition(Phase::Polling { port }, configured, Event::PollAnswered, q, r),
    ensures
        q == (Phase::Polling { port }),
        polls(r, port@),
        quiet(r),
{
}

} // verus!
