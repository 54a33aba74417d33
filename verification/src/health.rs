use vstd::prelude::*;

verus! {

/// At most this many health probes may be in flight at once, so a
/// status request never becomes a burst against the backend fleet.
pub const PROBE_CONCURRENCY: usize = 5;

/// Latency threshold separating "nominal" from "degraded" reporting.
pub const LATENCY_THRESHOLD: u128 = 500;

/// How a probed service is reported.
#[derive(Clone, Copy, Debug, PartialEq, Eq, Structural)]
pub enum ServiceStatus {
    /// Reachable, and answered within the latency threshold.
    Nominal,
    /// Reachable, but slower than the latency threshold.
    Degraded,
    /// The probe failed: transport error or non-success status.
    Down,
}

/// Classification of one probe: a transport failure or non-success
/// response is down regardless of elapsed time; a success is nominal
/// within the threshold and degraded above it.
pub open spec fn spec_classify(reachable: bool, elapsed: u128) -> ServiceStatus {
    if !reachable {
        ServiceStatus::Down
    } else if elapsed > LATENCY_THRESHOLD {
        ServiceStatus::Degraded
    } else {
        ServiceStatus::Nominal
    }
}

/// Classify one completed probe.
pub fn classify_probe(reachable: bool, elapsed: u128) -> (s: ServiceStatus)
    ensures
        s == spec_classify(reachable, elapsed),
{
    if !reachable {
        ServiceStatus::Down
    } else if elapsed > LATENCY_THRESHOLD {
        ServiceStatus::Degraded
    } else {
        ServiceStatus::Nominal
    }
}

/// The decimal digit character for `d`.
pub open spec fn dec_digit(d: nat) -> char {
    if d == 0 {
        '0'
    } else if d == 1 {
        '1'
    } else if d == 2 {
        '2'
    } else if d == 3 {
        '3'
    } else if d == 4 {
        '4'
    } else if d == 5 {
        '5'
    } else if d == 6 {
        '6'
    } else if d == 7 {
        '7'
    } else if d == 8 {
        '8'
    } else {
        '9'
    }
}

/// The decimal notation of `n`, most significant digit first.
pub open spec fn dec_str(n: nat) -> Seq<char>
    decreases n,
{
    if n < 10 {
        seq![dec_digit(n)]
    } else {
        dec_str((n / 10) as nat).push(dec_digit((n % 10) as nat))
    }
}

fn digit_str(d: u128) -> (r: &'static str)
    requires
        d < 10,
    ensures
        r@ == seq![dec_digit(d as nat)],
{
    proof {
        reveal_strlit("0");
        reveal_strlit("1");
        reveal_strlit("2");
        reveal_strlit("3");
        reveal_strlit("4");
        reveal_strlit("5");
        reveal_strlit("6");
        reveal_strlit("7");
        reveal_strlit("8");
        reveal_strlit("9");
    }
    if d == 0 {
        "0"
    } else if d == 1 {
        "1"
    } else if d == 2 {
        "2"
    } else if d == 3 {
        "3"
    } else if d == 4 {
        "4"
    } else if d == 5 {
        "5"
    } else if d == 6 {
        "6"
    } else if d == 7 {
        "7"
    } else if d == 8 {
        "8"
    } else {
        "9"
    }
}

/// Write `n` in decimal.
pub fn u128_to_dec(n: u128) -> (r: String)
    ensures
        r@ == dec_str(n as nat),
    decreases n,
{
    if n < 10 {
        let d = digit_str(n);
        d.to_owned()
    } else {
        proof {
            assert(n / 10 < n) by (nonlinear_arith)
                requires
                    n >= 10,
            ;
        }
        let mut s = u128_to_dec(n / 10);
        s.append(digit_str(n % 10));
        proof {
            assert(s@ =~= dec_str(n as nat));
        }
        s
    }
}

#[verifier::external_type_specification]
#[verifier::external_body]
pub struct ExUrl(url::Url);

#[verifier::external_type_specification]
#[verifier::external_body]
pub struct ExClient(reqwest::Client);

/// The word the report uses for a service's reachability.
pub open spec fn status_text(up: bool) -> Seq<char> {
    if up {
        "up"@
    } else {
        "down"@
    }
}

/// The badge class the report uses for a service's latency.
pub open spec fn state_class(elapsed: u128) -> Seq<char> {
    if elapsed > LATENCY_THRESHOLD {
        "text-bg-danger"@
    } else {
        "text-bg-success"@
    }
}

/// One rendered list entry of the health report.
pub open spec fn li_entry(up: bool, name: Seq<char>, elapsed: u128) -> Seq<char> {
    (r##"<li class="list-group-item d-flex justify-content-between align-items-start">
                <div class="ms-2 me-auto">
                    <div class="fw-bold">"##)@ + name + (r##"</div>
                    Service is currently "##)@ + status_text(up) + (r##"
                </div>
                <span class="badge "##)@ + state_class(elapsed) + (r##" rounded-pill">"##)@
        + dec_str(elapsed as nat) + (r##" ms</span>
            </li>"##)@
}

/// Accumulates the health report: a fixed frame around one rendered
/// entry per completed probe, in completion order.
pub struct ListBuilder<'a> {
    pub outer_body: (&'a str, &'a str),
    pub inner_body: String,
}

/// The probe driver's shared state: the catalog entries to probe, as
/// `(base_url, name)` pairs, and the client the probes go out on.
pub struct InferenceServicesHealth<'a> {
    pub services: &'a Vec<(url::Url, String)>,
    pub client: reqwest::Client,
}

impl<'a> InferenceServicesHealth<'a> {
    pub fn new(services: &'a Vec<(url::Url, String)>, client: reqwest::Client) -> (r: Self)
        ensures
            r.services == services,
            r.client == client,
    {
        InferenceServicesHealth { services, client }
    }

    /// A fresh report builder: the fixed frame, and no entries yet.
    pub fn builder(&self) -> (r: ListBuilder<'_>)
        ensures
            r.inner_body@ == Seq::<char>::empty(),
            r.outer_body.0@ == (
            r##"<div class="bd-example m-0 border-0 text-start"><ol class="list-group list-group-flush">"##)@,
            r.outer_body.1@ == (
            r##"</ol></div><button type="button" class="btn btn-primary" hx-get="/pulse/status" hx-target="#status" hx-swap="innerHTML">Refresh Status</button>"##)@,
    {
        let outer_body = (
            r##"<div class="bd-example m-0 border-0 text-start"><ol class="list-group list-group-flush">"##,
            r##"</ol></div><button type="button" class="btn btn-primary" hx-get="/pulse/status" hx-target="#status" hx-swap="innerHTML">Refresh Status</button>"##,
        );
        ListBuilder { outer_body, inner_body: String::new() }
    }
}

impl<'a> ListBuilder<'a> {
    /// Append the rendered entry for one completed probe.
    pub fn add_inner_body(&mut self, up: bool, name: &str, elapsed: u128)
        ensures
            final(self).outer_body == old(self).outer_body,
            final(self).inner_body@ == old(self).inner_body@ + li_entry(up, name@, elapsed),
    {
        self.inner_body.append(
            r##"<li class="list-group-item d-flex justify-content-between align-items-start">
                <div class="ms-2 me-auto">
                    <div class="fw-bold">"##,
        );
        self.inner_body.append(name);
        self.inner_body.append(
            r##"</div>
                    Service is currently "##,
        );
        if up {
            self.inner_body.append("up");
        } else {
            self.inner_body.append("down");
        }
        self.inner_body.append(
            r##"
                </div>
                <span class="badge "##,
        );
        if elapsed > LATENCY_THRESHOLD {
            self.inner_body.append("text-bg-danger");
        } else {
            self.inner_body.append("text-bg-success");
        }
        self.inner_body.append(r##" rounded-pill">"##);
        let dec = u128_to_dec(elapsed);
        self.inner_body.append(dec.as_str());
        self.inner_body.append(
            r##" ms</span>
            </li>"##,
        );
        proof {
            assert(self.inner_body@ =~= old(self).inner_body@ + li_entry(up, name@, elapsed));
        }
    }

    /// The full report: the opening frame, the accumulated entries,
    /// the closing frame.
    pub fn render(&self) -> (r: String)
        ensures
            r@ == self.outer_body.0@ + self.inner_body@ + self.outer_body.1@,
    {
        let mut r = String::from_str(self.outer_body.0);
        r.append(self.inner_body.as_str());
        r.append(self.outer_body.1);
        proof {
            assert(r@ =~= self.outer_body.0@ + self.inner_body@ + self.outer_body.1@);
        }
        r
    }
}

/// The bounded fan-out of health probes, counted: how many probes have
/// been launched and how many have completed. The well-formedness
/// invariant keeps the number in flight within `PROBE_CONCURRENCY` at
/// every reachable state, whatever order completions arrive in.
pub struct ProbePool {
    pub total: usize,
    pub started: usize,
    pub finished: usize,
}

impl ProbePool {
    /// Every probe completes at most once, none is launched twice, and
    /// at most `PROBE_CONCURRENCY` are in flight.
    pub open spec fn wf(&self) -> bool {
        self.finished <= self.started <= self.total && self.started - self.finished
            <= PROBE_CONCURRENCY
    }

    /// How many probes are in flight.
    pub open spec fn in_flight(&self) -> int {
        self.started - self.finished
    }

    pub fn new(total: usize) -> (r: ProbePool)
        ensures
            r.wf(),
            r.total == total,
            r.started == 0,
            r.finished == 0,
    {
        ProbePool { total, started: 0, finished: 0 }
    }

    /// Launch the next probe if one is pending and the bound allows it.
    pub fn try_start(&mut self) -> (launched: bool)
        requires
            old(self).wf(),
        ensures
            final(self).wf(),
            launched == (old(self).started < old(self).total && old(self).in_flight()
                < PROBE_CONCURRENCY),
            launched ==> final(self).started == old(self).started + 1,
            !launched ==> *final(self) == *old(self),
            final(self).finished == old(self).finished,
            final(self).total == old(self).total,
    {
        if self.started < self.total && self.started - self.finished < PROBE_CONCURRENCY {
            self.started = self.started + 1;
            true
        } else {
            false
        }
    }

    /// Record one completion, in whatever order completions arrive.
    pub fn finish(&mut self)
        requires
            old(self).wf(),
            old(self).in_flight() > 0,
        ensures
            final(self).wf(),
            final(self).finished == old(self).finished + 1,
            final(self).started == old(self).started,
            final(self).total == old(self).total,
    {
        self.finished = self.finished + 1;
    }

    /// Bounded concurrency: in every well-formed state, at most
    /// `PROBE_CONCURRENCY` probes are in flight.
    pub proof fn lemma_bounded_in_flight(self)
        requires
            self.wf(),
        ensures
            self.in_flight() <= PROBE_CONCURRENCY,
    {
    }

    /// Progress: while results are still owed, either a probe is in
    /// flight (so a completion is pending) or the next probe may be
    /// launched at once.
    pub proof fn lemma_progress(self)
        requires
            self.wf(),
            self.finished < self.total,
        ensures
            self.in_flight() > 0 || (self.started < self.total && self.in_flight()
                < PROBE_CONCURRENCY),
    {
    }

    /// Completion: once every probe has been launched and none is left
    /// in flight, each of the `total` probes has completed exactly once.
    pub proof fn lemma_all_results_once(self)
        requires
            self.wf(),
            self.started == self.total,
            self.in_flight() == 0,
        ensures
            self.finished == self.total,
    {
    }
}

} // verus!
