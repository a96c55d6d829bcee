//! The decisions behind starting and stopping the listeners: which ports a
//! start binds, which generation of listeners is current, and when an
//! accept loop ends.

use vstd::prelude::*;

verus! {

/// Why a start did not bring up any listener.
#[derive(Debug)]
pub enum StartupError {
    /// The port list was empty.
    NoPorts,
    /// Binding the loopback address on `port` failed, for `reason`.
    Bind { port: u16, reason: String },
}

impl StartupError {
    /// A human-readable account of the error.
    pub fn message(&self) -> (r: String)
        ensures
            self is NoPorts ==> r@ == "No proxy ports provided"@,
            self matches StartupError::Bind { port, reason } ==> r@ == reason@,
    {
        match self {
            StartupError::NoPorts => String::from_str("No proxy ports provided"),
            StartupError::Bind { reason, .. } => reason.clone(),
        }
    }
}

/// Every element of `s` is below the next.
pub open spec fn strictly_increasing(s: Seq<u16>) -> bool {
    forall|i: int, j: int| 0 <= i < j < s.len() ==> s[i] < s[j]
}

/// `a` and `b` hold the same ports, whatever their order or repetitions.
pub open spec fn same_ports(a: Seq<u16>, b: Seq<u16>) -> bool {
    forall|p: u16| a.contains(p) <==> b.contains(p)
}

/// The ports that a start binds, in the order it binds them: the distinct
/// ports of `ports`, in increasing order. An empty list is refused.
pub fn listen_ports(ports: &Vec<u16>) -> (r: Result<Vec<u16>, StartupError>)
    ensures
        ports@.len() == 0 <==> r is Err,
        r matches Err(e) ==> e is NoPorts,
        r matches Ok(v) ==> strictly_increasing(v@) && same_ports(v@, ports@),
{
    if ports.len() == 0 {
        return Err(StartupError::NoPorts);
    }
    let mut out: Vec<u16> = Vec::new();
    let n = ports.len();
    let mut i: usize = 0;
    while i < n
        invariant
            n == ports@.len(),
            i <= n,
            strictly_increasing(out@),
            same_ports(out@, ports@.subrange(0, i as int)),
        decreases n - i,
    {
        let p = ports[i];
        let mut j: usize = 0;
        while j < out.len() && out[j] < p
            invariant
                j <= out@.len(),
                forall|k: int| 0 <= k < j ==> out@[k] < p,
            decreases out@.len() - j,
        {
            j = j + 1;
        }
        let ghost before = out@;
        if j < out.len() && out[j] == p {
            assert(before.contains(p));
        } else {
            out.insert(j, p);
            assert(strictly_increasing(out@)) by {
                assert forall|a: int, b: int| 0 <= a < b < out@.len() implies out@[a] < out@[b] by {
                    if b < j {
                        assert(out@[a] == before[a] && out@[b] == before[b]);
                    } else if b == j {
                        assert(out@[a] == before[a]);
                    } else if a < j {
                        assert(out@[a] == before[a] && out@[b] == before[b - 1]);
                        assert(before[b - 1] >= p);
                    } else if a == j {
                        assert(out@[b] == before[b - 1]);
                        assert(before[j as int] > p);
                        assert(before[j as int] <= before[b - 1]);
                    } else {
                        assert(out@[a] == before[a - 1] && out@[b] == before[b - 1]);
                    }
                }
            }
            assert forall|q: u16| out@.contains(q) <==> (before.contains(q) || q == p) by {
                if out@.contains(q) {
                    let k = choose|k: int| 0 <= k < out@.len() && out@[k] == q;
                    if k < j {
                        assert(before[k] == q);
                    } else if k > j {
                        assert(before[k - 1] == q);
                    }
                }
                if before.contains(q) {
                    let k = choose|k: int| 0 <= k < before.len() && before[k] == q;
                    if k < j {
                        assert(out@[k] == q);
                    } else {
                        assert(out@[k + 1] == q);
                    }
                }
                if q == p {
                    assert(out@[j as int] == p);
                }
            }
        }
        let ghost grown = ports@.subrange(0, i + 1);
        let ghost seen = ports@.subrange(0, i as int);
        assert forall|q: u16| grown.contains(q) <==> (seen.contains(q) || q == p) by {
            if grown.contains(q) {
                let k = choose|k: int| 0 <= k < grown.len() && grown[k] == q;
                if k < i {
                    assert(seen[k] == q);
                }
            }
            if seen.contains(q) {
                let k = choose|k: int| 0 <= k < seen.len() && seen[k] == q;
                assert(grown[k] == q);
            }
            if q == p {
                assert(grown[i as int] == p);
            }
        }
        i = i + 1;
    }
    assert(ports@.subrange(0, n as int) =~= ports@);
    Ok(out)
}

/// The binding step of one start: the ports to bind, in order, and how far
/// binding has come. Binding is all or nothing: after one failure no
/// further port is offered and the start is abandoned.
pub struct StartPlan {
    ports: Vec<u16>,
    bound: usize,
    failed: bool,
}

/// The abstract state of a `StartPlan`.
pub struct StartPlanState {
    pub ports: Seq<u16>,
    pub bound: nat,
    pub failed: bool,
}

impl View for StartPlan {
    type V = StartPlanState;

    closed spec fn view(&self) -> StartPlanState {
        StartPlanState { ports: self.ports@, bound: self.bound as nat, failed: self.failed }
    }
}

impl StartPlanState {
    /// Binding has not run past the end of the port list.
    pub open spec fn wf(self) -> bool {
        self.bound <= self.ports.len()
    }

    /// The port to bind next, if binding goes on.
    pub open spec fn next(self) -> Option<u16> {
        if !self.failed && self.bound < self.ports.len() {
            Some(self.ports[self.bound as int])
        } else {
            None
        }
    }
}

impl StartPlan {
    /// The plan for a start on `ports` (see `listen_ports`): nothing bound yet.
    pub fn new(ports: &Vec<u16>) -> (r: Result<StartPlan, StartupError>)
        ensures
            ports@.len() == 0 <==> r is Err,
            r matches Err(e) ==> e is NoPorts,
            r matches Ok(p) ==> {
                &&& strictly_increasing(p@.ports)
                &&& same_ports(p@.ports, ports@)
                &&& p@.bound == 0
                &&& !p@.failed
                &&& p@.wf()
            },
    {
        match listen_ports(ports) {
            Ok(v) => Ok(StartPlan { ports: v, bound: 0, failed: false }),
            Err(e) => Err(e),
        }
    }

    /// The port to bind next, or `None` once every port is bound or a bind
    /// has failed.
    pub fn next_port(&self) -> (r: Option<u16>)
        requires
            self@.wf(),
        ensures
            r == self@.next(),
    {
        if !self.failed && self.bound < self.ports.len() {
            Some(self.ports[self.bound])
        } else {
            None
        }
    }

    /// Records that the port offered by `next_port` is bound.
    pub fn bound(&mut self)
        requires
            old(self)@.wf(),
            old(self)@.next() is Some,
        ensures
            final(self)@ == (StartPlanState { bound: old(self)@.bound + 1, ..old(self)@ }),
            final(self)@.wf(),
    {
        let n = self.ports.len();
        assert(self.bound < n);
        self.bound = self.bound + 1;
    }

    /// Records that binding the port offered by `next_port` failed for
    /// `reason`; the start fails with that port and reason, and nothing
    /// further is offered.
    pub fn bind_failed(&mut self, reason: String) -> (r: StartupError)
        requires
            old(self)@.wf(),
            old(self)@.next() is Some,
        ensures
            final(self)@ == (StartPlanState { failed: true, ..old(self)@ }),
            final(self)@.next() is None,
            r matches StartupError::Bind { port, reason: why } && old(self)@.next() == Some(port) && why@ == reason@,
    {
        let port = self.ports[self.bound];
        self.failed = true;
        StartupError::Bind { port, reason }
    }

    /// Whether every port is bound, so that the generation may begin.
    pub fn complete(&self) -> (r: bool)
        requires
            self@.wf(),
        ensures
            r == (!self@.failed && self@.bound == self@.ports.len()),
    {
        !self.failed && self.bound == self.ports.len()
    }

    /// How many ports are bound so far.
    pub fn bound_count(&self) -> (r: usize)
        ensures
            r == self@.bound,
    {
        self.bound
    }
}

/// The abstract state of the listener generations, numbered from zero in
/// the order they were started: the one that is current, if any, and how
/// many have been started.
pub struct GenerationState {
    pub current: Option<nat>,
    pub started: nat,
}

impl GenerationState {
    /// The current generation is one that was started.
    pub open spec fn wf(self) -> bool {
        self.current matches Some(g) ==> g < self.started
    }

    /// Generation `g` was started and has since been told to stop.
    pub open spec fn stop_requested(self, g: nat) -> bool {
        g < self.started && self.current != Some(g)
    }
}

/// The state after a start: a fresh generation becomes current.
pub open spec fn begin_spec(s: GenerationState) -> GenerationState {
    GenerationState { current: Some(s.started), started: s.started + 1 }
}

/// The state after a stop: no generation is current.
pub open spec fn stop_spec(s: GenerationState) -> GenerationState {
    GenerationState { current: None, started: s.started }
}

/// Which generation of listeners is current. Each generation has its own
/// shutdown signal; a start retires the current one, a stop fires it. The
/// numbering exists only in the proofs: at run time the one fact kept is
/// whether a generation is current.
pub struct Generations {
    active: bool,
    started: Ghost<nat>,
}

impl View for Generations {
    type V = GenerationState;

    closed spec fn view(&self) -> GenerationState {
        GenerationState {
            current: if self.active { Some((self.started@ - 1) as nat) } else { None },
            started: self.started@,
        }
    }
}

impl Generations {
    /// No generation started yet.
    pub fn new() -> (r: Generations)
        ensures
            r@ == (GenerationState { current: None, started: 0 }),
            r@.wf(),
    {
        Generations { active: false, started: Ghost(0) }
    }

    /// Whether a generation is current.
    pub fn is_active(&self) -> (r: bool)
        ensures
            r == self@.current is Some,
    {
        self.active
    }

    /// Begins a new generation, which becomes current. The result says
    /// whether a generation was current before, which must now be told to
    /// stop.
    pub fn begin(&mut self) -> (retire: bool)
        requires
            old(self)@.wf(),
        ensures
            final(self)@ == begin_spec(old(self)@),
            final(self)@.wf(),
            retire == old(self)@.current is Some,
    {
        let retire = self.active;
        self.active = true;
        self.started = Ghost(self.started@ + 1);
        retire
    }

    /// Ends the current generation, if any. The result says whether there
    /// was one, which must now be told to stop. Stopping twice is the same
    /// as stopping once.
    pub fn stop(&mut self) -> (r: bool)
        requires
            old(self)@.wf(),
        ensures
            final(self)@ == stop_spec(old(self)@),
            final(self)@.wf(),
            r == old(self)@.current is Some,
    {
        let r = self.active;
        self.active = false;
        r
    }
}

/// What an accept loop has just observed.
#[derive(Clone, Copy, Debug, PartialEq, Eq, Structural)]
pub enum AcceptEvent {
    /// Its generation's shutdown signal changed, to the value given.
    Signal(bool),
    /// Its generation's shutdown signal can no longer change.
    SignalGone,
    /// A client connected.
    Connection,
    /// Accepting failed; the listener itself is still usable.
    AcceptError,
}

/// What an accept loop does next.
#[derive(Clone, Copy, Debug, PartialEq, Eq, Structural)]
pub enum AcceptAction {
    /// Leave the loop: the generation is over.
    Exit,
    /// Serve the new connection on a task of its own, then keep accepting.
    Serve,
    /// Keep accepting.
    Continue,
}

/// The accept loop's reaction to each event.
pub open spec fn accept_step_spec(ev: AcceptEvent) -> AcceptAction {
    match ev {
        AcceptEvent::Signal(stop) => if stop { AcceptAction::Exit } else { AcceptAction::Continue },
        AcceptEvent::SignalGone => AcceptAction::Exit,
        AcceptEvent::Connection => AcceptAction::Serve,
        AcceptEvent::AcceptError => AcceptAction::Continue,
    }
}

/// Decides what an accept loop does after `ev`.
pub fn accept_step(ev: AcceptEvent) -> (r: AcceptAction)
    ensures
        r == accept_step_spec(ev),
{
    match ev {
        AcceptEvent::Signal(stop) => if stop { AcceptAction::Exit } else { AcceptAction::Continue },
        AcceptEvent::SignalGone => AcceptAction::Exit,
        AcceptEvent::Connection => AcceptAction::Serve,
        AcceptEvent::AcceptError => AcceptAction::Continue,
    }
}

} // verus!
