use vstd::prelude::*;
use vstd::string::StrSliceExecFns;

verus! {

/// How a backend is started: as a plumber API or as a shiny application.
#[derive(Clone, Copy, Debug, PartialEq, Eq, Structural)]
pub enum WorkerType {
    Plumber,
    Shiny,
}

/// The decimal digits of `n`, most significant first, without leading zeros.
pub open spec fn decimal(n: nat) -> Seq<char>
    decreases n,
{
    if n < 10 {
        seq!["0123456789"@[n as int]]
    } else {
        decimal(n / 10).push("0123456789"@[(n % 10) as int])
    }
}

/// Appends the characters of `s` to `out`.
fn push_text(out: &mut Vec<char>, s: &str)
    ensures
        final(out)@ == old(out)@ + s@,
{
    let n = s.unicode_len();
    let mut i: usize = 0;
    while i < n
        invariant
            n == s@.len(),
            i <= n,
            out@ == old(out)@ + s@.subrange(0, i as int),
        decreases n - i,
    {
        out.push(s.get_char(i));
        assert(s@.subrange(0, i + 1) =~= s@.subrange(0, i as int).push(s@[i as int]));
        i = i + 1;
    }
    assert(s@.subrange(0, n as int) =~= s@);
}

/// Appends the decimal digits of `n` to `out`.
fn push_decimal(out: &mut Vec<char>, n: u16)
    ensures
        final(out)@ == old(out)@ + decimal(n as nat),
    decreases n,
{
    proof {
        reveal_strlit("0123456789");
    }
    if n >= 10 {
        push_decimal(out, n / 10);
    }
    out.push("0123456789".get_char((n % 10) as usize));
    assert(n < 10 ==> n % 10 == n);
    assert(out@ =~= old(out)@ + decimal(n as nat));
}

impl WorkerType {
    /// The R option that sets the backend's port, as text.
    pub open spec fn port_option_text(self) -> Seq<char> {
        match self {
            WorkerType::Plumber => "plumber.port"@,
            WorkerType::Shiny => "shiny.port"@,
        }
    }

    /// The R expression that starts the backend, as text.
    pub open spec fn entry_text(self) -> Seq<char> {
        match self {
            WorkerType::Plumber => "source(\"plumber.R\")"@,
            WorkerType::Shiny => "shiny::runApp()"@,
        }
    }

    /// The R script a backend runs: set the port option, then start the backend.
    pub open spec fn launch_text(self, port: u16) -> Seq<char> {
        "options(\""@ + self.port_option_text() + "\" = "@ + decimal(port as nat) + ")\n"@
            + self.entry_text() + "\n"@
    }

    /// The R option that sets the port the backend listens on.
    pub fn port_option(self) -> (r: &'static str)
        ensures
            r@ == self.port_option_text(),
    {
        match self {
            WorkerType::Plumber => "plumber.port",
            WorkerType::Shiny => "shiny.port",
        }
    }

    /// The R expression that starts the backend in its working directory.
    pub fn entry_expr(self) -> (r: &'static str)
        ensures
            r@ == self.entry_text(),
    {
        match self {
            WorkerType::Plumber => "source(\"plumber.R\")",
            WorkerType::Shiny => "shiny::runApp()",
        }
    }

    /// The script passed to `Rscript -e` for a backend listening on `port`.
    pub fn launch_script(self, port: u16) -> (r: Vec<char>)
        ensures
            r@ == self.launch_text(port),
    {
        let mut out: Vec<char> = Vec::new();
        push_text(&mut out, "options(\"");
        push_text(&mut out, self.port_option());
        push_text(&mut out, "\" = ");
        push_decimal(&mut out, port);
        push_text(&mut out, ")\n");
        push_text(&mut out, self.entry_expr());
        push_text(&mut out, "\n");
        assert(out@ =~= self.launch_text(port));
        out
    }
}

/// Whether a worker still keeps its process alive.
#[derive(Clone, Copy, Debug, PartialEq, Eq, Structural)]
pub enum SupervisorState {
    Running,
    Stopped,
}

/// What the supervisor asks for once the current process is gone.
#[derive(Clone, Copy, Debug, PartialEq, Eq, Structural)]
pub enum SupervisorAction {
    /// Start a new process listening on `port`.
    Respawn { port: u16 },
    /// Start nothing and end the supervision.
    Exit,
}

/// The decisions of one worker's supervision loop: each time its process exits
/// (or a new one fails to start) the stop flag is read, and the worker either
/// ends or starts a replacement on the same port.
#[derive(Clone, Copy, Debug, PartialEq, Eq, Structural)]
pub struct Supervisor {
    pub port: u16,
    pub state: SupervisorState,
}

/// The state and action after the process of `s` is gone, with the stop flag
/// reading `stop_requested`.
pub open spec fn supervise_step(s: Supervisor, stop_requested: bool) -> (Supervisor, SupervisorAction) {
    if stop_requested || s.state == SupervisorState::Stopped {
        (Supervisor { state: SupervisorState::Stopped, ..s }, SupervisorAction::Exit)
    } else {
        (s, SupervisorAction::Respawn { port: s.port })
    }
}

/// The actions taken over a run where the stop flag reads `flags[0]`, `flags[1]`,
/// ... at the successive exits.
pub open spec fn supervise_run(s: Supervisor, flags: Seq<bool>) -> Seq<SupervisorAction>
    decreases flags.len(),
{
    if flags.len() == 0 {
        Seq::empty()
    } else {
        let (t, a) = supervise_step(s, flags[0]);
        seq![a] + supervise_run(t, flags.drop_first())
    }
}

impl Supervisor {
    /// A running supervisor for a worker on `port`.
    pub fn new(port: u16) -> (r: Supervisor)
        ensures
            r.port == port,
            r.state == SupervisorState::Running,
    {
        Supervisor { port, state: SupervisorState::Running }
    }

    /// Stops the supervision for good; the port is kept.
    pub fn stop(&mut self)
        ensures
            final(self).port == old(self).port,
            final(self).state == SupervisorState::Stopped,
    {
        self.state = SupervisorState::Stopped;
    }

    /// Decides what follows the end of the current process. The stop flag is read
    /// before any respawn: once it is set, or the supervisor is stopped, nothing
    /// more is started.
    pub fn on_exit(&mut self, stop_requested: bool) -> (r: SupervisorAction)
        ensures
            (*final(self), r) == supervise_step(*old(self), stop_requested),
    {
        if stop_requested || self.state == SupervisorState::Stopped {
            self.state = SupervisorState::Stopped;
            SupervisorAction::Exit
        } else {
            SupervisorAction::Respawn { port: self.port }
        }
    }
}

/// Once the stop flag has been seen, or the supervisor is stopped, no later exit
/// leads to a respawn: every action is `Exit`.
pub proof fn lemma_stopped_never_respawns(s: Supervisor, flags: Seq<bool>)
    requires
        s.state == SupervisorState::Stopped || (flags.len() > 0 && flags[0]),
    ensures
        supervise_run(s, flags).len() == flags.len(),
        forall|i: int| 0 <= i < flags.len() ==> #[trigger] supervise_run(s, flags)[i] == SupervisorAction::Exit,
    decreases flags.len(),
{
    if flags.len() > 0 {
        let (t, a) = supervise_step(s, flags[0]);
        assert(t.state == SupervisorState::Stopped);
        lemma_stopped_never_respawns(t, flags.drop_first());
        assert forall|i: int| 0 <= i < flags.len() implies #[trigger] supervise_run(s, flags)[i]
            == SupervisorAction::Exit by {
            if i > 0 {
                assert(supervise_run(s, flags)[i] == supervise_run(t, flags.drop_first())[i - 1]);
            }
        }
    }
}

/// While the stop flag stays clear, every exit of a running worker's process
/// leads to a respawn on the worker's own port.
pub proof fn lemma_respawn_keeps_port(s: Supervisor, flags: Seq<bool>)
    requires
        s.state == SupervisorState::Running,
        forall|i: int| 0 <= i < flags.len() ==> !#[trigger] flags[i],
    ensures
        supervise_run(s, flags).len() == flags.len(),
        forall|i: int|
            0 <= i < flags.len() ==> #[trigger] supervise_run(s, flags)[i] == (SupervisorAction::Respawn {
                port: s.port,
            }),
    decreases flags.len(),
{
    if flags.len() > 0 {
        let rest = flags.drop_first();
        assert(!flags[0]);
        lemma_respawn_keeps_port(s, rest);
        assert forall|i: int| 0 <= i < flags.len() implies #[trigger] supervise_run(s, flags)[i]
            == (SupervisorAction::Respawn { port: s.port }) by {
            if i > 0 {
                assert(supervise_run(s, flags)[i] == supervise_run(s, rest)[i - 1]);
            }
        }
    }
}

} // verus!
