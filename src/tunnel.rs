use vstd::prelude::*;
use vstd::string::*;
use crate::text::{decimal, decimal_string};

verus! {

/// One tunnel provider: its name and the command that opens the tunnel,
/// program first.
pub struct TunnelService {
    pub name: String,
    pub command: Vec<String>,
}

/// The options given to every ssh invocation.
pub open spec fn ssh_options() -> Seq<Seq<char>> {
    seq![
        "-o"@,
        "StrictHostKeyChecking=no"@,
        "-o"@,
        "ServerAliveInterval=30"@,
        "-o"@,
        "ConnectTimeout=5"@,
    ]
}

/// The remote-forward argument that forwards remote `remote` to local `port`.
pub open spec fn forward(remote: Seq<char>, port: u16) -> Seq<char> {
    "-R"@ + remote + ":localhost:"@ + decimal(port as nat)
}

/// The providers' names, in the order in which they are tried.
pub open spec fn service_names() -> Seq<Seq<char>> {
    seq!["localhost.run"@, "serveo.net"@, "pinggy.io"@]
}

/// The providers' commands for local `port`, in the same order.
pub open spec fn service_commands(port: u16) -> Seq<Seq<Seq<char>>> {
    seq![
        seq!["ssh"@] + ssh_options() + seq![forward("80"@, port), "nokey@localhost.run"@],
        seq!["ssh"@] + ssh_options() + seq![forward("80"@, port), "serveo.net"@],
        seq!["ssh"@, "-p"@, "443"@] + ssh_options() + seq![
            "-t"@,
            forward("0"@, port),
            "a.pinggy.io"@,
            "x:passpreflight"@,
        ],
    ]
}

fn string_of(s: &str) -> (r: String)
    ensures
        r@ == s@,
{
    String::from_str(s)
}

fn push_str(v: &mut Vec<String>, s: &str)
    ensures
        final(v).deep_view() == old(v).deep_view().push(s@),
{
    v.push(string_of(s));
    assert(v.deep_view() =~= old(v).deep_view().push(s@));
}

fn push_ssh_options(v: &mut Vec<String>)
    ensures
        final(v).deep_view() == old(v).deep_view() + ssh_options(),
{
    push_str(v, "-o");
    push_str(v, "StrictHostKeyChecking=no");
    push_str(v, "-o");
    push_str(v, "ServerAliveInterval=30");
    push_str(v, "-o");
    push_str(v, "ConnectTimeout=5");
    assert(v.deep_view() =~= old(v).deep_view() + ssh_options());
}

fn forward_arg(remote: &str, port: u16) -> (r: String)
    ensures
        r@ == forward(remote@, port),
{
    let mut s = string_of("-R");
    s.append(remote);
    s.append(":localhost:");
    let d = decimal_string(port as u64);
    s.append(d.as_str());
    s
}

/// The tunnel providers for local `port`, in the order in which they are
/// tried.
pub fn tunnel_services(port: u16) -> (r: Vec<TunnelService>)
    ensures
        r@.len() == 3,
        forall|i: int|
            0 <= i < 3 ==> (#[trigger] r@[i]).name@ == service_names()[i]
                && r@[i].command.deep_view() == service_commands(port)[i],
{
    let mut a: Vec<String> = Vec::new();
    push_str(&mut a, "ssh");
    push_ssh_options(&mut a);
    let f = forward_arg("80", port);
    push_str(&mut a, f.as_str());
    push_str(&mut a, "nokey@localhost.run");

    let mut b: Vec<String> = Vec::new();
    push_str(&mut b, "ssh");
    push_ssh_options(&mut b);
    let f = forward_arg("80", port);
    push_str(&mut b, f.as_str());
    push_str(&mut b, "serveo.net");

    let mut c: Vec<String> = Vec::new();
    push_str(&mut c, "ssh");
    push_str(&mut c, "-p");
    push_str(&mut c, "443");
    push_ssh_options(&mut c);
    push_str(&mut c, "-t");
    let f = forward_arg("0", port);
    push_str(&mut c, f.as_str());
    push_str(&mut c, "a.pinggy.io");
    push_str(&mut c, "x:passpreflight");

    assert(a.deep_view() =~= service_commands(port)[0]);
    assert(b.deep_view() =~= service_commands(port)[1]);
    assert(c.deep_view() =~= service_commands(port)[2]);
    let mut r: Vec<TunnelService> = Vec::new();
    r.push(TunnelService { name: string_of("localhost.run"), command: a });
    r.push(TunnelService { name: string_of("serveo.net"), command: b });
    r.push(TunnelService { name: string_of("pinggy.io"), command: c });
    r
}

/// Why a tunnel sequence did not run.
#[derive(Debug, Clone, Copy, PartialEq, Eq, Structural)]
pub enum TunnelError {
    /// The tunnelling client (ssh) is not installed.
    PrerequisiteMissing,
}

/// What the host is asked to do next.
#[derive(Debug, Clone, Copy, PartialEq, Eq)]
pub enum TunnelAction {
    /// Look for the tunnelling client; answer with `TunnelEvent::PrerequisiteChecked`.
    CheckPrerequisite,
    /// Run the command of the service at this index in the foreground until it
    /// exits; answer with `TunnelEvent::Exited`.
    Run(usize),
    /// Ask the operator `continue_prompt()`; answer with `TunnelEvent::Answered`.
    Ask,
    /// The sequence is over, with this result.
    Finish(Result<(), TunnelError>),
}

/// What the host reports after performing an action.
#[derive(Debug, Clone, Copy, PartialEq, Eq)]
pub enum TunnelEvent {
    /// Whether the tunnelling client was found.
    PrerequisiteChecked(bool),
    /// The exit code of the service's command; it decides nothing.
    Exited(i32),
    /// Whether the operator wants the next service tried.
    Answered(bool),
}

impl TunnelEvent {
    /// The event for a command that exited with `code`, or that had no code
    /// (it could not be launched, or a signal ended it): that counts as 1.
    pub fn exited(code: Option<i32>) -> (e: TunnelEvent)
        ensures
            e == TunnelEvent::Exited(match code {
                Some(c) => c,
                None => 1,
            }),
    {
        match code {
            Some(c) => TunnelEvent::Exited(c),
            None => TunnelEvent::Exited(1),
        }
    }
}

/// Where a tunnel sequence stands.
#[derive(Debug, Clone, Copy, PartialEq, Eq)]
pub enum TunnelPhase {
    AwaitCheck,
    AwaitRun(usize),
    AwaitAnswer(usize),
    Done(Result<(), TunnelError>),
}

/// The action that a sequence in `phase` waits to see performed.
pub open spec fn tunnel_action_of(phase: TunnelPhase) -> TunnelAction {
    match phase {
        TunnelPhase::AwaitCheck => TunnelAction::CheckPrerequisite,
        TunnelPhase::AwaitRun(i) => TunnelAction::Run(i),
        TunnelPhase::AwaitAnswer(_) => TunnelAction::Ask,
        TunnelPhase::Done(r) => TunnelAction::Finish(r),
    }
}

/// The transition of a sequence over `count` services in `phase` on event
/// `e`. Any exit of a service leads to the question; an event that does not
/// answer the pending action leaves the phase as it is.
pub open spec fn tunnel_next(count: nat, phase: TunnelPhase, e: TunnelEvent) -> TunnelPhase {
    match (phase, e) {
        (TunnelPhase::AwaitCheck, TunnelEvent::PrerequisiteChecked(found)) => if !found {
            TunnelPhase::Done(Err(TunnelError::PrerequisiteMissing))
        } else if count == 0 {
            TunnelPhase::Done(Ok(()))
        } else {
            TunnelPhase::AwaitRun(0)
        },
        (TunnelPhase::AwaitRun(i), TunnelEvent::Exited(_)) => TunnelPhase::AwaitAnswer(i),
        (TunnelPhase::AwaitAnswer(i), TunnelEvent::Answered(more)) => if more && i + 1 < count {
            TunnelPhase::AwaitRun((i + 1) as usize)
        } else {
            TunnelPhase::Done(Ok(()))
        },
        _ => phase,
    }
}

/// The service indices of a phase stay below the number of services.
pub open spec fn tunnel_phase_ok(count: nat, phase: TunnelPhase) -> bool {
    match phase {
        TunnelPhase::AwaitRun(i) => i < count,
        TunnelPhase::AwaitAnswer(i) => i < count,
        _ => true,
    }
}

/// One attempt at tunnelling: the services are tried in order, the operator
/// is asked after each whether to go on.
pub struct TunnelSession {
    pub count: usize,
    pub phase: TunnelPhase,
}

impl TunnelSession {
    /// A sequence over `count` services, which first looks for the client.
    pub fn new(count: usize) -> (s: Self)
        ensures
            s.count == count,
            s.phase == TunnelPhase::AwaitCheck,
    {
        TunnelSession { count, phase: TunnelPhase::AwaitCheck }
    }

    pub open spec fn wf(&self) -> bool {
        tunnel_phase_ok(self.count as nat, self.phase)
    }

    /// The action the sequence waits to see performed.
    pub fn action(&self) -> (a: TunnelAction)
        ensures
            a == tunnel_action_of(self.phase),
    {
        match self.phase {
            TunnelPhase::AwaitCheck => TunnelAction::CheckPrerequisite,
            TunnelPhase::AwaitRun(i) => TunnelAction::Run(i),
            TunnelPhase::AwaitAnswer(_) => TunnelAction::Ask,
            TunnelPhase::Done(r) => TunnelAction::Finish(r),
        }
    }

    /// Takes the host's report on the pending action and returns the next one.
    pub fn advance(&mut self, e: TunnelEvent) -> (a: TunnelAction)
        requires
            old(self).wf(),
        ensures
            final(self).wf(),
            final(self).count == old(self).count,
            final(self).phase == tunnel_next(old(self).count as nat, old(self).phase, e),
            a == tunnel_action_of(final(self).phase),
    {
        let count = self.count;
        let np = match (self.phase, e) {
            (TunnelPhase::AwaitCheck, TunnelEvent::PrerequisiteChecked(found)) => if !found {
                TunnelPhase::Done(Err(TunnelError::PrerequisiteMissing))
            } else if count == 0 {
                TunnelPhase::Done(Ok(()))
            } else {
                TunnelPhase::AwaitRun(0)
            },
            (TunnelPhase::AwaitRun(i), TunnelEvent::Exited(_)) => TunnelPhase::AwaitAnswer(i),
            (TunnelPhase::AwaitAnswer(i), TunnelEvent::Answered(more)) => if more && i + 1 < count {
                TunnelPhase::AwaitRun(i + 1)
            } else {
                TunnelPhase::Done(Ok(()))
            },
            (ph, _) => ph,
        };
        self.phase = np;
        self.action()
    }
}

/// The question put to the operator after each service.
pub fn continue_prompt() -> (r: &'static str)
    ensures
        r@ == "Do you want to try next service? Press n if you want to exit."@,
{
    "Do you want to try next service? Press n if you want to exit."
}

/// A sequence over `count` services driven by a faithful host, for at most
/// `fuel` steps: `found` says whether the client is installed, `answers` are
/// the operator's answers in order (a missing answer counts as no). The result,
/// if it finished, and the indices of the services run.
pub open spec fn tunnel_drive(
    count: nat,
    phase: TunnelPhase,
    found: bool,
    answers: Seq<bool>,
    fuel: nat,
) -> (Option<Result<(), TunnelError>>, Seq<usize>)
    decreases fuel,
{
    match phase {
        TunnelPhase::Done(r) => (Some(r), Seq::empty()),
        TunnelPhase::AwaitCheck => if fuel == 0 {
            (None, Seq::empty())
        } else {
            tunnel_drive(count, tunnel_next(count, phase, TunnelEvent::PrerequisiteChecked(found)), found, answers, (fuel - 1) as nat)
        },
        TunnelPhase::AwaitRun(i) => if fuel == 0 {
            (None, Seq::empty())
        } else {
            let rest = tunnel_drive(count, TunnelPhase::AwaitAnswer(i), found, answers, (fuel - 1) as nat);
            (rest.0, seq![i] + rest.1)
        },
        TunnelPhase::AwaitAnswer(_) => if fuel == 0 {
            (None, Seq::empty())
        } else {
            let more = answers.len() > 0 && answers[0];
            tunnel_drive(count, tunnel_next(count, phase, TunnelEvent::Answered(more)), found, answers.drop_first(), (fuel - 1) as nat)
        },
    }
}

/// A whole sequence over `count` services.
pub open spec fn tunnel_run(count: nat, found: bool, answers: Seq<bool>) -> (Option<Result<(), TunnelError>>, Seq<usize>) {
    tunnel_drive(count, TunnelPhase::AwaitCheck, found, answers, 2 * count + 2)
}

/// Without the tunnelling client the sequence fails with
/// `PrerequisiteMissing` and runs no service.
pub proof fn missing_client_runs_nothing(count: nat, answers: Seq<bool>)
    ensures
        tunnel_run(count, false, answers) == (
            Some(Err::<(), TunnelError>(TunnelError::PrerequisiteMissing)),
            Seq::<usize>::empty(),
        ),
{
    reveal_with_fuel(tunnel_drive, 2);
}

/// When the operator declines after the first attempt, only the first service
/// runs and the sequence succeeds, however many services remain.
pub proof fn first_refusal_stops(count: nat, answers: Seq<bool>)
    requires
        count > 0,
        answers.len() > 0 && !answers[0],
    ensures
        tunnel_run(count, true, answers) == (Some(Ok::<(), TunnelError>(())), seq![0usize]),
{
    reveal_with_fuel(tunnel_drive, 4);
    let r = tunnel_drive(count, TunnelPhase::AwaitAnswer(0), true, answers, (2 * count) as nat);
    assert(r == (Some(Ok::<(), TunnelError>(())), Seq::<usize>::empty()));
    assert(seq![0usize] + Seq::<usize>::empty() =~= seq![0usize]);
}

/// From the run of service `j` on, with the operator saying yes each time,
/// every remaining service runs once, in order, and the sequence succeeds.
proof fn run_rest_in_order(count: nat, j: nat, answers: Seq<bool>, fuel: nat)
    requires
        j < count <= usize::MAX,
        fuel >= 2 * (count - j),
        answers.len() >= count - j,
        forall|i: int| 0 <= i < count - j ==> #[trigger] answers[i],
    ensures
        tunnel_drive(count, TunnelPhase::AwaitRun(j as usize), true, answers, fuel) == (
            Some(Ok::<(), TunnelError>(())),
            Seq::new((count - j) as nat, |i: int| (j + i) as usize),
        ),
    decreases count - j,
{
    reveal_with_fuel(tunnel_drive, 2);
    let rest = tunnel_drive(count, TunnelPhase::AwaitAnswer(j as usize), true, answers, (fuel - 1) as nat);
    assert(answers[0]);
    if j + 1 < count {
        let tail = answers.drop_first();
        assert forall|i: int| 0 <= i < count - (j + 1) implies #[trigger] tail[i] by {
            assert(tail[i] == answers[i + 1]);
        }
        run_rest_in_order(count, j + 1, tail, (fuel - 2) as nat);
        assert(rest == tunnel_drive(count, TunnelPhase::AwaitRun((j + 1) as usize), true, tail, (fuel - 2) as nat));
        assert(seq![j as usize] + rest.1 =~= Seq::new((count - j) as nat, |i: int| (j + i) as usize));
    } else {
        assert(rest == (Some(Ok::<(), TunnelError>(())), Seq::<usize>::empty()));
        assert(seq![j as usize] + rest.1 =~= Seq::new((count - j) as nat, |i: int| (j + i) as usize));
    }
}

/// When the operator says yes after every attempt, each service runs exactly
/// once, in the order of the list, and the sequence succeeds.
pub proof fn services_run_in_order(count: nat, answers: Seq<bool>)
    requires
        0 < count <= usize::MAX,
        answers.len() >= count,
        forall|i: int| 0 <= i < count ==> #[trigger] answers[i],
    ensures
        tunnel_run(count, true, answers) == (
            Some(Ok::<(), TunnelError>(())),
            Seq::new(count, |i: int| i as usize),
        ),
{
    run_rest_in_order(count, 0, answers, (2 * count + 1) as nat);
    assert(Seq::new((count - 0) as nat, |i: int| (0 + i) as usize) =~= Seq::new(count, |i: int| i as usize));
}

} // verus!
