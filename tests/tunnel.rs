use mihomo_proxy::tunnel::{
    continue_prompt, tunnel_services, TunnelAction, TunnelError, TunnelEvent, TunnelSession,
};

/// Drives a sequence; returns the result and the services run.
fn drive(count: usize, found: bool, answers: &[bool]) -> (Result<(), TunnelError>, Vec<usize>) {
    let mut s = TunnelSession::new(count);
    let mut a = s.action();
    let mut ran = Vec::new();
    let mut asked = 0;
    loop {
        let e = match a {
            TunnelAction::CheckPrerequisite => TunnelEvent::PrerequisiteChecked(found),
            TunnelAction::Run(i) => {
                ran.push(i);
                TunnelEvent::exited(Some(255))
            }
            TunnelAction::Ask => {
                let yes = answers.get(asked).copied().unwrap_or(false);
                asked += 1;
                TunnelEvent::Answered(yes)
            }
            TunnelAction::Finish(r) => return (r, ran),
        };
        a = s.advance(e);
    }
}

#[test]
fn refusal_after_first_attempt_stops() {
    assert_eq!(drive(3, true, &[false, true, true]), (Ok(()), vec![0]));
}

#[test]
fn missing_client_runs_nothing() {
    assert_eq!(drive(3, false, &[true, true, true]), (Err(TunnelError::PrerequisiteMissing), vec![]));
}

#[test]
fn all_services_tried_in_order() {
    assert_eq!(drive(3, true, &[true, true, true]), (Ok(()), vec![0, 1, 2]));
    assert_eq!(drive(3, true, &[true, false]), (Ok(()), vec![0, 1]));
}

#[test]
fn launch_failure_counts_as_exit_one() {
    assert_eq!(TunnelEvent::exited(None), TunnelEvent::Exited(1));
    assert_eq!(TunnelEvent::exited(Some(0)), TunnelEvent::Exited(0));
}

#[test]
fn services_embed_port() {
    let s = tunnel_services(8080);
    let names: Vec<&str> = s.iter().map(|s| s.name.as_str()).collect();
    assert_eq!(names, vec!["localhost.run", "serveo.net", "pinggy.io"]);
    let opts = [
        "-o",
        "StrictHostKeyChecking=no",
        "-o",
        "ServerAliveInterval=30",
        "-o",
        "ConnectTimeout=5",
    ];
    let mut a = vec!["ssh"];
    a.extend(opts);
    a.extend(["-R80:localhost:8080", "nokey@localhost.run"]);
    assert_eq!(s[0].command, a);
    let mut b = vec!["ssh"];
    b.extend(opts);
    b.extend(["-R80:localhost:8080", "serveo.net"]);
    assert_eq!(s[1].command, b);
    let mut c = vec!["ssh", "-p", "443"];
    c.extend(opts);
    c.extend(["-t", "-R0:localhost:8080", "a.pinggy.io", "x:passpreflight"]);
    assert_eq!(s[2].command, c);
    assert_eq!(
        continue_prompt(),
        "Do you want to try next service? Press n if you want to exit."
    );
}
