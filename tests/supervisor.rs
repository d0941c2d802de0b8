use faucet::net::{loopback, IpAddress};
use faucet::worker::{Supervisor, SupervisorAction, SupervisorState, WorkerType};

#[test]
fn exit_without_stop_respawns_on_same_port() {
    let mut s = Supervisor::new(41234);
    for _ in 0..3 {
        assert_eq!(s.on_exit(false), SupervisorAction::Respawn { port: 41234 });
        assert_eq!(s.state, SupervisorState::Running);
    }
}

#[test]
fn stop_flag_seen_at_exit_prevents_respawn() {
    let mut s = Supervisor::new(41234);
    assert_eq!(s.on_exit(true), SupervisorAction::Exit);
    assert_eq!(s.state, SupervisorState::Stopped);
    assert_eq!(s.on_exit(false), SupervisorAction::Exit);
}

#[test]
fn stopped_supervisor_never_respawns() {
    let mut s = Supervisor::new(5000);
    s.stop();
    assert_eq!(s.port, 5000);
    for flag in [false, true, false] {
        assert_eq!(s.on_exit(flag), SupervisorAction::Exit);
    }
}

#[test]
fn worker_launch_text() {
    assert_eq!(WorkerType::Plumber.port_option(), "plumber.port");
    assert_eq!(WorkerType::Shiny.port_option(), "shiny.port");
    assert_eq!(WorkerType::Plumber.entry_expr(), "source(\"plumber.R\")");
    assert_eq!(WorkerType::Shiny.entry_expr(), "shiny::runApp()");
}

#[test]
fn workers_listen_on_loopback() {
    let a = loopback(8123);
    assert_eq!(a.ip, IpAddress::V4(0x7f00_0001));
    assert_eq!(a.port, 8123);
}

#[test]
fn launch_scripts() {
    let plumber: String = WorkerType::Plumber.launch_script(8080).into_iter().collect();
    assert_eq!(plumber, "options(\"plumber.port\" = 8080)\nsource(\"plumber.R\")\n");
    let shiny: String = WorkerType::Shiny.launch_script(0).into_iter().collect();
    assert_eq!(shiny, "options(\"shiny.port\" = 0)\nshiny::runApp()\n");
    let top: String = WorkerType::Shiny.launch_script(65535).into_iter().collect();
    assert_eq!(top, "options(\"shiny.port\" = 65535)\nshiny::runApp()\n");
}
