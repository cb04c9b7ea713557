use serbo::error::Error;
use serbo::instance::{Feed, Probe, State};
use serbo::manager::{CopyPlan, LaunchPlan, Manager, Spawn};
use serbo::readiness::{MarkerPlace, Readiness};

fn manager() -> Manager {
    Manager::new("servers".to_string(), "versions".to_string())
}

fn quiet_manager() -> Manager {
    let readiness = Readiness {
        commands: Vec::new(),
        marker: "READY".to_string(),
        place: MarkerPlace::Anywhere,
    };
    Manager::with_readiness("servers".to_string(), "versions".to_string(), readiness)
}

fn both_streams() -> Spawn {
    Spawn::Started { stdout: true, stdin: true }
}

fn with_ready(id: &str) -> Manager {
    let mut m = quiet_manager();
    assert_eq!(m.register(id.to_string(), 25565, both_streams(), Probe::Running), Ok(25565));
    m.instance(id).unwrap().record_output("READY".to_string());
    m
}

fn wind_down(m: &mut Manager, id: &str) {
    let instance = m.instance(id).unwrap();
    assert!(!instance.keep_reading());
    loop {
        if instance.next_input() == Feed::Closed {
            break;
        }
    }
}

#[test]
fn paths_lie_under_the_two_roots() {
    let m = manager();
    assert_eq!(m.server_path("A"), "servers/A");
    assert_eq!(m.version_path("1.0"), "versions/1.0");
}

#[test]
fn start_without_files_fails_as_files_missing() {
    let m = manager();
    assert_eq!(m.start("A", 25565, false), Err(Error::ServerFilesMissing()));
}

#[test]
fn start_gives_the_command_line_of_the_server() {
    let m = manager();
    let plan = m.start("A", 25565, true);
    assert_eq!(
        plan,
        Ok(LaunchPlan {
            program: "java".to_string(),
            arguments: vec![
                "-Xmx4G".to_string(),
                "-Xms1G".to_string(),
                "-jar".to_string(),
                "server.jar".to_string(),
                "nogui".to_string(),
                "--port".to_string(),
                "25565".to_string(),
            ],
            directory: "servers/A".to_string(),
        })
    );
}

#[test]
fn register_returns_the_port_and_the_instance_is_starting() {
    let mut m = manager();
    assert_eq!(m.register("A".to_string(), 30000, both_streams(), Probe::Running), Ok(30000));
    let instance = m.get("A", Probe::Running).unwrap();
    assert_eq!(instance.state(), State::Starting);
    assert_eq!(instance.port, 30000);
    assert_eq!(instance.id(), "A");
    assert_eq!(instance.queued(), 2);
}

#[test]
fn start_twice_fails_the_second_time_as_already_online() {
    let mut m = manager();
    assert!(m.start("A", 25565, true).is_ok());
    assert_eq!(m.register("A".to_string(), 25565, both_streams(), Probe::Running), Ok(25565));
    m.instance("A").unwrap().record_output("first line".to_string());
    assert_eq!(m.start("A", 25566, true), Err(Error::ServerAlreadyOnline()));
    assert_eq!(
        m.register("A".to_string(), 25566, both_streams(), Probe::Running),
        Err(Error::ServerAlreadyOnline())
    );
    let instance = m.get("A", Probe::Running).unwrap();
    assert_eq!(instance.port, 25565);
    assert_eq!(instance.state(), State::Starting);
    assert_eq!(instance.queued(), 2);
    assert_eq!(instance.get(0), vec!["first line"]);
}

#[test]
fn start_without_files_fails_as_files_missing_even_when_registered() {
    let mut m = manager();
    assert_eq!(m.register("A".to_string(), 25565, both_streams(), Probe::Running), Ok(25565));
    assert_eq!(m.start("A", 25565, false), Err(Error::ServerFilesMissing()));
}

#[test]
fn starting_one_server_leaves_another_startable() {
    let mut m = manager();
    assert_eq!(m.register("A".to_string(), 25565, both_streams(), Probe::Running), Ok(25565));
    assert!(m.start("B", 25566, true).is_ok());
    assert_eq!(m.register("B".to_string(), 25566, both_streams(), Probe::Running), Ok(25566));
    assert_eq!(m.get("A", Probe::Running).unwrap().port, 25565);
    assert_eq!(m.get("B", Probe::Running).unwrap().port, 25566);
}

#[test]
fn a_failed_spawn_registers_nothing() {
    let mut m = manager();
    assert_eq!(
        m.register("A".to_string(), 25565, Spawn::Failed("java not found".to_string()), Probe::Running),
        Err(Error::IoError("java not found".to_string()))
    );
    assert!(m.instance("A").is_none());
    assert!(m.start("A", 25565, true).is_ok());
}

#[test]
fn a_spawn_without_its_streams_registers_nothing() {
    let mut m = manager();
    assert_eq!(
        m.register("A".to_string(), 25565, Spawn::Started { stdout: false, stdin: true }, Probe::Running),
        Err(Error::ThreadError("stdout".to_string()))
    );
    assert_eq!(
        m.register("A".to_string(), 25565, Spawn::Started { stdout: true, stdin: false }, Probe::Running),
        Err(Error::ThreadError("stdin".to_string()))
    );
    assert_eq!(
        m.register("A".to_string(), 25565, Spawn::Started { stdout: false, stdin: false }, Probe::Running),
        Err(Error::ThreadError("stdout".to_string()))
    );
    assert!(m.instance("A").is_none());
}

#[test]
fn a_process_that_died_at_once_registers_nothing() {
    let mut m = manager();
    assert_eq!(
        m.register("A".to_string(), 25565, both_streams(), Probe::Exited),
        Err(Error::ServerProcessExited())
    );
    assert_eq!(
        m.register("A".to_string(), 25565, both_streams(), Probe::Failed("bad".to_string())),
        Err(Error::IoError("bad".to_string()))
    );
    assert!(m.instance("A").is_none());
}

#[test]
fn get_of_an_unregistered_server_is_nothing() {
    let mut m = manager();
    assert!(m.get("A", Probe::Running).is_none());
    assert!(!m.is_online("A", Probe::Running));
    assert!(m.instance("A").is_none());
}

#[test]
fn get_hides_a_server_whose_process_has_died() {
    let mut m = with_ready("A");
    assert!(m.get("A", Probe::Running).is_some());
    assert!(m.is_online("A", Probe::Running));
    assert!(m.get("A", Probe::Exited).is_none());
    assert!(!m.is_online("A", Probe::Exited));
    assert!(m.get("A", Probe::Failed("bad".to_string())).is_none());
    assert!(!m.is_online("A", Probe::Failed("bad".to_string())));
    assert!(m.instance("A").is_some());
    assert_eq!(m.start("A", 25565, true), Err(Error::ServerAlreadyOnline()));
}

#[test]
fn get_hides_a_server_that_is_shutting_down() {
    let mut m = with_ready("A");
    assert_eq!(m.stop("A", Probe::Running), Ok(()));
    assert!(m.get("A", Probe::Running).is_none());
    assert!(!m.is_online("A", Probe::Running));
    assert_eq!(m.instance("A").unwrap().state(), State::Stopping);
}

#[test]
fn what_is_done_through_get_is_done_to_the_registry() {
    let mut m = with_ready("A");
    let instance = m.get("A", Probe::Running).unwrap();
    assert_eq!(instance.send("say hi".to_string(), Probe::Running), Ok(()));
    assert_eq!(m.get("A", Probe::Running).unwrap().queued(), 1);
}

#[test]
fn stop_of_an_unregistered_server_fails_as_offline() {
    let mut m = manager();
    assert_eq!(m.stop("A", Probe::Running), Err(Error::ServerOffline()));
    assert_eq!(m.stop("A", Probe::Exited), Err(Error::ServerOffline()));
    assert_eq!(m.finish_stop("A"), Err(Error::ServerOffline()));
}

#[test]
fn stop_of_a_starting_server_fails_as_still_starting() {
    let mut m = manager();
    assert_eq!(m.register("A".to_string(), 25565, both_streams(), Probe::Running), Ok(25565));
    assert_eq!(m.stop("A", Probe::Running), Err(Error::ServerStillStarting()));
    assert_eq!(m.finish_stop("A"), Err(Error::ServerStillStarting()));
    assert_eq!(m.get("A", Probe::Running).unwrap().state(), State::Starting);
}

#[test]
fn stop_of_a_ready_server_takes_it_out_of_the_registry() {
    let mut m = with_ready("A");
    assert_eq!(m.stop("A", Probe::Running), Ok(()));
    assert_eq!(m.start("A", 25565, true), Err(Error::ServerAlreadyOnline()));
    wind_down(&mut m, "A");
    assert_eq!(m.finish_stop("A"), Ok(()));
    assert!(m.instance("A").is_none());
    assert_eq!(m.stop("A", Probe::Running), Err(Error::ServerOffline()));
    assert!(m.start("A", 25565, true).is_ok());
}

#[test]
fn stop_queues_the_stop_command_behind_what_waits() {
    let mut m = with_ready("A");
    assert_eq!(m.get("A", Probe::Running).unwrap().send("say bye".to_string(), Probe::Running), Ok(()));
    assert_eq!(m.stop("A", Probe::Running), Ok(()));
    assert_eq!(
        m.instance("A").unwrap().next_input(),
        Feed::Write(vec!["say bye\n".to_string(), "/stop\n".to_string()])
    );
}

#[test]
fn finish_stop_is_refused_while_a_worker_runs() {
    let mut m = with_ready("A");
    assert_eq!(m.finish_stop("A"), Err(Error::ThreadError("stdout".to_string())));
    assert_eq!(m.stop("A", Probe::Running), Ok(()));
    assert_eq!(m.finish_stop("A"), Err(Error::ThreadError("stdout".to_string())));
    assert!(!m.instance("A").unwrap().keep_reading());
    assert_eq!(m.finish_stop("A"), Err(Error::ThreadError("stdin".to_string())));
    assert!(m.instance("A").is_some());
}

#[test]
fn stop_of_a_server_whose_process_died_removes_it_and_reports_the_exit() {
    let mut m = with_ready("A");
    assert_eq!(m.stop("A", Probe::Exited), Ok(()));
    wind_down(&mut m, "A");
    assert_eq!(m.finish_stop("A"), Err(Error::ServerProcessExited()));
    assert!(m.instance("A").is_none());
    assert!(m.start("A", 25565, true).is_ok());
}

#[test]
fn stop_with_a_failed_probe_leaves_the_server_running() {
    let mut m = with_ready("A");
    assert_eq!(m.stop("A", Probe::Failed("bad".to_string())), Err(Error::IoError("bad".to_string())));
    assert_eq!(m.get("A", Probe::Running).unwrap().state(), State::Ready);
}

#[test]
fn stopping_one_server_leaves_the_others() {
    let mut m = with_ready("A");
    assert_eq!(m.register("B".to_string(), 25566, both_streams(), Probe::Running), Ok(25566));
    m.instance("B").unwrap().record_output("READY".to_string());
    assert_eq!(m.register("C".to_string(), 25567, both_streams(), Probe::Running), Ok(25567));
    assert_eq!(m.stop("A", Probe::Running), Ok(()));
    wind_down(&mut m, "A");
    assert_eq!(m.finish_stop("A"), Ok(()));
    assert!(m.instance("A").is_none());
    assert_eq!(m.get("B", Probe::Running).unwrap().state(), State::Ready);
    assert_eq!(m.get("B", Probe::Running).unwrap().port, 25566);
    assert_eq!(m.get("C", Probe::Running).unwrap().state(), State::Starting);
    assert_eq!(m.get("C", Probe::Running).unwrap().port, 25567);
}

#[test]
fn create_is_refused_when_the_directory_exists() {
    let m = manager();
    assert_eq!(m.create("A", "1.0", true), Err(Error::ServerAlreadyExists()));
}

#[test]
fn create_copies_the_template_of_the_version() {
    let m = manager();
    assert_eq!(
        m.create("A", "1.0", false),
        Ok(CopyPlan { from: "versions/1.0".to_string(), to: "servers/A".to_string() })
    );
}

#[test]
fn delete_removes_the_working_directory() {
    let m = manager();
    assert_eq!(m.delete("A", Ok(()), true), Ok("servers/A".to_string()));
}

#[test]
fn delete_without_files_fails_as_files_missing() {
    let m = manager();
    assert_eq!(m.delete("A", Ok(()), false), Err(Error::ServerFilesMissing()));
    assert_eq!(m.delete("A", Err(Error::ServerOffline()), false), Err(Error::ServerFilesMissing()));
}

#[test]
fn delete_does_not_mind_that_the_server_was_not_running() {
    let m = manager();
    assert_eq!(m.delete("A", Err(Error::ServerOffline()), true), Ok("servers/A".to_string()));
    assert_eq!(m.delete("A", Err(Error::ServerStillStarting()), true), Ok("servers/A".to_string()));
}

#[test]
fn delete_passes_on_any_other_failure_of_the_stop() {
    let m = manager();
    assert_eq!(
        m.delete("A", Err(Error::ServerProcessExited()), true),
        Err(Error::ServerProcessExited())
    );
    assert_eq!(
        m.delete("A", Err(Error::IoError("bad".to_string())), true),
        Err(Error::IoError("bad".to_string()))
    );
    assert_eq!(
        m.delete("A", Err(Error::ThreadError("stdin".to_string())), false),
        Err(Error::ThreadError("stdin".to_string()))
    );
}

#[test]
fn change_version_replaces_the_artifact() {
    let m = manager();
    assert_eq!(
        m.change_version("A", "1.16.1", Ok(()), true),
        Ok(CopyPlan {
            from: "versions/1.16.1/server.jar".to_string(),
            to: "servers/A/server.jar".to_string(),
        })
    );
    assert_eq!(
        m.change_version("A", "1.16.1", Err(Error::ServerOffline()), true),
        Ok(CopyPlan {
            from: "versions/1.16.1/server.jar".to_string(),
            to: "servers/A/server.jar".to_string(),
        })
    );
    assert!(m.change_version("A", "1.16.1", Err(Error::ServerStillStarting()), true).is_ok());
}

#[test]
fn change_version_without_files_fails_as_files_missing() {
    let m = manager();
    assert_eq!(m.change_version("A", "1.16.1", Ok(()), false), Err(Error::ServerFilesMissing()));
}

#[test]
fn change_version_passes_on_any_other_failure_of_the_stop() {
    let m = manager();
    assert_eq!(
        m.change_version("A", "1.16.1", Err(Error::ServerProcessExited()), true),
        Err(Error::ServerProcessExited())
    );
    assert_eq!(
        m.change_version("A", "1.16.1", Err(Error::IoError("bad".to_string())), false),
        Err(Error::IoError("bad".to_string()))
    );
}
