use serbo::error::Error;
use serbo::frontend::{
    fresh_id, pick_port, read_console, start_on_random_port, status, write_console,
};
use serbo::instance::{Feed, Probe};
use serbo::manager::{Manager, Spawn};

fn running(id: &str) -> Manager {
    let mut m = Manager::new("servers".to_string(), "versions".to_string());
    let spawn = Spawn::Started { stdout: true, stdin: true };
    assert_eq!(m.register(id.to_string(), 25565, spawn, Probe::Running), Ok(25565));
    let _ = m.instance(id).unwrap().next_input();
    m
}

#[test]
fn ports_are_picked_from_the_range_of_the_servers() {
    for _ in 0..500 {
        let port = pick_port();
        assert!(port >= 25565);
        assert!(port < 35565);
    }
}

#[test]
fn ports_are_not_always_the_same() {
    let first = pick_port();
    let mut other = false;
    for _ in 0..500 {
        if pick_port() != first {
            other = true;
        }
    }
    assert!(other);
}

#[test]
fn fresh_ids_are_decimal_numbers() {
    for _ in 0..100 {
        let id = fresh_id();
        let number: u32 = id.parse().unwrap();
        assert_eq!(number.to_string(), id);
    }
}

#[test]
fn fresh_ids_are_not_always_the_same() {
    let first = fresh_id();
    let mut other = false;
    for _ in 0..100 {
        if fresh_id() != first {
            other = true;
        }
    }
    assert!(other);
}

#[test]
fn status_is_one_for_success_and_minus_one_for_failure() {
    let worked: Result<u32, Error> = Ok(25565);
    let failed: Result<u32, Error> = Err(Error::ServerOffline());
    assert_eq!(status(&worked), "1");
    assert_eq!(status(&failed), "-1");
    let done: Result<(), Error> = Ok(());
    assert_eq!(status(&done), "1");
}

#[test]
fn start_on_random_port_plans_the_launch_on_the_port_it_picked() {
    let m = Manager::new("servers".to_string(), "versions".to_string());
    let (port, plan) = start_on_random_port(&m, "7", true).unwrap();
    assert!(port >= 25565 && port < 35565);
    assert_eq!(plan.program, "java");
    assert_eq!(plan.directory, "servers/7");
    assert_eq!(plan.arguments.len(), 7);
    assert_eq!(plan.arguments[5], "--port");
    assert_eq!(plan.arguments[6], port.to_string());
}

#[test]
fn start_on_random_port_fails_as_start_does() {
    let m = running("7");
    assert_eq!(start_on_random_port(&m, "7", true), Err(Error::ServerAlreadyOnline()));
    assert_eq!(start_on_random_port(&m, "8", false), Err(Error::ServerFilesMissing()));
}

#[test]
fn write_console_queues_the_command_for_an_online_server() {
    let mut m = running("7");
    assert_eq!(write_console(&mut m, "7", "say hi".to_string(), Probe::Running, Probe::Running), "1");
    assert_eq!(m.instance("7").unwrap().next_input(), Feed::Write(vec!["say hi\n".to_string()]));
}

#[test]
fn write_console_answers_minus_one_for_a_server_that_is_not_online() {
    let mut m = running("7");
    assert_eq!(write_console(&mut m, "8", "say hi".to_string(), Probe::Running, Probe::Running), "-1");
    assert_eq!(write_console(&mut m, "7", "say hi".to_string(), Probe::Exited, Probe::Exited), "-1");
    assert_eq!(m.instance("7").unwrap().queued(), 0);
}

#[test]
fn write_console_answers_one_even_when_the_command_is_not_taken_in() {
    let mut m = running("7");
    assert_eq!(write_console(&mut m, "7", "say hi".to_string(), Probe::Running, Probe::Exited), "1");
    assert_eq!(m.instance("7").unwrap().queued(), 0);
}

#[test]
fn read_console_gives_the_lines_from_the_offset_on() {
    let mut m = running("7");
    m.instance("7").unwrap().record_output("one".to_string());
    m.instance("7").unwrap().record_output("two".to_string());
    m.instance("7").unwrap().record_output("three".to_string());
    assert_eq!(read_console(&mut m, "7", 0, Probe::Running), vec!["one", "two", "three"]);
    assert_eq!(read_console(&mut m, "7", 2, Probe::Running), vec!["three"]);
    assert_eq!(read_console(&mut m, "7", 9, Probe::Running), Vec::<String>::new());
}

#[test]
fn read_console_gives_nothing_for_a_server_that_is_not_online() {
    let mut m = running("7");
    m.instance("7").unwrap().record_output("one".to_string());
    assert_eq!(read_console(&mut m, "8", 0, Probe::Running), Vec::<String>::new());
    assert_eq!(read_console(&mut m, "7", 0, Probe::Exited), Vec::<String>::new());
}
