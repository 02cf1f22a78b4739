//! The arguments of the daemon, and the course of its workers.

use vhost_device_input::daemon::{
    joined, outcome, Error, InputArgs, StepReply, VuInputConfig, WorkerEnd, WorkerStep,
};
use vhost_device_input::text::{push_decimal, split_text};

fn read(socket_path: &str, event_list: &str) -> VuInputConfig {
    VuInputConfig::try_from(InputArgs {
        socket_path: socket_path.to_string(),
        event_list: event_list.to_string(),
    })
    .unwrap()
}

fn failed() -> StepReply {
    StepReply::Failed("why".to_string())
}

#[test]
fn arguments_are_trimmed_and_taken_apart() {
    let config = read(" /tmp/input.sock\n", "\t/dev/input/event0,/dev/input/event3 ");
    assert_eq!(config.socket_path, "/tmp/input.sock");
    assert_eq!(config.events, vec!["/dev/input/event0", "/dev/input/event3"]);
    assert_eq!(config.count, 2);
}

#[test]
fn clones_are_equal() {
    let args = InputArgs { socket_path: "s".to_string(), event_list: "a,b".to_string() };
    assert_eq!(args.clone(), args);
    let config = VuInputConfig::try_from(args).unwrap();
    assert_eq!(config.clone(), config);
}

#[test]
fn only_the_ends_of_the_list_are_trimmed() {
    let config = read("s", " a , b ");
    assert_eq!(config.events, vec!["a ", " b"]);
}

#[test]
fn empty_parts_count() {
    assert_eq!(read("s", "").events, vec![""]);
    assert_eq!(read("s", "").count, 1);
    assert_eq!(read("s", ",a,,").events, vec!["", "a", "", ""]);
    assert_eq!(read("s", ",a,,").count, 4);
}

#[test]
fn white_space_is_that_of_unicode() {
    let known = |c: char| {
        matches!(
            c as u32,
            0x9..=0xd
                | 0x20
                | 0x85
                | 0xa0
                | 0x1680
                | 0x2000..=0x200a
                | 0x2028
                | 0x2029
                | 0x202f
                | 0x205f
                | 0x3000
        )
    };
    for code in 0..=0x10ffffu32 {
        if let Some(c) = char::from_u32(code) {
            assert_eq!(c.is_whitespace(), known(c), "{code:x}");
        }
    }
    assert_eq!(read("\u{a0}\u{3000}x y\u{2028}\u{85}", "").socket_path, "x y");
    assert_eq!(read("\u{200b}x", "").socket_path, "\u{200b}x");
    assert_eq!(read(" \r\n\t ", "").socket_path, "");
}

#[test]
fn splitting_agrees_with_joining() {
    for s in ["", ",", "a", "a,b", "\u{e4},\u{1f600},", ",,x"] {
        let parts = split_text(s, ',');
        assert_eq!(parts.join(","), s);
        let expected: Vec<&str> = s.split(',').collect();
        assert_eq!(parts, expected);
    }
}

#[test]
fn each_device_has_its_own_socket() {
    let launches = read("/run/input", "a,b,c,d,e,f,g,h,i,j,k,l").launches();
    assert_eq!(launches.len(), 12);
    assert_eq!(launches[0].socket, "/run/input0");
    assert_eq!(launches[0].event, "a");
    assert_eq!(launches[9].socket, "/run/input9");
    assert_eq!(launches[10].socket, "/run/input10");
    assert_eq!(launches[11].socket, "/run/input11");
    assert_eq!(launches[11].event, "l");
    for i in 0..12 {
        for j in 0..i {
            assert_ne!(launches[i].socket, launches[j].socket);
        }
    }
}

#[test]
fn decimals() {
    for n in [0, 7, 10, 99, 100, 4294967295, u64::MAX] {
        let mut out = "n=".to_string();
        push_decimal(&mut out, n);
        assert_eq!(out, format!("n={}", n));
    }
}

#[test]
fn worker_goes_round() {
    let mut step = WorkerStep::OpenDevice;
    let mut seen = Vec::new();
    for _ in 0..8 {
        seen.push(step);
        step = step.advance(StepReply::Done).unwrap();
    }
    assert_eq!(step, WorkerStep::OpenDevice);
    assert_eq!(
        seen,
        vec![
            WorkerStep::OpenDevice,
            WorkerStep::CreateBackend,
            WorkerStep::CreateDaemon,
            WorkerStep::Register,
            WorkerStep::Listen,
            WorkerStep::Start,
            WorkerStep::Wait,
            WorkerStep::Shutdown,
        ]
    );
}

#[test]
fn failures_that_end_a_worker() {
    assert_eq!(
        WorkerStep::OpenDevice.advance(failed()),
        Err(WorkerEnd::Failed(Error::AccessEventDeviceFile))
    );
    assert_eq!(
        WorkerStep::CreateBackend.advance(failed()),
        Err(WorkerEnd::Failed(Error::CouldNotCreateBackend("why".to_string())))
    );
    assert_eq!(
        WorkerStep::CreateDaemon.advance(failed()),
        Err(WorkerEnd::Failed(Error::CouldNotCreateDaemon("why".to_string())))
    );
    assert_eq!(WorkerStep::Listen.advance(failed()), Err(WorkerEnd::Panicked));
    assert_eq!(WorkerStep::Start.advance(failed()), Err(WorkerEnd::Panicked));
    assert_eq!(WorkerStep::Shutdown.advance(failed()), Err(WorkerEnd::Panicked));
}

#[test]
fn failures_that_a_worker_survives() {
    assert_eq!(WorkerStep::Register.advance(failed()), Ok(WorkerStep::Listen));
    assert_eq!(WorkerStep::Wait.advance(failed()), Ok(WorkerStep::Shutdown));
}

#[test]
fn panic_of_a_worker_is_an_error_of_the_daemon() {
    assert_eq!(joined(WorkerEnd::Panicked), Error::FailedJoiningThreads);
    assert_eq!(
        joined(WorkerEnd::Failed(Error::AccessEventDeviceFile)),
        Error::AccessEventDeviceFile
    );
}

#[test]
fn first_worker_decides() {
    assert_eq!(outcome(None), Ok(()));
    assert_eq!(outcome(Some(WorkerEnd::Panicked)), Err(Error::FailedJoiningThreads));
    assert_eq!(
        outcome(Some(WorkerEnd::Failed(Error::CouldNotCreateDaemon("no".to_string())))),
        Err(Error::CouldNotCreateDaemon("no".to_string()))
    );
}

#[test]
fn daemon_errors_say_what_happened() {
    assert_eq!(
        Error::AccessEventDeviceFile.message(),
        "Event device file doesn't exists or can't be accessed"
    );
    assert_eq!(Error::FailedJoiningThreads.message(), "Threads can't be joined");
    assert_eq!(
        Error::CouldNotCreateBackend("no".to_string()).message(),
        "Could not create backend: no"
    );
    assert_eq!(
        Error::CouldNotCreateDaemon("no".to_string()).message(),
        "Could not create daemon: no"
    );
    assert_eq!(Error::ParseFailure.message(), "Failed while parsing to String");
}
