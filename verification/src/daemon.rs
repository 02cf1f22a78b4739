//! What the daemon is started with, and the workers that it runs.

use vstd::prelude::*;
use vstd::string::StringExecFns;

use crate::text::{
    decimal, is_white_space, join, law_decimal_reads_back, law_decimals_differ, law_split_and_join,
    law_trimmed, number_of, occurrences, push_decimal, split, split_text, texts, trim, trimmed,
};

verus! {

/// Errors of the daemon.
#[derive(Debug, PartialEq, Eq)]
pub enum Error {
    /// An input device cannot be opened.
    AccessEventDeviceFile,
    /// A worker did not end by itself.
    FailedJoiningThreads,
    /// A device could not be set up, for the reason given.
    CouldNotCreateBackend(String),
    /// The service of a device could not be set up, for the reason given.
    CouldNotCreateDaemon(String),
    /// An argument is no text.
    ParseFailure,
}

impl Error {
    /// What the error says.
    pub open spec fn text(self) -> Seq<char> {
        match self {
            Error::AccessEventDeviceFile => {
                "Event device file doesn't exists or can't be accessed"@
            },
            Error::FailedJoiningThreads => "Threads can't be joined"@,
            Error::CouldNotCreateBackend(reason) => "Could not create backend: "@ + reason@,
            Error::CouldNotCreateDaemon(reason) => "Could not create daemon: "@ + reason@,
            Error::ParseFailure => "Failed while parsing to String"@,
        }
    }

    /// What the error says.
    pub fn message(&self) -> (r: String)
        ensures
            r@ == self.text(),
    {
        match self {
            Error::AccessEventDeviceFile => {
                "Event device file doesn't exists or can't be accessed".to_owned()
            },
            Error::FailedJoiningThreads => "Threads can't be joined".to_owned(),
            Error::CouldNotCreateBackend(reason) => {
                let mut r = "Could not create backend: ".to_owned();
                r.append(reason.as_str());
                r
            },
            Error::CouldNotCreateDaemon(reason) => {
                let mut r = "Could not create daemon: ".to_owned();
                r.append(reason.as_str());
                r
            },
            Error::ParseFailure => "Failed while parsing to String".to_owned(),
        }
    }
}

/// The arguments of the daemon as they were given.
#[derive(Clone, Debug, PartialEq, Eq)]
pub struct InputArgs {
    /// Where the sockets are to lie.
    pub socket_path: String,
    /// The input devices, with commas between them.
    pub event_list: String,
}

/// What the daemon is to serve.
#[derive(Clone, Debug, PartialEq, Eq)]
pub struct VuInputConfig {
    /// Where the sockets are to lie.
    pub socket_path: String,
    /// The input devices.
    pub events: Vec<String>,
    /// How many input devices there are.
    pub count: u32,
}

/// The input devices in a list with commas between them.
pub open spec fn devices(event_list: Seq<char>) -> Seq<Seq<char>> {
    split(trimmed(event_list), ',')
}

/// The socket of the input device with number `i`.
pub open spec fn socket_of(socket_path: Seq<char>, i: nat) -> Seq<char> {
    socket_path + decimal(i)
}

/// An input device and the socket on which it is served.
#[derive(Debug, PartialEq, Eq)]
pub struct Launch {
    pub socket: String,
    pub event: String,
}

impl VuInputConfig {
    /// Whether the count is the number of input devices.
    pub open spec fn wf(&self) -> bool {
        self.count == self.events@.len()
    }

    /// Reads the arguments: white space at the ends is dropped, and the list of devices is taken
    /// apart at its commas.
    pub fn try_from(args: InputArgs) -> (r: Result<VuInputConfig, Error>)
        requires
            devices(args.event_list@).len() <= u32::MAX,
        ensures
            r matches Ok(config) && {
                &&& config.wf()
                &&& config.socket_path@ == trimmed(args.socket_path@)
                &&& texts(config.events@) == devices(args.event_list@)
                &&& config.count == config.events@.len()
                &&& config.events@.len() == devices(args.event_list@).len()
                &&& forall|i: int|
                    0 <= i < config.events@.len() ==> (#[trigger] config.events@[i])@ == devices(
                        args.event_list@,
                    )[i]
            },
    {
        let socket_path = trim(args.socket_path.as_str()).to_owned();
        let events = split_text(trim(args.event_list.as_str()), ',');
        proof {
            assert(texts(events@).len() == events@.len());
            assert forall|i: int| 0 <= i < events@.len() implies (#[trigger] events@[i])@ == devices(
                args.event_list@,
            )[i] by {
                assert(texts(events@)[i] == events@[i]@);
            }
        }
        let count = events.len() as u32;
        Ok(VuInputConfig { socket_path, events, count })
    }

    /// The workers to start: each serves one input device, on a socket that ends with the number
    /// of the device.
    pub fn launches(&self) -> (r: Vec<Launch>)
        requires
            self.count <= self.events@.len(),
        ensures
            r@.len() == self.count,
            forall|i: int|
                0 <= i < self.count ==> (#[trigger] r@[i]).socket@ == socket_of(
                    self.socket_path@,
                    i as nat,
                ) && r@[i].event@ == self.events@[i]@,
    {
        let mut launches: Vec<Launch> = Vec::new();
        let mut i: u32 = 0;
        while i < self.count
            invariant
                i <= self.count <= self.events@.len(),
                launches@.len() == i,
                forall|j: int|
                    0 <= j < i ==> (#[trigger] launches@[j]).socket@ == socket_of(
                        self.socket_path@,
                        j as nat,
                    ) && launches@[j].event@ == self.events@[j]@,
            decreases self.count - i,
        {
            let mut socket = self.socket_path.clone();
            push_decimal(&mut socket, i as u64);
            let event = self.events[i as usize].clone();
            launches.push(Launch { socket, event });
            i += 1;
        }
        launches
    }
}

/// No two input devices are served on the same socket.
pub proof fn law_sockets_differ(socket_path: Seq<char>, i: nat, j: nat)
    requires
        i != j,
    ensures
        socket_of(socket_path, i) != socket_of(socket_path, j),
{
    law_decimals_differ(i, j);
    let a = socket_of(socket_path, i);
    let b = socket_of(socket_path, j);
    assert(a.skip(socket_path.len() as int) =~= decimal(i));
    assert(b.skip(socket_path.len() as int) =~= decimal(j));
}

/// What a worker does next.
#[derive(Clone, Copy, Debug, PartialEq, Eq, Structural)]
pub enum WorkerStep {
    /// Open the input device.
    OpenDevice,
    /// Set up the device for the guest.
    CreateBackend,
    /// Set up its service.
    CreateDaemon,
    /// Have the service woken by events of the input device.
    Register,
    /// Open the socket.
    Listen,
    /// Start the service.
    Start,
    /// Wait until the service ends.
    Wait,
    /// End the thread that serves the queues.
    Shutdown,
}

/// How a step of a worker went.
#[derive(Debug, PartialEq, Eq)]
pub enum StepReply {
    Done,
    /// It failed, for the reason given.
    Failed(String),
}

/// How a worker ends.
#[derive(Debug, PartialEq, Eq)]
pub enum WorkerEnd {
    /// With an error.
    Failed(Error),
    /// By a panic.
    Panicked,
}

/// What follows a step that went as `reply` says. A worker goes round for ever: when its service
/// has ended, well or not, it ends the thread and starts again. Only a failure can end it, and
/// not all of them do.
pub open spec fn step_after(step: WorkerStep, reply: StepReply) -> Result<WorkerStep, WorkerEnd> {
    match (step, reply) {
        (WorkerStep::OpenDevice, StepReply::Done) => Ok(WorkerStep::CreateBackend),
        (WorkerStep::OpenDevice, StepReply::Failed(_)) => Err(
            WorkerEnd::Failed(Error::AccessEventDeviceFile),
        ),
        (WorkerStep::CreateBackend, StepReply::Done) => Ok(WorkerStep::CreateDaemon),
        (WorkerStep::CreateBackend, StepReply::Failed(reason)) => Err(
            WorkerEnd::Failed(Error::CouldNotCreateBackend(reason)),
        ),
        (WorkerStep::CreateDaemon, StepReply::Done) => Ok(WorkerStep::Register),
        (WorkerStep::CreateDaemon, StepReply::Failed(reason)) => Err(
            WorkerEnd::Failed(Error::CouldNotCreateDaemon(reason)),
        ),
        (WorkerStep::Register, _) => Ok(WorkerStep::Listen),
        (WorkerStep::Listen, StepReply::Done) => Ok(WorkerStep::Start),
        (WorkerStep::Start, StepReply::Done) => Ok(WorkerStep::Wait),
        (WorkerStep::Wait, _) => Ok(WorkerStep::Shutdown),
        (WorkerStep::Shutdown, StepReply::Done) => Ok(WorkerStep::OpenDevice),
        (WorkerStep::Listen, StepReply::Failed(_)) => Err(WorkerEnd::Panicked),
        (WorkerStep::Start, StepReply::Failed(_)) => Err(WorkerEnd::Panicked),
        (WorkerStep::Shutdown, StepReply::Failed(_)) => Err(WorkerEnd::Panicked),
    }
}

impl WorkerStep {
    /// What follows this step, which went as `reply` says.
    pub fn advance(self, reply: StepReply) -> (r: Result<WorkerStep, WorkerEnd>)
        ensures
            r == step_after(self, reply),
    {
        match reply {
            StepReply::Done => Ok(
                match self {
                    WorkerStep::OpenDevice => WorkerStep::CreateBackend,
                    WorkerStep::CreateBackend => WorkerStep::CreateDaemon,
                    WorkerStep::CreateDaemon => WorkerStep::Register,
                    WorkerStep::Register => WorkerStep::Listen,
                    WorkerStep::Listen => WorkerStep::Start,
                    WorkerStep::Start => WorkerStep::Wait,
                    WorkerStep::Wait => WorkerStep::Shutdown,
                    WorkerStep::Shutdown => WorkerStep::OpenDevice,
                },
            ),
            StepReply::Failed(reason) => match self {
                WorkerStep::OpenDevice => Err(WorkerEnd::Failed(Error::AccessEventDeviceFile)),
                WorkerStep::CreateBackend => Err(
                    WorkerEnd::Failed(Error::CouldNotCreateBackend(reason)),
                ),
                WorkerStep::CreateDaemon => Err(
                    WorkerEnd::Failed(Error::CouldNotCreateDaemon(reason)),
                ),
                WorkerStep::Register => Ok(WorkerStep::Listen),
                WorkerStep::Wait => Ok(WorkerStep::Shutdown),
                WorkerStep::Listen | WorkerStep::Start | WorkerStep::Shutdown => Err(
                    WorkerEnd::Panicked,
                ),
            },
        }
    }
}

/// The error that a worker leaves behind: a panic is an error of its own, and any other error is
/// passed on.
pub open spec fn error_of(end: WorkerEnd) -> Error {
    match end {
        WorkerEnd::Failed(e) => e,
        WorkerEnd::Panicked => Error::FailedJoiningThreads,
    }
}

/// What the daemon makes of a worker that ended.
pub fn joined(end: WorkerEnd) -> (r: Error)
    ensures
        r == error_of(end),
{
    match end {
        WorkerEnd::Failed(e) => e,
        WorkerEnd::Panicked => Error::FailedJoiningThreads,
    }
}

/// What the daemon comes to, given how the first of its workers ended. No worker ends well, so
/// the first one decides, and all is well only where there is none.
pub fn outcome(first: Option<WorkerEnd>) -> (r: Result<(), Error>)
    ensures
        r == (match first {
            Some(end) => Err::<(), Error>(error_of(end)),
            None => Ok(()),
        }),
{
    match first {
        Some(end) => Err(joined(end)),
        None => Ok(()),
    }
}

/// Where a worker is after `n` steps that all went well.
pub open spec fn after_steps(step: WorkerStep, n: nat) -> WorkerStep
    decreases n,
{
    if n == 0 {
        step
    } else {
        step_after(after_steps(step, (n - 1) as nat), StepReply::Done)->Ok_0
    }
}

/// A worker in which all goes well never ends, and comes back to where it was after one round.
pub proof fn law_worker_goes_round(step: WorkerStep)
    ensures
        step_after(step, StepReply::Done) is Ok,
        after_steps(step, 8) == step,
{
    reveal_with_fuel(after_steps, 9);
}

/// However the wait for the service ends, the thread that serves the queues is ended.
pub proof fn law_thread_is_always_ended(reply: StepReply)
    ensures
        step_after(WorkerStep::Wait, reply) == Ok::<WorkerStep, WorkerEnd>(WorkerStep::Shutdown),
{
}

/// The socket of an input device is the given path followed by the number of the device in
/// decimal: digits without a leading zero, which read back as that number.
pub proof fn law_socket_ends_with_the_number(socket_path: Seq<char>, i: nat)
    ensures
        ({
            let socket = socket_of(socket_path, i);
            let n = socket_path.len() as int;
            let digits = socket.skip(n);
            &&& socket.len() > n
            &&& socket.take(n) == socket_path
            &&& number_of(digits) == i
            &&& forall|j: int| 0 <= j < digits.len() ==> '0' <= #[trigger] digits[j] <= '9'
            &&& digits.len() > 1 ==> digits[0] != '0'
        }),
{
    let socket = socket_of(socket_path, i);
    let n = socket_path.len() as int;
    law_decimal_reads_back(i);
    assert(socket.take(n) =~= socket_path);
    assert(socket.skip(n) =~= decimal(i));
}

/// The input devices are what lies between the commas of the list, from which white space was
/// taken at its two ends and nowhere else: put together with commas they give it back, none of
/// them holds a comma, and there is one more than there are commas.
pub proof fn law_devices_are_between_commas(event_list: Seq<char>)
    ensures
        ({
            let parts = devices(event_list);
            let list = join(parts, ',');
            &&& exists|from: int, to: int|
                0 <= from <= to <= event_list.len() && list == #[trigger] event_list.subrange(
                    from,
                    to,
                ) && (forall|i: int|
                    0 <= i < from || to <= i < event_list.len() ==> is_white_space(
                        #[trigger] event_list[i],
                    ))
            &&& list.len() > 0 ==> !is_white_space(list.first()) && !is_white_space(list.last())
            &&& forall|i: int| 0 <= i < parts.len() ==> !(#[trigger] parts[i]).contains(',')
            &&& parts.len() == occurrences(list, ',') + 1
        }),
{
    law_trimmed(event_list);
    law_split_and_join(trimmed(event_list), ',');
}

/// What counts as well formed has as many input devices as it says.
pub proof fn law_count_is_that_of_the_devices(config: VuInputConfig)
    ensures
        config.wf() <==> config.count == config.events@.len(),
{
}

/// The place of a step in the round of a worker.
pub open spec fn place(step: WorkerStep) -> int {
    match step {
        WorkerStep::OpenDevice => 0,
        WorkerStep::CreateBackend => 1,
        WorkerStep::CreateDaemon => 2,
        WorkerStep::Register => 3,
        WorkerStep::Listen => 4,
        WorkerStep::Start => 5,
        WorkerStep::Wait => 6,
        WorkerStep::Shutdown => 7,
    }
}

/// A step that went well is followed by the next one of the round, and the last by the first. One
/// that failed is followed by the same step as if it had gone well, or ends the worker: it goes on
/// without the device waking it and after a wait that failed, and after no other failure.
pub proof fn law_steps_follow_each_other(step: WorkerStep, reason: String)
    ensures
        step_after(step, StepReply::Done) matches Ok(next) && place(next) == (place(step) + 1) % 8,
        step_after(step, StepReply::Failed(reason)) is Ok <==> step == WorkerStep::Register || step
            == WorkerStep::Wait,
        step_after(step, StepReply::Failed(reason)) is Ok ==> step_after(
            step,
            StepReply::Failed(reason),
        ) == step_after(step, StepReply::Done),
{
}

/// What the daemon reports of a worker that ended: that the device cannot be opened, that the
/// backend or the daemon could not be created, with the reason as it was given, or that it
/// panicked, each for the steps that it can happen at.
pub proof fn law_end_of_a_worker_is_reported(step: WorkerStep, reason: String)
    ensures
        step_after(step, StepReply::Failed(reason)) matches Err(end) ==> {
            let e = error_of(end);
            &&& end == WorkerEnd::Panicked <==> step == WorkerStep::Listen || step
                == WorkerStep::Start || step == WorkerStep::Shutdown
            &&& e == Error::AccessEventDeviceFile <==> step == WorkerStep::OpenDevice
            &&& e == Error::CouldNotCreateBackend(reason) <==> step == WorkerStep::CreateBackend
            &&& e == Error::CouldNotCreateDaemon(reason) <==> step == WorkerStep::CreateDaemon
            &&& e == Error::FailedJoiningThreads <==> end == WorkerEnd::Panicked
        },
        error_of(WorkerEnd::Panicked) == Error::FailedJoiningThreads,
        forall|e: Error| #[trigger] error_of(WorkerEnd::Failed(e)) == e,
{
}

/// An error that has a reason says it as it was given, behind words of its own.
pub proof fn law_reasons_are_said(reason: String)
    ensures
        ({
            let backend = Error::CouldNotCreateBackend(reason).text();
            let daemon = Error::CouldNotCreateDaemon(reason).text();
            &&& backend.take("Could not create backend: "@.len() as int)
                == "Could not create backend: "@
            &&& backend.skip("Could not create backend: "@.len() as int) == reason@
            &&& daemon.take("Could not create daemon: "@.len() as int)
                == "Could not create daemon: "@
            &&& daemon.skip("Could not create daemon: "@.len() as int) == reason@
        }),
{
    let backend = Error::CouldNotCreateBackend(reason).text();
    let daemon = Error::CouldNotCreateDaemon(reason).text();
    assert(backend.take("Could not create backend: "@.len() as int)
        =~= "Could not create backend: "@);
    assert(backend.skip("Could not create backend: "@.len() as int) =~= reason@);
    assert(daemon.take("Could not create daemon: "@.len() as int) =~= "Could not create daemon: "@);
    assert(daemon.skip("Could not create daemon: "@.len() as int) =~= reason@);
}

} // verus!
