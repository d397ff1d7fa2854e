use crate::text::{decimal, decimal_text, joined};
use vstd::prelude::*;
use vstd::string::StringExecFns;

verus! {

/// The browser-automation driver that a login is run through.
#[derive(Debug, Clone, Copy, PartialEq, Eq, Structural)]
pub enum WebDriver {
    Chromium,
    Gecko,
}

impl Default for WebDriver {
    fn default() -> (webdriver: Self)
        ensures
            webdriver == WebDriver::Chromium,
    {
        WebDriver::Chromium
    }
}

/// Number of connection attempts that a freshly started driver is given.
pub const MAX_ATTEMPTS: u8 = 10;

/// Pause after a refused connection attempt, in seconds.
pub const RETRY_DELAY_SECONDS: u64 = 1;

/// Host on which the driver is probed.
pub const DRIVER_HOST: &'static str = "127.0.0.1";

/// Name of the program that runs a driver.
pub open spec fn driver_program(webdriver: WebDriver) -> Seq<char> {
    match webdriver {
        WebDriver::Chromium => "chromedriver"@,
        WebDriver::Gecko => "geckodriver"@,
    }
}

/// Arguments that make a driver listen on `port`. Chromium's driver takes
/// the port in one argument and is told to run without a window; Gecko's
/// takes the port as an argument of its own.
pub open spec fn driver_arguments(webdriver: WebDriver, port: u16) -> Seq<Seq<char>> {
    match webdriver {
        WebDriver::Chromium => seq!["--port="@ + decimal_text(port as nat), "--headless"@],
        WebDriver::Gecko => seq!["--port"@, decimal_text(port as nat)],
    }
}

/// The texts of a list of arguments.
pub open spec fn arguments_view(args: Seq<String>) -> Seq<Seq<char>> {
    Seq::new(args.len(), |i: int| args[i]@)
}

/// A program with its arguments.
#[derive(Debug)]
pub struct DriverCommand {
    pub program: String,
    pub args: Vec<String>,
}

/// The command line that starts `webdriver` on `port`.
pub fn driver_command(webdriver: WebDriver, port: u16) -> (command: DriverCommand)
    ensures
        command.program@ == driver_program(webdriver),
        arguments_view(command.args@) == driver_arguments(webdriver, port),
{
    let mut args: Vec<String> = Vec::new();
    let number = decimal(port as u64);
    match webdriver {
        WebDriver::Chromium => {
            args.push(joined("--port=", number.as_str()));
            args.push(String::from_str("--headless"));
            assert(arguments_view(args@) =~= driver_arguments(webdriver, port));
            DriverCommand { program: String::from_str("chromedriver"), args }
        },
        WebDriver::Gecko => {
            args.push(String::from_str("--port"));
            args.push(number);
            assert(arguments_view(args@) =~= driver_arguments(webdriver, port));
            DriverCommand { program: String::from_str("geckodriver"), args }
        },
    }
}

/// The address at which an automation session is opened on a local driver.
pub fn session_url(port: u16) -> (url: String)
    ensures
        url@ == "http://localhost:"@ + decimal_text(port as nat),
{
    let number = decimal(port as u64);
    joined("http://localhost:", number.as_str())
}

/// Why a launch ended without a usable driver.
#[derive(Debug, Clone, Copy, PartialEq, Eq, Structural)]
pub enum LaunchFailure {
    /// The driver process could not be started.
    Spawn,
    /// The driver was started, never became reachable and has been killed.
    Unreachable,
}

/// Where a launch stands. A driver process exists in `Probing`, `Waiting`,
/// `Ready` and `Stopping`, and in no other state.
#[derive(Debug, Clone, Copy, PartialEq, Eq, Structural)]
pub enum LaunchState {
    /// Nothing has been started.
    Idle,
    /// A connection attempt is due; `failed` attempts were refused so far.
    Probing { failed: u8 },
    /// A pause is due after the attempt that brought the count to `failed`.
    Waiting { failed: u8 },
    /// The driver answers.
    Ready,
    /// The attempts are used up; the process is to be killed.
    Stopping,
    /// The launch is over and no process is left.
    Failed(LaunchFailure),
}

/// What the caller reports back after performing an action.
#[derive(Debug, Clone, Copy, PartialEq, Eq, Structural)]
pub enum LaunchEvent {
    Spawned,
    SpawnFailed,
    Connected,
    Refused,
    Slept,
    Killed,
}

/// What the caller is to do next.
#[derive(Debug, Clone, Copy, PartialEq, Eq, Structural)]
pub enum LaunchAction {
    /// Start the driver process.
    Spawn,
    /// Try to connect to the driver's port.
    Connect,
    /// Pause for `RETRY_DELAY_SECONDS`.
    Sleep,
    /// Kill the driver process.
    Kill,
    /// Hand the running process to the login.
    Done,
    /// Give up for the stated reason.
    Fail(LaunchFailure),
}

impl LaunchState {
    /// The counts that a state may hold.
    pub open spec fn wf(self) -> bool {
        match self {
            LaunchState::Probing { failed } => failed < MAX_ATTEMPTS,
            LaunchState::Waiting { failed } => 1 <= failed <= MAX_ATTEMPTS,
            _ => true,
        }
    }

    /// Whether a driver process exists in this state.
    pub open spec fn process_running(self) -> bool {
        self is Probing || self is Waiting || self is Ready || self is Stopping
    }

    /// Whether `event` answers the action that this state is waiting for.
    pub open spec fn accepts(self, event: LaunchEvent) -> bool {
        match (self, event) {
            (LaunchState::Idle, LaunchEvent::Spawned) => true,
            (LaunchState::Idle, LaunchEvent::SpawnFailed) => true,
            (LaunchState::Probing { .. }, LaunchEvent::Connected) => true,
            (LaunchState::Probing { .. }, LaunchEvent::Refused) => true,
            (LaunchState::Waiting { .. }, LaunchEvent::Slept) => true,
            (LaunchState::Stopping, LaunchEvent::Killed) => true,
            _ => false,
        }
    }

    /// The state after `event`. An event that does not answer the pending
    /// action changes nothing, and the count of refused attempts never goes
    /// beyond the number of attempts that a driver is given.
    pub open spec fn after(self, event: LaunchEvent) -> LaunchState {
        match (self, event) {
            (LaunchState::Idle, LaunchEvent::Spawned) => LaunchState::Probing { failed: 0 },
            (LaunchState::Idle, LaunchEvent::SpawnFailed) => LaunchState::Failed(
                LaunchFailure::Spawn,
            ),
            (LaunchState::Probing { .. }, LaunchEvent::Connected) => LaunchState::Ready,
            (LaunchState::Probing { failed }, LaunchEvent::Refused) => LaunchState::Waiting {
                failed: if failed < MAX_ATTEMPTS {
                    (failed + 1) as u8
                } else {
                    MAX_ATTEMPTS
                },
            },
            (LaunchState::Waiting { failed }, LaunchEvent::Slept) => if failed >= MAX_ATTEMPTS {
                LaunchState::Stopping
            } else {
                LaunchState::Probing { failed }
            },
            (LaunchState::Stopping, LaunchEvent::Killed) => LaunchState::Failed(
                LaunchFailure::Unreachable,
            ),
            _ => self,
        }
    }

    /// The action that this state is waiting for.
    pub open spec fn pending(self) -> LaunchAction {
        match self {
            LaunchState::Idle => LaunchAction::Spawn,
            LaunchState::Probing { .. } => LaunchAction::Connect,
            LaunchState::Waiting { .. } => LaunchAction::Sleep,
            LaunchState::Ready => LaunchAction::Done,
            LaunchState::Stopping => LaunchAction::Kill,
            LaunchState::Failed(failure) => LaunchAction::Fail(failure),
        }
    }

    /// The state in which every launch begins.
    pub fn new() -> (state: Self)
        ensures
            state == LaunchState::Idle,
            state.wf(),
    {
        LaunchState::Idle
    }

    /// Takes in what the caller reports and moves on.
    pub fn next(self, event: LaunchEvent) -> (state: Self)
        ensures
            state == self.after(event),
            self.wf() ==> state.wf(),
    {
        match (self, event) {
            (LaunchState::Idle, LaunchEvent::Spawned) => LaunchState::Probing { failed: 0 },
            (LaunchState::Idle, LaunchEvent::SpawnFailed) => LaunchState::Failed(
                LaunchFailure::Spawn,
            ),
            (LaunchState::Probing { .. }, LaunchEvent::Connected) => LaunchState::Ready,
            (LaunchState::Probing { failed }, LaunchEvent::Refused) => LaunchState::Waiting {
                failed: if failed < MAX_ATTEMPTS {
                    failed + 1
                } else {
                    MAX_ATTEMPTS
                },
            },
            (LaunchState::Waiting { failed }, LaunchEvent::Slept) => if failed >= MAX_ATTEMPTS {
                LaunchState::Stopping
            } else {
                LaunchState::Probing { failed }
            },
            (LaunchState::Stopping, LaunchEvent::Killed) => LaunchState::Failed(
                LaunchFailure::Unreachable,
            ),
            _ => self,
        }
    }

    /// Tells the caller what to do in this state.
    pub fn action(self) -> (action: LaunchAction)
        ensures
            action == self.pending(),
    {
        match self {
            LaunchState::Idle => LaunchAction::Spawn,
            LaunchState::Probing { .. } => LaunchAction::Connect,
            LaunchState::Waiting { .. } => LaunchAction::Sleep,
            LaunchState::Ready => LaunchAction::Done,
            LaunchState::Stopping => LaunchAction::Kill,
            LaunchState::Failed(failure) => LaunchAction::Fail(failure),
        }
    }
}

/// How often each kind of work was done in the course of a launch.
pub struct Tally {
    /// Connection attempts that were answered.
    pub probes: nat,
    /// Pauses that were taken.
    pub pauses: nat,
    /// Kills of the driver process.
    pub kills: nat,
}

/// The tally after `event` arrived in `state`. Only an event that answers
/// the pending action counts.
pub open spec fn tally_after(state: LaunchState, event: LaunchEvent, tally: Tally) -> Tally {
    if !state.accepts(event) {
        tally
    } else {
        match event {
            LaunchEvent::Connected | LaunchEvent::Refused => Tally {
                probes: tally.probes + 1,
                ..tally
            },
            LaunchEvent::Slept => Tally { pauses: tally.pauses + 1, ..tally },
            LaunchEvent::Killed => Tally { kills: tally.kills + 1, ..tally },
            _ => tally,
        }
    }
}

/// State and tally of a launch to which `events` were reported in turn.
pub open spec fn launch_run(events: Seq<LaunchEvent>) -> (LaunchState, Tally)
    decreases events.len(),
{
    if events.len() == 0 {
        (LaunchState::Idle, Tally { probes: 0, pauses: 0, kills: 0 })
    } else {
        let (state, tally) = launch_run(events.drop_last());
        (state.after(events.last()), tally_after(state, events.last(), tally))
    }
}

/// How state and tally hang together in every launch.
pub open spec fn launch_accounted(state: LaunchState, tally: Tally) -> bool {
    match state {
        LaunchState::Idle => tally.probes == 0 && tally.pauses == 0 && tally.kills == 0,
        LaunchState::Probing { failed } => failed < MAX_ATTEMPTS && tally.probes == failed
            && tally.pauses == failed && tally.kills == 0,
        LaunchState::Waiting { failed } => 1 <= failed <= MAX_ATTEMPTS && tally.probes == failed
            && tally.pauses == failed - 1 && tally.kills == 0,
        LaunchState::Ready => 1 <= tally.probes <= MAX_ATTEMPTS && tally.pauses == tally.probes - 1
            && tally.kills == 0,
        LaunchState::Stopping => tally.probes == MAX_ATTEMPTS && tally.pauses == MAX_ATTEMPTS
            && tally.kills == 0,
        LaunchState::Failed(LaunchFailure::Spawn) => tally.probes == 0 && tally.pauses == 0
            && tally.kills == 0,
        LaunchState::Failed(LaunchFailure::Unreachable) => tally.probes == MAX_ATTEMPTS
            && tally.pauses == MAX_ATTEMPTS && tally.kills == 1,
    }
}

/// Whatever is reported to a launch, in whatever order: the driver is
/// probed at most ten times, every probe but the first comes after a pause
/// of its own, and the launch ends as unreachable only after exactly ten
/// answered probes, ten pauses and one kill of the process. A launch that
/// ends with a usable driver has killed nothing.
pub proof fn launch_stays_within_budget(events: Seq<LaunchEvent>)
    ensures
        launch_run(events).0.wf(),
        launch_accounted(launch_run(events).0, launch_run(events).1),
        launch_run(events).1.probes <= MAX_ATTEMPTS,
        launch_run(events).1.pauses + 1 >= launch_run(events).1.probes,
        launch_run(events).0 == LaunchState::Failed(LaunchFailure::Unreachable) ==> launch_run(
            events,
        ).1 == (Tally { probes: 10, pauses: 10, kills: 1 }),
        launch_run(events).0 is Ready ==> launch_run(events).1.kills == 0,
        launch_run(events).0 is Failed ==> !launch_run(events).0.process_running(),
    decreases events.len(),
{
    if events.len() > 0 {
        launch_stays_within_budget(events.drop_last());
    }
}

/// Whether every event of a run answers the action that was pending when it
/// arrived.
pub open spec fn answers_in_turn(events: Seq<LaunchEvent>) -> bool {
    forall|i: int|
        0 <= i < events.len() ==> (#[trigger] launch_run(events.take(i))).0.accepts(events[i])
}

/// Whether a run is one in which the driver starts and never answers.
pub open spec fn never_reachable(events: Seq<LaunchEvent>) -> bool {
    forall|i: int|
        0 <= i < events.len() ==> #[trigger] events[i] != LaunchEvent::Connected && events[i]
            != LaunchEvent::SpawnFailed
}

/// The state of a launch after `count` answers, none of which is a
/// successful start of a connection.
pub open spec fn unreachable_state(count: nat) -> LaunchState {
    if count == 0 {
        LaunchState::Idle
    } else if count <= 20 {
        if count % 2 == 1 {
            LaunchState::Probing { failed: ((count - 1) / 2) as u8 }
        } else {
            LaunchState::Waiting { failed: (count / 2) as u8 }
        }
    } else if count == 21 {
        LaunchState::Stopping
    } else {
        LaunchState::Failed(LaunchFailure::Unreachable)
    }
}

/// A driver that starts and never becomes reachable: the launch takes
/// exactly twenty-two answers (the start, ten refused probes with a pause
/// after each, the kill) and then stands at `Failed(Unreachable)`, with no
/// process left. Before that it has neither succeeded nor failed, and after it
/// nothing more is asked of the caller.
pub proof fn unreachable_driver_fails_after_ten_attempts(events: Seq<LaunchEvent>)
    requires
        answers_in_turn(events),
        never_reachable(events),
    ensures
        events.len() <= 22,
        launch_run(events).0 == unreachable_state(events.len()),
        events.len() < 22 ==> !(launch_run(events).0 is Failed) && !(launch_run(events).0 is Ready),
        events.len() == 22 ==> launch_run(events).0 == LaunchState::Failed(
            LaunchFailure::Unreachable,
        ) && launch_run(events).1 == (Tally { probes: 10, pauses: 10, kills: 1 })
            && !launch_run(events).0.process_running(),
    decreases events.len(),
{
    if events.len() > 0 {
        let shorter = events.drop_last();
        assert forall|i: int| 0 <= i < shorter.len() implies (#[trigger] launch_run(
            shorter.take(i),
        )).0.accepts(shorter[i]) by {
            assert(shorter.take(i) =~= events.take(i));
        }
        unreachable_driver_fails_after_ten_attempts(shorter);
        assert(events.take(events.len() - 1) =~= shorter);
        assert(launch_run(shorter).0.accepts(events.last()));
        assert(events.last() == events[events.len() - 1]);
    }
    launch_stays_within_budget(events);
}

} // verus!
