use vstd::prelude::*;

verus! {

/// The register value that stands for "no application recorded".
pub const UNSET_PID: i32 = 0;

/// The activation option handed to the system: bring the application to the
/// front even while other applications ask for activation.
pub const ACTIVATE_IGNORING_OTHER_APPS: u64 = 2;

/// How long the caller waits after asking for an activation, in milliseconds,
/// so that the system can complete the focus switch.
pub const RESTORE_SETTLE_MILLIS: u64 = 150;

/// The single-slot register that remembers which application had the input
/// focus before the utility's window took it.
#[derive(Clone, Copy, Debug, PartialEq, Eq, Structural)]
pub struct ForegroundRegister {
    pid: i32,
}

/// One request to the caller while the recorded application is brought back.
#[derive(Clone, Copy, Debug, PartialEq, Eq, Structural)]
pub enum RestoreStep {
    /// Ask the system to activate the running application at `index` of the
    /// list that was handed in, with the activation options `options`.
    Activate { index: usize, options: u64 },
    /// Block for `millis` milliseconds.
    Settle { millis: u64 },
}

impl ForegroundRegister {
    /// The process identifier the register holds; `UNSET_PID` when none is held.
    pub closed spec fn pid(self) -> i32 {
        self.pid
    }

    /// Whether an application is recorded.
    pub open spec fn holds_pid(self) -> bool {
        self.pid() != UNSET_PID
    }

    /// A register that holds nothing.
    pub fn new() -> (register: Self)
        ensures
            register.pid() == UNSET_PID,
            !register.holds_pid(),
    {
        ForegroundRegister { pid: UNSET_PID }
    }

    /// The register that a process-wide cell with content `raw` stands for.
    pub fn from_raw(raw: i32) -> (register: Self)
        ensures
            register.pid() == raw,
    {
        ForegroundRegister { pid: raw }
    }

    /// The content to keep in a process-wide cell.
    pub fn raw(&self) -> (raw: i32)
        ensures
            raw == self.pid(),
    {
        self.pid
    }

    /// Whether an application is recorded.
    pub fn is_set(&self) -> (set: bool)
        ensures
            set == self.holds_pid(),
    {
        self.pid != UNSET_PID
    }
}

/// The index of the first entry of `running` that equals `pid`, if there is one.
pub open spec fn first_match(running: Seq<i32>, pid: i32) -> Option<int>
    decreases running.len(),
{
    if running.len() == 0 {
        None
    } else if running[0] == pid {
        Some(0)
    } else {
        match first_match(running.drop_first(), pid) {
            Some(index) => Some(index + 1),
            None => None,
        }
    }
}

/// `first_match` finds an entry equal to `pid` with none before it, and
/// finds nothing only where no entry equals `pid`.
pub proof fn lemma_first_match(running: Seq<i32>, pid: i32)
    ensures
        match first_match(running, pid) {
            Some(index) => {
                &&& 0 <= index < running.len()
                &&& running[index] == pid
                &&& forall|j: int| 0 <= j < index ==> running[j] != pid
            },
            None => forall|j: int| 0 <= j < running.len() ==> running[j] != pid,
        },
    decreases running.len(),
{
    if running.len() > 0 && running[0] != pid {
        let rest = running.drop_first();
        lemma_first_match(rest, pid);
        match first_match(rest, pid) {
            Some(index) => {
                assert forall|j: int| 0 <= j < index + 1 implies running[j] != pid by {
                    if j > 0 {
                        assert(rest[j - 1] == running[j]);
                    }
                }
            },
            None => {
                assert forall|j: int| 0 <= j < running.len() implies running[j] != pid by {
                    if j > 0 {
                        assert(rest[j - 1] == running[j]);
                    }
                }
            },
        }
    }
}

/// An entry equal to `pid` with none before it is the one `first_match` finds.
pub proof fn lemma_first_match_is(running: Seq<i32>, pid: i32, index: int)
    requires
        0 <= index < running.len(),
        running[index] == pid,
        forall|j: int| 0 <= j < index ==> running[j] != pid,
    ensures
        first_match(running, pid) == Some(index),
{
    lemma_first_match(running, pid);
}

/// What the register holds after the system was asked for the frontmost
/// application: the answer, or the old content where there was no answer.
pub open spec fn recorded(before: ForegroundRegister, frontmost: Option<i32>) -> i32 {
    match frontmost {
        Some(pid) => pid,
        None => before.pid(),
    }
}

/// The steps that bring the recorded application back. An empty register asks
/// for nothing at all. Otherwise the first running application with the
/// recorded identifier is activated, if there is one, and the caller waits
/// for the focus switch either way.
pub open spec fn restore_plan(register: ForegroundRegister, running: Seq<i32>) -> Seq<RestoreStep> {
    if !register.holds_pid() {
        Seq::empty()
    } else {
        match first_match(running, register.pid()) {
            Some(index) => seq![
                RestoreStep::Activate {
                    index: index as usize,
                    options: ACTIVATE_IGNORING_OTHER_APPS,
                },
                RestoreStep::Settle { millis: RESTORE_SETTLE_MILLIS },
            ],
            None => seq![RestoreStep::Settle { millis: RESTORE_SETTLE_MILLIS }],
        }
    }
}

/// Whether `step` asks for an activation.
pub open spec fn is_activation(step: RestoreStep) -> bool {
    step is Activate
}

/// Records the application that has the input focus. `frontmost` is the
/// system's answer: the process identifier of the frontmost application, or
/// `None` where it could name none, in which case the register keeps what it
/// held. To be called before the utility's own window is shown.
pub fn save_frontmost_app_pid(register: &mut ForegroundRegister, frontmost: Option<i32>)
    ensures
        final(register).pid() == recorded(*old(register), frontmost),
{
    if let Some(pid) = frontmost {
        register.pid = pid;
    }
}

/// Finds the first entry of `running` that equals `pid`.
pub fn find_running(running: &Vec<i32>, pid: i32) -> (found: Option<usize>)
    ensures
        match found {
            Some(index) => first_match(running@, pid) == Some(index as int),
            None => first_match(running@, pid) is None,
        },
{
    let mut i: usize = 0;
    while i < running.len()
        invariant
            i <= running.len(),
            forall|j: int| 0 <= j < i ==> running@[j] != pid,
        decreases running.len() - i,
    {
        if running[i] == pid {
            proof {
                lemma_first_match_is(running@, pid, i as int);
            }
            return Some(i);
        }
        i += 1;
    }
    proof {
        lemma_first_match(running@, pid);
    }
    None
}

/// Plans how the recorded application is brought back to the front.
/// `running` lists the process identifiers of the running applications in the
/// order in which the system enumerates them.
pub fn activate_previous_app(register: &ForegroundRegister, running: &Vec<i32>) -> (steps: Vec<
    RestoreStep,
>)
    ensures
        steps@ == restore_plan(*register, running@),
        !register.holds_pid() ==> steps@.len() == 0,
        forall|k: int| 0 <= k < steps@.len() && is_activation(#[trigger] steps@[k]) ==> k == 0,
        forall|k: int|
            0 <= k < steps@.len() ==> match #[trigger] steps@[k] {
                RestoreStep::Activate { index, options } => index < running@.len()
                    && running@[index as int] == register.pid(),
                RestoreStep::Settle { millis } => true,
            },
{
    let mut steps: Vec<RestoreStep> = Vec::new();
    if register.is_set() {
        proof {
            lemma_first_match(running@, register.pid());
        }
        if let Some(index) = find_running(running, register.pid) {
            steps.push(RestoreStep::Activate { index, options: ACTIVATE_IGNORING_OTHER_APPS });
        }
        steps.push(RestoreStep::Settle { millis: RESTORE_SETTLE_MILLIS });
    }
    assert(steps@ =~= restore_plan(*register, running@));
    steps
}

/// Recording an application and restoring right after asks for the
/// activation of that application and of no other, whatever else is running:
/// every activation in the plan is the plan's first step and points at an
/// entry of `running` that holds the recorded identifier. There is such a
/// step exactly when the identifier is a real one and some entry holds it.
pub proof fn lemma_restore_follows_record(
    before: ForegroundRegister,
    captured: i32,
    after: ForegroundRegister,
    running: Seq<i32>,
)
    requires
        after.pid() == recorded(before, Some(captured)),
        running.len() <= usize::MAX,
    ensures
        forall|k: int|
            0 <= k < restore_plan(after, running).len() ==> match #[trigger] restore_plan(
                after,
                running,
            )[k] {
                RestoreStep::Activate { index, options } => k == 0 && index < running.len()
                    && running[index as int] == captured,
                RestoreStep::Settle { millis } => true,
            },
        (exists|k: int|
            0 <= k < restore_plan(after, running).len() && is_activation(
                #[trigger] restore_plan(after, running)[k],
            )) <==> captured != UNSET_PID && running.contains(captured),
{
    lemma_first_match(running, captured);
    let plan = restore_plan(after, running);
    if captured != UNSET_PID && running.contains(captured) {
        assert(is_activation(plan[0]));
    }
}

} // verus!
