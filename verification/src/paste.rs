use crate::platform::Platform;
use vstd::prelude::*;
use vstd::string::StringExecFns;

verus! {

/// The virtual key code of the key that, with the command modifier, pastes.
pub const KEY_CODE_V: u16 = 9;

/// The event flag of the command modifier.
pub const FLAG_COMMAND: u64 = 0x0010_0000;

/// How long the caller waits after posting the keystroke, in milliseconds, so
/// that the target application can consume it.
pub const PASTE_SETTLE_MILLIS: u64 = 50;

/// The state table an event source is bound to.
#[derive(Clone, Copy, Debug, PartialEq, Eq, Structural)]
pub enum SourceState {
    /// Private to the creating process.
    Private,
    /// The combined state of the user's login session, seen by every process in it.
    CombinedSession,
    /// The state of the hardware input system.
    HidSystem,
}

/// The place in the input pipeline at which an event is posted.
#[derive(Clone, Copy, Debug, PartialEq, Eq, Structural)]
pub enum TapLocation {
    /// Where events of physical devices enter the system.
    Hid,
    /// Where events enter the login session.
    Session,
    /// Where annotated events are delivered to an application.
    AnnotatedSession,
}

/// One request to the caller while a paste keystroke is synthesized.
#[derive(Clone, Copy, Debug, PartialEq, Eq, Structural)]
pub enum PasteRequest {
    /// Create the event source, bound to `state`.
    CreateSource { state: SourceState },
    /// Create a keyboard event for `key_code` from the source; `key_down`
    /// tells press from release. With `Some(flags)` the event's flags are then
    /// set to `flags`; with `None` they are left as the system made them.
    CreateKeyEvent { key_code: u16, key_down: bool, flags: Option<u64> },
    /// Post the press event (`key_down`) or the release event at `tap`.
    PostKeyEvent { key_down: bool, tap: TapLocation },
    /// Block for `millis` milliseconds.
    Settle { millis: u64 },
}

/// Why no paste keystroke was sent.
#[derive(Clone, Copy, Debug, PartialEq, Eq, Structural)]
pub enum PasteError {
    /// The system gave no event source.
    EventSource,
    /// The system gave no press event.
    KeyDownEvent,
    /// The system gave no release event.
    KeyUpEvent,
    /// The platform cannot synthesize keystrokes.
    Unsupported,
    /// The process does not hold the accessibility grant.
    PermissionDenied,
}

/// Where a paste simulation stands: the request whose answer is awaited, or
/// the result.
#[derive(Clone, Copy, Debug, PartialEq, Eq)]
pub enum PasteStage {
    CreateSource,
    CreateKeyDown,
    CreateKeyUp,
    PostKeyDown,
    PostKeyUp,
    Settle,
    Finished(Result<(), PasteError>),
}

impl PasteError {
    /// The text shown for this error.
    pub open spec fn text(self) -> Seq<char> {
        match self {
            PasteError::EventSource => "Failed to create event source"@,
            PasteError::KeyDownEvent => "Failed to create key down event"@,
            PasteError::KeyUpEvent => "Failed to create key up event"@,
            PasteError::Unsupported => "Paste not supported on this platform"@,
            PasteError::PermissionDenied => "Accessibility permission not granted"@,
        }
    }

    /// The text shown for this error.
    pub fn message(&self) -> (message: String)
        ensures
            message@ == self.text(),
    {
        match self {
            PasteError::EventSource => String::from_str("Failed to create event source"),
            PasteError::KeyDownEvent => String::from_str("Failed to create key down event"),
            PasteError::KeyUpEvent => String::from_str("Failed to create key up event"),
            PasteError::Unsupported => String::from_str("Paste not supported on this platform"),
            PasteError::PermissionDenied => String::from_str(
                "Accessibility permission not granted",
            ),
        }
    }
}

/// The press event of the keystroke: the paste key with the command modifier.
pub open spec fn key_down_event() -> PasteRequest {
    PasteRequest::CreateKeyEvent { key_code: KEY_CODE_V, key_down: true, flags: Some(FLAG_COMMAND) }
}

/// The release event of the keystroke: the same key, no flags set on it.
pub open spec fn key_up_event() -> PasteRequest {
    PasteRequest::CreateKeyEvent { key_code: KEY_CODE_V, key_down: false, flags: None }
}

impl PasteStage {
    /// The request whose answer this stage awaits; `None` once finished.
    pub open spec fn pending(self) -> Option<PasteRequest> {
        match self {
            PasteStage::CreateSource => Some(
                PasteRequest::CreateSource { state: SourceState::CombinedSession },
            ),
            PasteStage::CreateKeyDown => Some(key_down_event()),
            PasteStage::CreateKeyUp => Some(key_up_event()),
            PasteStage::PostKeyDown => Some(
                PasteRequest::PostKeyEvent { key_down: true, tap: TapLocation::Hid },
            ),
            PasteStage::PostKeyUp => Some(
                PasteRequest::PostKeyEvent { key_down: false, tap: TapLocation::Hid },
            ),
            PasteStage::Settle => Some(PasteRequest::Settle { millis: PASTE_SETTLE_MILLIS }),
            PasteStage::Finished(_) => None,
        }
    }

    /// The stage that follows once the pending request was answered. Only the
    /// three constructions can fail, and a failure ends the simulation at
    /// once; posting and waiting have no outcome to report.
    pub open spec fn next(self, succeeded: bool) -> PasteStage {
        match self {
            PasteStage::CreateSource => if succeeded {
                PasteStage::CreateKeyDown
            } else {
                PasteStage::Finished(Err(PasteError::EventSource))
            },
            PasteStage::CreateKeyDown => if succeeded {
                PasteStage::CreateKeyUp
            } else {
                PasteStage::Finished(Err(PasteError::KeyDownEvent))
            },
            PasteStage::CreateKeyUp => if succeeded {
                PasteStage::PostKeyDown
            } else {
                PasteStage::Finished(Err(PasteError::KeyUpEvent))
            },
            PasteStage::PostKeyDown => PasteStage::PostKeyUp,
            PasteStage::PostKeyUp => PasteStage::Settle,
            PasteStage::Settle => PasteStage::Finished(Ok(())),
            PasteStage::Finished(result) => PasteStage::Finished(result),
        }
    }

    /// The result, once the simulation has finished.
    pub open spec fn result(self) -> Option<Result<(), PasteError>> {
        match self {
            PasteStage::Finished(result) => Some(result),
            _ => None,
        }
    }

    /// The stage a simulation starts in.
    pub fn start() -> (stage: PasteStage)
        ensures
            stage == PasteStage::CreateSource,
    {
        PasteStage::CreateSource
    }

    /// The request the caller has to carry out now; `None` once finished.
    pub fn request(&self) -> (request: Option<PasteRequest>)
        ensures
            request == self.pending(),
            request is None <==> self is Finished,
    {
        match self {
            PasteStage::CreateSource => Some(
                PasteRequest::CreateSource { state: SourceState::CombinedSession },
            ),
            PasteStage::CreateKeyDown => Some(
                PasteRequest::CreateKeyEvent {
                    key_code: KEY_CODE_V,
                    key_down: true,
                    flags: Some(FLAG_COMMAND),
                },
            ),
            PasteStage::CreateKeyUp => Some(
                PasteRequest::CreateKeyEvent { key_code: KEY_CODE_V, key_down: false, flags: None },
            ),
            PasteStage::PostKeyDown => Some(
                PasteRequest::PostKeyEvent { key_down: true, tap: TapLocation::Hid },
            ),
            PasteStage::PostKeyUp => Some(
                PasteRequest::PostKeyEvent { key_down: false, tap: TapLocation::Hid },
            ),
            PasteStage::Settle => Some(PasteRequest::Settle { millis: PASTE_SETTLE_MILLIS }),
            PasteStage::Finished(_) => None,
        }
    }

    /// The result of the simulation; `None` while a request is pending.
    pub fn outcome(&self) -> (outcome: Option<Result<(), PasteError>>)
        ensures
            outcome == self.result(),
            outcome is None <==> self.pending() is Some,
    {
        match self {
            PasteStage::Finished(result) => Some(*result),
            _ => None,
        }
    }
}

/// Advances a paste simulation by one answer: `succeeded` tells whether the
/// caller could carry out the request that `stage` was waiting for.
pub fn simulate_paste(stage: PasteStage, succeeded: bool) -> (next: PasteStage)
    ensures
        next == stage.next(succeeded),
{
    match stage {
        PasteStage::CreateSource => if succeeded {
            PasteStage::CreateKeyDown
        } else {
            PasteStage::Finished(Err(PasteError::EventSource))
        },
        PasteStage::CreateKeyDown => if succeeded {
            PasteStage::CreateKeyUp
        } else {
            PasteStage::Finished(Err(PasteError::KeyDownEvent))
        },
        PasteStage::CreateKeyUp => if succeeded {
            PasteStage::PostKeyDown
        } else {
            PasteStage::Finished(Err(PasteError::KeyUpEvent))
        },
        PasteStage::PostKeyDown => PasteStage::PostKeyUp,
        PasteStage::PostKeyUp => PasteStage::Settle,
        PasteStage::Settle => PasteStage::Finished(Ok(())),
        PasteStage::Finished(result) => PasteStage::Finished(result),
    }
}

/// The requests of a simulation in which every construction succeeds: the
/// source, the press event with the command flag, the release event without
/// flags, one post of the press, one post of the release, and the wait.
pub open spec fn paste_script() -> Seq<PasteRequest> {
    seq![
        PasteRequest::CreateSource { state: SourceState::CombinedSession },
        key_down_event(),
        key_up_event(),
        PasteRequest::PostKeyEvent { key_down: true, tap: TapLocation::Hid },
        PasteRequest::PostKeyEvent { key_down: false, tap: TapLocation::Hid },
        PasteRequest::Settle { millis: PASTE_SETTLE_MILLIS },
    ]
}

impl PasteStage {
    /// How many requests of the script lie behind this stage.
    pub open spec fn position(self) -> int {
        match self {
            PasteStage::CreateSource => 0,
            PasteStage::CreateKeyDown => 1,
            PasteStage::CreateKeyUp => 2,
            PasteStage::PostKeyDown => 3,
            PasteStage::PostKeyUp => 4,
            PasteStage::Settle => 5,
            PasteStage::Finished(_) => 6,
        }
    }

    /// The requests that are carried out from this stage on while the caller
    /// gives `answers` in turn, and the stage that is reached.
    pub open spec fn trace(self, answers: Seq<bool>) -> (Seq<PasteRequest>, PasteStage)
        decreases answers.len(),
    {
        if answers.len() == 0 || self.pending() is None {
            (Seq::empty(), self)
        } else {
            let rest = self.next(answers[0]).trace(answers.drop_first());
            (seq![self.pending().unwrap()] + rest.0, rest.1)
        }
    }
}

/// From any pending stage the requests carried out follow the script from
/// that stage's position on. A run that ends well has carried out all that
/// was left of it; a run that ends in an error has stopped before the first
/// post.
pub proof fn lemma_trace_follows_script(stage: PasteStage, answers: Seq<bool>)
    requires
        stage.pending() is Some,
    ensures
        stage.trace(answers).0.len() <= 6 - stage.position(),
        forall|k: int|
            0 <= k < stage.trace(answers).0.len() ==> #[trigger] stage.trace(answers).0[k]
                == paste_script()[stage.position() + k],
        stage.trace(answers).1 == PasteStage::Finished(Ok(())) ==> stage.trace(answers).0.len() == 6
            - stage.position(),
        stage.trace(answers).1 matches PasteStage::Finished(Err(_)) ==> stage.position()
            + stage.trace(answers).0.len() <= 3,
    decreases answers.len(),
{
    if answers.len() > 0 {
        let following = stage.next(answers[0]);
        let rest = following.trace(answers.drop_first());
        let trace = stage.trace(answers).0;
        assert(trace =~= seq![stage.pending().unwrap()] + rest.0);
        assert(stage.pending().unwrap() == paste_script()[stage.position()]);
        if following.pending() is Some {
            lemma_trace_follows_script(following, answers.drop_first());
            assert(following.position() == stage.position() + 1);
            assert forall|k: int| 0 <= k < trace.len() implies #[trigger] trace[k]
                == paste_script()[stage.position() + k] by {
                if k > 0 {
                    assert(trace[k] == rest.0[k - 1]);
                }
            }
        } else {
            assert(rest.0 =~= Seq::empty());
        }
    }
}

/// Whatever the system answers, a simulation started afresh carries out a
/// prefix of the script, so it never posts but one press followed by one
/// release of the paste key, the command flag on the press alone. A
/// simulation that ends well has carried out the whole script; one that ends
/// in an error has posted nothing.
pub proof fn lemma_paste_posts_one_keystroke(answers: Seq<bool>)
    ensures
        PasteStage::CreateSource.trace(answers).0 =~= paste_script().take(
            PasteStage::CreateSource.trace(answers).0.len() as int,
        ),
        PasteStage::CreateSource.trace(answers).1 == PasteStage::Finished(Ok(()))
            ==> PasteStage::CreateSource.trace(answers).0 =~= paste_script(),
        PasteStage::CreateSource.trace(answers).1 matches PasteStage::Finished(Err(_)) ==> forall|
            k: int,
        |
            0 <= k < PasteStage::CreateSource.trace(answers).0.len()
                ==> !(#[trigger] PasteStage::CreateSource.trace(answers).0[k] is PostKeyEvent),
{
    lemma_trace_follows_script(PasteStage::CreateSource, answers);
}

/// A simulation started afresh ends well exactly when the three constructions
/// succeed and all six requests were answered; it ends with the error of the
/// first construction that fails.
pub proof fn lemma_paste_result(answers: Seq<bool>)
    ensures
        PasteStage::CreateSource.trace(answers).1 == PasteStage::Finished(Ok(())) <==> answers.len()
            >= 6 && answers[0] && answers[1] && answers[2],
        PasteStage::CreateSource.trace(answers).1 == PasteStage::Finished(
            Err(PasteError::EventSource),
        ) <==> answers.len() >= 1 && !answers[0],
        PasteStage::CreateSource.trace(answers).1 == PasteStage::Finished(
            Err(PasteError::KeyDownEvent),
        ) <==> answers.len() >= 2 && answers[0] && !answers[1],
        PasteStage::CreateSource.trace(answers).1 == PasteStage::Finished(
            Err(PasteError::KeyUpEvent),
        ) <==> answers.len() >= 3 && answers[0] && answers[1] && !answers[2],
{
    reveal_with_fuel(PasteStage::trace, 8);
    let a1 = answers.drop_first();
    let a2 = a1.drop_first();
    if answers.len() >= 1 {
        assert(a1.len() == answers.len() - 1);
        if answers.len() >= 2 {
            assert(a1[0] == answers[1]);
            if answers.len() >= 3 {
                assert(a2[0] == answers[2]);
            }
        }
    }
}

/// Where the paste command starts. A platform that cannot synthesize
/// keystrokes refuses it. A process without the accessibility grant is refused
/// too, before anything is asked of the system. Otherwise the simulation
/// starts.
pub open spec fn paste_entry(platform: Platform, trusted: bool) -> PasteStage {
    if !platform.pastes() {
        PasteStage::Finished(Err(PasteError::Unsupported))
    } else if !trusted {
        PasteStage::Finished(Err(PasteError::PermissionDenied))
    } else {
        PasteStage::CreateSource
    }
}

/// The paste command: sends the keystroke to whatever application has the
/// focus. `trusted` is the system's answer to the question whether the
/// process holds the accessibility grant; it is read only where the platform
/// can paste. Returns the stage to drive with `simulate_paste`.
pub fn paste_text(platform: Platform, trusted: bool) -> (stage: PasteStage)
    ensures
        stage == paste_entry(platform, trusted),
        !platform.pastes() ==> stage == PasteStage::Finished(Err(PasteError::Unsupported)),
        platform.pastes() && !trusted ==> stage == PasteStage::Finished(
            Err(PasteError::PermissionDenied),
        ),
        platform.pastes() && trusted ==> stage == PasteStage::CreateSource,
{
    if !platform.supports_paste() {
        PasteStage::Finished(Err(PasteError::Unsupported))
    } else if !trusted {
        PasteStage::Finished(Err(PasteError::PermissionDenied))
    } else {
        PasteStage::start()
    }
}

/// A paste command that is refused asks nothing of the system, whatever the
/// caller would answer: no source, no event, no post.
pub proof fn lemma_refused_paste_posts_nothing(platform: Platform, trusted: bool, answers: Seq<bool>)
    requires
        !platform.pastes() || !trusted,
    ensures
        paste_entry(platform, trusted).trace(answers).0 =~= Seq::empty(),
        paste_entry(platform, trusted).trace(answers).1 == paste_entry(platform, trusted),
        paste_entry(platform, trusted).result() is Some,
        paste_entry(platform, trusted).result() != Some(Ok::<(), PasteError>(())),
{
}

} // verus!
