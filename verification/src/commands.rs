use crate::paste::{
    paste_entry, paste_script, paste_text, simulate_paste, PasteError, PasteRequest, PasteStage,
};
use crate::platform::Platform;
use vstd::prelude::*;
use vstd::string::StringExecFns;

verus! {

/// One request to the caller while text is inserted into the application that
/// had the focus.
#[derive(Debug, PartialEq, Eq)]
pub enum InsertRequest {
    /// Write this text to the system clipboard.
    WriteClipboard(String),
    /// Hide the utility's window, if the host has one.
    HideWindow,
    /// Bring the recorded application back to the front.
    RestoreForeground,
    /// Carry out one request of the paste simulation.
    Paste(PasteRequest),
}

/// A request with its text as a sequence of characters.
pub enum InsertRequestView {
    WriteClipboard(Seq<char>),
    HideWindow,
    RestoreForeground,
    Paste(PasteRequest),
}

/// Where an insertion stands: the request whose answer is awaited, with the
/// text that is still to be written, or the result with the error's text.
#[derive(Debug, PartialEq, Eq)]
pub enum InsertStage {
    WriteClipboard(String),
    HideWindow,
    RestoreForeground,
    Paste(PasteStage),
    Finished(Result<(), String>),
}

/// An insertion stage with its texts as sequences of characters.
pub enum InsertStageView {
    WriteClipboard(Seq<char>),
    HideWindow,
    RestoreForeground,
    Paste(PasteStage),
    Finished(Result<(), Seq<char>>),
}

/// An answer of the caller with its text as a sequence of characters.
pub open spec fn reply_view(reply: Result<(), String>) -> Result<(), Seq<char>> {
    match reply {
        Ok(()) => Ok(()),
        Err(detail) => Err(detail@),
    }
}

/// The text of the error for a clipboard write that failed with `detail`.
pub open spec fn clipboard_failure(detail: Seq<char>) -> Seq<char> {
    "Failed to write to clipboard: "@ + detail
}

/// What became of a clipboard write that was answered with `reply`.
pub open spec fn clipboard_result(reply: Result<(), Seq<char>>) -> Result<(), Seq<char>> {
    match reply {
        Ok(()) => Ok(()),
        Err(detail) => Err(clipboard_failure(detail)),
    }
}

/// The insertion stage that a stage of the paste simulation stands for: the
/// insertion is finished as soon as the simulation is.
pub open spec fn paste_stage_view(stage: PasteStage) -> InsertStageView {
    match stage {
        PasteStage::Finished(Ok(())) => InsertStageView::Finished(Ok(())),
        PasteStage::Finished(Err(error)) => InsertStageView::Finished(Err(error.text())),
        _ => InsertStageView::Paste(stage),
    }
}

/// A stage that holds a finished paste simulation, read as finished.
pub open spec fn paste_settled(stage: InsertStageView) -> InsertStageView {
    match stage {
        InsertStageView::Paste(inner) => paste_stage_view(inner),
        _ => stage,
    }
}

/// Where the insertion command starts. A platform that cannot paste refuses
/// it at once, before the clipboard or the window is touched. Elsewhere the
/// first thing asked for is the write of the command's text.
pub open spec fn insert_entry(platform: Platform, text: Seq<char>) -> InsertStageView {
    if platform.pastes() {
        InsertStageView::WriteClipboard(text)
    } else {
        InsertStageView::Finished(Err(PasteError::Unsupported.text()))
    }
}

impl View for InsertRequest {
    type V = InsertRequestView;

    open spec fn view(&self) -> InsertRequestView {
        match self {
            InsertRequest::WriteClipboard(text) => InsertRequestView::WriteClipboard(text@),
            InsertRequest::HideWindow => InsertRequestView::HideWindow,
            InsertRequest::RestoreForeground => InsertRequestView::RestoreForeground,
            InsertRequest::Paste(request) => InsertRequestView::Paste(*request),
        }
    }
}

impl View for InsertStage {
    type V = InsertStageView;

    open spec fn view(&self) -> InsertStageView {
        match self {
            InsertStage::WriteClipboard(text) => InsertStageView::WriteClipboard(text@),
            InsertStage::HideWindow => InsertStageView::HideWindow,
            InsertStage::RestoreForeground => InsertStageView::RestoreForeground,
            InsertStage::Paste(stage) => paste_stage_view(*stage),
            InsertStage::Finished(result) => InsertStageView::Finished(reply_view(*result)),
        }
    }
}

impl InsertStageView {
    /// The request whose answer this stage awaits; `None` once finished.
    pub open spec fn pending(self) -> Option<InsertRequestView> {
        match self {
            InsertStageView::WriteClipboard(text) => Some(InsertRequestView::WriteClipboard(text)),
            InsertStageView::HideWindow => Some(InsertRequestView::HideWindow),
            InsertStageView::RestoreForeground => Some(InsertRequestView::RestoreForeground),
            InsertStageView::Paste(stage) => match stage.pending() {
                Some(request) => Some(InsertRequestView::Paste(request)),
                None => None,
            },
            InsertStageView::Finished(_) => None,
        }
    }

    /// The result, once the insertion has finished.
    pub open spec fn result(self) -> Option<Result<(), Seq<char>>> {
        match paste_settled(self) {
            InsertStageView::Finished(result) => Some(result),
            _ => None,
        }
    }

    /// The stage that follows once the pending request was answered with
    /// `reply`. A clipboard write that fails ends the insertion with its
    /// error. Hiding the window and restoring the foreground are never held
    /// against the insertion. The keystroke is then sent as the paste command
    /// sends it: a process without the accessibility grant is refused before
    /// anything is asked of the system.
    pub open spec fn next(
        self,
        platform: Platform,
        trusted: bool,
        reply: Result<(), Seq<char>>,
    ) -> InsertStageView {
        match self {
            InsertStageView::WriteClipboard(_) => match reply {
                Ok(()) => InsertStageView::HideWindow,
                Err(detail) => InsertStageView::Finished(Err(clipboard_failure(detail))),
            },
            InsertStageView::HideWindow => InsertStageView::RestoreForeground,
            InsertStageView::RestoreForeground => paste_stage_view(paste_entry(platform, trusted)),
            InsertStageView::Paste(stage) => paste_stage_view(stage.next(reply is Ok)),
            InsertStageView::Finished(result) => InsertStageView::Finished(result),
        }
    }

    /// How many requests of the script lie behind this stage.
    pub open spec fn position(self) -> int {
        match self {
            InsertStageView::WriteClipboard(_) => 0,
            InsertStageView::HideWindow => 1,
            InsertStageView::RestoreForeground => 2,
            InsertStageView::Paste(stage) => 3 + stage.position(),
            InsertStageView::Finished(_) => 9,
        }
    }

    /// The requests that are carried out from this stage on while the caller
    /// gives `replies` in turn, and the stage that is reached.
    pub open spec fn trace(
        self,
        platform: Platform,
        trusted: bool,
        replies: Seq<Result<(), Seq<char>>>,
    ) -> (Seq<InsertRequestView>, InsertStageView)
        decreases replies.len(),
    {
        if replies.len() == 0 || self.pending() is None {
            (Seq::empty(), self)
        } else {
            let rest = self.next(platform, trusted, replies[0]).trace(
                platform,
                trusted,
                replies.drop_first(),
            );
            (seq![self.pending().unwrap()] + rest.0, rest.1)
        }
    }
}

/// The requests of an insertion of `text` in which nothing fails: the text is
/// written to the clipboard, the window hidden, the recorded application
/// brought back, and only then the keystroke synthesized.
pub open spec fn insert_script(text: Seq<char>) -> Seq<InsertRequestView> {
    seq![
        InsertRequestView::WriteClipboard(text),
        InsertRequestView::HideWindow,
        InsertRequestView::RestoreForeground,
    ] + paste_script().map_values(|request: PasteRequest| InsertRequestView::Paste(request))
}

/// Reports whether the process may synthesize input. On a platform with a
/// trust gate this is the system's answer `trusted`; elsewhere there is no
/// gate and the permission counts as granted.
pub fn check_permission(platform: Platform, trusted: bool) -> (granted: bool)
    ensures
        granted == (trusted || !platform.pastes()),
{
    match platform {
        Platform::MacOs => trusted,
        Platform::Other => true,
    }
}

/// The one request of the clipboard command: the write of the command's text.
pub fn clipboard_request(text: String) -> (request: InsertRequest)
    ensures
        request@ == InsertRequestView::WriteClipboard(text@),
{
    InsertRequest::WriteClipboard(text)
}

/// The result of the clipboard command. `reply` is what the clipboard
/// answered to the write: `Ok`, or the text of its error. The error of the
/// command names the operation in front of that text.
pub fn write_clipboard(reply: Result<(), String>) -> (result: Result<(), String>)
    ensures
        reply_view(result) == clipboard_result(reply_view(reply)),
{
    match reply {
        Ok(()) => Ok(()),
        Err(detail) => Err(
            String::from_str("Failed to write to clipboard: ").concat(detail.as_str()),
        ),
    }
}

/// The insertion stage for a stage of the paste simulation: a finished
/// simulation finishes the insertion, with the error as its text.
fn after_paste(stage: PasteStage) -> (next: InsertStage)
    ensures
        next@ == paste_stage_view(stage),
        next.settled(),
{
    match stage {
        PasteStage::Finished(Ok(())) => InsertStage::Finished(Ok(())),
        PasteStage::Finished(Err(error)) => InsertStage::Finished(Err(error.message())),
        pending => InsertStage::Paste(pending),
    }
}

impl InsertStage {
    /// No finished paste simulation is held: an insertion whose simulation
    /// has ended is itself `Finished`.
    pub open spec fn settled(self) -> bool {
        self matches InsertStage::Paste(inner) ==> inner.pending() is Some
    }

    /// Starts the insertion of `text`. Where the platform cannot paste the
    /// insertion is over before it began, with the refusal as its result.
    pub fn start(platform: Platform, text: String) -> (stage: InsertStage)
        ensures
            stage@ == insert_entry(platform, text@),
            stage.settled(),
    {
        if platform.supports_paste() {
            InsertStage::WriteClipboard(text)
        } else {
            InsertStage::Finished(Err(PasteError::Unsupported.message()))
        }
    }

    /// The request the caller has to carry out now; `None` once finished.
    pub fn request(&self) -> (request: Option<InsertRequest>)
        ensures
            match request {
                Some(asked) => self@.pending() == Some(asked@),
                None => self@.pending() is None,
            },
            request is None <==> self@ is Finished,
    {
        match self {
            InsertStage::WriteClipboard(text) => Some(InsertRequest::WriteClipboard(text.clone())),
            InsertStage::HideWindow => Some(InsertRequest::HideWindow),
            InsertStage::RestoreForeground => Some(InsertRequest::RestoreForeground),
            InsertStage::Paste(stage) => match stage.request() {
                Some(request) => Some(InsertRequest::Paste(request)),
                None => None,
            },
            InsertStage::Finished(_) => None,
        }
    }

    /// The result of the insertion, an error as its text; `None` while a
    /// request is pending.
    pub fn outcome(&self) -> (outcome: Option<Result<(), String>>)
        ensures
            match outcome {
                Some(result) => self@.result() == Some(reply_view(result)),
                None => self@.result() is None,
            },
            outcome is None <==> self@.pending() is Some,
    {
        match self {
            InsertStage::Finished(Ok(())) => Some(Ok(())),
            InsertStage::Finished(Err(message)) => Some(Err(message.clone())),
            InsertStage::Paste(stage) => match stage.outcome() {
                Some(Ok(())) => Some(Ok(())),
                Some(Err(error)) => Some(Err(error.message())),
                None => None,
            },
            _ => None,
        }
    }
}

/// Advances an insertion by one answer. `reply` is what the caller got when it
/// carried out the request that `stage` was waiting for: `Ok`, or the text of
/// the failure. `trusted` is the system's answer to the question whether the
/// process holds the accessibility grant.
pub fn insert_and_paste(
    platform: Platform,
    trusted: bool,
    stage: InsertStage,
    reply: Result<(), String>,
) -> (next: InsertStage)
    ensures
        next@ == stage@.next(platform, trusted, reply_view(reply)),
        next.settled(),
{
    match stage {
        InsertStage::WriteClipboard(_) => match write_clipboard(reply) {
            Ok(()) => InsertStage::HideWindow,
            Err(message) => InsertStage::Finished(Err(message)),
        },
        InsertStage::HideWindow => InsertStage::RestoreForeground,
        InsertStage::RestoreForeground => after_paste(paste_text(platform, trusted)),
        InsertStage::Paste(inner) => after_paste(simulate_paste(inner, reply.is_ok())),
        InsertStage::Finished(result) => InsertStage::Finished(result),
    }
}

/// From any pending stage the requests carried out follow the script from
/// that stage's position on. A trace that ends well has carried out all that
/// was left of it. Where the paste command would be refused, no request of
/// the paste simulation is carried out and the insertion does not end well.
pub proof fn lemma_insert_follows_script(
    platform: Platform,
    trusted: bool,
    text: Seq<char>,
    stage: InsertStageView,
    replies: Seq<Result<(), Seq<char>>>,
)
    requires
        stage.pending() is Some,
        stage matches InsertStageView::WriteClipboard(held) ==> held == text,
    ensures
        stage.trace(platform, trusted, replies).0.len() <= 9 - stage.position(),
        forall|k: int|
            0 <= k < stage.trace(platform, trusted, replies).0.len() ==> #[trigger] stage.trace(
                platform,
                trusted,
                replies,
            ).0[k] == insert_script(text)[stage.position() + k],
        stage.trace(platform, trusted, replies).1 == InsertStageView::Finished(Ok(()))
            ==> stage.trace(platform, trusted, replies).0.len() == 9 - stage.position(),
        (!platform.pastes() || !trusted) && stage.position() <= 2 ==> stage.position()
            + stage.trace(platform, trusted, replies).0.len() <= 3 && !(stage.trace(
            platform,
            trusted,
            replies,
        ).1 == InsertStageView::Finished(Ok(()))),
    decreases replies.len(),
{
    assert(insert_script(text).len() == 9);
    assert(stage.pending().unwrap() == insert_script(text)[stage.position()]);
    if replies.len() > 0 {
        let following = stage.next(platform, trusted, replies[0]);
        let rest = following.trace(platform, trusted, replies.drop_first());
        let trace = stage.trace(platform, trusted, replies).0;
        assert(trace =~= seq![stage.pending().unwrap()] + rest.0);
        if following.pending() is Some {
            lemma_insert_follows_script(platform, trusted, text, following, replies.drop_first());
            assert(following.position() == stage.position() + 1);
            assert forall|k: int| 0 <= k < trace.len() implies #[trigger] trace[k]
                == insert_script(text)[stage.position() + k] by {
                if k > 0 {
                    assert(trace[k] == rest.0[k - 1]);
                }
            }
        } else {
            assert(rest.0 =~= Seq::empty());
        }
    }
}

/// Whatever the caller answers, an insertion of `text` carries out a prefix
/// of the script: what is written to the clipboard is `text`, and the
/// keystroke is never synthesized before the clipboard is written, the window
/// hidden and the recorded application brought back. An insertion that ends
/// well has carried out the whole script, which takes a platform that can
/// paste and the accessibility grant. Without the grant no request of the
/// paste simulation is made.
pub proof fn lemma_insert_order(
    platform: Platform,
    trusted: bool,
    text: Seq<char>,
    replies: Seq<Result<(), Seq<char>>>,
)
    ensures
        insert_entry(platform, text).trace(platform, trusted, replies).0 =~= insert_script(
            text,
        ).take(insert_entry(platform, text).trace(platform, trusted, replies).0.len() as int),
        insert_entry(platform, text).trace(platform, trusted, replies).1
            == InsertStageView::Finished(Ok(())) ==> platform.pastes() && trusted && insert_entry(
            platform,
            text,
        ).trace(platform, trusted, replies).0 =~= insert_script(text),
        !trusted ==> insert_entry(platform, text).trace(platform, trusted, replies).0.len() <= 3,
{
    if platform.pastes() {
        lemma_insert_follows_script(
            platform,
            trusted,
            text,
            InsertStageView::WriteClipboard(text),
            replies,
        );
    }
}

/// On a platform that cannot paste, an insertion fails at once with the
/// refusal: nothing is asked of the caller, so the clipboard and the window
/// stay as they were.
pub proof fn lemma_insert_refused_at_once(
    platform: Platform,
    trusted: bool,
    text: Seq<char>,
    replies: Seq<Result<(), Seq<char>>>,
)
    requires
        !platform.pastes(),
    ensures
        insert_entry(platform, text).trace(platform, trusted, replies).0 =~= Seq::empty(),
        insert_entry(platform, text).trace(platform, trusted, replies).1.result() == Some(
            Err::<(), Seq<char>>(PasteError::Unsupported.text()),
        ),
{
}

/// An insertion whose clipboard write fails asks for nothing more: the window
/// stays, no application is activated, no keystroke is sent, and the result is
/// the clipboard error.
pub proof fn lemma_insert_stops_at_clipboard_failure(
    platform: Platform,
    trusted: bool,
    text: Seq<char>,
    replies: Seq<Result<(), Seq<char>>>,
)
    requires
        platform.pastes(),
        replies.len() > 0,
        replies[0] is Err,
    ensures
        insert_entry(platform, text).trace(platform, trusted, replies).0 =~= seq![
            InsertRequestView::WriteClipboard(text),
        ],
        insert_entry(platform, text).trace(platform, trusted, replies).1.result() == Some(
            clipboard_result(replies[0]),
        ),
{
    reveal_with_fuel(InsertStageView::trace, 2);
}

/// An insertion without the accessibility grant still writes the clipboard,
/// hides the window and brings the recorded application back, and then ends
/// with the permission error: no event is made and none is posted.
pub proof fn lemma_insert_without_grant(
    platform: Platform,
    text: Seq<char>,
    replies: Seq<Result<(), Seq<char>>>,
)
    requires
        platform.pastes(),
        replies.len() >= 3,
        replies[0] is Ok,
    ensures
        insert_entry(platform, text).trace(platform, false, replies).0 =~= seq![
            InsertRequestView::WriteClipboard(text),
            InsertRequestView::HideWindow,
            InsertRequestView::RestoreForeground,
        ],
        insert_entry(platform, text).trace(platform, false, replies).1.result() == Some(
            Err::<(), Seq<char>>(PasteError::PermissionDenied.text()),
        ),
{
    reveal_with_fuel(InsertStageView::trace, 4);
    let r1 = replies.drop_first();
    let r2 = r1.drop_first();
    assert(r1.len() == replies.len() - 1);
    assert(r2.len() == replies.len() - 2);
}

} // verus!
