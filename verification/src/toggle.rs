use crate::platform::Platform;
use vstd::prelude::*;

verus! {

/// The chord of the global hotkey, as the host's shortcut grammar writes it:
/// shift, the platform's primary modifier, and the letter P.
pub const HOTKEY: &'static str = "Shift+CommandOrControl+P";

/// The label under which the host knows the utility's window.
pub const MAIN_WINDOW: &'static str = "main";

/// The edge of a hotkey event.
#[derive(Clone, Copy, Debug, PartialEq, Eq, Structural)]
pub enum ShortcutEdge {
    Pressed,
    Released,
}

/// What the window host answered when asked for the window's flags.
/// `None` stands for a query that failed.
#[derive(Clone, Copy, Debug, PartialEq, Eq, Structural)]
pub struct WindowStatus {
    pub visible: Option<bool>,
    pub focused: Option<bool>,
}

/// One request to the caller, made in answer to a hotkey event.
#[derive(Clone, Copy, Debug, PartialEq, Eq, Structural)]
pub enum ToggleStep {
    /// Ask the system which application has the focus and record it.
    RecordForeground,
    /// Show the window.
    Show,
    /// Give the window the input focus.
    Focus,
    /// Hide the window.
    Hide,
}

impl WindowStatus {
    /// The window counts as shown when it is visible or focused; a failed
    /// query counts as `false`.
    pub open spec fn shown(self) -> bool {
        self.visible == Some(true) || self.focused == Some(true)
    }

    /// Whether the window counts as shown.
    pub fn is_shown(&self) -> (shown: bool)
        ensures
            shown == self.shown(),
    {
        let visible = self.visible.unwrap_or(false);
        let focused = self.focused.unwrap_or(false);
        visible || focused
    }

    /// The flags of an undisturbed window after the host has carried out `step`.
    pub open spec fn after(self, step: ToggleStep) -> WindowStatus {
        match step {
            ToggleStep::RecordForeground => self,
            ToggleStep::Show => WindowStatus { visible: Some(true), focused: self.focused },
            ToggleStep::Focus => WindowStatus { visible: self.visible, focused: Some(true) },
            ToggleStep::Hide => WindowStatus { visible: Some(false), focused: Some(false) },
        }
    }

    /// The flags after the host has carried out `steps` in order.
    pub open spec fn after_all(self, steps: Seq<ToggleStep>) -> WindowStatus
        decreases steps.len(),
    {
        if steps.len() == 0 {
            self
        } else {
            self.after(steps[0]).after_all(steps.drop_first())
        }
    }

    /// The flags after one hotkey press and the steps that answer it.
    pub open spec fn pressed(self, platform: Platform) -> WindowStatus {
        self.after_all(toggle_plan(platform, ShortcutEdge::Pressed, Some(self)))
    }

    /// The flags after `presses` hotkey presses in a row.
    pub open spec fn pressed_times(self, platform: Platform, presses: nat) -> WindowStatus
        decreases presses,
    {
        if presses == 0 {
            self
        } else {
            self.pressed(platform).pressed_times(platform, (presses - 1) as nat)
        }
    }
}

/// The steps that bring a hidden window up: the foreground application is
/// recorded, where the platform can tell it, before the window is shown.
pub open spec fn show_plan(platform: Platform) -> Seq<ToggleStep> {
    if platform.pastes() {
        seq![ToggleStep::RecordForeground, ToggleStep::Show, ToggleStep::Focus]
    } else {
        seq![ToggleStep::Show, ToggleStep::Focus]
    }
}

/// The steps that answer a hotkey event. Only a press counts, and only while
/// the window exists: a shown window is hidden, a hidden one is brought up.
pub open spec fn toggle_plan(
    platform: Platform,
    edge: ShortcutEdge,
    window: Option<WindowStatus>,
) -> Seq<ToggleStep> {
    match (edge, window) {
        (ShortcutEdge::Pressed, Some(status)) => if status.shown() {
            seq![ToggleStep::Hide]
        } else {
            show_plan(platform)
        },
        _ => Seq::empty(),
    }
}

/// Decides what a hotkey event asks of the host. `window` holds the live flags
/// of the utility's window, or `None` when the host has no such window.
pub fn toggle_window(platform: Platform, edge: ShortcutEdge, window: Option<WindowStatus>) -> (steps:
    Vec<ToggleStep>)
    ensures
        steps@ == toggle_plan(platform, edge, window),
        edge == ShortcutEdge::Released ==> steps@.len() == 0,
{
    let mut steps: Vec<ToggleStep> = Vec::new();
    if let (ShortcutEdge::Pressed, Some(status)) = (edge, window) {
        if status.is_shown() {
            steps.push(ToggleStep::Hide);
        } else {
            if platform.supports_paste() {
                steps.push(ToggleStep::RecordForeground);
            }
            steps.push(ToggleStep::Show);
            steps.push(ToggleStep::Focus);
        }
    }
    assert(steps@ =~= toggle_plan(platform, edge, window));
    steps
}

/// One press flips the window: a shown window ends hidden, a hidden one shown.
pub proof fn lemma_press_flips(platform: Platform, status: WindowStatus)
    ensures
        status.pressed(platform).shown() == !status.shown(),
{
    let steps = toggle_plan(platform, ShortcutEdge::Pressed, Some(status));
    reveal_with_fuel(WindowStatus::after_all, 4);
    if status.shown() {
        assert(steps.drop_first() =~= Seq::empty());
    } else if platform.pastes() {
        assert(steps.drop_first() =~= seq![ToggleStep::Show, ToggleStep::Focus]);
        assert(steps.drop_first().drop_first() =~= seq![ToggleStep::Focus]);
        assert(steps.drop_first().drop_first().drop_first() =~= Seq::empty());
    } else {
        assert(steps.drop_first() =~= seq![ToggleStep::Focus]);
        assert(steps.drop_first().drop_first() =~= Seq::empty());
    }
}

/// Two presses with nothing in between leave the window as shown or as hidden
/// as it was.
pub proof fn lemma_two_presses_restore(platform: Platform, status: WindowStatus)
    ensures
        status.pressed(platform).pressed(platform).shown() == status.shown(),
{
    lemma_press_flips(platform, status);
    lemma_press_flips(platform, status.pressed(platform));
}

/// Over any run of presses the window alternates: after an even number it is
/// as it was, after an odd number it is the other way.
pub proof fn lemma_presses_alternate(platform: Platform, status: WindowStatus, presses: nat)
    ensures
        status.pressed_times(platform, presses).shown() == (if presses % 2 == 0 {
            status.shown()
        } else {
            !status.shown()
        }),
    decreases presses,
{
    if presses > 0 {
        lemma_press_flips(platform, status);
        lemma_presses_alternate(platform, status.pressed(platform), (presses - 1) as nat);
    }
}

} // verus!
