use vstd::prelude::*;

verus! {

/// The operating-system family the utility runs on.
#[derive(Clone, Copy, Debug, PartialEq, Eq, Structural)]
pub enum Platform {
    /// The family on which foreground tracking and keystroke synthesis exist.
    MacOs,
    /// Any other family: paste commands are refused there.
    Other,
}

impl Platform {
    /// Whether a paste keystroke can be synthesized on this platform.
    pub open spec fn pastes(self) -> bool {
        self == Platform::MacOs
    }

    /// Whether a paste keystroke can be synthesized on this platform.
    pub fn supports_paste(self) -> (supported: bool)
        ensures
            supported == self.pastes(),
    {
        match self {
            Platform::MacOs => true,
            Platform::Other => false,
        }
    }
}

} // verus!
