use vstd::prelude::*;

verus! {

/// How the player interacts with a world.
#[derive(Copy, Clone, Debug, PartialEq, Eq, Structural)]
pub enum GameMode {
    Survival,
    Creative,
}

impl GameMode {
    /// The other mode.
    pub open spec fn toggled(self) -> GameMode {
        match self {
            GameMode::Survival => GameMode::Creative,
            GameMode::Creative => GameMode::Survival,
        }
    }

    /// The label shown for the mode.
    pub open spec fn label(self) -> Seq<char> {
        match self {
            GameMode::Survival => "SURVIVAL"@,
            GameMode::Creative => "CRIATIVO"@,
        }
    }

    /// Switches to the other mode.
    pub fn toggle(&mut self)
        ensures
            *final(self) == old(self).toggled(),
    {
        *self = match *self {
            GameMode::Survival => GameMode::Creative,
            GameMode::Creative => GameMode::Survival,
        }
    }

    /// The label shown for the mode.
    pub fn as_str(&self) -> (s: &'static str)
        ensures
            s@ == self.label(),
    {
        match self {
            GameMode::Survival => "SURVIVAL",
            GameMode::Creative => "CRIATIVO",
        }
    }
}

/// Toggling twice gives back the mode one started from, and toggling always
/// changes the mode.
pub proof fn lemma_toggle_involution(m: GameMode)
    ensures
        m.toggled().toggled() == m,
        m.toggled() != m,
{
}

} // verus!
