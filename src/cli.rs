use vstd::prelude::*;

verus! {

/// The command line: `cargo tokio [step]`.
pub enum CargoTokio {
    Tokio { step: Option<String> },
}

impl CargoTokio {
    pub open spec fn spec_step(&self) -> Option<Seq<char>> {
        match self {
            CargoTokio::Tokio { step } => match step {
                Some(s) => Some(s@),
                None => None,
            },
        }
    }

    /// The name of the step asked for, if one was given.
    pub fn step(&self) -> (r: Option<&str>)
        ensures
            self.spec_step() is None ==> r is None,
            self.spec_step() matches Some(n) ==> r matches Some(s) && s@ == n,
    {
        match self {
            CargoTokio::Tokio { step } => match step {
                Some(s) => Some(s.as_str()),
                None => None,
            },
        }
    }
}

} // verus!
