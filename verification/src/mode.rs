use vstd::prelude::*;

verus! {

/// The three shapes in which a report can be written.
#[derive(Clone, Copy, Debug, PartialEq, Eq, Structural)]
pub enum Mode {
    /// Section headings, each policy followed by its document or an error notice.
    Human,
    /// One structured JSON object.
    Json,
    /// Policy names only.
    Short,
}

impl Mode {
    /// The mode that a pair of command-line switches asks for: the name-only
    /// switch is looked at first, so it wins when both are given.
    pub fn select(short: bool, json: bool) -> (mode: Mode)
        ensures
            short ==> mode == Mode::Short,
            !short && json ==> mode == Mode::Json,
            !short && !json ==> mode == Mode::Human,
    {
        if short {
            Mode::Short
        } else if json {
            Mode::Json
        } else {
            Mode::Human
        }
    }
}

} // verus!
