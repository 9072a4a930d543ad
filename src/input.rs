use vstd::prelude::*;

verus! {

/// A single-line text field and whether it is being edited.
#[derive(Debug)]
pub struct InputState {
    pub active: bool,
    pub value: String,
}

impl Default for InputState {
    fn default() -> (r: InputState)
        ensures
            !r.active,
            r.value@ == Seq::<char>::empty(),
    {
        InputState { active: false, value: String::new() }
    }
}

} // verus!
