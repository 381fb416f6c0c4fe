use vstd::prelude::*;

verus! {

/// One free-text question put to the user at the terminal.
#[derive(Debug)]
pub struct Question {
    prompt: String,
}

impl Question {
    /// The text shown before the answer is read.
    pub closed spec fn spec_prompt(&self) -> Seq<char> {
        self.prompt@
    }

    pub fn new(prompt: String) -> (r: Question)
        ensures
            r.spec_prompt() == prompt@,
    {
        Question { prompt }
    }

    /// The text shown before the answer is read.
    pub fn prompt_text(&self) -> (r: &String)
        ensures
            r@ == self.spec_prompt(),
    {
        &self.prompt
    }
}

} // verus!
