//! The form in which a line of the debugger's output travels to the user
//! interface.

use vstd::prelude::*;
use crate::api::TauriEvent;

verus! {

/// One line of the debugger's output, with the line break that ends it.
#[derive(Debug)]
pub struct Output {
    pub line: String,
}

impl Output {
    /// The message for the line `text`, which comes without its line
    /// break: the text as it is, and a line break after it.
    pub fn of(text: &str) -> (r: Output)
        ensures
            r.line@ == text@ + seq!['\n'],
    {
        let mut line: String = text.to_owned();
        line.append("\n");
        proof {
            reveal_strlit("\n");
            assert("\n"@ =~= seq!['\n']);
        }
        Output { line }
    }
}

impl Clone for Output {
    fn clone(&self) -> (r: Self)
        ensures
            r.line@ == self.line@,
    {
        Output { line: self.line.clone() }
    }
}

impl TauriEvent for Output {
    open spec fn topic_text(&self) -> Seq<char> {
        "openocd.output"@
    }

    fn topic(&self) -> (t: &'static str) {
        "openocd.output"
    }
}

} // verus!
