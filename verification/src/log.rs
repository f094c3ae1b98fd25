//! The diagnostic sink of one call.

use vstd::prelude::*;
use vstd::string::StringExecFns;

verus! {

/// Collects the diagnostics of one call, in order, under a fixed tag. The
/// lines are advisory; the caller forwards them to wherever the host logs.
#[derive(Debug)]
pub struct Logger {
    pub tag: String,
    pub lines: Vec<String>,
}

impl Logger {
    /// The lines emitted so far, as text.
    pub open spec fn emitted(&self) -> Seq<Seq<char>> {
        self.lines@.map_values(|s: String| s@)
    }

    /// A sink with the tag "StitchyMobile" and no lines.
    pub fn new() -> (logger: Logger)
        ensures
            logger.tag@ == "StitchyMobile"@,
            logger.emitted() == Seq::<Seq<char>>::empty(),
    {
        let logger = Logger { tag: String::from_str("StitchyMobile"), lines: Vec::new() };
        assert(logger.emitted() =~= Seq::<Seq<char>>::empty());
        logger
    }

    /// Emits one line: it becomes the last of the emitted lines.
    pub fn log_message(&mut self, message: &str)
        ensures
            final(self).tag == old(self).tag,
            final(self).emitted() == old(self).emitted().push(message@),
    {
        self.lines.push(String::from_str(message));
        assert(self.emitted() =~= old(self).emitted().push(message@));
    }
}

/// `n` copies of one line.
pub open spec fn repeated(line: Seq<char>, n: nat) -> Seq<Seq<char>> {
    Seq::new(n, |i: int| line)
}

} // verus!
