use vstd::prelude::*;

verus! {

/// The failures this crate reports on its own behalf.
#[derive(Debug, Clone, Copy, PartialEq, Eq, Structural)]
pub enum Error {
    TestError,
}

impl Error {
    /// What the message of an error says, as a sequence of characters.
    pub open spec fn spec_message(self) -> Seq<char> {
        match self {
            Error::TestError => "I/O error"@,
        }
    }

    /// The message of this error.
    pub fn to_string(&self) -> (text: String)
        ensures
            text@ == self.spec_message(),
    {
        match self {
            Error::TestError => "I/O error".to_owned(),
        }
    }
}

} // verus!
