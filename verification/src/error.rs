//! The recoverable error type: a domain failure carrying an actionable
//! message that names the offending number and the violated bound.
use vstd::prelude::*;
use vstd::string::StringExecFns;

verus! {

#[derive(Debug)]
pub enum ArrowError {
    InvalidArgumentError(String),
}

impl ArrowError {
    /// The message carried by the error.
    pub open spec fn spec_message(&self) -> Seq<char> {
        match self {
            ArrowError::InvalidArgumentError(s) => s@,
        }
    }

    pub fn message(&self) -> (r: &String)
        ensures
            r@ == self.spec_message(),
    {
        match self {
            ArrowError::InvalidArgumentError(s) => s,
        }
    }

    /// The error's display form.
    pub fn to_text(&self) -> (r: String)
        ensures
            r@ == "Invalid argument error: "@ + self.spec_message(),
    {
        let mut s: String = "Invalid argument error: ".to_owned();
        match self {
            ArrowError::InvalidArgumentError(m) => {
                s.append(m.as_str());
            },
        }
        s
    }
}

} // verus!
