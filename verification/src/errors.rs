//! The library's error type. I/O failures are reported by the surrounding
//! program as plain text; nothing in the core itself fails.

use vstd::prelude::*;
use vstd::string::StringExecFns;

verus! {

#[derive(Debug)]
pub enum SysmonError {
    Io(String),
}

impl SysmonError {
    /// The display form of the error.
    pub fn message(&self) -> (s: String)
        ensures
            match self {
                SysmonError::Io(m) => s@ == "I/O error: "@ + m@,
            },
    {
        match self {
            SysmonError::Io(m) => {
                let mut s: String = "I/O error: ".to_owned();
                s.append(m.as_str());
                s
            },
        }
    }
}

} // verus!
