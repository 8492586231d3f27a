use vstd::prelude::*;

verus! {

/// CliError, the return type for `main()`.
///
/// It carries only the text to print: a program's outer layer converts the
/// errors it meets into this type at the boundary.
#[derive(Debug, PartialEq)]
pub struct CliError {
    pub message: String,
}

impl CliError {
    pub fn new(message: String) -> (r: Self)
        ensures
            r.message == message,
    {
        CliError { message }
    }

    pub fn message(&self) -> (m: &String)
        ensures
            m == &self.message,
    {
        &self.message
    }
}

} // verus!
