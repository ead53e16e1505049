//! Uniform controller response: a success flag and a message.

use vstd::prelude::*;

verus! {

/// Response of a web controller.
#[derive(Debug, Clone)]
pub struct Res {
    pub success: bool,
    pub message: String,
}

impl Res {
    /// A successful response carrying `message`.
    pub fn success(message: String) -> (r: Res)
        ensures
            r.success == true,
            r.message@ == message@,
    {
        Res { success: true, message }
    }

    /// A failed response carrying `message`.
    pub fn fail(message: String) -> (r: Res)
        ensures
            r.success == false,
            r.message@ == message@,
    {
        Res { success: false, message }
    }
}

} // verus!
