use vstd::prelude::*;

verus! {

/// An operating-system error surfaced verbatim: the raw OS error code.
///
/// Every failure of the endpoint machinery is reported this way; nothing is
/// retried or substituted inside the library except the documented
/// pipe-busy retry during a Windows client connect.
#[derive(Clone, Copy, PartialEq, Eq, Structural, Debug)]
pub struct OsError {
    /// The raw error code as the OS reported it.
    pub code: u32,
}

impl OsError {
    /// Wraps a raw OS error code.
    pub fn new(code: u32) -> (r: OsError)
        ensures
            r.code == code,
    {
        OsError { code }
    }
}

} // verus!
