use vstd::prelude::*;

verus! {

/// The failure conditions of the runtime core.
///
/// All of them indicate a programming error in the embedding application;
/// none is a transient condition worth retrying. The core reports them and
/// leaves recovery policy to the caller.
#[derive(Clone, Copy, Debug, PartialEq, Eq, Structural)]
pub enum Error {
    /// A typed lookup found no entry for the requested type key.
    MissingResource,
    /// A typed lookup found an entry whose recorded type key disagrees with
    /// the requested one.
    TypeMismatch,
    /// A multi-access request named the same type key twice.
    DuplicateTypeInMultiAccess,
    /// Setup or execution was requested while the lifecycle driver holds no
    /// execution context.
    DriverNotReady,
}

} // verus!
