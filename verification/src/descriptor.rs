//! The descriptor abstraction: how a file-like value names itself to the
//! operating system.

use vstd::prelude::*;

verus! {

/// A platform-native identifier of an open file: a file descriptor on POSIX
/// systems, a handle value on Windows. It is a borrowed name, valid only while
/// the handle it was read from stays open, and owns nothing.
pub type Descriptor = isize;

/// Anything that can be locked: a value that can name its descriptor.
///
/// `descriptor` is the name in contracts; `as_descriptor` reads it at run time
/// and must agree with it.
pub trait AsDescriptor: Send + 'static {
    /// The descriptor this value stands for.
    spec fn descriptor(&self) -> Descriptor;

    /// Reads the descriptor.
    fn as_descriptor(&self) -> (d: Descriptor)
        ensures
            d == self.descriptor(),
    ;
}

/// A bare descriptor names itself.
impl AsDescriptor for Descriptor {
    open spec fn descriptor(&self) -> Descriptor {
        *self
    }

    fn as_descriptor(&self) -> (d: Descriptor) {
        *self
    }
}

} // verus!
