use vstd::prelude::*;

use crate::errno::Errno;
use std::sync::Arc;

verus! {

/// The sole owner of one raw kernel socket handle of the XDP address family.
///
/// It is made only from what the socket-creation primitive returned, and is
/// shared between sockets through an `Arc`.
#[derive(Debug)]
pub struct SocketFd {
    raw: i32,
}

impl View for SocketFd {
    type V = int;

    closed spec fn view(&self) -> int {
        self.raw as int
    }
}

impl SocketFd {
    #[verifier::type_invariant]
    closed spec fn inv(&self) -> bool {
        self.raw >= 0
    }

    /// Takes ownership of the handle `ret` returned by the socket-creation call.
    /// A negative `ret` is a failure, reported with the error code `last_error`
    /// that the call left behind.
    pub fn new(ret: i32, last_error: i32) -> (r: Result<SocketFd, Errno>)
        ensures
            ret >= 0 ==> (r matches Ok(fd) && fd@ == ret),
            ret < 0 ==> r == Err::<SocketFd, Errno>(Errno(last_error)),
    {
        if ret < 0 {
            return Err(Errno::new(last_error));
        }
        Ok(SocketFd { raw: ret })
    }

    /// The raw handle, for the calls that operate on it.
    pub fn as_raw_fd(&self) -> (r: i32)
        ensures
            r == self@,
            r >= 0,
    {
        proof {
            use_type_invariant(self);
        }
        self.raw
    }
}

/// The shared packet-buffer region, represented here by the descriptor it
/// was registered on.
pub struct XskUmem {
    pub fd: Arc<SocketFd>,
}

} // verus!
