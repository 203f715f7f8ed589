use vstd::prelude::*;

use crate::errno::Errno;
use crate::fd::{SocketFd, XskUmem};
use crate::iface::{stamped, IfCtx, IfInfo};
use std::sync::Arc;

verus! {

/// The socket option that reads the network-namespace cookie (`SO_NETNS_COOKIE`).
pub const SO_NETNS_COOKIE: i32 = 71;

/// The cookie that designates the initial network namespace.
pub const INIT_NS: u64 = 1;

/// What the get-socket-option call for the namespace cookie reported.
#[derive(Clone, Copy, Debug, PartialEq, Eq, Structural)]
pub struct CookieReply {
    /// The call's return value: zero on success.
    pub ret: i32,
    /// The cookie the call wrote, meaningful when `ret` is zero.
    pub value: u64,
    /// The error code the call left behind, meaningful when `ret` is not zero.
    pub last_error: i32,
}

/// The namespace cookie that `reply` resolves to, where `unsupported` is the
/// platform's error code for an option the kernel does not know: the value
/// read on success, the initial namespace when the option is unsupported, and
/// the reported error otherwise.
pub open spec fn netns_cookie_of(reply: CookieReply, unsupported: i32) -> Result<u64, Errno> {
    if reply.ret == 0 {
        Ok(reply.value)
    } else if reply.last_error == unsupported {
        Ok(INIT_NS)
    } else {
        Err(Errno(reply.last_error))
    }
}

/// Resolves the namespace cookie from the reply of the get-socket-option call.
pub fn resolve_netns_cookie(reply: CookieReply, unsupported: i32) -> (r: Result<u64, Errno>)
    ensures
        r == netns_cookie_of(reply, unsupported),
{
    if reply.ret == 0 {
        Ok(reply.value)
    } else if reply.last_error == unsupported {
        Ok(INIT_NS)
    } else {
        Err(Errno::new(reply.last_error))
    }
}

/// The platform's error code by which the kernel reports that it does not
/// support the socket option `option`.
pub uninterp spec fn unsupported_code_of(option: i32) -> i32;

/// Relies on libc::ENOPROTOOPT: the platform's error code for a socket option
/// that the kernel does not support, here the namespace-cookie option.
#[verifier::external_body]
fn unsupported_option_code() -> (r: i32)
    ensures
        r == unsupported_code_of(SO_NETNS_COOKIE),
{
    libc::ENOPROTOOPT
}

/// An XDP socket: a descriptor owner, possibly shared, paired with the
/// description of the interface queue it serves, stamped with its namespace
/// cookie.
pub struct XskSocket {
    fd: Arc<SocketFd>,
    info: Arc<IfInfo>,
}

/// Whether `r` is what assembling a socket over `interface` and the handle
/// `handle` yields, given the cookie `reply` and the unsupported-option code
/// `unsupported`: the stamped socket, or the error the cookie query raised.
pub open spec fn assembled(
    r: Result<XskSocket, Errno>,
    interface: (IfCtx, Seq<char>),
    handle: int,
    reply: CookieReply,
    unsupported: i32,
) -> bool {
    match netns_cookie_of(reply, unsupported) {
        Ok(cookie) => r matches Ok(s) && s.handle() == handle && s.interface() == stamped(
            interface,
            cookie,
        ),
        Err(e) => r == Err::<XskSocket, Errno>(e),
    }
}

impl XskSocket {
    /// The raw handle of the socket's descriptor owner.
    pub closed spec fn handle(&self) -> int {
        self.fd@
    }

    /// The socket's interface description.
    pub closed spec fn interface(&self) -> (IfCtx, Seq<char>) {
        self.info@
    }

    /// Creates a socket over a fresh descriptor owner `fd`, whose namespace
    /// cookie query answered `reply`. A query that failed with the platform's
    /// unsupported-option code stamps the initial namespace's cookie; any other
    /// failure is returned as the error.
    pub fn new(interface: &IfInfo, fd: SocketFd, reply: CookieReply) -> (r: Result<Self, Errno>)
        ensures
            assembled(r, interface@, fd@, reply, unsupported_code_of(SO_NETNS_COOKIE)),
    {
        let fd = Arc::new(fd);
        Self::with_xdp_socket(interface, fd, reply)
    }

    /// Creates a socket that shares the descriptor owner of `umem`, whose
    /// namespace cookie query answered `reply`; the query's reply is resolved
    /// as in [`XskSocket::new`].
    ///
    /// Sharing one descriptor between sockets of different interfaces is not
    /// memory-unsafe but routes traffic wrongly; callers must not do it.
    pub fn with_shared(interface: &IfInfo, umem: &XskUmem, reply: CookieReply) -> (r: Result<
        Self,
        Errno,
    >)
        ensures
            assembled(r, interface@, umem.fd@, reply, unsupported_code_of(SO_NETNS_COOKIE)),
    {
        Self::with_xdp_socket(interface, umem.fd.clone(), reply)
    }

    fn with_xdp_socket(interface: &IfInfo, fd: Arc<SocketFd>, reply: CookieReply) -> (r: Result<
        Self,
        Errno,
    >)
        ensures
            assembled(r, interface@, fd@, reply, unsupported_code_of(SO_NETNS_COOKIE)),
    {
        let unsupported = unsupported_option_code();
        Self::assemble(interface, fd, reply, unsupported)
    }

    /// Assembles a socket over `fd` for `interface`, stamping the namespace
    /// cookie that `reply` resolves to, where `unsupported` is the platform's
    /// code for an unsupported option. The caller's description is copied,
    /// never changed.
    pub fn assemble(interface: &IfInfo, fd: Arc<SocketFd>, reply: CookieReply, unsupported: i32) -> (r:
        Result<Self, Errno>)
        ensures
            assembled(r, interface@, fd@, reply, unsupported),
    {
        let cookie = resolve_netns_cookie(reply, unsupported)?;
        let info = Arc::new(interface.with_netns_cookie(cookie));
        Ok(XskSocket { fd, info })
    }
}


impl XskSocket {
    /// The socket's descriptor owner.
    pub fn fd(&self) -> (r: &Arc<SocketFd>)
        ensures
            r@ == self.handle(),
    {
        &self.fd
    }

    /// The socket's interface description.
    pub fn info(&self) -> (r: &Arc<IfInfo>)
        ensures
            r@ == self.interface(),
    {
        &self.info
    }

    /// The namespace cookie stamped into the socket's description.
    pub fn netns_cookie(&self) -> (r: u64)
        ensures
            r == self.interface().0.netnscookie,
    {
        self.info.ctx.netnscookie
    }

    /// Gives up the socket, handing back its references to the descriptor
    /// owner and to the description; the descriptor is released by whoever
    /// drops the last reference to its owner.
    pub fn into_parts(self) -> (r: (Arc<SocketFd>, Arc<IfInfo>))
        ensures
            r.0@ == self.handle(),
            r.1@ == self.interface(),
    {
        (self.fd, self.info)
    }
}

/// When the kernel reports the namespace-cookie option as unsupported, the
/// socket is still assembled and carries the initial namespace's cookie,
/// whatever namespace it actually lives in.
pub proof fn lemma_unsupported_option_gives_initial_namespace(
    r: Result<XskSocket, Errno>,
    interface: (IfCtx, Seq<char>),
    handle: int,
    reply: CookieReply,
    unsupported: i32,
)
    requires
        assembled(r, interface, handle, reply, unsupported),
        reply.ret != 0,
        reply.last_error == unsupported,
    ensures
        r matches Ok(s) && s.interface().0.netnscookie == INIT_NS,
{
}

/// When the namespace-cookie query fails for any other reason, assembly fails
/// with that error code and yields no socket.
pub proof fn lemma_other_failure_gives_error(
    r: Result<XskSocket, Errno>,
    interface: (IfCtx, Seq<char>),
    handle: int,
    reply: CookieReply,
    unsupported: i32,
)
    requires
        assembled(r, interface, handle, reply, unsupported),
        reply.ret != 0,
        reply.last_error != unsupported,
    ensures
        r == Err::<XskSocket, Errno>(Errno(reply.last_error)),
{
}

/// A successful query stamps exactly the cookie it read.
pub proof fn lemma_success_stamps_cookie_read(
    r: Result<XskSocket, Errno>,
    interface: (IfCtx, Seq<char>),
    handle: int,
    reply: CookieReply,
    unsupported: i32,
)
    requires
        assembled(r, interface, handle, reply, unsupported),
        reply.ret == 0,
    ensures
        r matches Ok(s) && s.interface().0.netnscookie == reply.value,
{
}

/// An assembled socket keeps the descriptor it was given, so a socket made
/// over a shared region reports the region's own descriptor.
pub proof fn lemma_assembly_keeps_descriptor(
    r: Result<XskSocket, Errno>,
    interface: (IfCtx, Seq<char>),
    handle: int,
    reply: CookieReply,
    unsupported: i32,
)
    requires
        assembled(r, interface, handle, reply, unsupported),
        r is Ok,
    ensures
        r->Ok_0.handle() == handle,
{
}

/// Stamping the cookie touches nothing but the cookie: the socket holds a
/// stamped copy that agrees with the caller's description in interface index,
/// queue and name. The caller's description is only read, through a shared
/// reference.
pub proof fn lemma_stamp_changes_only_cookie(
    r: Result<XskSocket, Errno>,
    interface: (IfCtx, Seq<char>),
    handle: int,
    reply: CookieReply,
    unsupported: i32,
)
    requires
        assembled(r, interface, handle, reply, unsupported),
        r is Ok,
    ensures
        r->Ok_0.interface().0.ifindex == interface.0.ifindex,
        r->Ok_0.interface().0.queue_id == interface.0.queue_id,
        r->Ok_0.interface().1 == interface.1,
{
}

} // verus!
