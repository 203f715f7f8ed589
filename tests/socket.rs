use std::sync::Arc;

use xdpilone::errno::Errno;
use xdpilone::fd::{SocketFd, XskUmem};
use xdpilone::iface::{IfCtx, IfInfo};
use xdpilone::socket::{resolve_netns_cookie, CookieReply, XskSocket, INIT_NS, SO_NETNS_COOKIE};

fn eth0() -> IfInfo {
    IfInfo::new(2, 0, "eth0".to_string())
}

fn cookie_read(value: u64) -> CookieReply {
    CookieReply { ret: 0, value, last_error: 0 }
}

fn query_failed(code: i32) -> CookieReply {
    CookieReply { ret: -1, value: 0, last_error: code }
}

fn owner(raw: i32) -> SocketFd {
    SocketFd::new(raw, 0).unwrap()
}

#[test]
fn fresh_socket_is_sole_owner_of_descriptor() {
    let sock = XskSocket::new(&eth0(), owner(5), cookie_read(4096)).unwrap();
    assert_eq!(Arc::strong_count(sock.fd()), 1);
    assert_eq!(sock.fd().as_raw_fd(), 5);
}

#[test]
fn shared_socket_reuses_region_descriptor() {
    let umem = XskUmem { fd: Arc::new(owner(9)) };
    let before = Arc::strong_count(&umem.fd);
    let sock = XskSocket::with_shared(&eth0(), &umem, cookie_read(17)).unwrap();
    assert!(Arc::ptr_eq(sock.fd(), &umem.fd));
    assert_eq!(sock.fd().as_raw_fd(), umem.fd.as_raw_fd());
    assert_eq!(Arc::strong_count(&umem.fd), before + 1);
    let second = XskSocket::with_shared(&eth0(), &umem, cookie_read(17)).unwrap();
    assert_eq!(Arc::strong_count(second.fd()), before + 2);
}

#[test]
fn unsupported_option_gives_initial_namespace() {
    let sock = XskSocket::new(&eth0(), owner(3), query_failed(libc::ENOPROTOOPT)).unwrap();
    assert_eq!(sock.netns_cookie(), INIT_NS);
    assert_eq!(sock.netns_cookie(), 1);

    let umem = XskUmem { fd: Arc::new(owner(4)) };
    let shared = XskSocket::with_shared(&eth0(), &umem, query_failed(libc::ENOPROTOOPT)).unwrap();
    assert_eq!(shared.netns_cookie(), 1);
}

#[test]
fn other_query_failure_is_os_error() {
    let r = XskSocket::new(&eth0(), owner(3), query_failed(libc::EBADF));
    assert!(matches!(r, Err(Errno(code)) if code == libc::EBADF));

    let umem = XskUmem { fd: Arc::new(owner(4)) };
    let r = XskSocket::with_shared(&eth0(), &umem, query_failed(libc::EINVAL));
    assert!(matches!(r, Err(Errno(code)) if code == libc::EINVAL));
    assert_eq!(Arc::strong_count(&umem.fd), 1);
}

#[test]
fn stamping_leaves_caller_description_unchanged() {
    let mut info = eth0();
    info.ctx.netnscookie = 55;
    let sock = XskSocket::new(&info, owner(3), cookie_read(778899)).unwrap();
    assert_eq!(info.ctx.netnscookie, 55);
    assert_eq!(info.name, "eth0");
    assert_eq!(sock.netns_cookie(), 778899);
    assert_eq!(sock.info().ctx, IfCtx { ifindex: 2, queue_id: 0, netnscookie: 778899 });
    assert_eq!(sock.info().name, "eth0");
}

#[test]
fn last_reference_alone_releases_descriptor() {
    let umem = XskUmem { fd: Arc::new(owner(12)) };
    let a = XskSocket::with_shared(&eth0(), &umem, cookie_read(8)).unwrap();
    let b = XskSocket::with_shared(&eth0(), &umem, cookie_read(8)).unwrap();
    drop(umem);
    let (fd_a, _) = a.into_parts();
    assert!(Arc::into_inner(fd_a).is_none());
    assert_eq!(b.fd().as_raw_fd(), 12);
    let (fd_b, _) = b.into_parts();
    let released = Arc::into_inner(fd_b).unwrap();
    assert_eq!(released.as_raw_fd(), 12);
}

#[test]
fn eth0_without_cookie_support() {
    let sock = XskSocket::new(&eth0(), owner(6), query_failed(libc::ENOPROTOOPT)).unwrap();
    assert_eq!(sock.netns_cookie(), 1);
}

#[test]
fn eth0_with_kernel_cookie() {
    let sock = XskSocket::new(&eth0(), owner(6), cookie_read(778899)).unwrap();
    assert_eq!(sock.netns_cookie(), 778899);
}

#[test]
fn socket_creation_failure_carries_errno() {
    let r = SocketFd::new(-1, libc::EPERM);
    assert!(matches!(r, Err(Errno(code)) if code == libc::EPERM));
    assert_eq!(r.unwrap_err().get_raw(), libc::EPERM);
}

#[test]
fn created_handle_is_kept() {
    let fd = SocketFd::new(0, libc::EPERM).unwrap();
    assert_eq!(fd.as_raw_fd(), 0);
}

#[test]
fn resolve_cookie_each_outcome() {
    assert_eq!(resolve_netns_cookie(cookie_read(0), 92), Ok(0));
    assert_eq!(resolve_netns_cookie(cookie_read(u64::MAX), 92), Ok(u64::MAX));
    assert_eq!(resolve_netns_cookie(query_failed(92), 92), Ok(1));
    assert_eq!(resolve_netns_cookie(query_failed(92), 99), Err(Errno(92)));
    assert_eq!(resolve_netns_cookie(CookieReply { ret: 0, value: 3, last_error: 92 }, 92), Ok(3));
}

#[test]
fn assemble_uses_given_unsupported_code() {
    let r = XskSocket::assemble(&eth0(), Arc::new(owner(2)), query_failed(99), 99);
    assert_eq!(r.unwrap().netns_cookie(), 1);
    let r = XskSocket::assemble(&eth0(), Arc::new(owner(2)), query_failed(99), 92);
    assert!(matches!(r, Err(Errno(99))));
}

#[test]
fn stamped_copy_keeps_identity() {
    let info = IfInfo::new(7, 3, "veth1".to_string());
    let copy = info.with_netns_cookie(41);
    assert_eq!(copy.ctx, IfCtx { ifindex: 7, queue_id: 3, netnscookie: 41 });
    assert_eq!(copy.name, "veth1");
    assert_eq!(info.ctx.netnscookie, 0);
}

#[test]
fn namespace_cookie_option_number() {
    assert_eq!(SO_NETNS_COOKIE, 71);
}
