use vstd::prelude::*;

verus! {

/// The numeric identity of an interface queue, with the namespace cookie that
/// socket assembly stamps into it.
#[derive(Clone, Copy, Debug, PartialEq, Eq, Structural)]
pub struct IfCtx {
    pub ifindex: u32,
    pub queue_id: u32,
    /// Identifier of the network namespace the socket lives in.
    pub netnscookie: u64,
}

/// Description of the interface queue that a socket binds to.
#[derive(Clone, Debug)]
pub struct IfInfo {
    pub ctx: IfCtx,
    pub name: String,
}

impl View for IfInfo {
    type V = (IfCtx, Seq<char>);

    open spec fn view(&self) -> (IfCtx, Seq<char>) {
        (self.ctx, self.name@)
    }
}

/// The description `info` with its namespace cookie replaced by `cookie`.
pub open spec fn stamped(info: (IfCtx, Seq<char>), cookie: u64) -> (IfCtx, Seq<char>) {
    (IfCtx { netnscookie: cookie, ..info.0 }, info.1)
}

impl IfInfo {
    /// Describes queue `queue_id` of the interface `name` with index `ifindex`;
    /// the namespace cookie is left at zero until a socket is assembled.
    pub fn new(ifindex: u32, queue_id: u32, name: String) -> (r: IfInfo)
        ensures
            r@ == (IfCtx { ifindex, queue_id, netnscookie: 0 }, name@),
    {
        IfInfo { ctx: IfCtx { ifindex, queue_id, netnscookie: 0 }, name }
    }

    /// A private copy of this description that carries `cookie` as its
    /// namespace cookie; `self` is left as it was.
    pub fn with_netns_cookie(&self, cookie: u64) -> (r: IfInfo)
        ensures
            r@ == stamped(self@, cookie),
    {
        let mut ctx = self.ctx;
        ctx.netnscookie = cookie;
        IfInfo { ctx, name: self.name.clone() }
    }
}

} // verus!
