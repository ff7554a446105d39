//! The choice of upstream endpoint for one session, and of what the client is
//! told before the relay starts.
use vstd::prelude::*;
use crate::handshake::{address_text, ParsedRequest};
use crate::target::{after_update, target_shape};

verus! {

/// How the proxy picks its upstream.
#[derive(Clone, Copy, Debug, PartialEq, Eq, Structural)]
pub enum Mode {
    /// Connect to the destination that the client asked for.
    Direct,
    /// Connect to the register's target, hand it the client's request, and
    /// pass its reply back to the client.
    RedirectForward,
    /// Connect to the register's target and answer the client locally.
    RedirectLocalReply,
}

/// What a session does once its request is decoded.
#[derive(Clone, Debug)]
pub struct UpstreamPlan {
    /// The `host:port` to connect to.
    pub address: String,
    /// The bytes to send upstream before the relay, if any.
    pub forward: Option<Vec<u8>>,
    /// The reply to send the client; `None` where it is upstream's reply.
    pub client_reply: Option<Vec<u8>>,
}

/// A success reply whose bound address is the four bytes `a`, port zero.
pub open spec fn success_reply(a: Seq<u8>) -> Seq<u8> {
    seq![5u8, 0u8, 0u8, 1u8] + a + seq![0u8, 0u8]
}

/// Whether a mode ignores the client's destination.
pub open spec fn redirects(mode: Mode) -> bool {
    mode != Mode::Direct
}

/// The address a session connects to.
pub open spec fn plan_address(mode: Mode, req: ParsedRequest, target: Seq<char>) -> Seq<char> {
    if redirects(mode) {
        target
    } else {
        address_text(req.kind, req.host@, req.port as nat)
    }
}

/// Plans the upstream side of a session from its request and the target that
/// the register holds now.
pub fn plan_upstream(mode: Mode, req: &ParsedRequest, target: String) -> (r: UpstreamPlan)
    requires
        req.wf(),
    ensures
        r.address@ == plan_address(mode, *req, target@),
        mode == Mode::Direct ==> r.forward is None && r.client_reply is Some
            && r.client_reply->Some_0@ == success_reply(seq![0u8, 0u8, 0u8, 0u8]),
        mode == Mode::RedirectForward ==> r.forward is Some && r.forward->Some_0@ == req.raw@
            && r.client_reply is None,
        mode == Mode::RedirectLocalReply ==> r.forward is None && r.client_reply is Some
            && r.client_reply->Some_0@ == success_reply(seq![127u8, 0u8, 0u8, 1u8]),
{
    match mode {
        Mode::Direct => {
            let reply = vec![5u8, 0u8, 0u8, 1u8, 0u8, 0u8, 0u8, 0u8, 0u8, 0u8];
            assert(reply@ =~= success_reply(seq![0u8, 0u8, 0u8, 0u8]));
            UpstreamPlan { address: req.address(), forward: None, client_reply: Some(reply) }
        },
        Mode::RedirectForward => {
            UpstreamPlan { address: target, forward: Some(req.raw.clone()), client_reply: None }
        },
        Mode::RedirectLocalReply => {
            let reply = vec![5u8, 0u8, 0u8, 1u8, 127u8, 0u8, 0u8, 1u8, 0u8, 0u8];
            assert(reply@ =~= success_reply(seq![127u8, 0u8, 0u8, 1u8]));
            UpstreamPlan { address: target, forward: None, client_reply: Some(reply) }
        },
    }
}

/// In a redirecting mode every request, whatever its destination, is served
/// against the register's target.
pub proof fn lemma_redirect_ignores_destination(
    mode: Mode,
    first: ParsedRequest,
    second: ParsedRequest,
    target: Seq<char>,
)
    requires
        redirects(mode),
    ensures
        plan_address(mode, first, target) == target,
        plan_address(mode, first, target) == plan_address(mode, second, target),
{
}

/// Once the control endpoint has stored a well-formed target, a session that
/// redirects connects to that target, whatever the register held before and
/// whatever the client asked for.
pub proof fn lemma_redirect_after_update(
    mode: Mode,
    req: ParsedRequest,
    current: Seq<char>,
    new_target: Seq<char>,
)
    requires
        redirects(mode),
        target_shape(new_target),
    ensures
        plan_address(mode, req, after_update(current, new_target)) == new_target,
{
}

} // verus!
