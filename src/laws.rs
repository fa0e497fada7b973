//! Properties that relate the functions of this crate to each other and to
//! their inputs.

use vstd::prelude::*;
use crate::endpoint::{has_scheme, lemma_strip_scheme_bare, normalized, scheme, strip_scheme};
use crate::auth::{
    is_request_for, session_outcome, session_token, ConnectionParts, Exchange,
    TokenRequest, STATUS_OK,
};

verus! {

/// A normalized endpoint is `http://`, then the host with every leading
/// `http://` stripped, then `:`, then the port: the scheme occurs exactly once
/// at the front, and the port is appended once. A bare host is kept as it is,
/// and a host that already carries the scheme loses it.
pub proof fn lemma_endpoint_shape(host: Seq<char>, port: Seq<char>)
    ensures
        normalized(host, port) == scheme() + strip_scheme(host) + seq![':'] + port,
        normalized(host, port).subrange(0, 7) == scheme(),
        !has_scheme(strip_scheme(host)),
        normalized(host, port).subrange(
            normalized(host, port).len() - port.len() - 1,
            normalized(host, port).len() as int,
        ) == seq![':'] + port,
        !has_scheme(host) ==> normalized(host, port) == scheme() + host + seq![':'] + port,
        forall|bare: Seq<char>|
            host == scheme() + bare && !has_scheme(bare) ==> normalized(host, port) == scheme()
                + bare + seq![':'] + port,
{
    let n = normalized(host, port);
    lemma_strip_scheme_bare(host);
    assert(n.subrange(0, 7) =~= scheme());
    assert(n.subrange(n.len() - port.len() - 1, n.len() as int) =~= seq![':'] + port);
    assert forall|bare: Seq<char>| host == scheme() + bare && !has_scheme(bare) implies n
        == scheme() + bare + seq![':'] + port by {
        assert(host.subrange(0, 7) =~= scheme());
        assert(host.subrange(7, host.len() as int) =~= bare);
        assert(has_scheme(host));
        assert(strip_scheme(host) == strip_scheme(bare));
        assert(strip_scheme(bare) == bare);
    }
}

/// Two attempts with the same connection parts send the same request, and two
/// attempts that meet the same exchange (and, where the status is 200, the
/// same decoded body) end the same way. Nothing but an attempt's own inputs
/// enters its result, so repeated or simultaneous attempts cannot affect each
/// other.
pub proof fn lemma_attempt_depends_only_on_inputs(
    p1: ConnectionParts,
    p2: ConnectionParts,
    r1: TokenRequest,
    r2: TokenRequest,
    e: Exchange,
    d1: Option<Seq<char>>,
    d2: Option<Seq<char>>,
)
    requires
        p1.host@ == p2.host@,
        p1.port@ == p2.port@,
        p1.email@ == p2.email@,
        p1.password@ == p2.password@,
        is_request_for(r1, p1),
        is_request_for(r2, p2),
        e == Exchange::Response(STATUS_OK) ==> d1 == d2,
    ensures
        r1.url@ == r2.url@,
        r1.credentials.email@ == r2.credentials.email@,
        r1.credentials.password@ == r2.credentials.password@,
        session_outcome(e, d1) == session_outcome(e, d2),
        session_token(e, d1) == session_token(e, d2),
{
}

} // verus!
