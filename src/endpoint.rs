//! Building the base URL of the server from a host and a port typed by a user.

use vstd::prelude::*;

verus! {

/// The scheme prefix that every endpoint carries exactly once.
pub open spec fn scheme() -> Seq<char> {
    seq!['h', 't', 't', 'p', ':', '/', '/']
}

/// Whether `s` begins with the scheme prefix.
pub open spec fn has_scheme(s: Seq<char>) -> bool {
    s.len() >= scheme().len() && s.subrange(0, scheme().len() as int) == scheme()
}

/// `s` with every leading repetition of the scheme prefix removed.
pub open spec fn strip_scheme(s: Seq<char>) -> Seq<char>
    decreases s.len(),
{
    if has_scheme(s) {
        strip_scheme(s.subrange(scheme().len() as int, s.len() as int))
    } else {
        s
    }
}

/// `http://<host without its scheme>:<port>`.
pub open spec fn normalized(host: Seq<char>, port: Seq<char>) -> Seq<char> {
    scheme() + strip_scheme(host) + seq![':'] + port
}

/// What is left after stripping never starts with the scheme.
pub proof fn lemma_strip_scheme_bare(s: Seq<char>)
    ensures
        !has_scheme(strip_scheme(s)),
    decreases s.len(),
{
    if has_scheme(s) {
        lemma_strip_scheme_bare(s.subrange(scheme().len() as int, s.len() as int));
    }
}

/// Whether the characters of `s` from position `i` on begin with the scheme.
fn scheme_at(s: &str, n: usize, i: usize) -> (r: bool)
    requires
        n == s@.len(),
        i <= n,
    ensures
        r == has_scheme(s@.subrange(i as int, n as int)),
{
    let ghost rest = s@.subrange(i as int, n as int);
    if n - i < 7 {
        return false;
    }
    let r = s.get_char(i) == 'h' && s.get_char(i + 1) == 't' && s.get_char(i + 2) == 't'
        && s.get_char(i + 3) == 'p' && s.get_char(i + 4) == ':' && s.get_char(i + 5) == '/'
        && s.get_char(i + 6) == '/';
    proof {
        if r {
            assert(rest.subrange(0, 7) =~= scheme());
        } else if has_scheme(rest) {
            assert(rest.subrange(0, 7)[0] == scheme()[0]);
            assert(rest.subrange(0, 7)[1] == scheme()[1]);
            assert(rest.subrange(0, 7)[2] == scheme()[2]);
            assert(rest.subrange(0, 7)[3] == scheme()[3]);
            assert(rest.subrange(0, 7)[4] == scheme()[4]);
            assert(rest.subrange(0, 7)[5] == scheme()[5]);
            assert(rest.subrange(0, 7)[6] == scheme()[6]);
        }
    }
    r
}

/// Builds `http://<host>:<port>`, dropping any scheme prefix (repeated or not)
/// that the caller already put in front of `host`. Neither part is validated.
pub fn normalize_endpoint(host: &str, port: &str) -> (r: String)
    ensures
        r@ == normalized(host@, port@),
{
    let n = host.unicode_len();
    let mut i: usize = 0;
    proof {
        assert(host@.subrange(0, n as int) =~= host@);
    }
    while scheme_at(host, n, i)
        invariant
            n == host@.len(),
            i <= n,
            strip_scheme(host@.subrange(i as int, n as int)) == strip_scheme(host@),
        decreases n - i,
    {
        proof {
            let rest = host@.subrange(i as int, n as int);
            assert(rest.subrange(7, rest.len() as int) =~= host@.subrange(i + 7, n as int));
        }
        i = i + 7;
    }
    let bare = host.substring_char(i, n);
    proof {
        assert(!has_scheme(bare@));
    }
    let mut r = String::from_str("http://");
    proof {
        reveal_strlit("http://");
        reveal_strlit(":");
        assert(r@ =~= scheme());
    }
    r.append(bare);
    r.append(":");
    r.append(port);
    proof {
        assert(r@ =~= normalized(host@, port@));
    }
    r
}

} // verus!
