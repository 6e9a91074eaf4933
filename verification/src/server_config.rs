//! Server settings and request header reading.
use vstd::prelude::*;
use crate::text::{
    chars_of, has_prefix, owned, parse_unsigned, parse_unsigned_text, same_text, string_of,
};

verus! {

/// The default listening address.
pub const DEFAULT_BIND_ADDR: &'static str = "127.0.0.1";

/// The default listening port.
pub const DEFAULT_PORT: u16 = 8080;

/// The listening address from the value of `BIND_ADDR`, or `127.0.0.1`.
pub fn bind_ip_from(value: Option<String>) -> (r: String)
    ensures
        r@ == match value {
            Some(v) => v@,
            None => DEFAULT_BIND_ADDR@,
        },
{
    match value {
        Some(v) => v,
        None => owned(DEFAULT_BIND_ADDR),
    }
}

/// The listening port from the value of `PORT`: the value when it reads as a
/// `u16`, else 8080.
pub fn port_from(value: Option<String>) -> (r: u16)
    ensures
        r == match value {
            Some(v) => match parse_unsigned_text(v@, u16::MAX as nat) {
                Some(n) => n as u16,
                None => DEFAULT_PORT,
            },
            None => DEFAULT_PORT,
        },
{
    match value {
        Some(v) => {
            let cs = chars_of(v.as_str());
            match parse_unsigned(cs.as_slice(), u16::MAX as u64) {
                Some(n) => n as u16,
                None => DEFAULT_PORT,
            }
        },
        None => DEFAULT_PORT,
    }
}

/// The text with every leading copy of `Bearer ` removed (as
/// `trim_start_matches("Bearer ")` does).
pub open spec fn strip_bearer(s: Seq<char>) -> Seq<char>
    decreases s.len(),
{
    if has_prefix(s, "Bearer "@) && "Bearer "@.len() > 0 {
        strip_bearer(s.skip("Bearer "@.len() as int))
    } else {
        s
    }
}

/// The token of an `Authorization` header value.
pub fn bearer_token(header: &str) -> (r: String)
    ensures
        r@ == strip_bearer(header@),
{
    proof {
        reveal_strlit("Bearer ");
    }
    let p = chars_of("Bearer ");
    let cs = chars_of(header);
    let mut start: usize = 0;
    assert(cs@.skip(0) == cs@);
    loop
        invariant
            p@ == "Bearer "@,
            p@.len() == 7,
            cs@ == header@,
            start <= cs.len(),
            strip_bearer(header@) == strip_bearer(cs@.skip(start as int)),
        ensures
            start <= cs.len(),
            cs@ == header@,
            strip_bearer(header@) == cs@.skip(start as int),
        decreases cs.len() - start,
    {
        let ghost rest = cs@.skip(start as int);
        if cs.len() - start < 7 {
            assert(!has_prefix(rest, "Bearer "@));
            assert(strip_bearer(rest) == rest);
            break;
        }
        let mut k: usize = 0;
        let mut matches = true;
        while k < 7
            invariant
                p@.len() == 7,
                start + 7 <= cs.len(),
                k <= 7,
                rest == cs@.skip(start as int),
                matches == (forall|j: int| 0 <= j < k ==> cs@[start + j] == p@[j]),
            decreases 7 - k,
        {
            if cs[start + k] != p[k] {
                matches = false;
            }
            k = k + 1;
        }
        if !matches {
            assert(!has_prefix(rest, "Bearer "@)) by {
                if has_prefix(rest, "Bearer "@) {
                    assert forall|j: int| 0 <= j < 7 implies cs@[start + j] == p@[j] by {
                        assert(rest.take(7)[j] == rest[j]);
                    }
                }
            }
            assert(strip_bearer(rest) == rest);
            break;
        }
        assert(rest.take(7) =~= "Bearer "@);
        assert(rest.skip(7) =~= cs@.skip(start + 7));
        start = start + 7;
    }
    let tail = vstd::slice::slice_subrange(cs.as_slice(), start, cs.len());
    assert(tail@ =~= cs@.skip(start as int));
    string_of(tail)
}

/// Whether a login succeeds: a user is stored under the email and the given
/// password is the stored one.
pub fn login_outcome(stored_password: Option<String>, given: &str) -> (r: bool)
    ensures
        r == (stored_password matches Some(p) && p@ == given@),
{
    match stored_password {
        Some(p) => same_text(&p, given),
        None => false,
    }
}

} // verus!
