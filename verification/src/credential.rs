//! The issued credential and the upstream response shape.
//!
//! A successful upstream answer is a JSON object holding a `client_secret`
//! object with a string `value` and an integer `expires_at`; any other
//! members, at either level, are permitted and ignored (first occurrence of a
//! recognized key wins). [`parse_token_response`] reads exactly that shape.

use vstd::prelude::*;
use crate::json::{
    ws_end,
    string_rest,
    u64_value,
    value_end,
    ws_end_x,
    string_rest_x,
    u64_value_x,
    value_end_x,
};
use crate::text::chars_to_string;

verus! {

/// The short-lived secret minted by the upstream issuer.
#[derive(Debug, Clone, PartialEq, Eq)]
pub struct ClientSecret {
    pub value: String,
    pub expires_at: u64,
}

/// The structured body of a successful upstream answer.
#[derive(Debug, Clone, PartialEq, Eq)]
pub struct EphemeralTokenResponse {
    pub client_secret: ClientSecret,
}

/// An ephemeral credential as handed to the caller: an opaque token and its
/// absolute expiry, in seconds since the epoch.
#[derive(Debug, Clone, PartialEq, Eq)]
pub struct EphemeralCredential {
    pub token: String,
    pub expiry: u64,
}

/// The member key naming the token string.
pub open spec fn value_key() -> Seq<char> {
    seq!['v', 'a', 'l', 'u', 'e']
}

/// The member key naming the expiry.
pub open spec fn expires_key() -> Seq<char> {
    seq!['e', 'x', 'p', 'i', 'r', 'e', 's', '_', 'a', 't']
}

/// The member key naming the credential object.
pub open spec fn client_secret_key() -> Seq<char> {
    seq!['c', 'l', 'i', 'e', 'n', 't', '_', 's', 'e', 'c', 'r', 'e', 't']
}

/// Reads the members of the `client_secret` object, carrying the fields seen
/// so far. `i` points just after `{` (when `first`) or just after a comma. On
/// success, both required fields were present; returns them and the index
/// just after `}`.
pub open spec fn secret_fields(
    s: Seq<char>,
    i: int,
    first: bool,
    val: Option<Seq<char>>,
    exp: Option<u64>,
) -> Option<(Seq<char>, u64, int)>
    decreases s.len() - i,
{
    let j = ws_end(s, i);
    if !(i <= j < s.len()) {
        None
    } else if first && s[j] == '}' {
        None
    } else if s[j] != '"' {
        None
    } else {
        match string_rest(s, j + 1) {
            Some((k, e1)) => {
                let j2 = ws_end(s, e1);
                if j2 < s.len() && s[j2] == ':' {
                    let j3 = ws_end(s, j2 + 1);
                    if i <= j3 <= s.len() {
                        let step: Option<(Option<Seq<char>>, Option<u64>, int)> = if k
                            == value_key() && val is None {
                            if j3 < s.len() && s[j3] == '"' {
                                match string_rest(s, j3 + 1) {
                                    Some((t, e2)) => Some((Some(t), exp, e2)),
                                    None => None,
                                }
                            } else {
                                None
                            }
                        } else if k == expires_key() && exp is None {
                            match u64_value(s, j3) {
                                Some((x, e2)) => Some((val, Some(x), e2)),
                                None => None,
                            }
                        } else {
                            match value_end(s, j3) {
                                Some(e2) => Some((val, exp, e2)),
                                None => None,
                            }
                        };
                        match step {
                            Some((val2, exp2, e2)) => {
                                let j4 = ws_end(s, e2);
                                if j4 < s.len() && s[j4] == ',' {
                                    if i < j4 + 1 {
                                        secret_fields(s, j4 + 1, false, val2, exp2)
                                    } else {
                                        None
                                    }
                                } else if j4 < s.len() && s[j4] == '}' {
                                    match (val2, exp2) {
                                        (Some(t), Some(x)) => Some((t, x, j4 + 1)),
                                        _ => None,
                                    }
                                } else {
                                    None
                                }
                            },
                            None => None,
                        }
                    } else {
                        None
                    }
                } else {
                    None
                }
            },
            None => None,
        }
    }
}

/// Reads the members of the top-level object, looking for `client_secret`.
/// `i` points just after `{` (when `first`) or just after a comma. On
/// success, returns the credential fields and the index just after `}`.
pub open spec fn top_fields(
    s: Seq<char>,
    i: int,
    first: bool,
    cs: Option<(Seq<char>, u64)>,
) -> Option<(Seq<char>, u64, int)>
    decreases s.len() - i,
{
    let j = ws_end(s, i);
    if !(i <= j < s.len()) {
        None
    } else if first && s[j] == '}' {
        None
    } else if s[j] != '"' {
        None
    } else {
        match string_rest(s, j + 1) {
            Some((k, e1)) => {
                let j2 = ws_end(s, e1);
                if j2 < s.len() && s[j2] == ':' {
                    let j3 = ws_end(s, j2 + 1);
                    if i <= j3 <= s.len() {
                        let step: Option<(Option<(Seq<char>, u64)>, int)> = if k
                            == client_secret_key() && cs is None {
                            if j3 < s.len() && s[j3] == '{' {
                                match secret_fields(s, j3 + 1, true, None, None) {
                                    Some((t, x, e2)) => Some((Some((t, x)), e2)),
                                    None => None,
                                }
                            } else {
                                None
                            }
                        } else {
                            match value_end(s, j3) {
                                Some(e2) => Some((cs, e2)),
                                None => None,
                            }
                        };
                        match step {
                            Some((cs2, e2)) => {
                                let j4 = ws_end(s, e2);
                                if j4 < s.len() && s[j4] == ',' {
                                    if i < j4 + 1 {
                                        top_fields(s, j4 + 1, false, cs2)
                                    } else {
                                        None
                                    }
                                } else if j4 < s.len() && s[j4] == '}' {
                                    match cs2 {
                                        Some((t, x)) => Some((t, x, j4 + 1)),
                                        _ => None,
                                    }
                                } else {
                                    None
                                }
                            },
                            None => None,
                        }
                    } else {
                        None
                    }
                } else {
                    None
                }
            },
            None => None,
        }
    }
}

/// The credential denoted by a successful upstream body, if the whole body is
/// one JSON object of the expected shape (with whitespace allowed around it).
pub open spec fn parse_response_spec(s: Seq<char>) -> Option<(Seq<char>, u64)> {
    let j = ws_end(s, 0);
    if 0 <= j < s.len() && s[j] == '{' {
        match top_fields(s, j + 1, true, None) {
            Some((t, x, e)) => {
                let j2 = ws_end(s, e);
                if j2 == s.len() {
                    Some((t, x))
                } else {
                    None
                }
            },
            None => None,
        }
    } else {
        None
    }
}

/// The spec image of an optional decoded key run.
pub open spec fn opt_chars(v: Option<Vec<char>>) -> Option<Seq<char>> {
    match v {
        Some(x) => Some(x@),
        None => None,
    }
}

/// Compares decoded string contents against an expected key.
fn key_matches(k: &Vec<char>, key: &str) -> (b: bool)
    ensures
        b == (k@ == key@),
{
    let n = key.unicode_len();
    if k.len() != n {
        proof {
            assert(k@.len() != key@.len());
        }
        return false;
    }
    let mut i: usize = 0;
    while i < n
        invariant
            i <= n,
            n == key@.len(),
            k@.len() == n,
            forall|j: int| 0 <= j < i ==> k@[j] == key@[j],
        decreases n - i,
    {
        let a = k[i];
        let c = key.get_char(i);
        if a != c {
            proof {
                assert(k@[i as int] != key@[i as int]);
            }
            return false;
        }
        i += 1;
    }
    proof {
        assert(k@ =~= key@);
    }
    true
}

/// Executable twin of [`secret_fields`].
fn secret_fields_x(
    s: &str,
    n: usize,
    i: usize,
    first: bool,
    val: Option<Vec<char>>,
    exp: Option<u64>,
) -> (r: Option<(Vec<char>, u64, usize)>)
    requires
        n == s@.len(),
        i <= n,
    ensures
        (match (r, secret_fields(s@, i as int, first, opt_chars(val), exp)) {
            (Some((t, x, e)), Some(p)) => t@ == p.0 && x == p.1 && e as int == p.2 && e <= n,
            (None, None) => true,
            _ => false,
        }),
    decreases n - i,
{
    let j = ws_end_x(s, n, i);
    if !(j < n) {
        return None;
    }
    let cj = s.get_char(j);
    if first && cj == '}' {
        return None;
    }
    if cj != '"' {
        return None;
    }
    match string_rest_x(s, n, j + 1) {
        Some((k, e1)) => {
            let j2 = ws_end_x(s, n, e1);
            if j2 < n && s.get_char(j2) == ':' {
                let j3 = ws_end_x(s, n, j2 + 1);
                proof {
                    reveal_strlit("value");
                    reveal_strlit("expires_at");
                    assert("value"@ =~= value_key());
                    assert("expires_at"@ =~= expires_key());
                }
                if !(i <= j3) {
                    return None;
                }
                let step: Option<(Option<Vec<char>>, Option<u64>, usize)> = if key_matches(
                    &k,
                    "value",
                ) && val.is_none() {
                    if j3 < n && s.get_char(j3) == '"' {
                        match string_rest_x(s, n, j3 + 1) {
                            Some((t, e2)) => Some((Some(t), exp, e2)),
                            None => None,
                        }
                    } else {
                        None
                    }
                } else if key_matches(&k, "expires_at") && exp.is_none() {
                    match u64_value_x(s, n, j3) {
                        Some((x, e2)) => Some((val, Some(x), e2)),
                        None => None,
                    }
                } else {
                    match value_end_x(s, n, j3) {
                        Some(e2) => Some((val, exp, e2)),
                        None => None,
                    }
                };
                match step {
                    Some((val2, exp2, e2)) => {
                        let j4 = ws_end_x(s, n, e2);
                        if j4 < n && s.get_char(j4) == ',' {
                            if i < j4 + 1 {
                                secret_fields_x(s, n, j4 + 1, false, val2, exp2)
                            } else {
                                None
                            }
                        } else if j4 < n && s.get_char(j4) == '}' {
                            match (val2, exp2) {
                                (Some(t), Some(x)) => Some((t, x, j4 + 1)),
                                _ => None,
                            }
                        } else {
                            None
                        }
                    },
                    None => None,
                }
            } else {
                None
            }
        },
        None => None,
    }
}

/// The spec image of an optional credential pair.
pub open spec fn opt_pair(v: Option<(Vec<char>, u64)>) -> Option<(Seq<char>, u64)> {
    match v {
        Some((t, x)) => Some((t@, x)),
        None => None,
    }
}

/// Executable twin of [`top_fields`].
fn top_fields_x(s: &str, n: usize, i: usize, first: bool, cs: Option<(Vec<char>, u64)>) -> (r:
    Option<(Vec<char>, u64, usize)>)
    requires
        n == s@.len(),
        i <= n,
    ensures
        (match (r, top_fields(s@, i as int, first, opt_pair(cs))) {
            (Some((t, x, e)), Some(p)) => t@ == p.0 && x == p.1 && e as int == p.2 && e <= n,
            (None, None) => true,
            _ => false,
        }),
    decreases n - i,
{
    let j = ws_end_x(s, n, i);
    if !(j < n) {
        return None;
    }
    let cj = s.get_char(j);
    if first && cj == '}' {
        return None;
    }
    if cj != '"' {
        return None;
    }
    match string_rest_x(s, n, j + 1) {
        Some((k, e1)) => {
            let j2 = ws_end_x(s, n, e1);
            if j2 < n && s.get_char(j2) == ':' {
                let j3 = ws_end_x(s, n, j2 + 1);
                proof {
                    reveal_strlit("client_secret");
                    assert("client_secret"@ =~= client_secret_key());
                }
                if !(i <= j3) {
                    return None;
                }
                let step: Option<(Option<(Vec<char>, u64)>, usize)> = if key_matches(
                    &k,
                    "client_secret",
                ) && cs.is_none() {
                    if j3 < n && s.get_char(j3) == '{' {
                        match secret_fields_x(s, n, j3 + 1, true, None, None) {
                            Some((t, x, e2)) => Some((Some((t, x)), e2)),
                            None => None,
                        }
                    } else {
                        None
                    }
                } else {
                    match value_end_x(s, n, j3) {
                        Some(e2) => Some((cs, e2)),
                        None => None,
                    }
                };
                match step {
                    Some((cs2, e2)) => {
                        let j4 = ws_end_x(s, n, e2);
                        if j4 < n && s.get_char(j4) == ',' {
                            if i < j4 + 1 {
                                top_fields_x(s, n, j4 + 1, false, cs2)
                            } else {
                                None
                            }
                        } else if j4 < n && s.get_char(j4) == '}' {
                            match cs2 {
                                Some((t, x)) => Some((t, x, j4 + 1)),
                                _ => None,
                            }
                        } else {
                            None
                        }
                    },
                    None => None,
                }
            } else {
                None
            }
        },
        None => None,
    }
}

/// Reads a successful upstream body into the structured response, accepting
/// exactly the bodies that [`parse_response_spec`] accepts.
pub fn parse_token_response(body: &str) -> (r: Option<EphemeralTokenResponse>)
    ensures
        r is Some <==> parse_response_spec(body@) is Some,
        r matches Some(resp) ==> parse_response_spec(body@) matches Some(p)
            && resp.client_secret.value@ == p.0 && resp.client_secret.expires_at == p.1,
{
    let n = body.unicode_len();
    let j = ws_end_x(body, n, 0);
    if j < n && body.get_char(j) == '{' {
        match top_fields_x(body, n, j + 1, true, None) {
            Some((t, x, e)) => {
                let j2 = ws_end_x(body, n, e);
                if j2 == n {
                    let value = chars_to_string(&t);
                    Some(EphemeralTokenResponse { client_secret: ClientSecret { value, expires_at: x } })
                } else {
                    None
                }
            },
            None => None,
        }
    } else {
        None
    }
}

impl EphemeralCredential {
    /// The credential carried by a structured response.
    pub fn from_response(resp: EphemeralTokenResponse) -> (c: EphemeralCredential)
        ensures
            c.token@ == resp.client_secret.value@,
            c.expiry == resp.client_secret.expires_at,
    {
        EphemeralCredential { token: resp.client_secret.value, expiry: resp.client_secret.expires_at }
    }
}

} // verus!
