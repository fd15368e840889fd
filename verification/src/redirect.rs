//! Processing of the OAuth2 redirect captured by the loopback listener:
//! a verified parser for the request's query string and the decision
//! taken on its parameters (provider error, CSRF check, code capture).
//!
//! The listener itself (socket accept, HTTP response bytes) lives outside
//! the library; it hands the raw request target in and performs the
//! decision handed back.
//!
//! Percent escapes are decoded bytewise: `%XY` becomes the character with
//! code `0xXY`. The values this endpoint receives (authorization code,
//! CSRF state, provider error codes) are URL-safe ASCII, for which this
//! coincides with their on-the-wire encoding.

use vstd::prelude::*;
use vstd::string::*;
use crate::models::{FinishedAuthorization, PendingAuthorization};
use crate::strutil::str_eq;

verus! {

/// Why capturing the authorization redirect failed.
#[derive(Clone, Debug, PartialEq, Eq)]
pub enum ProcessAuthorizationError {
    /// The loopback listener could not be started; carries the cause's text.
    StartServer(String),
    /// Reading a request failed; carries the cause's text.
    IoError(String),
    /// The provider reported an error in the redirect parameters.
    ServersideError(String),
    /// The redirect's `state` differs from the CSRF token we issued.
    CsrfMismatch,
    /// The redirect carries no `code` parameter.
    MissingCode,
    /// The cancellation signal was observed while waiting.
    CancelledByUser,
}

// ---------------------------------------------------------------------
// Character-level helpers
// ---------------------------------------------------------------------

pub open spec fn is_hex_digit(c: char) -> bool {
    let u = c as u32;
    (48 <= u && u <= 57) || (97 <= u && u <= 102) || (65 <= u && u <= 70)
}

/// Numeric value of a hex digit.
pub open spec fn hex_value(c: char) -> int {
    let u = c as u32;
    if 97 <= u {
        u - 87
    } else if 65 <= u {
        u - 55
    } else {
        u - 48
    }
}

/// The character a `%XY` escape decodes to.
pub open spec fn decoded_escape(c1: char, c2: char) -> char {
    (((hex_value(c1) * 16 + hex_value(c2)) as u8) as char)
}

fn is_hex(c: char) -> (r: bool)
    ensures
        r == is_hex_digit(c),
{
    let u = c as u32;
    (48 <= u && u <= 57) || (97 <= u && u <= 102) || (65 <= u && u <= 70)
}

fn hex_val(c: char) -> (v: u8)
    requires
        is_hex_digit(c),
    ensures
        v as int == hex_value(c),
        v <= 15,
{
    let u = c as u32;
    if 97 <= u {
        (u - 87) as u8
    } else if 65 <= u {
        (u - 55) as u8
    } else {
        (u - 48) as u8
    }
}

// ---------------------------------------------------------------------
// Decoding one query component
// ---------------------------------------------------------------------

/// `application/x-www-form-urlencoded` decoding of one component:
/// `+` becomes a space, `%XY` the character with code `0xXY`, and a `%`
/// not followed by two hex digits stays literal.
pub open spec fn decode_component(s: Seq<char>) -> Seq<char>
    decreases s.len(),
{
    if s.len() == 0 {
        Seq::empty()
    } else if s[0] == '+' {
        seq![' '] + decode_component(s.skip(1))
    } else if s[0] == '%' && s.len() >= 3 && is_hex_digit(s[1]) && is_hex_digit(s[2]) {
        seq![decoded_escape(s[1], s[2])] + decode_component(s.skip(3))
    } else {
        seq![s[0]] + decode_component(s.skip(1))
    }
}

fn decode_component_exec(s: &str) -> (r: String)
    ensures
        r@ == decode_component(s@),
{
    let l = s.unicode_len();
    let mut out = String::new();
    let mut i: usize = 0;
    proof {
        assert(s@.skip(0) =~= s@);
    }
    while i < l
        invariant
            i <= l,
            l == s@.len(),
            out@ + decode_component(s@.skip(i as int)) == decode_component(s@),
        decreases l - i,
    {
        let ghost rem = s@.skip(i as int);
        let c = s.get_char(i);
        proof {
            assert(rem[0] == s@[i as int]);
        }
        if c == '+' {
            out.push(' ');
            proof {
                assert(rem.skip(1) =~= s@.skip(i as int + 1));
                assert(out@ + decode_component(s@.skip(i as int + 1)) =~= decode_component(s@));
            }
            i = i + 1;
        } else if c == '%' && l - i >= 3 && is_hex(s.get_char(i + 1)) && is_hex(s.get_char(i + 2)) {
            let c1 = s.get_char(i + 1);
            let c2 = s.get_char(i + 2);
            proof {
                assert(rem[1] == s@[i as int + 1]);
                assert(rem[2] == s@[i as int + 2]);
            }
            let v1 = hex_val(c1);
            let v2 = hex_val(c2);
            out.push((v1 * 16 + v2) as char);
            proof {
                assert((v1 * 16 + v2) as char == decoded_escape(c1, c2));
                assert(rem.skip(3) =~= s@.skip(i as int + 3));
                assert(out@ + decode_component(s@.skip(i as int + 3)) =~= decode_component(s@));
            }
            i = i + 3;
        } else {
            out.push(c);
            proof {
                assert(rem.skip(1) =~= s@.skip(i as int + 1));
                assert(out@ + decode_component(s@.skip(i as int + 1)) =~= decode_component(s@));
            }
            i = i + 1;
        }
    }
    proof {
        assert(s@.skip(l as int) =~= Seq::<char>::empty());
        assert(out@ =~= decode_component(s@));
    }
    out
}

// ---------------------------------------------------------------------
// Splitting the query string
// ---------------------------------------------------------------------

/// Index of the first occurrence of `c` in `s`, or `s.len()` if absent.
pub open spec fn first_at(s: Seq<char>, c: char) -> int
    decreases s.len(),
{
    if s.len() == 0 {
        0
    } else if s[0] == c {
        0
    } else {
        1 + first_at(s.skip(1), c)
    }
}

/// A position before which `c` does not occur, and at which it does (or
/// which is the end), is the first occurrence.
pub proof fn lemma_first_at_is(s: Seq<char>, c: char, i: int)
    requires
        0 <= i <= s.len(),
        forall|j: int| 0 <= j < i ==> s[j] != c,
        i < s.len() ==> s[i] == c,
    ensures
        first_at(s, c) == i,
    decreases s.len(),
{
    if s.len() != 0 && s[0] != c {
        assert forall|j: int| 0 <= j < i - 1 implies s.skip(1)[j] != c by {
            assert(s.skip(1)[j] == s[j + 1]);
        }
        if i - 1 < s.skip(1).len() {
            assert(s.skip(1)[i - 1] == s[i]);
        }
        lemma_first_at_is(s.skip(1), c, i - 1);
    }
}

/// The part of `s` before the first `c` (all of `s` if `c` is absent).
pub open spec fn take_until(s: Seq<char>, c: char) -> Seq<char> {
    s.take(first_at(s, c))
}

/// The part of `s` after the first `c` (empty if `c` is absent).
pub open spec fn skip_past(s: Seq<char>, c: char) -> Seq<char> {
    if 0 <= first_at(s, c) && first_at(s, c) < s.len() {
        s.skip(first_at(s, c) + 1)
    } else {
        Seq::empty()
    }
}

/// A decoded `key=value` pair: the component is split at its first `=`
/// (the value is empty if there is none) and both halves are decoded.
pub open spec fn split_decoded(comp: Seq<char>) -> (Seq<char>, Seq<char>) {
    (decode_component(take_until(comp, '=')), decode_component(skip_past(comp, '=')))
}

/// All `key=value` pairs of a query string, in order; empty components
/// (as between `&&`) are dropped.
pub open spec fn parse_query_spec(q: Seq<char>) -> Seq<(Seq<char>, Seq<char>)>
    decreases q.len(),
{
    if q.len() == 0 {
        Seq::empty()
    } else {
        let comp = take_until(q, '&');
        let rest = skip_past(q, '&');
        (if comp.len() == 0 {
            Seq::<(Seq<char>, Seq<char>)>::empty()
        } else {
            seq![split_decoded(comp)]
        }) + parse_query_spec(rest)
    }
}

/// The views of a vector of string pairs.
pub open spec fn pair_views(r: Seq<(String, String)>) -> Seq<(Seq<char>, Seq<char>)> {
    Seq::new(r.len(), |i: int| (r[i].0@, r[i].1@))
}

/// First index `>= from` holding `c`, or the length if there is none.
fn find_char_from(s: &str, from: usize, c: char) -> (k: usize)
    requires
        from <= s@.len(),
    ensures
        from <= k <= s@.len(),
        k < s@.len() ==> s@[k as int] == c,
        forall|j: int| from <= j < k ==> s@[j] != c,
{
    let l = s.unicode_len();
    let mut k = from;
    while k < l
        invariant
            from <= k <= l,
            l == s@.len(),
            forall|j: int| from <= j < k ==> s@[j] != c,
        decreases l - k,
    {
        if s.get_char(k) == c {
            return k;
        }
        k = k + 1;
    }
    k
}

/// Parse a query string into its decoded `key=value` pairs.
pub fn parse_query(q: &str) -> (r: Vec<(String, String)>)
    ensures
        pair_views(r@) == parse_query_spec(q@),
{
    let l = q.unicode_len();
    let mut out: Vec<(String, String)> = Vec::new();
    let mut i: usize = 0;
    proof {
        assert(q@.skip(0) =~= q@);
        assert(pair_views(out@) =~= Seq::<(Seq<char>, Seq<char>)>::empty());
    }
    while i < l
        invariant
            i <= l,
            l == q@.len(),
            pair_views(out@) + parse_query_spec(q@.skip(i as int)) == parse_query_spec(q@),
        decreases l - i,
    {
        let ghost rem = q@.skip(i as int);
        let k = find_char_from(q, i, '&');
        proof {
            assert forall|j: int| 0 <= j < k - i implies rem[j] != '&' by {
                assert(rem[j] == q@[i + j]);
            }
            if k - i < rem.len() {
                assert(rem[k - i] == q@[k as int]);
            }
            lemma_first_at_is(rem, '&', k - i);
            assert(take_until(rem, '&') =~= q@.subrange(i as int, k as int));
        }
        if k > i {
            let comp = q.substring_char(i, k);
            let ghost cv = comp@;
            let cl = comp.unicode_len();
            let j = find_char_from(comp, 0, '=');
            proof {
                lemma_first_at_is(cv, '=', j as int);
                assert(take_until(cv, '=') =~= cv.subrange(0, j as int));
            }
            let key_enc = comp.substring_char(0, j);
            let val_enc = if j < cl {
                proof {
                    assert(skip_past(cv, '=') =~= cv.subrange(j as int + 1, cl as int));
                }
                comp.substring_char(j + 1, cl)
            } else {
                proof {
                    assert(skip_past(cv, '=') =~= cv.subrange(cl as int, cl as int));
                }
                comp.substring_char(cl, cl)
            };
            let key = decode_component_exec(key_enc);
            let val = decode_component_exec(val_enc);
            out.push((key, val));
            proof {
                assert(split_decoded(cv) == (key@, val@));
                assert(pair_views(out@) =~= pair_views(out@.drop_last()) + seq![(key@, val@)]);
            }
        }
        let next = if k < l {
            k + 1
        } else {
            l
        };
        proof {
            if k < l {
                assert(skip_past(rem, '&') =~= q@.skip(k as int + 1));
            } else {
                assert(skip_past(rem, '&') =~= q@.skip(l as int));
                assert(q@.skip(l as int) =~= Seq::<char>::empty());
            }
            assert(parse_query_spec(rem) == (if take_until(rem, '&').len() == 0 {
                Seq::<(Seq<char>, Seq<char>)>::empty()
            } else {
                seq![split_decoded(take_until(rem, '&'))]
            }) + parse_query_spec(skip_past(rem, '&')));
            assert(pair_views(out@) + parse_query_spec(q@.skip(next as int)) =~= parse_query_spec(
                q@,
            ));
        }
        i = next;
    }
    proof {
        assert(q@.skip(l as int) =~= Seq::<char>::empty());
        assert(pair_views(out@) =~= parse_query_spec(q@));
    }
    out
}

/// The query part of a request target: everything after the first `?`
/// (empty if there is none).
pub open spec fn query_of(target: Seq<char>) -> Seq<char> {
    skip_past(target, '?')
}

/// Extract the query part of a request target.
pub fn query_part<'a>(target: &'a str) -> (r: &'a str)
    ensures
        r@ == query_of(target@),
{
    let l = target.unicode_len();
    let k = find_char_from(target, 0, '?');
    proof {
        lemma_first_at_is(target@, '?', k as int);
    }
    if k < l {
        let r = target.substring_char(k + 1, l);
        proof {
            assert(skip_past(target@, '?') =~= target@.subrange(k as int + 1, l as int));
        }
        r
    } else {
        let r = target.substring_char(l, l);
        proof {
            assert(skip_past(target@, '?') =~= Seq::<char>::empty());
            assert(target@.subrange(l as int, l as int) =~= Seq::<char>::empty());
        }
        r
    }
}

// ---------------------------------------------------------------------
// The decision taken on the redirect's parameters
// ---------------------------------------------------------------------

/// The value of the last `key=...` pair, if any; a later duplicate
/// overrides an earlier one, as the scanning loop assigns in order.
pub open spec fn last_param(pairs: Seq<(Seq<char>, Seq<char>)>, key: Seq<char>) -> Option<
    Seq<char>,
>
    decreases pairs.len(),
{
    if pairs.len() == 0 {
        None
    } else if pairs.last().0 == key {
        Some(pairs.last().1)
    } else {
        last_param(pairs.drop_last(), key)
    }
}

/// Find the last value of `key` among the decoded pairs.
pub fn last_param_exec(pairs: &Vec<(String, String)>, key: &str) -> (r: Option<String>)
    ensures
        match r {
            Some(v) => last_param(pair_views(pairs@), key@) == Some(v@),
            None => last_param(pair_views(pairs@), key@) is None,
        },
{
    let mut r: Option<String> = None;
    let mut i: usize = 0;
    proof {
        assert(pair_views(pairs@.take(0)) =~= Seq::<(Seq<char>, Seq<char>)>::empty());
    }
    while i < pairs.len()
        invariant
            i <= pairs.len(),
            match r {
                Some(v) => last_param(pair_views(pairs@.take(i as int)), key@) == Some(v@),
                None => last_param(pair_views(pairs@.take(i as int)), key@) is None,
            },
        decreases pairs.len() - i,
    {
        let ghost prefix = pair_views(pairs@.take(i as int));
        let ghost next = pair_views(pairs@.take(i as int + 1));
        proof {
            assert(next =~= prefix.push((pairs@[i as int].0@, pairs@[i as int].1@)));
            assert(next.drop_last() =~= prefix);
        }
        if str_eq(pairs[i].0.as_str(), key) {
            r = Some(pairs[i].1.clone());
        }
        i = i + 1;
    }
    proof {
        assert(pairs@.take(pairs@.len() as int) =~= pairs@);
    }
    r
}

/// What the listener decides for a set of redirect parameters.
pub enum RedirectDecision {
    /// The provider reported an error; carries the message to surface.
    Error(Seq<char>),
    /// The `state` parameter differs from the CSRF token we issued.
    StateMismatch,
    /// No provider error, state acceptable, but no `code` either.
    NoCode,
    /// The authorization code to hand to the MSA exchange.
    Accept(Seq<char>),
}

/// The message surfaced for a provider-reported error.
pub open spec fn serverside_error_message(error: Seq<char>, desc: Option<Seq<char>>) -> Seq<
    char,
> {
    let base = "An error occurred: "@ + error;
    match desc {
        Some(d) => base.push('\n') + d,
        None => base,
    }
}

/// The decision for a set of decoded parameters and the expected CSRF
/// token: a provider error wins over everything, then the CSRF check
/// (only if a `state` was sent at all), then the presence of `code`.
pub open spec fn redirect_decision(pv: Seq<(Seq<char>, Seq<char>)>, csrf: Seq<char>) -> RedirectDecision {
    match last_param(pv, "error"@) {
        Some(e) => RedirectDecision::Error(
            serverside_error_message(e, last_param(pv, "error_description"@)),
        ),
        None => match last_param(pv, "state"@) {
            Some(s) => if s != csrf {
                RedirectDecision::StateMismatch
            } else {
                match last_param(pv, "code"@) {
                    Some(c) => RedirectDecision::Accept(c),
                    None => RedirectDecision::NoCode,
                }
            },
            None => match last_param(pv, "code"@) {
                Some(c) => RedirectDecision::Accept(c),
                None => RedirectDecision::NoCode,
            },
        },
    }
}

/// Apply the redirect decision to the decoded parameters: consume the
/// pending authorization and either finish it with the captured code or
/// report exactly why it failed.
pub fn process_redirect_query(pairs: &Vec<(String, String)>, pending: PendingAuthorization) -> (r:
    Result<FinishedAuthorization, ProcessAuthorizationError>)
    ensures
        ({
            let d = redirect_decision(pair_views(pairs@), pending.csrf_token@);
            match d {
                RedirectDecision::Error(m) => r matches Err(
                    ProcessAuthorizationError::ServersideError(s),
                ) && s@ == m,
                RedirectDecision::StateMismatch => r == Err::<
                    FinishedAuthorization,
                    _,
                >(ProcessAuthorizationError::CsrfMismatch),
                RedirectDecision::NoCode => r == Err::<
                    FinishedAuthorization,
                    _,
                >(ProcessAuthorizationError::MissingCode),
                RedirectDecision::Accept(c) => r matches Ok(f) && f.code@ == c && f.pending
                    == pending,
            }
        }),
{
    if let Some(error) = last_param_exec(pairs, "error") {
        let mut message = String::from_str("An error occurred: ");
        message.append(error.as_str());
        if let Some(desc) = last_param_exec(pairs, "error_description") {
            message.push('\n');
            message.append(desc.as_str());
        }
        return Err(ProcessAuthorizationError::ServersideError(message));
    }
    if let Some(state) = last_param_exec(pairs, "state") {
        if !str_eq(state.as_str(), pending.csrf_token.as_str()) {
            return Err(ProcessAuthorizationError::CsrfMismatch);
        }
    }
    let Some(code) = last_param_exec(pairs, "code") else {
        return Err(ProcessAuthorizationError::MissingCode);
    };
    Ok(FinishedAuthorization { pending, code })
}

/// A substring occurs somewhere in a sequence.
pub open spec fn seq_contains(hay: Seq<char>, needle: Seq<char>) -> bool {
    exists|i: int|
        0 <= i && i + needle.len() <= hay.len() && #[trigger] hay.subrange(i, i + needle.len())
            == needle
}

/// A redirect whose `state` differs from the CSRF token we issued is
/// never accepted: no authorization code is handed on.
pub proof fn lemma_state_mismatch_never_accepted(
    pv: Seq<(Seq<char>, Seq<char>)>,
    csrf: Seq<char>,
    s: Seq<char>,
)
    requires
        last_param(pv, "state"@) == Some(s),
        s != csrf,
    ensures
        !(redirect_decision(pv, csrf) is Accept),
{
}

/// A redirect carrying an `error` parameter is always answered with a
/// provider-error decision whose message contains the error code,
/// whatever the other parameters hold.
pub proof fn lemma_provider_error_reported(
    pv: Seq<(Seq<char>, Seq<char>)>,
    csrf: Seq<char>,
    e: Seq<char>,
)
    requires
        last_param(pv, "error"@) == Some(e),
    ensures
        redirect_decision(pv, csrf) matches RedirectDecision::Error(m) && seq_contains(m, e),
{
    let m = serverside_error_message(e, last_param(pv, "error_description"@));
    let pre = "An error occurred: "@;
    assert(m.subrange(pre.len() as int, pre.len() as int + e.len() as int) =~= e);
}

} // verus!
