//! The authentication-claims extractor: derives a trust-bearing identity
//! summary from the raw event's authorizer claims block.

use vstd::prelude::*;

use crate::errors::ServerFailure;
use crate::errors::unauthorized_debug_message;
use crate::errors::critical_failure;
use crate::errors::unauthorized_failure_with_debug;
use crate::event::ClaimValue;
use crate::event::RequestEvent;
use crate::util::lookup;
use crate::util::spec_lookup;

verus! {

/// The value under `key` in the event's claims block, or `None` when the
/// block is absent or carries no such field.
pub open spec fn spec_claims_lookup(e: RequestEvent, key: Seq<char>) -> Option<ClaimValue> {
    match e.claims {
        Some(entries) => spec_lookup(entries@, key),
        None => None,
    }
}

/// A request is authenticated exactly when its claims block carries a
/// username field holding a non-empty string. A username field that is
/// empty, or of any other JSON type, does not authenticate.
pub open spec fn spec_is_authenticated(e: RequestEvent) -> bool {
    match spec_claims_lookup(e, "cognito:username"@) {
        Some(ClaimValue::Text(username)) => username@.len() > 0,
        _ => false,
    }
}

/// `token` occurs in `s` at position `i` as one whole comma-separated
/// token: the characters match and each side is either the edge of `s` or
/// a comma.
pub open spec fn is_token_at(s: Seq<char>, token: Seq<char>, i: int) -> bool {
    &&& 0 <= i
    &&& i + token.len() <= s.len()
    &&& s.subrange(i, i + token.len()) == token
    &&& (i == 0 || s[i - 1] == ',')
    &&& (i + token.len() == s.len() || s[i + token.len()] == ',')
}

/// `token` is one of the comma-separated tokens of `s`.
pub open spec fn has_token(s: Seq<char>, token: Seq<char>) -> bool {
    exists|i: int| is_token_at(s, token, i)
}

/// The position of the first comma of `s`, or its length when it has
/// none.
pub open spec fn first_comma(s: Seq<char>) -> nat
    decreases s.len(),
{
    if s.len() == 0 {
        0
    } else if s[0] == ',' {
        0
    } else {
        1 + first_comma(s.drop_first())
    }
}

proof fn lemma_first_comma(s: Seq<char>)
    ensures
        first_comma(s) <= s.len(),
        forall|j: int| 0 <= j < first_comma(s) ==> s[j] != ',',
        first_comma(s) < s.len() ==> s[first_comma(s) as int] == ',',
    decreases s.len(),
{
    if s.len() > 0 && s[0] != ',' {
        lemma_first_comma(s.drop_first());
        assert forall|j: int| 0 <= j < first_comma(s) implies s[j] != ',' by {
            if j >= 1 {
                assert(s.drop_first()[j - 1] == s[j]);
            }
        }
        if first_comma(s) < s.len() {
            assert(s.drop_first()[first_comma(s) - 1] == s[first_comma(s) as int]);
        }
    }
}

/// The comma-separated segments of `s`, empty segments kept: an empty
/// string has one empty segment.
pub open spec fn split_commas(s: Seq<char>) -> Seq<Seq<char>>
    decreases s.len(),
{
    let i = first_comma(s);
    if i < s.len() {
        seq![s.take(i as int)] + split_commas(s.skip(i + 1 as int))
    } else {
        seq![s]
    }
}

/// A request carries the admin group exactly when its claims block has a
/// groups field whose value is a string listing `admin` as one
/// comma-separated token. A group list delivered as any other JSON type
/// never grants the group.
pub open spec fn spec_is_admin(e: RequestEvent) -> bool {
    match spec_claims_lookup(e, "cognito:groups"@) {
        Some(ClaimValue::Text(groups)) => has_token(groups@, "admin"@),
        _ => false,
    }
}

/// Whether `token` stands at position `i` of `s` as a whole
/// comma-separated token.
fn token_at(s: &str, token: &str, i: usize) -> (r: bool)
    requires
        i < s@.len(),
        1 <= token@.len(),
    ensures
        r == is_token_at(s@, token@, i as int),
{
    let n = s.unicode_len();
    let tl = token.unicode_len();
    if tl > n - i {
        return false;
    }
    if i > 0 && s.get_char(i - 1) != ',' {
        return false;
    }
    if i + tl < n && s.get_char(i + tl) != ',' {
        return false;
    }
    let mut k: usize = 0;
    while k < tl
        invariant
            k <= tl,
            i + tl <= n,
            n == s@.len(),
            tl == token@.len(),
            i == 0 || s@[i - 1] == ',',
            i + tl == n || s@[i + tl as int] == ',',
            forall|m: int| 0 <= m < k ==> s@[i + m] == token@[m],
        decreases tl - k,
    {
        if s.get_char(i + k) != token.get_char(k) {
            proof {
                assert(s@.subrange(i as int, i + tl as int)[k as int] == s@[i + k]);
            }
            return false;
        }
        k = k + 1;
    }
    proof {
        assert(s@.subrange(i as int, i + tl as int) =~= token@);
    }
    true
}

/// Whether `token` is one of the comma-separated tokens of `s`.
fn has_comma_token(s: &str, token: &str) -> (r: bool)
    requires
        1 <= token@.len(),
    ensures
        r == has_token(s@, token@),
{
    let n = s.unicode_len();
    let mut i: usize = 0;
    while i < n
        invariant
            i <= n,
            n == s@.len(),
            1 <= token@.len(),
            forall|j: int| 0 <= j < i ==> !is_token_at(s@, token@, j),
        decreases n - i,
    {
        if token_at(s, token, i) {
            return true;
        }
        i = i + 1;
    }
    proof {
        assert forall|j: int| !is_token_at(s@, token@, j) by {
            if 0 <= j < n {
                assert(!is_token_at(s@, token@, j));
            }
        }
    }
    false
}

/// Whether the event's authorizer context marks the request as
/// authenticated: its claims block exists and carries a username field
/// holding a non-empty string.
pub fn is_authenticated(event: &RequestEvent) -> (r: bool)
    ensures
        r == spec_is_authenticated(*event),
{
    match &event.claims {
        Some(entries) => match lookup(entries, "cognito:username") {
            Some(ClaimValue::Text(username)) => !username.as_str().is_empty(),
            Some(ClaimValue::Other) => false,
            None => false,
        },
        None => false,
    }
}

/// Whether the event's claims name the group `admin` in the groups field,
/// interpreted as a comma-separated list of group names.
pub fn is_admin(event: &RequestEvent) -> (r: bool)
    ensures
        r == spec_is_admin(*event),
{
    proof {
        reveal_strlit("admin");
    }
    match &event.claims {
        Some(entries) => match lookup(entries, "cognito:groups") {
            Some(ClaimValue::Text(groups)) => has_comma_token(groups.as_str(), "admin"),
            Some(ClaimValue::Other) => false,
            None => false,
        },
        None => false,
    }
}

/// The subject identifier of an authenticated request. A missing claims
/// block is the normal unauthenticated case and yields an unauthorized
/// failure; a claims block whose subject field is absent or not a string
/// is an internal inconsistency and yields an internal failure, because an
/// authorizer is expected to always populate a subject.
pub fn get_sub_of_authenticated_user(event: &RequestEvent) -> (r: Result<String, ServerFailure>)
    ensures
        match r {
            Ok(sub) => spec_claims_lookup(*event, "sub"@) == Some(ClaimValue::Text(sub)),
            Err(f) => match event.claims {
                None => f.behaviour is ReturnUnauthorized && f.message@
                    == unauthorized_debug_message("authorizer did not contain any claims"@),
                Some(entries) => match spec_lookup(entries@, "sub"@) {
                    Some(v) => v is Other && f.behaviour is ReturnInternalServerError
                        && f.message@ == "authorizer claims sub was not a string"@,
                    None => f.behaviour is ReturnInternalServerError && f.message@
                        == "authorizer claims did not contain sub"@,
                },
            },
        },
{
    match &event.claims {
        Some(entries) => match lookup(entries, "sub") {
            Some(ClaimValue::Text(sub)) => Ok(sub.clone()),
            Some(ClaimValue::Other) => Err(critical_failure("authorizer claims sub was not a string")),
            None => Err(critical_failure("authorizer claims did not contain sub")),
        },
        None => Err(unauthorized_failure_with_debug("authorizer did not contain any claims")),
    }
}

/// Law: an event without an authorizer claims block is fully anonymous —
/// it is neither authenticated nor in the admin group.
pub proof fn lemma_no_claims_is_anonymous(event: RequestEvent)
    requires
        event.claims is None,
    ensures
        !spec_is_authenticated(event),
        !spec_is_admin(event),
{
}

/// Law: any event whose claims block carries a username field holding a
/// non-empty string counts as authenticated. (An empty or non-string
/// username field is left out: it does not authenticate.)
pub proof fn lemma_username_authenticates(event: RequestEvent, username: String)
    requires
        spec_claims_lookup(event, "cognito:username"@) == Some(ClaimValue::Text(username)),
        username@.len() > 0,
    ensures
        spec_is_authenticated(event),
{
}

/// Law: token membership is split membership. For any non-empty token
/// without commas, the token stands somewhere in `s` as one whole
/// comma-separated token exactly when splitting `s` at its commas yields
/// a segment equal to it — the positional reading of the groups field
/// agrees with reading it as a comma-separated list of names.
pub proof fn lemma_has_token_is_split_membership(s: Seq<char>, t: Seq<char>)
    requires
        t.len() >= 1,
        forall|k: int| 0 <= k < t.len() ==> t[k] != ',',
    ensures
        has_token(s, t) <==> split_commas(s).contains(t),
    decreases s.len(),
{
    lemma_first_comma(s);
    let i = first_comma(s) as int;
    if i < s.len() {
        let head = s.take(i);
        let rest = s.skip(i + 1);
        lemma_has_token_is_split_membership(rest, t);
        let parts = seq![head] + split_commas(rest);
        assert(split_commas(s) == parts);
        if has_token(s, t) {
            let j = choose|j: int| is_token_at(s, t, j);
            if j + t.len() <= i {
                if j + t.len() < i {
                    assert(s[j + t.len()] != ',');
                    assert(false);
                }
                if j > 0 {
                    assert(s[j - 1] != ',');
                    assert(false);
                }
                assert(head =~= t);
                assert(parts[0] == t);
                assert(parts.contains(t));
            } else if j <= i {
                assert(s.subrange(j, j + t.len())[i - j] == s[i]);
                assert(false);
            } else {
                let shifted = j - i - 1;
                assert(rest.subrange(shifted, shifted + t.len()) =~= s.subrange(
                    j,
                    j + t.len(),
                ));
                if shifted > 0 {
                    assert(rest[shifted - 1] == s[j - 1]);
                }
                if shifted + t.len() < rest.len() {
                    assert(rest[shifted + t.len()] == s[j + t.len()]);
                }
                assert(is_token_at(rest, t, shifted));
                let idx = choose|idx: int|
                    0 <= idx < split_commas(rest).len() && split_commas(rest)[idx] == t;
                assert(parts[idx + 1] == t);
                assert(parts.contains(t));
            }
        }
        if parts.contains(t) {
            let idx = choose|idx: int| 0 <= idx < parts.len() && parts[idx] == t;
            if idx == 0 {
                assert(head == t);
                assert(s.subrange(0, t.len() as int) =~= head);
                assert(is_token_at(s, t, 0));
            } else {
                assert(split_commas(rest)[idx - 1] == t);
                assert(split_commas(rest).contains(t));
                let j = choose|j: int| is_token_at(rest, t, j);
                assert(s.subrange(i + 1 + j, i + 1 + j + t.len()) =~= rest.subrange(
                    j,
                    j + t.len(),
                ));
                if j > 0 {
                    assert(s[i + j] == rest[j - 1]);
                }
                if j + t.len() < rest.len() {
                    assert(s[i + 1 + j + t.len()] == rest[j + t.len()]);
                }
                assert(is_token_at(s, t, i + 1 + j));
            }
        }
    } else {
        assert(split_commas(s) == seq![s]);
        if has_token(s, t) {
            let j = choose|j: int| is_token_at(s, t, j);
            if j > 0 {
                assert(s[j - 1] != ',');
                assert(false);
            }
            if j + t.len() < s.len() {
                assert(s[j + t.len()] != ',');
                assert(false);
            }
            assert(s =~= t);
            assert(seq![s][0] == t);
            assert(seq![s].contains(t));
        }
        if seq![s].contains(t) {
            let idx = choose|idx: int| 0 <= idx < seq![s].len() && seq![s][idx] == t;
            assert(s == t);
            assert(s.subrange(0, t.len() as int) =~= t);
            assert(is_token_at(s, t, 0));
        }
    }
}

/// Law: whenever the groups field is a string holding `admin` as one whole
/// comma-separated token, the identity is in the admin group.
pub proof fn lemma_admin_token_grants_admin(event: RequestEvent, groups: String, i: int)
    requires
        spec_claims_lookup(event, "cognito:groups"@) == Some(ClaimValue::Text(groups)),
        is_token_at(groups@, "admin"@, i),
    ensures
        spec_is_admin(event),
{
}

} // verus!
