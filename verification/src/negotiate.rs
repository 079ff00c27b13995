//! Authentication negotiation: intersecting the client's offered methods
//! with the server's configured methods, selecting one with the server's
//! unconditional bias for username/password, and checking submitted
//! credentials against the configured set.

use vstd::prelude::*;

use crate::types::User;

verus! {

/// Wire byte of the no-authentication method.
pub const NO_AUTH: u8 = 0x00;

/// Wire byte of the username/password method.
pub const USER_PASS: u8 = 0x02;

/// Wire byte of the no-acceptable-methods sentinel.
pub const NO_METHODS: u8 = 0xFF;

/// The offered methods that the server is configured to accept, in the
/// order the client offered them.
pub open spec fn spec_available(offered: Seq<u8>, configured: Seq<u8>) -> Seq<u8>
    decreases offered.len(),
{
    if offered.len() == 0 {
        Seq::empty()
    } else {
        let rest = spec_available(offered.drop_last(), configured);
        if configured.contains(offered.last()) {
            rest.push(offered.last())
        } else {
            rest
        }
    }
}

/// The method the server selects from the acceptable ones:
/// username/password is preferred unconditionally over no-auth, and the
/// no-acceptable-methods sentinel stands when neither is available.
pub open spec fn spec_select(avail: Seq<u8>) -> u8 {
    if avail.contains(USER_PASS) {
        USER_PASS
    } else if avail.contains(NO_AUTH) {
        NO_AUTH
    } else {
        NO_METHODS
    }
}

/// A method is acceptable exactly when the client offered it and the
/// server is configured with it.
pub proof fn lemma_available_contains(offered: Seq<u8>, configured: Seq<u8>, m: u8)
    ensures
        spec_available(offered, configured).contains(m) <==> offered.contains(m)
            && configured.contains(m),
    decreases offered.len(),
{
    if offered.len() > 0 {
        lemma_available_contains(offered.drop_last(), configured, m);
        let rest = spec_available(offered.drop_last(), configured);
        let whole = spec_available(offered, configured);
        if configured.contains(offered.last()) {
            assert(whole == rest.push(offered.last()));
            if whole.contains(m) {
                let i = choose|i: int| 0 <= i < whole.len() && whole[i] == m;
                if i < rest.len() {
                    assert(rest.contains(m));
                } else {
                    assert(m == offered.last());
                }
            }
            if rest.contains(m) {
                let i = choose|i: int| 0 <= i < rest.len() && rest[i] == m;
                assert(whole[i] == m);
            }
            if m == offered.last() {
                assert(whole.last() == m);
            }
        }
        if offered.contains(m) && configured.contains(m) {
            let i = choose|i: int| 0 <= i < offered.len() && offered[i] == m;
            if i < offered.len() - 1 {
                assert(offered.drop_last()[i] == m);
                assert(offered.drop_last().contains(m));
            }
        }
        if offered.drop_last().contains(m) {
            let i = choose|i: int| 0 <= i < offered.drop_last().len()
                && offered.drop_last()[i] == m;
            assert(offered[i] == m);
        }
    }
}

/// Whenever the client offers username/password and the server is
/// configured with it, the server selects username/password — whatever
/// else either side supports.
pub proof fn lemma_userpass_preferred(offered: Seq<u8>, configured: Seq<u8>)
    requires
        offered.contains(USER_PASS),
        configured.contains(USER_PASS),
    ensures
        spec_select(spec_available(offered, configured)) == USER_PASS,
{
    lemma_available_contains(offered, configured, USER_PASS);
}

/// Whenever no offered method is configured, the server answers with the
/// no-acceptable-methods sentinel.
pub proof fn lemma_no_common_method(offered: Seq<u8>, configured: Seq<u8>)
    requires
        forall|m: u8| offered.contains(m) ==> !configured.contains(m),
    ensures
        spec_select(spec_available(offered, configured)) == NO_METHODS,
{
    lemma_available_contains(offered, configured, USER_PASS);
    lemma_available_contains(offered, configured, NO_AUTH);
}

/// Whether a sequence of method bytes holds a given method.
pub fn contains_method(methods: &Vec<u8>, m: u8) -> (r: bool)
    ensures
        r == methods@.contains(m),
{
    let mut i: usize = 0;
    while i < methods.len()
        invariant
            i <= methods@.len(),
            forall|k: int| 0 <= k < i ==> methods@[k] != m,
        decreases methods@.len() - i,
    {
        if methods[i] == m {
            return true;
        }
        i = i + 1;
    }
    false
}

/// The methods offered by the client that the server is configured to
/// accept, in the client's order.
pub fn available_methods(offered: &Vec<u8>, configured: &Vec<u8>) -> (r: Vec<u8>)
    ensures
        r@ == spec_available(offered@, configured@),
{
    let mut r: Vec<u8> = Vec::new();
    let mut i: usize = 0;
    while i < offered.len()
        invariant
            i <= offered@.len(),
            r@ == spec_available(offered@.subrange(0, i as int), configured@),
        decreases offered@.len() - i,
    {
        let m = offered[i];
        proof {
            assert(offered@.subrange(0, i + 1 as int).drop_last() =~= offered@.subrange(
                0,
                i as int,
            ));
            assert(offered@.subrange(0, i + 1 as int).last() == offered@[i as int]);
        }
        if contains_method(configured, m) {
            r.push(m);
        }
        i = i + 1;
    }
    proof {
        assert(offered@.subrange(0, offered@.len() as int) =~= offered@);
    }
    r
}

/// Select the authentication method from the acceptable ones, preferring
/// username/password unconditionally.
pub fn select_method(avail: &Vec<u8>) -> (m: u8)
    ensures
        m == spec_select(avail@),
{
    if contains_method(avail, USER_PASS) {
        USER_PASS
    } else if contains_method(avail, NO_AUTH) {
        NO_AUTH
    } else {
        NO_METHODS
    }
}

/// A submission matches the configured credential set exactly when some
/// configured user has the same username and the same password.
pub open spec fn spec_creds_ok(users: Seq<User>, username: Seq<char>, password: Seq<char>) -> bool {
    exists|i: int|
        0 <= i < users.len() && users[i]@.username == username && users[i]@.password == password
}

/// Whether the submitted username/password pair is in the configured
/// credential set, by exact equality.
pub fn authed(users: &Vec<User>, user: &User) -> (r: bool)
    ensures
        r == spec_creds_ok(users@, user@.username, user@.password),
{
    let mut i: usize = 0;
    while i < users.len()
        invariant
            i <= users@.len(),
            forall|k: int|
                0 <= k < i ==> !(users@[k]@.username == user@.username && users@[k]@.password
                    == user@.password),
        decreases users@.len() - i,
    {
        if users[i] == *user {
            return true;
        }
        i = i + 1;
    }
    false
}

} // verus!
