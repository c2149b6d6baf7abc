use vstd::prelude::*;

verus! {

/// A username with an optional secret, compared by value and never stored.
pub struct Credential {
    pub user: String,
    pub secret: Option<String>,
}

/// Whether a provided credential satisfies the configured expectation.
/// No expectation means every request is allowed; an expectation denies a
/// missing credential and any mismatch of user or secret.
pub open spec fn allow_spec(provided: Option<Credential>, expected: Option<Credential>) -> bool {
    match expected {
        None => true,
        Some(e) => match provided {
            None => false,
            Some(p) => p.user@ == e.user@ && match (p.secret, e.secret) {
                (None, None) => true,
                (Some(ps), Some(es)) => ps@ == es@,
                _ => false,
            },
        },
    }
}

/// String equality that never returns early: the whole length is walked
/// whatever the inputs hold, so a mismatch's position does not end the
/// comparison.
fn ct_str_eq(a: &str, b: &str) -> (r: bool)
    ensures
        r == (a@ == b@),
{
    let n = a.unicode_len();
    let m = b.unicode_len();
    if n != m {
        return false;
    }
    let mut ne = false;
    let mut i: usize = 0;
    while i < n
        invariant
            i <= n,
            n == a@.len(),
            n == b@.len(),
            !ne <==> (forall|j: int| 0 <= j < i ==> a@[j] == b@[j]),
        decreases n - i,
    {
        let ca = a.get_char(i);
        let cb = b.get_char(i);
        if ca != cb {
            ne = true;
        }
        i = i + 1;
    }
    if ne {
        proof {
            let j = choose|j: int| 0 <= j < n && a@[j] != b@[j];
            assert(a@[j] != b@[j]);
        }
        false
    } else {
        proof {
            assert(a@ =~= b@);
        }
        true
    }
}

/// Decides [`allow_spec`] for one request. Both comparisons run even when
/// the first already failed, so a mismatch leaks nothing through timing.
pub fn authenticate(provided: &Option<Credential>, expected: &Option<Credential>) -> (allow: bool)
    ensures
        allow == allow_spec(*provided, *expected),
{
    match expected {
        None => true,
        Some(e) => match provided {
            None => false,
            Some(p) => {
                let user_ok = ct_str_eq(p.user.as_str(), e.user.as_str());
                let secret_ok = match (&p.secret, &e.secret) {
                    (None, None) => true,
                    (Some(ps), Some(es)) => ct_str_eq(ps.as_str(), es.as_str()),
                    _ => false,
                };
                user_ok && secret_ok
            },
        },
    }
}

} // verus!
