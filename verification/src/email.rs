//! Syntax-only email validation. An address is valid when it is 3 to 254
//! characters of ASCII, splits at a single `@` into a non-empty local part
//! and a non-empty domain, the local part is at most 64 characters of its
//! charset with no leading, trailing or doubled dot, and the domain is made
//! of at least two dot-separated labels, each 1 to 63 characters that do not
//! start or end with `-`.

use vstd::prelude::*;
use crate::chars::{
    is_local_char,
    is_domain_char,
    is_allowed_local_part_character,
    is_allowed_domain_character,
};
use crate::text::chars_of;

verus! {

/// No two adjacent dots anywhere in `s`.
pub open spec fn no_double_dot(s: Seq<char>) -> bool {
    forall|i: int| 0 <= i && i + 1 < s.len() ==> !((#[trigger] s[i]) == '.' && s[i + 1] == '.')
}

/// Some character of the 64-wide window of `d` starting at `i` is a dot.
/// Every such window containing a dot is the same as no dot-free run of 64
/// characters, that is, no domain label longer than 63 characters.
pub open spec fn dot_in_window(d: Seq<char>, i: int) -> bool {
    exists|m: int| i <= m <= i + 63 && 0 <= m < d.len() && (#[trigger] d[m]) == '.'
}

/// The part before the `@`: 1 to 64 characters of the local charset, no
/// leading, trailing or doubled dot.
pub open spec fn valid_local_part(l: Seq<char>) -> bool {
    &&& 1 <= l.len() <= 64
    &&& l[0] != '.'
    &&& l[l.len() - 1] != '.'
    &&& no_double_dot(l)
    &&& forall|i: int| 0 <= i < l.len() ==> is_local_char(#[trigger] l[i])
}

/// The part after the `@`: 1 to 253 characters of the domain charset, at
/// least two dot-separated labels, each label non-empty, at most 63
/// characters, and not starting or ending with `-`.
pub open spec fn valid_domain_part(d: Seq<char>) -> bool {
    &&& 1 <= d.len() <= 253
    &&& d[0] != '.'
    &&& d[d.len() - 1] != '.'
    &&& no_double_dot(d)
    &&& forall|i: int| 0 <= i < d.len() ==> is_domain_char(#[trigger] d[i])
    &&& exists|i: int| 0 <= i < d.len() && (#[trigger] d[i]) == '.'
    &&& forall|i: int|
        0 <= i < d.len() && (#[trigger] d[i]) == '-' ==> i != 0 && d[i - 1] != '.' && i != d.len()
            - 1 && d[i + 1] != '.'
    &&& forall|i: int| 0 <= i && i + 63 < d.len() ==> #[trigger] dot_in_window(d, i)
}

/// A syntactically valid email address.
pub open spec fn valid_email(s: Seq<char>) -> bool {
    &&& 3 <= s.len() <= 254
    &&& exists|k: int|
        0 <= k < s.len() && (#[trigger] s[k]) == '@' && valid_local_part(s.subrange(0, k))
            && valid_domain_part(s.subrange(k + 1, s.len() as int))
}

fn local_part_valid(l: &Vec<char>) -> (r: bool)
    ensures
        r == valid_local_part(l@),
{
    let n = l.len();
    if n < 1 || n > 64 {
        return false;
    }
    if l[0] == '.' || l[n - 1] == '.' {
        return false;
    }
    let mut i: usize = 0;
    while i < n
        invariant
            n == l@.len(),
            1 <= n <= 64,
            i <= n,
            forall|j: int| 0 <= j < i ==> is_local_char(#[trigger] l@[j]),
            forall|j: int| 0 <= j < i && j + 1 < n ==> !((#[trigger] l@[j]) == '.' && l@[j + 1] == '.'),
        decreases n - i,
    {
        if !is_allowed_local_part_character(l[i]) {
            return false;
        }
        if l[i] == '.' && i + 1 < n && l[i + 1] == '.' {
            return false;
        }
        i = i + 1;
    }
    true
}

fn domain_part_valid(d: &Vec<char>) -> (r: bool)
    ensures
        r == valid_domain_part(d@),
{
    let n = d.len();
    if n < 1 || n > 253 {
        return false;
    }
    if d[0] == '.' || d[n - 1] == '.' {
        return false;
    }
    let mut has_dot = false;
    let mut run: usize = 0;
    let mut i: usize = 0;
    while i < n
        invariant
            n == d@.len(),
            1 <= n <= 253,
            i <= n,
            forall|j: int| 0 <= j < i ==> is_domain_char(#[trigger] d@[j]),
            forall|j: int| 0 <= j < i && j + 1 < n ==> !((#[trigger] d@[j]) == '.' && d@[j + 1] == '.'),
            has_dot <==> exists|j: int| 0 <= j < i && (#[trigger] d@[j]) == '.',
            forall|j: int|
                0 <= j < i && (#[trigger] d@[j]) == '-' ==> j != 0 && d@[j - 1] != '.' && j != n - 1
                    && d@[j + 1] != '.',
            run <= i,
            run <= 63,
            forall|j: int| i - run <= j < i ==> (#[trigger] d@[j]) != '.',
            run == i || d@[i - run - 1] == '.',
            forall|j: int| 0 <= j && j + 64 <= i ==> #[trigger] dot_in_window(d@, j),
        decreases n - i,
    {
        let c = d[i];
        if !is_allowed_domain_character(c) {
            return false;
        }
        if c == '.' {
            if i + 1 < n && d[i + 1] == '.' {
                return false;
            }
            has_dot = true;
            run = 0;
        } else {
            if c == '-' {
                if i == 0 || d[i - 1] == '.' {
                    return false;
                }
                if i == n - 1 || d[i + 1] == '.' {
                    return false;
                }
            }
            if run == 63 {
                proof {
                    assert forall|m: int| i - 63 <= m <= i && 0 <= m < d@.len() implies (
                    d@[m]) != '.' by {
                        if m < i {
                            assert(d@[m] != '.');
                        }
                    }
                    assert(!dot_in_window(d@, i - 63));
                }
                return false;
            }
            run = run + 1;
        }
        i = i + 1;
        proof {
            if i >= 64 {
                let j = i - 64;
                assert forall|j2: int| 0 <= j2 && j2 + 64 <= i implies #[trigger] dot_in_window(
                    d@,
                    j2,
                ) by {
                    if j2 + 64 == i {
                        if d@[i - 1] == '.' {
                            assert(j2 <= i - 1 <= j2 + 63 && 0 <= i - 1 < d@.len());
                        } else {
                            // the run ending at i - 1 has length run <= 63, so the
                            // character just before it is a dot inside the window
                            assert(run < i);
                            assert(d@[i - run - 1] == '.');
                            assert(j2 <= i - run - 1 <= j2 + 63);
                        }
                    }
                }
            }
        }
    }
    if !has_dot {
        return false;
    }
    proof {
        assert forall|j: int| 0 <= j && j + 63 < d@.len() implies #[trigger] dot_in_window(
            d@,
            j,
        ) by {
            assert(j + 64 <= n as int);
        }
    }
    true
}

/// Whether `email` is a syntactically valid address.
pub fn is_valid_email(email: &str) -> (r: bool)
    ensures
        r == valid_email(email@),
{
    let v = chars_of(email);
    let n = v.len();
    if n < 3 || n > 254 {
        return false;
    }
    let mut at_pos: usize = 0;
    let mut found = false;
    let mut i: usize = 0;
    while i < n
        invariant
            n == v@.len(),
            v@ == email@,
            3 <= n <= 254,
            i <= n,
            !found ==> forall|j: int| 0 <= j < i ==> (#[trigger] v@[j]) != '@',
            found ==> at_pos < i && v@[at_pos as int] == '@' && (forall|j: int|
                0 <= j < i && j != at_pos ==> (#[trigger] v@[j]) != '@'),
        decreases n - i,
    {
        if v[i] == '@' {
            if found {
                proof {
                    assert forall|k: int|
                        0 <= k < email@.len() && (#[trigger] email@[k]) == '@' implies !(
                    valid_local_part(email@.subrange(0, k)) && valid_domain_part(
                        email@.subrange(k + 1, email@.len() as int),
                    )) by {
                        if k > at_pos {
                            assert(email@.subrange(0, k)[at_pos as int] == '@');
                            assert(!is_local_char('@'));
                        } else {
                            assert(k == at_pos);
                            assert(email@.subrange(k + 1, email@.len() as int)[i - k - 1] == '@');
                            assert(!is_domain_char('@'));
                        }
                    }
                }
                return false;
            }
            at_pos = i;
            found = true;
        }
        i = i + 1;
    }
    if !found {
        return false;
    }
    let k = at_pos;
    let mut local: Vec<char> = Vec::new();
    let mut i2: usize = 0;
    while i2 < k
        invariant
            k < n == v@.len(),
            i2 <= k,
            local@ == v@.subrange(0, i2 as int),
        decreases k - i2,
    {
        local.push(v[i2]);
        i2 = i2 + 1;
        proof {
            assert(v@.subrange(0, i2 as int) =~= v@.subrange(0, i2 - 1).push(v@[i2 - 1]));
        }
    }
    let mut domain: Vec<char> = Vec::new();
    let mut i3: usize = k + 1;
    while i3 < n
        invariant
            k < n == v@.len(),
            k + 1 <= i3 <= n,
            domain@ == v@.subrange(k + 1, i3 as int),
        decreases n - i3,
    {
        domain.push(v[i3]);
        i3 = i3 + 1;
        proof {
            assert(v@.subrange(k + 1, i3 as int) =~= v@.subrange(k + 1, i3 - 1).push(v@[i3 - 1]));
        }
    }
    let local_ok = local_part_valid(&local);
    let domain_ok = domain_part_valid(&domain);
    proof {
        assert(local@ =~= email@.subrange(0, k as int));
        assert(domain@ =~= email@.subrange(k + 1, email@.len() as int));
        if !(local_ok && domain_ok) {
            assert forall|k2: int|
                0 <= k2 < email@.len() && (#[trigger] email@[k2]) == '@' implies !(
            valid_local_part(email@.subrange(0, k2)) && valid_domain_part(
                email@.subrange(k2 + 1, email@.len() as int),
            )) by {
                assert(k2 == k as int);
            }
        }
    }
    local_ok && domain_ok
}

} // verus!
