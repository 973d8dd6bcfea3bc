use vstd::prelude::*;
use crate::error::{Error, InvalidFields};

verus! {

pub open spec fn is_alnum(c: char) -> bool {
    ('a' <= c && c <= 'z') || ('A' <= c && c <= 'Z') || ('0' <= c && c <= '9')
}

/// The character classes of the identifier grammars.
#[derive(Debug, Clone, Copy, PartialEq, Eq, Structural)]
pub enum CharClass {
    /// `[-a-z0-9]`, a chain namespace.
    Namespace,
    /// `[-_a-zA-Z0-9]`, a chain reference.
    Reference,
    /// `[-.%a-zA-Z0-9]`, an account address.
    Address,
    /// The base58 alphabet: digits and letters without `0`, `O`, `I` and `l`.
    Base58,
}

pub open spec fn in_class(class: CharClass, c: char) -> bool {
    match class {
        CharClass::Namespace => c == '-' || ('a' <= c && c <= 'z') || ('0' <= c && c <= '9'),
        CharClass::Reference => c == '-' || c == '_' || is_alnum(c),
        CharClass::Address => c == '-' || c == '.' || c == '%' || is_alnum(c),
        CharClass::Base58 => ('1' <= c && c <= '9') || ('A' <= c && c <= 'H') || ('J' <= c
            && c <= 'N') || ('P' <= c && c <= 'Z') || ('a' <= c && c <= 'k') || ('m' <= c && c
            <= 'z'),
    }
}

pub open spec fn all_in_class(s: Seq<char>, lo: int, hi: int, class: CharClass) -> bool {
    forall|k: int| lo <= k < hi ==> in_class(class, #[trigger] s[k])
}

/// `s` reads `namespace:reference:address` with its colons at `i` and `j`.
pub open spec fn caip10_parts(s: Seq<char>, i: int, j: int) -> bool {
    &&& 0 <= i < j < s.len()
    &&& s[i] == ':' && s[j] == ':'
    &&& 3 <= i <= 8 && all_in_class(s, 0, i, CharClass::Namespace)
    &&& 1 <= j - i - 1 <= 32 && all_in_class(s, i + 1, j, CharClass::Reference)
    &&& 1 <= s.len() - j - 1 <= 128 && all_in_class(s, j + 1, s.len() as int, CharClass::Address)
}

/// A chain-agnostic account identifier: `[-a-z0-9]{3,8}:[-_a-zA-Z0-9]{1,32}:[-.%a-zA-Z0-9]{1,128}`.
pub open spec fn is_caip10_account(s: Seq<char>) -> bool {
    exists|i: int, j: int| caip10_parts(s, i, j)
}

/// An identity key in multibase base58btc form: `z` and at least one base58 digit.
pub open spec fn is_identity_key(s: Seq<char>) -> bool {
    s.len() >= 2 && s[0] == 'z' && all_in_class(s, 1, s.len() as int, CharClass::Base58)
}

fn char_in_class(class: CharClass, c: char) -> (r: bool)
    ensures
        r == in_class(class, c),
{
    match class {
        CharClass::Namespace => c == '-' || ('a' <= c && c <= 'z') || ('0' <= c && c <= '9'),
        CharClass::Reference => c == '-' || c == '_' || ('a' <= c && c <= 'z') || ('A' <= c && c
            <= 'Z') || ('0' <= c && c <= '9'),
        CharClass::Address => c == '-' || c == '.' || c == '%' || ('a' <= c && c <= 'z') || ('A'
            <= c && c <= 'Z') || ('0' <= c && c <= '9'),
        CharClass::Base58 => ('1' <= c && c <= '9') || ('A' <= c && c <= 'H') || ('J' <= c
            && c <= 'N') || ('P' <= c && c <= 'Z') || ('a' <= c && c <= 'k') || ('m' <= c && c
            <= 'z'),
    }
}

fn chars_of(s: &str) -> (r: Vec<char>)
    ensures
        r@ == s@,
{
    let n = s.unicode_len();
    let mut r: Vec<char> = Vec::new();
    let mut i: usize = 0;
    while i < n
        invariant
            n == s@.len(),
            i <= n,
            r@ == s@.subrange(0, i as int),
        decreases n - i,
    {
        r.push(s.get_char(i));
        i = i + 1;
        assert(r@ =~= s@.subrange(0, i as int));
    }
    assert(r@ =~= s@);
    r
}

fn segment_in_class(cs: &Vec<char>, lo: usize, hi: usize, class: CharClass) -> (r: bool)
    requires
        lo <= hi <= cs.len(),
    ensures
        r == all_in_class(cs@, lo as int, hi as int, class),
{
    let mut k: usize = lo;
    while k < hi
        invariant
            lo <= k <= hi <= cs.len(),
            all_in_class(cs@, lo as int, k as int, class),
        decreases hi - k,
    {
        if !char_in_class(class, cs[k]) {
            return false;
        }
        k = k + 1;
    }
    true
}

/// Position of the first `:` at or after `from`, or the length if there is none.
fn find_colon(cs: &Vec<char>, from: usize) -> (r: usize)
    requires
        from <= cs.len(),
    ensures
        from <= r <= cs.len(),
        forall|k: int| from <= k < r ==> cs@[k] != ':',
        r < cs.len() ==> cs@[r as int] == ':',
{
    let mut k: usize = from;
    while k < cs.len()
        invariant
            from <= k <= cs.len(),
            forall|m: int| from <= m < k ==> cs@[m] != ':',
        decreases cs.len() - k,
    {
        if cs[k] == ':' {
            return k;
        }
        k = k + 1;
    }
    k
}

/// Whether `account` is a well-formed chain-agnostic account identifier.
pub fn validate_caip10_account(account: &str) -> (r: bool)
    ensures
        r == is_caip10_account(account@),
{
    let cs = chars_of(account);
    let n = cs.len();
    let i = find_colon(&cs, 0);
    if i >= n {
        assert forall|a: int, b: int| !caip10_parts(account@, a, b) by {
            if caip10_parts(account@, a, b) {
                assert(cs@[a] == ':');
            }
        }
        return false;
    }
    let j = find_colon(&cs, i + 1);
    if j >= n {
        assert forall|a: int, b: int| !caip10_parts(account@, a, b) by {
            if caip10_parts(account@, a, b) {
                if a < i {
                    assert(cs@[a] == ':');
                } else if a > i {
                    assert(in_class(CharClass::Namespace, cs@[i as int]));
                } else {
                    assert(cs@[b] == ':');
                }
            }
        }
        return false;
    }
    let ok = 3 <= i && i <= 8 && 1 <= j - i - 1 && j - i - 1 <= 32 && 1 <= n - j - 1 && n - j - 1
        <= 128 && segment_in_class(&cs, 0, i, CharClass::Namespace) && segment_in_class(
        &cs,
        i + 1,
        j,
        CharClass::Reference,
    ) && segment_in_class(&cs, j + 1, n, CharClass::Address);
    proof {
        if ok {
            assert(caip10_parts(account@, i as int, j as int));
        } else {
            assert forall|a: int, b: int| !caip10_parts(account@, a, b) by {
                if caip10_parts(account@, a, b) {
                    if a < i {
                        assert(cs@[a] == ':');
                    } else if a > i {
                        assert(in_class(CharClass::Namespace, cs@[i as int]));
                    } else if b < j {
                        assert(cs@[b] == ':');
                    } else if b > j {
                        assert(in_class(CharClass::Reference, cs@[j as int]));
                    }
                }
            }
        }
    }
    ok
}

/// Whether `identity_key` is a well-formed identity key.
pub fn validate_identity_key(identity_key: &str) -> (r: bool)
    ensures
        r == is_identity_key(identity_key@),
{
    let cs = chars_of(identity_key);
    cs.len() >= 2 && cs[0] == 'z' && segment_in_class(&cs, 1, cs.len(), CharClass::Base58)
}

/// The error that the format check of a derived pair gives, if any.
pub open spec fn pair_check(account: Seq<char>, identity_key: Seq<char>) -> Result<(), Error> {
    if is_caip10_account(account) && is_identity_key(identity_key) {
        Ok(())
    } else {
        Err(
            Error::Validation(
                InvalidFields {
                    account: !is_caip10_account(account),
                    identity_key: !is_identity_key(identity_key),
                },
            ),
        )
    }
}

/// Checks both fields of a pair and reports every one that fails.
pub fn validate_pair(account: &str, identity_key: &str) -> (r: Result<(), Error>)
    ensures
        r == pair_check(account@, identity_key@),
{
    let account_ok = validate_caip10_account(account);
    let key_ok = validate_identity_key(identity_key);
    if account_ok && key_ok {
        Ok(())
    } else {
        Err(Error::Validation(InvalidFields { account: !account_ok, identity_key: !key_ok }))
    }
}

} // verus!
