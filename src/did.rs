use vstd::prelude::*;
use crate::error::Error;

verus! {

/// Method tag of account identifiers (`did:pkh:<account>`).
pub const DID_METHOD_PKH: &'static str = "pkh";

/// Method tag of key identifiers (`did:key:<key>`).
pub const DID_METHOD_KEY: &'static str = "key";

/// `did:<method>:`, the prefix that a DID of the given method starts with.
pub open spec fn did_prefix(method: Seq<char>) -> Seq<char> {
    seq!['d', 'i', 'd', ':'] + method + seq![':']
}

/// What follows the method's prefix, if the DID has that prefix.
pub open spec fn did_data(did: Seq<char>, method: Seq<char>) -> Option<Seq<char>> {
    let p = did_prefix(method);
    if p.len() <= did.len() && did.subrange(0, p.len() as int) == p {
        Some(did.subrange(p.len() as int, did.len() as int))
    } else {
        None
    }
}

/// Strips `did:<method>:` from `did`; any other DID is refused.
pub fn extract_did_data(did: &str, method: &str) -> (r: Result<String, Error>)
    ensures
        match did_data(did@, method@) {
            Some(d) => r is Ok && r->Ok_0@ == d,
            None => r == Err::<String, Error>(Error::UnsupportedDidMethod),
        },
{
    let mut prefix: Vec<char> = vec!['d', 'i', 'd', ':'];
    let mlen = method.unicode_len();
    let mut i: usize = 0;
    while i < mlen
        invariant
            mlen == method@.len(),
            i <= mlen,
            prefix@ == seq!['d', 'i', 'd', ':'] + method@.subrange(0, i as int),
        decreases mlen - i,
    {
        prefix.push(method.get_char(i));
        i = i + 1;
        assert(prefix@ =~= seq!['d', 'i', 'd', ':'] + method@.subrange(0, i as int));
    }
    prefix.push(':');
    assert(prefix@ =~= did_prefix(method@));
    let dlen = did.unicode_len();
    let plen = prefix.len();
    if plen > dlen {
        return Err(Error::UnsupportedDidMethod);
    }
    let mut j: usize = 0;
    while j < plen
        invariant
            plen == prefix@.len(),
            prefix@ == did_prefix(method@),
            plen <= dlen,
            dlen == did@.len(),
            j <= plen,
            forall|k: int| 0 <= k < j ==> did@[k] == prefix@[k],
        decreases plen - j,
    {
        if did.get_char(j) != prefix[j] {
            assert(did@.subrange(0, plen as int)[j as int] != prefix@[j as int]);
            assert(did@.subrange(0, plen as int) != did_prefix(method@));
            return Err(Error::UnsupportedDidMethod);
        }
        j = j + 1;
    }
    assert(did@.subrange(0, plen as int) =~= prefix@);
    let data = did.substring_char(plen, dlen);
    Ok(data.to_owned())
}

} // verus!
