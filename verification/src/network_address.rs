//! Cross-chain addresses of the form `<protocol>://<network-id>/<account>`.
//!
//! The protocol ends at the first `://` of the string and the network id at
//! the first `/` after that; the account is whatever follows.

use crate::error::ContractError;
use crate::text::chars_of;
use vstd::prelude::*;
use vstd::string::*;

verus! {

/// The characters that end the protocol.
pub open spec fn scheme_separator() -> Seq<char> {
    seq![':', '/', '/']
}

/// The character that ends the network id.
pub open spec fn path_separator() -> Seq<char> {
    seq!['/']
}

/// True when `pat` stands in `s` at index `i`.
pub open spec fn occurs_at(s: Seq<char>, pat: Seq<char>, i: int) -> bool {
    0 <= i && i + pat.len() <= s.len() && s.subrange(i, i + pat.len()) == pat
}

/// The index of the first occurrence of `pat` in `s` at or after `from`.
pub open spec fn find(s: Seq<char>, pat: Seq<char>, from: int) -> Option<int>
    decreases s.len() - from + 1,
{
    if from < 0 || from + pat.len() > s.len() {
        None
    } else if occurs_at(s, pat, from) {
        Some(from)
    } else {
        find(s, pat, from + 1)
    }
}

/// The three segments of an address.
pub struct AddressParts {
    pub protocol: Seq<char>,
    pub network_id: Seq<char>,
    pub account: Seq<char>,
}

/// Cuts `s` at its first `://` and at the first `/` after that.
pub open spec fn split_address(s: Seq<char>) -> Option<AddressParts> {
    match find(s, scheme_separator(), 0) {
        None => None,
        Some(i) => {
            let rest = s.skip(i + 3);
            match find(rest, path_separator(), 0) {
                None => None,
                Some(j) => Some(
                    AddressParts {
                        protocol: s.take(i),
                        network_id: rest.take(j),
                        account: rest.skip(j + 1),
                    },
                ),
            }
        },
    }
}

/// The network id and the account of a protocol address: a string with both
/// separators whose protocol and network id are not empty.  The account is
/// taken as it stands.
pub open spec fn spec_parse_protocol_address(s: Seq<char>) -> Option<(Seq<char>, Seq<char>)> {
    match split_address(s) {
        None => None,
        Some(parts) => if parts.protocol.len() > 0 && parts.network_id.len() > 0 {
            Some((parts.network_id, parts.account))
        } else {
            None
        },
    }
}

/// The network id and the account of a network address: a protocol address
/// whose account is not empty.
pub open spec fn spec_parse_network_address(s: Seq<char>) -> Option<(Seq<char>, Seq<char>)> {
    match spec_parse_protocol_address(s) {
        None => None,
        Some((network_id, account)) => if account.len() > 0 {
            Some((network_id, account))
        } else {
            None
        },
    }
}

/// The address made of three segments.
pub open spec fn spec_format_address(
    protocol: Seq<char>,
    network_id: Seq<char>,
    account: Seq<char>,
) -> Seq<char> {
    protocol + scheme_separator() + network_id + path_separator() + account
}

/// What `find` returns: the first index at or after `from` where `pat`
/// stands, and `None` exactly when it stands nowhere from there on.
pub proof fn lemma_find(s: Seq<char>, pat: Seq<char>, from: int)
    requires
        0 <= from,
    ensures
        match find(s, pat, from) {
            Some(i) => from <= i && occurs_at(s, pat, i) && forall|j: int|
                from <= j < i ==> !occurs_at(s, pat, j),
            None => forall|j: int| from <= j ==> !occurs_at(s, pat, j),
        },
    decreases s.len() - from + 1,
{
    if from + pat.len() > s.len() {
    } else if occurs_at(s, pat, from) {
    } else {
        lemma_find(s, pat, from + 1);
    }
}

/// An occurrence that no other precedes is the one that `find` returns.
pub proof fn lemma_find_first(s: Seq<char>, pat: Seq<char>, from: int, i: int)
    requires
        0 <= from <= i,
        occurs_at(s, pat, i),
        forall|j: int| from <= j < i ==> !occurs_at(s, pat, j),
    ensures
        find(s, pat, from) == Some(i),
    decreases i - from,
{
    if from < i {
        lemma_find_first(s, pat, from + 1, i);
    }
}

/// Tells whether `pat` stands in `s` at index `i`.
fn stands_at(s: &[char], pat: &[char], i: usize) -> (r: bool)
    requires
        i + pat.len() <= s.len(),
    ensures
        r == occurs_at(s@, pat@, i as int),
{
    let mut k: usize = 0;
    while k < pat.len()
        invariant
            k <= pat.len(),
            i + pat.len() <= s.len(),
            forall|m: int| 0 <= m < k ==> s@[i + m] == pat@[m],
        decreases pat.len() - k,
    {
        if s[i + k] != pat[k] {
            assert(s@.subrange(i as int, i + pat@.len())[k as int] != pat@[k as int]);
            return false;
        }
        k = k + 1;
    }
    assert(s@.subrange(i as int, i + pat@.len()) =~= pat@);
    true
}

/// Finds the first occurrence of `pat` in `s` at or after `from`.
fn find_from(s: &[char], pat: &[char], from: usize) -> (r: Option<usize>)
    requires
        pat.len() > 0,
    ensures
        match r {
            Some(i) => find(s@, pat@, from as int) == Some(i as int) && i + pat.len() <= s.len(),
            None => find(s@, pat@, from as int) is None,
        },
{
    if pat.len() > s.len() {
        return None;
    }
    let last: usize = s.len() - pat.len();
    let mut i: usize = from;
    while i <= last
        invariant
            from <= i,
            pat.len() > 0,
            last + pat.len() == s.len(),
            find(s@, pat@, from as int) == find(s@, pat@, i as int),
        decreases last + 1 - i,
    {
        if stands_at(s, pat, i) {
            return Some(i);
        }
        i = i + 1;
    }
    None
}

/// Splits a protocol address into its network id and its account.  The
/// account is not examined; it may even be empty.
pub fn parse_protocol_address<'a>(s: &'a str) -> (r: Result<(&'a str, &'a str), ContractError>)
    ensures
        match r {
            Ok((network_id, account)) => spec_parse_protocol_address(s@) == Some(
                (network_id@, account@),
            ),
            Err(e) => e == ContractError::MalformedAddress && spec_parse_protocol_address(s@)
                is None,
        },
{
    let chars: Vec<char> = chars_of(s);
    let scheme: [char; 3] = [':', '/', '/'];
    let path: [char; 1] = ['/'];
    assert(scheme@ =~= scheme_separator());
    assert(path@ =~= path_separator());
    let i: usize = match find_from(chars.as_slice(), scheme.as_slice(), 0) {
        None => {
            return Err(ContractError::MalformedAddress);
        },
        Some(i) => i,
    };
    let start: usize = i + 3;
    let j: usize = match find_from(chars.as_slice(), path.as_slice(), start) {
        None => {
            proof {
                lemma_find_shift(s@, path_separator(), start as int, 0);
            }
            return Err(ContractError::MalformedAddress);
        },
        Some(j) => j,
    };
    proof {
        lemma_find_shift(s@, path_separator(), start as int, 0);
        lemma_find(s@, path_separator(), start as int);
    }
    if i == 0 || j == start {
        return Err(ContractError::MalformedAddress);
    }
    let network_id: &'a str = s.substring_char(start, j);
    let account: &'a str = s.substring_char(j + 1, chars.len());
    proof {
        let rest = s@.skip(start as int);
        assert(rest.take(j - start) =~= s@.subrange(start as int, j as int));
        assert(rest.skip(j - start + 1) =~= s@.subrange(j + 1, s@.len() as int));
    }
    Ok((network_id, account))
}

/// Searching the rest of a string finds what searching the string from that
/// offset finds, counted from the offset.
pub proof fn lemma_find_shift(s: Seq<char>, pat: Seq<char>, offset: int, from: int)
    requires
        0 <= offset <= s.len(),
        0 <= from,
    ensures
        find(s.skip(offset), pat, from) == match find(s, pat, offset + from) {
            Some(i) => Some(i - offset),
            None => None,
        },
    decreases s.len() - offset - from + 1,
{
    let rest = s.skip(offset);
    if from + pat.len() > rest.len() {
    } else {
        assert(rest.subrange(from, from + pat.len()) =~= s.subrange(
            offset + from,
            offset + from + pat.len(),
        ));
        if !occurs_at(rest, pat, from) {
            lemma_find_shift(s, pat, offset, from + 1);
        }
    }
}

/// Splits a network address into its network id and its account.
pub fn parse_network_address<'a>(s: &'a str) -> (r: Result<(&'a str, &'a str), ContractError>)
    ensures
        match r {
            Ok((network_id, account)) => spec_parse_network_address(s@) == Some(
                (network_id@, account@),
            ),
            Err(e) => e == ContractError::MalformedAddress && spec_parse_network_address(s@)
                is None,
        },
{
    match parse_protocol_address(s) {
        Err(e) => Err(e),
        Ok((network_id, account)) => {
            if account.unicode_len() == 0 {
                Err(ContractError::MalformedAddress)
            } else {
                Ok((network_id, account))
            }
        },
    }
}

/// Writes the address of `account` on network `network_id` under `protocol`.
pub fn format_address(protocol: &str, network_id: &str, account: &str) -> (address: String)
    ensures
        address@ == spec_format_address(protocol@, network_id@, account@),
{
    let mut address: String = String::from_str(protocol);
    proof {
        reveal_strlit("://");
        reveal_strlit("/");
        assert("://"@ =~= scheme_separator());
        assert("/"@ =~= path_separator());
    }
    address.append("://");
    address.append(network_id);
    address.append("/");
    address.append(account);
    address
}

/// True when no character of `s` is a slash.
pub open spec fn has_no_slash(s: Seq<char>) -> bool {
    forall|k: int| 0 <= k < s.len() ==> #[trigger] s[k] != '/'
}

/// Formatting cuts where parsing cuts: an address written from a protocol
/// and a network id that are not empty and hold no slash splits into the
/// three segments it was written from.
pub proof fn lemma_split_of_format(protocol: Seq<char>, network_id: Seq<char>, account: Seq<char>)
    requires
        has_no_slash(protocol),
        has_no_slash(network_id),
    ensures
        split_address(spec_format_address(protocol, network_id, account)) == Some(
            AddressParts { protocol, network_id, account },
        ),
{
    let s = spec_format_address(protocol, network_id, account);
    let i = protocol.len() as int;
    assert(s.subrange(i, i + 3) =~= scheme_separator());
    assert forall|j: int| 0 <= j < i implies !occurs_at(s, scheme_separator(), j) by {
        if occurs_at(s, scheme_separator(), j) {
            assert(s.subrange(j, j + 3)[1] == scheme_separator()[1]);
            if j + 1 < i {
                assert(s[j + 1] == protocol[j + 1]);
            }
        }
    }
    lemma_find_first(s, scheme_separator(), 0, i);
    let rest = s.skip(i + 3);
    let n = network_id.len() as int;
    assert(rest =~= network_id + path_separator() + account);
    assert(rest.subrange(n, n + 1) =~= path_separator());
    assert forall|j: int| 0 <= j < n implies !occurs_at(rest, path_separator(), j) by {
        if occurs_at(rest, path_separator(), j) {
            assert(rest.subrange(j, j + 1)[0] == path_separator()[0]);
            assert(rest[j] == network_id[j]);
        }
    }
    lemma_find_first(rest, path_separator(), 0, n);
    assert(s.take(i) =~= protocol);
    assert(rest.take(n) =~= network_id);
    assert(rest.skip(n + 1) =~= account);
}

/// Round trip of an address: whenever the three segments are not empty and
/// neither the protocol nor the network id holds a slash, parsing the
/// formatted address gives the network id and the account back.
pub proof fn lemma_parse_of_format(protocol: Seq<char>, network_id: Seq<char>, account: Seq<char>)
    requires
        protocol.len() > 0,
        network_id.len() > 0,
        account.len() > 0,
        has_no_slash(protocol),
        has_no_slash(network_id),
    ensures
        spec_parse_network_address(spec_format_address(protocol, network_id, account)) == Some(
            (network_id, account),
        ),
        spec_parse_protocol_address(spec_format_address(protocol, network_id, account)) == Some(
            (network_id, account),
        ),
{
    lemma_split_of_format(protocol, network_id, account);
}

/// What parsing accepts was written by formatting: the string is the address
/// of the account on the network id under the protocol that stands before
/// its first `://`, and the network id is not empty and holds no slash.
pub proof fn lemma_format_of_parse(s: Seq<char>)
    requires
        spec_parse_protocol_address(s) is Some,
    ensures
        ({
            let parts = split_address(s)->0;
            &&& spec_parse_protocol_address(s) == Some((parts.network_id, parts.account))
            &&& s == spec_format_address(parts.protocol, parts.network_id, parts.account)
            &&& parts.protocol.len() > 0
            &&& parts.network_id.len() > 0
            &&& has_no_slash(parts.network_id)
        }),
{
    let parts = split_address(s)->0;
    lemma_find(s, scheme_separator(), 0);
    let i = find(s, scheme_separator(), 0)->0;
    let rest = s.skip(i + 3);
    lemma_find(rest, path_separator(), 0);
    let j = find(rest, path_separator(), 0)->0;
    assert(s =~= s.take(i) + s.subrange(i, i + 3) + rest);
    assert(rest =~= rest.take(j) + rest.subrange(j, j + 1) + rest.skip(j + 1));
    assert(s =~= spec_format_address(parts.protocol, parts.network_id, parts.account));
    assert forall|k: int| 0 <= k < parts.network_id.len() implies #[trigger] parts.network_id[k]
        != '/' by {
        if parts.network_id[k] == '/' {
            assert(rest.subrange(k, k + 1) =~= path_separator());
            assert(occurs_at(rest, path_separator(), k));
        }
    }
}

} // verus!
