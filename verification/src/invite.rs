//! Parsing of `host:port:code` invite codes.

use vstd::prelude::*;
use vstd::string::*;

use crate::errors::DarkError;

verus! {

/// An invite granting one-time admission to a darknet: the join
/// server's host and port, and the one-time admission code. Produced
/// once from the raw command-line input and immutable afterwards.
#[derive(Debug)]
pub struct InviteCode {
    pub host: String,
    pub port: String,
    pub code: String,
}

/// `i` and `j` are the positions of the only two `:` characters of
/// `s`, and the three fields they cut `s` into are all non-empty.
pub open spec fn invite_split_at(s: Seq<char>, i: int, j: int) -> bool {
    &&& 0 < i
    &&& i + 1 < j
    &&& j + 1 < s.len()
    &&& s[i] == ':'
    &&& s[j] == ':'
    &&& forall|k: int| 0 <= k < s.len() && s[k] == ':' ==> k == i || k == j
}

/// `s` has the shape `host:port:code`: exactly two `:` characters,
/// cutting it into three non-empty fields.
pub open spec fn wellformed_invite(s: Seq<char>) -> bool {
    exists|i: int, j: int| invite_split_at(s, i, j)
}

/// Split a raw invite string on `:`. Succeeds exactly when the string
/// consists of three non-empty colon-separated fields; no
/// normalization (case, whitespace) is performed. Every other input
/// fails with `MalformedInvite`.
pub fn parse_invite(s: &str) -> (r: Result<InviteCode, DarkError>)
    ensures
        match r {
            Ok(ic) => exists|i: int, j: int|
                {
                    &&& #[trigger] invite_split_at(s@, i, j)
                    &&& ic.host@ == s@.subrange(0, i)
                    &&& ic.port@ == s@.subrange(i + 1, j)
                    &&& ic.code@ == s@.subrange(j + 1, s@.len() as int)
                },
            Err(e) => e == DarkError::MalformedInvite && !wellformed_invite(s@),
        },
{
    let n: usize = s.unicode_len();
    let mut idx: usize = 0;
    // Positions of the first three `:` characters, and how many of
    // them were seen (saturating at 3: three are already too many).
    let mut count: usize = 0;
    let mut p1: usize = 0;
    let mut p2: usize = 0;
    let mut p3: usize = 0;
    while idx < n
        invariant
            n == s@.len(),
            idx <= n,
            count <= 3,
            count == 0 ==> forall|k: int| 0 <= k < idx ==> s@[k] != ':',
            count == 1 ==> p1 < idx && s@[p1 as int] == ':' && forall|k: int|
                0 <= k < idx && k != p1 ==> s@[k] != ':',
            count == 2 ==> p1 < p2 < idx && s@[p1 as int] == ':' && s@[p2 as int] == ':'
                && forall|k: int| 0 <= k < idx && s@[k] == ':' ==> k == p1 || k == p2,
            count == 3 ==> p1 < p2 < p3 < idx && s@[p1 as int] == ':' && s@[p2 as int] == ':'
                && s@[p3 as int] == ':',
        decreases n - idx,
    {
        let c = s.get_char(idx);
        if c == ':' {
            if count == 0 {
                p1 = idx;
                count = 1;
            } else if count == 1 {
                p2 = idx;
                count = 2;
            } else if count == 2 {
                p3 = idx;
                count = 3;
            }
        }
        idx += 1;
    }
    if count != 2 {
        proof {
            assert forall|i: int, j: int| !invite_split_at(s@, i, j) by {
                if invite_split_at(s@, i, j) {
                    if count == 0 {
                        assert(s@[i] != ':');
                    } else if count == 1 {
                        assert(i == p1 as int);
                        assert(j == p1 as int);
                    } else {
                        assert(p1 as int == i || p1 as int == j);
                        assert(p2 as int == i || p2 as int == j);
                        assert(p3 as int == i || p3 as int == j);
                    }
                }
            }
        }
        return Err(DarkError::MalformedInvite);
    }
    if p1 == 0 || p2 <= p1 + 1 || p2 + 1 >= n {
        proof {
            assert forall|i: int, j: int| !invite_split_at(s@, i, j) by {
                if invite_split_at(s@, i, j) {
                    // The only colons are at p1 < p2, and i < j are
                    // both colons, so (i, j) == (p1, p2); but then one
                    // of the three fields would be empty.
                    assert(i == p1 as int && j == p2 as int);
                }
            }
        }
        return Err(DarkError::MalformedInvite);
    }
    let host = s.substring_char(0, p1).to_owned();
    let port = s.substring_char(p1 + 1, p2).to_owned();
    let code = s.substring_char(p2 + 1, n).to_owned();
    proof {
        assert(invite_split_at(s@, p1 as int, p2 as int));
    }
    Ok(InviteCode { host, port, code })
}

} // verus!

