//! Signature classifier: a pure, case-sensitive substring match of a
//! connection's initial bytes against a fixed set of scanner signatures.

use vstd::prelude::*;
use vstd::string::StrSliceExecFns;

verus! {

/// The two outcomes of classifying a connection's initial data.
#[derive(Clone, Copy, Debug, PartialEq, Eq, Structural)]
pub enum Classification {
    Scan,
    Benign,
}

/// `needle` occurs in `haystack` starting at position `i`.
pub open spec fn contains_at(haystack: Seq<char>, needle: Seq<char>, i: int) -> bool {
    0 <= i && i + needle.len() <= haystack.len() && haystack.subrange(
        i,
        i + needle.len(),
    ) == needle
}

/// `needle` occurs somewhere in `haystack`.
pub open spec fn contains_seq(haystack: Seq<char>, needle: Seq<char>) -> bool {
    exists|i: int| contains_at(haystack, needle, i)
}

/// Case-sensitive substring search: does `needle` occur in `haystack`?
pub fn contains_substring(haystack: &str, needle: &str) -> (r: bool)
    ensures
        r == contains_seq(haystack@, needle@),
{
    let h_len: usize = haystack.unicode_len();
    let n_len: usize = needle.unicode_len();
    if n_len == 0 {
        proof {
            assert(haystack@.subrange(0, 0) =~= needle@);
            assert(contains_at(haystack@, needle@, 0));
        }
        return true;
    }
    if n_len > h_len {
        proof {
            assert(forall|t: int| !contains_at(haystack@, needle@, t));
        }
        return false;
    }
    let mut i: usize = 0;
    while i <= h_len - n_len
        invariant
            needle@.len() == n_len,
            haystack@.len() == h_len,
            0 < n_len <= h_len,
            i <= h_len - n_len + 1,
            forall|t: int| 0 <= t < i ==> !contains_at(haystack@, needle@, t),
        decreases h_len - n_len + 1 - i,
    {
        let mut j: usize = 0;
        let mut is_match = true;
        while j < n_len
            invariant
                needle@.len() == n_len,
                haystack@.len() == h_len,
                0 < n_len,
                i + n_len <= h_len,
                j <= n_len,
                is_match ==> forall|u: int| 0 <= u < j ==> haystack@[i + u] == needle@[u],
                !is_match ==> !contains_at(haystack@, needle@, i as int),
            decreases n_len - j,
        {
            if haystack.get_char(i + j) != needle.get_char(j) {
                proof {
                    if contains_at(haystack@, needle@, i as int) {
                        assert(haystack@.subrange(i as int, i + needle@.len())[j as int]
                            == needle@[j as int]);
                    }
                }
                is_match = false;
                j = n_len;
            } else {
                j = j + 1;
            }
        }
        if is_match {
            proof {
                assert forall|u: int| 0 <= u < needle@.len() implies haystack@.subrange(
                    i as int,
                    i + needle@.len(),
                )[u] == needle@[u] by {}
                assert(haystack@.subrange(i as int, i + needle@.len()) =~= needle@);
                assert(contains_at(haystack@, needle@, i as int));
            }
            return true;
        }
        i = i + 1;
    }
    proof {
        assert forall|t: int| !contains_at(haystack@, needle@, t) by {
            if 0 <= t < i {
            } else {
            }
        }
    }
    false
}

/// The fixed signature set, in matching order: a tool-name token, a
/// scanning-library user-agent token, and the scripting-engine user agent.
pub open spec fn spec_signatures() -> Seq<Seq<char>> {
    seq![
        "Nmap"@,
        "libwww-perl"@,
        "Mozilla/5.0 (compatible; Nmap Scripting Engine; http://nmap.org/book/nse.html)"@,
    ]
}

/// The signature set as executable data; extending it needs no logic change.
pub fn signature_list() -> (v: Vec<&'static str>)
    ensures
        v@.len() == spec_signatures().len(),
        forall|k: int| 0 <= k < v@.len() ==> #[trigger] v@[k]@ == spec_signatures()[k],
{
    let mut v: Vec<&'static str> = Vec::new();
    v.push("Nmap");
    v.push("libwww-perl");
    v.push("Mozilla/5.0 (compatible; Nmap Scripting Engine; http://nmap.org/book/nse.html)");
    v
}

/// The fragment holds at least one configured signature.
pub open spec fn spec_is_scan(fragment: Seq<char>) -> bool {
    exists|k: int|
        0 <= k < spec_signatures().len() && contains_seq(fragment, spec_signatures()[k])
}

/// The classification a fragment receives: `Scan` exactly when it holds a
/// configured signature, `Benign` otherwise.
pub open spec fn spec_classify(fragment: Seq<char>) -> Classification {
    if spec_is_scan(fragment) {
        Classification::Scan
    } else {
        Classification::Benign
    }
}

/// Does the request hold one of the configured scanner signatures?
/// First match wins; matching is exact and case-sensitive.
pub fn detect_nmap_scan(request: &str) -> (r: bool)
    ensures
        r == spec_is_scan(request@),
{
    let signatures = signature_list();
    let mut k: usize = 0;
    while k < signatures.len()
        invariant
            signatures@.len() == spec_signatures().len(),
            forall|t: int|
                0 <= t < signatures@.len() ==> #[trigger] signatures@[t]@ == spec_signatures()[t],
            k <= signatures@.len(),
            forall|t: int| 0 <= t < k ==> !contains_seq(request@, spec_signatures()[t]),
        decreases signatures@.len() - k,
    {
        if contains_substring(request, signatures[k]) {
            return true;
        }
        k = k + 1;
    }
    false
}

/// Classify a decoded request fragment. The fragment may be empty or
/// arbitrarily short or garbled; classification never fails.
pub fn classify(fragment: &str) -> (c: Classification)
    ensures
        c == spec_classify(fragment@),
{
    if detect_nmap_scan(fragment) {
        Classification::Scan
    } else {
        Classification::Benign
    }
}

} // verus!
