//! Recognizing a rebuilt module image by its file name.
//!
//! The host's watcher thread scans the module directory whenever the
//! filesystem reports a change; the decision of which entry is a fresh
//! build of the game module lives here, over plain strings.

use vstd::assert_by_contradiction;
use vstd::prelude::*;
use vstd::string::StrSliceExecFns;

verus! {

/// `needle` occurs contiguously somewhere in `hay`.
pub open spec fn spec_is_substring(hay: Seq<char>, needle: Seq<char>) -> bool {
    exists|k: int|
        0 <= k && k + needle.len() <= hay.len() && #[trigger] hay.subrange(k, k + needle.len())
            == needle
}

/// Whether two strings hold the same characters.
pub fn str_eq(a: &str, b: &str) -> (r: bool)
    ensures
        r == (a@ == b@),
{
    let alen = a.unicode_len();
    let blen = b.unicode_len();
    if alen != blen {
        return false;
    }
    let mut i: usize = 0;
    while i < alen
        invariant
            0 <= i <= alen,
            alen == a@.len(),
            alen == b@.len(),
            forall|j: int| 0 <= j < i ==> a@[j] == b@[j],
        decreases alen - i,
    {
        if a.get_char(i) != b.get_char(i) {
            return false;
        }
        i = i + 1;
    }
    proof {
        assert(a@ =~= b@);
    }
    true
}

/// Whether `needle` occurs contiguously in `hay`.
pub fn str_contains(hay: &str, needle: &str) -> (r: bool)
    ensures
        r == spec_is_substring(hay@, needle@),
{
    let hlen = hay.unicode_len();
    let nlen = needle.unicode_len();
    if nlen > hlen {
        return false;
    }
    if nlen == 0 {
        proof {
            assert(hay@.subrange(0, 0 + needle@.len() as int) =~= needle@);
        }
        return true;
    }
    let mut k: usize = 0;
    while k <= hlen - nlen
        invariant
            0 <= k <= hlen - nlen + 1,
            1 <= nlen <= hlen,
            hlen == hay@.len(),
            nlen == needle@.len(),
            forall|kk: int|
                0 <= kk < k ==> #[trigger] hay@.subrange(kk, kk + needle@.len()) != needle@,
        decreases hlen - nlen + 1 - k,
    {
        let mut j: usize = 0;
        let mut matched = true;
        while j < nlen
            invariant_except_break
                0 <= j <= nlen,
                matched,
                k + nlen <= hlen,
                hlen == hay@.len(),
                nlen == needle@.len(),
                forall|jj: int| 0 <= jj < j ==> hay@[k + jj] == needle@[jj],
            ensures
                matched ==> forall|jj: int| 0 <= jj < nlen ==> hay@[k + jj] == needle@[jj],
                !matched ==> hay@.subrange(k as int, k + needle@.len()) != needle@,
            decreases nlen - j,
        {
            if hay.get_char(k + j) != needle.get_char(j) {
                proof {
                    assert(hay@.subrange(k as int, k + needle@.len())[j as int] == hay@[k + j]);
                }
                matched = false;
                break;
            }
            j = j + 1;
        }
        if matched {
            proof {
                assert(hay@.subrange(k as int, k + needle@.len()) =~= needle@);
            }
            return true;
        }
        k = k + 1;
    }
    proof {
        assert_by_contradiction!(!spec_is_substring(hay@, needle@), {
            let kk = choose|kk: int|
                0 <= kk && kk + needle@.len() <= hay@.len() && #[trigger] hay@.subrange(
                    kk,
                    kk + needle@.len(),
                ) == needle@;
            assert(hay@.subrange(kk, kk + needle@.len()) != needle@);
        });
    }
    false
}

/// Whether a directory entry is a rebuilt module image: it carries the
/// module's name and the loadable extension, and is not the image that
/// is already running.
pub fn is_updated_module_file(file_name: &str, current_name: &str) -> (r: bool)
    ensures
        r == (spec_is_substring(file_name@, "dutchman_game"@) && spec_is_substring(
            file_name@,
            ".dll"@,
        ) && file_name@ != current_name@),
{
    str_contains(file_name, "dutchman_game") && str_contains(file_name, ".dll") && !str_eq(
        file_name,
        current_name,
    )
}

} // verus!
