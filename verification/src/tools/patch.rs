//! Exact-match patching: an edit is a literal `before` block and a literal
//! `after` block, and it is applied only where `before` occurs exactly once.

use crate::text::{
    chars_of, count_from, count_occurrences, decimal, decimal_string, find, first_match,
    lemma_count_from_first, lemma_first_match, match_step, occurrences, occurs_at, replace_first,
    splice_at, string_of,
};
use crate::tools::types::PatchError;
use vstd::prelude::*;
use vstd::string::StringExecFns;

verus! {

/// The detail text of a rejected patch whose `before` block does not occur.
pub open spec fn not_found_detail() -> Seq<char> {
    "exact 'before' block not found in file"@
}

/// The count that a rejection carries: the number of occurrences, and the
/// largest count that can be carried where there are more.
pub open spec fn shown_count(n: nat) -> u32 {
    if n > 0xFFFF_FFFF {
        0xFFFF_FFFFu32
    } else {
        n as u32
    }
}

/// What `apply_exact_patch` owes for a file `current`: the new content where
/// `before` occurs exactly once, and the matching error otherwise.
pub open spec fn patch_result_ok(
    path: Seq<char>,
    current: Seq<char>,
    before: Seq<char>,
    after: Seq<char>,
    r: Result<String, PatchError>,
) -> bool {
    let n = occurrences(current, before);
    match r {
        Ok(new_content) => n == 1 && new_content@ == replace_first(current, before, after),
        Err(PatchError::BeforeBlockNotFound { path: p, detail }) => n == 0 && p@ == path
            && detail@ == not_found_detail(),
        Err(PatchError::AmbiguousPatch { path: p, count }) => n >= 2 && p@ == path && count
            == shown_count(n),
        Err(_) => false,
    }
}

/// Decides a patch on the current content of a file. The content changes
/// only where `before` occurs exactly once; then that occurrence is replaced
/// by `after`. No occurrence and several occurrences are both rejected, and
/// the rejection says which. The rejection carries the exact count up to
/// `u32::MAX`, and `u32::MAX` above that.
pub fn apply_exact_patch(path: &str, current: &str, before: &str, after: &str) -> (r: Result<
    String,
    PatchError,
>)
    ensures
        patch_result_ok(path@, current@, before@, after@, r),
{
    let hay = chars_of(current);
    let needle = chars_of(before);
    let count = count_occurrences(&hay, &needle);
    if count == 0 {
        return Err(
            PatchError::BeforeBlockNotFound {
                path: String::from_str(path),
                detail: String::from_str("exact 'before' block not found in file"),
            },
        );
    }
    if count > 1 {
        return Err(
            PatchError::AmbiguousPatch {
                path: String::from_str(path),
                count: if count > 0xFFFF_FFFF {
                    0xFFFF_FFFF
                } else {
                    count as u32
                },
            },
        );
    }
    let with = chars_of(after);
    proof {
        lemma_count_from_first(hay@, needle@, 0);
        lemma_first_match(hay@, needle@, 0);
    }
    match find(&hay, &needle) {
        Some(p) => Ok(string_of(&splice_at(&hay, p, needle.len(), &with))),
        None => Ok(string_of(&hay)),
    }
}

/// The message of a rollback that finds `after` more than once.
pub open spec fn ambiguous_rollback_message(n: nat) -> Seq<char> {
    "ambiguous rollback: after occurs "@ + decimal(n) + " times"@
}

/// What `rollback_content` owes: the restored content where `after` occurs
/// exactly once, and the matching message otherwise.
pub open spec fn rollback_result_ok(
    current: Seq<char>,
    before: Seq<char>,
    after: Seq<char>,
    r: Result<String, String>,
) -> bool {
    let n = occurrences(current, after);
    match r {
        Ok(restored) => n == 1 && restored@ == replace_first(current, after, before),
        Err(message) => if n == 0 {
            message@ == "after block not found in file (cannot rollback)"@
        } else {
            n >= 2 && message@ == ambiguous_rollback_message(n)
        },
    }
}

/// Undoes one patch on the current content of a file: the single occurrence
/// of `after` is replaced by `before`.
pub fn rollback_content(current: &str, before: &str, after: &str) -> (r: Result<String, String>)
    ensures
        rollback_result_ok(current@, before@, after@, r),
{
    let hay = chars_of(current);
    let needle = chars_of(after);
    let count = count_occurrences(&hay, &needle);
    if count == 0 {
        return Err(String::from_str("after block not found in file (cannot rollback)"));
    }
    if count > 1 {
        let mut message = String::from_str("ambiguous rollback: after occurs ");
        let digits = decimal_string(count);
        message.append(digits.as_str());
        message.append(" times");
        return Err(message);
    }
    let with = chars_of(before);
    proof {
        lemma_count_from_first(hay@, needle@, 0);
        lemma_first_match(hay@, needle@, 0);
    }
    match find(&hay, &needle) {
        Some(p) => Ok(string_of(&splice_at(&hay, p, needle.len(), &with))),
        None => Ok(string_of(&hay)),
    }
}

/// Nothing occurs at or after `from` exactly when the count from there is zero.
pub proof fn lemma_count_from_zero(hay: Seq<char>, needle: Seq<char>, from: int)
    requires
        0 <= from,
    ensures
        count_from(hay, needle, from) == 0 <==> forall|j: int|
            from <= j ==> !occurs_at(hay, needle, j),
{
    lemma_first_match(hay, needle, from);
    lemma_count_from_first(hay, needle, from);
}

/// A patch whose `before` block occurs exactly once changes the file in that
/// one place and nowhere else: with `p` the place of the occurrence, the file
/// is `prefix + before + suffix`, the patched file is `prefix + after +
/// suffix`, `before` occurs nowhere to the left of `p`, and nowhere from the
/// end of the occurrence on.
pub proof fn law_sole_occurrence_replaced(hay: Seq<char>, before: Seq<char>, after: Seq<char>)
    requires
        occurrences(hay, before) == 1,
    ensures
        first_match(hay, before, 0) is Some,
        ({
            let p = first_match(hay, before, 0)->0;
            let prefix = hay.subrange(0, p);
            let suffix = hay.subrange(p + before.len(), hay.len() as int);
            &&& 0 <= p <= hay.len() - before.len()
            &&& hay == prefix + before + suffix
            &&& replace_first(hay, before, after) == prefix + after + suffix
            &&& forall|j: int| j < p ==> !occurs_at(hay, before, j)
            &&& forall|j: int| p + match_step(before) <= j ==> !occurs_at(hay, before, j)
        }),
{
    lemma_first_match(hay, before, 0);
    lemma_count_from_first(hay, before, 0);
    let p = first_match(hay, before, 0)->0;
    lemma_count_from_zero(hay, before, p + match_step(before));
    let prefix = hay.subrange(0, p);
    let suffix = hay.subrange(p + before.len(), hay.len() as int);
    assert(hay =~= prefix + hay.subrange(p, p + before.len()) + suffix);
}

/// A patch that is rejected leaves the content as it is: with no occurrence
/// of `before`, replacing changes nothing.
pub proof fn law_no_occurrence_no_change(hay: Seq<char>, before: Seq<char>, after: Seq<char>)
    requires
        occurrences(hay, before) == 0,
    ensures
        replace_first(hay, before, after) == hay,
{
    lemma_count_from_first(hay, before, 0);
}

/// The `after` block stands in the patched file where `before` stood.
pub proof fn lemma_after_occurs_where_put(hay: Seq<char>, before: Seq<char>, after: Seq<char>)
    requires
        first_match(hay, before, 0) is Some,
    ensures
        occurs_at(replace_first(hay, before, after), after, first_match(hay, before, 0)->0),
{
    lemma_first_match(hay, before, 0);
    let p = first_match(hay, before, 0)->0;
    let mid = replace_first(hay, before, after);
    assert(mid.subrange(p, p + after.len()) =~= after);
}

/// Round trip. Patching `before` into `after` and then `after` back into
/// `before` restores the file, provided both patches apply and the leftmost
/// occurrence of `after` in the patched file is the one that the first patch
/// put there.
pub proof fn law_patch_round_trip(hay: Seq<char>, before: Seq<char>, after: Seq<char>)
    requires
        occurrences(hay, before) == 1,
        occurrences(replace_first(hay, before, after), after) == 1,
        first_match(replace_first(hay, before, after), after, 0) == first_match(hay, before, 0),
    ensures
        replace_first(replace_first(hay, before, after), after, before) == hay,
{
    law_sole_occurrence_replaced(hay, before, after);
    let p = first_match(hay, before, 0)->0;
    let mid = replace_first(hay, before, after);
    let prefix = hay.subrange(0, p);
    let suffix = hay.subrange(p + before.len(), hay.len() as int);
    assert(mid.subrange(0, p) =~= prefix);
    assert(mid.subrange(p + after.len(), mid.len() as int) =~= suffix);
}

/// Round trip where `after` occurs at a single place of the patched file:
/// then the second patch applies, and it restores the file.
pub proof fn law_patch_round_trip_unique(hay: Seq<char>, before: Seq<char>, after: Seq<char>)
    requires
        occurrences(hay, before) == 1,
        forall|i: int, j: int|
            occurs_at(replace_first(hay, before, after), after, i) && occurs_at(
                replace_first(hay, before, after),
                after,
                j,
            ) ==> i == j,
    ensures
        occurrences(replace_first(hay, before, after), after) == 1,
        replace_first(replace_first(hay, before, after), after, before) == hay,
{
    lemma_count_from_first(hay, before, 0);
    lemma_after_occurs_where_put(hay, before, after);
    let p = first_match(hay, before, 0)->0;
    let mid = replace_first(hay, before, after);
    lemma_first_match(mid, after, 0);
    lemma_count_from_first(mid, after, 0);
    lemma_count_from_zero(mid, after, p + match_step(after));
    law_patch_round_trip(hay, before, after);
}

} // verus!
