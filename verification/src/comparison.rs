//! Extraction of the two sides of a failed equality assertion from the text
//! that the test printed.

use crate::text::{
    chars_of, find_from, find_in, has_substring, lemma_find_from_is_first,
    lemma_occurrence_is_found, occurs_at,
};
use vstd::prelude::*;

verus! {

/// The two values of a failed comparison in `msg`.
///
/// The left value stands between the first `` left: ` `` and the first `` `, ``
/// found from that marker on; the right value between the first
/// `` right: ` `` and the first `` `',  `` found from that marker on. There is
/// a result when all four are found and each end mark begins after its
/// marker.
pub open spec fn comparison(msg: Seq<char>) -> Option<(Seq<char>, Seq<char>)> {
    match (find_from(msg, "left: `"@, 0), find_from(msg, "right: `"@, 0)) {
        (Some(left), Some(right)) => match (
            find_from(msg, "`,"@, left),
            find_from(msg, "`', "@, right),
        ) {
            (Some(left_end), Some(right_end)) => {
                let left_start = left + "left: `"@.len();
                let right_start = right + "right: `"@.len();
                if left_start <= left_end && right_start <= right_end {
                    Some((msg.subrange(left_start, left_end), msg.subrange(right_start, right_end)))
                } else {
                    None
                }
            },
            _ => None,
        },
        _ => None,
    }
}

/// Finds the left and right values of a failed comparison in `msg`.
pub fn find_comparison<'a>(msg: &'a str) -> (found: Option<(&'a str, &'a str)>)
    ensures
        match found {
            Some((left, right)) => comparison(msg@) == Some((left@, right@)),
            None => comparison(msg@) is None,
        },
{
    let chars = chars_of(msg);
    let left_mark = chars_of("left: `");
    let right_mark = chars_of("right: `");
    let left_index = find_in(&chars, &left_mark, 0);
    let right_index = find_in(&chars, &right_mark, 0);
    match (left_index, right_index) {
        (Some(left), Some(right)) => {
            proof {
                lemma_find_from_is_first(msg@, "left: `"@, 0);
                lemma_find_from_is_first(msg@, "right: `"@, 0);
                assert(occurs_at(msg@, "left: `"@, left as int));
                assert(occurs_at(msg@, "right: `"@, right as int));
                assert(chars.len() == msg@.len());
            }
            let left_start = left + left_mark.len();
            let right_start = right + right_mark.len();
            let left_stop = find_in(&chars, &chars_of("`,"), left);
            let right_stop = find_in(&chars, &chars_of("`', "), right);
            match (left_stop, right_stop) {
                (Some(left_end), Some(right_end)) => {
                    proof {
                        lemma_find_from_is_first(msg@, "`,"@, left as int);
                        lemma_find_from_is_first(msg@, "`', "@, right as int);
                    }
                    if left_start <= left_end && right_start <= right_end {
                        Some(
                            (
                                msg.substring_char(left_start, left_end),
                                msg.substring_char(right_start, right_end),
                            ),
                        )
                    } else {
                        None
                    }
                },
                _ => None,
            }
        },
        _ => None,
    }
}

/// A text that lacks one of the two markers holds no comparison.
pub proof fn lemma_no_marker_no_comparison(msg: Seq<char>)
    requires
        !has_substring(msg, "left: `"@) || !has_substring(msg, "right: `"@),
    ensures
        comparison(msg) is None,
{
}

/// The values of a comparison stand in the text between their marks: the
/// text holds the left marker, the left value and `` `, `` in a row, and the
/// right marker, the right value and `` `',  `` in a row.
pub proof fn lemma_comparison_is_quoted(msg: Seq<char>, left: Seq<char>, right: Seq<char>)
    requires
        comparison(msg) == Some((left, right)),
    ensures
        has_substring(msg, "left: `"@ + left + "`,"@),
        has_substring(msg, "right: `"@ + right + "`', "@),
{
    let l = find_from(msg, "left: `"@, 0)->0;
    let r = find_from(msg, "right: `"@, 0)->0;
    let le = find_from(msg, "`,"@, l)->0;
    let re = find_from(msg, "`', "@, r)->0;
    lemma_find_from_is_first(msg, "left: `"@, 0);
    lemma_find_from_is_first(msg, "right: `"@, 0);
    lemma_find_from_is_first(msg, "`,"@, l);
    lemma_find_from_is_first(msg, "`', "@, r);
    let whole_left = "left: `"@ + left + "`,"@;
    assert(msg.subrange(l, l + whole_left.len()) =~= msg.subrange(l, l + "left: `"@.len())
        + msg.subrange(l + "left: `"@.len(), le) + msg.subrange(le, le + "`,"@.len()));
    assert(occurs_at(msg, whole_left, l));
    lemma_occurrence_is_found(msg, whole_left, 0, l);
    let whole_right = "right: `"@ + right + "`', "@;
    assert(msg.subrange(r, r + whole_right.len()) =~= msg.subrange(r, r + "right: `"@.len())
        + msg.subrange(r + "right: `"@.len(), re) + msg.subrange(re, re + "`', "@.len()));
    assert(occurs_at(msg, whole_right, r));
    lemma_occurrence_is_found(msg, whole_right, 0, r);
}

} // verus!
