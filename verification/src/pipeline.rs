//! Selection of the comments to delete, and the fetch gate.
//!
//! The run is strictly linear: one fetch, one pass of classification,
//! then one deletion attempt per flagged identifier. The fetch outcome
//! gates everything: a failed fetch aborts the run before any
//! classification, while a successful fetch yields the flagged
//! identifiers in fetch order, duplicates kept as they come.

use vstd::prelude::*;

use crate::classifier::contains_unicode_abuse;
use crate::classifier::spec_obfuscated;
use crate::records::CommentThreadData;
use crate::records::CommentThreadListData;
use crate::records::extract_record;
use crate::records::extract_record_spec;

verus! {

/// The identifiers of the flagged comments among a sequence of threads,
/// in fetch order: a thread contributes its identifier exactly when it
/// resolves to a record whose text is obfuscated.
pub open spec fn flagged_ids(threads: Seq<CommentThreadData>) -> Seq<String>
    decreases threads.len(),
{
    if threads.len() == 0 {
        Seq::empty()
    } else {
        let prefix = flagged_ids(threads.drop_last());
        match extract_record_spec(threads.last()) {
            Some(rec) => if spec_obfuscated(rec.text@) {
                prefix.push(rec.id)
            } else {
                prefix
            },
            None => prefix,
        }
    }
}

/// The flagged identifiers of a whole listing response: an absent item
/// list contributes nothing.
pub open spec fn response_flagged_ids(response: CommentThreadListData) -> Seq<String> {
    match response.items {
        Some(items) => flagged_ids(items@),
        None => Seq::empty(),
    }
}

/// Classifies every resolvable comment of the response and returns the
/// identifiers of the flagged ones, in fetch order. Threads missing any
/// nested field are skipped silently.
pub fn collect_flagged_comments(response: &CommentThreadListData) -> (r: Vec<String>)
    ensures
        r@ == response_flagged_ids(*response),
{
    let mut flagged: Vec<String> = Vec::new();
    match &response.items {
        None => {},
        Some(threads) => {
            let n = threads.len();
            let mut i: usize = 0;
            while i < n
                invariant
                    i <= n,
                    n == threads@.len(),
                    flagged@ == flagged_ids(threads@.take(i as int)),
                decreases n - i,
            {
                proof {
                    assert(threads@.take(i + 1).drop_last() =~= threads@.take(i as int));
                    assert(threads@.take(i + 1).last() == threads@[i as int]);
                }
                if let Some(rec) = extract_record(&threads[i]) {
                    if contains_unicode_abuse(rec.text.as_str()) {
                        flagged.push(rec.id);
                    }
                }
                i += 1;
            }
            proof {
                assert(threads@.take(n as int) =~= threads@);
            }
        },
    }
    flagged
}

/// How many threads of a sequence are malformed: they miss a nested
/// field and resolve to no comment record.
pub open spec fn spec_skipped_count(threads: Seq<CommentThreadData>) -> int
    decreases threads.len(),
{
    if threads.len() == 0 {
        0
    } else {
        spec_skipped_count(threads.drop_last()) + if extract_record_spec(threads.last()) is None {
            1int
        } else {
            0int
        }
    }
}

/// A sequence never has more malformed threads than threads, and never
/// a negative count.
pub proof fn lemma_skipped_count_bounds(threads: Seq<CommentThreadData>)
    ensures
        0 <= spec_skipped_count(threads) <= threads.len(),
    decreases threads.len(),
{
    if threads.len() > 0 {
        lemma_skipped_count_bounds(threads.drop_last());
    }
}

/// Counts the threads of the response that were skipped as malformed,
/// so that the final summary can report them apart from the deletion
/// failures; an absent item list has no threads to skip.
pub fn count_skipped_threads(response: &CommentThreadListData) -> (n: usize)
    ensures
        match response.items {
            Some(items) => n == spec_skipped_count(items@),
            None => n == 0,
        },
{
    let mut n: usize = 0;
    match &response.items {
        None => {},
        Some(threads) => {
            let len = threads.len();
            let mut i: usize = 0;
            while i < len
                invariant
                    i <= len,
                    len == threads@.len(),
                    n <= i,
                    n == spec_skipped_count(threads@.take(i as int)),
                decreases len - i,
            {
                proof {
                    assert(threads@.take(i + 1).drop_last() =~= threads@.take(i as int));
                    assert(threads@.take(i + 1).last() == threads@[i as int]);
                    lemma_skipped_count_bounds(threads@.take(i as int));
                }
                if extract_record(&threads[i]).is_none() {
                    n += 1;
                }
                i += 1;
            }
            proof {
                assert(threads@.take(len as int) =~= threads@);
            }
        },
    }
    n
}

/// Gates the run on the fetch outcome: a failed fetch is fatal and is
/// propagated with its cause before any classification; a successful
/// fetch yields exactly the flagged identifiers of its response.
pub fn plan_purge(fetch_outcome: Result<CommentThreadListData, String>) -> (r: Result<
    Vec<String>,
    String,
>)
    ensures
        fetch_outcome matches Err(cause) ==> r == Result::<Vec<String>, String>::Err(cause),
        fetch_outcome matches Ok(response) ==> (r matches Ok(ids) && ids@ == response_flagged_ids(
            response,
        )),
{
    match fetch_outcome {
        Err(cause) => Err(cause),
        Ok(response) => Ok(collect_flagged_comments(&response)),
    }
}

} // verus!
