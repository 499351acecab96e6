//! The data handed to the library by the fetch stage.
//!
//! The listing call returns threads whose nested fields may each be
//! absent: the thread identifier, the thread snippet, the top-level
//! comment, the comment snippet and the display text are all optional. A
//! thread missing any link of that chain carries no classifiable comment
//! and is skipped, never treated as an error. Extraction resolves the
//! chain in one place and yields a full [`CommentRecord`] or nothing.

use vstd::prelude::*;

verus! {

/// Snippet of a top-level comment; the display text may be absent.
pub struct CommentSnippetData {
    pub text_display: Option<String>,
}

/// A top-level comment; its snippet may be absent.
pub struct CommentData {
    pub snippet: Option<CommentSnippetData>,
}

/// Snippet of a comment thread; the top-level comment may be absent.
pub struct ThreadSnippetData {
    pub top_level_comment: Option<CommentData>,
}

/// One comment thread as listed for a video; both the thread identifier
/// and the snippet may be absent.
pub struct CommentThreadData {
    pub id: Option<String>,
    pub snippet: Option<ThreadSnippetData>,
}

/// The listing response; the sequence of threads may be absent.
pub struct CommentThreadListData {
    pub items: Option<Vec<CommentThreadData>>,
}

/// A fully resolved comment: its identifier and its display text.
pub struct CommentRecord {
    pub id: String,
    pub text: String,
}

/// The record a thread resolves to: its identifier and display text,
/// or nothing when any link of the optional chain is absent.
pub open spec fn extract_record_spec(t: CommentThreadData) -> Option<CommentRecord> {
    match t.snippet {
        Some(thread_snippet) => match thread_snippet.top_level_comment {
            Some(comment) => match comment.snippet {
                Some(comment_snippet) => match comment_snippet.text_display {
                    Some(text) => match t.id {
                        Some(id) => Some(CommentRecord { id, text }),
                        None => None,
                    },
                    None => None,
                },
                None => None,
            },
            None => None,
        },
        None => None,
    }
}

/// Resolves the optional chain of a thread: returns the comment record
/// exactly when the identifier and every nested snippet field down to
/// the display text are present.
pub fn extract_record(t: &CommentThreadData) -> (r: Option<CommentRecord>)
    ensures
        r == extract_record_spec(*t),
{
    match (&t.id, &t.snippet) {
        (Some(id), Some(thread_snippet)) => match &thread_snippet.top_level_comment {
            Some(comment) => match &comment.snippet {
                Some(comment_snippet) => match &comment_snippet.text_display {
                    Some(text) => Some(CommentRecord { id: id.clone(), text: text.clone() }),
                    None => None,
                },
                None => None,
            },
            None => None,
        },
        _ => None,
    }
}

} // verus!
