//! Removal of visually obfuscated spam comments from a video's comment
//! threads.
//!
//! The crate holds the verified core of the tool: the obfuscation
//! classifier, the extraction of comment records from partially populated
//! thread data, the selection of flagged comment identifiers, and the
//! bookkeeping of deletion outcomes. Network fetch, deletion calls and
//! authentication live outside the library and hand it plain values.

pub mod classifier;
pub mod pipeline;
pub mod purger;
pub mod records;
