//! What the two transfer pipelines do together, stated over their sessions.

use crate::download::StreamedDownload;
use crate::upload::{flatten, ChunkedUpload, UploadPhase};
use vstd::prelude::*;

verus! {

/// Laying out `first` and then `rest` begins with laying out `first`.
proof fn lemma_flatten_prefix(first: Seq<Seq<u8>>, rest: Seq<Seq<u8>>)
    ensures
        flatten(first).is_prefix_of(flatten(first + rest)),
    decreases rest.len(),
{
    if rest.len() == 0 {
        assert(first + rest =~= first);
    } else {
        assert((first + rest).drop_last() =~= first + rest.drop_last());
        lemma_flatten_prefix(first, rest.drop_last());
        assert(flatten(first + rest) == flatten(first + rest.drop_last()) + rest.last());
    }
}

/// Uploading a source and downloading the object again gives back the source:
/// when an upload has reached its close, and a download has received, in any
/// chunking, that upload's parts end to end (what the platform serves for the
/// closed object), the download's sink holds exactly the bytes the upload read.
pub proof fn lemma_round_trip(closing: ChunkedUpload, download: StreamedDownload)
    requires
        closing.phase() == UploadPhase::Closing,
        flatten(download.received()) == flatten(closing.sent()),
    ensures
        download.sunk() == closing.read(),
{
    closing.lemma_closing_holds_source();
    download.lemma_sunk_is_received();
}

/// A download cut off after some chunks leaves in its sink exactly the bytes
/// of the chunks received, and they begin the body whatever would have followed.
pub proof fn lemma_interrupted_prefix(download: StreamedDownload, rest: Seq<Seq<u8>>)
    ensures
        download.sunk() == flatten(download.received()),
        download.sunk().is_prefix_of(flatten(download.received() + rest)),
{
    download.lemma_sunk_is_received();
    lemma_flatten_prefix(download.received(), rest);
}

} // verus!
