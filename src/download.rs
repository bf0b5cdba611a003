//! Streaming a remote file into a local sink, chunk by chunk.
//!
//! The download is a state machine. The caller fetches the descriptor's
//! endpoint, hands over each chunk that arrives, writes the bytes it is given
//! back to the sink, and shows the progress it is told.

use crate::error::DxError;
use crate::location::{is_absolute, join, join_path};
use crate::text::{quote, quoted};
use crate::upload::flatten;
use vstd::prelude::*;

verus! {

/// What the transport or the sink reported.
pub enum DownloadEvent {
    /// The next chunk of the response body arrived.
    Chunk(Vec<u8>),
    /// The response body ended.
    End,
    /// The response body could not be read further.
    StreamFailed,
    /// The sink refused a write.
    WriteFailed,
}

/// What the caller does next.
pub enum DownloadStep {
    /// Append `bytes` to the sink, show `written` of the total as progress,
    /// then hand the next event to `state`.
    Write { state: StreamedDownload, bytes: Vec<u8>, written: u64 },
    /// Every byte of the body is in the sink.
    Done,
    /// The download stopped; the sink holds what was written before.
    Failed(DxError),
}

/// A download in progress.
pub struct StreamedDownload {
    total: u64,
    written: u64,
    received: Ghost<Seq<Seq<u8>>>,
}

/// The bytes counted as written after `len` more arrive: capped at the total.
pub open spec fn advanced(written: u64, len: nat, total: u64) -> u64 {
    if written + len >= total {
        total
    } else {
        (written + len) as u64
    }
}

impl StreamedDownload {
    #[verifier::type_invariant]
    spec fn well_formed(self) -> bool {
        self.written <= self.total
    }

    /// The content length that the transport announced.
    pub closed spec fn total(&self) -> u64 {
        self.total
    }

    /// The progress reported so far.
    pub closed spec fn written(&self) -> u64 {
        self.written
    }

    /// Every byte handed to the sink so far, in order.
    pub closed spec fn sunk(&self) -> Seq<u8> {
        flatten(self.received@)
    }

    /// The chunks of the body received so far, in order.
    pub closed spec fn received(&self) -> Seq<Seq<u8>> {
        self.received@
    }

    /// The sink holds the chunks received, end to end.
    pub proof fn lemma_sunk_is_received(&self)
        ensures
            self.sunk() == flatten(self.received()),
    {
    }

    /// Starts streaming the body fetched from `url`. Without a known content
    /// length the download fails at once rather than run without a bound.
    pub fn start(url: &str, content_length: Option<u64>) -> (r: Result<StreamedDownload, DxError>)
        ensures
            match content_length {
                None => r matches Err(DxError::TransportFailure(m))
                    && m@ == no_length_message(url@),
                Some(n) => r matches Ok(d) && d.total() == n && d.written() == 0
                    && d.received() == Seq::<Seq<u8>>::empty()
                    && d.sunk() == Seq::<u8>::empty(),
            },
    {
        match content_length {
            None => Err(DxError::TransportFailure(no_length_text(url))),
            Some(n) => Ok(
                StreamedDownload { total: n, written: 0, received: Ghost(Seq::empty()) },
            ),
        }
    }

    /// Takes the next event. A chunk is handed back whole to be written, in
    /// order, with the progress after it; the end of the body finishes the
    /// download; a failure of the transport or of the sink stops it with a
    /// transport failure, and nothing more is written.
    pub fn step(self, event: DownloadEvent) -> (r: DownloadStep)
        ensures
            match event {
                DownloadEvent::Chunk(b) => r matches DownloadStep::Write { state, bytes, written }
                    && bytes@ == b@
                    && written == advanced(self.written(), b@.len(), self.total())
                    && state.written() == written
                    && state.total() == self.total()
                    && state.received() == self.received().push(b@)
                    && state.sunk() == self.sunk() + b@,
                DownloadEvent::End => r is Done,
                DownloadEvent::StreamFailed => r matches DownloadStep::Failed(
                    DxError::TransportFailure(m),
                ) && m@ == stream_failure_message(),
                DownloadEvent::WriteFailed => r matches DownloadStep::Failed(
                    DxError::TransportFailure(m),
                ) && m@ == write_failure_message(),
            },
    {
        proof {
            use_type_invariant(&self);
        }
        match event {
            DownloadEvent::Chunk(b) => {
                let len = b.len() as u64;
                let written = if len >= self.total - self.written {
                    self.total
                } else {
                    self.written + len
                };
                let state = StreamedDownload {
                    total: self.total,
                    written,
                    received: Ghost(self.received@.push(b@)),
                };
                proof {
                    assert(state.received@.drop_last() =~= self.received@);
                }
                DownloadStep::Write { state, bytes: b, written }
            },
            DownloadEvent::End => DownloadStep::Done,
            DownloadEvent::StreamFailed => DownloadStep::Failed(
                DxError::TransportFailure(stream_failure_text()),
            ),
            DownloadEvent::WriteFailed => DownloadStep::Failed(
                DxError::TransportFailure(write_failure_text()),
            ),
        }
    }
}

/// The message for a body whose length the transport did not announce.
pub open spec fn no_length_message(url: Seq<char>) -> Seq<char> {
    "Failed to get content length from '"@ + url + "'"@
}

/// The message for a body that broke off.
pub open spec fn stream_failure_message() -> Seq<char> {
    "Error while downloading file"@
}

/// The message for a sink that refused a write.
pub open spec fn write_failure_message() -> Seq<char> {
    "Error while writing to file"@
}

fn no_length_text(url: &str) -> (r: String)
    ensures
        r@ == no_length_message(url@),
{
    let mut m = String::from_str("Failed to get content length from '");
    m.append(url);
    m.append("'");
    m
}

fn stream_failure_text() -> (r: String)
    ensures
        r@ == stream_failure_message(),
{
    String::from_str("Error while downloading file")
}

fn write_failure_text() -> (r: String)
    ensures
        r@ == write_failure_message(),
{
    String::from_str("Error while writing to file")
}


/// Where a downloaded file is written: `-` stands for standard output;
/// otherwise the output name if given, else the file's own name, else its
/// identifier, placed under `outdir` unless it is absolute.
pub open spec fn target_path(
    outdir: Seq<char>,
    output: Option<String>,
    name: Option<String>,
    file_id: Seq<char>,
) -> Seq<char> {
    let chosen = match output {
        Some(o) => o@,
        None => match name {
            Some(n) => n@,
            None => file_id,
        },
    };
    if output is Some && chosen == "-"@ {
        chosen
    } else if is_absolute(chosen) {
        chosen
    } else {
        join(outdir, chosen)
    }
}

/// Where a downloaded file is written.
pub fn download_target(
    outdir: &str,
    output: &Option<String>,
    name: &Option<String>,
    file_id: &str,
) -> (r: String)
    ensures
        r@ == target_path(outdir@, *output, *name, file_id@),
{
    let chosen: &str = match output {
        Some(o) => o.as_str(),
        None => match name {
            Some(n) => n.as_str(),
            None => file_id,
        },
    };
    let n = chosen.unicode_len();
    if output.is_some() && crate::text::same_text(chosen, "-") {
        String::from_str(chosen)
    } else if n > 0 && chosen.get_char(0) == '/' {
        String::from_str(chosen)
    } else {
        join_path(outdir, chosen)
    }
}

/// Whether the download may write to `target`: standard output always, a
/// file that is already there only when forced.
pub fn may_write(target: &str, exists: bool, force: bool) -> (r: Result<(), String>)
    ensures
        (target@ != "-"@ && exists && !force) <==> r is Err,
        r matches Err(m) ==> m@ == quoted("Use force to overwrite \""@, target@),
{
    if !crate::text::same_text(target, "-") && exists && !force {
        Err(quote("Use force to overwrite \"", target))
    } else {
        Ok(())
    }
}


/// `s` without its leading `/`, if it has one.
pub open spec fn strip_root(s: Seq<char>) -> Seq<char> {
    if s.len() > 0 && s[0] == '/' {
        s.skip(1)
    } else {
        s
    }
}

/// The local folder that files of the remote folder `remote` go to when a
/// folder is downloaded into `outdir`: the remote folder's path, without its
/// root, under `outdir`.
pub fn local_folder(outdir: &str, remote: &str) -> (r: String)
    ensures
        r@ == join(outdir@, strip_root(remote@)),
{
    let n = remote.unicode_len();
    let rel = if n > 0 && remote.get_char(0) == '/' {
        remote.substring_char(1, n)
    } else {
        remote
    };
    join_path(outdir, rel)
}

/// The message for a folder named without asking for a recursive download.
pub open spec fn folder_needs_recursion_message() -> Seq<char> {
    "Use recursive flag to download diretory"@
}

/// Whether a folder may be downloaded: only when recursion was asked for.
pub fn may_download_folder(recursive: bool) -> (r: Result<(), String>)
    ensures
        recursive <==> r is Ok,
        r matches Err(m) ==> m@ == folder_needs_recursion_message(),
{
    if recursive {
        Ok(())
    } else {
        Err(String::from_str("Use recursive flag to download diretory"))
    }
}


/// Whether `path` is one of the folders listed.
pub fn names_folder(folders: &Vec<String>, path: &str) -> (r: bool)
    ensures
        r == exists|i: int| 0 <= i < folders@.len() && (#[trigger] folders@[i])@ == path@,
{
    let mut i: usize = 0;
    while i < folders.len()
        invariant
            i <= folders@.len(),
            forall|j: int| 0 <= j < i ==> (#[trigger] folders@[j])@ != path@,
        decreases folders@.len() - i,
    {
        if crate::text::same_text(folders[i].as_str(), path) {
            return true;
        }
        i = i + 1;
    }
    false
}

/// What to download among the files found at a path.
#[derive(Debug, Clone, PartialEq, Eq)]
pub enum FileChoice {
    /// Nothing was found: there is nothing to download.
    Nothing,
    /// Exactly one file was found: download it.
    One(String),
    /// Several files were found: the user picks one.
    Ask,
}

/// What to download among the files found at a path.
pub fn choose_file(found: &Vec<String>) -> (r: FileChoice)
    ensures
        if found@.len() == 0 {
            r == FileChoice::Nothing
        } else if found@.len() == 1 {
            r matches FileChoice::One(id) && id@ == found@[0]@
        } else {
            r == FileChoice::Ask
        },
{
    if found.len() == 0 {
        FileChoice::Nothing
    } else if found.len() == 1 {
        FileChoice::One(found[0].clone())
    } else {
        FileChoice::Ask
    }
}

} // verus!
