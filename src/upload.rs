//! Uploading a local source as a sequence of checksummed parts.
//!
//! The upload is a state machine. The caller performs each action it is given
//! (create the object, read the next chunk, send a part, close the object) and
//! hands back the event that followed; the machine decides what comes next.

use crate::error::DxError;
use crate::location::ProjectPath;
use crate::model::{FileCloseOptions, FileNewOptions, FileUploadOptions};
use vstd::prelude::*;

verus! {

/// Size of every chunk read from the source, and so the largest size of a part.
pub const PART_SIZE: usize = 4 * 1024 * 1024;

/// The 128-bit content digest of `data`, as lower-case hex.
pub uninterp spec fn md5_hex(data: Seq<u8>) -> Seq<char>;

/// Relies on `md5::compute` and the lower-case hex formatting of its digest:
/// the digest of exactly these bytes, two hex digits for each of its 16 bytes.
#[verifier::external_body]
fn part_digest(data: &[u8]) -> (r: String)
    ensures
        r@ == md5_hex(data@),
        r@.len() == 32,
{
    format!("{:x}", md5::compute(data))
}

/// Relies on `textnonce::TextNonce::new`: a nonce of 32 characters made of
/// the time and random bytes, fresh on every call.
#[verifier::external_body]
fn fresh_nonce() -> (r: String)
    ensures
        r@.len() == 32,
{
    textnonce::TextNonce::new().into_string()
}

/// The bytes of `parts`, one after another.
pub open spec fn flatten(parts: Seq<Seq<u8>>) -> Seq<u8>
    decreases parts.len(),
{
    if parts.len() == 0 {
        Seq::empty()
    } else {
        flatten(parts.drop_last()) + parts.last()
    }
}

/// A part request that the platform validates against `bytes`:
/// their length, and the digest of exactly those bytes.
pub open spec fn describes_part(options: FileUploadOptions, bytes: Seq<u8>, index: u64) -> bool {
    &&& options.size == bytes.len()
    &&& options.md5@ == md5_hex(bytes)
    &&& options.index == index
}

/// Where an upload stands.
#[derive(Debug, Clone, Copy, PartialEq, Eq, Structural)]
pub enum UploadPhase {
    /// Waiting for the object to be created.
    Creating,
    /// Waiting for the next chunk of the source.
    Reading,
    /// Waiting for a part to be sent.
    Sending,
    /// Waiting for the object to be closed.
    Closing,
}

/// What the caller hands back after performing an action.
pub enum UploadEvent {
    /// The object was created with this identifier.
    Created(String),
    /// The next chunk of the source, at most `PART_SIZE` bytes; empty at its end.
    ChunkRead(Vec<u8>),
    /// The last part was sent.
    PartSent,
    /// The object was closed.
    Closed,
    /// The action failed.
    Failed(DxError),
}

/// What the caller does next.
pub enum UploadAction {
    /// Create the remote object, open and empty.
    CreateObject(FileNewOptions),
    /// Read up to `PART_SIZE` bytes from the source.
    ReadChunk,
    /// Ask for a write target for a part of the object `object_id` with
    /// `options`, then send `bytes` to it.
    SendPart { object_id: String, options: FileUploadOptions, bytes: Vec<u8> },
    /// Close the object.
    Close(FileCloseOptions),
}

/// The outcome of one step.
pub enum UploadStep {
    /// Perform `action`, then hand the event to `state`.
    Act { state: ChunkedUpload, action: UploadAction },
    /// The object with this identifier is closed and readable.
    Done(String),
    /// The upload stopped with this error.
    Failed(DxError),
}

/// Parts as the platform expects them: none longer than `PART_SIZE`, and
/// every one but the last exactly `PART_SIZE` long.
pub open spec fn sized_parts(parts: Seq<Seq<u8>>) -> bool {
    forall|i: int|
        0 <= i < parts.len() ==> (#[trigger] parts[i]).len() <= PART_SIZE && (i + 1 < parts.len()
            ==> parts[i].len() == PART_SIZE)
}

/// Another part may follow `parts`: the last of them, if any, is full.
pub open spec fn open_for_more(parts: Seq<Seq<u8>>) -> bool {
    parts.len() == 0 || parts.last().len() == PART_SIZE
}

/// An upload in progress: the session of one remote object.
pub struct ChunkedUpload {
    phase: UploadPhase,
    object_id: String,
    next_part_index: u64,
    last_part_short: bool,
    pending_len: usize,
    sent: Ghost<Seq<Seq<u8>>>,
    pending: Ghost<Seq<u8>>,
}

impl ChunkedUpload {
    #[verifier::type_invariant]
    spec fn well_formed(self) -> bool {
        &&& self.next_part_index == self.sent@.len() + 1
        &&& forall|i: int| 0 <= i < self.sent@.len() ==> #[trigger] self.sent@[i].len() > 0
        &&& sized_parts(self.sent@)
        &&& self.last_part_short == !open_for_more(self.sent@)
        &&& self.phase == UploadPhase::Sending ==> self.pending@.len() > 0
            && self.pending@.len() <= PART_SIZE && open_for_more(self.sent@)
            && self.pending_len == self.pending@.len()
            && self.next_part_index < u64::MAX
        &&& self.phase == UploadPhase::Creating ==> self.sent@.len() == 0
        &&& self.phase != UploadPhase::Sending ==> self.pending@.len() == 0
    }

    /// The step the upload waits at.
    pub closed spec fn phase(&self) -> UploadPhase {
        self.phase
    }

    /// The remote object's identifier, once created.
    pub closed spec fn object_id(&self) -> Seq<char> {
        self.object_id@
    }

    /// The index that the next part gets; parts are numbered from 1.
    pub closed spec fn next_part_index(&self) -> u64 {
        self.next_part_index
    }

    /// The bytes of the parts sent so far, in index order.
    pub closed spec fn sent(&self) -> Seq<Seq<u8>> {
        self.sent@
    }

    /// The bytes of the part being sent, if one is.
    pub closed spec fn pending(&self) -> Seq<u8> {
        if self.phase == UploadPhase::Sending {
            self.pending@
        } else {
            Seq::empty()
        }
    }

    /// Every byte read from the source so far: the parts sent, then the part
    /// being sent.
    pub closed spec fn read(&self) -> Seq<u8> {
        flatten(self.sent()) + self.pending()
    }

    /// Once an upload is closing, its parts hold, end to end, every byte it read.
    pub proof fn lemma_closing_holds_source(&self)
        requires
            self.phase() == UploadPhase::Closing,
        ensures
            flatten(self.sent()) == self.read(),
    {
        assert(flatten(self.sent@) + Seq::<u8>::empty() =~= flatten(self.sent@));
    }

    /// Starts the upload of a source of `source_len` bytes found at `local_path`,
    /// into the folder `destination`, under `name_override` if one is given and
    /// else under the source's own name. An empty source fails at once, before
    /// anything is asked of the platform.
    pub fn start(
        source_len: u64,
        local_path: &str,
        name_override: Option<String>,
        destination: &ProjectPath,
    ) -> (r: UploadStep)
        ensures
            if source_len == 0 {
                r == UploadStep::Failed(DxError::EmptySource)
            } else {
                r matches UploadStep::Act { state, action } && {
                    &&& state.phase() == UploadPhase::Creating
                    &&& state.sent() == Seq::<Seq<u8>>::empty()
                    &&& state.read() == Seq::<u8>::empty()
                    &&& action matches UploadAction::CreateObject(options) && {
                        &&& options.project@ == destination.project_id@
                        &&& options.folder matches Some(folder) && folder@ == destination.path@
                        &&& options.name matches Some(name) && name@ == upload_name(
                            name_override,
                            local_path@,
                        )
                        &&& options.parents == Some(true)
                        &&& options.hidden == Some(false)
                        &&& options.nonce is Some
                    }
                }
            },
    {
        if source_len == 0 {
            return UploadStep::Failed(DxError::EmptySource);
        }
        let name = choose_name(name_override, local_path);
        let options = FileNewOptions {
            project: destination.project_id.clone(),
            name: Some(name),
            tags: Vec::new(),
            types: Vec::new(),
            hidden: Some(false),
            details: None,
            folder: Some(destination.path.clone()),
            parents: Some(true),
            media: None,
            nonce: Some(fresh_nonce()),
        };
        let state = ChunkedUpload {
            phase: UploadPhase::Creating,
            object_id: String::new(),
            next_part_index: 1,
            last_part_short: false,
            pending_len: 0,
            sent: Ghost(Seq::empty()),
            pending: Ghost(Seq::empty()),
        };
        proof {
            assert(flatten(Seq::<Seq<u8>>::empty()) + Seq::<u8>::empty() =~= Seq::<u8>::empty());
        }
        UploadStep::Act { state, action: UploadAction::CreateObject(options) }
    }

    /// Takes the event that followed the last action.
    ///
    /// A created object is filled part by part: each non-empty chunk becomes the
    /// part with the next index, carrying its length and the digest of exactly its
    /// bytes; an empty chunk ends the source and the object is closed. A chunk
    /// longer than `PART_SIZE`, or a chunk after a part shorter than `PART_SIZE`,
    /// would break the part layout and stops the upload, as does running out of
    /// part indices or an event that does not answer the last action; the object
    /// is then left open. A failure ends the upload with that error.
    pub fn step(self, event: UploadEvent) -> (r: UploadStep)
        ensures
            r matches UploadStep::Act { state, .. } ==> sized_parts(state.sent()),
            match event {
                UploadEvent::Failed(e) => r == UploadStep::Failed(e),
                UploadEvent::Created(id) => if self.phase() == UploadPhase::Creating {
                    r matches UploadStep::Act { state, action } && {
                        &&& action is ReadChunk
                        &&& state.phase() == UploadPhase::Reading
                        &&& state.object_id() == id@
                        &&& state.next_part_index() == 1
                        &&& state.sent() == self.sent()
                        &&& state.read() == self.read()
                    }
                } else {
                    r == UploadStep::Failed(DxError::IncompleteSession)
                },
                UploadEvent::ChunkRead(b) => if self.phase() != UploadPhase::Reading {
                    r == UploadStep::Failed(DxError::IncompleteSession)
                } else if b@.len() == 0 {
                    r matches UploadStep::Act { state, action } && {
                        &&& action matches UploadAction::Close(options) && options.id@ == self.object_id()
                        &&& state.phase() == UploadPhase::Closing
                        &&& state.object_id() == self.object_id()
                        &&& state.sent() == self.sent()
                        &&& state.read() == self.read()
                        &&& flatten(state.sent()) == state.read()
                    }
                } else if b@.len() > PART_SIZE || !open_for_more(self.sent())
                    || self.next_part_index() == u64::MAX {
                    r == UploadStep::Failed(DxError::IncompleteSession)
                } else {
                    r matches UploadStep::Act { state, action } && {
                        &&& action matches UploadAction::SendPart { object_id, options, bytes } && {
                            &&& object_id@ == self.object_id()
                            &&& bytes@ == b@
                            &&& bytes@.len() <= PART_SIZE
                            &&& describes_part(options, b@, self.next_part_index())
                        }
                        &&& state.phase() == UploadPhase::Sending
                        &&& state.object_id() == self.object_id()
                        &&& state.next_part_index() == self.next_part_index()
                        &&& state.sent() == self.sent()
                        &&& state.pending() == b@
                        &&& state.read() == self.read() + b@
                    }
                },
                UploadEvent::PartSent => if self.phase() == UploadPhase::Sending {
                    r matches UploadStep::Act { state, action } && {
                        &&& action is ReadChunk
                        &&& state.phase() == UploadPhase::Reading
                        &&& state.object_id() == self.object_id()
                        &&& state.next_part_index() == self.next_part_index() + 1
                        &&& state.sent() == self.sent().push(self.pending())
                        &&& state.read() == self.read()
                        &&& flatten(state.sent()) == state.read()
                    }
                } else {
                    r == UploadStep::Failed(DxError::IncompleteSession)
                },
                UploadEvent::Closed => if self.phase() == UploadPhase::Closing {
                    r matches UploadStep::Done(id) && id@ == self.object_id()
                } else {
                    r == UploadStep::Failed(DxError::IncompleteSession)
                },
            },
    {
        proof {
            use_type_invariant(&self);
        }
        let ghost sent = self.sent@;
        let ghost pending = self.pending@;
        match event {
            UploadEvent::Failed(e) => UploadStep::Failed(e),
            UploadEvent::Created(id) => {
                if self.phase != UploadPhase::Creating {
                    return UploadStep::Failed(DxError::IncompleteSession);
                }
                let state = ChunkedUpload {
                    phase: UploadPhase::Reading,
                    object_id: id,
                    next_part_index: self.next_part_index,
                    last_part_short: self.last_part_short,
                    pending_len: self.pending_len,
                    sent: self.sent,
                    pending: self.pending,
                };
                UploadStep::Act { state, action: UploadAction::ReadChunk }
            },
            UploadEvent::ChunkRead(b) => {
                if self.phase != UploadPhase::Reading {
                    UploadStep::Failed(DxError::IncompleteSession)
                } else if b.len() == 0 {
                    let options = FileCloseOptions { id: self.object_id.clone() };
                    proof {
                        assert(flatten(sent) + Seq::<u8>::empty() =~= flatten(sent));
                    }
                    let state = ChunkedUpload {
                        phase: UploadPhase::Closing,
                        object_id: self.object_id,
                        next_part_index: self.next_part_index,
                        last_part_short: self.last_part_short,
                        pending_len: self.pending_len,
                        sent: self.sent,
                        pending: self.pending,
                    };
                    UploadStep::Act { state, action: UploadAction::Close(options) }
                } else if b.len() > PART_SIZE || self.last_part_short || self.next_part_index
                    == u64::MAX {
                    UploadStep::Failed(DxError::IncompleteSession)
                } else {
                    let options = FileUploadOptions {
                        size: b.len(),
                        md5: part_digest(b.as_slice()),
                        index: self.next_part_index,
                    };
                    proof {
                        assert(flatten(sent) + Seq::<u8>::empty() =~= flatten(sent));
                    }
                    let state = ChunkedUpload {
                        phase: UploadPhase::Sending,
                        object_id: self.object_id,
                        next_part_index: self.next_part_index,
                        last_part_short: self.last_part_short,
                        pending_len: b.len(),
                        sent: self.sent,
                        pending: Ghost(b@),
                    };
                    let object_id = state.object_id.clone();
                    UploadStep::Act {
                        state,
                        action: UploadAction::SendPart { object_id, options, bytes: b },
                    }
                }
            },
            UploadEvent::PartSent => {
                if self.phase != UploadPhase::Sending {
                    return UploadStep::Failed(DxError::IncompleteSession);
                }
                let ghost s2 = sent.push(pending);
                proof {
                    assert(s2.drop_last() =~= sent);
                    assert(flatten(s2) + Seq::<u8>::empty() =~= flatten(s2));
                    assert forall|i: int| 0 <= i < s2.len() implies #[trigger] s2[i].len() > 0 by {
                        if i < sent.len() {
                            assert(s2[i] == sent[i]);
                        }
                    }
                    assert forall|i: int| 0 <= i < s2.len() implies (#[trigger] s2[i]).len()
                        <= PART_SIZE && (i + 1 < s2.len() ==> s2[i].len() == PART_SIZE) by {
                        if i < sent.len() {
                            assert(s2[i] == sent[i]);
                            if i + 1 == sent.len() {
                                assert(sent.last() == sent[i]);
                            }
                        }
                    }
                }
                let state = ChunkedUpload {
                    phase: UploadPhase::Reading,
                    object_id: self.object_id,
                    next_part_index: self.next_part_index + 1,
                    last_part_short: self.pending_len < PART_SIZE,
                    pending_len: 0,
                    sent: Ghost(s2),
                    pending: Ghost(Seq::empty()),
                };
                UploadStep::Act { state, action: UploadAction::ReadChunk }
            },
            UploadEvent::Closed => {
                if self.phase != UploadPhase::Closing {
                    return UploadStep::Failed(DxError::IncompleteSession);
                }
                UploadStep::Done(self.object_id)
            },
        }
    }
}

/// The part of `path` after its last `/`.
pub open spec fn basename(path: Seq<char>) -> Seq<char>
    decreases path.len(),
{
    if path.len() == 0 || path.last() == '/' {
        Seq::empty()
    } else {
        basename(path.drop_last()).push(path.last())
    }
}

/// The name an uploaded object gets: the one given, else the source's own.
pub open spec fn upload_name(name_override: Option<String>, local_path: Seq<char>) -> Seq<char> {
    match name_override {
        Some(n) => n@,
        None => basename(local_path),
    }
}

/// The name an uploaded object gets: the one given, else the source's own.
fn choose_name(name_override: Option<String>, local_path: &str) -> (r: String)
    ensures
        r@ == upload_name(name_override, local_path@),
{
    match name_override {
        Some(n) => n,
        None => {
            let n = local_path.unicode_len();
            let mut start: usize = n;
            proof {
                assert(local_path@.take(n as int) =~= local_path@);
                assert(local_path@.subrange(n as int, n as int) =~= Seq::<char>::empty());
                assert(basename(local_path@) + Seq::<char>::empty() =~= basename(local_path@));
            }
            while start > 0 && local_path.get_char(start - 1) != '/'
                invariant
                    n == local_path@.len(),
                    start <= n,
                    basename(local_path@) == basename(local_path@.take(start as int))
                        + local_path@.subrange(start as int, n as int),
                decreases start,
            {
                proof {
                    let p = local_path@.take(start as int);
                    assert(p.drop_last() =~= local_path@.take(start - 1));
                    assert(local_path@.subrange(start - 1, n as int) =~= seq![p.last()]
                        + local_path@.subrange(start as int, n as int));
                    assert(basename(p) == basename(p.drop_last()).push(p.last()));
                    assert(basename(p.drop_last()).push(p.last()) + local_path@.subrange(
                        start as int,
                        n as int,
                    ) =~= basename(p.drop_last()) + local_path@.subrange(start - 1, n as int));
                }
                start = start - 1;
            }
            proof {
                let p = local_path@.take(start as int);
                assert(basename(p) =~= Seq::<char>::empty());
                assert(local_path@.take(n as int) =~= local_path@);
            }
            String::from_str(local_path.substring_char(start, n))
        },
    }
}

} // verus!
