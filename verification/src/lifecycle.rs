//! The pipeline lifecycle: one run of the thumbnailing utility, as a
//! verified state machine.
//!
//! The run is linear, with no branching except on failure: the native
//! library is initialized once, one handle is created, the input is read,
//! every frame is resized, the output is written, the handle is destroyed,
//! and the library is torn down — in that order, on every exit path.
//!
//! The native calls themselves (global init and teardown, context
//! allocation and destruction, read, per-frame resize, write, error
//! retrieval) are performed by an unverified driver. The driver asks this
//! state machine before each native read or write whether the path may be
//! handed over, performs the call, and reports the outcome back. Every
//! decision — path rejection, error recording, ordering of teardown — is
//! made and checked here.
//!
//! The error-descriptor validity window is enforced by construction: the
//! only methods that accept a freshly fetched [`ErrorDescriptor`]
//! ([`Pipeline::read_failed`] and [`Pipeline::write_failed`]) require a
//! phase in which the handle is still alive, so no verified caller can
//! record a descriptor once the handle has been destroyed.

use vstd::prelude::*;

use crate::errors::{Error, ErrorDescriptor};
use crate::frames::{resize_all, resized, resized_all, Frame};
use crate::path::{has_null_byte, path_is_representable};

verus! {

/// Where in the run the pipeline stands.
#[derive(Clone, Copy, Debug, PartialEq, Eq, Structural)]
pub enum Phase {
    /// Nothing has happened yet; the native library is uninitialized.
    Start,
    /// Global initialization is done; no handle exists yet.
    LibraryReady,
    /// The handle has been allocated; the input path has not been examined.
    HandleReady,
    /// The input path was accepted; the native read is in flight.
    Reading,
    /// The read succeeded; the handle holds the loaded frames.
    Loaded,
    /// Every frame has been resized to the fixed thumbnail size.
    Resized,
    /// The output path was accepted; the native write is in flight.
    Writing,
    /// The write succeeded.
    Written,
    /// A stage failed; the error is recorded; the handle is still alive.
    Failing,
    /// The handle has been destroyed; the library is still initialized.
    Disposed,
    /// The library has been torn down; only the outcome remains.
    Terminated,
}

/// One run of the pipeline: the two paths, the model of the handle's frame
/// sequence, the recorded failure if any, and the lifecycle bookkeeping
/// that the laws below speak of.
pub struct Pipeline {
    /// Bytes of the path to read the image from.
    pub input: Vec<u8>,
    /// Bytes of the path to write the thumbnail container to.
    pub output: Vec<u8>,
    /// Where in the run the pipeline stands.
    pub phase: Phase,
    /// The frames the handle currently holds, by their dimensions.
    pub frames: Vec<Frame>,
    /// The failure that ended the run, if one did.
    pub failure: Option<Error>,
    /// Whether global initialization has run.
    pub library_initialized: bool,
    /// How many times global teardown has run.
    pub library_shutdown_count: u32,
    /// How many times the handle has been destroyed.
    pub handle_destroy_count: u32,
    /// Whether the handle currently exists.
    pub handle_alive: bool,
    /// Whether a native read call was ever issued.
    pub native_read_attempted: bool,
    /// Whether a native write call was ever issued.
    pub native_write_attempted: bool,
    /// The frame sequence as the read loaded it.
    pub loaded: Ghost<Seq<Frame>>,
}

impl Pipeline {
    /// The lifecycle bookkeeping is consistent: teardown and destruction
    /// each happen at most once, teardown only after destruction, and a
    /// live handle implies an initialized, not-yet-torn-down library.
    pub open spec fn counters_ok(self) -> bool {
        &&& self.library_shutdown_count <= 1
        &&& self.handle_destroy_count <= 1
        &&& self.library_shutdown_count == 1 ==> self.handle_destroy_count == 1
        &&& self.handle_alive ==> self.library_initialized
            && self.library_shutdown_count == 0
            && self.handle_destroy_count == 0
    }

    /// A native call is only ever issued for a representable path.
    pub open spec fn natives_guarded(self) -> bool {
        &&& self.native_read_attempted ==> !has_null_byte(self.input@)
        &&& self.native_write_attempted ==> !has_null_byte(self.output@)
    }

    /// What each phase guarantees of the rest of the state.
    pub open spec fn phase_ok(self) -> bool {
        match self.phase {
            Phase::Start => {
                &&& !self.library_initialized
                &&& !self.handle_alive
                &&& self.handle_destroy_count == 0
                &&& self.library_shutdown_count == 0
                &&& !self.native_read_attempted
                &&& !self.native_write_attempted
                &&& self.failure is None
            },
            Phase::LibraryReady => {
                &&& self.library_initialized
                &&& !self.handle_alive
                &&& self.handle_destroy_count == 0
                &&& self.library_shutdown_count == 0
                &&& !self.native_read_attempted
                &&& !self.native_write_attempted
                &&& self.failure is None
            },
            Phase::HandleReady => {
                &&& self.handle_alive
                &&& !self.native_read_attempted
                &&& !self.native_write_attempted
                &&& self.failure is None
            },
            Phase::Reading => {
                &&& self.handle_alive
                &&& self.native_read_attempted
                &&& !self.native_write_attempted
                &&& self.failure is None
            },
            Phase::Loaded => {
                &&& self.handle_alive
                &&& self.native_read_attempted
                &&& !self.native_write_attempted
                &&& self.failure is None
                &&& self.frames@ == self.loaded@
                &&& self.loaded@.len() >= 1
            },
            Phase::Resized => {
                &&& self.handle_alive
                &&& self.native_read_attempted
                &&& !self.native_write_attempted
                &&& self.failure is None
                &&& self.frames@ == resized_all(self.loaded@)
                &&& self.loaded@.len() >= 1
            },
            Phase::Writing => {
                &&& self.handle_alive
                &&& self.native_read_attempted
                &&& self.native_write_attempted
                &&& self.failure is None
                &&& self.frames@ == resized_all(self.loaded@)
                &&& self.loaded@.len() >= 1
            },
            Phase::Written => {
                &&& self.handle_alive
                &&& self.native_read_attempted
                &&& self.native_write_attempted
                &&& self.failure is None
                &&& self.frames@ == resized_all(self.loaded@)
                &&& self.loaded@.len() >= 1
            },
            Phase::Failing => {
                &&& self.handle_alive
                &&& self.failure is Some
            },
            Phase::Disposed => {
                &&& self.library_initialized
                &&& !self.handle_alive
                &&& self.handle_destroy_count == 1
                &&& self.library_shutdown_count == 0
                &&& (self.failure is None ==> self.native_write_attempted
                    && self.frames@ == resized_all(self.loaded@))
            },
            Phase::Terminated => {
                &&& self.library_initialized
                &&& !self.handle_alive
                &&& self.handle_destroy_count == 1
                &&& self.library_shutdown_count == 1
                &&& (self.failure is None ==> self.native_write_attempted
                    && self.frames@ == resized_all(self.loaded@))
            },
        }
    }

    /// The pipeline invariant: established at construction and preserved by
    /// every transition.
    pub open spec fn wf(self) -> bool {
        &&& self.counters_ok()
        &&& self.natives_guarded()
        &&& self.phase_ok()
    }

    /// Both paths are the same in `self` and `other`.
    pub open spec fn same_paths(self, other: Pipeline) -> bool {
        &&& self.input@ == other.input@
        &&& self.output@ == other.output@
    }

    /// A fresh run over the given input and output paths. Nothing native
    /// has happened yet.
    pub fn new(input: Vec<u8>, output: Vec<u8>) -> (p: Pipeline)
        ensures
            p.wf(),
            p.phase is Start,
            p.input@ == input@,
            p.output@ == output@,
            p.frames@.len() == 0,
            p.failure is None,
            !p.library_initialized,
            p.library_shutdown_count == 0,
            p.handle_destroy_count == 0,
            !p.handle_alive,
            !p.native_read_attempted,
            !p.native_write_attempted,
    {
        Pipeline {
            input,
            output,
            phase: Phase::Start,
            frames: Vec::new(),
            failure: None,
            library_initialized: false,
            library_shutdown_count: 0,
            handle_destroy_count: 0,
            handle_alive: false,
            native_read_attempted: false,
            native_write_attempted: false,
            loaded: Ghost(Seq::empty()),
        }
    }

    /// Records that global initialization of the native library has run.
    /// The driver performs the native call first; it has no failure signal.
    pub fn library_started(&mut self)
        requires
            old(self).wf(),
            old(self).phase is Start,
        ensures
            final(self).wf(),
            final(self).phase is LibraryReady,
            final(self).library_initialized,
            final(self).same_paths(*old(self)),
            final(self).failure == old(self).failure,
            final(self).frames@ == old(self).frames@,
            final(self).library_shutdown_count == 0,
            final(self).handle_destroy_count == 0,
            !final(self).handle_alive,
            !final(self).native_read_attempted,
            !final(self).native_write_attempted,
    {
        self.library_initialized = true;
        self.phase = Phase::LibraryReady;
    }

    /// Records that the processing context has been allocated. Allocation
    /// always succeeds; the native layer exposes no error path here.
    pub fn handle_created(&mut self)
        requires
            old(self).wf(),
            old(self).phase is LibraryReady,
        ensures
            final(self).wf(),
            final(self).phase is HandleReady,
            final(self).handle_alive,
            final(self).same_paths(*old(self)),
            final(self).failure == old(self).failure,
            final(self).frames@ == old(self).frames@,
            final(self).library_shutdown_count == 0,
            final(self).handle_destroy_count == 0,
            !final(self).native_read_attempted,
            !final(self).native_write_attempted,
    {
        self.handle_alive = true;
        self.phase = Phase::HandleReady;
    }

    /// Decides whether the input path may be handed to the native read.
    /// Returns true exactly when the path is representable; otherwise the
    /// run fails with the path-encoding error and no native read is issued.
    pub fn begin_read(&mut self) -> (proceed: bool)
        requires
            old(self).wf(),
            old(self).phase is HandleReady,
        ensures
            final(self).wf(),
            proceed <==> !has_null_byte(old(self).input@),
            proceed ==> final(self).phase is Reading && final(self).native_read_attempted
                && final(self).failure is None,
            !proceed ==> final(self).phase is Failing && !final(self).native_read_attempted
                && (final(self).failure matches Some(e) && e.is_path_encoding()),
            final(self).same_paths(*old(self)),
            final(self).frames@ == old(self).frames@,
            final(self).handle_alive,
            !final(self).native_write_attempted,
            final(self).library_shutdown_count == 0,
            final(self).handle_destroy_count == 0,
    {
        if path_is_representable(&self.input) {
            self.native_read_attempted = true;
            self.phase = Phase::Reading;
            true
        } else {
            self.failure = Some(Error::PathEncoding);
            self.phase = Phase::Failing;
            false
        }
    }

    /// Records a successful native read: the handle's image sequence is now
    /// populated with the loaded frames. The native layer offers no
    /// partial-success contract, so a successful read always yields at
    /// least one frame.
    pub fn read_succeeded(&mut self, loaded_frames: Vec<Frame>)
        requires
            old(self).wf(),
            old(self).phase is Reading,
            loaded_frames@.len() >= 1,
        ensures
            final(self).wf(),
            final(self).phase is Loaded,
            final(self).frames@ == loaded_frames@,
            final(self).loaded@ == loaded_frames@,
            final(self).failure is None,
            final(self).same_paths(*old(self)),
            final(self).handle_alive,
            final(self).library_shutdown_count == 0,
            final(self).handle_destroy_count == 0,
    {
        self.loaded = Ghost(loaded_frames@);
        self.frames = loaded_frames;
        self.phase = Phase::Loaded;
    }

    /// Records a failed native read. The descriptor must have been fetched
    /// from the handle before this call — which this phase guarantees is
    /// possible, since the handle is still alive.
    pub fn read_failed(&mut self, descriptor: ErrorDescriptor)
        requires
            old(self).wf(),
            old(self).phase is Reading,
        ensures
            final(self).wf(),
            final(self).phase is Failing,
            (final(self).failure matches Some(e)
                && e.is_native_with(descriptor.message@, descriptor.severity)),
            final(self).same_paths(*old(self)),
            final(self).frames@ == old(self).frames@,
            final(self).handle_alive,
            !final(self).native_write_attempted,
            final(self).library_shutdown_count == 0,
            final(self).handle_destroy_count == 0,
    {
        self.failure = Some(Error::NativeOperation { descriptor });
        self.phase = Phase::Failing;
    }

    /// The resize stage: every loaded frame is resized in place to the
    /// fixed thumbnail size, in load order. The native per-frame resize
    /// exposes no failure signal through the boolean-status convention, so
    /// this stage has none either.
    pub fn resize_frames(&mut self)
        requires
            old(self).wf(),
            old(self).phase is Loaded,
        ensures
            final(self).wf(),
            final(self).phase is Resized,
            final(self).frames@ == resized_all(old(self).frames@),
            final(self).frames@.len() == old(self).frames@.len(),
            forall|i: int|
                0 <= i < old(self).frames@.len()
                    ==> final(self).frames@[i] == resized(old(self).frames@[i]),
            final(self).loaded@ == old(self).loaded@,
            final(self).failure is None,
            final(self).same_paths(*old(self)),
            final(self).handle_alive,
            final(self).library_shutdown_count == 0,
            final(self).handle_destroy_count == 0,
    {
        resize_all(&mut self.frames);
        self.phase = Phase::Resized;
    }

    /// Decides whether the output path may be handed to the native write.
    /// Returns true exactly when the path is representable; otherwise the
    /// run fails with the path-encoding error and no native write is issued.
    pub fn begin_write(&mut self) -> (proceed: bool)
        requires
            old(self).wf(),
            old(self).phase is Resized,
        ensures
            final(self).wf(),
            proceed <==> !has_null_byte(old(self).output@),
            proceed ==> final(self).phase is Writing && final(self).native_write_attempted
                && final(self).failure is None,
            !proceed ==> final(self).phase is Failing && !final(self).native_write_attempted
                && (final(self).failure matches Some(e) && e.is_path_encoding()),
            final(self).same_paths(*old(self)),
            final(self).frames@ == old(self).frames@,
            final(self).loaded@ == old(self).loaded@,
            final(self).handle_alive,
            final(self).library_shutdown_count == 0,
            final(self).handle_destroy_count == 0,
    {
        if path_is_representable(&self.output) {
            self.native_write_attempted = true;
            self.phase = Phase::Writing;
            true
        } else {
            self.failure = Some(Error::PathEncoding);
            self.phase = Phase::Failing;
            false
        }
    }

    /// Records a successful native write: all frames went into one
    /// multi-frame output container, in iteration order.
    pub fn write_succeeded(&mut self)
        requires
            old(self).wf(),
            old(self).phase is Writing,
        ensures
            final(self).wf(),
            final(self).phase is Written,
            final(self).frames@ == old(self).frames@,
            final(self).loaded@ == old(self).loaded@,
            final(self).failure is None,
            final(self).same_paths(*old(self)),
            final(self).handle_alive,
            final(self).library_shutdown_count == 0,
            final(self).handle_destroy_count == 0,
    {
        self.phase = Phase::Written;
    }

    /// Records a failed native write, with the descriptor fetched from the
    /// still-alive handle.
    pub fn write_failed(&mut self, descriptor: ErrorDescriptor)
        requires
            old(self).wf(),
            old(self).phase is Writing,
        ensures
            final(self).wf(),
            final(self).phase is Failing,
            (final(self).failure matches Some(e)
                && e.is_native_with(descriptor.message@, descriptor.severity)),
            final(self).same_paths(*old(self)),
            final(self).frames@ == old(self).frames@,
            final(self).handle_alive,
            final(self).library_shutdown_count == 0,
            final(self).handle_destroy_count == 0,
    {
        self.failure = Some(Error::NativeOperation { descriptor });
        self.phase = Phase::Failing;
    }

    /// Records that the handle has been destroyed. Reachable from exactly
    /// the two terminal stage outcomes — a completed write or a recorded
    /// failure — so the handle is destroyed once, on every exit path, and
    /// any error descriptor was copied out beforehand.
    pub fn destroy_handle(&mut self)
        requires
            old(self).wf(),
            old(self).phase is Written || old(self).phase is Failing,
        ensures
            final(self).wf(),
            final(self).phase is Disposed,
            !final(self).handle_alive,
            final(self).handle_destroy_count == 1,
            final(self).library_shutdown_count == 0,
            final(self).failure == old(self).failure,
            final(self).frames@ == old(self).frames@,
            final(self).loaded@ == old(self).loaded@,
            final(self).same_paths(*old(self)),
    {
        self.handle_alive = false;
        self.handle_destroy_count = self.handle_destroy_count + 1;
        self.phase = Phase::Disposed;
    }

    /// Records that global teardown of the native library has run. Only
    /// reachable once the handle has been destroyed, and only once.
    pub fn shutdown_library(&mut self)
        requires
            old(self).wf(),
            old(self).phase is Disposed,
        ensures
            final(self).wf(),
            final(self).phase is Terminated,
            final(self).library_shutdown_count == 1,
            final(self).handle_destroy_count == 1,
            !final(self).handle_alive,
            final(self).failure == old(self).failure,
            final(self).frames@ == old(self).frames@,
            final(self).loaded@ == old(self).loaded@,
            final(self).same_paths(*old(self)),
    {
        self.library_shutdown_count = self.library_shutdown_count + 1;
        self.phase = Phase::Terminated;
    }

    /// The process exit code of a terminated run: zero exactly on success,
    /// one on any recorded failure.
    pub fn exit_code(&self) -> (code: u8)
        requires
            self.wf(),
            self.phase is Terminated,
        ensures
            code == 0 <==> self.failure is None,
            self.failure is Some ==> code == 1,
    {
        match &self.failure {
            None => 0,
            Some(_) => 1,
        }
    }
}

/// Law: on every run, successful or failing, global teardown executes at
/// most once and only after the handle has been destroyed; and a run that
/// reaches termination has torn the library down exactly once.
pub proof fn lemma_teardown_pairing(p: Pipeline)
    requires
        p.wf(),
    ensures
        p.library_shutdown_count <= 1,
        p.library_shutdown_count == 1 ==> p.handle_destroy_count == 1 && !p.handle_alive,
        p.phase is Terminated ==> p.library_shutdown_count == 1 && p.handle_destroy_count == 1,
{
}

/// Law: a path holding an embedded null byte never reaches the native
/// layer — in every reachable pipeline state, no native read was issued for
/// such an input path and no native write for such an output path.
pub proof fn lemma_null_byte_rejection(p: Pipeline)
    requires
        p.wf(),
    ensures
        has_null_byte(p.input@) ==> !p.native_read_attempted,
        has_null_byte(p.output@) ==> !p.native_write_attempted,
{
}

/// Law: whenever the native write runs — and in every terminated run that
/// succeeded — the handle holds exactly as many frames as the read loaded,
/// each resized to the fixed thumbnail size, in the same relative order as
/// loaded.
pub proof fn lemma_frame_count_preserved(p: Pipeline)
    requires
        p.wf(),
        p.phase is Writing || p.phase is Written || (p.phase is Terminated
            && p.failure is None),
    ensures
        p.frames@.len() == p.loaded@.len(),
        forall|i: int| 0 <= i < p.loaded@.len() ==> p.frames@[i] == resized(p.loaded@[i]),
        forall|i: int|
            0 <= i < p.frames@.len() ==> crate::frames::is_thumbnail_sized(p.frames@[i]),
{
}

} // verus!
