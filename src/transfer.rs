use vstd::prelude::*;
use crate::object::{ObjectContents, ObjectMetadataResponse};
use crate::parts::{is_part, part_count, part_range, part_total, PartRange};
use crate::radosgw::{
    multipart_upload_headers, put_object_headers, shared_headers_match, CompletedPart,
    ObjectHeaders,
};

verus! {

/// Where the transfer of one object stands.
#[derive(PartialEq, Eq, Structural, Clone, Copy, Debug)]
pub enum Phase {
    FetchingMetadata,
    Putting,
    Creating,
    Uploading,
    Completing,
    Aborting,
    Finished,
}

/// The reply to the last request the transfer asked for.
#[derive(Clone, Debug)]
pub enum TransferEvent {
    /// The source returned the object's metadata.
    Metadata(ObjectMetadataResponse),
    /// The destination opened a multipart upload under this id.
    UploadCreated(String),
    /// The destination stored the part and returned its etag.
    PartUploaded(String),
    /// A PUT, a completion or an abort succeeded.
    Done,
    /// The request failed with this message.
    Failed(String),
}

/// The next request to perform, or the end of the transfer.
#[derive(Clone, Debug)]
pub enum TransferAction {
    FetchMetadata,
    PutObject { headers: ObjectHeaders },
    CreateMultipartUpload { headers: ObjectHeaders },
    UploadPart { upload_id: String, part: PartRange },
    CompleteMultipartUpload { upload_id: String, parts: Vec<CompletedPart> },
    AbortMultipartUpload { upload_id: String },
    Succeeded,
    Failed { error: String },
}

/// The transfer of one object from the source to the destination. The
/// metadata fetch leads to one PUT when the object fits in a chunk, else to
/// a multipart upload: creation, each part in turn, completion. Any failure
/// once the upload is open aborts it, and the transfer fails with that first
/// error whatever the abort answers.
#[derive(Clone, Debug)]
pub struct ObjectTransfer {
    pub object: ObjectContents,
    pub chunk_size: u64,
    pub phase: Phase,
    /// Id of the open multipart upload, once created.
    pub upload_id: String,
    /// Etags of the parts uploaded so far, part `i + 1` at index `i`.
    pub etags: Vec<String>,
    /// The first error of a multipart upload being aborted.
    pub error: String,
}

/// The completion list: part numbers 1..N in order, each with its etag.
pub open spec fn completed_parts_match(parts: Seq<CompletedPart>, etags: Seq<String>) -> bool {
    &&& parts.len() == etags.len()
    &&& forall|i: int|
        0 <= i < parts.len() ==> (#[trigger] parts[i]).part_number == i + 1 && parts[i].etag
            == etags[i]
}

pub open spec fn is_multipart_call(a: TransferAction) -> bool {
    ||| a is CreateMultipartUpload
    ||| a is UploadPart
    ||| a is CompleteMultipartUpload
    ||| a is AbortMultipartUpload
}

/// The events that answer the request a phase waits on.
pub open spec fn accepts(phase: Phase, e: TransferEvent) -> bool {
    match phase {
        Phase::FetchingMetadata => e is Metadata || e is Failed,
        Phase::Putting => e is Done || e is Failed,
        Phase::Creating => e is UploadCreated || e is Failed,
        Phase::Uploading => e is PartUploaded || e is Failed,
        Phase::Completing => e is Done || e is Failed,
        Phase::Aborting => e is Done || e is Failed,
        Phase::Finished => false,
    }
}

impl ObjectTransfer {
    pub open spec fn parts_total(self) -> nat {
        part_count(self.object.size as nat, self.chunk_size as nat)
    }

    pub open spec fn wf(self) -> bool {
        &&& self.chunk_size > 0
        &&& (self.phase == Phase::Putting ==> self.object.size <= self.chunk_size)
        &&& (self.phase == Phase::Creating ==> self.object.size > self.chunk_size)
        &&& (self.phase == Phase::Uploading ==> self.object.size > self.chunk_size
            && self.etags@.len() < self.parts_total())
        &&& (self.phase == Phase::Completing ==> self.object.size > self.chunk_size
            && self.etags@.len() == self.parts_total())
        &&& (self.phase == Phase::Aborting ==> self.object.size > self.chunk_size)
    }

    /// Upload request of the part that follows those already uploaded.
    pub open spec fn uploads_next_part(self, a: TransferAction) -> bool {
        &&& a matches TransferAction::UploadPart { upload_id, part }
        &&& upload_id == self.upload_id
        &&& is_part(
            part,
            self.object.size as nat,
            self.chunk_size as nat,
            (self.etags@.len() + 1) as nat,
        )
    }

    /// The step from `self` to `t` on the event `e`, with `a` the request
    /// that follows.
    pub open spec fn transition(self, e: TransferEvent, t: ObjectTransfer, a: TransferAction) -> bool {
        &&& t.object == self.object
        &&& t.chunk_size == self.chunk_size
        &&& match (self.phase, e) {
            (Phase::FetchingMetadata, TransferEvent::Metadata(m)) => if self.object.size
                <= self.chunk_size {
                &&& t.phase == Phase::Putting
                &&& a matches TransferAction::PutObject { headers }
                &&& shared_headers_match(headers, m)
                &&& headers.content_length == Some(self.object.size)
                &&& headers.content_md5 == m.metadata.content_md5
            } else {
                &&& t.phase == Phase::Creating
                &&& a matches TransferAction::CreateMultipartUpload { headers }
                &&& shared_headers_match(headers, m)
                &&& headers.content_length.is_none()
                &&& headers.content_md5.is_none()
            },
            (Phase::Creating, TransferEvent::UploadCreated(id)) => {
                &&& t.phase == Phase::Uploading
                &&& t.upload_id == id
                &&& t.etags@.len() == 0
                &&& t.uploads_next_part(a)
            },
            (Phase::Uploading, TransferEvent::PartUploaded(etag)) => {
                &&& t.upload_id == self.upload_id
                &&& t.etags@ == self.etags@.push(etag)
                &&& if t.etags@.len() == self.parts_total() {
                    &&& t.phase == Phase::Completing
                    &&& a matches TransferAction::CompleteMultipartUpload { upload_id, parts }
                    &&& upload_id == self.upload_id
                    &&& completed_parts_match(parts@, t.etags@)
                } else {
                    &&& t.phase == Phase::Uploading
                    &&& t.uploads_next_part(a)
                }
            },
            (Phase::Uploading, TransferEvent::Failed(msg))
            | (Phase::Completing, TransferEvent::Failed(msg)) => {
                &&& t.phase == Phase::Aborting
                &&& t.error == msg
                &&& a == TransferAction::AbortMultipartUpload { upload_id: self.upload_id }
            },
            (Phase::Putting, TransferEvent::Done) | (Phase::Completing, TransferEvent::Done) => {
                &&& t.phase == Phase::Finished
                &&& a == TransferAction::Succeeded
            },
            (Phase::Aborting, _) => {
                &&& t.phase == Phase::Finished
                &&& a == TransferAction::Failed { error: self.error }
            },
            (_, TransferEvent::Failed(msg)) => {
                &&& t.phase == Phase::Finished
                &&& a == TransferAction::Failed { error: msg }
            },
            _ => false,
        }
    }

    /// A transfer of `object` with parts of `chunk_size` bytes; its first
    /// request fetches the object's metadata from the source.
    pub fn new(object: ObjectContents, chunk_size: u64) -> (r: (ObjectTransfer, TransferAction))
        requires
            chunk_size > 0,
        ensures
            r.0.wf(),
            r.0.object == object,
            r.0.chunk_size == chunk_size,
            r.0.phase == Phase::FetchingMetadata,
            r.0.etags@.len() == 0,
            r.1 == TransferAction::FetchMetadata,
    {
        (
            ObjectTransfer {
                object,
                chunk_size,
                phase: Phase::FetchingMetadata,
                upload_id: String::new(),
                etags: Vec::new(),
                error: String::new(),
            },
            TransferAction::FetchMetadata,
        )
    }

    pub fn accepts(&self, e: &TransferEvent) -> (r: bool)
        ensures
            r == accepts(self.phase, *e),
    {
        match self.phase {
            Phase::FetchingMetadata => matches!(e, TransferEvent::Metadata(_) | TransferEvent::Failed(_)),
            Phase::Putting => matches!(e, TransferEvent::Done | TransferEvent::Failed(_)),
            Phase::Creating => matches!(e, TransferEvent::UploadCreated(_) | TransferEvent::Failed(_)),
            Phase::Uploading => matches!(e, TransferEvent::PartUploaded(_) | TransferEvent::Failed(_)),
            Phase::Completing => matches!(e, TransferEvent::Done | TransferEvent::Failed(_)),
            Phase::Aborting => matches!(e, TransferEvent::Done | TransferEvent::Failed(_)),
            Phase::Finished => false,
        }
    }

    fn next_part(&self) -> (a: TransferAction)
        requires
            self.chunk_size > 0,
            self.etags@.len() < self.parts_total(),
        ensures
            self.uploads_next_part(a),
    {
        proof {
            crate::parts::lemma_part_count_bounds(self.object.size as nat, self.chunk_size as nat);
        }
        let number = self.etags.len() as u64 + 1;
        TransferAction::UploadPart {
            upload_id: self.upload_id.clone(),
            part: part_range(self.object.size, self.chunk_size, number),
        }
    }

    fn completed_parts(&self) -> (r: Vec<CompletedPart>)
        requires
            self.etags@.len() <= u64::MAX,
        ensures
            completed_parts_match(r@, self.etags@),
    {
        let mut r: Vec<CompletedPart> = Vec::new();
        let mut i: usize = 0;
        while i < self.etags.len()
            invariant
                i <= self.etags@.len() <= u64::MAX,
                r@.len() == i,
                forall|k: int|
                    0 <= k < i ==> (#[trigger] r@[k]).part_number == k + 1 && r@[k].etag
                        == self.etags@[k],
            decreases self.etags@.len() - i,
        {
            r.push(CompletedPart { part_number: i as u64 + 1, etag: self.etags[i].clone() });
            i = i + 1;
        }
        r
    }

    /// Takes the reply to the last request and returns the next one.
    pub fn step(&mut self, e: TransferEvent) -> (a: TransferAction)
        requires
            old(self).wf(),
            accepts(old(self).phase, e),
        ensures
            final(self).wf(),
            old(self).transition(e, *final(self), a),
    {
        proof {
            crate::parts::lemma_part_count_bounds(self.object.size as nat, self.chunk_size as nat);
        }
        match e {
            TransferEvent::Metadata(m) => {
                if self.object.size <= self.chunk_size {
                    self.phase = Phase::Putting;
                    TransferAction::PutObject { headers: put_object_headers(&m, self.object.size) }
                } else {
                    self.phase = Phase::Creating;
                    TransferAction::CreateMultipartUpload { headers: multipart_upload_headers(&m) }
                }
            },
            TransferEvent::UploadCreated(id) => {
                self.phase = Phase::Uploading;
                self.upload_id = id;
                self.etags = Vec::new();
                self.next_part()
            },
            TransferEvent::PartUploaded(etag) => {
                self.etags.push(etag);
                if (self.etags.len() as u64) == part_total(self.object.size, self.chunk_size) {
                    self.phase = Phase::Completing;
                    TransferAction::CompleteMultipartUpload {
                        upload_id: self.upload_id.clone(),
                        parts: self.completed_parts(),
                    }
                } else {
                    self.next_part()
                }
            },
            TransferEvent::Done => {
                if self.phase == Phase::Aborting {
                    self.phase = Phase::Finished;
                    TransferAction::Failed { error: self.error.clone() }
                } else {
                    self.phase = Phase::Finished;
                    TransferAction::Succeeded
                }
            },
            TransferEvent::Failed(msg) => {
                if self.phase == Phase::Aborting {
                    self.phase = Phase::Finished;
                    TransferAction::Failed { error: self.error.clone() }
                } else if self.phase == Phase::Uploading || self.phase == Phase::Completing {
                    self.phase = Phase::Aborting;
                    self.error = msg;
                    TransferAction::AbortMultipartUpload { upload_id: self.upload_id.clone() }
                } else {
                    self.phase = Phase::Finished;
                    TransferAction::Failed { error: msg }
                }
            },
        }
    }
}

/// An object of at most `chunk_size` bytes never causes a multipart call:
/// its one write is the PUT made on leaving the metadata fetch, a phase that
/// no step enters again.
pub proof fn lemma_small_object_single_put(
    s: ObjectTransfer,
    e: TransferEvent,
    t: ObjectTransfer,
    a: TransferAction,
)
    requires
        s.wf(),
        s.object.size <= s.chunk_size,
        accepts(s.phase, e),
        s.transition(e, t, a),
    ensures
        !is_multipart_call(a),
        a is PutObject <==> s.phase == Phase::FetchingMetadata && t.phase == Phase::Putting,
        t.phase != Phase::FetchingMetadata,
        t.phase == Phase::FetchingMetadata || t.phase == Phase::Putting || t.phase
            == Phase::Finished,
{
}

/// In a multipart upload, part `k + 1` is requested only once parts 1..k
/// have their etags, never beyond `ceil(size / chunk_size)`, with its exact
/// byte range; completion lists every part, numbered 1..N in order, with
/// the etag received for it, under the upload's id.
pub proof fn lemma_multipart_parts(
    s: ObjectTransfer,
    e: TransferEvent,
    t: ObjectTransfer,
    a: TransferAction,
)
    requires
        s.wf(),
        accepts(s.phase, e),
        s.transition(e, t, a),
    ensures
        a matches TransferAction::UploadPart { upload_id, part } ==> {
            &&& t.phase == Phase::Uploading
            &&& upload_id == t.upload_id
            &&& part.part_number == t.etags@.len() + 1
            &&& part.part_number <= t.parts_total()
            &&& is_part(part, t.object.size as nat, t.chunk_size as nat, part.part_number as nat)
        },
        a matches TransferAction::CompleteMultipartUpload { upload_id, parts } ==> {
            &&& s.phase == Phase::Uploading
            &&& t.phase == Phase::Completing
            &&& upload_id == s.upload_id
            &&& parts@.len() == s.parts_total()
            &&& completed_parts_match(parts@, t.etags@)
        },
        s.phase == Phase::Uploading && t.phase == Phase::Uploading ==> t.etags@.len()
            == s.etags@.len() + 1,
        s.phase == Phase::Completing || s.phase == Phase::Aborting ==> t.phase == Phase::Aborting
            || t.phase == Phase::Finished,
{
    crate::parts::lemma_part_count_bounds(s.object.size as nat, s.chunk_size as nat);
}

/// A failure after the multipart upload was created aborts that upload,
/// under its id, and the transfer then fails with the first error, whatever
/// the abort answered.
pub proof fn lemma_failure_aborts_upload(
    s: ObjectTransfer,
    e: TransferEvent,
    t: ObjectTransfer,
    a: TransferAction,
)
    requires
        s.wf(),
        accepts(s.phase, e),
        s.transition(e, t, a),
    ensures
        (s.phase == Phase::Uploading || s.phase == Phase::Completing) && e is Failed ==> {
            &&& t.phase == Phase::Aborting
            &&& t.error == e->Failed_0
            &&& a == (TransferAction::AbortMultipartUpload { upload_id: s.upload_id })
        },
        s.phase == Phase::Aborting ==> t.phase == Phase::Finished && a
            == (TransferAction::Failed { error: s.error }),
        a is AbortMultipartUpload ==> s.phase == Phase::Uploading || s.phase == Phase::Completing,
{
}

pub open spec fn puts(actions: Seq<TransferAction>) -> nat
    decreases actions.len(),
{
    if actions.len() == 0 {
        0
    } else {
        puts(actions.drop_last()) + if actions.last() is PutObject {
            1nat
        } else {
            0nat
        }
    }
}

pub open spec fn creates(actions: Seq<TransferAction>) -> nat
    decreases actions.len(),
{
    if actions.len() == 0 {
        0
    } else {
        creates(actions.drop_last()) + if actions.last() is CreateMultipartUpload {
            1nat
        } else {
            0nat
        }
    }
}

pub open spec fn uploads(actions: Seq<TransferAction>) -> nat
    decreases actions.len(),
{
    if actions.len() == 0 {
        0
    } else {
        uploads(actions.drop_last()) + if actions.last() is UploadPart {
            1nat
        } else {
            0nat
        }
    }
}

pub open spec fn completes(actions: Seq<TransferAction>) -> nat
    decreases actions.len(),
{
    if actions.len() == 0 {
        0
    } else {
        completes(actions.drop_last()) + if actions.last() is CompleteMultipartUpload {
            1nat
        } else {
            0nat
        }
    }
}

/// A run of a transfer: `states[0]` as `new` makes it, with the request
/// `actions[0]`; then each reply `events[i]` takes `states[i]` to
/// `states[i + 1]` and leads to the request `actions[i + 1]`.
pub open spec fn is_run(
    states: Seq<ObjectTransfer>,
    events: Seq<TransferEvent>,
    actions: Seq<TransferAction>,
) -> bool {
    &&& states.len() == events.len() + 1
    &&& actions.len() == events.len() + 1
    &&& states[0].chunk_size > 0
    &&& states[0].phase == Phase::FetchingMetadata
    &&& actions[0] == TransferAction::FetchMetadata
    &&& forall|i: int|
        0 <= i < events.len() ==> accepts(states[i].phase, #[trigger] events[i])
            && states[i].transition(events[i], states[i + 1], actions[i + 1])
}

/// What the requests made so far say of a transfer in state `s` whose last
/// request was `last`.
pub open spec fn counts_agree(
    s: ObjectTransfer,
    last: TransferAction,
    p: nat,
    c: nat,
    u: nat,
    m: nat,
) -> bool {
    &&& s.wf()
    &&& s.object.size <= s.chunk_size ==> {
        &&& c == 0 && u == 0 && m == 0 && p <= 1
        &&& s.phase == Phase::FetchingMetadata ==> p == 0
        &&& s.phase == Phase::Putting ==> p == 1
        &&& (s.phase == Phase::Finished && last is Succeeded) ==> p == 1
    }
    &&& s.object.size > s.chunk_size ==> {
        &&& p == 0 && c <= 1 && m <= 1 && u <= s.parts_total()
        &&& s.phase == Phase::FetchingMetadata ==> c == 0 && u == 0 && m == 0
        &&& s.phase == Phase::Creating ==> c == 1 && u == 0 && m == 0
        &&& s.phase == Phase::Uploading ==> c == 1 && u == s.etags@.len() + 1 && m == 0
        &&& s.phase == Phase::Completing ==> c == 1 && u == s.parts_total() && m == 1
        &&& (s.phase == Phase::Finished && last is Succeeded) ==> c == 1 && u
            == s.parts_total() && m == 1
    }
}

proof fn lemma_run_prefix(
    states: Seq<ObjectTransfer>,
    events: Seq<TransferEvent>,
    actions: Seq<TransferAction>,
    k: int,
)
    requires
        is_run(states, events, actions),
        0 <= k <= events.len(),
    ensures
        ({
            let prefix = actions.subrange(0, k + 1);
            counts_agree(
                states[k],
                actions[k],
                puts(prefix),
                creates(prefix),
                uploads(prefix),
                completes(prefix),
            )
        }),
    decreases k,
{
    let prefix = actions.subrange(0, k + 1);
    assert(prefix.drop_last() =~= actions.subrange(0, k));
    if k == 0 {
        assert(actions.subrange(0, 0).len() == 0);
    } else {
        lemma_run_prefix(states, events, actions, k - 1);
        let s = states[k - 1];
        assert(accepts(s.phase, events[k - 1]) && s.transition(events[k - 1], states[k], actions[k]));
        crate::parts::lemma_part_count_bounds(s.object.size as nat, s.chunk_size as nat);
    }
}

/// Over a whole run: an object of at most `chunk_size` bytes is written by
/// one PUT, with no multipart call; a larger one by one multipart upload of
/// `ceil(size / chunk_size)` parts, completed once, and never by a PUT.
pub proof fn lemma_run_requests(
    states: Seq<ObjectTransfer>,
    events: Seq<TransferEvent>,
    actions: Seq<TransferAction>,
)
    requires
        is_run(states, events, actions),
    ensures
        ({
            let s = states[0];
            &&& s.object.size <= s.chunk_size ==> creates(actions) == 0 && uploads(actions) == 0
                && completes(actions) == 0 && puts(actions) <= 1
            &&& s.object.size > s.chunk_size ==> puts(actions) == 0 && creates(actions) <= 1
                && uploads(actions) <= s.parts_total() && completes(actions) <= 1
            &&& actions.last() is Succeeded ==> {
                &&& s.object.size <= s.chunk_size ==> puts(actions) == 1
                &&& s.object.size > s.chunk_size ==> creates(actions) == 1 && uploads(actions)
                    == s.parts_total() && completes(actions) == 1
            }
        }),
{
    let n = events.len() as int;
    lemma_run_prefix(states, events, actions, n);
    assert(actions.subrange(0, n + 1) =~= actions);
    assert forall|i: int| 0 <= i <= n implies (#[trigger] states[i]).object == states[0].object
        && states[i].chunk_size == states[0].chunk_size by {
        lemma_run_keeps_object(states, events, actions, i);
    }
    if actions.last() is Succeeded {
        if n == 0 {
        } else {
            let s = states[n - 1];
            assert(accepts(s.phase, events[n - 1]) && s.transition(events[n - 1], states[n], actions[n]));
        }
    }
}

proof fn lemma_run_keeps_object(
    states: Seq<ObjectTransfer>,
    events: Seq<TransferEvent>,
    actions: Seq<TransferAction>,
    k: int,
)
    requires
        is_run(states, events, actions),
        0 <= k <= events.len(),
    ensures
        states[k].object == states[0].object,
        states[k].chunk_size == states[0].chunk_size,
    decreases k,
{
    if k > 0 {
        lemma_run_keeps_object(states, events, actions, k - 1);
        assert(states[k - 1].transition(events[k - 1], states[k], actions[k]));
    }
}

/// The request names the multipart upload `id`, when it names one.
pub open spec fn names_upload(a: TransferAction, id: String) -> bool {
    &&& a matches TransferAction::UploadPart { upload_id, .. } ==> upload_id == id
    &&& a matches TransferAction::CompleteMultipartUpload { upload_id, .. } ==> upload_id == id
    &&& a matches TransferAction::AbortMultipartUpload { upload_id } ==> upload_id == id
}

proof fn lemma_run_after_creation(
    states: Seq<ObjectTransfer>,
    events: Seq<TransferEvent>,
    actions: Seq<TransferAction>,
    j: int,
    k: int,
)
    requires
        is_run(states, events, actions),
        0 <= j < k <= events.len(),
        events[j] is UploadCreated,
    ensures
        states[k].phase != Phase::FetchingMetadata && states[k].phase != Phase::Creating
            && states[k].phase != Phase::Putting,
        states[k].phase == Phase::Uploading || states[k].phase == Phase::Completing
            ==> states[k].upload_id == events[j]->UploadCreated_0,
        names_upload(actions[k], events[j]->UploadCreated_0),
    decreases k,
{
    let s = states[k - 1];
    assert(accepts(s.phase, events[k - 1]) && s.transition(events[k - 1], states[k], actions[k]));
    if k > j + 1 {
        lemma_run_after_creation(states, events, actions, j, k - 1);
    }
}

/// Over a run: once the destination has opened the multipart upload under
/// an id, every later part upload, the completion and the abort name that
/// id, and no later step creates another upload or makes a PUT.
pub proof fn lemma_run_uses_upload_id(
    states: Seq<ObjectTransfer>,
    events: Seq<TransferEvent>,
    actions: Seq<TransferAction>,
    j: int,
)
    requires
        is_run(states, events, actions),
        0 <= j < events.len(),
        events[j] is UploadCreated,
    ensures
        forall|k: int|
            j < k <= events.len() ==> names_upload(#[trigger] actions[k], events[j]->UploadCreated_0)
                && !(actions[k] is CreateMultipartUpload) && !(actions[k] is PutObject),
{
    assert forall|k: int| j < k <= events.len() implies names_upload(
        #[trigger] actions[k],
        events[j]->UploadCreated_0,
    ) && !(actions[k] is CreateMultipartUpload) && !(actions[k] is PutObject) by {
        lemma_run_after_creation(states, events, actions, j, k);
        let s = states[k - 1];
        assert(accepts(s.phase, events[k - 1]) && s.transition(events[k - 1], states[k], actions[k]));
        if k > j + 1 {
            lemma_run_after_creation(states, events, actions, j, k - 1);
        }
    }
}

} // verus!
