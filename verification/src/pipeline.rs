//! The invocation as a state machine. One run flows strictly left to right:
//! decode the notification, fetch the object, inflate it, ensure the
//! day-keyed stream exists, then hand out one publish action per non-empty
//! line, in order. The caller performs each returned [`Action`] against the
//! remote services and reports its outcome as the next [`Event`]; every
//! failure other than "stream already exists" ends the run, and an ended run
//! hands out nothing further.

use vstd::prelude::*;

use crate::codec::decompress_utf8;
use crate::codec::decompressed_text;
use crate::datefmt::default_group_name;
use crate::datefmt::resolve_destination;
use crate::datefmt::spec_stream_name;
use crate::lines::nonempty_lines;
use crate::lines::split_nonempty_lines;
use crate::notification::decode_notification;
use crate::notification::Notification;
use crate::types::CreateStreamError;
use crate::types::LogDestination;
use crate::types::LogRecord;
use crate::types::PipelineError;
use crate::types::ProcessingTime;
use crate::types::StorageObjectReference;

verus! {

/// What the caller must do next against the remote services.
pub enum Action {
    /// Read the named object from the object store.
    Fetch(StorageObjectReference),
    /// Create the destination stream (the pipeline's `dest`); a refusal
    /// because it already exists counts as success.
    CreateStream,
    /// Publish one record to the destination stream.
    Publish(LogRecord),
    /// The run is complete; nothing remains to do.
    Done,
}

/// The reported outcome of the action the pipeline handed out last.
pub enum Event {
    /// The object body, or the store's refusal.
    Fetched(Result<Vec<u8>, String>),
    /// Stream creation succeeded, or how it failed.
    Created(Result<(), CreateStreamError>),
    /// The last record was published, or the service's refusal.
    Published(Result<(), String>),
}

/// Where the run stands: which action is outstanding, and which lines still
/// wait for their turn.
pub enum Phase {
    /// A fetch was handed out.
    AwaitFetch,
    /// Stream creation was handed out; all lines still pend.
    AwaitCreate { pending: Vec<Vec<u8>> },
    /// A publish was handed out; `pending` holds the lines after it.
    AwaitPublish { pending: Vec<Vec<u8>> },
    /// Every line was acknowledged.
    Complete,
}

/// One invocation's state between actions.
pub struct Pipeline {
    /// The resolved destination, fixed for the whole run.
    pub dest: LogDestination,
    /// The invocation start time in milliseconds, stamped on every record.
    pub timestamp: i64,
    /// Where the run stands.
    pub phase: Phase,
    /// The decompressed text, once fetched.
    pub source: Ghost<Seq<u8>>,
    /// The messages handed out for publication so far, in order.
    pub issued: Ghost<Seq<Seq<u8>>>,
}

impl Pipeline {
    /// The lines this run must publish: the non-empty lines of the text.
    pub open spec fn lines(self) -> Seq<Seq<u8>> {
        nonempty_lines(self.source@)
    }

    /// The lines not yet handed out.
    pub open spec fn pending_lines(self) -> Seq<Seq<u8>> {
        match self.phase {
            Phase::AwaitCreate { pending } => pending.deep_view(),
            Phase::AwaitPublish { pending } => pending.deep_view(),
            _ => Seq::empty(),
        }
    }

    /// The run's invariant: what was handed out and what still pends always
    /// account exactly for the lines of the text, in order.
    pub open spec fn wf(self) -> bool {
        match self.phase {
            Phase::AwaitFetch => self.issued@.len() == 0,
            Phase::AwaitCreate { pending } => self.issued@.len() == 0 && pending.deep_view()
                == self.lines(),
            Phase::AwaitPublish { pending } => self.issued@.len() >= 1 && self.issued@
                + pending.deep_view() == self.lines(),
            Phase::Complete => self.issued@ == self.lines(),
        }
    }

    /// Which event answers the outstanding action.
    pub open spec fn accepts(self, event: Event) -> bool {
        match self.phase {
            Phase::AwaitFetch => event is Fetched,
            Phase::AwaitCreate { .. } => event is Created,
            Phase::AwaitPublish { .. } => event is Published,
            Phase::Complete => false,
        }
    }

    /// The destination and timestamp never change across a step.
    pub open spec fn frame_kept(self, p: Pipeline) -> bool {
        &&& p.dest.group@ == self.dest.group@
        &&& p.dest.stream@ == self.dest.stream@
        &&& p.timestamp == self.timestamp
    }

    /// A successful resolution or publish acknowledgment advances the run:
    /// the first pending line goes out as a record stamped with the
    /// invocation timestamp, or, with nothing pending, the run completes.
    pub open spec fn advanced(self, r: Result<(Pipeline, Action), PipelineError>) -> bool {
        &&& r matches Ok((p, a))
        &&& self.frame_kept(p)
        &&& p.source@ == self.source@
        &&& p.wf()
        &&& if self.pending_lines().len() == 0 {
            &&& p.phase is Complete
            &&& p.issued@ == self.issued@
            &&& a is Done
        } else {
            &&& p.phase is AwaitPublish
            &&& p.pending_lines() == self.pending_lines().drop_first()
            &&& p.issued@ == self.issued@.push(self.pending_lines()[0])
            &&& a matches Action::Publish(rec) && rec.message@ == self.pending_lines()[0]
                && rec.timestamp == self.timestamp
        }
    }
}

/// Hands out the next pending line, or completes the run.
fn emit_next(
    dest: LogDestination,
    timestamp: i64,
    Ghost(source): Ghost<Seq<u8>>,
    Ghost(issued): Ghost<Seq<Seq<u8>>>,
    pending: Vec<Vec<u8>>,
) -> (r: (Pipeline, Action))
    requires
        issued + pending.deep_view() == nonempty_lines(source),
    ensures
        ({
            let (p, a) = r;
            &&& p.dest == dest
            &&& p.timestamp == timestamp
            &&& p.source@ == source
            &&& p.wf()
            &&& if pending.deep_view().len() == 0 {
                &&& p.phase is Complete
                &&& p.issued@ == issued
                &&& a is Done
            } else {
                &&& p.phase is AwaitPublish
                &&& p.pending_lines() == pending.deep_view().drop_first()
                &&& p.issued@ == issued.push(pending.deep_view()[0])
                &&& a matches Action::Publish(rec) && rec.message@ == pending.deep_view()[0]
                    && rec.timestamp == timestamp
            }
        }),
{
    let mut pending = pending;
    let ghost dv0 = pending.deep_view();
    if pending.len() == 0 {
        proof {
            assert(issued + dv0 =~= issued);
        }
        (
            Pipeline { dest, timestamp, phase: Phase::Complete, source: Ghost(source), issued: Ghost(issued) },
            Action::Done,
        )
    } else {
        let line = pending.remove(0);
        proof {
            assert(line.deep_view() =~= line@);
            assert(dv0[0] == line.deep_view());
            assert(pending.deep_view() =~= dv0.drop_first());
            assert(issued.push(dv0[0]) + dv0.drop_first() =~= issued + dv0);
        }
        let rec = LogRecord { message: line, timestamp };
        let p = Pipeline {
            dest,
            timestamp,
            phase: Phase::AwaitPublish { pending },
            source: Ghost(source),
            issued: Ghost(issued.push(dv0[0])),
        };
        (p, Action::Publish(rec))
    }
}

/// Begins one invocation: decodes the notification's first record, resolves
/// the destination from the group setting and the processing day, and hands
/// out the fetch of the named object. Fails exactly when no first record
/// with a non-empty bucket and key exists; later records are ignored.
pub fn start(n: Notification, group_setting: Option<String>, now: ProcessingTime) -> (r: Result<
    (Pipeline, Action),
    PipelineError,
>)
    requires
        now.wf(),
    ensures
        r is Ok <==> n.records@.len() >= 1 && n.records@[0].names_object(),
        r matches Err(e) ==> e is Input,
        r matches Ok((p, a)) ==> {
            &&& p.wf()
            &&& p.phase is AwaitFetch
            &&& p.timestamp == now.millis
            &&& p.dest.stream@ == spec_stream_name(now)
            &&& match group_setting {
                Some(g) => p.dest.group@ == g@,
                None => p.dest.group@ == default_group_name(),
            }
            &&& a matches Action::Fetch(obj) && obj.wf() && obj.bucket@
                == n.records@[0].bucket_chars() && obj.key@ == n.records@[0].key_chars()
        },
{
    let obj = match decode_notification(n) {
        Ok(obj) => obj,
        Err(e) => {
            return Err(e);
        },
    };
    let dest = resolve_destination(group_setting, &now);
    let p = Pipeline {
        dest,
        timestamp: now.millis,
        phase: Phase::AwaitFetch,
        source: Ghost(Seq::empty()),
        issued: Ghost(Seq::empty()),
    };
    Ok((p, Action::Fetch(obj)))
}

impl Pipeline {
    /// Feeds the outcome of the outstanding action into the run and returns
    /// what to do next. Every fatal outcome ends the run with its error and
    /// consumes the pipeline, so nothing further is ever handed out after a
    /// failure; a "stream already exists" refusal advances like a success.
    pub fn step(self, event: Event) -> (r: Result<(Pipeline, Action), PipelineError>)
        requires
            self.wf(),
            self.accepts(event),
        ensures
            match event {
                Event::Fetched(res) => match res {
                    Ok(body) => match decompressed_text(body@) {
                        Some(text) => {
                            &&& r matches Ok((p, a))
                            &&& a is CreateStream
                            &&& self.frame_kept(p)
                            &&& p.wf()
                            &&& p.phase is AwaitCreate
                            &&& p.source@ == text
                            &&& p.issued@.len() == 0
                        },
                        None => r matches Err(e) && e is Decode,
                    },
                    Err(m) => r matches Err(PipelineError::Retrieval(mm)) && mm@ == m@,
                },
                Event::Created(res) => match res {
                    Ok(_) => self.advanced(r),
                    Err(CreateStreamError::AlreadyExists) => self.advanced(r),
                    Err(CreateStreamError::Other(m)) => r matches Err(
                        PipelineError::Resolution(mm),
                    ) && mm@ == m@,
                },
                Event::Published(res) => match res {
                    Ok(_) => self.advanced(r),
                    Err(m) => r matches Err(PipelineError::Publish(mm)) && mm@ == m@,
                },
            },
    {
        let ghost pre = self;
        let Pipeline { dest, timestamp, phase, source, issued } = self;
        match (phase, event) {
            (Phase::AwaitFetch, Event::Fetched(res)) => match res {
                Ok(body) => match decompress_utf8(&body) {
                    Ok(text) => {
                        let pending = split_nonempty_lines(&text);
                        let p = Pipeline {
                            dest,
                            timestamp,
                            phase: Phase::AwaitCreate { pending },
                            source: Ghost(text@),
                            issued: Ghost(Seq::empty()),
                        };
                        Ok((p, Action::CreateStream))
                    },
                    Err(e) => Err(e),
                },
                Err(m) => Err(PipelineError::Retrieval(m)),
            },
            (Phase::AwaitCreate { pending }, Event::Created(res)) => match res {
                Err(CreateStreamError::Other(m)) => Err(PipelineError::Resolution(m)),
                _ => Ok(emit_next(dest, timestamp, Ghost(source@), Ghost(issued@), pending)),
            },
            (Phase::AwaitPublish { pending }, Event::Published(res)) => match res {
                Err(m) => Err(PipelineError::Publish(m)),
                Ok(_) => Ok(emit_next(dest, timestamp, Ghost(source@), Ghost(issued@), pending)),
            },
            _ => {
                proof {
                    assert(false);
                }
                vstd::pervasive::unreached()
            },
        }
    }
}

/// A completed run has handed out exactly the non-empty lines of the
/// decompressed text, in their original order: as many publish actions as
/// there are non-empty lines, and none for the empty ones.
pub proof fn lemma_complete_publishes_all_lines(p: Pipeline)
    requires
        p.wf(),
        p.phase is Complete,
    ensures
        p.issued@ == nonempty_lines(p.source@),
{
}

/// Wherever a run stands, what it has handed out so far is a prefix of the
/// non-empty lines of the text: lines go out in document order, none is
/// skipped, and an interrupted run leaves exactly a prefix behind.
pub proof fn lemma_issued_is_prefix(p: Pipeline)
    requires
        p.wf(),
    ensures
        p.issued@.is_prefix_of(nonempty_lines(p.source@)),
{
    match p.phase {
        Phase::AwaitPublish { pending } => {
            assert(p.issued@ =~= (p.issued@ + pending.deep_view()).subrange(
                0,
                p.issued@.len() as int,
            ));
        },
        _ => {
            assert(p.issued@ =~= nonempty_lines(p.source@).subrange(0, p.issued@.len() as int));
        },
    }
}

} // verus!
