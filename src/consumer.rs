use vstd::prelude::*;

use crate::document::{kind_for_topic, kind_of_topic, DocumentFields, EntityDocument, EntityKind};
use crate::sync::{event_of, parse_event_type, plan, reply_succeeded, step_of, Applier, EngineReply, OpModel, Step};

verus! {

/// What to do with one received record.
pub enum RecordPlan {
    /// The topic is not one of the entity topics: nothing is decoded, called
    /// or committed, and it is no error.
    Ignore,
    /// The record carries no document: nothing to apply.
    Skip,
    /// Apply the record's event through this applier.
    Apply(Applier),
}

/// The document that a record's decoded fields make on a topic of kind `kind`.
pub open spec fn document_of(kind: EntityKind, f: DocumentFields) -> EntityDocument {
    EntityDocument { kind, id: f.id, context: f.context, body: f.body }
}

/// Decides how a record is handled: the topic fixes the entity kind, the key
/// the event, and the decoded payload (absent when it did not decode or held
/// no document) the document.
pub fn plan_record(topic: &str, key: &str, payload: Option<DocumentFields>) -> (r: RecordPlan)
    ensures
        kind_of_topic(topic@) is None ==> r is Ignore,
        kind_of_topic(topic@) is Some && payload is None ==> r is Skip,
        kind_of_topic(topic@) is Some && payload is Some ==> {
            &&& r is Apply
            &&& r->Apply_0.wf()
            &&& r->Apply_0.next == 0
            &&& !r->Apply_0.failed
            &&& r->Apply_0.op_models() == plan(
                event_of(key@),
                document_of(kind_of_topic(topic@).unwrap(), payload.unwrap()),
            )
        },
{
    match kind_for_topic(topic) {
        None => RecordPlan::Ignore,
        Some(kind) => match payload {
            None => RecordPlan::Skip,
            Some(fields) => {
                let doc = EntityDocument::new(kind, fields);
                let event = parse_event_type(key);
                RecordPlan::Apply(Applier::new(event, &doc))
            },
        },
    }
}

/// How a handled record leaves the partition.
#[derive(Clone, Copy, Debug, PartialEq, Eq, Structural)]
pub enum RecordOutcome {
    /// Applied: commit its offset and move on.
    Commit,
    /// Not applied: keep the committed offset and deliver it again.
    Redeliver,
    /// Nothing to apply: move on without a commit.
    Pass,
}

/// The outcome of an applier that has finished at `step`.
pub open spec fn outcome_of_step(step: Step) -> RecordOutcome {
    if step == Step::Commit {
        RecordOutcome::Commit
    } else {
        RecordOutcome::Redeliver
    }
}

/// The outcome of a record handled by `p`, once any applier has finished.
pub open spec fn outcome_spec(p: RecordPlan) -> RecordOutcome {
    match p {
        RecordPlan::Apply(a) => outcome_of_step(a.step_spec()),
        _ => RecordOutcome::Pass,
    }
}

impl RecordPlan {
    /// How the record leaves the partition.
    pub fn outcome(&self) -> (r: RecordOutcome)
        requires
            self is Apply ==> self->Apply_0.wf() && self->Apply_0.step_spec() != Step::Perform,
        ensures
            r == outcome_spec(*self),
    {
        match self {
            RecordPlan::Apply(a) => match a.step() {
                Step::Commit => RecordOutcome::Commit,
                _ => RecordOutcome::Redeliver,
            },
            _ => RecordOutcome::Pass,
        }
    }
}

/// (committed offset, next offset to deliver) after settling the record at
/// `offset` with outcome `o`.
pub open spec fn settle_spec(committed: u64, offset: u64, o: RecordOutcome) -> (u64, u64) {
    match o {
        RecordOutcome::Commit => ((offset + 1) as u64, (offset + 1) as u64),
        RecordOutcome::Redeliver => (committed, offset),
        RecordOutcome::Pass => (committed, (offset + 1) as u64),
    }
}

/// Where the consumer stands in one partition.
pub struct PartitionCursor {
    /// The committed offset: where a restarted consumer resumes.
    pub committed: u64,
    /// The offset of the next record to deliver.
    pub next: u64,
}

impl PartitionCursor {
    /// A cursor resuming at `committed`.
    pub fn new(committed: u64) -> (r: PartitionCursor)
        ensures
            r.committed == committed,
            r.next == committed,
    {
        PartitionCursor { committed, next: committed }
    }

    /// Settles the record at `offset`: only an applied record advances the
    /// committed offset, and a failed one is delivered again.
    pub fn settle(&mut self, offset: u64, o: RecordOutcome)
        requires
            offset < u64::MAX,
        ensures
            (final(self).committed, final(self).next) == settle_spec(old(self).committed, offset, o),
    {
        match o {
            RecordOutcome::Commit => {
                self.committed = offset + 1;
                self.next = offset + 1;
            },
            RecordOutcome::Redeliver => {
                self.next = offset;
            },
            RecordOutcome::Pass => {
                self.next = offset + 1;
            },
        }
    }
}

/// When an engine call fails, the applier withholds the commit: the committed
/// offset stays where it was and the same record is the next one delivered.
pub proof fn lemma_failure_redelivers(
    ops: Seq<OpModel>,
    next: nat,
    reply: EngineReply,
    committed: u64,
    offset: u64,
)
    requires
        next < ops.len(),
        !reply_succeeded(reply),
    ensures
        step_of(ops, next, !reply_succeeded(reply)) == Step::Withhold,
        outcome_of_step(step_of(ops, next, !reply_succeeded(reply))) == RecordOutcome::Redeliver,
        settle_spec(committed, offset, RecordOutcome::Redeliver) == (committed, offset),
{
}

} // verus!
