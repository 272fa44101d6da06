use vstd::prelude::*;

use crate::document::{kind_base, target_index, EntityDocument};
use crate::query::fallback_names;
use crate::text::{same_text, strip_quotes, without_quotes};

verus! {

/// The event a record announces, read from its key.
#[derive(Clone, Copy, Debug, PartialEq, Eq, Structural)]
pub enum EventType {
    New,
    Update,
    Delete,
    Other,
}

/// The event named by a record key: quotes are dropped, then the text must be
/// exactly `new`, `update` or `delete`.
pub open spec fn event_of(key: Seq<char>) -> EventType {
    let t = without_quotes(key);
    if t == seq!['n', 'e', 'w'] {
        EventType::New
    } else if t == seq!['u', 'p', 'd', 'a', 't', 'e'] {
        EventType::Update
    } else if t == seq!['d', 'e', 'l', 'e', 't', 'e'] {
        EventType::Delete
    } else {
        EventType::Other
    }
}

/// Reads the event type from a record key.
pub fn parse_event_type(key: &str) -> (r: EventType)
    ensures
        r == event_of(key@),
{
    let t = strip_quotes(key);
    proof {
        reveal_strlit("new");
        reveal_strlit("update");
        reveal_strlit("delete");
        assert("new"@ =~= seq!['n', 'e', 'w']);
        assert("update"@ =~= seq!['u', 'p', 'd', 'a', 't', 'e']);
        assert("delete"@ =~= seq!['d', 'e', 'l', 'e', 't', 'e']);
    }
    if same_text(t.as_str(), "new") {
        EventType::New
    } else if same_text(t.as_str(), "update") {
        EventType::Update
    } else if same_text(t.as_str(), "delete") {
        EventType::Delete
    } else {
        EventType::Other
    }
}

/// A call to make on the search engine.
pub enum EngineOp {
    /// Index `body` under `id` in `index`.
    Create { index: String, id: String, body: String },
    /// Remove the document `id` from `index`.
    Delete { index: String, id: String },
}

/// An engine call as values.
pub enum OpModel {
    Create(Seq<char>, Seq<char>, Seq<char>),
    Delete(Seq<char>, Seq<char>),
}

impl View for EngineOp {
    type V = OpModel;

    open spec fn view(&self) -> OpModel {
        match self {
            EngineOp::Create { index, id, body } => OpModel::Create(index@, id@, body@),
            EngineOp::Delete { index, id } => OpModel::Delete(index@, id@),
        }
    }
}

/// What the search engine answered to a call.
pub enum EngineReply {
    /// The call took effect.
    Done,
    /// The document to delete was not there.
    NotFound,
    /// The call failed, with the engine's message.
    Failed(String),
}

/// A reply that lets the record go on: anything but a failure.
pub open spec fn reply_succeeded(r: EngineReply) -> bool {
    !(r is Failed)
}

/// The engine calls an event makes for a document, in order.
pub open spec fn plan(e: EventType, d: EntityDocument) -> Seq<OpModel> {
    let create = OpModel::Create(target_index(d), d.id@, d.body@);
    let delete = OpModel::Delete(target_index(d), d.id@);
    match e {
        EventType::New => seq![create],
        EventType::Update => seq![delete, create],
        EventType::Delete => seq![delete],
        EventType::Other => Seq::empty(),
    }
}

pub open spec fn ops_view(ops: Seq<EngineOp>) -> Seq<OpModel> {
    ops.map_values(|o: EngineOp| o@)
}

/// What to do next for the record being applied.
#[derive(Clone, Copy, Debug, PartialEq, Eq, Structural)]
pub enum Step {
    /// Make the pending engine call and report its reply.
    Perform,
    /// Every call succeeded: commit the record's offset.
    Commit,
    /// A call failed: leave the offset where it is.
    Withhold,
}

/// Applies one event to the search engine, one call at a time; the caller
/// makes each call and reports the engine's reply.
pub struct Applier {
    pub ops: Vec<EngineOp>,
    pub next: usize,
    pub failed: bool,
}

/// The step an applier in state (`ops`, `next`, `failed`) is at.
pub open spec fn step_of(ops: Seq<OpModel>, next: nat, failed: bool) -> Step {
    if failed {
        Step::Withhold
    } else if next < ops.len() {
        Step::Perform
    } else {
        Step::Commit
    }
}

impl Applier {
    pub open spec fn wf(&self) -> bool {
        self.next <= self.ops@.len()
    }

    pub open spec fn op_models(&self) -> Seq<OpModel> {
        ops_view(self.ops@)
    }

    pub open spec fn step_spec(&self) -> Step {
        step_of(self.op_models(), self.next as nat, self.failed)
    }

    /// An applier for `event` on `doc`, before any engine call.
    pub fn new(event: EventType, doc: &EntityDocument) -> (r: Applier)
        ensures
            r.wf(),
            r.op_models() == plan(event, *doc),
            r.next == 0,
            !r.failed,
    {
        let index = doc.index_name();
        let mut ops: Vec<EngineOp> = Vec::new();
        match event {
            EventType::New => {
                ops.push(EngineOp::Create { index, id: doc.id.clone(), body: doc.body.clone() });
            },
            EventType::Update => {
                ops.push(EngineOp::Delete { index: index.clone(), id: doc.id.clone() });
                ops.push(EngineOp::Create { index, id: doc.id.clone(), body: doc.body.clone() });
            },
            EventType::Delete => {
                ops.push(EngineOp::Delete { index, id: doc.id.clone() });
            },
            EventType::Other => {},
        }
        let r = Applier { ops, next: 0, failed: false };
        assert(r.op_models() =~= plan(event, *doc));
        r
    }

    /// What to do next.
    pub fn step(&self) -> (r: Step)
        requires
            self.wf(),
        ensures
            r == self.step_spec(),
    {
        if self.failed {
            Step::Withhold
        } else if self.next < self.ops.len() {
            Step::Perform
        } else {
            Step::Commit
        }
    }

    /// The engine call to make now.
    pub fn pending(&self) -> (r: &EngineOp)
        requires
            self.wf(),
            self.step_spec() == Step::Perform,
        ensures
            r@ == self.op_models()[self.next as int],
    {
        assert(self.op_models().len() == self.ops@.len());
        &self.ops[self.next]
    }

    /// Takes in the engine's reply to the pending call: a failure stops the
    /// record, anything else moves on to the next call.
    pub fn record(&mut self, reply: &EngineReply)
        requires
            old(self).wf(),
            old(self).step_spec() == Step::Perform,
        ensures
            final(self).wf(),
            final(self).ops == old(self).ops,
            final(self).failed == !reply_succeeded(*reply),
            final(self).next == if reply_succeeded(*reply) {
                old(self).next + 1
            } else {
                old(self).next as int
            },
    {
        assert(self.op_models().len() == self.ops@.len());
        let n = self.ops.len();
        assert(self.next < n);
        match reply {
            EngineReply::Failed(_) => {
                self.failed = true;
            },
            _ => {
                self.next = self.next + 1;
            },
        }
    }
}

/// The documents held by the search engine, by (index, id).
pub type Store = Map<(Seq<char>, Seq<char>), Seq<char>>;

/// What a document lookup finds.
pub open spec fn lookup(s: Store, index: Seq<char>, id: Seq<char>) -> Option<Seq<char>> {
    if s.dom().contains((index, id)) {
        Some(s[(index, id)])
    } else {
        None
    }
}

/// The store after an engine call that succeeds.
pub open spec fn effect(s: Store, op: OpModel) -> Store {
    match op {
        OpModel::Create(index, id, body) => s.insert((index, id), body),
        OpModel::Delete(index, id) => s.remove((index, id)),
    }
}

/// How a working engine answers a call on `s`.
pub open spec fn engine_answer(s: Store, op: OpModel) -> EngineReply {
    match op {
        OpModel::Create(_, _, _) => EngineReply::Done,
        OpModel::Delete(index, id) => if s.dom().contains((index, id)) {
            EngineReply::Done
        } else {
            EngineReply::NotFound
        },
    }
}

/// The store after a sequence of calls that all succeed.
pub open spec fn run(s: Store, ops: Seq<OpModel>) -> Store
    decreases ops.len(),
{
    if ops.len() == 0 {
        s
    } else {
        run(effect(s, ops[0]), ops.drop_first())
    }
}

/// Deleting a document a second time changes nothing: the engine answers
/// not-found, which the applier takes as success.
pub proof fn lemma_delete_twice(s: Store, d: EntityDocument)
    ensures
        run(run(s, plan(EventType::Delete, d)), plan(EventType::Delete, d)) == run(
            s,
            plan(EventType::Delete, d),
        ),
        engine_answer(run(s, plan(EventType::Delete, d)), plan(EventType::Delete, d)[0])
            is NotFound,
        reply_succeeded(
            engine_answer(run(s, plan(EventType::Delete, d)), plan(EventType::Delete, d)[0]),
        ),
{
    let p = plan(EventType::Delete, d);
    let s1 = run(s, p);
    assert(s1 == s.remove((target_index(d), d.id@))) by {
        reveal_with_fuel(run, 2);
    }
    assert(run(s1, p) == s1.remove((target_index(d), d.id@))) by {
        reveal_with_fuel(run, 2);
    }
    assert(s1.remove((target_index(d), d.id@)) =~= s1);
}

/// An update leaves the engine as a delete followed by a create would, and a
/// later fetch of the document in its own scope finds its new body in the
/// first index the fetch asks.
pub proof fn lemma_update_is_delete_then_create(s: Store, d: EntityDocument)
    ensures
        run(s, plan(EventType::Update, d)) == run(
            run(s, plan(EventType::Delete, d)),
            plan(EventType::New, d),
        ),
        lookup(run(s, plan(EventType::Update, d)), target_index(d), d.id@) == Some(d.body@),
        fallback_names(kind_base(d.kind), d.context)[0] == target_index(d),
{
    let u = plan(EventType::Update, d);
    assert(u.drop_first() =~= plan(EventType::New, d));
    reveal_with_fuel(run, 3);
    assert(run(s, u) == run(effect(s, u[0]), u.drop_first()));
    assert(run(s, plan(EventType::Delete, d)) == effect(s, u[0]));
}

} // verus!
