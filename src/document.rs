use vstd::prelude::*;

use crate::resolver::{index_name, resolve_index, IndexLevel, TenantContext};
use crate::text::same_text;

verus! {

/// The kinds of dictionary entity that are indexed; a record's kind is fixed
/// by the topic it arrives on.
#[derive(Clone, Copy, Debug, PartialEq, Eq, Structural)]
pub enum EntityKind {
    Menu,
    Form,
    Process,
    Browser,
    Window,
}

/// The number of entity kinds.
pub const KIND_COUNT: usize = 5;

/// The entity kinds, in table order.
pub open spec fn kind_table() -> Seq<EntityKind> {
    seq![EntityKind::Menu, EntityKind::Process, EntityKind::Browser, EntityKind::Window, EntityKind::Form]
}

/// The topic whose records carry documents of kind `k`.
pub open spec fn kind_topic(k: EntityKind) -> Seq<char> {
    match k {
        EntityKind::Menu => seq!['m', 'e', 'n', 'u'],
        EntityKind::Form => seq!['f', 'o', 'r', 'm'],
        EntityKind::Process => seq!['p', 'r', 'o', 'c', 'e', 's', 's'],
        EntityKind::Browser => seq!['b', 'r', 'o', 'w', 's', 'e', 'r'],
        EntityKind::Window => seq!['w', 'i', 'n', 'd', 'o', 'w'],
    }
}

/// The base name of the indices that hold documents of kind `k`.
pub open spec fn kind_base(k: EntityKind) -> Seq<char> {
    kind_topic(k)
}

/// The kind whose topic is `t`, if any.
pub open spec fn kind_of_topic(t: Seq<char>) -> Option<EntityKind> {
    if exists|k: EntityKind| kind_topic(k) == t {
        Some(choose|k: EntityKind| kind_topic(k) == t)
    } else {
        None
    }
}

proof fn lemma_topics_distinct(a: EntityKind, b: EntityKind)
    requires
        kind_topic(a) == kind_topic(b),
    ensures
        a == b,
{
    if a != b {
        assert(kind_topic(a)[0] != kind_topic(b)[0] || kind_topic(a).len() != kind_topic(b).len()
            || kind_topic(a)[1] != kind_topic(b)[1]);
    }
}

impl EntityKind {
    /// The kind at position `i` of the topic table.
    pub fn at(i: usize) -> (r: EntityKind)
        requires
            i < KIND_COUNT,
        ensures
            r == kind_table()[i as int],
    {
        if i == 0 {
            EntityKind::Menu
        } else if i == 1 {
            EntityKind::Process
        } else if i == 2 {
            EntityKind::Browser
        } else if i == 3 {
            EntityKind::Window
        } else {
            EntityKind::Form
        }
    }

    /// The topic name of this kind.
    pub fn topic(&self) -> (r: &'static str)
        ensures
            r@ == kind_topic(*self),
    {
        match self {
            EntityKind::Menu => {
                proof { reveal_strlit("menu"); }
                "menu"
            },
            EntityKind::Form => {
                proof { reveal_strlit("form"); }
                "form"
            },
            EntityKind::Process => {
                proof { reveal_strlit("process"); }
                "process"
            },
            EntityKind::Browser => {
                proof { reveal_strlit("browser"); }
                "browser"
            },
            EntityKind::Window => {
                proof { reveal_strlit("window"); }
                "window"
            },
        }
    }

    /// The base name of the indices for this kind.
    pub fn index_base(&self) -> (r: &'static str)
        ensures
            r@ == kind_base(*self),
    {
        self.topic()
    }
}

/// Looks `topic` up in the topic table.
pub fn kind_for_topic(topic: &str) -> (r: Option<EntityKind>)
    ensures
        r == kind_of_topic(topic@),
        r is None <==> forall|k: EntityKind| kind_topic(k) != topic@,
        r is Some ==> kind_topic(r.unwrap()) == topic@,
{
    let mut i: usize = 0;
    while i < KIND_COUNT
        invariant
            i <= KIND_COUNT,
            forall|j: int| 0 <= j < i ==> kind_topic(#[trigger] kind_table()[j]) != topic@,
        decreases KIND_COUNT - i,
    {
        let k = EntityKind::at(i);
        if same_text(k.topic(), topic) {
            proof {
                let c = choose|c: EntityKind| kind_topic(c) == topic@;
                lemma_topics_distinct(c, k);
            }
            return Some(k);
        }
        i = i + 1;
    }
    proof {
        assert forall|k: EntityKind| kind_topic(k) != topic@ by {
            match k {
                EntityKind::Menu => assert(kind_table()[0] == k),
                EntityKind::Process => assert(kind_table()[1] == k),
                EntityKind::Browser => assert(kind_table()[2] == k),
                EntityKind::Window => assert(kind_table()[3] == k),
                EntityKind::Form => assert(kind_table()[4] == k),
            }
        }
    }
    None
}

/// What the decoded payload of a record holds: the document's id, the tenant
/// scope it belongs to, and its serialized body.
pub struct DocumentFields {
    pub id: String,
    pub context: TenantContext,
    pub body: String,
}

/// A document of a fixed kind, ready to be applied to the search engine.
pub struct EntityDocument {
    pub kind: EntityKind,
    pub id: String,
    pub context: TenantContext,
    pub body: String,
}

/// The index a document is written to: the most specific name that its own
/// tenant scope resolves to.
pub open spec fn target_index(d: EntityDocument) -> Seq<char> {
    index_name(kind_base(d.kind), d.context, IndexLevel::User)
}

impl EntityDocument {
    /// A document of kind `kind` made of decoded fields.
    pub fn new(kind: EntityKind, fields: DocumentFields) -> (r: EntityDocument)
        ensures
            r.kind == kind,
            r.id == fields.id,
            r.context == fields.context,
            r.body == fields.body,
    {
        EntityDocument { kind, id: fields.id, context: fields.context, body: fields.body }
    }

    /// The index this document is written to.
    pub fn index_name(&self) -> (r: String)
        ensures
            r@ == target_index(*self),
    {
        resolve_index(self.kind.index_base(), &self.context, IndexLevel::User)
    }
}

} // verus!
