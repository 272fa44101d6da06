use vstd::prelude::*;

use crate::resolver::{index_name, joined_name, resolvable_depth, resolve_index, IndexLevel, TenantContext};
use crate::text::{lower_of, lowercase};

verus! {

/// The index names that may answer for `base` in `ctx`, most specific first:
/// the deepest resolvable name, then each shallower one down to the global
/// index.
pub open spec fn fallback_names(base: Seq<char>, ctx: TenantContext) -> Seq<Seq<char>> {
    let k = resolvable_depth(ctx.segments(), 4);
    Seq::new(k + 1, |i: int| lower_of(joined_name(base, ctx.segments(), (k - i) as nat)))
}

proof fn lemma_resolvable_prefix(segs: Seq<Option<Seq<char>>>, d: nat, j: nat)
    requires
        segs.len() == 4,
        d <= 4,
        j <= resolvable_depth(segs, d),
    ensures
        forall|i: int| 0 <= i < j ==> segs[i] is Some,
        resolvable_depth(segs, j) == j,
    decreases d,
{
    if d > 0 {
        let p = resolvable_depth(segs, (d - 1) as nat);
        if p == d - 1 && segs[d - 1] is Some {
            if j == d {
                lemma_resolvable_prefix(segs, (d - 1) as nat, (d - 1) as nat);
            } else {
                lemma_resolvable_prefix(segs, (d - 1) as nat, j);
            }
        } else {
            lemma_resolvable_prefix(segs, (d - 1) as nat, j);
        }
    }
}

proof fn lemma_depth_monotone(segs: Seq<Option<Seq<char>>>, a: nat, b: nat)
    requires
        a <= b,
    ensures
        resolvable_depth(segs, a) <= resolvable_depth(segs, b),
    decreases b,
{
    if a < b {
        lemma_depth_monotone(segs, a, (b - 1) as nat);
        lemma_depth_bounded(segs, (b - 1) as nat);
    }
}

proof fn lemma_depth_bounded(segs: Seq<Option<Seq<char>>>, d: nat)
    ensures
        resolvable_depth(segs, d) <= d,
    decreases d,
{
    if d > 0 {
        lemma_depth_bounded(segs, (d - 1) as nat);
    }
}

/// The candidate index names for `base` in `ctx`, most specific first.
pub fn fallback_indices(base: &str, ctx: &TenantContext) -> (r: Vec<String>)
    ensures
        r@.len() == fallback_names(base@, *ctx).len(),
        forall|i: int| 0 <= i < r@.len() ==> #[trigger] r@[i]@ == fallback_names(base@, *ctx)[i],
        r@[0]@ == index_name(base@, *ctx, IndexLevel::User),
{
    let ghost segs = ctx.segments();
    let ghost k = resolvable_depth(segs, 4);
    proof {
        lemma_resolvable_prefix(segs, 4, k);
        assert(k <= 4) by {
            reveal_with_fuel(resolvable_depth, 5);
        }
    }
    // Raw names of depth 0, 1, .., k in order of depth.
    let mut raw: Vec<String> = Vec::new();
    raw.push(String::from_str(base));
    let mut i: usize = 0;
    loop
        invariant
            segs == ctx.segments(),
            k == resolvable_depth(segs, 4),
            k <= 4,
            i <= k,
            resolvable_depth(segs, i as nat) == i,
            forall|j: int| 0 <= j < k ==> segs[j] is Some,
            raw@.len() == i + 1,
            forall|j: int| 0 <= j <= i ==> #[trigger] raw@[j]@ == joined_name(base@, segs, j as nat),
        ensures
            i == k,
            raw@.len() == k + 1,
            forall|j: int| 0 <= j <= k ==> #[trigger] raw@[j]@ == joined_name(base@, segs, j as nat),
        decreases 4 - i,
    {
        if i == 4 {
            break;
        }
        match ctx.segment(i) {
            Some(v) => {
                let mut next = raw[i].clone();
                next.append("_");
                next.append(v.as_str());
                proof {
                    reveal_strlit("_");
                    assert(next@ =~= joined_name(base@, segs, (i + 1) as nat));
                    assert(resolvable_depth(segs, (i + 1) as nat) == i + 1);
                    lemma_depth_monotone(segs, (i + 1) as nat, 4);
                }
                raw.push(next);
                i = i + 1;
            },
            None => {
                break;
            },
        }
    }
    let mut r: Vec<String> = Vec::new();
    let mut m: usize = i + 1;
    while m > 0
        invariant
            m <= k + 1,
            raw@.len() == k + 1,
            forall|j: int| 0 <= j <= k ==> #[trigger] raw@[j]@ == joined_name(base@, segs, j as nat),
            r@.len() == k + 1 - m,
            forall|j: int| 0 <= j < r@.len() ==> #[trigger] r@[j]@ == lower_of(
                joined_name(base@, segs, (k - j) as nat),
            ),
        decreases m,
    {
        m = m - 1;
        let name = lowercase(raw[m].as_str());
        r.push(name);
    }
    proof {
        assert(r@[0]@ == lower_of(joined_name(base@, segs, k)));
    }
    r
}

/// What the search engine answered to a fetch by id.
pub enum QueryReply {
    /// The document's body.
    Hit(String),
    /// No such document in the index (or no such index).
    Miss,
    /// The query failed, with the engine's message.
    Failed(String),
}

/// A query that could not be answered.
pub struct QueryError {
    pub message: String,
}

impl QueryError {
    /// The HTTP status this error is rendered with.
    pub fn status(&self) -> (r: u16)
        ensures
            r == 500,
    {
        500
    }
}

/// A fetch by id that tries the candidate indices from the most specific to
/// the global one, until one holds the document.
pub struct IndexSearch {
    pub candidates: Vec<String>,
    pub next: usize,
}

/// Where a fetch by id stands after a reply.
pub enum SearchStep {
    /// Ask the next candidate index.
    Continue,
    /// The fetch is over, with its result: a document, a typed absence, or
    /// the failure.
    Done(Result<Option<String>, QueryError>),
}

impl IndexSearch {
    pub open spec fn wf(&self) -> bool {
        self.next < self.candidates@.len()
    }

    /// A fetch of a document of `base` for `ctx`.
    pub fn new(base: &str, ctx: &TenantContext) -> (r: IndexSearch)
        ensures
            r.wf(),
            r.next == 0,
            r.candidates@.len() == fallback_names(base@, *ctx).len(),
            forall|i: int| 0 <= i < r.candidates@.len() ==> #[trigger] r.candidates@[i]@
                == fallback_names(base@, *ctx)[i],
    {
        IndexSearch { candidates: fallback_indices(base, ctx), next: 0 }
    }

    /// The index to ask now.
    pub fn current(&self) -> (r: &String)
        requires
            self.wf(),
        ensures
            r == self.candidates@[self.next as int],
    {
        &self.candidates[self.next]
    }

    /// Takes in the reply of the current index: a hit or a failure ends the
    /// fetch; a miss moves to the next shallower index, or ends the fetch
    /// with no document after the last one.
    pub fn on_reply(&mut self, reply: QueryReply) -> (r: SearchStep)
        requires
            old(self).wf(),
        ensures
            final(self).candidates == old(self).candidates,
            match reply {
                QueryReply::Hit(b) => r == SearchStep::Done(Ok(Some(b))) && final(self).next
                    == old(self).next,
                QueryReply::Failed(m) => r == SearchStep::Done(Err(QueryError { message: m }))
                    && final(self).next == old(self).next,
                QueryReply::Miss => if old(self).next + 1 < old(self).candidates@.len() {
                    r is Continue && final(self).next == old(self).next + 1
                } else {
                    r == SearchStep::Done(Ok(None)) && final(self).next == old(self).next
                },
            },
            final(self).wf(),
    {
        match reply {
            QueryReply::Hit(b) => SearchStep::Done(Ok(Some(b))),
            QueryReply::Failed(m) => SearchStep::Done(Err(QueryError { message: m })),
            QueryReply::Miss => {
                let n = self.candidates.len();
                if self.next + 1 < n {
                    self.next = self.next + 1;
                    SearchStep::Continue
                } else {
                    SearchStep::Done(Ok(None))
                }
            },
        }
    }
}

/// A free-text search over one index.
pub struct ListRequest {
    pub index: String,
    /// The text to match; empty means every document.
    pub search_value: String,
    /// The first result to return and how many, when paged.
    pub page: Option<(u64, u64)>,
}

/// The first result of page `number` (counted from 1; 0 reads as 1) of
/// `size` results.
pub open spec fn page_start(number: u64, size: u64) -> int {
    if number == 0 {
        0
    } else {
        (number - 1) * size
    }
}

/// Builds the search for `base` in `ctx`: one index, resolved from the whole
/// context; an absent search value leaves the search unconstrained; a page is
/// applied when both its number and its size are given and its start fits.
pub fn list_request(
    base: &str,
    ctx: &TenantContext,
    search_value: Option<&str>,
    page_number: Option<u64>,
    page_size: Option<u64>,
) -> (r: ListRequest)
    ensures
        r.index@ == index_name(base@, *ctx, IndexLevel::User),
        r.search_value@ == match search_value {
            Some(s) => s@,
            None => Seq::empty(),
        },
        r.page == match (page_number, page_size) {
            (Some(n), Some(s)) => if page_start(n, s) <= u64::MAX {
                Some((page_start(n, s) as u64, s))
            } else {
                None
            },
            _ => None,
        },
{
    let index = resolve_index(base, ctx, IndexLevel::User);
    let search = match search_value {
        Some(s) => String::from_str(s),
        None => String::new(),
    };
    let page = match (page_number, page_size) {
        (Some(n), Some(s)) => {
            let before: u64 = if n == 0 { 0 } else { n - 1 };
            match before.checked_mul(s) {
                Some(start) => Some((start, s)),
                None => None,
            }
        },
        _ => None,
    };
    ListRequest { index, search_value: search, page }
}

} // verus!
