use vstd::prelude::*;

use crate::text::{lower_of, lowercase};

verus! {

/// Who is asking: each scope value is optional.
pub struct TenantContext {
    pub language: Option<String>,
    pub client_id: Option<String>,
    pub role_id: Option<String>,
    pub user_id: Option<String>,
}

/// How specific an index name is asked for.
#[derive(Clone, Copy, Debug, PartialEq, Eq, Structural)]
pub enum IndexLevel {
    Default,
    Language,
    Client,
    Role,
    User,
}

pub open spec fn opt_view(o: Option<String>) -> Option<Seq<char>> {
    match o {
        Some(s) => Some(s@),
        None => None,
    }
}

impl TenantContext {
    /// The scope values in the order in which they are appended.
    pub open spec fn segments(&self) -> Seq<Option<Seq<char>>> {
        seq![
            opt_view(self.language),
            opt_view(self.client_id),
            opt_view(self.role_id),
            opt_view(self.user_id),
        ]
    }

    /// The scope value of position `i` (0: language, .., 3: user).
    pub fn segment(&self, i: usize) -> (r: Option<&String>)
        requires
            i < 4,
        ensures
            r is Some <==> self.segments()[i as int] is Some,
            r is Some ==> r.unwrap()@ == self.segments()[i as int].unwrap(),
    {
        let r = if i == 0 {
            self.language.as_ref()
        } else if i == 1 {
            self.client_id.as_ref()
        } else if i == 2 {
            self.role_id.as_ref()
        } else {
            self.user_id.as_ref()
        };
        r
    }
}

/// How many scope segments a level asks for.
pub open spec fn level_depth(l: IndexLevel) -> nat {
    match l {
        IndexLevel::Default => 0,
        IndexLevel::Language => 1,
        IndexLevel::Client => 2,
        IndexLevel::Role => 3,
        IndexLevel::User => 4,
    }
}

pub fn depth_of(l: IndexLevel) -> (r: usize)
    ensures
        r == level_depth(l),
{
    match l {
        IndexLevel::Default => 0,
        IndexLevel::Language => 1,
        IndexLevel::Client => 2,
        IndexLevel::Role => 3,
        IndexLevel::User => 4,
    }
}

/// The number of leading segments, at most `d`, that are all present: the
/// deepest level that can be built when `d` segments are asked for.
pub open spec fn resolvable_depth(segs: Seq<Option<Seq<char>>>, d: nat) -> nat
    decreases d,
{
    if d == 0 {
        0
    } else {
        let p = resolvable_depth(segs, (d - 1) as nat);
        if p == d - 1 && segs[d - 1] is Some {
            d
        } else {
            p
        }
    }
}

/// `base`, then `_` and the value of each of the first `k` segments.
pub open spec fn joined_name(base: Seq<char>, segs: Seq<Option<Seq<char>>>, k: nat) -> Seq<char>
    decreases k,
{
    if k == 0 {
        base
    } else {
        joined_name(base, segs, (k - 1) as nat) + seq!['_'] + segs[k - 1].unwrap()
    }
}

/// The index name, before lower-casing, for `base` at `level` in `ctx`.
pub open spec fn raw_index_name(base: Seq<char>, ctx: TenantContext, level: IndexLevel) -> Seq<char> {
    joined_name(base, ctx.segments(), resolvable_depth(ctx.segments(), level_depth(level)))
}

/// The index that answers for `base` at `level` in `ctx`.
pub open spec fn index_name(base: Seq<char>, ctx: TenantContext, level: IndexLevel) -> Seq<char> {
    lower_of(raw_index_name(base, ctx, level))
}

/// Once segment `i` is missing, asking for more segments resolves to `i`.
proof fn lemma_depth_stops(segs: Seq<Option<Seq<char>>>, i: nat, d: nat)
    requires
        i < segs.len(),
        resolvable_depth(segs, i) == i,
        segs[i as int] is None,
        i <= d,
    ensures
        resolvable_depth(segs, d) == i,
    decreases d,
{
    if d > i {
        lemma_depth_stops(segs, i, (d - 1) as nat);
    }
}

/// Builds the index name for `base` at `level`: the scope segments are
/// appended in order while they are present, so a missing value degrades the
/// name to the deepest level that can be built; the result is lower-cased.
pub fn resolve_index(base: &str, ctx: &TenantContext, level: IndexLevel) -> (r: String)
    ensures
        r@ == index_name(base@, *ctx, level),
{
    let d = depth_of(level);
    let mut name = String::from_str(base);
    let mut i: usize = 0;
    while i < d
        invariant
            d == level_depth(level),
            d <= 4,
            i <= d,
            resolvable_depth(ctx.segments(), i as nat) == i,
            name@ == joined_name(base@, ctx.segments(), i as nat),
        ensures
            resolvable_depth(ctx.segments(), d as nat) == i,
            name@ == joined_name(base@, ctx.segments(), i as nat),
        decreases d - i,
    {
        match ctx.segment(i) {
            Some(v) => {
                name.append("_");
                name.append(v.as_str());
                proof {
                    reveal_strlit("_");
                    assert(name@ =~= joined_name(base@, ctx.segments(), (i + 1) as nat));
                }
                i = i + 1;
            },
            None => {
                proof {
                    lemma_depth_stops(ctx.segments(), i as nat, d as nat);
                }
                break;
            },
        }
    }
    lowercase(name.as_str())
}

/// The global index name of `base`.
pub fn default_index(base: &str, ctx: &TenantContext) -> (r: String)
    ensures
        r@ == index_name(base@, *ctx, IndexLevel::Default),
        r@ == lower_of(base@),
{
    resolve_index(base, ctx, IndexLevel::Default)
}

/// The per-language index name of `base`, or a shallower one.
pub fn language_index(base: &str, ctx: &TenantContext) -> (r: String)
    ensures
        r@ == index_name(base@, *ctx, IndexLevel::Language),
{
    resolve_index(base, ctx, IndexLevel::Language)
}

/// The per-client index name of `base`, or a shallower one.
pub fn client_index(base: &str, ctx: &TenantContext) -> (r: String)
    ensures
        r@ == index_name(base@, *ctx, IndexLevel::Client),
{
    resolve_index(base, ctx, IndexLevel::Client)
}

/// The per-role index name of `base`, or a shallower one.
pub fn role_index(base: &str, ctx: &TenantContext) -> (r: String)
    ensures
        r@ == index_name(base@, *ctx, IndexLevel::Role),
{
    resolve_index(base, ctx, IndexLevel::Role)
}

/// The per-user index name of `base`, or the deepest shallower one.
pub fn user_index(base: &str, ctx: &TenantContext) -> (r: String)
    ensures
        r@ == index_name(base@, *ctx, IndexLevel::User),
{
    resolve_index(base, ctx, IndexLevel::User)
}

/// With every scope value present, the user-level name is
/// `base_language_client_role_user`, lower-cased.
pub proof fn lemma_full_context_name(base: Seq<char>, ctx: TenantContext)
    requires
        ctx.language is Some,
        ctx.client_id is Some,
        ctx.role_id is Some,
        ctx.user_id is Some,
    ensures
        index_name(base, ctx, IndexLevel::User) == lower_of(
            base + seq!['_'] + ctx.language.unwrap()@ + seq!['_'] + ctx.client_id.unwrap()@
                + seq!['_'] + ctx.role_id.unwrap()@ + seq!['_'] + ctx.user_id.unwrap()@,
        ),
{
    let segs = ctx.segments();
    assert(resolvable_depth(segs, 4) == 4) by {
        reveal_with_fuel(resolvable_depth, 5);
    }
    assert(raw_index_name(base, ctx, IndexLevel::User) =~= base + seq!['_']
        + ctx.language.unwrap()@ + seq!['_'] + ctx.client_id.unwrap()@ + seq!['_']
        + ctx.role_id.unwrap()@ + seq!['_'] + ctx.user_id.unwrap()@) by {
        reveal_with_fuel(joined_name, 5);
    }
}

/// With only the user value missing, asking for the user-level name gives the
/// role-level name, `base_language_client_role` lower-cased.
pub proof fn lemma_missing_user_gives_role(base: Seq<char>, ctx: TenantContext)
    requires
        ctx.language is Some,
        ctx.client_id is Some,
        ctx.role_id is Some,
        ctx.user_id is None,
    ensures
        index_name(base, ctx, IndexLevel::User) == index_name(base, ctx, IndexLevel::Role),
        index_name(base, ctx, IndexLevel::User) == lower_of(
            base + seq!['_'] + ctx.language.unwrap()@ + seq!['_'] + ctx.client_id.unwrap()@
                + seq!['_'] + ctx.role_id.unwrap()@,
        ),
{
    let segs = ctx.segments();
    assert(resolvable_depth(segs, 3) == 3) by {
        reveal_with_fuel(resolvable_depth, 4);
    }
    assert(resolvable_depth(segs, 4) == 3);
    assert(raw_index_name(base, ctx, IndexLevel::Role) =~= base + seq!['_']
        + ctx.language.unwrap()@ + seq!['_'] + ctx.client_id.unwrap()@ + seq!['_']
        + ctx.role_id.unwrap()@) by {
        reveal_with_fuel(joined_name, 4);
    }
}

} // verus!
