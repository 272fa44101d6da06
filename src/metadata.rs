use vstd::prelude::*;

use crate::resolver::{index_name, resolve_index, IndexLevel, TenantContext};

verus! {

/// The character of decimal digit `d`.
pub open spec fn digit_char(d: nat) -> char {
    if d == 0 { '0' }
    else if d == 1 { '1' }
    else if d == 2 { '2' }
    else if d == 3 { '3' }
    else if d == 4 { '4' }
    else if d == 5 { '5' }
    else if d == 6 { '6' }
    else if d == 7 { '7' }
    else if d == 8 { '8' }
    else { '9' }
}

/// The decimal digits of `n`, without leading zeros.
pub open spec fn digits_of(n: nat) -> Seq<char>
    decreases n,
{
    if n < 10 {
        seq![digit_char(n)]
    } else {
        digits_of(n / 10).push(digit_char(n % 10))
    }
}

/// The decimal text of `n`, with a leading `-` when negative.
pub open spec fn decimal_of(n: int) -> Seq<char> {
    if n < 0 {
        seq!['-'] + digits_of((-n) as nat)
    } else {
        digits_of(n as nat)
    }
}

/// Relies on `i32`'s `Display` (through `to_string`): the decimal digits, a
/// leading minus sign for a negative number, no leading zeros.
#[verifier::external_body]
fn decimal(n: i32) -> (r: String)
    ensures
        r@ == decimal_of(n as int),
{
    n.to_string()
}

fn decimal_opt(o: Option<i32>) -> (r: Option<String>)
    ensures
        r is Some <==> o is Some,
        r is Some ==> r.unwrap()@ == decimal_of(o.unwrap() as int),
{
    match o {
        Some(n) => Some(decimal(n)),
        None => None,
    }
}

/// The parameters of a request: an optional index base name and tenant scope
/// with numeric ids.
pub struct Metadata {
    pub index_value: Option<String>,
    pub language: Option<String>,
    pub client_id: Option<i32>,
    pub role_id: Option<i32>,
    pub user_id: Option<i32>,
}

impl Metadata {
    /// The tenant context these parameters describe, ids as decimal text.
    pub fn context(&self) -> (r: TenantContext)
        ensures
            r.language == self.language,
            r.client_id is Some <==> self.client_id is Some,
            r.role_id is Some <==> self.role_id is Some,
            r.user_id is Some <==> self.user_id is Some,
            r.client_id is Some ==> r.client_id.unwrap()@ == decimal_of(self.client_id.unwrap() as int),
            r.role_id is Some ==> r.role_id.unwrap()@ == decimal_of(self.role_id.unwrap() as int),
            r.user_id is Some ==> r.user_id.unwrap()@ == decimal_of(self.user_id.unwrap() as int),
    {
        let language = match &self.language {
            Some(l) => Some(l.clone()),
            None => None,
        };
        TenantContext {
            language,
            client_id: decimal_opt(self.client_id),
            role_id: decimal_opt(self.role_id),
            user_id: decimal_opt(self.user_id),
        }
    }

    /// The index for these parameters at `level`, when a base name is given.
    pub fn index_name(&self, level: IndexLevel) -> (r: Option<String>)
        ensures
            r is Some <==> self.index_value is Some,
            r is Some ==> exists|ctx: TenantContext|
                ctx.language == self.language
                && opt_view_eq(ctx.client_id, self.client_id)
                && opt_view_eq(ctx.role_id, self.role_id)
                && opt_view_eq(ctx.user_id, self.user_id)
                && r.unwrap()@ == index_name(self.index_value.unwrap()@, ctx, level),
    {
        match &self.index_value {
            Some(base) => {
                let ctx = self.context();
                let r = resolve_index(base.as_str(), &ctx, level);
                assert(opt_view_eq(ctx.client_id, self.client_id));
                assert(opt_view_eq(ctx.role_id, self.role_id));
                assert(opt_view_eq(ctx.user_id, self.user_id));
                Some(r)
            },
            None => None,
        }
    }
}

/// `s` holds the decimal text of `n`, or both are absent.
pub open spec fn opt_view_eq(s: Option<String>, n: Option<i32>) -> bool {
    match (s, n) {
        (Some(t), Some(v)) => t@ == decimal_of(v as int),
        (None, None) => true,
        _ => false,
    }
}

} // verus!
