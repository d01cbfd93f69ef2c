use vstd::prelude::*;
use crate::address::{Address, AddressView, Family};
use crate::error::RouteError;

verus! {

/// The candidates of an introspection output, one per line: the address the
/// line holds, or none where it is not an address.
pub open spec fn candidates_view(c: Seq<Option<Address>>) -> Seq<Option<AddressView>> {
    c.map_values(|o: Option<Address>| match o {
        Some(a) => Some(a@),
        None => None,
    })
}

/// The first v4 address among the candidates.
pub open spec fn first_v4(c: Seq<Option<AddressView>>) -> Option<AddressView>
    decreases c.len(),
{
    if c.len() == 0 {
        None
    } else if c[0] is Some && c[0]->0.family == Family::V4 {
        c[0]
    } else {
        first_v4(c.drop_first())
    }
}

/// The last v6 address among the candidates.
pub open spec fn last_v6(c: Seq<Option<AddressView>>) -> Option<AddressView>
    decreases c.len(),
{
    if c.len() == 0 {
        None
    } else if c.last() is Some && c.last()->0.family == Family::V6 {
        c.last()
    } else {
        last_v6(c.drop_last())
    }
}

/// The gateway that adapter enumeration names: a v4 address where there is
/// one, else a v6 one.
pub open spec fn pick_gateway(c: Seq<Option<AddressView>>) -> Option<AddressView> {
    match first_v4(c) {
        Some(a) => Some(a),
        None => last_v6(c),
    }
}

proof fn lemma_first_v4_step(c: Seq<Option<AddressView>>, i: int)
    requires
        0 <= i < c.len(),
    ensures
        first_v4(c.subrange(i, c.len() as int)) == (if c[i] is Some && c[i]->0.family
            == Family::V4 {
            c[i]
        } else {
            first_v4(c.subrange(i + 1, c.len() as int))
        }),
{
    assert(c.subrange(i, c.len() as int).drop_first() =~= c.subrange(i + 1, c.len() as int));
}

proof fn lemma_last_v6_step(c: Seq<Option<AddressView>>, i: int)
    requires
        0 <= i < c.len(),
    ensures
        last_v6(c.take(i + 1)) == (if c[i] is Some && c[i]->0.family == Family::V6 {
            c[i]
        } else {
            last_v6(c.take(i))
        }),
{
    assert(c.take(i + 1).drop_last() =~= c.take(i));
}

/// Picks the default gateway out of the addresses that adapter enumeration
/// printed, one candidate per line.
pub fn select_gateway(candidates: &Vec<Option<Address>>) -> (r: Result<Address, RouteError>)
    ensures
        match pick_gateway(candidates_view(candidates@)) {
            Some(g) => r is Ok && r->Ok_0@ == g,
            None => r is Err && r->Err_0 is GatewayNotFound,
        },
{
    let ghost c = candidates_view(candidates@);
    let mut v6: Option<usize> = None;
    let mut i: usize = 0;
    assert(c.subrange(0, c.len() as int) =~= c);
    while i < candidates.len()
        invariant
            c == candidates_view(candidates@),
            0 <= i <= candidates@.len(),
            first_v4(c) == first_v4(c.subrange(i as int, c.len() as int)),
            match v6 {
                Some(k) => k < i && c[k as int] is Some && last_v6(c.take(i as int)) == c[k as int],
                None => last_v6(c.take(i as int)) is None,
            },
        decreases candidates.len() - i,
    {
        proof {
            lemma_first_v4_step(c, i as int);
            lemma_last_v6_step(c, i as int);
        }
        match &candidates[i] {
            Some(a) => {
                match a.family {
                    Family::V4 => {
                        return Ok(a.duplicate());
                    },
                    Family::V6 => {
                        v6 = Some(i);
                    },
                }
            },
            None => {},
        }
        i = i + 1;
    }
    assert(c.subrange(i as int, c.len() as int).len() == 0);
    assert(c.take(i as int) =~= c);
    match v6 {
        Some(k) => match &candidates[k] {
            Some(a) => Ok(a.duplicate()),
            None => Err(RouteError::GatewayNotFound),
        },
        None => Err(RouteError::GatewayNotFound),
    }
}

/// The gateway that a routing-table dump named, where it parsed as an address.
pub fn require_gateway(found: Option<Address>) -> (r: Result<Address, RouteError>)
    ensures
        match found {
            Some(g) => r is Ok && r->Ok_0@ == g@,
            None => r is Err && r->Err_0 is GatewayNotFound,
        },
{
    match found {
        Some(g) => Ok(g),
        None => Err(RouteError::GatewayNotFound),
    }
}

} // verus!
