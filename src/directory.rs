//! Choosing the cities of a run.

use vstd::prelude::*;
use crate::records::City;
use crate::text::same_text;

verus! {

/// Whether the city's country reference is the country with code `code`.
pub open spec fn in_country(c: City, code: Seq<char>) -> bool {
    c.country matches Some(k) && k.table@ == "country"@ && k.key@ == code
}

fn is_in_country(c: &City, code: &str) -> (r: bool)
    ensures
        r == in_country(*c, code@),
{
    match &c.country {
        Some(k) => same_text(k.table.as_str(), "country") && same_text(k.key.as_str(), code),
        None => false,
    }
}

/// The cities of the directory whose country reference is `country:<code>`,
/// in directory order; a city without a country reference is left out.
pub fn select_by_country(cities: Vec<City>, code: &str) -> (r: Vec<City>)
    ensures
        r@ == cities@.filter(|c: City| in_country(c, code@)),
{
    let ghost all = cities@;
    let ghost pred = |c: City| in_country(c, code@);
    let mut rest = cities;
    let mut out: Vec<City> = Vec::new();
    let ghost mut taken: Seq<City> = Seq::empty();
    while rest.len() > 0
        invariant
            all == taken + rest@,
            pred == (|c: City| in_country(c, code@)),
            out@ == taken.filter(pred),
        decreases rest.len(),
    {
        let c = rest.remove(0);
        assert(taken.push(c).filter(pred) == if pred(c) {
            taken.filter(pred).push(c)
        } else {
            taken.filter(pred)
        }) by {
            reveal(Seq::filter);
            assert(taken.push(c).drop_last() =~= taken);
        }
        let ghost gc = c;
        let keep = is_in_country(&c, code);
        assert(keep == pred(gc));
        if keep {
            out.push(c);
        }
        proof {
            taken = taken.push(gc);
        }
    }
    assert(taken == all);
    out
}

} // verus!
