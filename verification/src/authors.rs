//! Natural-language listing of commit authors.

use vstd::prelude::*;
use vstd::string::*;

verus! {

/// The names held by a vector of strings, each as a sequence of characters.
pub open spec fn names_of(items: Seq<String>) -> Seq<Seq<char>> {
    items.map_values(|s: String| s@)
}

/// The names separated by `", "`, in order.
pub open spec fn comma_joined(names: Seq<Seq<char>>) -> Seq<char>
    decreases names.len(),
{
    if names.len() == 0 {
        Seq::empty()
    } else if names.len() == 1 {
        names[0]
    } else {
        comma_joined(names.drop_last()) + ", "@ + names.last()
    }
}

/// The names as an English list: nothing for no name, the name itself for
/// one, `A and B` for two, and `A, B, and C` for three or more.
///
/// Names are listed in the order given. A name that occurs more than once,
/// consecutively or not, is listed as often as it occurs.
pub open spec fn listed(names: Seq<Seq<char>>) -> Seq<char> {
    if names.len() == 0 {
        Seq::empty()
    } else if names.len() == 1 {
        names[0]
    } else if names.len() == 2 {
        names[0] + " and "@ + names[1]
    } else {
        comma_joined(names.drop_last()) + ", and "@ + names.last()
    }
}

/// Joins `items` into an English list; see [`listed`].
pub fn format_list(items: Vec<String>) -> (out: String)
    ensures
        out@ == listed(names_of(items@)),
{
    let n: usize = items.len();
    let ghost names = names_of(items@);
    if n == 0 {
        return String::new();
    }
    let mut out: String = items[0].clone();
    if n == 1 {
        return out;
    }
    if n == 2 {
        out.append(" and ");
        out.append(items[1].as_str());
        return out;
    }
    let mut i: usize = 1;
    proof {
        assert(names.subrange(0, 1).len() == 1);
    }
    while i < n - 1
        invariant
            n == items.len(),
            names == names_of(items@),
            1 <= i <= n - 1,
            out@ == comma_joined(names.subrange(0, i as int)),
        decreases n - i,
    {
        out.append(", ");
        out.append(items[i].as_str());
        proof {
            let next = names.subrange(0, i + 1);
            assert(next.drop_last() =~= names.subrange(0, i as int));
            assert(next.last() == names[i as int]);
        }
        i += 1;
    }
    out.append(", and ");
    out.append(items[n - 1].as_str());
    proof {
        assert(names.drop_last() =~= names.subrange(0, n - 1));
    }
    out
}

} // verus!
