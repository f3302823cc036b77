//! Rendering a list of known option names for diagnostics.
//!
//! The unknown-option errors must enumerate every valid name of their
//! pipeline, in the form `["default", "with", "value"]`.  The one formatter
//! here is shared by all pipelines, so the text can never drift from the
//! tables it is fed.

use vstd::prelude::*;
use vstd::string::StringExecFns;

verus! {

/// `name` wrapped in double quotes.
pub open spec fn quoted(name: Seq<char>) -> Seq<char> {
    "\""@ + name + "\""@
}

/// The names quoted and joined with `", "`, without the surrounding
/// brackets.
pub open spec fn quoted_list_body(names: Seq<Seq<char>>) -> Seq<char>
    decreases names.len(),
{
    if names.len() == 0 {
        Seq::<char>::empty()
    } else if names.len() == 1 {
        quoted(names[0])
    } else {
        quoted_list_body(names.drop_last()) + ", "@ + quoted(names.last())
    }
}

/// The names quoted, joined with `", "` and bracketed, exactly as a
/// diagnostic cites them.
pub open spec fn quoted_list(names: Seq<Seq<char>>) -> Seq<char> {
    "["@ + quoted_list_body(names) + "]"@
}

/// Render `names` as `["a", "b", ...]`.
pub fn format_name_list(names: &Vec<&'static str>) -> (r: String)
    ensures
        r@ == quoted_list(names.deep_view()),
{
    let ghost dv: Seq<Seq<char>> = names.deep_view();
    let mut r = String::from_str("[");
    let mut i: usize = 0;
    while i < names.len()
        invariant
            i <= names.len(),
            dv == names.deep_view(),
            r@ == "["@ + quoted_list_body(dv.take(i as int)),
        decreases names.len() - i,
    {
        if i > 0 {
            r.append(", ");
        }
        r.append("\"");
        r.append(names[i]);
        r.append("\"");
        proof {
            let prev = dv.take(i as int);
            let cur = dv.take(i as int + 1);
            assert(cur.drop_last() =~= prev);
            assert(cur.last() == dv[i as int]);
            assert(r@ =~= "["@ + quoted_list_body(cur));
        }
        i = i + 1;
    }
    proof {
        assert(dv.take(names@.len() as int) =~= dv);
    }
    r.append("]");
    proof {
        assert(r@ =~= quoted_list(dv));
    }
    r
}

} // verus!
