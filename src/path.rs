use vstd::prelude::*;

verus! {

/// Appending a relative component to a path: a `/` goes between the two unless
/// the base is empty or already ends with one.
pub open spec fn join_spec(base: Seq<char>, name: Seq<char>) -> Seq<char> {
    if base.len() > 0 && base.last() != '/' {
        base + seq!['/'] + name
    } else {
        base + name
    }
}

/// Joins a relative component `name` onto `base`, the way a path is extended
/// by one component on a Unix system.
pub fn join_relative(base: &str, name: &str) -> (r: String)
    requires
        name@.len() == 0 || name@[0] != '/',
    ensures
        r@ == join_spec(base@, name@),
{
    let n = base.unicode_len();
    let mut r = String::from_str(base);
    if n > 0 && base.get_char(n - 1) != '/' {
        let sep = "/";
        proof {
            reveal_strlit("/");
        }
        r.append(sep);
        assert(sep@ =~= seq!['/']);
    }
    r.append(name);
    r
}

} // verus!
