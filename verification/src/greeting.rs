use vstd::prelude::*;

verus! {

/// The text a greeting is made of: the greeting, a space, the name and `!`.
pub open spec fn spec_greeting(name: Seq<char>, greeting: Seq<char>) -> Seq<char> {
    greeting + seq![' '] + name + seq!['!']
}

/// Greets `name` with `greeting`, as in `"Hello Sam!"`.
pub fn base_greeting_fn(name: &str, greeting: &str) -> (res: String)
    ensures
        res@ == spec_greeting(name@, greeting@),
        res@ == greeting@ + seq![' '] + name@ + seq!['!'],
{
    let mut res = String::new();
    res.append(greeting);
    res.append(" ");
    res.append(name);
    res.append("!");
    proof {
        reveal_strlit(" ");
        reveal_strlit("!");
    }
    assert(res@ =~= spec_greeting(name@, greeting@));
    res
}

} // verus!
