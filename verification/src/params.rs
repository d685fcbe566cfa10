//! Query parameters: ordered pairs of a name and a value, and the list that
//! one request carries.

use vstd::prelude::*;

verus! {

/// The names and values of a parameter list.
pub type ParamsView = Seq<(Seq<char>, Seq<char>)>;

/// The two parameters that every request carries.
pub open spec fn protocol() -> ParamsView {
    seq![("format"@, "json"@), ("action"@, "query"@)]
}

/// The parameters of one request: those of the operation, those of the
/// protocol, and those that say what the operation is asked of.
pub open spec fn request(operation: ParamsView, target: ParamsView) -> ParamsView {
    operation + protocol() + target
}

/// One parameter.
pub fn param(name: &str, value: &str) -> (p: (String, String))
    ensures
        p.deep_view() == (name@, value@),
{
    (name.to_owned(), value.to_owned())
}

/// Appends copies of the parameters of `from` to `into`.
pub fn extend(into: &mut Vec<(String, String)>, from: &Vec<(String, String)>)
    ensures
        final(into).deep_view() == old(into).deep_view() + from.deep_view(),
{
    let ghost before = into.deep_view();
    let mut i: usize = 0;
    while i < from.len()
        invariant
            i <= from.len(),
            into.deep_view() == before + from.deep_view().subrange(0, i as int),
        decreases from.len() - i,
    {
        let ghost so_far = into.deep_view();
        into.push((from[i].0.clone(), from[i].1.clone()));
        assert(into.deep_view() =~= so_far.push(from.deep_view()[i as int]));
        assert(from.deep_view().subrange(0, i + 1) =~= from.deep_view().subrange(0, i as int).push(
            from.deep_view()[i as int],
        ));
        i = i + 1;
    }
    assert(from.deep_view().subrange(0, from.len() as int) =~= from.deep_view());
}

/// The parameter list of one request.
pub fn request_args(operation: &Vec<(String, String)>, target: &Vec<(String, String)>) -> (args:
    Vec<(String, String)>)
    ensures
        args.deep_view() == request(operation.deep_view(), target.deep_view()),
{
    let mut args: Vec<(String, String)> = Vec::new();
    assert(args.deep_view() =~= Seq::empty());
    extend(&mut args, operation);
    let ghost first = args.deep_view();
    args.push(param("format", "json"));
    let ghost second = args.deep_view();
    assert(second =~= first.push(("format"@, "json"@)));
    args.push(param("action", "query"));
    assert(args.deep_view() =~= second.push(("action"@, "query"@)));
    assert(args.deep_view() =~= operation.deep_view() + protocol());
    extend(&mut args, target);
    args
}

} // verus!
