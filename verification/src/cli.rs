use vstd::prelude::*;

verus! {

/// A valid invocation supplies exactly one argument, and that argument is
/// a non-empty path that does not begin with a flag-like dash.
pub open spec fn valid_invocation(args: Seq<String>) -> bool {
    &&& args.len() == 1
    &&& args[0]@.len() > 0
    &&& args[0]@[0] != '-'
}

/// Checks the command-line arguments (the program name already stripped)
/// and hands back the target path, or nothing on a usage error.
pub fn parse_target(args: &Vec<String>) -> (r: Option<String>)
    ensures
        r is Some <==> valid_invocation(args@),
        r is Some ==> r.unwrap()@ == args@[0]@,
{
    if args.len() != 1 {
        return None;
    }
    let s: &String = &args[0];
    if s.as_str().is_empty() {
        return None;
    }
    if s.as_str().get_char(0) == '-' {
        return None;
    }
    Some(s.clone())
}

/// The usage diagnostic, warning that the named file is destroyed.
pub fn usage_message() -> (r: String)
    ensures
        r@ == "usage: seeker DATAFILE    (note, DATAFILE will be destroyed)"@,
{
    String::from_str("usage: seeker DATAFILE    (note, DATAFILE will be destroyed)")
}

} // verus!
