//! The `greet` command: formats a fixed greeting around a caller-supplied
//! name, verbatim, with no trimming or escaping.

use vstd::prelude::*;
use vstd::string::StringExecFns;

verus! {

/// The characters of the greeting for `name`: the name embedded verbatim
/// between two fixed fragments.
pub open spec fn greet_chars(name: Seq<char>) -> Seq<char> {
    "Hello, "@ + name + "! You've been greeted from Rust!"@
}

/// Builds the greeting for `name` by direct substitution. Accepts any text,
/// including the empty string; never fails.
pub fn greet(name: &str) -> (r: String)
    ensures
        r@ == greet_chars(name@),
{
    let mut r = String::from_str("Hello, ");
    r.append(name);
    r.append("! You've been greeted from Rust!");
    r
}

/// The greeting is a function of the name alone: two calls of `greet` on the
/// same name return the same characters.
pub proof fn lemma_greet_deterministic(name: Seq<char>, r1: Seq<char>, r2: Seq<char>)
    requires
        r1 == greet_chars(name),
        r2 == greet_chars(name),
    ensures
        r1 == r2,
{
}

/// The greeting embeds the name verbatim: it is exactly 39 characters longer
/// than the name, and the name reappears unchanged after the 7-character
/// opening fragment.
pub proof fn lemma_greet_embeds_name(name: Seq<char>)
    ensures
        greet_chars(name).len() == name.len() + 39,
        greet_chars(name).subrange(7, 7 + name.len() as int) =~= name,
{
    reveal_strlit("Hello, ");
    reveal_strlit("! You've been greeted from Rust!");
}

/// The name of the one operation the shell exposes to its user interface.
pub fn command_name() -> (s: &'static str)
    ensures
        s@ == "greet"@,
{
    "greet"
}

/// Dispatches an invocation from the user interface: `greet` is the only
/// registered operation, so any other command name is rejected.
pub fn invoke(command: &str, name: &str) -> (r: Option<String>)
    ensures
        command@ == "greet"@ ==> (r matches Some(g) && g@ == greet_chars(name@)),
        command@ != "greet"@ ==> r is None,
{
    let c = String::from_str(command);
    let g = String::from_str("greet");
    if c == g {
        Some(greet(name))
    } else {
        None
    }
}

} // verus!
