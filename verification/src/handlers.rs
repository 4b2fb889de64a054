//! The handlers and the mathematical model of their replies.

use vstd::prelude::*;
use vstd::string::StringExecFns;

verus! {

/// What a greeting says before the name.
pub open spec fn greeting_prefix() -> Seq<char> {
    "Hello, "@
}

/// What a greeting says after the name.
pub open spec fn greeting_suffix() -> Seq<char> {
    "! You've been greeted from Rust!"@
}

/// The greeting for `name`: the name, character for character, between the
/// fixed prefix and the fixed suffix.
pub open spec fn greeting(name: Seq<char>) -> Seq<char> {
    greeting_prefix() + name + greeting_suffix()
}

/// Greets `name`. Every string is a name: nothing is validated, trimmed or
/// escaped.
pub fn greet(name: &str) -> (reply: String)
    ensures
        reply@ == greeting(name@),
{
    let mut reply = String::from_str("Hello, ");
    reply.append(name);
    reply.append("! You've been greeted from Rust!");
    reply
}

/// The greeting holds the name verbatim: the prefix comes first, then the
/// name with every character in its place, then the suffix, and nothing
/// else. The fixed text is 39 characters long, so the greeting is 39
/// characters longer than the name.
pub proof fn lemma_greeting_holds_name(name: Seq<char>)
    ensures
        greeting(name).len() == name.len() + 39,
        greeting(name).take(7) == greeting_prefix(),
        greeting(name).skip(7).take(name.len() as int) == name,
        greeting(name).skip(7 + name.len() as int) == greeting_suffix(),
{
    reveal_strlit("Hello, ");
    reveal_strlit("! You've been greeted from Rust!");
}

/// Greeting is repeatable: the reply is a function of the name alone, so any
/// two replies to one name are the same string.
pub proof fn lemma_greet_is_repeatable(name: &str, first: String, second: String)
    requires
        first@ == greeting(name@),
        second@ == greeting(name@),
    ensures
        first@ == second@,
{
}

/// Names that differ are greeted differently: the reply tells which name
/// was greeted.
pub proof fn lemma_greeting_tells_name(a: Seq<char>, b: Seq<char>)
    requires
        greeting(a) == greeting(b),
    ensures
        a == b,
{
    lemma_greeting_holds_name(a);
    lemma_greeting_holds_name(b);
}

/// The one reply of the custom command.
pub open spec fn custom_command_reply() -> Seq<char> {
    "Hello from my_custom_command"@
}

/// Answers the custom command. The host hands every invocation a handle to
/// the running application; the handler accepts it and does not consult it,
/// so the reply is the same for every handle, of whatever type.
pub fn my_custom_command<H>(_handle: H) -> (reply: String)
    ensures
        reply@ == custom_command_reply(),
{
    String::from_str("Hello from my_custom_command")
}

} // verus!
