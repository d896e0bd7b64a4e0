//! The greeting command.

use vstd::prelude::*;

verus! {

/// The greeting for `name`: a fixed opening, the name exactly as it was given,
/// and a fixed close.
pub open spec fn greeting_text(name: Seq<char>) -> Seq<char> {
    "Hello, "@ + name + "! Welcome to Streamio."@
}

/// Greets `name`. Every name is accepted, the empty one too, and none is
/// altered on its way into the message.
pub fn greet(name: &str) -> (message: String)
    ensures
        message@ == greeting_text(name@),
{
    let mut message = String::from_str("Hello, ");
    message.append(name);
    message.append("! Welcome to Streamio.");
    message
}

/// The greeting holds the name untouched between its opening and its close:
/// the seven characters of the opening come first, then the name, then the
/// twenty-two characters of the close, and nothing else.
pub proof fn lemma_greeting_embeds_name(name: Seq<char>)
    ensures
        greeting_text(name).len() == 7 + name.len() + 22,
        greeting_text(name).subrange(0, 7) == "Hello, "@,
        greeting_text(name).subrange(7, 7 + name.len() as int) == name,
        greeting_text(name).subrange(7 + name.len() as int, 29 + name.len() as int)
            == "! Welcome to Streamio."@,
{
    reveal_strlit("Hello, ");
    reveal_strlit("! Welcome to Streamio.");
}

/// The greeting depends on the name and on nothing else: equal names give
/// equal greetings, and different names give different greetings.
pub proof fn lemma_greeting_determined_by_name(first: Seq<char>, second: Seq<char>)
    ensures
        first == second <==> greeting_text(first) == greeting_text(second),
{
    if greeting_text(first) == greeting_text(second) {
        lemma_greeting_embeds_name(first);
        lemma_greeting_embeds_name(second);
        assert(first.len() == second.len());
        assert(first == greeting_text(first).subrange(7, 7 + first.len() as int));
    }
}

} // verus!
