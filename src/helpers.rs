//! The greeting and its line.
use vstd::prelude::*;

verus! {

/// The greeting, without its line ending.
pub open spec fn greeting_text() -> Seq<char> {
    "Hello, world!"@
}

/// The whole line that the program writes: the greeting, then one newline.
pub open spec fn greeting_line() -> Seq<char> {
    greeting_text().push('\n')
}

/// The greeting line is exactly one line: it is not empty, it ends with a
/// newline, and no other character of it is a newline.
pub proof fn lemma_greeting_is_one_line()
    ensures
        greeting_line().len() > 0,
        greeting_line().last() == '\n',
        forall|i: int| 0 <= i < greeting_line().len() - 1 ==> greeting_line()[i] != '\n',
{
    reveal_strlit("Hello, world!");
    assert(greeting_text().len() == 13);
    assert forall|i: int| 0 <= i < greeting_line().len() - 1 implies greeting_line()[i] != '\n' by {
        assert(greeting_line()[i] == greeting_text()[i]);
    }
}

/// Returns the line to write to standard output: `Hello, world!` and a newline.
pub fn greet() -> (line: String)
    ensures
        line@ == greeting_line(),
{
    let text = "Hello, world!\n";
    proof {
        reveal_strlit("Hello, world!\n");
        reveal_strlit("Hello, world!");
        assert(text@ =~= greeting_line());
    }
    text.to_owned()
}

} // verus!
