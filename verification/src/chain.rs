//! The chain of causes behind an error, as one line of text.

use vstd::prelude::*;
use vstd::string::StringExecFns;

verus! {

/// An error of `anyhow`, with the causes behind it.
#[verifier::external_type_specification]
#[verifier::external_body]
pub struct ExAnyhowError(anyhow::Error);

/// The messages of the errors in the chain of `err`, `err`'s own first and
/// the root cause last.
pub uninterp spec fn chain_messages(err: anyhow::Error) -> Seq<Seq<char>>;

/// The views of a list of strings, in the list's order.
pub open spec fn string_views(strings: Seq<String>) -> Seq<Seq<char>> {
    Seq::new(strings.len(), |i: int| strings[i]@)
}

/// The messages of a chain in one line: the root cause first and the
/// outermost error last, with " => " between them.
pub open spec fn chain_text(messages: Seq<Seq<char>>) -> Seq<char>
    decreases messages.len(),
{
    if messages.len() == 0 {
        Seq::empty()
    } else if messages.len() == 1 {
        messages[0]
    } else {
        chain_text(messages.skip(1)) + " => "@ + messages[0]
    }
}

/// Walks `anyhow::Error::chain`, which starts at the error itself and ends at
/// its root cause, and writes out each error's message.
#[verifier::external_body]
fn messages_of(err: &anyhow::Error) -> (r: Vec<String>)
    ensures
        string_views(r@) == chain_messages(*err),
{
    let mut messages = Vec::new();
    for cause in err.chain() {
        messages.push(cause.to_string());
    }
    messages
}

/// Joins the messages of a chain, given from the outermost error to the root
/// cause, in reverse.
pub fn join_error_chain(messages: &Vec<String>) -> (r: String)
    ensures
        r@ == chain_text(string_views(messages@)),
{
    let ghost all = string_views(messages@);
    let n: usize = messages.len();
    let mut line = String::new();
    let mut i: usize = n;
    proof {
        assert(all.subrange(n as int, n as int) =~= Seq::<Seq<char>>::empty());
    }
    while i > 0
        invariant
            i <= n == messages.len(),
            all == string_views(messages@),
            line@ == chain_text(all.subrange(i as int, n as int)),
        decreases i,
    {
        i = i - 1;
        proof {
            let tail = all.subrange(i as int, n as int);
            assert(tail.skip(1) =~= all.subrange(i + 1, n as int));
            assert(tail[0] == messages@[i as int]@);
        }
        if i + 1 < n {
            line.append(" => ");
        }
        line.append(messages[i].as_str());
        proof {
            assert(line@ =~= chain_text(all.subrange(i as int, n as int)));
        }
    }
    proof {
        assert(all.subrange(0, n as int) =~= all);
    }
    line
}

/// Get a formatted error chain of an [`anyhow::Error`] in reverse.
pub fn get_error_chain(err: &anyhow::Error) -> (r: String)
    ensures
        r@ == chain_text(chain_messages(*err)),
{
    let messages = messages_of(err);
    join_error_chain(&messages)
}

} // verus!
