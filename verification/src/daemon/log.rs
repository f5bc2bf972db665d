//! The text of a log entry.
//!
//! An entry is a message followed by its context, pairs of key and value, in
//! parentheses. A line in the log file is an entry behind the moment it was made.

use vstd::prelude::*;
use vstd::string::StringExecFns;

verus! {

/// The pairs as text.
pub open spec fn pair_views(args: Seq<(String, String)>) -> Seq<(Seq<char>, Seq<char>)> {
    args.map_values(|pair: (String, String)| (pair.0@, pair.1@))
}

/// One pair of the context: the key, an equals sign, the value.
pub open spec fn pair_text(pair: (Seq<char>, Seq<char>)) -> Seq<char> {
    pair.0 + "="@ + pair.1
}

/// The context: its pairs in order, a comma and a space between two of them.
pub open spec fn context_text(args: Seq<(Seq<char>, Seq<char>)>) -> Seq<char>
    decreases args.len(),
{
    if args.len() == 0 {
        Seq::empty()
    } else if args.len() == 1 {
        pair_text(args[0])
    } else {
        context_text(args.drop_last()) + ", "@ + pair_text(args.last())
    }
}

/// An entry: the message, a space, the context in parentheses.
pub open spec fn entry_text(message: Seq<char>, args: Seq<(Seq<char>, Seq<char>)>) -> Seq<char> {
    message + " ("@ + context_text(args) + ")"@
}

/// A line of the log file: the moment in square brackets, a space, the entry.
pub open spec fn line_text(stamp: Seq<char>, entry: Seq<char>) -> Seq<char> {
    "["@ + stamp + "] "@ + entry
}

/// Composes the entry for `message` with its context `args`.
pub fn entry(message: &str, args: &Vec<(String, String)>) -> (text: String)
    ensures
        text@ == entry_text(message@, pair_views(args@)),
{
    let ghost pairs = pair_views(args@);
    let mut context = String::new();
    let mut i: usize = 0;
    while i < args.len()
        invariant
            i <= args.len(),
            pairs == pair_views(args@),
            context@ == context_text(pairs.take(i as int)),
        decreases args.len() - i,
    {
        let ghost before = context@;
        if i > 0 {
            context.append(", ");
        }
        context.append(args[i].0.as_str());
        context.append("=");
        context.append(args[i].1.as_str());
        proof {
            let upto = pairs.take(i + 1);
            assert(upto.drop_last() =~= pairs.take(i as int));
            assert(upto.last() == pairs[i as int]);
            assert(context@ =~= if i > 0 {
                before + ", "@ + pair_text(pairs[i as int])
            } else {
                pair_text(pairs[i as int])
            });
        }
        i = i + 1;
    }
    assert(pairs.take(args.len() as int) =~= pairs);
    let mut text = String::from_str(message);
    text.append(" (");
    text.append(context.as_str());
    text.append(")");
    text
}

/// Composes the line that records `entry` at the moment that reads `stamp`.
pub fn stamped_line(stamp: &str, entry: &str) -> (text: String)
    ensures
        text@ == line_text(stamp@, entry@),
{
    let mut text = String::from_str("[");
    text.append(stamp);
    text.append("] ");
    text.append(entry);
    text
}

} // verus!
