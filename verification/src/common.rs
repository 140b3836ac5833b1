//! The invocation options and the opening contents of a call: the
//! command-line context words become one joined entry.

use vstd::prelude::*;

verus! {

/// The options of one invocation. Argument parsing itself lives with the
/// caller; this is the bare record the pipeline reads.
#[derive(Debug)]
pub struct Cli {
    /// Additional context or questions.
    pub context: Vec<String>,
    /// Model used for the main request.
    pub model: String,
    /// Model used for the simpler thinking.
    pub cheap_model: String,
    /// Enable debug output.
    pub debug: bool,
    /// Use Markdown rendering.
    pub markdown: bool,
    /// Enable the pre-processing pass.
    pub preprocess: bool,
}

/// The parts joined with one space between neighbours.
pub open spec fn join_spaces(parts: Seq<Seq<char>>) -> Seq<char>
    decreases parts.len(),
{
    if parts.len() == 0 {
        Seq::<char>::empty()
    } else if parts.len() == 1 {
        parts[0]
    } else {
        join_spaces(parts.drop_last()) + " "@ + parts.last()
    }
}

/// The contents an invocation opens with: nothing when no context words were
/// given, otherwise the words joined with spaces as one single entry.
pub fn initial_contents(context: &Vec<String>) -> (r: Vec<String>)
    ensures
        context@.len() == 0 ==> r.deep_view() == Seq::<Seq<char>>::empty(),
        context@.len() > 0 ==> r.deep_view() == seq![join_spaces(context.deep_view())],
{
    if context.len() == 0 {
        let r: Vec<String> = Vec::new();
        proof {
            assert(r.deep_view() =~= Seq::<Seq<char>>::empty());
        }
        r
    } else {
        let mut joined = String::new();
        let mut i: usize = 0;
        while i < context.len()
            invariant
                i <= context@.len(),
                joined@ == join_spaces(context.deep_view().take(i as int)),
            decreases context@.len() - i,
        {
            let ghost before = joined@;
            if i > 0 {
                joined.append(" ");
            }
            joined.append(context[i].as_str());
            i += 1;
            proof {
                let parts = context.deep_view();
                assert(parts.take(i as int).drop_last() =~= parts.take(i - 1));
                assert(parts.take(i as int).last() == parts[i - 1]);
                if i > 1 {
                    assert(joined@ =~= join_spaces(parts.take(i - 1)) + " "@ + parts[i - 1]);
                }
            }
        }
        proof {
            assert(context.deep_view().take(context@.len() as int) =~= context.deep_view());
        }
        let mut r: Vec<String> = Vec::new();
        r.push(joined);
        proof {
            assert(r.deep_view() =~= seq![join_spaces(context.deep_view())]);
        }
        r
    }
}

} // verus!
