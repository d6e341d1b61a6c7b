use vstd::prelude::*;

verus! {

/// The command line of the combiner: two input paths and an output path.
#[derive(Debug)]
pub struct Args {
    pub image1: String,
    pub image2: String,
    pub output: String,
}

/// The argument at position `n` of a command line, or the empty string where
/// the command line is too short to have one. Position 0 holds the program's
/// own name.
pub open spec fn nth_arg(argv: Seq<String>, n: int) -> Seq<char> {
    if 0 <= n < argv.len() {
        argv[n]@
    } else {
        Seq::empty()
    }
}

/// Picks the argument at position `n`; a missing argument reads as the empty
/// string.
pub fn get_nth_arg(argv: &Vec<String>, n: usize) -> (arg: String)
    ensures
        arg@ == nth_arg(argv@, n as int),
{
    if n < argv.len() {
        argv[n].clone()
    } else {
        String::new()
    }
}

impl Args {
    /// Reads the three positional arguments off a command line.
    pub fn new(argv: &Vec<String>) -> (args: Self)
        ensures
            args.image1@ == nth_arg(argv@, 1),
            args.image2@ == nth_arg(argv@, 2),
            args.output@ == nth_arg(argv@, 3),
    {
        Self {
            image1: get_nth_arg(argv, 1),
            image2: get_nth_arg(argv, 2),
            output: get_nth_arg(argv, 3),
        }
    }
}

} // verus!
