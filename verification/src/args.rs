//! The ordered token store that every pipeline stage appends to.
//!
//! The store checks nothing: which tokens are appended, and in which order,
//! is decided by the stages that use it.

use vstd::prelude::*;
use crate::text::views;

verus! {

/// An append-only list of command-line tokens, kept in insertion order.
pub struct ArgStack {
    args: Vec<String>,
}

impl View for ArgStack {
    type V = Seq<Seq<char>>;

    /// The tokens, oldest first.
    closed spec fn view(&self) -> Seq<Seq<char>> {
        views(self.args@)
    }
}

impl Default for ArgStack {
    fn default() -> (stack: ArgStack)
        ensures
            stack@ == Seq::<Seq<char>>::empty(),
    {
        ArgStack::new()
    }
}

impl ArgStack {
    /// An empty token list.
    pub fn new() -> (stack: ArgStack)
        ensures
            stack@ == Seq::<Seq<char>>::empty(),
    {
        let stack = ArgStack { args: Vec::new() };
        assert(stack@ =~= Seq::<Seq<char>>::empty());
        stack
    }

    /// Appends one token after all tokens already present and hands the
    /// store back, so that appends can be chained.
    pub fn arg(&mut self, arg: &str) -> (ret: &mut Self)
        ensures
            ret@ == old(self)@.push(arg@),
            *final(self) == *final(ret),
    {
        self.args.push(arg.to_owned());
        assert(self@ =~= old(self)@.push(arg@));
        self
    }

    /// Appends every token of `args`, in the order given.
    pub fn args(&mut self, args: &[String])
        ensures
            final(self)@ == old(self)@ + views(args@),
    {
        let mut i: usize = 0;
        while i < args.len()
            invariant
                i <= args.len(),
                self@ == old(self)@ + views(args@.take(i as int)),
            decreases args.len() - i,
        {
            self.arg(args[i].as_str());
            assert(self@ =~= old(self)@ + views(args@.take(i + 1)));
            i += 1;
        }
        assert(args@.take(args.len() as int) =~= args@);
    }

    /// The number of tokens.
    pub fn len(&self) -> (n: usize)
        ensures
            n == self@.len(),
    {
        self.args.len()
    }

    /// The token at position `i`, counted from zero in insertion order.
    pub fn get(&self, i: usize) -> (token: Option<&str>)
        ensures
            i < self@.len() ==> (token matches Some(t) && t@ == self@[i as int]),
            i >= self@.len() ==> token is None,
    {
        if i < self.args.len() {
            Some(self.args[i].as_str())
        } else {
            None
        }
    }

    /// The tokens in insertion order, for reading.
    pub fn tokens(&self) -> (tokens: &Vec<String>)
        ensures
            views(tokens@) == self@,
    {
        &self.args
    }

    /// Gives up the store and returns its tokens in insertion order.
    pub fn into_tokens(self) -> (tokens: Vec<String>)
        ensures
            views(tokens@) == self@,
    {
        self.args
    }
}

} // verus!
