//! The error of the library: a message and the messages of what caused it.

use crate::text::views;
use vstd::prelude::*;
use vstd::string::*;

verus! {

/// A failure, told by its messages from the outermost context to the cause.
#[derive(Debug)]
pub struct UpError {
    /// The messages, outermost first.
    pub chain: Vec<String>,
}

impl View for UpError {
    type V = Seq<Seq<char>>;

    open spec fn view(&self) -> Seq<Seq<char>> {
        views(self.chain@)
    }
}

impl UpError {
    /// A failure with one message.
    pub fn new(message: String) -> (res: Self)
        ensures
            res@ == seq![message@],
    {
        let mut chain: Vec<String> = Vec::new();
        chain.push(message);
        let res = UpError { chain };
        assert(res@ =~= seq![message@]);
        res
    }

    /// A failure with one message, given as a literal.
    pub fn from_text(message: &str) -> (res: Self)
        ensures
            res@ == seq![message@],
    {
        UpError::new(message.to_owned())
    }

    /// The same failure, seen in a wider context.
    pub fn context(self, message: &str) -> (res: Self)
        ensures
            res@ == seq![message@] + self@,
    {
        let mut chain = self.chain;
        chain.insert(0, message.to_owned());
        let res = UpError { chain };
        assert(res@ =~= seq![message@] + self@);
        res
    }

    /// The outermost message; empty where there is none.
    pub fn message(&self) -> (res: String)
        ensures
            res@ == if self@.len() > 0 {
                self@[0]
            } else {
                Seq::<char>::empty()
            },
    {
        if self.chain.len() > 0 {
            self.chain[0].clone()
        } else {
            String::new()
        }
    }
}

} // verus!
