//! The evaluation context in which built-in functions run.

use crate::args::CallArgs;
use crate::builtin::color::hsl::result_view;
use crate::builtin::GlobalFunctionMap;
use crate::error::SassResult;
use crate::value::Value;
use vstd::prelude::*;

verus! {

/// The evaluator as a built-in function sees it: the registry of built-in
/// functions. It binds the arguments of a call to the parameters of the
/// function that is called.
pub struct Parser {
    pub functions: GlobalFunctionMap,
}

impl Parser {
    /// An evaluator with the given built-in functions.
    pub fn new(functions: GlobalFunctionMap) -> (p: Parser)
        ensures
            p.functions == functions,
    {
        Parser { functions }
    }

    /// Calls the built-in function `name` with the arguments `args`. Where
    /// no built-in function has that name there is nothing to call, and no
    /// error: the name may be that of a function of the style sheet.
    pub fn call(&mut self, name: &str, args: CallArgs) -> (r: Option<SassResult<Value>>)
        ensures
            *final(self) == *old(self),
            match r {
                Some(x) => old(self).functions@.contains_key(name@) && result_view(x) == old(
                    self,
                ).functions@[name@].result(args@),
                None => !old(self).functions@.contains_key(name@),
            },
    {
        match self.functions.get(name) {
            Some(function) => Some(function.call(args, self)),
            None => None,
        }
    }
}

} // verus!
