//! The functions that the compiler itself provides.

pub mod color;

use crate::args::{CallArgs, CallArgsView};
use crate::builtin::color::hsl::{
    adjust_hue, adjust_hue_result, complement, complement_result, darken, darken_result,
    desaturate, desaturate_result, grayscale, grayscale_result, hsl, hsl_result, hsla, hue,
    hue_result, invert, invert_result, lighten, lighten_result, lightness, lightness_result,
    result_view, saturate, saturate_result, saturation, saturation_result, Outcome,
};
use crate::error::SassResult;
use crate::parse::Parser;
use crate::value::Value;
use vstd::hash_map::StringHashMap;
use vstd::prelude::*;

verus! {

/// A function that the compiler itself provides.
#[derive(Copy, Clone, Debug, PartialEq, Eq, Structural)]
pub enum Builtin {
    Hsl,
    Hsla,
    Hue,
    Saturation,
    AdjustHue,
    Lightness,
    Lighten,
    Darken,
    Saturate,
    Desaturate,
    Grayscale,
    Complement,
    Invert,
}

impl Builtin {
    /// What the function gives for the arguments `a`.
    pub open spec fn result(self, a: CallArgsView) -> Outcome {
        match self {
            Builtin::Hsl => hsl_result("hsl"@, a),
            Builtin::Hsla => hsl_result("hsla"@, a),
            Builtin::Hue => hue_result(a),
            Builtin::Saturation => saturation_result(a),
            Builtin::AdjustHue => adjust_hue_result(a),
            Builtin::Lightness => lightness_result(a),
            Builtin::Lighten => lighten_result(a),
            Builtin::Darken => darken_result(a),
            Builtin::Saturate => saturate_result(a),
            Builtin::Desaturate => desaturate_result(a),
            Builtin::Grayscale => grayscale_result(a),
            Builtin::Complement => complement_result(a),
            Builtin::Invert => invert_result(a),
        }
    }

    /// Calls the function with the arguments `args`.
    pub fn call(self, args: CallArgs, parser: &mut Parser) -> (r: SassResult<Value>)
        ensures
            *final(parser) == *old(parser),
            result_view(r) == self.result(args@),
    {
        match self {
            Builtin::Hsl => hsl(args, parser),
            Builtin::Hsla => hsla(args, parser),
            Builtin::Hue => hue(args, parser),
            Builtin::Saturation => saturation(args, parser),
            Builtin::AdjustHue => adjust_hue(args, parser),
            Builtin::Lightness => lightness(args, parser),
            Builtin::Lighten => lighten(args, parser),
            Builtin::Darken => darken(args, parser),
            Builtin::Saturate => saturate(args, parser),
            Builtin::Desaturate => desaturate(args, parser),
            Builtin::Grayscale => grayscale(args, parser),
            Builtin::Complement => complement(args, parser),
            Builtin::Invert => invert(args, parser),
        }
    }
}

/// The built-in functions by the names under which a style sheet calls them.
/// It is filled once, before any evaluation, and only read after that.
pub struct GlobalFunctionMap {
    functions: StringHashMap<Builtin>,
}

impl View for GlobalFunctionMap {
    type V = Map<Seq<char>, Builtin>;

    closed spec fn view(&self) -> Map<Seq<char>, Builtin> {
        self.functions@
    }
}

impl GlobalFunctionMap {
    /// A registry without any function.
    pub fn new() -> (f: GlobalFunctionMap)
        ensures
            f@ == Map::<Seq<char>, Builtin>::empty(),
    {
        GlobalFunctionMap { functions: StringHashMap::new() }
    }

    /// Registers `function` under `name`, in place of what was there under
    /// that name.
    pub fn insert(&mut self, name: &str, function: Builtin)
        ensures
            final(self)@ == old(self)@.insert(name@, function),
    {
        self.functions.insert(String::from_str(name), function);
    }

    /// The function registered under `name`, if there is one.
    pub fn get(&self, name: &str) -> (r: Option<Builtin>)
        ensures
            match r {
                Some(b) => self@.contains_key(name@) && self@[name@] == b,
                None => !self@.contains_key(name@),
            },
    {
        match self.functions.get(name) {
            Some(b) => Some(*b),
            None => None,
        }
    }
}

} // verus!
