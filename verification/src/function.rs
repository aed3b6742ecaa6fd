//! The function aggregate: a name, a signature with linkage and variadic
//! flags, and at most one attached statement sequence as its straight-line
//! body.

use vstd::prelude::*;
use vstd::string::*;
use crate::block::{Block, block_text};
use crate::ctype::{CType, TypeV, type_text, type_list_text, type_views, types_joined};

verus! {

/// A named callable signature, optionally paired with one body. An absent
/// parameter list renders as a void-style empty parameter list; a present
/// one lists its parameter types.
#[derive(Debug)]
pub struct Function {
    pub name: String,
    pub ret_type: CType,
    pub args: Option<Vec<CType>>,
    pub is_variadic: bool,
    pub is_static: bool,
    pub block: Option<Block>,
}

/// The mathematical model of a function.
#[verifier::ext_equal]
pub struct FunctionV {
    pub name: Seq<char>,
    pub ret_type: TypeV,
    pub args: Option<Seq<TypeV>>,
    pub is_variadic: bool,
    pub is_static: bool,
    pub block: Option<Seq<Seq<char>>>,
}

/// The models of an optional parameter list.
pub open spec fn opt_type_views(args: Option<Vec<CType>>) -> Option<Seq<TypeV>> {
    match args {
        Some(ts) => Some(type_views(ts@)),
        None => None,
    }
}

impl View for Function {
    type V = FunctionV;

    open spec fn view(&self) -> FunctionV {
        FunctionV {
            name: self.name@,
            ret_type: self.ret_type@,
            args: opt_type_views(self.args),
            is_variadic: self.is_variadic,
            is_static: self.is_static,
            block: match self.block {
                Some(b) => Some(b@),
                None => None,
            },
        }
    }
}

/// The rendering of the parameter list: the parameter types joined with
/// `", "`, then `", ..."` when the function is variadic; `void` when no
/// parameter list was specified.
pub open spec fn params_text(f: FunctionV) -> Seq<char> {
    match f.args {
        Some(ts) => type_list_text(ts) + if f.is_variadic {
            ", ..."@
        } else {
            Seq::empty()
        },
        None => "void"@,
    }
}

/// The rendering of the signature: return type, name and parenthesised
/// parameter list.
pub open spec fn sig_text(f: FunctionV) -> Seq<char> {
    type_text(f.ret_type) + " "@ + f.name + "("@ + params_text(f) + ")"@
}

/// The rendering of the bare declaration: the signature and a terminator.
pub open spec fn decl_text(f: FunctionV) -> Seq<char> {
    sig_text(f) + ";"@
}

/// The rendering of one header line: the declaration and a line break.
pub open spec fn h_text(f: FunctionV) -> Seq<char> {
    decl_text(f) + "\n"@
}

/// The static-linkage prefix, when flagged.
pub open spec fn static_text(f: FunctionV) -> Seq<char> {
    if f.is_static {
        "static "@
    } else {
        Seq::empty()
    }
}

/// The rendering of the source definition: the optional static prefix and
/// the signature, followed by exactly one of the brace-wrapped body (when a
/// body is attached) or a terminator (when none is).
pub open spec fn c_text(f: FunctionV) -> Seq<char> {
    match f.block {
        Some(lines) => static_text(f) + sig_text(f) + " "@ + block_text(lines),
        None => static_text(f) + decl_text(f),
    }
}

impl Function {
    /// A new function with the given signature and no body.
    pub fn new(
        name: &str,
        ret_type: &CType,
        args: Option<Vec<CType>>,
        is_variadic: bool,
        is_static: bool,
    ) -> (r: Function)
        ensures
            r@ == (FunctionV {
                name: name@,
                ret_type: ret_type@,
                args: opt_type_views(args),
                is_variadic: is_variadic,
                is_static: is_static,
                block: None,
            }),
    {
        Function {
            name: name.to_owned(),
            ret_type: ret_type.clone(),
            args,
            is_variadic,
            is_static,
            block: None,
        }
    }

    /// The function's name.
    pub fn name(&self) -> (r: &str)
        ensures
            r@ == self@.name,
    {
        self.name.as_str()
    }

    /// The declared return type.
    pub fn ret_type(&self) -> (r: &CType)
        ensures
            r@ == self@.ret_type,
    {
        &self.ret_type
    }

    /// The optional parameter type list.
    pub fn args(&self) -> (r: &Option<Vec<CType>>)
        ensures
            opt_type_views(*r) == self@.args,
    {
        &self.args
    }

    /// Whether the signature is variadic.
    pub fn is_variadic(&self) -> (r: bool)
        ensures
            r == self@.is_variadic,
    {
        self.is_variadic
    }

    /// Whether the function has static linkage.
    pub fn is_static(&self) -> (r: bool)
        ensures
            r == self@.is_static,
    {
        self.is_static
    }

    /// Attaches a new empty statement sequence as the body, replacing any
    /// prior body (last attach wins).
    pub fn add_block(&mut self)
        ensures
            final(self)@ == (FunctionV { block: Some(Seq::empty()), ..old(self)@ }),
    {
        self.block = Some(Block::new());
    }

    /// Attaches the given statement sequence as the body, replacing any
    /// prior body (last attach wins).
    pub fn set_block(&mut self, block: Block)
        ensures
            final(self)@ == (FunctionV { block: Some(block@), ..old(self)@ }),
    {
        self.block = Some(block);
    }

    /// Renders the signature, without a terminator.
    fn emit_sig(&self) -> (r: String)
        ensures
            r@ == sig_text(self@),
    {
        let mut s = self.ret_type.to_string();
        s.append(" ");
        s.append(self.name.as_str());
        s.append("(");
        match &self.args {
            Some(ts) => {
                let joined = types_joined(ts);
                s.append(joined.as_str());
                if self.is_variadic {
                    s.append(", ...");
                }
            },
            None => {
                s.append("void");
            },
        }
        s.append(")");
        proof {
            assert(s@ =~= sig_text(self@));
        }
        s
    }

    /// Renders the bare declaration: the signature and a terminator.
    pub fn emit_decl(&self) -> (r: String)
        ensures
            r@ == decl_text(self@),
    {
        let mut s = self.emit_sig();
        s.append(";");
        s
    }

    /// Renders the header-visible declaration line.
    pub fn emit_h(&self) -> (r: String)
        ensures
            r@ == h_text(self@),
    {
        let mut s = self.emit_decl();
        s.append("\n");
        s
    }

    /// Renders the source definition: the optional static prefix and the
    /// signature, then the body when one is attached, else a terminator.
    pub fn emit_c(&self) -> (r: String)
        ensures
            r@ == c_text(self@),
    {
        let mut s: String = if self.is_static {
            "static ".to_owned()
        } else {
            String::new()
        };
        let sig = self.emit_sig();
        s.append(sig.as_str());
        match &self.block {
            Some(b) => {
                s.append(" ");
                let body = b.emit_c();
                s.append(body.as_str());
            },
            None => {
                s.append(";");
            },
        }
        proof {
            assert(s@ =~= c_text(self@));
        }
        s
    }
}

} // verus!
