//! The statement cursor: appends formatted statements (calls, returns) into
//! the one statement sequence it currently targets. The cursor owns the
//! sequence it fills, which makes the exclusive-target discipline a fact of
//! the type system; a finished sequence is taken back out and attached to
//! its function.

use vstd::prelude::*;
use vstd::string::*;
use crate::block::Block;
use crate::callvalue::CallValue;
use crate::ctype::type_text;
use crate::cvalue::{CValue, ValueV, value_views, value_list_text, values_joined};
use crate::function::{Function, FunctionV};

verus! {

/// A cursor that targets at most one statement sequence at a time.
#[derive(Debug)]
pub struct Builder {
    pub block: Option<Block>,
}

/// The model of the cursor: the lines of the targeted sequence, if any.
pub open spec fn builder_view(b: Builder) -> Option<Seq<Seq<char>>> {
    match b.block {
        Some(blk) => Some(blk@),
        None => None,
    }
}

impl View for Builder {
    type V = Option<Seq<Seq<char>>>;

    open spec fn view(&self) -> Option<Seq<Seq<char>>> {
        builder_view(*self)
    }
}

/// The targeted sequence after appending one line: unchanged when the
/// cursor targets nothing, else the line is at the end.
pub open spec fn with_line(b: Option<Seq<Seq<char>>>, line: Seq<char>) -> Option<Seq<Seq<char>>> {
    match b {
        Some(lines) => Some(lines.push(line)),
        None => None,
    }
}

/// The model of an optional result name.
pub open spec fn opt_name_view(name: Option<&str>) -> Option<Seq<char>> {
    match name {
        Some(n) => Some(n@),
        None => None,
    }
}

/// The rendering of one call statement: with a result name, a typed
/// assignment of the call; without one, the bare call.
pub open spec fn call_line_text(
    f: FunctionV,
    args: Seq<ValueV>,
    name: Option<Seq<char>>,
) -> Seq<char> {
    match name {
        Some(n) => type_text(f.ret_type) + " "@ + n + " = "@ + f.name + "("@ + value_list_text(
            args,
        ) + ");"@,
        None => f.name + "("@ + value_list_text(args) + ");"@,
    }
}

/// The rendering of one return statement.
pub open spec fn return_line_text(v: ValueV) -> Seq<char> {
    "return "@ + crate::cvalue::value_text(v) + ";"@
}

impl Builder {
    /// A cursor that targets nothing yet.
    pub fn new() -> (r: Builder)
        ensures
            r@ is None,
    {
        Builder { block: None }
    }

    /// Targets the given statement sequence for all subsequent appends,
    /// handing back the previously targeted sequence, if any.
    pub fn position_at_end(&mut self, block: Block) -> (r: Option<Block>)
        ensures
            final(self)@ == Some(block@),
            match r {
                Some(b) => old(self)@ == Some(b@),
                None => old(self)@ is None,
            },
    {
        let prev = self.block.take();
        self.block = Some(block);
        prev
    }

    /// Takes the targeted sequence back out, leaving the cursor targeting
    /// nothing.
    pub fn take_block(&mut self) -> (r: Option<Block>)
        ensures
            final(self)@ is None,
            match r {
                Some(b) => old(self)@ == Some(b@),
                None => old(self)@ is None,
            },
    {
        self.block.take()
    }

    /// Appends one line to the targeted sequence; without a target the line
    /// is dropped.
    fn add_line(&mut self, line: &str)
        ensures
            final(self)@ == with_line(old(self)@, line@),
    {
        let b = self.block.take();
        match b {
            Some(mut blk) => {
                blk.add_line(line);
                self.block = Some(blk);
            },
            None => {},
        }
    }

    /// Appends one call statement for the given callee and arguments: a
    /// typed assignment when a result name is given, the bare call when
    /// none is. Returns the handle carrying the callee's declared return
    /// type. No arity or type check against the callee signature is made.
    pub fn build_call(&mut self, function: &Function, args: Vec<CValue>, name: Option<&str>) -> (r:
        CallValue)
        ensures
            r@ == function@.ret_type,
            final(self)@ == with_line(
                old(self)@,
                call_line_text(function@, value_views(args@), opt_name_view(name)),
            ),
    {
        let joined = values_joined(&args);
        let line: String = match name {
            Some(n) => {
                let mut l = function.ret_type().to_string();
                l.append(" ");
                l.append(n);
                l.append(" = ");
                l.append(function.name());
                l.append("(");
                l.append(joined.as_str());
                l.append(");");
                proof {
                    assert(l@ =~= call_line_text(
                        function@,
                        value_views(args@),
                        opt_name_view(name),
                    ));
                }
                l
            },
            None => {
                let mut l = function.name().to_owned();
                l.append("(");
                l.append(joined.as_str());
                l.append(");");
                proof {
                    assert(l@ =~= call_line_text(
                        function@,
                        value_views(args@),
                        opt_name_view(name),
                    ));
                }
                l
            },
        };
        self.add_line(line.as_str());
        CallValue::new(function.ret_type())
    }

    /// Appends one return statement for the given value. The append is
    /// unconditional: no check against the enclosing function's return type
    /// is made.
    pub fn build_return(&mut self, value: &CValue)
        ensures
            final(self)@ == with_line(old(self)@, return_line_text(value@)),
    {
        let mut line = "return ".to_owned();
        let rendered = value.to_string();
        line.append(rendered.as_str());
        line.append(";");
        proof {
            assert(line@ =~= return_line_text(value@));
        }
        self.add_line(line.as_str());
    }
}

} // verus!
