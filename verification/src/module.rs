//! The compilation unit: an ordered list of functions plus ordered include
//! lists, rendered as a guarded header of public declarations and a source
//! body of full definitions.

use vstd::prelude::*;
use vstd::string::*;
use crate::block::Block;
use crate::ctype::CType;
use crate::function::{Function, FunctionV, h_text, c_text, opt_type_views};
use crate::text::{to_upper, upper_text};

verus! {

/// A compilation unit: a name, functions in insertion order, and the
/// system-style and local-style include lists.
#[derive(Debug)]
pub struct Module {
    pub name: String,
    pub functions: Vec<Function>,
    pub global_includes: Vec<String>,
    pub local_includes: Vec<String>,
}

/// The mathematical model of a compilation unit.
#[verifier::ext_equal]
pub struct ModuleV {
    pub name: Seq<char>,
    pub functions: Seq<FunctionV>,
    pub global_includes: Seq<Seq<char>>,
    pub local_includes: Seq<Seq<char>>,
}

impl View for Module {
    type V = ModuleV;

    open spec fn view(&self) -> ModuleV {
        ModuleV {
            name: self.name@,
            functions: self.functions@.map_values(|f: Function| f@),
            global_includes: self.global_includes@.map_values(|s: String| s@),
            local_includes: self.local_includes@.map_values(|s: String| s@),
        }
    }
}

/// The rendering of the system-style include lines, in order.
pub open spec fn global_includes_text(incs: Seq<Seq<char>>) -> Seq<char>
    decreases incs.len(),
{
    if incs.len() == 0 {
        Seq::empty()
    } else {
        global_includes_text(incs.drop_last()) + "#include <"@ + incs.last() + ">\n"@
    }
}

/// The rendering of the local-style include lines, in order.
pub open spec fn local_includes_text(incs: Seq<Seq<char>>) -> Seq<char>
    decreases incs.len(),
{
    if incs.len() == 0 {
        Seq::empty()
    } else {
        local_includes_text(incs.drop_last()) + "#include \""@ + incs.last() + "\"\n"@
    }
}

/// The rendering of both include lists: the system-style list always comes
/// before the local-style list.
pub open spec fn includes_text(m: ModuleV) -> Seq<char> {
    global_includes_text(m.global_includes) + local_includes_text(m.local_includes)
}

/// The header contribution of one function: nothing for a static function
/// or one named `main`, else its declaration line.
pub open spec fn header_line_text(f: FunctionV) -> Seq<char> {
    if f.is_static || f.name == "main"@ {
        Seq::empty()
    } else {
        h_text(f)
    }
}

/// The header contributions of the functions, in order.
pub open spec fn header_fns_text(fns: Seq<FunctionV>) -> Seq<char>
    decreases fns.len(),
{
    if fns.len() == 0 {
        Seq::empty()
    } else {
        header_fns_text(fns.drop_last()) + header_line_text(fns.last())
    }
}

/// The source definitions of the functions, in order.
pub open spec fn source_fns_text(fns: Seq<FunctionV>) -> Seq<char>
    decreases fns.len(),
{
    if fns.len() == 0 {
        Seq::empty()
    } else {
        source_fns_text(fns.drop_last()) + c_text(fns.last())
    }
}

/// The include-guard name: the uppercased unit name with an `_H` suffix.
pub open spec fn guard_text(name: Seq<char>) -> Seq<char> {
    upper_text(name) + "_H"@
}

/// The rendering of the header: the include-guard preamble, both include
/// lists, one declaration line per non-static function not named `main`,
/// and the guard's closing line.
pub open spec fn header_text(m: ModuleV) -> Seq<char> {
    "#ifndef "@ + guard_text(m.name) + "\n"@ + "#define "@ + guard_text(m.name) + "\n"@ + "\n"@
        + includes_text(m) + "\n"@ + header_fns_text(m.functions) + "\n"@ + "#endif // "@
        + guard_text(m.name) + "\n"@
}

/// The rendering of the source: both include lists, then a full definition
/// for every function, in insertion order, with no deduplication.
pub open spec fn source_text(m: ModuleV) -> Seq<char> {
    includes_text(m) + "\n"@ + source_fns_text(m.functions)
}

impl Module {
    /// A new, empty compilation unit with the given name.
    pub fn new(name: &str) -> (r: Module)
        ensures
            r@ == (ModuleV {
                name: name@,
                functions: Seq::empty(),
                global_includes: Seq::empty(),
                local_includes: Seq::empty(),
            }),
    {
        let r = Module {
            name: name.to_owned(),
            functions: Vec::new(),
            global_includes: Vec::new(),
            local_includes: Vec::new(),
        };
        proof {
            assert(r@ =~~= (ModuleV {
                name: name@,
                functions: Seq::empty(),
                global_includes: Seq::empty(),
                local_includes: Seq::empty(),
            }));
        }
        r
    }

    /// The unit's name.
    pub fn name(&self) -> (r: &str)
        ensures
            r@ == self@.name,
    {
        self.name.as_str()
    }

    /// Appends an include path to the local-style list when `local` is set,
    /// else to the system-style list; order of calls is preserved within
    /// each list.
    pub fn add_include(&mut self, path: &str, local: bool)
        ensures
            local ==> final(self)@ == (ModuleV {
                local_includes: old(self)@.local_includes.push(path@),
                ..old(self)@
            }),
            !local ==> final(self)@ == (ModuleV {
                global_includes: old(self)@.global_includes.push(path@),
                ..old(self)@
            }),
    {
        if local {
            self.local_includes.push(path.to_owned());
            proof {
                assert(final(self)@ =~~= (ModuleV {
                    local_includes: old(self)@.local_includes.push(path@),
                    ..old(self)@
                }));
            }
            return ;
        }
        self.global_includes.push(path.to_owned());
        proof {
            assert(final(self)@ =~~= (ModuleV {
                global_includes: old(self)@.global_includes.push(path@),
                ..old(self)@
            }));
        }
    }

    /// Constructs and registers a function with the given signature and no
    /// body, at the end of the emission order. The unit retains ownership;
    /// the returned index addresses the function for later mutation.
    pub fn add_function(
        &mut self,
        name: &str,
        ret_type: &CType,
        args: Option<Vec<CType>>,
        is_variadic: bool,
        is_static: bool,
    ) -> (i: usize)
        ensures
            final(self)@ == (ModuleV {
                functions: old(self)@.functions.push(
                    FunctionV {
                        name: name@,
                        ret_type: ret_type@,
                        args: opt_type_views(args),
                        is_variadic: is_variadic,
                        is_static: is_static,
                        block: None,
                    },
                ),
                ..old(self)@
            }),
            i == old(self)@.functions.len(),
    {
        let func = Function::new(name, ret_type, args, is_variadic, is_static);
        let i = self.functions.len();
        self.functions.push(func);
        proof {
            assert(final(self)@ =~~= (ModuleV {
                functions: old(self)@.functions.push(
                    FunctionV {
                        name: name@,
                        ret_type: ret_type@,
                        args: opt_type_views(args),
                        is_variadic: is_variadic,
                        is_static: is_static,
                        block: None,
                    },
                ),
                ..old(self)@
            }));
        }
        i
    }

    /// Attaches the given statement sequence as the body of the function at
    /// index `i`, replacing any prior body (last attach wins).
    pub fn set_block(&mut self, i: usize, block: Block)
        requires
            i < old(self)@.functions.len(),
        ensures
            final(self)@ == (ModuleV {
                functions: old(self)@.functions.update(
                    i as int,
                    (FunctionV { block: Some(block@), ..old(self)@.functions[i as int] }),
                ),
                ..old(self)@
            }),
    {
        let ghost target = block@;
        self.functions[i].set_block(block);
        proof {
            assert(final(self)@ =~~= (ModuleV {
                functions: old(self)@.functions.update(
                    i as int,
                    (FunctionV { block: Some(target), ..old(self)@.functions[i as int] }),
                ),
                ..old(self)@
            }));
        }
    }

    /// Renders both include lists, the system-style list first.
    fn emit_includes(&self) -> (r: String)
        ensures
            r@ == includes_text(self@),
    {
        let mut out = String::new();
        let mut i: usize = 0;
        while i < self.global_includes.len()
            invariant
                i <= self.global_includes@.len(),
                out@ == global_includes_text(self@.global_includes.subrange(0, i as int)),
                self@.global_includes.len() == self.global_includes@.len(),
            decreases self.global_includes@.len() - i,
        {
            proof {
                assert(self@.global_includes.subrange(0, i + 1).drop_last() =~= self@
                    .global_includes.subrange(0, i as int));
                assert(self@.global_includes.subrange(0, i + 1).last() == self@.global_includes[i as int]);
            }
            out.append("#include <");
            out.append((&self.global_includes[i]).as_str());
            out.append(">\n");
            proof {
                assert(out@ =~= global_includes_text(self@.global_includes.subrange(0, i + 1)));
            }
            i = i + 1;
        }
        proof {
            assert(self@.global_includes.subrange(0, self@.global_includes.len() as int) =~= self@
                .global_includes);
        }
        let mut j: usize = 0;
        while j < self.local_includes.len()
            invariant
                j <= self.local_includes@.len(),
                out@ == global_includes_text(self@.global_includes) + local_includes_text(
                    self@.local_includes.subrange(0, j as int),
                ),
                self@.local_includes.len() == self.local_includes@.len(),
            decreases self.local_includes@.len() - j,
        {
            proof {
                assert(self@.local_includes.subrange(0, j + 1).drop_last() =~= self@
                    .local_includes.subrange(0, j as int));
                assert(self@.local_includes.subrange(0, j + 1).last() == self@.local_includes[j as int]);
            }
            out.append("#include \"");
            out.append((&self.local_includes[j]).as_str());
            out.append("\"\n");
            proof {
                assert(out@ =~= global_includes_text(self@.global_includes) + local_includes_text(
                    self@.local_includes.subrange(0, j + 1),
                ));
            }
            j = j + 1;
        }
        proof {
            assert(self@.local_includes.subrange(0, self@.local_includes.len() as int) =~= self@
                .local_includes);
            assert(out@ =~= includes_text(self@));
        }
        out
    }

    /// Renders the header: the include-guard preamble, both include lists,
    /// then one declaration line per function, excluding every function
    /// flagged static and every function named exactly `main`.
    pub fn emit_h(&self) -> (r: String)
        ensures
            r@ == header_text(self@),
    {
        let mut guard = to_upper(self.name.as_str());
        guard.append("_H");
        let mut out = "#ifndef ".to_owned();
        out.append(guard.as_str());
        out.append("\n");
        out.append("#define ");
        out.append(guard.as_str());
        out.append("\n");
        out.append("\n");
        let includes = self.emit_includes();
        out.append(includes.as_str());
        out.append("\n");
        let ghost prefix = out@;
        let main_name = "main".to_owned();
        let mut i: usize = 0;
        while i < self.functions.len()
            invariant
                i <= self.functions@.len(),
                out@ == prefix + header_fns_text(self@.functions.subrange(0, i as int)),
                self@.functions.len() == self.functions@.len(),
                main_name@ == "main"@,
            decreases self.functions@.len() - i,
        {
            proof {
                assert(self@.functions.subrange(0, i + 1).drop_last() =~= self@.functions.subrange(
                    0,
                    i as int,
                ));
                assert(self@.functions.subrange(0, i + 1).last() == self@.functions[i as int]);
            }
            let f = &self.functions[i];
            if !f.is_static && !f.name.eq(&main_name) {
                let line = f.emit_h();
                out.append(line.as_str());
            }
            proof {
                assert(out@ =~= prefix + header_fns_text(self@.functions.subrange(0, i + 1)));
            }
            i = i + 1;
        }
        proof {
            assert(self@.functions.subrange(0, self@.functions.len() as int) =~= self@.functions);
        }
        out.append("\n");
        out.append("#endif // ");
        out.append(guard.as_str());
        out.append("\n");
        proof {
            assert(out@ =~= header_text(self@));
        }
        out
    }

    /// Renders the source: both include lists, then a full definition for
    /// every function in insertion order.
    pub fn emit_c(&self) -> (r: String)
        ensures
            r@ == source_text(self@),
    {
        let mut out = self.emit_includes();
        out.append("\n");
        let ghost prefix = out@;
        let mut i: usize = 0;
        while i < self.functions.len()
            invariant
                i <= self.functions@.len(),
                out@ == prefix + source_fns_text(self@.functions.subrange(0, i as int)),
                self@.functions.len() == self.functions@.len(),
                prefix == includes_text(self@) + "\n"@,
            decreases self.functions@.len() - i,
        {
            proof {
                assert(self@.functions.subrange(0, i + 1).drop_last() =~= self@.functions.subrange(
                    0,
                    i as int,
                ));
                assert(self@.functions.subrange(0, i + 1).last() == self@.functions[i as int]);
            }
            let f = &self.functions[i];
            let def = f.emit_c();
            out.append(def.as_str());
            proof {
                assert(out@ =~= prefix + source_fns_text(self@.functions.subrange(0, i + 1)));
            }
            i = i + 1;
        }
        proof {
            assert(self@.functions.subrange(0, self@.functions.len() as int) =~= self@.functions);
            assert(out@ =~= source_text(self@));
        }
        out
    }
}

} // verus!
