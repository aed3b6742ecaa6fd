//! The type descriptor: a closed set of structural C-level type variants,
//! recursively composed, with a canonical textual rendering.

use vstd::prelude::*;
use vstd::string::*;
use crate::text::{dec_digits, u64_to_string};

verus! {

/// A structural description of a C-level type. Recursive variants (array,
/// pointer, function) exclusively own their nested type.
#[derive(Debug)]
pub enum CType {
    Int(u8),
    Float(u8),
    Double,
    Void,
    Char,
    Bool,
    Array(Box<CType>, u64),
    Struct(String),
    Union(String),
    Enum(String),
    Func(Vec<CType>, Box<CType>),
    Ptr(Box<CType>),
}

/// The mathematical model of a type descriptor: the same variant shape with
/// sequences in place of vectors and character sequences in place of strings.
#[verifier::ext_equal]
pub enum TypeV {
    Int(u8),
    Float(u8),
    Double,
    Void,
    Char,
    Bool,
    Array(Box<TypeV>, u64),
    Struct(Seq<char>),
    Union(Seq<char>),
    Enum(Seq<char>),
    Func(Seq<TypeV>, Box<TypeV>),
    Ptr(Box<TypeV>),
}

/// The model of one type descriptor.
pub open spec fn type_view(t: CType) -> TypeV
    decreases t,
{
    match t {
        CType::Int(w) => TypeV::Int(w),
        CType::Float(w) => TypeV::Float(w),
        CType::Double => TypeV::Double,
        CType::Void => TypeV::Void,
        CType::Char => TypeV::Char,
        CType::Bool => TypeV::Bool,
        CType::Array(t0, n) => TypeV::Array(Box::new(type_view(*t0)), n),
        CType::Struct(name) => TypeV::Struct(name@),
        CType::Union(name) => TypeV::Union(name@),
        CType::Enum(name) => TypeV::Enum(name@),
        CType::Func(args, ret) => TypeV::Func(type_views(args@), Box::new(type_view(*ret))),
        CType::Ptr(t0) => TypeV::Ptr(Box::new(type_view(*t0))),
    }
}

/// The models of a sequence of type descriptors, in order.
pub open spec fn type_views(ts: Seq<CType>) -> Seq<TypeV>
    decreases ts,
{
    if ts.len() == 0 {
        Seq::empty()
    } else {
        type_views(ts.drop_last()).push(type_view(ts.last()))
    }
}

impl View for CType {
    type V = TypeV;

    open spec fn view(&self) -> TypeV {
        type_view(*self)
    }
}

/// The canonical rendering of a type: fixed names for the scalar widths of
/// the rendering table, `[n x T]` for arrays, `%name` for the named
/// aggregates, `(args) -> ret` for function types and `*T` for pointers.
/// An integer or floating-point width outside the table renders as the
/// placeholder word `unimplemented`.
pub open spec fn type_text(t: TypeV) -> Seq<char>
    decreases t,
{
    match t {
        TypeV::Int(w) => if w == 8 {
            "i8"@
        } else if w == 16 {
            "i16"@
        } else if w == 32 {
            "int"@
        } else if w == 64 {
            "i64"@
        } else {
            "unimplemented"@
        },
        TypeV::Float(w) => if w == 32 {
            "float"@
        } else {
            "unimplemented"@
        },
        TypeV::Double => "double"@,
        TypeV::Void => "void"@,
        TypeV::Char => "char"@,
        TypeV::Bool => "bool"@,
        TypeV::Array(t0, n) => "["@ + dec_digits(n as nat) + " x "@ + type_text(*t0) + "]"@,
        TypeV::Struct(name) => "%"@ + name,
        TypeV::Union(name) => "%"@ + name,
        TypeV::Enum(name) => "%"@ + name,
        TypeV::Func(args, ret) => "("@ + type_list_text(args) + ") -> "@ + type_text(*ret),
        TypeV::Ptr(t0) => "*"@ + type_text(*t0),
    }
}

/// The renderings of a sequence of types, joined with `", "`.
pub open spec fn type_list_text(ts: Seq<TypeV>) -> Seq<char>
    decreases ts,
{
    if ts.len() == 0 {
        Seq::empty()
    } else if ts.len() == 1 {
        type_text(ts[0])
    } else {
        type_list_text(ts.drop_last()) + ", "@ + type_text(ts.last())
    }
}

/// Appending one type to a list appends its rendering, after a separator
/// when the list was not empty.
pub proof fn lemma_type_list_text_push(ts: Seq<TypeV>, t: TypeV)
    ensures
        type_list_text(ts.push(t)) == if ts.len() == 0 {
            type_text(t)
        } else {
            type_list_text(ts) + ", "@ + type_text(t)
        },
{
    assert(ts.push(t).drop_last() =~= ts);
    assert(ts.push(t).last() == t);
}

impl Clone for CType {
    /// A deep copy with the same model.
    fn clone(&self) -> (r: Self)
        ensures
            r@ == self@,
        decreases *self,
    {
        match self {
            CType::Int(w) => CType::Int(*w),
            CType::Float(w) => CType::Float(*w),
            CType::Double => CType::Double,
            CType::Void => CType::Void,
            CType::Char => CType::Char,
            CType::Bool => CType::Bool,
            CType::Array(t0, n) => CType::Array(Box::new((&**t0).clone()), *n),
            CType::Struct(name) => CType::Struct(name.clone()),
            CType::Union(name) => CType::Union(name.clone()),
            CType::Enum(name) => CType::Enum(name.clone()),
            CType::Func(args, ret) => {
                let mut copies: Vec<CType> = Vec::new();
                let mut k: usize = 0;
                while k < args.len()
                    invariant
                        k <= args@.len(),
                        type_views(copies@) =~= type_views(args@.subrange(0, k as int)),
                        *self == CType::Func(*args, *ret),
                    decreases args@.len() - k,
                {
                    proof {
                        assert(decreases_to!(*self => (*self)->Func_0));
                        assert((*self)->Func_0 == *args);
                        assert(decreases_to!(*args => args@));
                        assert(decreases_to!(args@ => args@[k as int]));
                        assert(decreases_to!(*self => args@[k as int]));
                    }
                    let c = (&args[k]).clone();
                    let ghost prior = copies@;
                    copies.push(c);
                    proof {
                        assert(copies@.drop_last() =~= prior);
                        assert(args@.subrange(0, k + 1).drop_last() =~= args@.subrange(0, k as int));
                        assert(args@.subrange(0, k + 1).last() == args@[k as int]);
                    }
                    k = k + 1;
                }
                proof {
                    assert(args@.subrange(0, args@.len() as int) =~= args@);
                }
                CType::Func(copies, Box::new((&**ret).clone()))
            },
            CType::Ptr(t0) => CType::Ptr(Box::new((&**t0).clone())),
        }
    }
}

/// The renderings of a vector of types, joined with `", "`.
pub(crate) fn types_joined(ts: &Vec<CType>) -> (r: String)
    ensures
        r@ == type_list_text(type_views(ts@)),
    decreases ts@,
{
    let mut joined = String::new();
    let mut k: usize = 0;
    while k < ts.len()
        invariant
            k <= ts@.len(),
            joined@ == type_list_text(type_views(ts@.subrange(0, k as int))),
        decreases ts@.len() - k,
    {
        proof {
            assert(ts@.subrange(0, k + 1).drop_last() =~= ts@.subrange(0, k as int));
            assert(ts@.subrange(0, k + 1).last() == ts@[k as int]);
            assert(type_views(ts@.subrange(0, k + 1)) =~= type_views(
                ts@.subrange(0, k as int),
            ).push(type_view(ts@[k as int])));
            lemma_type_list_text_push(
                type_views(ts@.subrange(0, k as int)),
                type_view(ts@[k as int]),
            );
            assert(decreases_to!(ts@ => ts@[k as int]));
        }
        if k > 0 {
            joined.append(", ");
        }
        let part = (&ts[k]).to_string();
        joined.append(part.as_str());
        proof {
            assert(joined@ =~= type_list_text(type_views(ts@.subrange(0, k + 1))));
        }
        k = k + 1;
    }
    proof {
        assert(ts@.subrange(0, ts@.len() as int) =~= ts@);
    }
    joined
}

impl CType {
    /// The pointer type whose pointee is this type.
    pub fn as_ptr(&self) -> (r: CType)
        ensures
            r@ == TypeV::Ptr(Box::new(self@)),
    {
        CType::Ptr(Box::new(self.clone()))
    }

    /// Derives the value descriptor for this type and a raw integer.
    pub fn into_value(&self, value: i64) -> (r: crate::cvalue::CValue)
        requires
            !crate::cvalue::type_has_func(self@),
            crate::cvalue::sizes_fit(self@),
        ensures
            r@ == crate::cvalue::value_of_type(self@, value),
    {
        crate::cvalue::CValue::from_type(self.clone(), value)
    }

    /// Renders the canonical type syntax.
    pub fn to_string(&self) -> (r: String)
        ensures
            r@ == type_text(self@),
        decreases *self,
    {
        match self {
            CType::Int(w) => {
                let w = *w;
                if w == 8 {
                    "i8".to_owned()
                } else if w == 16 {
                    "i16".to_owned()
                } else if w == 32 {
                    "int".to_owned()
                } else if w == 64 {
                    "i64".to_owned()
                } else {
                    "unimplemented".to_owned()
                }
            },
            CType::Float(w) => {
                if *w == 32 {
                    "float".to_owned()
                } else {
                    "unimplemented".to_owned()
                }
            },
            CType::Double => "double".to_owned(),
            CType::Void => "void".to_owned(),
            CType::Char => "char".to_owned(),
            CType::Bool => "bool".to_owned(),
            CType::Array(t0, n) => {
                let mut s = "[".to_owned();
                let size_digits = u64_to_string(*n);
                s.append(size_digits.as_str());
                s.append(" x ");
                let inner = (&**t0).to_string();
                s.append(inner.as_str());
                s.append("]");
                proof {
                    assert(s@ =~= type_text(self@));
                }
                s
            },
            CType::Struct(name) => {
                let mut s = "%".to_owned();
                s.append(name.as_str());
                proof {
                    assert(s@ =~= type_text(self@));
                }
                s
            },
            CType::Union(name) => {
                let mut s = "%".to_owned();
                s.append(name.as_str());
                proof {
                    assert(s@ =~= type_text(self@));
                }
                s
            },
            CType::Enum(name) => {
                let mut s = "%".to_owned();
                s.append(name.as_str());
                proof {
                    assert(s@ =~= type_text(self@));
                }
                s
            },
            CType::Func(args, ret) => {
                proof {
                    assert(decreases_to!(*self => (*self)->Func_0));
                    assert((*self)->Func_0 == *args);
                    assert(decreases_to!(*args => args@));
                }
                let mut s = "(".to_owned();
                let joined = types_joined(args);
                s.append(joined.as_str());
                s.append(") -> ");
                let ret_str = (&**ret).to_string();
                s.append(ret_str.as_str());
                proof {
                    assert(s@ =~= type_text(self@));
                }
                s
            },
            CType::Ptr(t0) => {
                let mut s = "*".to_owned();
                let inner = (&**t0).to_string();
                s.append(inner.as_str());
                proof {
                    assert(s@ =~= type_text(self@));
                }
                s
            },
        }
    }
}

} // verus!
