//! The value descriptor: literal variants structurally paired to the type
//! descriptor, a derivation from a type plus a raw integer, and a canonical
//! literal rendering.
//!
//! Floating-point typed literals carry the raw integer they were derived
//! from and render it in decimal, so that the rendering stays an exact
//! function of the model.

use vstd::prelude::*;
use vstd::string::*;
use vstd::pervasive::unreached;
use crate::ctype::{CType, TypeV};
use crate::text::{int_text, i64_to_string, push_char};

verus! {

/// A literal instance structurally conforming to a type descriptor, plus a
/// string-literal variant with no type counterpart.
#[derive(Debug)]
pub enum CValue {
    Int(u8, i64),
    Float(u8, i64),
    Double(i64),
    Void,
    Char(char),
    Bool(bool),
    Array(Vec<CValue>),
    Struct(String, Vec<CValue>),
    Union(String, Vec<CValue>),
    Enum(String, i64),
    Func(Vec<CValue>, Box<CValue>),
    Ptr(Box<CValue>),
    StringLiteral(String),
}

/// The mathematical model of a value descriptor.
#[verifier::ext_equal]
pub enum ValueV {
    Int(u8, i64),
    Float(u8, i64),
    Double(i64),
    Void,
    Char(char),
    Bool(bool),
    Array(Seq<ValueV>),
    Struct(Seq<char>, Seq<ValueV>),
    Union(Seq<char>, Seq<ValueV>),
    Enum(Seq<char>, i64),
    Func(Seq<ValueV>, Box<ValueV>),
    Ptr(Box<ValueV>),
    StringLiteral(Seq<char>),
}

/// The model of one value descriptor.
pub open spec fn value_view(v: CValue) -> ValueV
    decreases v,
{
    match v {
        CValue::Int(w, x) => ValueV::Int(w, x),
        CValue::Float(w, x) => ValueV::Float(w, x),
        CValue::Double(x) => ValueV::Double(x),
        CValue::Void => ValueV::Void,
        CValue::Char(c) => ValueV::Char(c),
        CValue::Bool(b) => ValueV::Bool(b),
        CValue::Array(vs) => ValueV::Array(value_views(vs@)),
        CValue::Struct(name, vs) => ValueV::Struct(name@, value_views(vs@)),
        CValue::Union(name, vs) => ValueV::Union(name@, value_views(vs@)),
        CValue::Enum(name, x) => ValueV::Enum(name@, x),
        CValue::Func(args, ret) => ValueV::Func(value_views(args@), Box::new(value_view(*ret))),
        CValue::Ptr(v0) => ValueV::Ptr(Box::new(value_view(*v0))),
        CValue::StringLiteral(s) => ValueV::StringLiteral(s@),
    }
}

/// The models of a sequence of value descriptors, in order.
pub open spec fn value_views(vs: Seq<CValue>) -> Seq<ValueV>
    decreases vs,
{
    if vs.len() == 0 {
        Seq::empty()
    } else {
        value_views(vs.drop_last()).push(value_view(vs.last()))
    }
}

impl View for CValue {
    type V = ValueV;

    open spec fn view(&self) -> ValueV {
        value_view(*self)
    }
}

/// The canonical rendering of a literal: decimal for the numeric and enum
/// variants, the bare character for `char`, `true`/`false` for `bool`, a
/// bracketed list for arrays, `name { fields }` for struct and union
/// values, quoted text for string literals, `(args) -> ret` for function
/// values, and a `*` prefix for pointers.
pub open spec fn value_text(v: ValueV) -> Seq<char>
    decreases v,
{
    match v {
        ValueV::Int(_w, x) => int_text(x as int),
        ValueV::Float(_w, x) => int_text(x as int),
        ValueV::Double(x) => int_text(x as int),
        ValueV::Void => "void"@,
        ValueV::Char(c) => seq![c],
        ValueV::Bool(b) => if b {
            "true"@
        } else {
            "false"@
        },
        ValueV::Array(vs) => "["@ + value_list_text(vs) + "]"@,
        ValueV::Struct(name, vs) => name + " { "@ + value_list_text(vs) + " }"@,
        ValueV::Union(name, vs) => name + " { "@ + value_list_text(vs) + " }"@,
        ValueV::Enum(_name, x) => int_text(x as int),
        ValueV::Func(args, ret) => "("@ + value_list_text(args) + ") -> "@ + value_text(*ret),
        ValueV::Ptr(v0) => "*"@ + value_text(*v0),
        ValueV::StringLiteral(s) => "\""@ + s + "\""@,
    }
}

/// The renderings of a sequence of values, joined with `", "`.
pub open spec fn value_list_text(vs: Seq<ValueV>) -> Seq<char>
    decreases vs,
{
    if vs.len() == 0 {
        Seq::empty()
    } else if vs.len() == 1 {
        value_text(vs[0])
    } else {
        value_list_text(vs.drop_last()) + ", "@ + value_text(vs.last())
    }
}

/// Appending one value to a list appends its rendering, after a separator
/// when the list was not empty.
pub proof fn lemma_value_list_text_push(vs: Seq<ValueV>, v: ValueV)
    ensures
        value_list_text(vs.push(v)) == if vs.len() == 0 {
            value_text(v)
        } else {
            value_list_text(vs) + ", "@ + value_text(v)
        },
{
    assert(vs.push(v).drop_last() =~= vs);
    assert(vs.push(v).last() == v);
}

/// Whether a type contains a function type along its array/pointer spine.
/// Deriving a value from such a type is undefined.
pub open spec fn type_has_func(t: TypeV) -> bool
    decreases t,
{
    match t {
        TypeV::Func(_args, _ret) => true,
        TypeV::Array(t0, _n) => type_has_func(*t0),
        TypeV::Ptr(t0) => type_has_func(*t0),
        _ => false,
    }
}

/// Whether every array length along the array/pointer spine of a type fits
/// in `usize`, so that the replicated element vector can be built.
pub open spec fn sizes_fit(t: TypeV) -> bool
    decreases t,
{
    match t {
        TypeV::Array(t0, n) => n <= usize::MAX && sizes_fit(*t0),
        TypeV::Ptr(t0) => sizes_fit(*t0),
        _ => true,
    }
}

/// The value derived from a type and a raw integer: the integer is carried
/// per scalar kind (truncated to one byte for `char`, compared with zero
/// for `bool`), one derived sub-value is replicated across every array
/// slot, struct and union values carry no field values, and an enum value
/// carries the raw integer as its discriminant. The derivation is
/// undefined for function types.
pub open spec fn value_of_type(t: TypeV, x: i64) -> ValueV
    decreases t,
{
    match t {
        TypeV::Int(w) => ValueV::Int(w, x),
        TypeV::Float(w) => ValueV::Float(w, x),
        TypeV::Double => ValueV::Double(x),
        TypeV::Void => ValueV::Void,
        TypeV::Char => ValueV::Char((x as u8) as char),
        TypeV::Bool => ValueV::Bool(x != 0),
        TypeV::Array(t0, n) => {
            let e = value_of_type(*t0, x);
            ValueV::Array(Seq::new(n as nat, |k: int| e))
        },
        TypeV::Struct(name) => ValueV::Struct(name, Seq::empty()),
        TypeV::Union(name) => ValueV::Union(name, Seq::empty()),
        TypeV::Enum(name) => ValueV::Enum(name, x),
        TypeV::Func(_args, _ret) => arbitrary(),
        TypeV::Ptr(t0) => ValueV::Ptr(Box::new(value_of_type(*t0, x))),
    }
}

/// A deep copy of a vector of values, with the same models.
fn clone_values(vs: &Vec<CValue>) -> (r: Vec<CValue>)
    ensures
        value_views(r@) == value_views(vs@),
    decreases vs@,
{
    let mut copies: Vec<CValue> = Vec::new();
    let mut k: usize = 0;
    while k < vs.len()
        invariant
            k <= vs@.len(),
            value_views(copies@) =~= value_views(vs@.subrange(0, k as int)),
        decreases vs@.len() - k,
    {
        proof {
            assert(decreases_to!(vs@ => vs@[k as int]));
        }
        let c = (&vs[k]).clone();
        let ghost prior = copies@;
        copies.push(c);
        proof {
            assert(copies@.drop_last() =~= prior);
            assert(vs@.subrange(0, k + 1).drop_last() =~= vs@.subrange(0, k as int));
            assert(vs@.subrange(0, k + 1).last() == vs@[k as int]);
        }
        k = k + 1;
    }
    proof {
        assert(vs@.subrange(0, vs@.len() as int) =~= vs@);
    }
    copies
}

impl Clone for CValue {
    /// A deep copy with the same model.
    fn clone(&self) -> (r: Self)
        ensures
            r@ == self@,
        decreases *self,
    {
        match self {
            CValue::Int(w, x) => CValue::Int(*w, *x),
            CValue::Float(w, x) => CValue::Float(*w, *x),
            CValue::Double(x) => CValue::Double(*x),
            CValue::Void => CValue::Void,
            CValue::Char(c) => CValue::Char(*c),
            CValue::Bool(b) => CValue::Bool(*b),
            CValue::Array(vs) => {
                proof {
                    assert(decreases_to!(*self => (*self)->Array_0));
                    assert(decreases_to!(*vs => vs@));
                }
                CValue::Array(clone_values(vs))
            },
            CValue::Struct(name, vs) => {
                proof {
                    assert(decreases_to!(*self => (*self)->Struct_1));
                    assert(decreases_to!(*vs => vs@));
                }
                CValue::Struct(name.clone(), clone_values(vs))
            },
            CValue::Union(name, vs) => {
                proof {
                    assert(decreases_to!(*self => (*self)->Union_1));
                    assert(decreases_to!(*vs => vs@));
                }
                CValue::Union(name.clone(), clone_values(vs))
            },
            CValue::Enum(name, x) => CValue::Enum(name.clone(), *x),
            CValue::Func(args, ret) => {
                proof {
                    assert(decreases_to!(*self => (*self)->Func_0));
                    assert(decreases_to!(*args => args@));
                }
                CValue::Func(clone_values(args), Box::new((&**ret).clone()))
            },
            CValue::Ptr(v0) => CValue::Ptr(Box::new((&**v0).clone())),
            CValue::StringLiteral(s) => CValue::StringLiteral(s.clone()),
        }
    }
}

/// The renderings of a vector of values, joined with `", "`.
pub(crate) fn values_joined(vs: &Vec<CValue>) -> (r: String)
    ensures
        r@ == value_list_text(value_views(vs@)),
    decreases vs@,
{
    let mut joined = String::new();
    let mut k: usize = 0;
    while k < vs.len()
        invariant
            k <= vs@.len(),
            joined@ == value_list_text(value_views(vs@.subrange(0, k as int))),
        decreases vs@.len() - k,
    {
        proof {
            assert(vs@.subrange(0, k + 1).drop_last() =~= vs@.subrange(0, k as int));
            assert(vs@.subrange(0, k + 1).last() == vs@[k as int]);
            assert(value_views(vs@.subrange(0, k + 1)) =~= value_views(
                vs@.subrange(0, k as int),
            ).push(value_view(vs@[k as int])));
            lemma_value_list_text_push(
                value_views(vs@.subrange(0, k as int)),
                value_view(vs@[k as int]),
            );
            assert(decreases_to!(vs@ => vs@[k as int]));
        }
        if k > 0 {
            joined.append(", ");
        }
        let part = (&vs[k]).to_string();
        joined.append(part.as_str());
        proof {
            assert(joined@ =~= value_list_text(value_views(vs@.subrange(0, k + 1))));
        }
        k = k + 1;
    }
    proof {
        assert(vs@.subrange(0, vs@.len() as int) =~= vs@);
    }
    joined
}

impl CValue {
    /// Derives a value from a type descriptor and a raw integer, as the
    /// model derivation describes. Function types are excluded: deriving a
    /// value of function type is undefined.
    pub fn from_type(ty: CType, value: i64) -> (r: CValue)
        requires
            !type_has_func(ty@),
            sizes_fit(ty@),
        ensures
            r@ == value_of_type(ty@, value),
        decreases ty,
    {
        let ghost orig = ty;
        match ty {
            CType::Int(size) => CValue::Int(size, value),
            CType::Float(size) => CValue::Float(size, value),
            CType::Double => CValue::Double(value),
            CType::Void => CValue::Void,
            CType::Char => {
                let b: u8 = #[verifier::truncate] (value as u8);
                CValue::Char(b as char)
            },
            CType::Bool => CValue::Bool(value != 0),
            CType::Array(t0, size) => {
                proof {
                    assert(decreases_to!(orig => orig->Array_0));
                    assert(orig->Array_0 == *t0);
                }
                let ghost t0v = (*t0)@;
                let elem = CValue::from_type(*t0, value);
                let n = size as usize;
                let mut items: Vec<CValue> = Vec::new();
                let mut k: usize = 0;
                while k < n
                    invariant
                        k <= n,
                        elem@ == value_of_type(t0v, value),
                        value_views(items@) =~= Seq::new(k as nat, |j: int| value_of_type(t0v, value)),
                    decreases n - k,
                {
                    let c = elem.clone();
                    let ghost prior = items@;
                    items.push(c);
                    proof {
                        assert(items@.drop_last() =~= prior);
                        assert(value_views(items@) =~= Seq::new(
                            (k + 1) as nat,
                            |j: int| value_of_type(t0v, value),
                        ));
                    }
                    k = k + 1;
                }
                let r = CValue::Array(items);
                proof {
                    assert(r@ =~~= value_of_type(orig@, value));
                }
                r
            },
            CType::Struct(name) => {
                let r = CValue::Struct(name, Vec::new());
                proof {
                    assert(value_views(Seq::<CValue>::empty()) =~= Seq::<ValueV>::empty());
                }
                r
            },
            CType::Union(name) => {
                let r = CValue::Union(name, Vec::new());
                proof {
                    assert(value_views(Seq::<CValue>::empty()) =~= Seq::<ValueV>::empty());
                }
                r
            },
            CType::Enum(name) => CValue::Enum(name, value),
            CType::Func(_args, _ret) => {
                proof {
                    assert(false);
                }
                unreached()
            },
            CType::Ptr(t0) => {
                proof {
                    assert(decreases_to!(orig => orig->Ptr_0));
                    assert(orig->Ptr_0 == *t0);
                }
                CValue::Ptr(Box::new(CValue::from_type(*t0, value)))
            },
        }
    }

    /// The pointer value whose pointee is this value.
    pub fn as_ptr(&self) -> (r: CValue)
        ensures
            r@ == ValueV::Ptr(Box::new(self@)),
    {
        CValue::Ptr(Box::new(self.clone()))
    }

    /// Renders the canonical literal syntax.
    pub fn to_string(&self) -> (r: String)
        ensures
            r@ == value_text(self@),
        decreases *self,
    {
        match self {
            CValue::Int(_w, x) => i64_to_string(*x),
            CValue::Float(_w, x) => i64_to_string(*x),
            CValue::Double(x) => i64_to_string(*x),
            CValue::Void => "void".to_owned(),
            CValue::Char(c) => {
                let mut s = String::new();
                push_char(&mut s, *c);
                proof {
                    assert(s@ =~= value_text(self@));
                }
                s
            },
            CValue::Bool(b) => {
                if *b {
                    "true".to_owned()
                } else {
                    "false".to_owned()
                }
            },
            CValue::Array(vs) => {
                proof {
                    assert(decreases_to!(*self => (*self)->Array_0));
                    assert(decreases_to!(*vs => vs@));
                }
                let mut s = "[".to_owned();
                let joined = values_joined(vs);
                s.append(joined.as_str());
                s.append("]");
                proof {
                    assert(s@ =~= value_text(self@));
                }
                s
            },
            CValue::Struct(name, vs) => {
                proof {
                    assert(decreases_to!(*self => (*self)->Struct_1));
                    assert(decreases_to!(*vs => vs@));
                }
                let mut s = name.clone();
                s.append(" { ");
                let joined = values_joined(vs);
                s.append(joined.as_str());
                s.append(" }");
                proof {
                    assert(s@ =~= value_text(self@));
                }
                s
            },
            CValue::Union(name, vs) => {
                proof {
                    assert(decreases_to!(*self => (*self)->Union_1));
                    assert(decreases_to!(*vs => vs@));
                }
                let mut s = name.clone();
                s.append(" { ");
                let joined = values_joined(vs);
                s.append(joined.as_str());
                s.append(" }");
                proof {
                    assert(s@ =~= value_text(self@));
                }
                s
            },
            CValue::Enum(_name, x) => i64_to_string(*x),
            CValue::Func(args, ret) => {
                proof {
                    assert(decreases_to!(*self => (*self)->Func_0));
                    assert(decreases_to!(*args => args@));
                }
                let mut s = "(".to_owned();
                let joined = values_joined(args);
                s.append(joined.as_str());
                s.append(") -> ");
                let ret_str = (&**ret).to_string();
                s.append(ret_str.as_str());
                proof {
                    assert(s@ =~= value_text(self@));
                }
                s
            },
            CValue::Ptr(v0) => {
                let mut s = "*".to_owned();
                let inner = (&**v0).to_string();
                s.append(inner.as_str());
                proof {
                    assert(s@ =~= value_text(self@));
                }
                s
            },
            CValue::StringLiteral(st) => {
                let mut s = "\"".to_owned();
                s.append(st.as_str());
                s.append("\"");
                proof {
                    assert(s@ =~= value_text(self@));
                }
                s
            },
        }
    }
}

} // verus!
