//! The laws the renderer obeys, stated over the mathematical text model and
//! proved once for every compilation unit.

use vstd::prelude::*;
use crate::block::block_text;
use crate::function::{FunctionV, sig_text, static_text, c_text};
use crate::module::{
    ModuleV,
    header_text,
    source_text,
    header_fns_text,
    source_fns_text,
    header_line_text,
};

verus! {

/// Rendering is referentially transparent: the header and source text are
/// functions of the unit's model alone, so rendering equal units — in
/// particular, rendering one unit twice — yields byte-identical output.
pub proof fn lemma_render_deterministic(m1: ModuleV, m2: ModuleV)
    requires
        m1 == m2,
    ensures
        header_text(m1) == header_text(m2),
        source_text(m1) == source_text(m2),
{
}

/// Function emission order matches registration order: registering one more
/// function appends exactly its contribution at the end of both the header
/// text and the source text, leaving everything before it unchanged.
pub proof fn lemma_emission_order(fns: Seq<FunctionV>, f: FunctionV)
    ensures
        source_fns_text(fns.push(f)) == source_fns_text(fns) + c_text(f),
        header_fns_text(fns.push(f)) == header_fns_text(fns) + header_line_text(f),
{
    assert(fns.push(f).drop_last() =~= fns);
    assert(fns.push(f).last() == f);
}

/// Every function's source rendering holds exactly one of a body or a
/// terminator: with a body attached, the signature is followed by the
/// brace-wrapped body and no terminator; without one, by the terminator
/// alone.
pub proof fn lemma_one_of_terminator_or_body(f: FunctionV)
    ensures
        f.block is Some ==> c_text(f) == static_text(f) + sig_text(f) + " "@ + block_text(
            f.block->0,
        ),
        f.block is None ==> c_text(f) == static_text(f) + sig_text(f) + ";"@,
{
}

/// The header excludes every function flagged static and every function
/// named `main`, wherever it stands: removing such a function from the list
/// leaves the header text unchanged.
pub proof fn lemma_header_excludes(fns: Seq<FunctionV>, i: int)
    requires
        0 <= i < fns.len(),
        fns[i].is_static || fns[i].name == "main"@,
    ensures
        header_fns_text(fns.remove(i)) == header_fns_text(fns),
    decreases fns.len(),
{
    if i == fns.len() - 1 {
        assert(fns.remove(i) =~= fns.drop_last());
        assert(header_line_text(fns.last()) =~= Seq::<char>::empty());
        assert(header_fns_text(fns.drop_last()) + Seq::<char>::empty() =~= header_fns_text(
            fns.drop_last(),
        ));
    } else {
        lemma_header_excludes(fns.drop_last(), i);
        assert(fns.remove(i).drop_last() =~= fns.drop_last().remove(i));
        assert(fns.remove(i).last() == fns.last());
    }
}

} // verus!
