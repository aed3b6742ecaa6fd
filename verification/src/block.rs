//! The statement sequence: an ordered list of complete, pre-terminated
//! statement lines forming one function body, rendered as a brace pair with
//! one indentation level per line.

use vstd::prelude::*;
use vstd::string::*;

verus! {

/// One function body: an append-only ordered list of statement lines.
#[derive(Debug)]
pub struct Block {
    pub code: Vec<String>,
}

/// The rendering of the lines of a body: each line between one tab of
/// indentation and a line break, in order.
pub open spec fn lines_text(lines: Seq<Seq<char>>) -> Seq<char>
    decreases lines.len(),
{
    if lines.len() == 0 {
        Seq::empty()
    } else {
        lines_text(lines.drop_last()) + "\t"@ + lines.last() + "\n"@
    }
}

/// Appending one line appends its indented rendering.
pub proof fn lemma_lines_text_push(lines: Seq<Seq<char>>, line: Seq<char>)
    ensures
        lines_text(lines.push(line)) == lines_text(lines) + "\t"@ + line + "\n"@,
{
    assert(lines.push(line).drop_last() =~= lines);
    assert(lines.push(line).last() == line);
}

/// The rendering of a whole body: the lines wrapped in a brace pair.
pub open spec fn block_text(lines: Seq<Seq<char>>) -> Seq<char> {
    "{\n"@ + lines_text(lines) + "}\n"@
}

impl View for Block {
    type V = Seq<Seq<char>>;

    open spec fn view(&self) -> Seq<Seq<char>> {
        self.code@.map_values(|s: String| s@)
    }
}

impl Block {
    /// A new, empty statement sequence.
    pub fn new() -> (r: Block)
        ensures
            r@ == Seq::<Seq<char>>::empty(),
    {
        let r = Block { code: Vec::new() };
        proof {
            assert(r@ =~= Seq::<Seq<char>>::empty());
        }
        r
    }

    /// The statement lines appended so far, in order.
    pub fn code(&self) -> (r: &Vec<String>)
        ensures
            r@.map_values(|s: String| s@) == self@,
    {
        &self.code
    }

    /// Appends one complete statement line at the end.
    pub fn add_line(&mut self, line: &str)
        ensures
            final(self)@ == old(self)@.push(line@),
    {
        self.code.push(line.to_owned());
        proof {
            assert(final(self)@ =~= old(self)@.push(line@));
        }
    }

    /// Renders the body: an opening brace, each line indented by one tab,
    /// and a closing brace.
    pub fn emit_c(&self) -> (r: String)
        ensures
            r@ == block_text(self@),
    {
        let mut out = "{\n".to_owned();
        let mut i: usize = 0;
        while i < self.code.len()
            invariant
                i <= self.code@.len(),
                out@ == "{\n"@ + lines_text(self@.subrange(0, i as int)),
                self@.len() == self.code@.len(),
            decreases self.code@.len() - i,
        {
            proof {
                assert(self@.subrange(0, i + 1).drop_last() =~= self@.subrange(0, i as int));
                assert(self@.subrange(0, i + 1).last() == self@[i as int]);
                lemma_lines_text_push(self@.subrange(0, i as int), self@[i as int]);
            }
            out.append("\t");
            out.append((&self.code[i]).as_str());
            out.append("\n");
            proof {
                assert(out@ =~= "{\n"@ + lines_text(self@.subrange(0, i + 1)));
            }
            i = i + 1;
        }
        out.append("}\n");
        proof {
            assert(self@.subrange(0, self@.len() as int) =~= self@);
            assert(out@ =~= block_text(self@));
        }
        out
    }
}

} // verus!
