use vstd::prelude::*;

verus! {

/// Whether `text` can be handed to the graphics context, which reads a text
/// up to its first NUL character: it can where it holds none.
pub open spec fn is_c_text(text: Seq<char>) -> bool {
    forall|i: int| 0 <= i < text.len() ==> text[i] != '\0'
}

/// Tells whether `text` holds no NUL character.
pub fn check_c_text(text: &str) -> (ok: bool)
    ensures
        ok == is_c_text(text@),
{
    let mut ok = true;
    for c in iter: text.chars()
        invariant
            iter.seq() == text@,
            ok == (forall|i: int| 0 <= i < iter.index() ==> text@[i] != '\0'),
    {
        assert(c == text@[iter.index() as int]);
        ok = ok && c != '\0';
    }
    ok
}

} // verus!
