use vstd::prelude::*;
use vstd::std_specs::iter::IteratorSpec;

verus! {

broadcast use vstd::string::group_string_axioms;

/// Whether `text` can be handed to the engine: it holds no NUL, the
/// character that ends a string in the engine's native form.
pub open spec fn nul_free(text: Seq<char>) -> bool {
    !text.contains('\0')
}

/// Whether two strings hold the same characters.
pub fn same_text(a: &str, b: &str) -> (r: bool)
    ensures
        r == (a@ == b@),
{
    let x = a.to_owned();
    let y = b.to_owned();
    x == y
}

/// Whether `text` holds no NUL.
pub fn is_nul_free(text: &str) -> (r: bool)
    ensures
        r == nul_free(text@),
{
    let mut clean = true;
    for c in rest: text.chars()
        invariant
            rest.seq() == text@,
            clean == nul_free(text@.take(rest.index() as int)),
    {
        proof {
            let k = rest.index() as int;
            let head = text@.take(k);
            let next = text@.take(k + 1);
            assert(next == head.push(c));
            if c == '\0' {
                assert(next[k] == '\0');
            } else if next.contains('\0') {
                let j = choose|j: int| 0 <= j < next.len() && next[j] == '\0';
                assert(head[j] == '\0');
            } else if head.contains('\0') {
                let j = choose|j: int| 0 <= j < head.len() && head[j] == '\0';
                assert(next[j] == '\0');
            }
            assert(nul_free(next) == (nul_free(head) && c != '\0'));
        }
        if c == '\0' {
            clean = false;
        }
    }
    proof {
        assert(text@.take(text@.len() as int) == text@);
    }
    clean
}

} // verus!
