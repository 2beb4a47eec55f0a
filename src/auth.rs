use vstd::prelude::*;
use vstd::string::StrSliceExecFns;

verus! {

/// Whether `token` is exactly the configured `secret`.
pub fn check_token(token: &str, secret: &str) -> (r: bool)
    ensures
        r == (token@ == secret@),
{
    same_chars(token, secret)
}

/// Whether two texts hold the same characters.
///
/// When the lengths agree every character is compared, with no early exit,
/// so the time taken does not reveal how long a matching prefix is.
pub fn same_chars(token: &str, secret: &str) -> (r: bool)
    ensures
        r == (token@ == secret@),
{
    let n = token.unicode_len();
    let m = secret.unicode_len();
    if n != m {
        return false;
    }
    let mut same: bool = true;
    let mut i: usize = 0;
    while i < n
        invariant
            n == token@.len(),
            n == secret@.len(),
            i <= n,
            same == (forall|j: int| 0 <= j < i ==> token@[j] == secret@[j]),
        decreases n - i,
    {
        let a = token.get_char(i);
        let b = secret.get_char(i);
        same = same && a == b;
        i = i + 1;
    }
    if same {
        assert(token@ =~= secret@);
    }
    same
}

} // verus!
