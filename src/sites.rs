//! Site keys, which match without regard to ASCII case, and the concurrent
//! map that the router, supervisor and canary coordinator keep per site.
use vstd::prelude::*;
use vstd::string::*;


verus! {

/// The concurrent map of the `dashmap` crate, opaque to proofs; each map
/// of the library names its contents with a specification function.
#[verifier::external_type_specification]
#[verifier::external_body]
#[verifier::reject_recursive_types(K)]
#[verifier::reject_recursive_types(V)]
#[verifier::reject_recursive_types(S)]
pub struct ExDashMap<K, V, S>(dashmap::DashMap<K, V, S>);

/// `c` with an ASCII capital turned to lower case.
pub open spec fn fold_char(c: char) -> char {
    if 'A' <= c && c <= 'Z' { ((c as u32) + 32) as char } else { c }
}

/// The case-folded form of a site key.
pub open spec fn fold_key(s: Seq<char>) -> Seq<char> {
    s.map_values(|c: char| fold_char(c))
}

/// The lower-case ASCII letters, indexed from `a`.
pub const LOWER_ASCII: &'static str = "abcdefghijklmnopqrstuvwxyz";

/// The folded form of a site key, under which the per-site maps store it.
pub fn normalize_key(s: &str) -> (r: String)
    ensures
        r@ == fold_key(s@),
{
    proof { reveal_strlit("abcdefghijklmnopqrstuvwxyz"); }
    let n = s.unicode_len();
    let mut out = String::new();
    let mut i: usize = 0;
    while i < n
        invariant
            n == s@.len(),
            i <= n,
            out@ == s@.take(i as int).map_values(|c: char| fold_char(c)),
            LOWER_ASCII@ == "abcdefghijklmnopqrstuvwxyz"@,
            LOWER_ASCII@.len() == 26,
        decreases n - i,
    {
        let c = s.get_char(i);
        let ghost before = out@;
        if 'A' <= c && c <= 'Z' {
            let k = (c as u32 - 65) as usize;
            let piece = LOWER_ASCII.substring_char(k, k + 1);
            out.append(piece);
            assert(piece@ == seq![fold_char(c)]) by {
                assert(LOWER_ASCII@[k as int] == ((c as u32) + 32) as char) by {
                    assert(0 <= k < 26);
                    reveal_strlit("abcdefghijklmnopqrstuvwxyz");
                    let lo = "abcdefghijklmnopqrstuvwxyz"@;
                    assert(lo[0] == 'a' && lo[1] == 'b' && lo[2] == 'c' && lo[3] == 'd' && lo[4] == 'e');
                    assert(lo[5] == 'f' && lo[6] == 'g' && lo[7] == 'h' && lo[8] == 'i' && lo[9] == 'j');
                    assert(lo[10] == 'k' && lo[11] == 'l' && lo[12] == 'm' && lo[13] == 'n' && lo[14] == 'o');
                    assert(lo[15] == 'p' && lo[16] == 'q' && lo[17] == 'r' && lo[18] == 's' && lo[19] == 't');
                    assert(lo[20] == 'u' && lo[21] == 'v' && lo[22] == 'w' && lo[23] == 'x' && lo[24] == 'y');
                    assert(lo[25] == 'z');
                }
                assert(piece@ =~= seq![fold_char(c)]);
            }
        } else {
            let piece = s.substring_char(i, i + 1);
            out.append(piece);
            assert(piece@ =~= seq![fold_char(c)]);
        }
        assert(s@.take(i as int + 1).map_values(|c: char| fold_char(c))
            =~= s@.take(i as int).map_values(|c: char| fold_char(c)).push(fold_char(s@[i as int])));
        i = i + 1;
    }
    assert(s@.take(n as int) =~= s@);
    out
}

/// Whether two strings hold the same characters.
pub fn same_text(a: &str, b: &str) -> (r: bool)
    ensures
        r == (a@ == b@),
{
    let n = a.unicode_len();
    let m = b.unicode_len();
    if n != m {
        return false;
    }
    let mut i: usize = 0;
    while i < n
        invariant
            n == a@.len(),
            m == b@.len(),
            n == m,
            i <= n,
            forall|k: int| 0 <= k < i ==> a@[k] == b@[k],
        decreases n - i,
    {
        if a.get_char(i) != b.get_char(i) {
            return false;
        }
        i = i + 1;
    }
    assert(a@ =~= b@);
    true
}

/// The characters of an optional string.
pub open spec fn opt_text(o: Option<&str>) -> Option<Seq<char>> {
    match o {
        Some(s) => Some(s@),
        None => None,
    }
}

} // verus!
