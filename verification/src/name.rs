//! Record-name normalization.
//!
//! A record name as authored may be relative to the zone apex: `"@"` denotes
//! the apex itself, `"sub"` denotes `sub.<apex>`, and a name equal to the
//! apex or already ending in `.<apex>` is left unchanged. Remote state always
//! carries fully-qualified names, so both sides are brought to the same
//! fully-qualified form before identity comparison.

use vstd::prelude::*;

use crate::error::Error;

verus! {

/// Characters accepted in a raw record name: ASCII letters and digits plus
/// the separators and markers DNS names use (`-`, `_`, `.`, and the
/// wildcard `*`).
pub open spec fn valid_name_char(c: char) -> bool {
    ||| 97 <= c as u32 <= 122  // 'a' ..= 'z'
    ||| 65 <= c as u32 <= 90  // 'A' ..= 'Z'
    ||| 48 <= c as u32 <= 57  // '0' ..= '9'
    ||| c == '-'
    ||| c == '_'
    ||| c == '.'
    ||| c == '*'
}

/// A raw record name: the apex marker `"@"`, a non-empty string of
/// characters valid for DNS labels, or such a string behind the qualified
/// apex marker `"@."` (the form a provider uses for a record at the apex).
pub open spec fn valid_raw_name(n: Seq<char>) -> bool {
    ||| n =~= seq!['@']
    ||| (n.len() > 0 && forall|i: int| 0 <= i < n.len() ==> valid_name_char(#[trigger] n[i]))
    ||| (n.len() > 2 && n[0] == '@' && n[1] == '.' && forall|i: int|
        2 <= i < n.len() ==> valid_name_char(#[trigger] n[i]))
}

/// A usable zone apex: non-empty and made of characters valid for DNS
/// labels (so never the bare `"@"` marker).
pub open spec fn valid_apex(z: Seq<char>) -> bool {
    z.len() > 0 && forall|i: int| 0 <= i < z.len() ==> valid_name_char(#[trigger] z[i])
}

/// Does `n` end in `.` followed by the apex `z`?
pub open spec fn ends_with_dot_apex(n: Seq<char>, z: Seq<char>) -> bool {
    &&& n.len() > z.len()
    &&& n[n.len() - z.len() - 1] == '.'
    &&& forall|j: int| 0 <= j < z.len() ==> n[n.len() - z.len() + j] == #[trigger] z[j]
}

/// The fully-qualified form of a raw name `n` under zone apex `z`: `"@"`
/// and the qualified apex marker `"@.<apex>"` become the apex, a name equal
/// to the apex or already ending in `.<apex>` is kept, and any other name
/// gets `.<apex>` appended.
pub open spec fn norm_name(n: Seq<char>, z: Seq<char>) -> Seq<char> {
    if n =~= seq!['@'] || n =~= seq!['@', '.'] + z {
        z
    } else if n =~= z || ends_with_dot_apex(n, z) {
        n
    } else {
        n + seq!['.'] + z
    }
}

/// Normalization is idempotent: qualifying an already-qualified name changes
/// nothing, whatever the raw name and apex are.
pub proof fn lemma_norm_name_idempotent(n: Seq<char>, z: Seq<char>)
    ensures
        norm_name(norm_name(n, z), z) == norm_name(n, z),
{
    if n =~= seq!['@'] || n =~= seq!['@', '.'] + z {
        // First pass yields the apex itself; the apex either is the bare
        // marker (kept by the first branch) or is equal to itself (kept by
        // the second). It is never the qualified marker: that is two
        // characters longer than itself.
        assert((seq!['@', '.'] + z).len() == z.len() + 2);
        assert(norm_name(z, z) == z);
    } else if n =~= z || ends_with_dot_apex(n, z) {
        assert(norm_name(n, z) == n);
    } else {
        let m = n + seq!['.'] + z;
        assert(m.len() == n.len() + 1 + z.len());
        assert(m[n.len() as int] == '.');
        assert(!(m =~= seq!['@'])) by {
            if m =~= seq!['@'] {
                assert(m.len() == 1);
                assert(m[0] == '@');
            }
        }
        assert(!(m =~= seq!['@', '.'] + z)) by {
            if m =~= seq!['@', '.'] + z {
                assert(m.len() == z.len() + 2);
                assert(n.len() == 1);
                assert(m[0] == n[0]);
                assert(m[0] == '@');
                assert(n =~= seq!['@']);
            }
        }
        assert(ends_with_dot_apex(m, z)) by {
            assert(m[m.len() - z.len() - 1] == '.');
            assert forall|j: int| 0 <= j < z.len() implies m[m.len() - z.len() + j] == #[trigger] z[j] by {
                assert(m[n.len() + 1 + j] == z[j]);
            }
        }
        assert(norm_name(m, z) == m);
    }
}

/// A valid raw name stays valid through normalization, provided the apex is
/// itself usable.
pub proof fn lemma_norm_name_valid(n: Seq<char>, z: Seq<char>)
    requires
        valid_raw_name(n),
        valid_apex(z),
    ensures
        valid_raw_name(norm_name(n, z)),
{
    if n =~= seq!['@'] || n =~= seq!['@', '.'] + z {
        assert(valid_raw_name(z));
    } else if n =~= z || ends_with_dot_apex(n, z) {
    } else {
        let m = n + seq!['.'] + z;
        assert(n.len() > 0);
        if n[0] == '@' {
            // The qualified-marker form: its tail stays valid and the
            // marker stays in front.
            assert(n.len() > 2 && n[1] == '.');
            assert(m.len() > 2 && m[0] == '@' && m[1] == '.');
            assert forall|i: int| 2 <= i < m.len() implies valid_name_char(#[trigger] m[i]) by {
                if i < n.len() {
                    assert(m[i] == n[i]);
                } else if i == n.len() {
                    assert(m[i] == '.');
                } else {
                    assert(m[i] == z[i - n.len() - 1]);
                }
            }
        } else {
            assert forall|i: int| 0 <= i < m.len() implies valid_name_char(#[trigger] m[i]) by {
                if i < n.len() {
                    assert(m[i] == n[i]);
                } else if i == n.len() {
                    assert(m[i] == '.');
                } else {
                    assert(m[i] == z[i - n.len() - 1]);
                }
            }
        }
    }
}

/// Checks one character against the raw-name alphabet.
fn is_valid_name_char(c: char) -> (r: bool)
    ensures
        r == valid_name_char(c),
{
    let u = c as u32;
    (97 <= u && u <= 122) || (65 <= u && u <= 90) || (48 <= u && u <= 57) || u == 45 || u == 95
        || u == 46 || u == 42
}

/// Checks that `s` is an acceptable raw record name: the apex marker `"@"`,
/// a non-empty string of valid label characters, or such a string behind
/// the qualified apex marker `"@."`.
pub fn is_valid_raw_name(s: &str) -> (r: bool)
    ensures
        r == valid_raw_name(s@),
{
    let n = s.unicode_len();
    if n == 0 {
        return false;
    }
    let first = s.get_char(0);
    if n == 1 && first == '@' {
        proof {
            assert(s@ =~= seq!['@']);
        }
        return true;
    }
    proof {
        assert(!(s@ =~= seq!['@'])) by {
            if s@ =~= seq!['@'] {
                assert(s@.len() == 1);
                assert(s@[0] == '@');
            }
        }
    }
    let start: usize;
    if first == '@' {
        if n <= 2 {
            return false;
        }
        if s.get_char(1) != '.' {
            return false;
        }
        start = 2;
    } else {
        start = 0;
    }
    let mut i: usize = start;
    while i < n
        invariant
            start <= i <= n,
            n == s@.len(),
            n >= 1,
            start == 0 || start == 2,
            start == 0 ==> s@[0] != '@',
            start == 2 ==> n > 2 && s@[0] == '@' && s@[1] == '.',
            forall|k: int| start <= k < i ==> valid_name_char(#[trigger] s@[k]),
        decreases n - i,
    {
        let c = s.get_char(i);
        if !is_valid_name_char(c) {
            proof {
                assert(!(s@ =~= seq!['@'])) by {
                    if s@ =~= seq!['@'] {
                        assert(s@.len() == 1);
                        assert(s@[0] == '@');
                    }
                }
                if start == 0 {
                    assert(!valid_name_char(s@[i as int]));
                } else {
                    assert(!valid_name_char('@'));
                    assert(!valid_name_char(s@[i as int]));
                }
            }
            return false;
        }
        i += 1;
    }
    proof {
        if start == 2 {
            assert(!valid_name_char('@'));
        }
    }
    true
}

/// Character-wise equality of two string slices.
pub fn str_eq(a: &str, b: &str) -> (r: bool)
    ensures
        r == (a@ == b@),
{
    let n = a.unicode_len();
    if n != b.unicode_len() {
        return false;
    }
    let mut i: usize = 0;
    while i < n
        invariant
            0 <= i <= n,
            n == a@.len(),
            n == b@.len(),
            forall|k: int| 0 <= k < i ==> a@[k] == b@[k],
        decreases n - i,
    {
        if a.get_char(i) != b.get_char(i) {
            return false;
        }
        i += 1;
    }
    proof {
        assert(a@ =~= b@);
    }
    true
}

/// Does `n` end in `.` followed by `z`?
fn ends_with_dot(n: &str, z: &str) -> (r: bool)
    ensures
        r == ends_with_dot_apex(n@, z@),
{
    let nlen = n.unicode_len();
    let zlen = z.unicode_len();
    if nlen <= zlen {
        return false;
    }
    let start = nlen - zlen;
    if n.get_char(start - 1) != '.' {
        return false;
    }
    let mut j: usize = 0;
    while j < zlen
        invariant
            0 <= j <= zlen,
            nlen == n@.len(),
            zlen == z@.len(),
            nlen > zlen,
            start == nlen - zlen,
            n@[start - 1] == '.',
            forall|k: int| 0 <= k < j ==> n@[start + k] == #[trigger] z@[k],
        decreases zlen - j,
    {
        if n.get_char(start + j) != z.get_char(j) {
            return false;
        }
        j += 1;
    }
    true
}

/// Rewrites a raw record name to its fully-qualified form under `apex`, or
/// rejects it when it is empty or holds a character invalid for DNS labels.
pub fn normalize_name_str(name: &str, apex: &str) -> (r: Result<String, Error>)
    ensures
        r is Ok <==> valid_raw_name(name@),
        r matches Ok(s) ==> s@ == norm_name(name@, apex@),
        r matches Err(e) ==> e matches Error::InvalidName { name: bad } && bad@ == name@,
{
    if !is_valid_raw_name(name) {
        return Err(Error::InvalidName { name: name.to_owned() });
    }
    let n = name.unicode_len();
    if n == 1 && name.get_char(0) == '@' {
        proof {
            assert(name@ =~= seq!['@']);
        }
        return Ok(apex.to_owned());
    }
    proof {
        assert(!(name@ =~= seq!['@'])) by {
            if name@ =~= seq!['@'] {
                assert(name@.len() == 1);
                assert(name@[0] == '@');
            }
        }
    }
    let zlen = apex.unicode_len();
    if n >= 2 && n - 2 == zlen && name.get_char(0) == '@' && ends_with_dot(name, apex) {
        proof {
            assert(name@[1] == '.');
            assert(name@ =~= seq!['@', '.'] + apex@) by {
                assert forall|j: int|
                    0 <= j < apex@.len() implies name@[2 + j] == #[trigger] apex@[j] by {
                    assert(name@[name@.len() - apex@.len() + j] == apex@[j]);
                }
            }
        }
        return Ok(apex.to_owned());
    }
    proof {
        assert(!(name@ =~= seq!['@', '.'] + apex@)) by {
            if name@ =~= seq!['@', '.'] + apex@ {
                assert(name@.len() == apex@.len() + 2);
                assert(name@[0] == '@');
                assert(name@[1] == '.');
                assert(ends_with_dot_apex(name@, apex@)) by {
                    assert(name@[name@.len() - apex@.len() - 1] == '.');
                    assert forall|j: int|
                        0 <= j < apex@.len() implies name@[name@.len() - apex@.len() + j] == (
                    #[trigger] apex@[j]) by {
                        assert(name@[2 + j] == (seq!['@', '.'] + apex@)[2 + j]);
                    }
                }
            }
        }
    }
    if str_eq(name, apex) {
        return Ok(name.to_owned());
    }
    if ends_with_dot(name, apex) {
        return Ok(name.to_owned());
    }
    let mut out = name.to_owned();
    out.append(".");
    out.append(apex);
    proof {
        reveal_strlit(".");
        assert("."@ =~= seq!['.']);
        assert(out@ =~= name@ + seq!['.'] + apex@);
    }
    Ok(out)
}

} // verus!
