//! Module aliases for discovered style files: the sanitized identifier that
//! each generated import line binds its file to. The alias is a best-effort
//! deterministic transform of the file's path; it does not guarantee global
//! uniqueness across pathologically similar paths.

use vstd::prelude::*;

verus! {

/// Folds one path character before sanitization: an underscore becomes a
/// dash, and a path separator or dot becomes an underscore.
pub open spec fn fold_char(c: char) -> char {
    if c == '_' {
        '-'
    } else if c == '/' || c == '.' || c == '\\' {
        '_'
    } else {
        c
    }
}

/// The characters allowed in a module alias: ASCII letters and digits, dash
/// and underscore.
pub open spec fn is_alias_char(c: char) -> bool {
    ||| ('a' as u32) <= (c as u32) && (c as u32) <= ('z' as u32)
    ||| ('A' as u32) <= (c as u32) && (c as u32) <= ('Z' as u32)
    ||| ('0' as u32) <= (c as u32) && (c as u32) <= ('9' as u32)
    ||| c == '-'
    ||| c == '_'
}

/// The alias derived from a path: every character folded, then every
/// character outside the allowed set dropped.
pub open spec fn alias_of(s: Seq<char>) -> Seq<char> {
    s.map_values(|c: char| fold_char(c)).filter(|c: char| is_alias_char(c))
}

/// Relies on `String::push`: appends the given character to the end of the
/// string.
#[verifier::external_body]
fn push_char(s: &mut String, c: char)
    ensures
        final(s)@ == old(s)@.push(c),
{
    s.push(c);
}

proof fn lemma_alias_of_empty()
    ensures
        alias_of(Seq::<char>::empty()) == Seq::<char>::empty(),
{
    reveal(Seq::filter);
    assert(Seq::<char>::empty().map_values(|c: char| fold_char(c)) =~= Seq::<char>::empty());
}

/// Extending the path by one character extends the alias by the folded
/// character exactly when that character survives sanitization.
proof fn lemma_alias_of_step(s: Seq<char>, i: int)
    requires
        0 <= i < s.len(),
    ensures
        alias_of(s.subrange(0, i + 1)) == if is_alias_char(fold_char(s[i])) {
            alias_of(s.subrange(0, i)).push(fold_char(s[i]))
        } else {
            alias_of(s.subrange(0, i))
        },
{
    reveal(Seq::filter);
    let fold = |c: char| fold_char(c);
    let keep = |c: char| is_alias_char(c);
    let m = s.subrange(0, i).map_values(fold);
    let m1 = s.subrange(0, i + 1).map_values(fold);
    assert(m1 =~= m.push(fold_char(s[i])));
    assert(m1.drop_last() =~= m);
}

/// Computes the module alias bound to `path` inside the generated manifest.
/// Every character of the result lies in the allowed set `[A-Za-z0-9_-]`.
pub fn module_alias(path: &str) -> (r: String)
    ensures
        r@ == alias_of(path@),
        forall|i: int| 0 <= i < r@.len() ==> is_alias_char(#[trigger] r@[i]),
{
    let n = path.unicode_len();
    let mut out = String::new();
    proof {
        lemma_alias_of_empty();
        assert(path@.subrange(0, 0) =~= Seq::<char>::empty());
    }
    let mut i: usize = 0;
    while i < n
        invariant
            n == path@.len(),
            i <= n,
            out@ == alias_of(path@.subrange(0, i as int)),
        decreases n - i,
    {
        let c0 = path.get_char(i);
        let c = if c0 == '_' {
            '-'
        } else if c0 == '/' || c0 == '.' || c0 == '\\' {
            '_'
        } else {
            c0
        };
        proof {
            assert(c == fold_char(path@[i as int]));
        }
        let u = c as u32;
        let keep = (97 <= u && u <= 122) || (65 <= u && u <= 90) || (48 <= u && u <= 57) || c == '-'
            || c == '_';
        proof {
            assert(keep == is_alias_char(c));
            lemma_alias_of_step(path@, i as int);
        }
        if keep {
            push_char(&mut out, c);
        }
        i = i + 1;
    }
    proof {
        assert(path@.subrange(0, n as int) =~= path@);
        lemma_alias_chars(path@);
    }
    out
}

/// Law: every character of a generated alias lies in the allowed set
/// `[A-Za-z0-9_-]`; in particular no separator, dot or backslash survives
/// sanitization.
pub proof fn lemma_alias_chars(s: Seq<char>)
    ensures
        forall|i: int| 0 <= i < alias_of(s).len() ==> is_alias_char(#[trigger] alias_of(s)[i]),
{
    let fold = |c: char| fold_char(c);
    let keep = |c: char| is_alias_char(c);
    let m = s.map_values(fold);
    assert forall|i: int| 0 <= i < alias_of(s).len() implies is_alias_char(
        #[trigger] alias_of(s)[i],
    ) by {
        m.lemma_filter_pred(keep, i);
    }
}

} // verus!
