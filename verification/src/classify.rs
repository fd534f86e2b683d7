//! Extension extraction and classification: maps a file path to the style
//! kind (CSS, SCSS or SASS) that its extension names, case-insensitively, or
//! to no classification at all. An unrecognized or absent extension is a
//! normal outcome, not an error.

use crate::types::StyleExtension;
use vstd::prelude::*;

verus! {

/// The extension of the path's last component: the suffix after the final
/// dot of the file name. There is none when the name holds no dot, or when
/// its only dot is the leading character (a hidden-file name).
pub open spec fn extension_of(p: Seq<char>) -> Option<Seq<char>>
    decreases p.len(),
{
    if p.len() == 0 {
        None
    } else if p.last() == '/' {
        None
    } else if p.last() == '.' {
        if p.len() >= 2 && p[p.len() - 2] != '/' {
            Some(Seq::empty())
        } else {
            None
        }
    } else {
        match extension_of(p.drop_last()) {
            Some(e) => Some(e.push(p.last())),
            None => None,
        }
    }
}

/// The ASCII-lowercase code of a character, other characters unchanged.
pub open spec fn lower_u32(c: char) -> u32 {
    if ('A' as u32) <= (c as u32) && (c as u32) <= ('Z' as u32) {
        ((c as u32) + 32) as u32
    } else {
        (c as u32)
    }
}

/// Case-insensitive equality of two character sequences.
pub open spec fn matches_ci(e: Seq<char>, w: Seq<char>) -> bool {
    e.len() == w.len() && forall|i: int|
        0 <= i < e.len() ==> lower_u32(#[trigger] e[i]) == lower_u32(w[i])
}

/// The style kind named by an extension, matched case-insensitively and
/// exactly; anything else is unclassified.
pub open spec fn classify_chars(e: Seq<char>) -> Option<StyleExtension> {
    if matches_ci(e, "css"@) {
        Some(StyleExtension::Css)
    } else if matches_ci(e, "scss"@) {
        Some(StyleExtension::Scss)
    } else if matches_ci(e, "sass"@) {
        Some(StyleExtension::Sass)
    } else {
        None
    }
}

/// The style kind of a path: the classification of its extension, if any.
pub open spec fn classify_of(p: Seq<char>) -> Option<StyleExtension> {
    match extension_of(p) {
        Some(e) => classify_chars(e),
        None => None,
    }
}

/// Appends a suffix to an extension still being assembled.
pub open spec fn ext_append(o: Option<Seq<char>>, suffix: Seq<char>) -> Option<Seq<char>> {
    match o {
        Some(e) => Some(e + suffix),
        None => None,
    }
}

/// Peeling one ordinary character off the end of a path moves it from the
/// path into the assembled extension suffix.
proof fn lemma_extension_peel(p: Seq<char>, k: int)
    requires
        0 < k <= p.len(),
        p[k - 1] != '/',
        p[k - 1] != '.',
    ensures
        ext_append(extension_of(p.subrange(0, k)), p.subrange(k, p.len() as int)) == ext_append(
            extension_of(p.subrange(0, k - 1)),
            p.subrange(k - 1, p.len() as int),
        ),
{
    let q = p.subrange(0, k);
    assert(q.drop_last() =~= p.subrange(0, k - 1));
    match extension_of(p.subrange(0, k - 1)) {
        Some(e) => {
            assert(extension_of(q) == Some(e.push(q.last())));
            assert(e.push(p[k - 1]) + p.subrange(k, p.len() as int) =~= e + p.subrange(
                k - 1,
                p.len() as int,
            ));
        },
        None => {
            assert(extension_of(q) is None);
        },
    }
}

/// Extracts the extension of `path`, as `extension_of` defines it.
pub fn path_extension(path: &str) -> (r: Option<String>)
    ensures
        match r {
            Some(e) => extension_of(path@) == Some(e@),
            None => extension_of(path@) is None,
        },
{
    let n = path.unicode_len();
    let mut k: usize = n;
    proof {
        assert(path@.subrange(0, n as int) =~= path@);
        assert(path@.subrange(n as int, n as int) =~= Seq::<char>::empty());
        assert(ext_append(extension_of(path@), path@.subrange(n as int, n as int)) == extension_of(
            path@,
        ));
    }
    while k > 0
        invariant
            n == path@.len(),
            k <= n,
            ext_append(extension_of(path@.subrange(0, k as int)), path@.subrange(k as int, n as int))
                == extension_of(path@),
        decreases k,
    {
        let c = path.get_char(k - 1);
        if c == '/' {
            proof {
                assert(path@.subrange(0, k as int).last() == '/');
            }
            return None;
        } else if c == '.' {
            if k >= 2 && path.get_char(k - 2) != '/' {
                proof {
                    let q = path@.subrange(0, k as int);
                    assert(q.last() == '.');
                    assert(q[q.len() - 2] == path@[k - 2]);
                    assert(extension_of(q) == Some(Seq::<char>::empty()));
                    assert(Seq::<char>::empty() + path@.subrange(k as int, n as int) =~= path@
                        .subrange(k as int, n as int));
                }
                let e = path.substring_char(k, n);
                return Some(e.to_owned());
            } else {
                proof {
                    let q = path@.subrange(0, k as int);
                    assert(q.last() == '.');
                    if k >= 2 {
                        assert(q[q.len() - 2] == path@[k - 2]);
                    }
                    assert(extension_of(q) is None);
                }
                return None;
            }
        }
        proof {
            lemma_extension_peel(path@, k as int);
        }
        k = k - 1;
    }
    proof {
        assert(path@.subrange(0, 0) =~= Seq::<char>::empty());
    }
    None
}

impl StyleExtension {
    /// Classifies an optional extension string: `css`, `scss` or `sass`,
    /// case-insensitively and exactly, give the matching kind; anything
    /// else, or no extension at all, gives no classification.
    pub fn from_extension(ext: Option<&str>) -> (r: Option<StyleExtension>)
        ensures
            r == match ext {
                Some(e) => classify_chars(e@),
                None => None::<StyleExtension>,
            },
    {
        match ext {
            Some(e) => classify_extension(e),
            None => None,
        }
    }
}

/// ASCII-lowercases one character's code.
fn lower_exec(c: char) -> (r: u32)
    ensures
        r == lower_u32(c),
{
    let u = c as u32;
    if 65 <= u && u <= 90 {
        u + 32
    } else {
        u
    }
}

/// Classifies an extension string as `classify_chars` defines it.
fn classify_extension(e: &str) -> (r: Option<StyleExtension>)
    ensures
        r == classify_chars(e@),
{
    proof {
        reveal_strlit("css");
        reveal_strlit("scss");
        reveal_strlit("sass");
    }
    let n = e.unicode_len();
    if n == 3 {
        let c0 = lower_exec(e.get_char(0));
        let c1 = lower_exec(e.get_char(1));
        let c2 = lower_exec(e.get_char(2));
        if c0 == 'c' as u32 && c1 == 's' as u32 && c2 == 's' as u32 {
            proof {
                assert(matches_ci(e@, "css"@));
            }
            Some(StyleExtension::Css)
        } else {
            proof {
                assert(!matches_ci(e@, "css"@));
            }
            None
        }
    } else if n == 4 {
        let c0 = lower_exec(e.get_char(0));
        let c1 = lower_exec(e.get_char(1));
        let c2 = lower_exec(e.get_char(2));
        let c3 = lower_exec(e.get_char(3));
        if c0 == 's' as u32 && c2 == 's' as u32 && c3 == 's' as u32 {
            if c1 == 'c' as u32 {
                proof {
                    assert(matches_ci(e@, "scss"@));
                }
                Some(StyleExtension::Scss)
            } else if c1 == 'a' as u32 {
                proof {
                    assert(matches_ci(e@, "sass"@));
                }
                Some(StyleExtension::Sass)
            } else {
                proof {
                    assert(!matches_ci(e@, "scss"@));
                    assert(!matches_ci(e@, "sass"@));
                }
                None
            }
        } else {
            proof {
                assert(!matches_ci(e@, "scss"@));
                assert(!matches_ci(e@, "sass"@));
            }
            None
        }
    } else {
        None
    }
}

/// Classifies a full path: extracts its extension and classifies it.
pub fn classify_path(path: &str) -> (r: Option<StyleExtension>)
    ensures
        r == classify_of(path@),
{
    match path_extension(path) {
        Some(e) => StyleExtension::from_extension(Some(e.as_str())),
        None => None,
    }
}

} // verus!
