//! The key normalizer: canonicalizes an incoming key into the lower-snake
//! form the dispatch tables expect.
//!
//! The deployment picks the casing convention of its data sources once, for
//! the whole system.  Sources that already write canonical keys skip all work
//! (`KeyCase::Snake` is the identity); for the other conventions the engine
//! converts through the case-conversion library and then enforces canonical
//! form itself, so that normalization is provably idempotent whatever the
//! conversion returns.
use vstd::prelude::*;

verus! {

/// The casing convention incoming keys are written in.  `Snake` means keys
/// arrive canonical and are taken verbatim; `Kebab` and `Pascal` keys are
/// converted to snake form.
#[derive(Debug, Clone, Copy)]
pub enum KeyCase {
    Snake,
    Kebab,
    Pascal,
}

/// What the case-conversion library returns for a string: a function of the
/// input characters alone.
pub uninterp spec fn snake_of(s: Seq<char>) -> Seq<char>;

/// Relies on `convert_case`'s `Casing::to_case` with `Case::Snake`, which
/// deterministically recases the given string and consults nothing else.
#[verifier::external_body]
fn to_snake_case(s: &str) -> (r: String)
    ensures
        r@ == snake_of(s@),
{
    convert_case::Casing::to_case(&s, convert_case::Case::Snake)
}

/// The canonical image of one character: ASCII uppercase is lowered, the
/// kebab and title delimiters become underscores, everything else stays.
pub open spec fn canon_char(c: char) -> char {
    if c == '-' || c == ' ' {
        '_'
    } else if c == 'A' {
        'a'
    } else if c == 'B' {
        'b'
    } else if c == 'C' {
        'c'
    } else if c == 'D' {
        'd'
    } else if c == 'E' {
        'e'
    } else if c == 'F' {
        'f'
    } else if c == 'G' {
        'g'
    } else if c == 'H' {
        'h'
    } else if c == 'I' {
        'i'
    } else if c == 'J' {
        'j'
    } else if c == 'K' {
        'k'
    } else if c == 'L' {
        'l'
    } else if c == 'M' {
        'm'
    } else if c == 'N' {
        'n'
    } else if c == 'O' {
        'o'
    } else if c == 'P' {
        'p'
    } else if c == 'Q' {
        'q'
    } else if c == 'R' {
        'r'
    } else if c == 'S' {
        's'
    } else if c == 'T' {
        't'
    } else if c == 'U' {
        'u'
    } else if c == 'V' {
        'v'
    } else if c == 'W' {
        'w'
    } else if c == 'X' {
        'x'
    } else if c == 'Y' {
        'y'
    } else if c == 'Z' {
        'z'
    } else {
        c
    }
}

/// A character is canonical when the canonicalizing map leaves it unchanged.
pub open spec fn canonical_char(c: char) -> bool {
    canon_char(c) == c
}

pub open spec fn is_canonical(s: Seq<char>) -> bool {
    forall|i: int| 0 <= i < s.len() ==> canonical_char(#[trigger] s[i])
}

pub open spec fn canon_of(s: Seq<char>) -> Seq<char> {
    s.map(|i: int, c: char| canon_char(c))
}

pub proof fn lemma_canon_char_idempotent(c: char)
    ensures
        canon_char(canon_char(c)) == canon_char(c),
{
}

pub proof fn lemma_canon_of_canonical(s: Seq<char>)
    ensures
        is_canonical(canon_of(s)),
{
    assert forall|i: int| 0 <= i < canon_of(s).len() implies canonical_char(
        #[trigger] canon_of(s)[i],
    ) by {
        lemma_canon_char_idempotent(s[i]);
    }
}

/// What [`normalize`] returns: the identity for canonical-cased deployments,
/// and a conversion to enforced snake form for the others (with a fast path
/// for keys that are already canonical, since this runs once per key).
pub open spec fn normalize_spec(kc: KeyCase, s: Seq<char>) -> Seq<char> {
    match kc {
        KeyCase::Snake => s,
        _ => if is_canonical(s) {
            s
        } else {
            canon_of(snake_of(s))
        },
    }
}

/// Normalization is idempotent: applying it twice is applying it once.
pub proof fn lemma_normalize_idempotent(kc: KeyCase, k: Seq<char>)
    ensures
        normalize_spec(kc, normalize_spec(kc, k)) == normalize_spec(kc, k),
{
    match kc {
        KeyCase::Snake => {
        },
        _ => {
            if !is_canonical(k) {
                lemma_canon_of_canonical(snake_of(k));
            }
        },
    }
}

/// Character-wise string comparison, the engine's only key test.
#[verifier::loop_isolation(false)]
pub(crate) fn str_eq(a: &str, b: &str) -> (r: bool)
    ensures
        r == (a@ == b@),
{
    let na: usize = a.unicode_len();
    let nb: usize = b.unicode_len();
    if na != nb {
        return false;
    }
    let mut i: usize = 0;
    while i < na
        invariant
            i <= na,
            forall|j: int| 0 <= j < i ==> a@[j] == b@[j],
        decreases na - i,
    {
        if a.get_char(i) != b.get_char(i) {
            return false;
        }
        i = i + 1;
    }
    proof {
        assert(a@ =~= b@);
    }
    true
}

fn canon_char_exec(c: char) -> (r: char)
    ensures
        r == canon_char(c),
{
    if c == '-' || c == ' ' {
        '_'
    } else if c == 'A' {
        'a'
    } else if c == 'B' {
        'b'
    } else if c == 'C' {
        'c'
    } else if c == 'D' {
        'd'
    } else if c == 'E' {
        'e'
    } else if c == 'F' {
        'f'
    } else if c == 'G' {
        'g'
    } else if c == 'H' {
        'h'
    } else if c == 'I' {
        'i'
    } else if c == 'J' {
        'j'
    } else if c == 'K' {
        'k'
    } else if c == 'L' {
        'l'
    } else if c == 'M' {
        'm'
    } else if c == 'N' {
        'n'
    } else if c == 'O' {
        'o'
    } else if c == 'P' {
        'p'
    } else if c == 'Q' {
        'q'
    } else if c == 'R' {
        'r'
    } else if c == 'S' {
        's'
    } else if c == 'T' {
        't'
    } else if c == 'U' {
        'u'
    } else if c == 'V' {
        'v'
    } else if c == 'W' {
        'w'
    } else if c == 'X' {
        'x'
    } else if c == 'Y' {
        'y'
    } else if c == 'Z' {
        'z'
    } else {
        c
    }
}

/// A one-character string holding the canonical image of `c`, or `None` when
/// `c` is its own image and the caller can reuse the original text.
fn canon_piece(c: char) -> (r: Option<&'static str>)
    ensures
        match r {
            Some(p) => p@ =~= seq![canon_char(c)],
            None => canon_char(c) == c,
        },
{
    let r: Option<&'static str> = if c == '-' || c == ' ' {
        Some("_")
    } else if c == 'A' {
        Some("a")
    } else if c == 'B' {
        Some("b")
    } else if c == 'C' {
        Some("c")
    } else if c == 'D' {
        Some("d")
    } else if c == 'E' {
        Some("e")
    } else if c == 'F' {
        Some("f")
    } else if c == 'G' {
        Some("g")
    } else if c == 'H' {
        Some("h")
    } else if c == 'I' {
        Some("i")
    } else if c == 'J' {
        Some("j")
    } else if c == 'K' {
        Some("k")
    } else if c == 'L' {
        Some("l")
    } else if c == 'M' {
        Some("m")
    } else if c == 'N' {
        Some("n")
    } else if c == 'O' {
        Some("o")
    } else if c == 'P' {
        Some("p")
    } else if c == 'Q' {
        Some("q")
    } else if c == 'R' {
        Some("r")
    } else if c == 'S' {
        Some("s")
    } else if c == 'T' {
        Some("t")
    } else if c == 'U' {
        Some("u")
    } else if c == 'V' {
        Some("v")
    } else if c == 'W' {
        Some("w")
    } else if c == 'X' {
        Some("x")
    } else if c == 'Y' {
        Some("y")
    } else if c == 'Z' {
        Some("z")
    } else {
        None
    };
    proof {
        reveal_strlit("_");
        reveal_strlit("a");
        reveal_strlit("b");
        reveal_strlit("c");
        reveal_strlit("d");
        reveal_strlit("e");
        reveal_strlit("f");
        reveal_strlit("g");
        reveal_strlit("h");
        reveal_strlit("i");
        reveal_strlit("j");
        reveal_strlit("k");
        reveal_strlit("l");
        reveal_strlit("m");
        reveal_strlit("n");
        reveal_strlit("o");
        reveal_strlit("p");
        reveal_strlit("q");
        reveal_strlit("r");
        reveal_strlit("s");
        reveal_strlit("t");
        reveal_strlit("u");
        reveal_strlit("v");
        reveal_strlit("w");
        reveal_strlit("x");
        reveal_strlit("y");
        reveal_strlit("z");
    }
    r
}

fn is_canonical_exec(s: &str) -> (b: bool)
    ensures
        b == is_canonical(s@),
{
    let n: usize = s.unicode_len();
    let mut i: usize = 0;
    while i < n
        invariant
            i <= n,
            n == s@.len(),
            forall|j: int| 0 <= j < i ==> canonical_char(#[trigger] s@[j]),
        decreases n - i,
    {
        let c = s.get_char(i);
        if canon_char_exec(c) != c {
            return false;
        }
        i = i + 1;
    }
    true
}

/// Rewrites every character to its canonical image.
fn scrub(s: &str) -> (r: String)
    ensures
        r@ == canon_of(s@),
{
    let n: usize = s.unicode_len();
    let mut out = String::new();
    let mut i: usize = 0;
    while i < n
        invariant
            i <= n,
            n == s@.len(),
            out@ == canon_of(s@.take(i as int)),
        decreases n - i,
    {
        let c = s.get_char(i);
        let ghost pre = out@;
        match canon_piece(c) {
            Some(p) => {
                out.append(p);
            },
            None => {
                let p = s.substring_char(i, i + 1);
                proof {
                    assert(p@ =~= seq![s@[i as int]]);
                }
                out.append(p);
            },
        }
        proof {
            assert(out@ =~= pre.push(canon_char(s@[i as int])));
            assert(canon_of(s@.take(i + 1 as int)) =~= canon_of(s@.take(i as int)).push(
                canon_char(s@[i as int]),
            ));
        }
        i = i + 1;
    }
    proof {
        assert(s@.take(n as int) =~= s@);
    }
    out
}

/// Canonicalizes one incoming key per the deployment's casing convention.
pub fn normalize(kc: KeyCase, k: &str) -> (r: String)
    ensures
        r@ == normalize_spec(kc, k@),
{
    match kc {
        KeyCase::Snake => k.to_owned(),
        _ => {
            if is_canonical_exec(k) {
                k.to_owned()
            } else {
                let converted = to_snake_case(k);
                scrub(converted.as_str())
            }
        },
    }
}

} // verus!
