//! File names: the output name of a calibrated frame and the path of a
//! calibration artifact at a given scale factor.
use vstd::prelude::*;

verus! {

/// Index of the dot that opens the extension of the last path component of
/// `s`, looking before index `i`; `s.len()` when that component has none.
pub open spec fn dot_before(s: Seq<char>, i: int) -> int
    decreases i,
{
    if i <= 0 || i > s.len() {
        s.len() as int
    } else if s[i - 1] == '/' {
        s.len() as int
    } else if s[i - 1] == '.' {
        i - 1
    } else {
        dot_before(s, i - 1)
    }
}

/// Where the extension of `s` begins (its length when there is none).
pub open spec fn extension_start(s: Seq<char>) -> int {
    dot_before(s, s.len() as int)
}

/// `name` with `suffix` inserted before its extension.
pub open spec fn with_suffix(name: Seq<char>, suffix: Seq<char>) -> Seq<char> {
    name.subrange(0, extension_start(name)) + suffix + name.subrange(extension_start(name), name.len() as int)
}

proof fn lemma_dot_before_bounds(s: Seq<char>, i: int)
    requires
        0 <= i <= s.len(),
    ensures
        0 <= dot_before(s, i) <= s.len(),
    decreases i,
{
    if i > 0 && s[i - 1] != '/' && s[i - 1] != '.' {
        lemma_dot_before_bounds(s, i - 1);
    }
}

fn extension_index(name: &str) -> (r: usize)
    ensures
        r as int == extension_start(name@),
        r <= name@.len(),
{
    let n = name.unicode_len();
    let mut i: usize = n;
    while i > 0
        invariant
            n == name@.len(),
            i <= n,
            dot_before(name@, n as int) == dot_before(name@, i as int),
        decreases i,
    {
        let c = name.get_char(i - 1);
        if c == '/' {
            return n;
        }
        if c == '.' {
            return i - 1;
        }
        i = i - 1;
    }
    n
}

/// The name of the calibrated output of `input`: `suffix` inserted before
/// the extension of the file's name, or appended where it has none.
pub fn output_file_name(input: &str, suffix: &str) -> (r: String)
    ensures
        r@ == with_suffix(input@, suffix@),
{
    let d = extension_index(input);
    let n = input.unicode_len();
    let mut r = String::from_str(input.substring_char(0, d));
    r.append(suffix);
    r.append(input.substring_char(d, n));
    r
}

/// Decimal digits of `n`, most significant first.
pub open spec fn decimal(n: nat) -> Seq<char>
    decreases n,
{
    let digit = seq!['0', '1', '2', '3', '4', '5', '6', '7', '8', '9'][(n % 10) as int];
    if n < 10 { seq![digit] } else { decimal(n / 10).push(digit) }
}

/// The tag that stands for scale factor `n` in an artifact's path.
pub open spec fn scale_tag(n: nat) -> Seq<char> {
    seq!['s', 'f'] + decimal(n)
}

/// Appends the decimal digits of `n` to `out`.
fn append_decimal(out: &mut String, n: u32)
    ensures
        final(out)@ == old(out)@ + decimal(n as nat),
    decreases n,
{
    if n >= 10 {
        append_decimal(out, n / 10);
    }
    let digits = "0123456789";
    proof {
        reveal_strlit("0123456789");
    }
    let d = (n % 10) as usize;
    let digit = digits.substring_char(d, d + 1);
    assert(digit@ =~= seq![seq!['0', '1', '2', '3', '4', '5', '6', '7', '8', '9'][d as int]]);
    out.append(digit);
    proof {
        if n >= 10 {
            assert(decimal(n as nat) == decimal((n / 10) as nat).push(digit@[0]));
        } else {
            assert(decimal(n as nat) == seq![digit@[0]]);
        }
    }
}

/// Builds `scale_tag(n)`: `sf` followed by the decimal digits of `n`.
pub fn scale_factor_tag(n: u32) -> (r: String)
    ensures
        r@ == scale_tag(n as nat),
{
    let prefix = "sf";
    proof {
        reveal_strlit("sf");
    }
    let mut r = String::from_str(prefix);
    append_decimal(&mut r, n);
    assert(prefix@ =~= seq!['s', 'f']);
    r
}

/// `s` with every occurrence of `pat`, scanned left to right without
/// overlap, replaced by `rep`.
pub open spec fn replace_all(s: Seq<char>, pat: Seq<char>, rep: Seq<char>) -> Seq<char>
    decreases s.len(),
{
    if pat.len() == 0 || s.len() < pat.len() {
        s
    } else if s.subrange(0, pat.len() as int) == pat {
        rep + replace_all(s.subrange(pat.len() as int, s.len() as int), pat, rep)
    } else {
        seq![s[0]] + replace_all(s.drop_first(), pat, rep)
    }
}

fn occurs_at(s: &str, n: usize, i: usize, pat: &str, m: usize) -> (r: bool)
    requires
        n == s@.len(),
        m == pat@.len(),
        i <= n,
    ensures
        r == (m <= n - i && s@.subrange(i as int, i + m) == pat@),
{
    if m > n - i {
        return false;
    }
    let mut j: usize = 0;
    while j < m
        invariant
            n == s@.len(),
            m == pat@.len(),
            i + m <= n,
            j <= m,
            forall|k: int| 0 <= k < j ==> s@[i + k] == pat@[k],
        decreases m - j,
    {
        if s.get_char(i + j) != pat.get_char(j) {
            assert(s@.subrange(i as int, i + m)[j as int] != pat@[j as int]);
            return false;
        }
        j = j + 1;
    }
    assert(s@.subrange(i as int, i + m) =~= pat@);
    true
}

/// `s` with every occurrence of the non-empty `pat` replaced by `rep`.
pub fn replace_every(s: &str, pat: &str, rep: &str) -> (r: String)
    requires
        pat@.len() > 0,
    ensures
        r@ == replace_all(s@, pat@, rep@),
{
    let n = s.unicode_len();
    let m = pat.unicode_len();
    let mut out = String::new();
    let mut i: usize = 0;
    assert(s@.subrange(0, n as int) =~= s@);
    assert(out@ + replace_all(s@, pat@, rep@) =~= replace_all(s@, pat@, rep@));
    while i < n
        invariant
            n == s@.len(),
            m == pat@.len(),
            m > 0,
            i <= n,
            out@ + replace_all(s@.subrange(i as int, n as int), pat@, rep@) == replace_all(s@, pat@, rep@),
        decreases n - i,
    {
        let ghost rest = s@.subrange(i as int, n as int);
        if occurs_at(s, n, i, pat, m) {
            assert(rest.subrange(0, m as int) =~= s@.subrange(i as int, i + m));
            assert(rest.subrange(m as int, rest.len() as int) =~= s@.subrange(i + m, n as int));
            out.append(rep);
            assert(out@ + replace_all(s@.subrange(i + m, n as int), pat@, rep@) == replace_all(s@, pat@, rep@)) by {
                assert((out@ + rep@) + replace_all(s@.subrange(i + m, n as int), pat@, rep@)
                    =~= out@ + (rep@ + replace_all(s@.subrange(i + m, n as int), pat@, rep@)));
            }
            i = i + m;
        } else {
            if m <= n - i {
                assert(rest.subrange(0, m as int) =~= s@.subrange(i as int, i + m));
            }
            assert(rest.drop_first() =~= s@.subrange(i + 1, n as int));
            let one = s.substring_char(i, i + 1);
            assert(one@ =~= seq![rest[0]]);
            out.append(one);
            assert(out@ + replace_all(s@.subrange(i + 1, n as int), pat@, rep@) == replace_all(s@, pat@, rep@)) by {
                assert((out@ + one@) + replace_all(s@.subrange(i + 1, n as int), pat@, rep@)
                    =~= out@ + (one@ + replace_all(s@.subrange(i + 1, n as int), pat@, rep@)));
            }
            i = i + 1;
        }
    }
    assert(s@.subrange(n as int, n as int).len() == 0);
    assert(out@ + seq![] =~= out@);
    out
}

/// The marker that an artifact's path template holds in place of the scale
/// factor: `-scalefactor-`.
pub open spec fn scale_marker() -> Seq<char> {
    seq!['-', 's', 'c', 'a', 'l', 'e', 'f', 'a', 'c', 't', 'o', 'r', '-']
}

/// The path of an artifact at scale factor `scale_factor`: the template with
/// every scale marker replaced by `sf` and the factor's decimal digits.
pub fn calibration_path(template: &str, scale_factor: u32) -> (r: String)
    ensures
        r@ == replace_all(template@, scale_marker(), scale_tag(scale_factor as nat)),
{
    let marker = "-scalefactor-";
    proof {
        reveal_strlit("-scalefactor-");
    }
    assert(marker@ =~= scale_marker());
    let tag = scale_factor_tag(scale_factor);
    replace_every(template, marker, tag.as_str())
}

} // verus!
