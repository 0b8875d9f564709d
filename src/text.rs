//! Path and text helpers over the character view of strings.
use vstd::prelude::*;

verus! {

/// `s` ends with `suffix`.
pub open spec fn ends_with(s: Seq<char>, suffix: Seq<char>) -> bool {
    suffix.len() <= s.len() && s.subrange(s.len() - suffix.len(), s.len() as int) == suffix
}

/// A character that ends an extension scan: a dot or a directory separator.
pub open spec fn is_mark(c: char) -> bool {
    c == '.' || c == '/'
}

/// `i` is the position of the last dot or separator in `p`.
pub open spec fn is_last_mark(p: Seq<char>, i: int) -> bool {
    0 <= i < p.len() && is_mark(p[i]) && forall|j: int| i < j < p.len() ==> !is_mark(#[trigger] p[j])
}

/// `i` is the position of the last separator in `p`.
pub open spec fn is_last_slash(p: Seq<char>, i: int) -> bool {
    0 <= i < p.len() && p[i] == '/' && forall|j: int| i < j < p.len() ==> #[trigger] p[j] != '/'
}

/// The dot at `i` ends a last component that is `..`.
pub open spec fn ends_parent_component(p: Seq<char>, i: int) -> bool {
    i == p.len() - 1 && i > 0 && p[i - 1] == '.' && (i == 1 || p[i - 2] == '/')
}

/// Position of the dot that starts the extension of the last component of
/// `p`: the last dot after the last separator, unless it opens the component
/// or the component is `..`. A path that ends in a separator names a
/// directory, and its last component is taken to be empty.
pub open spec fn ext_dot(p: Seq<char>) -> Option<int> {
    if exists|i: int| is_last_mark(p, i) {
        let i = choose|i: int| is_last_mark(p, i);
        if i > 0 && p[i] == '.' && p[i - 1] != '/' && !ends_parent_component(p, i) {
            Some(i)
        } else {
            None
        }
    } else {
        None
    }
}

/// The extension of the last component of `p`, without its dot.
pub open spec fn extension(p: Seq<char>) -> Option<Seq<char>> {
    match ext_dot(p) {
        Some(i) => Some(p.subrange(i + 1, p.len() as int)),
        None => None,
    }
}

/// `p` with its extension replaced by `ext`; `p` keeps its dot.
pub open spec fn replace_extension(p: Seq<char>, ext: Seq<char>) -> Seq<char> {
    match ext_dot(p) {
        Some(i) => p.subrange(0, i + 1) + ext,
        None => p + seq!['.'] + ext,
    }
}

/// `p` with its extension and its dot removed.
pub open spec fn strip_extension(p: Seq<char>) -> Seq<char> {
    match ext_dot(p) {
        Some(i) => p.subrange(0, i),
        None => p,
    }
}

/// The directory part of `p`: all before the last separator, or nothing.
pub open spec fn parent(p: Seq<char>) -> Seq<char> {
    if exists|i: int| is_last_slash(p, i) {
        p.subrange(0, choose|i: int| is_last_slash(p, i))
    } else {
        Seq::empty()
    }
}

proof fn lemma_last_mark_unique(p: Seq<char>, i: int, k: int)
    requires
        is_last_mark(p, i),
        is_last_mark(p, k),
    ensures
        i == k,
{
    if i < k {
        assert(!is_mark(p[k]));
    } else if k < i {
        assert(!is_mark(p[i]));
    }
}

proof fn lemma_last_slash_unique(p: Seq<char>, i: int, k: int)
    requires
        is_last_slash(p, i),
        is_last_slash(p, k),
    ensures
        i == k,
{
    if i < k {
        assert(p[k] != '/');
    } else if k < i {
        assert(p[i] != '/');
    }
}

/// Whether `s` ends with `suffix`.
pub fn str_ends_with(s: &str, suffix: &str) -> (r: bool)
    ensures
        r == ends_with(s@, suffix@),
{
    let n = s.unicode_len();
    let m = suffix.unicode_len();
    if m > n {
        return false;
    }
    let base: usize = n - m;
    let mut i: usize = 0;
    while i < m
        invariant
            n == s@.len(),
            m == suffix@.len(),
            base == n - m,
            i <= m,
            forall|j: int| 0 <= j < i ==> s@[base + j] == suffix@[j],
        decreases m - i,
    {
        if s.get_char(base + i) != suffix.get_char(i) {
            assert(s@.subrange(base as int, n as int)[i as int] != suffix@[i as int]);
            return false;
        }
        i = i + 1;
    }
    assert(s@.subrange(base as int, n as int) =~= suffix@);
    true
}

/// Position of the dot that starts the extension of `p`, as [`ext_dot`].
pub fn find_ext_dot(p: &str) -> (r: Option<usize>)
    ensures
        r is Some <==> ext_dot(p@) is Some,
        r is Some ==> ext_dot(p@) == Some(r->0 as int) && r->0 < p@.len() <= usize::MAX,
{
    let n = p.unicode_len();
    let mut k: usize = n;
    while k > 0
        invariant
            n == p@.len(),
            k <= n,
            forall|j: int| k <= j < n ==> !is_mark(#[trigger] p@[j]),
        decreases k,
    {
        let c = p.get_char(k - 1);
        if c == '.' || c == '/' {
            let i: usize = k - 1;
            assert(is_last_mark(p@, i as int));
            proof {
                let w = choose|w: int| is_last_mark(p@, w);
                lemma_last_mark_unique(p@, i as int, w);
            }
            if i > 0 && c == '.' && p.get_char(i - 1) != '/' {
                let parent_component = i + 1 == n && p.get_char(i - 1) == '.' && (i == 1
                    || p.get_char(i - 2) == '/');
                if parent_component {
                    return None;
                }
                return Some(i);
            } else {
                return None;
            }
        }
        k = k - 1;
    }
    assert(!exists|i: int| is_last_mark(p@, i));
    None
}

/// Position of the last separator in `p`, if any.
fn find_last_slash(p: &str) -> (r: Option<usize>)
    ensures
        match r {
            Some(i) => is_last_slash(p@, i as int),
            None => !exists|i: int| is_last_slash(p@, i),
        },
{
    let n = p.unicode_len();
    let mut k: usize = n;
    while k > 0
        invariant
            n == p@.len(),
            k <= n,
            forall|j: int| k <= j < n ==> #[trigger] p@[j] != '/',
        decreases k,
    {
        if p.get_char(k - 1) == '/' {
            return Some(k - 1);
        }
        k = k - 1;
    }
    None
}

/// The extension of `p`, as [`extension`].
pub fn path_extension(p: &str) -> (r: Option<&str>)
    ensures
        match extension(p@) {
            Some(e) => r is Some && r->0@ == e,
            None => r is None,
        },
{
    match find_ext_dot(p) {
        Some(i) => Some(p.substring_char(i + 1, p.unicode_len())),
        None => None,
    }
}

/// `p` with its extension replaced by `ext`, as [`replace_extension`].
pub fn with_extension(p: &str, ext: &str) -> (r: String)
    ensures
        r@ == replace_extension(p@, ext@),
{
    match find_ext_dot(p) {
        Some(i) => {
            let r = String::from_str(p.substring_char(0, i + 1));
            r.concat(ext)
        },
        None => {
            let r = String::from_str(p);
            let r = r.concat(".");
            proof {
                reveal_strlit(".");
            }
            r.concat(ext)
        },
    }
}

/// `p` without its extension, as [`strip_extension`].
pub fn without_extension(p: &str) -> (r: String)
    ensures
        r@ == strip_extension(p@),
{
    match find_ext_dot(p) {
        Some(i) => String::from_str(p.substring_char(0, i)),
        None => String::from_str(p),
    }
}

/// The directory part of `p`, as [`parent`].
pub fn parent_dir(p: &str) -> (r: String)
    ensures
        r@ == parent(p@),
{
    match find_last_slash(p) {
        Some(i) => {
            proof {
                let w = choose|w: int| is_last_slash(p@, w);
                lemma_last_slash_unique(p@, i as int, w);
            }
            String::from_str(p.substring_char(0, i))
        },
        None => String::new(),
    }
}

/// The extension of `p` starts at `i` when `i` is its last dot or separator,
/// a dot that does not open the last component.
pub proof fn lemma_ext_dot_at(p: Seq<char>, i: int)
    requires
        is_last_mark(p, i),
        i > 0,
        p[i] == '.',
        p[i - 1] != '/',
        !ends_parent_component(p, i),
    ensures
        ext_dot(p) == Some(i),
{
    let w = choose|w: int| is_last_mark(p, w);
    lemma_last_mark_unique(p, i, w);
}

/// Whether `a` and `b` hold the same characters.
pub fn str_equal(a: &str, b: &str) -> (r: bool)
    ensures
        r == (a@ == b@),
{
    let n = a.unicode_len();
    if n != b.unicode_len() {
        return false;
    }
    let mut i: usize = 0;
    while i < n
        invariant
            n == a@.len(),
            n == b@.len(),
            i <= n,
            forall|j: int| 0 <= j < i ==> a@[j] == b@[j],
        decreases n - i,
    {
        if a.get_char(i) != b.get_char(i) {
            return false;
        }
        i = i + 1;
    }
    assert(a@ =~= b@);
    true
}

/// Whether the extension of `p` is `ext`.
pub fn has_extension(p: &str, ext: &str) -> (r: bool)
    ensures
        r == (extension(p@) == Some(ext@)),
{
    match path_extension(p) {
        Some(e) => str_equal(e, ext),
        None => false,
    }
}

/// The decimal digit `d` as a character.
pub open spec fn digit(d: nat) -> char {
    if d == 0 {
        '0'
    } else if d == 1 {
        '1'
    } else if d == 2 {
        '2'
    } else if d == 3 {
        '3'
    } else if d == 4 {
        '4'
    } else if d == 5 {
        '5'
    } else if d == 6 {
        '6'
    } else if d == 7 {
        '7'
    } else if d == 8 {
        '8'
    } else {
        '9'
    }
}

/// `n` written in decimal, without leading zeros.
pub open spec fn decimal(n: nat) -> Seq<char>
    decreases n,
{
    if n < 10 {
        seq![digit(n)]
    } else {
        decimal(n / 10).push(digit(n % 10))
    }
}

/// Distinct numbers have distinct decimal forms.
pub proof fn lemma_decimal_injective(a: nat, b: nat)
    requires
        decimal(a) == decimal(b),
    ensures
        a == b,
    decreases a,
{
    lemma_decimal_len(a);
    lemma_decimal_len(b);
    if a < 10 && b < 10 {
        assert(decimal(a)[0] == digit(a));
        assert(decimal(b)[0] == digit(b));
        assert(a == b);
    } else if a >= 10 && b >= 10 {
        assert(decimal(a).last() == digit(a % 10));
        assert(decimal(b).last() == digit(b % 10));
        assert(decimal(a).drop_last() =~= decimal(a / 10));
        assert(decimal(b).drop_last() =~= decimal(b / 10));
        lemma_decimal_injective(a / 10, b / 10);
        assert(a == 10 * (a / 10) + a % 10);
        assert(b == 10 * (b / 10) + b % 10);
        assert(a % 10 == b % 10);
        assert(a == b);
    } else {
        lemma_decimal_len(a / 10);
        lemma_decimal_len(b / 10);
    }
}

/// A decimal form holds no separator.
pub proof fn lemma_decimal_no_slash(n: nat, k: int)
    requires
        0 <= k < decimal(n).len(),
    ensures
        decimal(n)[k] != '/',
    decreases n,
{
    if n >= 10 && k < decimal(n).len() - 1 {
        assert(decimal(n)[k] == decimal(n / 10)[k]);
        lemma_decimal_no_slash(n / 10, k);
    }
}

proof fn lemma_decimal_len(n: nat)
    ensures
        decimal(n).len() >= 1,
        n < 10 ==> decimal(n).len() == 1,
        n >= 10 ==> decimal(n).len() >= 2,
    decreases n,
{
    if n >= 10 {
        lemma_decimal_len(n / 10);
    }
}

fn digit_str(d: usize) -> (r: &'static str)
    requires
        d < 10,
    ensures
        r@ == seq![digit(d as nat)],
{
    proof {
        reveal_strlit("0");
        reveal_strlit("1");
        reveal_strlit("2");
        reveal_strlit("3");
        reveal_strlit("4");
        reveal_strlit("5");
        reveal_strlit("6");
        reveal_strlit("7");
        reveal_strlit("8");
        reveal_strlit("9");
    }
    let r = match d {
        0 => "0",
        1 => "1",
        2 => "2",
        3 => "3",
        4 => "4",
        5 => "5",
        6 => "6",
        7 => "7",
        8 => "8",
        _ => "9",
    };
    assert(r@ =~= seq![digit(d as nat)]);
    r
}

/// Appends `n` in decimal to `s`.
pub fn push_decimal(s: &mut String, n: usize)
    ensures
        final(s)@ == old(s)@ + decimal(n as nat),
    decreases n,
{
    if n >= 10 {
        push_decimal(s, n / 10);
    }
    s.append(digit_str(n % 10));
    assert(decimal(n as nat) == if n < 10 { seq![digit(n as nat)] } else { decimal((n / 10) as nat).push(digit((n % 10) as nat)) });
    if n < 10 {
        assert(n % 10 == n);
    }
    assert(final(s)@ =~= old(s)@ + decimal(n as nat));
}

} // verus!
