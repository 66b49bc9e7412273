//! Small verified text utilities shared across the crate: ASCII case
//! folding, decimal rendering, and path-name splitting.

use vstd::prelude::*;

verus! {

/// ASCII lower-casing of a single character; anything outside `'A'..='Z'`
/// is left unchanged.
pub open spec fn lower_char(c: char) -> char {
    if c == 'A' {
        'a'
    } else if c == 'B' {
        'b'
    } else if c == 'C' {
        'c'
    } else if c == 'D' {
        'd'
    } else if c == 'E' {
        'e'
    } else if c == 'F' {
        'f'
    } else if c == 'G' {
        'g'
    } else if c == 'H' {
        'h'
    } else if c == 'I' {
        'i'
    } else if c == 'J' {
        'j'
    } else if c == 'K' {
        'k'
    } else if c == 'L' {
        'l'
    } else if c == 'M' {
        'm'
    } else if c == 'N' {
        'n'
    } else if c == 'O' {
        'o'
    } else if c == 'P' {
        'p'
    } else if c == 'Q' {
        'q'
    } else if c == 'R' {
        'r'
    } else if c == 'S' {
        's'
    } else if c == 'T' {
        't'
    } else if c == 'U' {
        'u'
    } else if c == 'V' {
        'v'
    } else if c == 'W' {
        'w'
    } else if c == 'X' {
        'x'
    } else if c == 'Y' {
        'y'
    } else if c == 'Z' {
        'z'
    } else {
        c
    }
}

/// Equality of two character sequences up to ASCII case.
pub open spec fn eq_ignore_ascii_case(a: Seq<char>, b: Seq<char>) -> bool {
    &&& a.len() == b.len()
    &&& forall|i: int| 0 <= i < a.len() ==> lower_char(a[i]) == lower_char(b[i])
}

/// Executable ASCII lower-casing, equal to [`lower_char`].
pub fn lower_char_exec(c: char) -> (r: char)
    ensures
        r == lower_char(c),
{
    match c {
        'A' => 'a',
        'B' => 'b',
        'C' => 'c',
        'D' => 'd',
        'E' => 'e',
        'F' => 'f',
        'G' => 'g',
        'H' => 'h',
        'I' => 'i',
        'J' => 'j',
        'K' => 'k',
        'L' => 'l',
        'M' => 'm',
        'N' => 'n',
        'O' => 'o',
        'P' => 'p',
        'Q' => 'q',
        'R' => 'r',
        'S' => 's',
        'T' => 't',
        'U' => 'u',
        'V' => 'v',
        'W' => 'w',
        'X' => 'x',
        'Y' => 'y',
        'Z' => 'z',
        _ => c,
    }
}

/// Compare two string slices for equality up to ASCII case.
pub fn str_eq_ignore_ascii_case(a: &str, b: &str) -> (r: bool)
    ensures
        r == eq_ignore_ascii_case(a@, b@),
{
    let a_len = a.unicode_len();
    let b_len = b.unicode_len();
    if a_len != b_len {
        return false;
    }
    let mut i: usize = 0;
    while i < a_len
        invariant
            a_len == a@.len(),
            b_len == b@.len(),
            a_len == b_len,
            i <= a_len,
            forall|j: int| 0 <= j < i ==> lower_char(a@[j]) == lower_char(b@[j]),
        decreases a_len - i,
    {
        let ca = lower_char_exec(a.get_char(i));
        let cb = lower_char_exec(b.get_char(i));
        if ca != cb {
            return false;
        }
        i = i + 1;
    }
    true
}

/// The character for one decimal digit.
pub open spec fn dec_digit_char(d: nat) -> char
    recommends
        d < 10,
{
    if d == 0 {
        '0'
    } else if d == 1 {
        '1'
    } else if d == 2 {
        '2'
    } else if d == 3 {
        '3'
    } else if d == 4 {
        '4'
    } else if d == 5 {
        '5'
    } else if d == 6 {
        '6'
    } else if d == 7 {
        '7'
    } else if d == 8 {
        '8'
    } else {
        '9'
    }
}

/// Standard decimal rendering of a natural number, most significant digit
/// first, with no leading zeros (except for zero itself).
pub open spec fn dec_rep(n: nat) -> Seq<char>
    decreases n,
{
    if n < 10 {
        seq![dec_digit_char(n)]
    } else {
        dec_rep(n / 10) + seq![dec_digit_char(n % 10)]
    }
}

fn dec_digit_str(d: u64) -> (s: &'static str)
    requires
        d < 10,
    ensures
        s@ == seq![dec_digit_char(d as nat)],
{
    proof {
        reveal_strlit("0");
        reveal_strlit("1");
        reveal_strlit("2");
        reveal_strlit("3");
        reveal_strlit("4");
        reveal_strlit("5");
        reveal_strlit("6");
        reveal_strlit("7");
        reveal_strlit("8");
        reveal_strlit("9");
    }
    let s = match d {
        0 => "0",
        1 => "1",
        2 => "2",
        3 => "3",
        4 => "4",
        5 => "5",
        6 => "6",
        7 => "7",
        8 => "8",
        _ => "9",
    };
    proof {
        assert(s@ =~= seq![dec_digit_char(d as nat)]);
    }
    s
}

/// Render a number in decimal.
pub fn u64_to_string(n: u64) -> (s: String)
    ensures
        s@ == dec_rep(n as nat),
    decreases n,
{
    if n < 10 {
        String::from_str(dec_digit_str(n))
    } else {
        let mut s = u64_to_string(n / 10);
        s.append(dec_digit_str(n % 10));
        s
    }
}

/// Render a machine-word count in decimal.
pub fn usize_to_string(n: usize) -> (s: String)
    ensures
        s@ == dec_rep(n as nat),
{
    u64_to_string(n as u64)
}

/// Index of the last occurrence of `c` in `s`, or `-1` if `c` does not
/// occur.
pub open spec fn last_index_of(s: Seq<char>, c: char) -> int
    decreases s.len(),
{
    if s.len() == 0 {
        -1
    } else if s.last() == c {
        s.len() - 1
    } else {
        last_index_of(s.drop_last(), c)
    }
}

/// What [`last_index_of`] returns: the largest index holding `c`, or `-1`
/// when there is none.
pub proof fn lemma_last_index_of(s: Seq<char>, c: char)
    ensures
        -1 <= last_index_of(s, c) < s.len(),
        last_index_of(s, c) >= 0 ==> s[last_index_of(s, c)] == c,
        forall|j: int| last_index_of(s, c) < j < s.len() ==> s[j] != c,
    decreases s.len(),
{
    if s.len() > 0 && s.last() != c {
        lemma_last_index_of(s.drop_last(), c);
        assert(forall|j: int|
            0 <= j < s.len() - 1 ==> s[j] == s.drop_last()[j]);
    }
}

/// Find the last occurrence of `c` in `s`.
pub fn rfind_char(s: &str, c: char) -> (r: Option<usize>)
    ensures
        match r {
            Some(i) => i == last_index_of(s@, c) && i < s@.len(),
            None => last_index_of(s@, c) == -1,
        },
{
    proof {
        lemma_last_index_of(s@, c);
    }
    let len = s.unicode_len();
    let mut i: usize = len;
    while i > 0
        invariant
            len == s@.len(),
            i <= len,
            forall|j: int| i <= j < len ==> s@[j] != c,
            -1 <= last_index_of(s@, c) < s@.len(),
            last_index_of(s@, c) >= 0 ==> s@[last_index_of(s@, c)] == c,
            forall|j: int| last_index_of(s@, c) < j < s@.len() ==> s@[j] != c,
        decreases i,
    {
        i = i - 1;
        if s.get_char(i) == c {
            return Some(i);
        }
    }
    None
}

/// The final path component: everything after the last `/`.
pub open spec fn path_file_name(s: Seq<char>) -> Seq<char> {
    s.subrange(last_index_of(s, '/') + 1, s.len() as int)
}

/// Index of the dot separating the file name from its extension, within
/// the file name, or `-1` when the name has no extension. A leading dot
/// does not begin an extension.
pub open spec fn stem_split(fname: Seq<char>) -> int {
    if fname.len() <= 1 {
        -1
    } else if last_index_of(fname.subrange(1, fname.len() as int), '.') >= 0 {
        last_index_of(fname.subrange(1, fname.len() as int), '.') + 1
    } else {
        -1
    }
}

/// The file name of `s` without its extension.
pub open spec fn path_stem(s: Seq<char>) -> Seq<char> {
    let fname = path_file_name(s);
    if stem_split(fname) >= 0 {
        fname.subrange(0, stem_split(fname))
    } else {
        fname
    }
}

/// The extension of `s`: what follows the last dot of its file name, or
/// empty when there is none.
pub open spec fn path_extension(s: Seq<char>) -> Seq<char> {
    let fname = path_file_name(s);
    if stem_split(fname) >= 0 {
        fname.subrange(stem_split(fname) + 1, fname.len() as int)
    } else {
        Seq::empty()
    }
}

/// The final path component of `path`, as a fresh string.
pub fn file_name_of(path: &str) -> (r: String)
    ensures
        r@ == path_file_name(path@),
{
    let len = path.unicode_len();
    let start = match rfind_char(path, '/') {
        Some(i) => i + 1,
        None => 0,
    };
    String::from_str(path.substring_char(start, len))
}

/// Where the extension of the file name `fname` starts, if anywhere:
/// the executable twin of [`stem_split`].
fn stem_split_of(fname: &str) -> (r: Option<usize>)
    ensures
        match r {
            Some(k) => stem_split(fname@) == k as int && 1 <= k < fname@.len(),
            None => stem_split(fname@) == -1,
        },
{
    let len = fname.unicode_len();
    if len <= 1 {
        return None;
    }
    let tail = fname.substring_char(1, len);
    match rfind_char(tail, '.') {
        Some(i) => {
            proof {
                lemma_last_index_of(tail@, '.');
            }
            Some(i + 1)
        },
        None => None,
    }
}

/// The file name's stem, or `output` when the stem is empty.
pub open spec fn stem_or_default(s: Seq<char>) -> Seq<char> {
    if path_stem(s).len() > 0 {
        path_stem(s)
    } else {
        "output"@
    }
}

/// The file name of `path` without its extension, or `output` when that
/// is empty.
pub fn stem_of_or_default(path: &str) -> (r: String)
    ensures
        r@ == stem_or_default(path@),
{
    let stem = stem_of(path);
    if stem.as_str().unicode_len() > 0 {
        stem
    } else {
        String::from_str("output")
    }
}

/// The file name of `path` without its extension.
pub fn stem_of(path: &str) -> (r: String)
    ensures
        r@ == path_stem(path@),
{
    let fname = file_name_of(path);
    match stem_split_of(fname.as_str()) {
        Some(k) => {
            let r = String::from_str(fname.as_str().substring_char(0, k));
            proof {
                assert(r@ =~= path_stem(path@));
            }
            r
        },
        None => fname,
    }
}

/// The extension of `path`'s file name, or empty when there is none.
pub fn extension_of(path: &str) -> (r: String)
    ensures
        r@ == path_extension(path@),
{
    let fname = file_name_of(path);
    let flen = fname.as_str().unicode_len();
    match stem_split_of(fname.as_str()) {
        Some(k) => {
            let r = String::from_str(fname.as_str().substring_char(k + 1, flen));
            proof {
                assert(r@ =~= path_extension(path@));
            }
            r
        },
        None => {
            let r = String::new();
            proof {
                assert(r@ =~= path_extension(path@));
            }
            r
        },
    }
}

/// Strict lexicographic order on character sequences, by code point;
/// this is the order `str` comparison gives.
pub open spec fn str_lt(a: Seq<char>, b: Seq<char>) -> bool
    decreases a.len(),
{
    if b.len() == 0 {
        false
    } else if a.len() == 0 {
        true
    } else if a[0] != b[0] {
        a[0] < b[0]
    } else {
        str_lt(a.subrange(1, a.len() as int), b.subrange(1, b.len() as int))
    }
}

/// No sequence precedes itself.
pub proof fn lemma_str_lt_irreflexive(a: Seq<char>)
    ensures
        !str_lt(a, a),
    decreases a.len(),
{
    if a.len() > 0 {
        lemma_str_lt_irreflexive(a.subrange(1, a.len() as int));
    }
}

/// Two distinct sequences are ordered one way or the other.
pub proof fn lemma_str_lt_trichotomy(a: Seq<char>, b: Seq<char>)
    ensures
        a == b || str_lt(a, b) || str_lt(b, a),
    decreases a.len(),
{
    if a.len() == 0 && b.len() == 0 {
        assert(a =~= b);
    } else if a.len() > 0 && b.len() > 0 && a[0] == b[0] {
        let at = a.subrange(1, a.len() as int);
        let bt = b.subrange(1, b.len() as int);
        lemma_str_lt_trichotomy(at, bt);
        if at == bt {
            assert forall|i: int| 0 <= i < a.len() implies a[i] == b[i] by {
                if i > 0 {
                    assert(at[i - 1] == a[i]);
                    assert(bt[i - 1] == b[i]);
                    assert(at[i - 1] == bt[i - 1]);
                }
            }
            assert(a =~= b);
        }
    }
}

/// The order is transitive.
pub proof fn lemma_str_lt_transitive(a: Seq<char>, b: Seq<char>, c: Seq<char>)
    requires
        str_lt(a, b),
        str_lt(b, c),
    ensures
        str_lt(a, c),
    decreases a.len() + b.len() + c.len(),
{
    if a.len() > 0 && b.len() > 0 && c.len() > 0 && a[0] == b[0] && b[0] == c[0] {
        lemma_str_lt_transitive(
            a.subrange(1, a.len() as int),
            b.subrange(1, b.len() as int),
            c.subrange(1, c.len() as int),
        );
    }
}

/// Compare two string slices in lexicographic order.
pub fn str_lt_exec(a: &str, b: &str) -> (r: bool)
    ensures
        r == str_lt(a@, b@),
{
    let a_len = a.unicode_len();
    let b_len = b.unicode_len();
    proof {
        assert(a@.subrange(0, a_len as int) =~= a@);
        assert(b@.subrange(0, b_len as int) =~= b@);
    }
    let mut i: usize = 0;
    while i < a_len && i < b_len
        invariant
            a_len == a@.len(),
            b_len == b@.len(),
            i <= a_len,
            i <= b_len,
            str_lt(a@, b@) == str_lt(
                a@.subrange(i as int, a_len as int),
                b@.subrange(i as int, b_len as int),
            ),
        decreases a_len - i,
    {
        let ghost ar = a@.subrange(i as int, a_len as int);
        let ghost br = b@.subrange(i as int, b_len as int);
        proof {
            assert(ar[0] == a@[i as int]);
            assert(br[0] == b@[i as int]);
            assert(ar.subrange(1, ar.len() as int) =~= a@.subrange(i as int + 1, a_len as int));
            assert(br.subrange(1, br.len() as int) =~= b@.subrange(i as int + 1, b_len as int));
        }
        let ca = a.get_char(i);
        let cb = b.get_char(i);
        if ca != cb {
            return ca < cb;
        }
        i = i + 1;
    }
    proof {
        if i >= a_len {
            assert(a@.subrange(i as int, a_len as int) =~= Seq::<char>::empty());
        } else {
            assert(b@.subrange(i as int, b_len as int) =~= Seq::<char>::empty());
        }
    }
    i < b_len
}

} // verus!
