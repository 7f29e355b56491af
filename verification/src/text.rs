//! Character-level helpers for page text: blank characters, trimming,
//! lengths counted in characters, and joining fragments into lines.

use vstd::prelude::*;

verus! {

/// The characters that trimming removes: tab, line feed, vertical tab, form
/// feed, carriage return, space, no-break space, the Unicode space
/// separators, the line and paragraph separators, and the byte-order mark.
pub open spec fn is_blank(c: char) -> bool {
    let n = c as u32;
    ||| 0x09 <= n <= 0x0D
    ||| n == 0x20
    ||| n == 0xA0
    ||| n == 0x1680
    ||| 0x2000 <= n <= 0x200A
    ||| n == 0x2028
    ||| n == 0x2029
    ||| n == 0x202F
    ||| n == 0x205F
    ||| n == 0x3000
    ||| n == 0xFEFF
}

/// The index of the first character at or after `from` that is not blank, or
/// the length of `s` when only blanks are left.
pub open spec fn solid_start(s: Seq<char>, from: int) -> int
    decreases s.len() - from,
{
    if from < 0 || from >= s.len() {
        s.len() as int
    } else if !is_blank(s[from]) {
        from
    } else {
        solid_start(s, from + 1)
    }
}

/// One past the index of the last character before `upto` that is not
/// blank, or 0 when only blanks come before `upto`.
pub open spec fn solid_end(s: Seq<char>, upto: int) -> int
    decreases upto,
{
    if upto <= 0 || upto > s.len() {
        0
    } else if !is_blank(s[upto - 1]) {
        upto
    } else {
        solid_end(s, upto - 1)
    }
}

/// `s` without its leading and trailing blanks.
pub open spec fn trim(s: Seq<char>) -> Seq<char> {
    let a = solid_start(s, 0);
    let b = solid_end(s, s.len() as int);
    if a < b {
        s.subrange(a, b)
    } else {
        Seq::empty()
    }
}

/// The parts joined into one text, a line feed between neighbours.
pub open spec fn join_lines(parts: Seq<Seq<char>>) -> Seq<char>
    decreases parts.len(),
{
    if parts.len() == 0 {
        Seq::empty()
    } else if parts.len() == 1 {
        parts[0]
    } else {
        join_lines(parts.drop_last()) + seq!['\n'] + parts.last()
    }
}

/// The views of a vector of strings, in order.
pub open spec fn texts(v: Seq<String>) -> Seq<Seq<char>> {
    Seq::new(v.len(), |i: int| v[i]@)
}

/// Where the first solid character lies: inside the text or at its end,
/// with nothing but blanks between `from` and it.
pub proof fn lemma_solid_start(s: Seq<char>, from: int)
    requires
        0 <= from <= s.len(),
    ensures
        from <= solid_start(s, from) <= s.len(),
        solid_start(s, from) < s.len() ==> !is_blank(s[solid_start(s, from)]),
        forall|k: int| from <= k < solid_start(s, from) ==> is_blank(#[trigger] s[k]),
    decreases s.len() - from,
{
    if from < s.len() && is_blank(s[from]) {
        lemma_solid_start(s, from + 1);
    }
}

/// Where the solid part ends: nothing but blanks between it and `upto`.
pub proof fn lemma_solid_end(s: Seq<char>, upto: int)
    requires
        0 <= upto <= s.len(),
    ensures
        0 <= solid_end(s, upto) <= upto,
        solid_end(s, upto) > 0 ==> !is_blank(s[solid_end(s, upto) - 1]),
        forall|k: int| solid_end(s, upto) <= k < upto ==> is_blank(#[trigger] s[k]),
    decreases upto,
{
    if upto > 0 && is_blank(s[upto - 1]) {
        lemma_solid_end(s, upto - 1);
    }
}

/// Trimming cuts a text into blanks, the trimmed text, and blanks again;
/// the trimmed text, unless it is empty, begins and ends with a character
/// that is not blank.
pub proof fn law_trim_is_tight(s: Seq<char>)
    ensures
        trim(s).len() <= s.len(),
        trim(s).len() > 0 ==> !is_blank(trim(s).first()) && !is_blank(trim(s).last()),
        exists|a: int, b: int|
            {
                &&& 0 <= a <= b <= s.len()
                &&& #[trigger] s.subrange(a, b) == trim(s)
                &&& forall|k: int| 0 <= k < a ==> is_blank(#[trigger] s[k])
                &&& forall|k: int| b <= k < s.len() ==> is_blank(#[trigger] s[k])
            },
{
    let a = solid_start(s, 0);
    let b = solid_end(s, s.len() as int);
    lemma_solid_start(s, 0);
    lemma_solid_end(s, s.len() as int);
    if a < b {
        assert(s.subrange(a, b) == trim(s));
    } else {
        // Every character is blank, so the empty text at the end is the cut.
        let n = s.len() as int;
        assert(s.subrange(n, n) == trim(s));
        assert forall|k: int| 0 <= k < n implies is_blank(#[trigger] s[k]) by {
            if k >= a {
                assert(b <= k);
            }
        }
    }
}

/// Tells whether `c` is one of the characters that trimming removes.
pub fn blank(c: char) -> (b: bool)
    ensures
        b == is_blank(c),
{
    let n: u32 = c as u32;
    (0x09 <= n && n <= 0x0D) || n == 0x20 || n == 0xA0 || n == 0x1680 || (0x2000 <= n && n
        <= 0x200A) || n == 0x2028 || n == 0x2029 || n == 0x202F || n == 0x205F || n == 0x3000
        || n == 0xFEFF
}

/// The characters of `s`, in order.
pub fn chars_of(s: &str) -> (v: Vec<char>)
    ensures
        v@ == s@,
{
    let mut v: Vec<char> = Vec::new();
    for c in it: s.chars()
        invariant
            v@ == it.seq().take(it.index() as int),
    {
        v.push(c);
    }
    v
}

/// The bounds of the trimmed part of `chars`: its first index and one past
/// its last. Both are the length when every character is blank.
pub fn trim_bounds(chars: &Vec<char>) -> (r: (usize, usize))
    ensures
        r.0 <= r.1 <= chars.len(),
        chars@.subrange(r.0 as int, r.1 as int) == trim(chars@),
        r.1 - r.0 == trim(chars@).len(),
{
    let n = chars.len();
    let mut a: usize = 0;
    while a < n && blank(chars[a])
        invariant
            a <= n,
            n == chars.len(),
            solid_start(chars@, 0) == solid_start(chars@, a as int),
        decreases n - a,
    {
        a += 1;
    }
    let mut b: usize = n;
    while b > a && blank(chars[b - 1])
        invariant
            a <= b <= n,
            n == chars.len(),
            solid_end(chars@, n as int) == solid_end(chars@, b as int),
        decreases b,
    {
        b -= 1;
    }
    proof {
        lemma_solid_start(chars@, 0);
        lemma_solid_end(chars@, n as int);
        if b == a {
            // Nothing solid lies at or after `a`, nor before it.
            lemma_solid_end(chars@, a as int);
            if a < n {
                assert(solid_end(chars@, a as int) <= a);
            }
            assert(chars@.subrange(a as int, a as int) == Seq::<char>::empty());
        }
    }
    (a, b)
}

/// The number of characters of `s` once trimmed.
pub fn trimmed_len(s: &str) -> (n: usize)
    ensures
        n == trim(s@).len(),
{
    let chars = chars_of(s);
    let (a, b) = trim_bounds(&chars);
    b - a
}

/// `s` without its leading and trailing blanks.
pub fn trimmed(s: &str) -> (t: String)
    ensures
        t@ == trim(s@),
{
    let chars = chars_of(s);
    let (a, b) = trim_bounds(&chars);
    String::from_str(s.substring_char(a, b))
}

/// Tells whether two texts hold the same characters.
pub fn same_text(a: &str, b: &str) -> (r: bool)
    ensures
        r == (a@ == b@),
{
    let x = chars_of(a);
    let y = chars_of(b);
    if x.len() != y.len() {
        return false;
    }
    let mut i: usize = 0;
    while i < x.len()
        invariant
            i <= x.len(),
            x.len() == y.len(),
            x@ == a@,
            y@ == b@,
            forall|k: int| 0 <= k < i ==> x@[k] == y@[k],
        decreases x.len() - i,
    {
        if x[i] != y[i] {
            return false;
        }
        i += 1;
    }
    assert(x@ =~= y@);
    true
}

} // verus!
