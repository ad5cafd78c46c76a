use vstd::prelude::*;

verus! {

broadcast use vstd::string::group_string_axioms;

/// `c` has the Unicode `White_Space` property, as `char::is_whitespace` tests.
pub open spec fn is_unicode_whitespace(c: char) -> bool {
    let u = c as u32;
    ||| 0x09 <= u <= 0x0D
    ||| u == 0x20 || u == 0x85 || u == 0xA0 || u == 0x1680
    ||| 0x2000 <= u <= 0x200A
    ||| u == 0x2028 || u == 0x2029 || u == 0x202F || u == 0x205F || u == 0x3000
}

/// `c` is an ASCII capital letter.
pub open spec fn is_ascii_upper(c: char) -> bool {
    'A' <= c <= 'Z'
}

/// `c` with an ASCII capital letter turned into its small letter.
pub open spec fn ascii_lower(c: char) -> u32 {
    if is_ascii_upper(c) { (c as u32 + 32) as u32 } else { c as u32 }
}

/// The two texts are equal when ASCII letters are compared without case.
pub open spec fn eq_ignore_ascii_case(a: Seq<char>, b: Seq<char>) -> bool {
    &&& a.len() == b.len()
    &&& forall|i: int| 0 <= i < a.len() ==> ascii_lower(#[trigger] a[i]) == ascii_lower(b[i])
}

/// The number of leading characters of `s` that are whitespace.
pub open spec fn leading_ws(s: Seq<char>) -> int
    decreases s.len(),
{
    if s.len() > 0 && is_unicode_whitespace(s[0]) {
        1 + leading_ws(s.drop_first())
    } else {
        0
    }
}

/// The number of trailing characters of `s` that are whitespace.
pub open spec fn trailing_ws(s: Seq<char>) -> int
    decreases s.len(),
{
    if s.len() > 0 && is_unicode_whitespace(s.last()) {
        1 + trailing_ws(s.drop_last())
    } else {
        0
    }
}

/// `s` without leading and trailing whitespace, as `str::trim` gives it.
pub open spec fn spec_trim(s: Seq<char>) -> Seq<char> {
    let lead = leading_ws(s);
    if lead == s.len() {
        Seq::empty()
    } else {
        s.subrange(lead, s.len() - trailing_ws(s))
    }
}

/// `s` with every `_` replaced by `-`.
pub open spec fn underscores_to_dashes(s: Seq<char>) -> Seq<char> {
    Seq::new(s.len(), |i: int| if s[i] == '_' { '-' } else { s[i] })
}

/// `s` with ASCII capital letters turned into small letters.
pub open spec fn spec_ascii_lowercase(s: Seq<char>) -> Seq<u32> {
    Seq::new(s.len(), |i: int| ascii_lower(s[i]))
}

proof fn lemma_leading_ws_bounds(s: Seq<char>)
    ensures
        0 <= leading_ws(s) <= s.len(),
        forall|i: int| 0 <= i < leading_ws(s) ==> is_unicode_whitespace(#[trigger] s[i]),
        leading_ws(s) < s.len() ==> !is_unicode_whitespace(s[leading_ws(s)]),
    decreases s.len(),
{
    if s.len() > 0 && is_unicode_whitespace(s[0]) {
        lemma_leading_ws_bounds(s.drop_first());
        assert forall|i: int| 0 <= i < leading_ws(s) implies is_unicode_whitespace(#[trigger] s[i]) by {
            if i > 0 {
                assert(s[i] == s.drop_first()[i - 1]);
            }
        }
    }
}

proof fn lemma_trailing_ws_bounds(s: Seq<char>)
    ensures
        0 <= trailing_ws(s) <= s.len(),
        forall|i: int| s.len() - trailing_ws(s) <= i < s.len() ==> is_unicode_whitespace(#[trigger] s[i]),
        trailing_ws(s) < s.len() ==> !is_unicode_whitespace(s[s.len() - 1 - trailing_ws(s)]),
    decreases s.len(),
{
    if s.len() > 0 && is_unicode_whitespace(s.last()) {
        lemma_trailing_ws_bounds(s.drop_last());
        assert forall|i: int| s.len() - trailing_ws(s) <= i < s.len() implies is_unicode_whitespace(
            #[trigger] s[i],
        ) by {
            if i < s.len() - 1 {
                assert(s[i] == s.drop_last()[i]);
            }
        }
    }
}

/// A trimmed text that is not empty starts and ends with a character that is
/// not whitespace.
pub proof fn lemma_trim_ends(s: Seq<char>)
    ensures
        spec_trim(s).len() > 0 ==> !is_unicode_whitespace(spec_trim(s)[0]) && !is_unicode_whitespace(
            spec_trim(s).last(),
        ),
{
    lemma_leading_ws_bounds(s);
    lemma_trailing_ws_bounds(s);
    let lead = leading_ws(s);
    let trail = trailing_ws(s);
    if lead < s.len() {
        if lead >= s.len() - trail {
            assert(is_unicode_whitespace(s[lead]));
        }
        let t = spec_trim(s);
        assert(t[0] == s[lead]);
        assert(t.last() == s[s.len() - 1 - trail]);
    }
}

/// A text that is not empty and has no whitespace at either end is its own
/// trim.
pub proof fn lemma_trim_of_trimmed(s: Seq<char>)
    requires
        s.len() > 0,
        !is_unicode_whitespace(s[0]),
        !is_unicode_whitespace(s.last()),
    ensures
        spec_trim(s) == s,
{
    assert(leading_ws(s) == 0);
    assert(trailing_ws(s) == 0);
    assert(spec_trim(s) =~= s);
}

fn is_whitespace(c: char) -> (b: bool)
    ensures
        b == is_unicode_whitespace(c),
{
    let u = c as u32;
    (0x09 <= u && u <= 0x0D) || u == 0x20 || u == 0x85 || u == 0xA0 || u == 0x1680 || (0x2000 <= u && u
        <= 0x200A) || u == 0x2028 || u == 0x2029 || u == 0x202F || u == 0x205F || u == 0x3000
}

/// The characters of `s`, in order.
pub fn chars_of(s: &str) -> (v: Vec<char>)
    ensures
        v@ == s@,
{
    let mut v: Vec<char> = Vec::new();
    for c in it: s.chars()
        invariant
            v@ == it.seq().take(it.index() as int),
    {
        v.push(c);
    }
    proof {
        assert(v@ =~= s@);
    }
    v
}

/// A `String` of the given characters (std's `FromIterator<&char>` for
/// `String`), which holds them in order.
#[verifier::external_body]
pub fn string_from_chars(chars: &Vec<char>) -> (s: String)
    ensures
        s@ == chars@,
{
    chars.iter().collect()
}

/// The characters of `s` without leading and trailing whitespace.
pub fn trim_chars(s: &Vec<char>) -> (t: Vec<char>)
    ensures
        t@ == spec_trim(s@),
{
    proof {
        lemma_leading_ws_bounds(s@);
        lemma_trailing_ws_bounds(s@);
    }
    let n = s.len();
    let mut start: usize = 0;
    while start < n && is_whitespace(s[start])
        invariant
            start <= n,
            n == s@.len(),
            forall|i: int| 0 <= i < start ==> is_unicode_whitespace(#[trigger] s@[i]),
            start <= leading_ws(s@),
            0 <= leading_ws(s@) <= s@.len(),
            forall|i: int| 0 <= i < leading_ws(s@) ==> is_unicode_whitespace(#[trigger] s@[i]),
            leading_ws(s@) < s@.len() ==> !is_unicode_whitespace(s@[leading_ws(s@)]),
        decreases n - start,
    {
        start = start + 1;
    }
    if start == n {
        return Vec::new();
    }
    let mut end: usize = n;
    while end > start && is_whitespace(s[end - 1])
        invariant
            start < end <= n || end == start,
            start < n,
            n == s@.len(),
            start == leading_ws(s@),
            end >= n - trailing_ws(s@),
            0 <= trailing_ws(s@) <= s@.len(),
            forall|i: int| s@.len() - trailing_ws(s@) <= i < s@.len() ==> is_unicode_whitespace(#[trigger] s@[i]),
            trailing_ws(s@) < s@.len() ==> !is_unicode_whitespace(s@[s@.len() - 1 - trailing_ws(s@)]),
            !is_unicode_whitespace(s@[start as int]),
        decreases end,
    {
        end = end - 1;
    }
    let mut t: Vec<char> = Vec::new();
    let mut i: usize = start;
    while i < end
        invariant
            start <= i <= end <= n,
            n == s@.len(),
            t@ == s@.subrange(start as int, i as int),
        decreases end - i,
    {
        t.push(s[i]);
        i = i + 1;
    }
    t
}

/// Whether the characters are exactly those of `s`.
pub fn chars_eq_str(v: &Vec<char>, s: &str) -> (b: bool)
    ensures
        b == (v@ == s@),
{
    let w = chars_of(s);
    if v.len() != w.len() {
        return false;
    }
    let mut i: usize = 0;
    while i < v.len()
        invariant
            i <= v@.len(),
            v@.len() == w@.len(),
            w@ == s@,
            forall|j: int| 0 <= j < i ==> v@[j] == w@[j],
        decreases v.len() - i,
    {
        if v[i] != w[i] {
            return false;
        }
        i = i + 1;
    }
    proof {
        assert(v@ =~= w@);
    }
    true
}

fn ascii_lower_of(c: char) -> (u: u32)
    ensures
        u == ascii_lower(c),
{
    if c >= 'A' && c <= 'Z' {
        c as u32 + 32
    } else {
        c as u32
    }
}

/// Whether the two texts are equal when ASCII letters are compared without
/// case (as `str::eq_ignore_ascii_case` tests).
pub fn str_eq_ignore_ascii_case(a: &str, b: &str) -> (r: bool)
    ensures
        r == eq_ignore_ascii_case(a@, b@),
{
    let x = chars_of(a);
    let y = chars_of(b);
    if x.len() != y.len() {
        return false;
    }
    let mut i: usize = 0;
    while i < x.len()
        invariant
            i <= x@.len(),
            x@.len() == y@.len(),
            x@ == a@,
            y@ == b@,
            forall|j: int| 0 <= j < i ==> ascii_lower(#[trigger] x@[j]) == ascii_lower(y@[j]),
        decreases x.len() - i,
    {
        if ascii_lower_of(x[i]) != ascii_lower_of(y[i]) {
            return false;
        }
        i = i + 1;
    }
    true
}

/// The characters with every `_` replaced by `-`.
pub fn replace_underscores(s: &Vec<char>) -> (r: Vec<char>)
    ensures
        r@ == underscores_to_dashes(s@),
{
    let mut r: Vec<char> = Vec::new();
    let mut i: usize = 0;
    while i < s.len()
        invariant
            i <= s@.len(),
            r@ == underscores_to_dashes(s@).take(i as int),
        decreases s.len() - i,
    {
        let c = s[i];
        if c == '_' {
            r.push('-');
        } else {
            r.push(c);
        }
        proof {
            assert(underscores_to_dashes(s@).take(i + 1) =~= underscores_to_dashes(s@).take(i as int).push(
                r@.last(),
            ));
        }
        i = i + 1;
    }
    proof {
        assert(underscores_to_dashes(s@).take(s@.len() as int) =~= underscores_to_dashes(s@));
    }
    r
}

/// Whether `s`, with ASCII capital letters taken as small ones, starts with
/// `prefix`.
pub fn lowercase_starts_with(s: &Vec<char>, prefix: &str) -> (b: bool)
    ensures
        b == (prefix@.len() <= s@.len() && forall|i: int|
            0 <= i < prefix@.len() ==> ascii_lower(#[trigger] s@[i]) == prefix@[i] as u32),
{
    let p = chars_of(prefix);
    if p.len() > s.len() {
        return false;
    }
    let mut i: usize = 0;
    while i < p.len()
        invariant
            i <= p@.len() <= s@.len(),
            p@ == prefix@,
            forall|j: int| 0 <= j < i ==> ascii_lower(#[trigger] s@[j]) == p@[j] as u32,
        decreases p.len() - i,
    {
        if ascii_lower_of(s[i]) != p[i] as u32 {
            return false;
        }
        i = i + 1;
    }
    true
}

/// `pattern` occurs in `s`.
pub open spec fn contains_seq(s: Seq<char>, pattern: Seq<char>) -> bool {
    exists|i: int| 0 <= i && i + pattern.len() <= s.len() && #[trigger] s.subrange(i, i + pattern.len()) == pattern
}

/// Whether `pattern` occurs in `s` (as `str::contains` with a `&str`).
pub fn str_contains(s: &str, pattern: &str) -> (b: bool)
    ensures
        b == contains_seq(s@, pattern@),
{
    let t = chars_of(s);
    let p = chars_of(pattern);
    if p.len() > t.len() {
        proof {
            assert forall|i: int| 0 <= i && i + p@.len() <= t@.len() implies #[trigger] t@.subrange(i, i + p@.len())
                != p@ by {}
        }
        return false;
    }
    if p.len() == 0 {
        proof {
            assert(s@.subrange(0int, 0int + pattern@.len()) =~= pattern@);
        }
        return true;
    }
    let last = t.len() - p.len();
    let mut i: usize = 0;
    while i <= last
        invariant
            t@ == s@,
            p@ == pattern@,
            last == t@.len() - p@.len(),
            i <= last + 1,
            p@.len() >= 1,
            p@.len() <= t@.len(),
            t@.len() == t.len(),
            forall|k: int| 0 <= k < i ==> #[trigger] t@.subrange(k, k + p@.len()) != p@,
        decreases last + 1 - i,
    {
        let mut j: usize = 0;
        let mut same = true;
        while j < p.len()
            invariant
                i <= last,
                last == t@.len() - p@.len(),
                j <= p@.len(),
                p@.len() <= t@.len(),
                t@.len() == t.len(),
                same == (forall|m: int| 0 <= m < j ==> t@[i + m] == p@[m]),
            decreases p.len() - j,
        {
            if t[i + j] != p[j] {
                same = false;
            }
            j = j + 1;
        }
        if same {
            proof {
                assert(t@.subrange(i as int, i + p@.len()) =~= p@);
            }
            return true;
        }
        proof {
            let k = choose|m: int| 0 <= m < p@.len() && t@[i + m] != p@[m];
            assert(t@.subrange(i as int, i + p@.len())[k] != p@[k]);
        }
        i = i + 1;
    }
    false
}

} // verus!
