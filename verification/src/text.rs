//! Text as sequences of characters: trimming, splitting into lines, reading
//! numbers, and the moves between strings and characters.

use vstd::prelude::*;

verus! {

/// Whether `c` has the Unicode `White_Space` property: the controls from
/// U+0009 to U+000D, the space, U+0085, the no-break space, U+1680, the
/// spaces from U+2000 to U+200A, the line and the paragraph separator,
/// U+202F, U+205F and U+3000.
pub open spec fn whitespace(c: char) -> bool {
    let n = c as u32;
    ||| 0x0009 <= n <= 0x000D
    ||| n == 0x0020
    ||| n == 0x0085
    ||| n == 0x00A0
    ||| n == 0x1680
    ||| 0x2000 <= n <= 0x200A
    ||| n == 0x2028
    ||| n == 0x2029
    ||| n == 0x202F
    ||| n == 0x205F
    ||| n == 0x3000
}

/// Whether `c` belongs to one of the Unicode numeric categories.
pub uninterp spec fn numeric(c: char) -> bool;

/// `char::is_whitespace` tells whether its argument has the `White_Space`
/// property of the Unicode Character Database.
pub assume_specification[ char::is_whitespace ](c: char) -> (b: bool)
    ensures
        b == whitespace(c),
;

/// `char::is_numeric` decides whether its argument is in a numeric category.
pub assume_specification[ char::is_numeric ](c: char) -> (b: bool)
    ensures
        b == numeric(c),
;

/// `String::push` appends one character to the end of the string.
pub assume_specification[ String::push ](s: &mut String, c: char)
    ensures
        final(s)@ == old(s)@.push(c),
;

/// The characters of an optional string.
pub open spec fn text(o: Option<String>) -> Option<Seq<char>> {
    match o {
        Some(s) => Some(s@),
        None => None,
    }
}

/// A copy of an optional string.
pub fn clone_text(o: &Option<String>) -> (r: Option<String>)
    ensures
        text(r) == text(*o),
{
    match o {
        Some(s) => Some(s.clone()),
        None => None,
    }
}

/// The characters of an optional string slice.
pub open spec fn chars(o: Option<&str>) -> Option<Seq<char>> {
    match o {
        Some(s) => Some(s@),
        None => None,
    }
}

/// `s` without its leading whitespace.
pub open spec fn trim_start(s: Seq<char>) -> Seq<char>
    decreases s.len(),
{
    if s.len() > 0 && whitespace(s.first()) {
        trim_start(s.drop_first())
    } else {
        s
    }
}

/// `s` without its trailing whitespace.
pub open spec fn trim_end(s: Seq<char>) -> Seq<char>
    decreases s.len(),
{
    if s.len() > 0 && whitespace(s.last()) {
        trim_end(s.drop_last())
    } else {
        s
    }
}

/// `s` without leading and trailing whitespace.
pub open spec fn trimmed(s: Seq<char>) -> Seq<char> {
    trim_end(trim_start(s))
}

/// The number of characters of `s` that stand before the first `stop`, or
/// the length of `s` where it holds none.
pub open spec fn index_of(s: Seq<char>, stop: char) -> nat
    decreases s.len(),
{
    if s.len() == 0 || s.first() == stop {
        0
    } else {
        1 + index_of(s.drop_first(), stop)
    }
}

/// The number of characters of `s` that stand before its first line feed.
pub open spec fn line_len(s: Seq<char>) -> nat {
    index_of(s, '\n')
}

/// `s` without one trailing carriage return.
pub open spec fn strip_cr(s: Seq<char>) -> Seq<char> {
    if s.len() > 0 && s.last() == '\r' {
        s.drop_last()
    } else {
        s
    }
}

/// The lines of `s`. A line ends at a line feed, or at a carriage return
/// directly followed by a line feed; the terminator is not part of the line,
/// and the last line needs none.
pub open spec fn lines(s: Seq<char>) -> Seq<Seq<char>>
    decreases s.len(),
{
    if s.len() == 0 {
        Seq::empty()
    } else {
        let n = line_len(s);
        if n >= s.len() {
            seq![s]
        } else {
            seq![strip_cr(s.take(n as int))] + lines(s.skip(n as int + 1))
        }
    }
}

/// The characters of `s` that are numeric, in order.
pub open spec fn numerics(s: Seq<char>) -> Seq<char> {
    s.filter(|c: char| numeric(c))
}

/// Whether `c` is one of the digits `0` to `9`.
pub open spec fn is_digit(c: char) -> bool {
    48 <= c as u32 <= 57
}

/// The number that the decimal digits `s` spell.
pub open spec fn digits_value(s: Seq<char>) -> nat
    decreases s.len(),
{
    if s.len() == 0 {
        0
    } else {
        10 * digits_value(s.drop_last()) + (s.last() as u32 - 48) as nat
    }
}

/// Whether `s` holds digits only.
pub open spec fn all_digits(s: Seq<char>) -> bool {
    forall|i: int| 0 <= i < s.len() ==> is_digit(#[trigger] s[i])
}

/// The number that `s` spells: an optional plus sign, then one decimal digit
/// or more, and nothing else.
pub open spec fn unsigned(s: Seq<char>) -> Option<nat> {
    let d = if s.len() > 0 && s[0] == '+' {
        s.drop_first()
    } else {
        s
    };
    if d.len() > 0 && all_digits(d) {
        Some(digits_value(d))
    } else {
        None
    }
}

/// The number that `s` spells, where it fits the machine's word.
pub open spec fn unsigned_word(s: Seq<char>) -> Option<usize> {
    match unsigned(s) {
        Some(n) => if n <= usize::MAX {
            Some(n as usize)
        } else {
            None
        },
        None => None,
    }
}

/// More digits spell no smaller a number.
pub proof fn lemma_digits_value_grows(s: Seq<char>, k: int)
    requires
        0 <= k <= s.len(),
    ensures
        digits_value(s.take(k)) <= digits_value(s),
    decreases s.len() - k,
{
    if k == s.len() {
        assert(s.take(k) =~= s);
    } else {
        lemma_digits_value_grows(s.drop_last(), k);
        assert(s.drop_last().take(k) =~= s.take(k));
    }
}

/// A stretch without `stop` that ends before a `stop`, or at the end, is
/// what `index_of` counts.
pub proof fn lemma_index_of_is(s: Seq<char>, stop: char, n: int)
    requires
        0 <= n <= s.len(),
        forall|i: int| 0 <= i < n ==> s[i] != stop,
        n < s.len() ==> s[n] == stop,
    ensures
        index_of(s, stop) == n,
    decreases n,
{
    if n == 0 {
    } else {
        let t = s.drop_first();
        assert forall|i: int| 0 <= i < n - 1 implies t[i] != stop by {
            assert(t[i] == s[i + 1]);
        }
        lemma_index_of_is(t, stop, n - 1);
    }
}

/// Where whitespace stands before `a` and none at `a`, the leading
/// whitespace ends at `a`.
pub proof fn lemma_trim_start_is(s: Seq<char>, a: int)
    requires
        0 <= a <= s.len(),
        forall|i: int| 0 <= i < a ==> whitespace(s[i]),
        a < s.len() ==> !whitespace(s[a]),
    ensures
        trim_start(s) == s.skip(a),
    decreases a,
{
    if a == 0 {
        assert(s.skip(0) =~= s);
    } else {
        let t = s.drop_first();
        assert forall|i: int| 0 <= i < a - 1 implies whitespace(t[i]) by {
            assert(t[i] == s[i + 1]);
        }
        lemma_trim_start_is(t, a - 1);
        assert(t.skip(a - 1) =~= s.skip(a));
    }
}

/// Where whitespace stands from `b` on and none before `b`, the trailing
/// whitespace starts at `b`.
pub proof fn lemma_trim_end_is(s: Seq<char>, b: int)
    requires
        0 <= b <= s.len(),
        forall|i: int| b <= i < s.len() ==> whitespace(s[i]),
        b > 0 ==> !whitespace(s[b - 1]),
    ensures
        trim_end(s) == s.take(b),
    decreases s.len() - b,
{
    if b == s.len() {
        assert(s.take(b) =~= s);
    } else {
        let t = s.drop_last();
        lemma_trim_end_is(t, b);
        assert(t.take(b) =~= s.take(b));
    }
}

/// The characters of `s`, in order.
pub fn to_chars(s: &str) -> (v: Vec<char>)
    ensures
        v@ == s@,
{
    let mut v: Vec<char> = Vec::new();
    for c in it: s.chars()
        invariant
            it.seq() == s@,
            v@ == it.seq().take(it.index()),
    {
        v.push(c);
    }
    v
}

/// The string made of `v[from..to]`.
pub fn from_chars(v: &Vec<char>, from: usize, to: usize) -> (s: String)
    requires
        from <= to <= v.len(),
    ensures
        s@ == v@.subrange(from as int, to as int),
{
    let mut s = String::new();
    let mut i: usize = from;
    while i < to
        invariant
            from <= i <= to <= v.len(),
            s@ == v@.subrange(from as int, i as int),
        decreases to - i,
    {
        s.push(v[i]);
        i += 1;
    }
    s
}

/// An optional string as a string slice.
pub fn as_slice(o: &Option<String>) -> (r: Option<&str>)
    ensures
        chars(r) == text(*o),
{
    match o {
        Some(s) => Some(s.as_str()),
        None => None,
    }
}

/// `a` followed by `b`.
pub fn joined(a: &str, b: &str) -> (r: String)
    ensures
        r@ == a@ + b@,
{
    let mut r = String::from_str(a);
    r.append(b);
    r
}

/// Whether `v[from..to]` spells `word`.
pub fn spells(v: &Vec<char>, from: usize, to: usize, word: &str) -> (r: bool)
    requires
        from <= to <= v.len(),
    ensures
        r == (v@.subrange(from as int, to as int) == word@),
{
    let w = to_chars(word);
    if w.len() != to - from {
        return false;
    }
    let mut i: usize = 0;
    while i < w.len()
        invariant
            from <= to <= v.len(),
            w.len() == to - from,
            i <= w.len(),
            w@ == word@,
            forall|j: int| 0 <= j < i ==> v@[from + j] == w@[j],
        decreases w.len() - i,
    {
        if v[from + i] != w[i] {
            assert(v@.subrange(from as int, to as int)[i as int] != word@[i as int]);
            return false;
        }
        i += 1;
    }
    assert(v@.subrange(from as int, to as int) =~= word@);
    true
}

/// The bounds of `v[from..to]` without its leading and trailing whitespace.
pub fn trim_bounds(v: &Vec<char>, from: usize, to: usize) -> (r: (usize, usize))
    requires
        from <= to <= v.len(),
    ensures
        from <= r.0 <= r.1 <= to,
        v@.subrange(r.0 as int, r.1 as int) == trimmed(v@.subrange(from as int, to as int)),
{
    let ghost s = v@.subrange(from as int, to as int);
    let mut a: usize = from;
    while a < to && v[a].is_whitespace()
        invariant
            from <= a <= to <= v.len(),
            s == v@.subrange(from as int, to as int),
            forall|i: int| 0 <= i < a - from ==> whitespace(s[i]),
        decreases to - a,
    {
        a += 1;
    }
    let mut b: usize = to;
    while b > a && v[b - 1].is_whitespace()
        invariant
            from <= a <= b <= to <= v.len(),
            s == v@.subrange(from as int, to as int),
            forall|i: int| b - from <= i < to - from ==> whitespace(s[i]),
        decreases b - a,
    {
        b -= 1;
    }
    proof {
        lemma_trim_start_is(s, a - from);
        let t = s.skip(a - from);
        assert forall|i: int| b - a <= i < t.len() implies whitespace(t[i]) by {
            assert(t[i] == s[i + (a - from)]);
        }
        if b > a {
            assert(t[b - a - 1] == v@[b - 1]);
        }
        lemma_trim_end_is(t, b - a);
        assert(t.take(b - a) =~= v@.subrange(a as int, b as int));
    }
    (a, b)
}

/// The bounds of the lines of `v[from..to]`, terminators left out.
pub fn line_bounds(v: &Vec<char>, from: usize, to: usize) -> (r: Vec<(usize, usize)>)
    requires
        from <= to <= v.len(),
    ensures
        r.len() == lines(v@.subrange(from as int, to as int)).len(),
        forall|k: int|
            0 <= k < r.len() ==> from <= (#[trigger] r[k]).0 <= r[k].1 <= to && v@.subrange(
                r[k].0 as int,
                r[k].1 as int,
            ) == lines(v@.subrange(from as int, to as int))[k],
{
    let ghost whole = lines(v@.subrange(from as int, to as int));
    let mut r: Vec<(usize, usize)> = Vec::new();
    let mut pos: usize = from;
    while pos < to
        invariant
            from <= pos <= to <= v.len(),
            whole == lines(v@.subrange(from as int, to as int)),
            whole.len() == r.len() + lines(v@.subrange(pos as int, to as int)).len(),
            forall|k: int|
                0 <= k < r.len() ==> from <= (#[trigger] r[k]).0 <= r[k].1 <= to && v@.subrange(
                    r[k].0 as int,
                    r[k].1 as int,
                ) == whole[k],
            forall|k: int|
                0 <= k < lines(v@.subrange(pos as int, to as int)).len() ==> whole[r.len() + k]
                    == lines(v@.subrange(pos as int, to as int))[k],
        decreases to - pos,
    {
        let ghost rest = v@.subrange(pos as int, to as int);
        let mut j: usize = pos;
        while j < to && v[j] != '\n'
            invariant
                pos <= j <= to <= v.len(),
                rest == v@.subrange(pos as int, to as int),
                forall|i: int| 0 <= i < j - pos ==> rest[i] != '\n',
            decreases to - j,
        {
            j += 1;
        }
        proof {
            lemma_index_of_is(rest, '\n', j - pos);
        }
        let ghost before = r@;
        if j == to {
            r.push((pos, to));
            proof {
                assert(lines(rest) =~= seq![rest]);
                assert(v@.subrange(to as int, to as int) =~= Seq::<char>::empty());
                assert(whole[before.len() as int] == lines(rest)[0]);
            }
            pos = to;
        } else {
            let end: usize = if j > pos && v[j - 1] == '\r' {
                (j - 1) as usize
            } else {
                j
            };
            r.push((pos, end));
            proof {
                let n = j - pos;
                let tail = v@.subrange(j + 1, to as int);
                assert(rest.skip(n + 1) =~= tail);
                assert(rest.take(n) =~= v@.subrange(pos as int, j as int));
                assert(strip_cr(rest.take(n)) =~= v@.subrange(pos as int, end as int));
                assert(lines(rest) == seq![strip_cr(rest.take(n))] + lines(tail));
                assert(whole[before.len() as int] == lines(rest)[0]);
                assert forall|k: int| 0 <= k < lines(tail).len() implies whole[r.len() + k]
                    == lines(tail)[k] by {
                    assert(lines(rest)[k + 1] == lines(tail)[k]);
                    assert(whole[before.len() as int + (k + 1)] == lines(rest)[k + 1]);
                }
            }
            pos = j + 1;
        }
    }
    proof {
        assert(v@.subrange(to as int, to as int) =~= Seq::<char>::empty());
    }
    r
}

/// The numeric characters of `s`, in order.
pub fn keep_numeric(s: &str) -> (r: String)
    ensures
        r@ == numerics(s@),
{
    let v = to_chars(s);
    let mut r = String::new();
    let mut i: usize = 0;
    proof {
        reveal(Seq::filter);
        assert(v@.take(0) =~= Seq::<char>::empty());
    }
    while i < v.len()
        invariant
            i <= v.len(),
            v@ == s@,
            r@ == numerics(v@.take(i as int)),
        decreases v.len() - i,
    {
        let c = v[i];
        proof {
            let p = |c: char| numeric(c);
            assert(v@.take(i + 1) =~= v@.take(i as int).push(c));
            v@.take(i as int).lemma_filter_push(c, p);
        }
        if c.is_numeric() {
            r.push(c);
        }
        i += 1;
    }
    assert(v@.take(v@.len() as int) =~= v@);
    r
}

/// Reads `v[from..to]` as a number: an optional plus sign and decimal
/// digits, no more than the machine's word holds.
pub fn parse_word(v: &Vec<char>, from: usize, to: usize) -> (r: Option<usize>)
    requires
        from <= to <= v.len(),
    ensures
        r == unsigned_word(v@.subrange(from as int, to as int)),
{
    let ghost s = v@.subrange(from as int, to as int);
    let start: usize = if from < to && v[from] == '+' {
        from + 1
    } else {
        from
    };
    let ghost d = v@.subrange(start as int, to as int);
    assert(d =~= if s.len() > 0 && s[0] == '+' {
        s.drop_first()
    } else {
        s
    });
    if start == to {
        return None;
    }
    let ghost goal = unsigned_word(s);
    let mut acc: usize = 0;
    let mut i: usize = start;
    assert(d.take(0) =~= Seq::<char>::empty());
    while i < to
        invariant
            start <= i <= to <= v.len(),
            d == v@.subrange(start as int, to as int),
            goal == unsigned_word(v@.subrange(from as int, to as int)),
            goal == (if all_digits(d) && digits_value(d) <= usize::MAX {
                Some(digits_value(d) as usize)
            } else {
                None
            }),
            all_digits(d.take(i - start)),
            acc == digits_value(d.take(i - start)),
        decreases to - i,
    {
        let c = v[i];
        let code: u32 = c as u32;
        let ghost next = d.take(i - start + 1);
        proof {
            assert(next.drop_last() =~= d.take(i - start));
            assert(next.last() == c);
            assert(d[i - start] == c);
        }
        if code < 48 || code > 57 {
            assert(!all_digits(d));
            return None;
        }
        proof {
            lemma_digits_value_grows(d, i - start + 1);
            assert forall|j: int| 0 <= j < next.len() implies is_digit(#[trigger] next[j]) by {
                if j < i - start {
                    assert(d.take(i - start)[j] == next[j]);
                }
            }
        }
        let digit: usize = (code - 48) as usize;
        match acc.checked_mul(10) {
            Some(tens) => match tens.checked_add(digit) {
                Some(sum) => {
                    acc = sum;
                },
                None => {
                    assert(all_digits(d) ==> digits_value(d) > usize::MAX);
                    return None;
                },
            },
            None => {
                assert(all_digits(d) ==> digits_value(d) > usize::MAX);
                return None;
            },
        }
        i += 1;
    }
    assert(d.take(to - start) =~= d);
    Some(acc)
}

} // verus!
