//! Text helpers shared by the bot's commands: decimal rendering of ids,
//! character-level views of strings, prefix and suffix tests.
use vstd::prelude::*;

verus! {

/// The character of a decimal digit `d` (`0 <= d < 10`).
pub open spec fn digit_char(d: nat) -> char {
    if d == 0 {
        '0'
    } else if d == 1 {
        '1'
    } else if d == 2 {
        '2'
    } else if d == 3 {
        '3'
    } else if d == 4 {
        '4'
    } else if d == 5 {
        '5'
    } else if d == 6 {
        '6'
    } else if d == 7 {
        '7'
    } else if d == 8 {
        '8'
    } else {
        '9'
    }
}

/// The decimal representation of `n`, without sign or leading zeros.
pub open spec fn decimal(n: nat) -> Seq<char>
    decreases n,
{
    if n < 10 {
        seq![digit_char(n)]
    } else {
        decimal(n / 10).push(digit_char(n % 10))
    }
}

/// Appends one character to a `String` (`String::push`).
#[verifier::external_body]
pub(crate) fn push_char(s: &mut String, c: char)
    ensures
        final(s)@ == old(s)@.push(c),
{
    s.push(c)
}

fn digit_to_char(d: u64) -> (c: char)
    requires
        d < 10,
    ensures
        c == digit_char(d as nat),
{
    match d {
        0 => '0',
        1 => '1',
        2 => '2',
        3 => '3',
        4 => '4',
        5 => '5',
        6 => '6',
        7 => '7',
        8 => '8',
        _ => '9',
    }
}

/// Appends the decimal representation of `n` to `s`.
pub fn push_decimal(s: &mut String, n: u64)
    ensures
        final(s)@ == old(s)@ + decimal(n as nat),
    decreases n,
{
    if n >= 10 {
        push_decimal(s, n / 10);
    }
    let c = digit_to_char(n % 10);
    push_char(s, c);
    proof {
        if n >= 10 {
            assert(decimal(n as nat) == decimal((n / 10) as nat).push(digit_char((n % 10) as nat)));
        }
    }
}

/// The characters of `s`, in order.
pub fn chars_of(s: &str) -> (v: Vec<char>)
    ensures
        v@ == s@,
{
    broadcast use vstd::string::group_string_axioms;
    let mut v: Vec<char> = Vec::new();
    for c in iter: s.chars()
        invariant
            v@ == iter.seq().take(iter.index() as int),
    {
        v.push(c);
    }
    assert(v@ =~= s@);
    v
}

/// The `String` made of the characters `cs[from..to]`.
pub fn string_of_range(cs: &Vec<char>, from: usize, to: usize) -> (s: String)
    requires
        from <= to <= cs.len(),
    ensures
        s@ == cs@.subrange(from as int, to as int),
{
    let mut s = String::new();
    let mut i: usize = from;
    while i < to
        invariant
            from <= i <= to <= cs.len(),
            s@ == cs@.subrange(from as int, i as int),
        decreases to - i,
    {
        push_char(&mut s, cs[i]);
        i = i + 1;
        assert(s@ =~= cs@.subrange(from as int, i as int));
    }
    s
}

/// Whether two strings are equal.
pub fn str_eq(a: &str, b: &str) -> (r: bool)
    ensures
        r == (a@ == b@),
{
    let x = chars_of(a);
    let y = chars_of(b);
    if x.len() != y.len() {
        return false;
    }
    let mut i: usize = 0;
    while i < x.len()
        invariant
            x@ == a@,
            y@ == b@,
            x.len() == y.len(),
            i <= x.len(),
            forall|j: int| 0 <= j < i ==> x@[j] == y@[j],
        decreases x.len() - i,
    {
        if x[i] != y[i] {
            return false;
        }
        i = i + 1;
    }
    assert(x@ =~= y@);
    true
}

/// Whether `s` begins with `p`.
pub open spec fn has_prefix(s: Seq<char>, p: Seq<char>) -> bool {
    p.len() <= s.len() && s.take(p.len() as int) == p
}

/// Whether `s` ends with `p`.
pub open spec fn has_suffix(s: Seq<char>, p: Seq<char>) -> bool {
    p.len() <= s.len() && s.skip(s.len() - p.len()) == p
}

/// `str::starts_with` with a string pattern.
pub fn starts_with(s: &str, p: &str) -> (b: bool)
    ensures
        b == has_prefix(s@, p@),
{
    let sc = chars_of(s);
    let pc = chars_of(p);
    if pc.len() > sc.len() {
        return false;
    }
    let mut i: usize = 0;
    while i < pc.len()
        invariant
            pc.len() <= sc.len(),
            i <= pc.len(),
            sc@ == s@,
            pc@ == p@,
            forall|j: int| 0 <= j < i ==> sc@[j] == pc@[j],
        decreases pc.len() - i,
    {
        if sc[i] != pc[i] {
            assert(s@.take(p@.len() as int)[i as int] != p@[i as int]);
            return false;
        }
        i = i + 1;
    }
    assert(s@.take(p@.len() as int) =~= p@);
    true
}

/// `str::ends_with` with a string pattern.
pub fn ends_with(s: &str, p: &str) -> (b: bool)
    ensures
        b == has_suffix(s@, p@),
{
    let sc = chars_of(s);
    let pc = chars_of(p);
    if pc.len() > sc.len() {
        return false;
    }
    let off = sc.len() - pc.len();
    let mut i: usize = 0;
    while i < pc.len()
        invariant
            pc.len() <= sc.len(),
            off == sc.len() - pc.len(),
            i <= pc.len(),
            sc@ == s@,
            pc@ == p@,
            forall|j: int| 0 <= j < i ==> sc@[off + j] == pc@[j],
        decreases pc.len() - i,
    {
        if sc[off + i] != pc[i] {
            assert(s@.skip(off as int)[i as int] != p@[i as int]);
            return false;
        }
        i = i + 1;
    }
    assert(s@.skip(off as int) =~= p@);
    true
}

} // verus!

verus! {

/// Unicode `White_Space`, the property that `char::is_whitespace` and
/// `str::split_whitespace` go by.
pub open spec fn is_white_space(c: char) -> bool {
    let v = c as u32;
    ||| 0x09 <= v <= 0x0d
    ||| v == 0x20
    ||| v == 0x85
    ||| v == 0xa0
    ||| v == 0x1680
    ||| 0x2000 <= v <= 0x200a
    ||| v == 0x2028
    ||| v == 0x2029
    ||| v == 0x202f
    ||| v == 0x205f
    ||| v == 0x3000
}

/// The maximal runs of non-white-space characters of `s`, in order
/// (what `str::split_whitespace` yields).
pub open spec fn words(s: Seq<char>) -> Seq<Seq<char>>
    decreases s.len(),
{
    if s.len() == 0 {
        seq![]
    } else {
        let prev = words(s.drop_last());
        let c = s.last();
        if is_white_space(c) {
            prev
        } else if s.len() == 1 || is_white_space(s[s.len() - 2]) {
            prev.push(seq![c])
        } else {
            prev.update(prev.len() - 1, prev.last().push(c))
        }
    }
}

/// Whether `c` is white space.
pub fn white_space(c: char) -> (b: bool)
    ensures
        b == is_white_space(c),
{
    let v = c as u32;
    (0x09 <= v && v <= 0x0d) || v == 0x20 || v == 0x85 || v == 0xa0 || v == 0x1680 || (0x2000
        <= v && v <= 0x200a) || v == 0x2028 || v == 0x2029 || v == 0x202f || v == 0x205f || v
        == 0x3000
}

/// A word of `words(s)` is never empty, and the last one ends where `s` ends
/// when `s` does not end in white space.
proof fn lemma_words_shape(s: Seq<char>)
    ensures
        forall|k: int| 0 <= k < words(s).len() ==> #[trigger] words(s)[k].len() > 0,
        s.len() > 0 && !is_white_space(s.last()) ==> words(s).len() > 0,
    decreases s.len(),
{
    if s.len() > 0 {
        let t = s.drop_last();
        lemma_words_shape(t);
        let prev = words(t);
        if is_white_space(s.last()) {
        } else if s.len() == 1 || is_white_space(s[s.len() - 2]) {
            assert(words(s) == prev.push(seq![s.last()]));
            assert(words(s).last() =~= seq![s.last()]);
        } else {
            assert(t.last() == s[s.len() - 2]);
            let w = prev.update(prev.len() - 1, prev.last().push(s.last()));
            assert(words(s) == w);
            assert forall|k: int| 0 <= k < w.len() implies #[trigger] w[k].len() > 0 by {
                if k == prev.len() - 1 {
                    assert(w[k] == prev.last().push(s.last()));
                } else {
                    assert(w[k] == prev[k]);
                }
            }
        }
    }
}

/// The words of `s`, as `str::split_whitespace` gives them.
pub fn split_whitespace(s: &str) -> (ws: Vec<Vec<char>>)
    ensures
        ws@.len() == words(s@).len(),
        forall|k: int| 0 <= k < ws@.len() ==> #[trigger] ws@[k]@ == words(s@)[k],
{
    let cs = chars_of(s);
    let mut done: Vec<Vec<char>> = Vec::new();
    let mut cur: Vec<char> = Vec::new();
    let mut i: usize = 0;
    while i < cs.len()
        invariant
            i <= cs.len(),
            cs@ == s@,
            ({
                let w = words(cs@.take(i as int));
                if cur@.len() == 0 {
                    &&& done@.len() == w.len()
                    &&& forall|k: int| 0 <= k < w.len() ==> #[trigger] done@[k]@ == w[k]
                    &&& (i > 0 ==> is_white_space(cs@[i - 1]))
                } else {
                    &&& done@.len() + 1 == w.len()
                    &&& forall|k: int| 0 <= k < done@.len() ==> #[trigger] done@[k]@ == w[k]
                    &&& cur@ == w.last()
                    &&& i > 0
                    &&& !is_white_space(cs@[i - 1])
                }
            }),
        decreases cs.len() - i,
    {
        let c = cs[i];
        let ghost t = cs@.take(i + 1);
        assert(t.drop_last() =~= cs@.take(i as int));
        assert(t.last() == c);
        proof {
            lemma_words_shape(cs@.take(i as int));
        }
        if white_space(c) {
            if cur.len() > 0 {
                done.push(cur);
                cur = Vec::new();
            }
        } else {
            if cur.len() == 0 {
                assert(i == 0 || is_white_space(t[t.len() - 2]));
            } else {
                assert(!is_white_space(t[t.len() - 2]));
            }
            cur.push(c);
        }
        i = i + 1;
    }
    assert(cs@.take(i as int) =~= cs@);
    if cur.len() > 0 {
        done.push(cur);
    }
    done
}

/// Whether `c` is an ASCII decimal digit.
pub open spec fn is_digit(c: char) -> bool {
    '0' <= c <= '9'
}

/// Whether every character of `s` is a decimal digit.
pub open spec fn all_digits(s: Seq<char>) -> bool {
    forall|i: int| 0 <= i < s.len() ==> is_digit(#[trigger] s[i])
}

/// `s` without one leading `+`, if it has one.
pub open spec fn unsigned_digits(s: Seq<char>) -> Seq<char> {
    if s.len() > 0 && s[0] == '+' {
        s.drop_first()
    } else {
        s
    }
}

/// The value of a string of decimal digits.
pub open spec fn digits_value(s: Seq<char>) -> nat
    decreases s.len(),
{
    if s.len() == 0 {
        0
    } else {
        digits_value(s.drop_last()) * 10 + (s.last() as nat - 48) as nat
    }
}

/// `u8::from_str`: an optional `+` and at least one decimal digit, of value
/// at most 255; `None` where the standard library returns an error.
pub open spec fn parse_u8(s: Seq<char>) -> Option<u8> {
    let ds = unsigned_digits(s);
    if ds.len() > 0 && all_digits(ds) && digits_value(ds) <= 255 {
        Some(digits_value(ds) as u8)
    } else {
        None
    }
}

proof fn lemma_digits_value_prefix_le(s: Seq<char>, n: int)
    requires
        0 <= n <= s.len(),
        forall|i: int| 0 <= i < s.len() ==> is_digit(#[trigger] s[i]),
    ensures
        digits_value(s.take(n)) <= digits_value(s),
    decreases s.len() - n,
{
    if n < s.len() {
        lemma_digits_value_prefix_le(s, n + 1);
        assert(s.take(n + 1).drop_last() =~= s.take(n));
    } else {
        assert(s.take(n) =~= s);
    }
}

/// Parses the characters `s` as `u8::from_str` does.
pub fn parse_u8_chars(s: &Vec<char>) -> (r: Option<u8>)
    ensures
        r == parse_u8(s@),
{
    let start: usize = if s.len() > 0 && s[0] == '+' {
        1
    } else {
        0
    };
    let ghost ds = unsigned_digits(s@);
    assert(ds =~= s@.skip(start as int));
    if start == s.len() {
        return None;
    }
    let mut acc: u32 = 0;
    let mut i: usize = start;
    while i < s.len()
        invariant
            start <= i <= s.len(),
            ds == s@.skip(start as int),
            ds == unsigned_digits(s@),
            forall|j: int| 0 <= j < i - start ==> is_digit(#[trigger] ds[j]),
            acc == digits_value(ds.take(i - start)),
            acc <= 255,
        decreases s.len() - i,
    {
        let c = s[i];
        if !('0' <= c && c <= '9') {
            assert(!is_digit(ds[i - start]));
            assert(!all_digits(ds));
            return None;
        }
        let d = c as u32 - 48;
        assert(ds.take(i - start + 1).drop_last() =~= ds.take(i - start));
        assert(ds.take(i - start + 1).last() == c);
        acc = acc * 10 + d;
        if acc > 255 {
            proof {
                let k = i - start + 1;
                if all_digits(ds) {
                    lemma_digits_value_prefix_le(ds, k);
                }
            }
            return None;
        }
        i = i + 1;
    }
    assert(ds.take(i - start) =~= ds);
    Some(acc as u8)
}

} // verus!

verus! {

proof fn lemma_digit_char_value(d: nat)
    requires
        d < 10,
    ensures
        digit_char(d) as nat == d + 48,
        is_digit(digit_char(d)),
{
}

proof fn lemma_decimal_digits(n: nat)
    ensures
        all_digits(decimal(n)),
        decimal(n).len() > 0,
        digits_value(decimal(n)) == n,
        decimal(n)[0] != '+',
    decreases n,
{
    if n < 10 {
        lemma_digit_char_value(n);
        assert(decimal(n) =~= seq![digit_char(n)]);
        assert(decimal(n).drop_last() =~= Seq::<char>::empty());
        assert(digits_value(Seq::<char>::empty()) == 0);
        assert(decimal(n).last() == digit_char(n));
    } else {
        lemma_digit_char_value(n % 10);
        lemma_decimal_digits(n / 10);
        let d = decimal(n);
        assert(d.drop_last() =~= decimal(n / 10));
        assert(d.last() == digit_char(n % 10));
        assert(digits_value(d) == digits_value(decimal(n / 10)) * 10 + (d.last() as nat - 48) as nat);
        assert((n / 10) * 10 + n % 10 == n);
        assert(d[0] == decimal(n / 10)[0]);
        assert forall|i: int| 0 <= i < d.len() implies is_digit(#[trigger] d[i]) by {
            if i < d.len() - 1 {
                assert(d[i] == decimal(n / 10)[i]);
            }
        }
    }
}

/// What `push_decimal` writes, `u8::from_str` reads back: for every `n` up to
/// 255, parsing the decimal text of `n` gives `n`.
pub proof fn lemma_parse_u8_decimal(n: u8)
    ensures
        parse_u8(decimal(n as nat)) == Some(n),
{
    lemma_decimal_digits(n as nat);
    assert(unsigned_digits(decimal(n as nat)) == decimal(n as nat));
}

/// No word of `words(s)` is empty or holds white space.
pub proof fn lemma_words_are_words(s: Seq<char>)
    ensures
        forall|k: int| 0 <= k < words(s).len() ==> #[trigger] words(s)[k].len() > 0,
        forall|k: int, j: int|
            0 <= k < words(s).len() && 0 <= j < words(s)[k].len() ==> !is_white_space(
                #[trigger] words(s)[k][j],
            ),
    decreases s.len(),
{
    lemma_words_shape(s);
    if s.len() > 0 {
        let t = s.drop_last();
        lemma_words_shape(t);
        lemma_words_are_words(t);
        let prev = words(t);
        let w = words(s);
        let c = s.last();
        if is_white_space(c) {
        } else if s.len() == 1 || is_white_space(s[s.len() - 2]) {
            assert forall|k: int, j: int| 0 <= k < w.len() && 0 <= j < w[k].len() implies !is_white_space(#[trigger] w[k][j]) by {
                if k < prev.len() {
                    assert(w[k] == prev[k]);
                } else {
                    assert(w[k] == seq![c]);
                }
            }
        } else {
            assert(t.last() == s[s.len() - 2]);
            assert forall|k: int, j: int| 0 <= k < w.len() && 0 <= j < w[k].len() implies !is_white_space(#[trigger] w[k][j]) by {
                if k < prev.len() - 1 {
                    assert(w[k] == prev[k]);
                } else {
                    assert(w[k] == prev.last().push(c));
                    if j < prev.last().len() {
                        assert(w[k][j] == prev[prev.len() - 1][j]);
                    }
                }
            }
        }
    }
}

} // verus!

verus! {

/// Whether no character of `s` is white space.
pub open spec fn no_white_space(s: Seq<char>) -> bool {
    forall|i: int| 0 <= i < s.len() ==> !is_white_space(#[trigger] s[i])
}

/// A non-empty text without white space is one word.
pub proof fn lemma_words_of_word(p: Seq<char>)
    requires
        p.len() > 0,
        no_white_space(p),
    ensures
        words(p) == seq![p],
    decreases p.len(),
{
    let q = p.drop_last();
    let c = p.last();
    assert(!is_white_space(p[p.len() - 1]));
    if q.len() == 0 {
        assert(words(q) =~= Seq::<Seq<char>>::empty());
        assert(seq![c] =~= p);
    } else {
        assert(no_white_space(q)) by {
            assert forall|i: int| 0 <= i < q.len() implies !is_white_space(#[trigger] q[i]) by {
                assert(q[i] == p[i]);
            }
        }
        lemma_words_of_word(q);
        assert(!is_white_space(p[p.len() - 2]));
        assert(q.push(c) =~= p);
        assert(seq![q].update(0, q.push(c)) =~= seq![p]);
    }
}

/// Two words separated by one space are the text's two words.
pub proof fn lemma_words_of_two_words(p: Seq<char>, w: Seq<char>)
    requires
        p.len() > 0,
        no_white_space(p),
        w.len() > 0,
        no_white_space(w),
    ensures
        words(p + seq![' '] + w) == seq![p, w],
    decreases w.len(),
{
    let s = p + seq![' '] + w;
    let v = w.drop_last();
    let c = w.last();
    assert(!is_white_space(w[w.len() - 1]));
    assert(s.drop_last() =~= p + seq![' '] + v);
    assert(s.last() == c);
    if v.len() == 0 {
        lemma_words_of_word(p);
        let t = p + seq![' '];
        assert(t.drop_last() =~= p);
        assert(is_white_space(t.last()));
        assert(p + seq![' '] + v =~= t);
        assert(s[s.len() - 2] == ' ');
        assert(is_white_space(' '));
        assert(words(t) == words(p));
        assert(s.drop_last() == t);
        assert(words(s) == words(t).push(seq![c]));
        assert(seq![c] =~= w);
        assert(seq![p].push(w) =~= seq![p, w]);
    } else {
        assert(no_white_space(v)) by {
            assert forall|i: int| 0 <= i < v.len() implies !is_white_space(#[trigger] v[i]) by {
                assert(v[i] == w[i]);
            }
        }
        lemma_words_of_two_words(p, v);
        assert(s[s.len() - 2] == w[w.len() - 2]);
        assert(!is_white_space(w[w.len() - 2]));
        assert(v.push(c) =~= w);
        assert(words(s) == words(s.drop_last()).update(1, words(s.drop_last()).last().push(c)));
        assert(seq![p, v].update(1, v.push(c)) =~= seq![p, w]);
    }
}

/// The decimal text of a number holds no white space.
pub proof fn lemma_decimal_no_white_space(n: nat)
    ensures
        no_white_space(decimal(n)),
        decimal(n).len() > 0,
{
    lemma_decimal_digits(n);
    let d = decimal(n);
    assert forall|i: int| 0 <= i < d.len() implies !is_white_space(#[trigger] d[i]) by {
        assert(is_digit(d[i]));
    }
}

} // verus!
