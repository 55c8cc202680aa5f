use vstd::prelude::*;
use vstd::string::*;

verus! {

broadcast use vstd::string::group_string_axioms;

/// Unicode `White_Space`: the characters that `str::trim` and
/// `str::split_whitespace` treat as blank.
pub open spec fn is_white_space(c: char) -> bool {
    let u = c as u32;
    ||| 0x9 <= u <= 0xd
    ||| u == 0x20
    ||| u == 0x85
    ||| u == 0xa0
    ||| u == 0x1680
    ||| 0x2000 <= u <= 0x200a
    ||| u == 0x2028
    ||| u == 0x2029
    ||| u == 0x202f
    ||| u == 0x205f
    ||| u == 0x3000
}

/// `s` without its leading white space.
pub open spec fn trim_start(s: Seq<char>) -> Seq<char>
    decreases s.len(),
{
    if s.len() > 0 && is_white_space(s[0]) {
        trim_start(s.drop_first())
    } else {
        s
    }
}

/// `s` without its trailing white space.
pub open spec fn trim_end(s: Seq<char>) -> Seq<char>
    decreases s.len(),
{
    if s.len() > 0 && is_white_space(s.last()) {
        trim_end(s.drop_last())
    } else {
        s
    }
}

/// `s` without leading and trailing white space.
pub open spec fn trim(s: Seq<char>) -> Seq<char> {
    trim_end(trim_start(s))
}

/// A setting counts as blank when nothing but white space is in it.
pub open spec fn is_blank(s: Seq<char>) -> bool {
    trim(s).len() == 0
}

pub fn white_space(c: char) -> (r: bool)
    ensures
        r == is_white_space(c),
{
    let u = c as u32;
    (0x9 <= u && u <= 0xd) || u == 0x20 || u == 0x85 || u == 0xa0 || u == 0x1680 || (0x2000 <= u
        && u <= 0x200a) || u == 0x2028 || u == 0x2029 || u == 0x202f || u == 0x205f || u == 0x3000
}

/// The characters of `s`, in order.
pub fn chars_of(s: &str) -> (v: Vec<char>)
    ensures
        v@ == s@,
{
    let mut v: Vec<char> = Vec::new();
    for c in it: s.chars()
        invariant
            v@ == it.history(),
    {
        v.push(c);
    }
    v
}

/// Index of the first character at or after `from` that is not white space.
fn skip_white_space(v: &Vec<char>, from: usize) -> (j: usize)
    requires
        from <= v@.len(),
    ensures
        from <= j <= v@.len(),
        trim_start(v@.skip(from as int)) == v@.skip(j as int),
        forall|k: int| from <= k < j ==> is_white_space(#[trigger] v@[k]),
        j < v@.len() ==> !is_white_space(v@[j as int]),
{
    let mut j: usize = from;
    while j < v.len() && white_space(v[j])
        invariant
            from <= j <= v@.len(),
            trim_start(v@.skip(from as int)) == trim_start(v@.skip(j as int)),
            forall|k: int| from <= k < j ==> is_white_space(#[trigger] v@[k]),
        decreases v@.len() - j,
    {
        assert(v@.skip(j as int).drop_first() =~= v@.skip(j + 1));
        j = j + 1;
    }
    assert(trim_start(v@.skip(j as int)) == v@.skip(j as int));
    j
}

/// Index just past the last character before `to` that is not white space,
/// looking no further back than `from`.
fn trailing_white_space_start(v: &Vec<char>, from: usize, to: usize) -> (j: usize)
    requires
        from <= to <= v@.len(),
    ensures
        from <= j <= to,
        trim_end(v@.subrange(from as int, to as int)) == v@.subrange(from as int, j as int),
{
    let mut j: usize = to;
    while j > from && white_space(v[j - 1])
        invariant
            from <= j <= to,
            to <= v@.len(),
            trim_end(v@.subrange(from as int, to as int)) == trim_end(
                v@.subrange(from as int, j as int),
            ),
        decreases j - from,
    {
        assert(v@.subrange(from as int, j as int).drop_last() =~= v@.subrange(
            from as int,
            j - 1,
        ));
        j = j - 1;
    }
    assert(trim_end(v@.subrange(from as int, j as int)) == v@.subrange(from as int, j as int));
    j
}

/// `s` with leading and trailing white space removed, as `str::trim` does.
pub fn trim_white_space(s: &str) -> (r: String)
    ensures
        r@ == trim(s@),
{
    let v = chars_of(s);
    let i = skip_white_space(&v, 0);
    assert(v@.skip(0) =~= v@);
    let j = trailing_white_space_start(&v, i, v.len());
    assert(v@.skip(i as int) =~= v@.subrange(i as int, v@.len() as int));
    let t = s.substring_char(i, j);
    t.to_owned()
}


proof fn lemma_trim_start_is_suffix(s: Seq<char>)
    ensures
        trim_start(s).len() <= s.len(),
        trim_start(s) == s.skip(s.len() - trim_start(s).len()),
        forall|k: int| 0 <= k < s.len() - trim_start(s).len() ==> is_white_space(#[trigger] s[k]),
        trim_start(s).len() > 0 ==> !is_white_space(trim_start(s)[0]),
    decreases s.len(),
{
    if s.len() > 0 && is_white_space(s[0]) {
        let t = s.drop_first();
        lemma_trim_start_is_suffix(t);
        assert(t.skip(t.len() - trim_start(t).len()) =~= s.skip(s.len() - trim_start(s).len()));
        assert forall|k: int| 0 <= k < s.len() - trim_start(s).len() implies is_white_space(
            #[trigger] s[k],
        ) by {
            if k > 0 {
                assert(s[k] == t[k - 1]);
            }
        }
    } else {
        assert(s.skip(0) =~= s);
    }
}

proof fn lemma_trim_end_is_prefix(s: Seq<char>)
    ensures
        trim_end(s).len() <= s.len(),
        trim_end(s) == s.take(trim_end(s).len() as int),
        forall|k: int| trim_end(s).len() <= k < s.len() ==> is_white_space(#[trigger] s[k]),
        trim_end(s).len() > 0 ==> !is_white_space(trim_end(s).last()),
    decreases s.len(),
{
    if s.len() > 0 && is_white_space(s.last()) {
        let t = s.drop_last();
        lemma_trim_end_is_prefix(t);
        assert(t.take(trim_end(t).len() as int) =~= s.take(trim_end(s).len() as int));
        assert forall|k: int| trim_end(s).len() <= k < s.len() implies is_white_space(
            #[trigger] s[k],
        ) by {
            if k < s.len() - 1 {
                assert(s[k] == t[k]);
            }
        }
    } else {
        assert(s.take(s.len() as int) =~= s);
    }
}

/// What trimming does: the result is a stretch `s[i..j]` of `s` with only
/// white space before `i` and after `j`, and it neither starts nor ends
/// with white space.
pub proof fn lemma_trim_removes_only_outer_white_space(s: Seq<char>)
    ensures
        exists|i: int, j: int|
            0 <= i <= j <= s.len() && trim(s) == s.subrange(i, j) && (forall|k: int|
                0 <= k < i ==> is_white_space(#[trigger] s[k])) && (forall|k: int|
                j <= k < s.len() ==> is_white_space(#[trigger] s[k])),
        trim(s).len() > 0 ==> !is_white_space(trim(s)[0]) && !is_white_space(trim(s).last()),
{
    let u = trim_start(s);
    lemma_trim_start_is_suffix(s);
    lemma_trim_end_is_prefix(u);
    let i = s.len() - u.len();
    let j = i + trim_end(u).len();
    assert(trim(s) =~= s.subrange(i, j));
    assert forall|k: int| j <= k < s.len() implies is_white_space(#[trigger] s[k]) by {
        assert(s[k] == u[k - i]);
    }
    if trim(s).len() > 0 {
        assert(trim(s)[0] == u[0]);
    }
}

/// Whether two texts are equal.
pub fn same_text(a: &str, b: &str) -> (r: bool)
    ensures
        r == (a@ == b@),
{
    let x = a.to_owned();
    let y = b.to_owned();
    x == y
}

/// Whether `s` holds nothing but white space.
pub fn blank(s: &str) -> (r: bool)
    ensures
        r == is_blank(s@),
{
    let t = trim_white_space(s);
    t.as_str().unicode_len() == 0
}

/// Whether an optional setting is missing or blank.
pub open spec fn is_unset(s: Option<Seq<char>>) -> bool {
    match s {
        Some(v) => is_blank(v),
        None => true,
    }
}

/// The view of an optional string.
pub open spec fn opt_view(s: Option<String>) -> Option<Seq<char>> {
    match s {
        Some(v) => Some(v@),
        None => None,
    }
}

pub fn unset(s: &Option<String>) -> (r: bool)
    ensures
        r == is_unset(opt_view(*s)),
{
    match s {
        Some(v) => blank(v.as_str()),
        None => true,
    }
}

// ---------------------------------------------------------------------------
// Lines and words
// ---------------------------------------------------------------------------

/// Position of the first `c` in `s`, or `s.len()` when there is none.
pub open spec fn first_index_of(s: Seq<char>, c: char) -> nat
    decreases s.len(),
{
    if s.len() == 0 {
        0
    } else if s[0] == c {
        0
    } else {
        1 + first_index_of(s.drop_first(), c)
    }
}

/// The first line of `s`, as the first item of `str::lines` gives it (the
/// empty sequence when `s` is empty): the text before the first `'\n'`, less
/// one `'\r'` that directly precedes that `'\n'`.
pub open spec fn first_line(s: Seq<char>) -> Seq<char> {
    let k = first_index_of(s, '\n');
    if k < s.len() {
        let l = s.subrange(0, k as int);
        if l.len() > 0 && l.last() == '\r' {
            l.drop_last()
        } else {
            l
        }
    } else {
        s
    }
}

/// The leading run of characters of `s` that are not white space.
pub open spec fn leading_word(s: Seq<char>) -> Seq<char>
    decreases s.len(),
{
    if s.len() > 0 && !is_white_space(s[0]) {
        seq![s[0]] + leading_word(s.drop_first())
    } else {
        Seq::empty()
    }
}

/// The `n`-th (from 0) word of `s`, as `s.split_whitespace().nth(n)` gives it.
pub open spec fn nth_word(s: Seq<char>, n: nat) -> Option<Seq<char>>
    decreases n,
{
    let t = trim_start(s);
    if t.len() == 0 {
        None
    } else {
        let w = leading_word(t);
        if n == 0 {
            Some(w)
        } else {
            nth_word(t.skip(w.len() as int), (n - 1) as nat)
        }
    }
}

proof fn lemma_first_index_bound(s: Seq<char>, c: char)
    ensures
        first_index_of(s, c) <= s.len(),
        first_index_of(s, c) < s.len() ==> s[first_index_of(s, c) as int] == c,
        forall|k: int| 0 <= k < first_index_of(s, c) ==> s[k] != c,
    decreases s.len(),
{
    if s.len() > 0 && s[0] != c {
        lemma_first_index_bound(s.drop_first(), c);
        assert forall|k: int| 0 <= k < first_index_of(s, c) implies s[k] != c by {
            if k > 0 {
                assert(s[k] == s.drop_first()[k - 1]);
            }
        }
    }
}

proof fn lemma_first_index_concat(a: Seq<char>, b: Seq<char>, c: char)
    ensures
        first_index_of(a + b, c) == if first_index_of(a, c) < a.len() {
            first_index_of(a, c)
        } else {
            a.len() + first_index_of(b, c)
        },
    decreases a.len(),
{
    lemma_first_index_bound(a, c);
    if a.len() == 0 {
        assert(a + b =~= b);
    } else if a[0] != c {
        assert((a + b).drop_first() =~= a.drop_first() + b);
        lemma_first_index_concat(a.drop_first(), b, c);
    }
}

/// The first line of a header block does not change when the blank line
/// that ends the block is put after it.
pub proof fn lemma_first_line_before_blank_line(head: Seq<char>)
    ensures
        first_line(head + seq!['\r', '\n', '\r', '\n']) == first_line(head),
{
    let tail = seq!['\r', '\n', '\r', '\n'];
    let s = head + tail;
    lemma_first_index_concat(head, tail, '\n');
    lemma_first_index_bound(head, '\n');
    assert(first_index_of(tail, '\n') == 1) by {
        let rest = tail.drop_first();
        assert(rest[0] == '\n');
        assert(first_index_of(rest, '\n') == 0);
        assert(tail[0] == '\r');
    }
    let k = first_index_of(head, '\n');
    if k < head.len() {
        assert(s.subrange(0, k as int) =~= head.subrange(0, k as int));
    } else {
        assert(s.subrange(0, head.len() as int + 1) =~= head.push('\r'));
        assert(head.push('\r').drop_last() =~= head);
    }
}

/// Position of the first `c` in `v`, or `v.len()` when there is none.
fn find_char(v: &Vec<char>, c: char) -> (k: usize)
    ensures
        k == first_index_of(v@, c),
{
    let mut k: usize = 0;
    assert(v@.skip(0) =~= v@);
    while k < v.len() && v[k] != c
        invariant
            k <= v@.len(),
            first_index_of(v@, c) == k + first_index_of(v@.skip(k as int), c),
        decreases v@.len() - k,
    {
        assert(v@.skip(k as int).drop_first() =~= v@.skip(k + 1));
        k = k + 1;
    }
    if k < v.len() {
        assert(v@.skip(k as int)[0] == v@[k as int]);
    }
    k
}

/// The first line of `s` (see `first_line`).
pub fn first_line_of(s: &str) -> (r: String)
    ensures
        r@ == first_line(s@),
{
    let v = chars_of(s);
    assert(v@.skip(0) =~= v@);
    let k = find_char(&v, '\n');
    proof {
        lemma_first_index_bound(v@, '\n');
    }
    if k < v.len() {
        if k > 0 && v[k - 1] == '\r' {
            assert(v@.subrange(0, k as int).drop_last() =~= v@.subrange(0, k - 1));
            s.substring_char(0, k - 1).to_owned()
        } else {
            s.substring_char(0, k).to_owned()
        }
    } else {
        assert(s@.subrange(0, s@.len() as int) =~= s@);
        s.substring_char(0, k).to_owned()
    }
}

/// End of the word that starts at `from`.
fn word_end(v: &Vec<char>, from: usize) -> (j: usize)
    requires
        from <= v@.len(),
    ensures
        from <= j <= v@.len(),
        leading_word(v@.skip(from as int)) == v@.subrange(from as int, j as int),
{
    let mut j: usize = from;
    while j < v.len() && !white_space(v[j])
        invariant
            from <= j <= v@.len(),
            leading_word(v@.skip(from as int)) == v@.subrange(from as int, j as int)
                + leading_word(v@.skip(j as int)),
        decreases v@.len() - j,
    {
        assert(v@.skip(j as int).drop_first() =~= v@.skip(j + 1));
        assert(v@.subrange(from as int, j as int) + (seq![v@[j as int]] + leading_word(
            v@.skip(j + 1),
        )) =~= v@.subrange(from as int, j + 1) + leading_word(v@.skip(j + 1)));
        j = j + 1;
    }
    assert(leading_word(v@.skip(j as int)) =~= Seq::<char>::empty());
    assert(v@.subrange(from as int, j as int) + Seq::<char>::empty() =~= v@.subrange(
        from as int,
        j as int,
    ));
    j
}

/// The second word of `s`, as `s.split_whitespace().nth(1)` gives it.
pub fn second_word(s: &str) -> (r: Option<String>)
    ensures
        opt_view(r) == nth_word(s@, 1),
{
    let v = chars_of(s);
    assert(v@.skip(0) =~= v@);
    let i = skip_white_space(&v, 0);
    if i == v.len() {
        return None;
    }
    let j = word_end(&v, i);
    let ghost t = v@.skip(i as int);
    assert(t.skip(leading_word(t).len() as int) =~= v@.skip(j as int));
    let i2 = skip_white_space(&v, j);
    if i2 == v.len() {
        assert(nth_word(v@.skip(j as int), 0) == None::<Seq<char>>);
        return None;
    }
    let j2 = word_end(&v, i2);
    assert(nth_word(v@.skip(j as int), 0) == Some(v@.subrange(i2 as int, j2 as int)));
    Some(s.substring_char(i2, j2).to_owned())
}


// ---------------------------------------------------------------------------
// Decimal numbers
// ---------------------------------------------------------------------------

pub open spec fn is_ascii_digit(c: char) -> bool {
    '0' <= c <= '9'
}

/// The value of an ASCII digit.
pub open spec fn digit_value(c: char) -> nat {
    ((c as u32) - ('0' as u32)) as nat
}

/// The character of a digit value below ten.
pub open spec fn digit_char(d: nat) -> char {
    ((d + ('0' as u32)) as u32) as char
}

pub open spec fn all_digits(s: Seq<char>) -> bool {
    forall|i: int| 0 <= i < s.len() ==> is_ascii_digit(#[trigger] s[i])
}

/// The value of a run of decimal digits, most significant first.
pub open spec fn digits_value(s: Seq<char>) -> nat
    decreases s.len(),
{
    if s.len() == 0 {
        0
    } else {
        digits_value(s.drop_last()) * 10 + digit_value(s.last())
    }
}

/// The digits that a decimal number is read from: `s` less one leading `'+'`.
pub open spec fn unsigned_digits(s: Seq<char>) -> Seq<char> {
    if s.len() > 0 && s[0] == '+' {
        s.drop_first()
    } else {
        s
    }
}

/// What `str::parse` reads from `s` as an unsigned decimal number, before
/// the bound of the target type is applied: an optional `'+'`, then at least
/// one ASCII digit and nothing else.
pub open spec fn parse_unsigned(s: Seq<char>) -> Option<nat> {
    let d = unsigned_digits(s);
    if d.len() > 0 && all_digits(d) {
        Some(digits_value(d))
    } else {
        None
    }
}

/// `s.parse::<u16>().ok()`.
pub open spec fn parse_u16(s: Seq<char>) -> Option<u16> {
    match parse_unsigned(s) {
        Some(n) => if n <= u16::MAX {
            Some(n as u16)
        } else {
            None
        },
        None => None,
    }
}

/// `s.parse::<u64>().ok()`.
pub open spec fn parse_u64(s: Seq<char>) -> Option<u64> {
    match parse_unsigned(s) {
        Some(n) => if n <= u64::MAX {
            Some(n as u64)
        } else {
            None
        },
        None => None,
    }
}

/// The decimal digits of `n`, without leading zeros.
pub open spec fn decimal(n: nat) -> Seq<char>
    decreases n,
{
    if n < 10 {
        seq![digit_char(n)]
    } else {
        decimal(n / 10).push(digit_char(n % 10))
    }
}

/// The decimal text of a signed number, with a `'-'` in front when negative.
pub open spec fn signed_decimal(n: int) -> Seq<char> {
    if n < 0 {
        seq!['-'] + decimal((-n) as nat)
    } else {
        decimal(n as nat)
    }
}

proof fn lemma_digits_value_prefix(s: Seq<char>, k: int)
    requires
        0 <= k <= s.len(),
    ensures
        digits_value(s.subrange(0, k)) <= digits_value(s),
    decreases s.len() - k,
{
    if k < s.len() {
        lemma_digits_value_prefix(s, k + 1);
        assert(s.subrange(0, k + 1).drop_last() =~= s.subrange(0, k));
    } else {
        assert(s.subrange(0, k) =~= s);
    }
}

/// Reads `s` as `str::parse::<u64>` does.
pub fn parse_u64_text(s: &str) -> (r: Option<u64>)
    ensures
        r == parse_u64(s@),
{
    let v = chars_of(s);
    let n = v.len();
    let start: usize = if n > 0 && v[0] == '+' {
        1
    } else {
        0
    };
    let ghost d = unsigned_digits(s@);
    assert(d =~= v@.skip(start as int));
    if start == n {
        return None;
    }
    let mut acc: u64 = 0;
    let mut i: usize = start;
    while i < n
        invariant
            start <= i <= n,
            n == v@.len(),
            d == v@.skip(start as int),
            d == unsigned_digits(s@),
            v@ == s@,
            forall|k: int| start <= k < i ==> is_ascii_digit(#[trigger] v@[k]),
            acc == digits_value(v@.subrange(start as int, i as int)),
        decreases n - i,
    {
        let c = v[i];
        if !('0' <= c && c <= '9') {
            assert(d[i - start] == c);
            assert(!is_ascii_digit(d[i - start]));
            assert(!all_digits(d));
            return None;
        }
        let dv: u64 = (c as u32 - '0' as u32) as u64;
        assert(v@.subrange(start as int, i + 1).drop_last() =~= v@.subrange(
            start as int,
            i as int,
        ));
        if acc > (u64::MAX - dv) / 10 {
            proof {
                let a = acc as int;
                let b = dv as int;
                assert(a * 10 + b > u64::MAX) by (nonlinear_arith)
                    requires
                        a > (u64::MAX - b) / 10,
                        0 <= b < 10,
                ;
                assert(digit_value(v@[i as int]) == dv);
                assert(digits_value(v@.subrange(start as int, i + 1)) > u64::MAX);
                assert(v@.subrange(start as int, i + 1) =~= d.subrange(0, i + 1 - start));
                if all_digits(d) {
                    lemma_digits_value_prefix(d, i + 1 - start);
                }
                assert(parse_u64(s@).is_none());
            }
            return None;
        }
        acc = acc * 10 + dv;
        i = i + 1;
    }
    assert(v@.subrange(start as int, n as int) =~= d);
    Some(acc)
}

/// Reads `s` as `str::parse::<u16>` does.
pub fn parse_u16_text(s: &str) -> (r: Option<u16>)
    ensures
        r == parse_u16(s@),
{
    match parse_u64_text(s) {
        Some(n) => if n <= 65535 {
            Some(n as u16)
        } else {
            None
        },
        None => None,
    }
}

/// The one-character text of a digit.
fn digit_text(d: u64) -> (r: &'static str)
    requires
        d < 10,
    ensures
        r@ == seq![digit_char(d as nat)],
{
    if d == 0 {
        proof {
            reveal_strlit("0");
        }
        "0"
    } else if d == 1 {
        proof {
            reveal_strlit("1");
        }
        "1"
    } else if d == 2 {
        proof {
            reveal_strlit("2");
        }
        "2"
    } else if d == 3 {
        proof {
            reveal_strlit("3");
        }
        "3"
    } else if d == 4 {
        proof {
            reveal_strlit("4");
        }
        "4"
    } else if d == 5 {
        proof {
            reveal_strlit("5");
        }
        "5"
    } else if d == 6 {
        proof {
            reveal_strlit("6");
        }
        "6"
    } else if d == 7 {
        proof {
            reveal_strlit("7");
        }
        "7"
    } else if d == 8 {
        proof {
            reveal_strlit("8");
        }
        "8"
    } else {
        proof {
            reveal_strlit("9");
        }
        "9"
    }
}

/// Appends the decimal digits of `n` to `out`.
pub fn push_decimal(out: &mut String, n: u64)
    ensures
        final(out)@ == old(out)@ + decimal(n as nat),
    decreases n,
{
    if n >= 10 {
        push_decimal(out, n / 10);
        out.append(digit_text(n % 10));
        assert(old(out)@ + decimal((n / 10) as nat) + seq![digit_char((n % 10) as nat)]
            =~= old(out)@ + decimal(n as nat));
    } else {
        out.append(digit_text(n));
    }
}

/// Appends the decimal text of a signed number to `out`.
pub fn push_signed_decimal(out: &mut String, n: i64)
    ensures
        final(out)@ == old(out)@ + signed_decimal(n as int),
{
    if n < 0 {
        out.append("-");
        proof {
            reveal_strlit("-");
        }
        let m: u64 = if n == i64::MIN {
            9223372036854775808
        } else {
            (-n) as u64
        };
        push_decimal(out, m);
        assert(old(out)@ + seq!['-'] + decimal(m as nat) =~= old(out)@ + (seq!['-'] + decimal(
            m as nat,
        )));
    } else {
        push_decimal(out, n as u64);
    }
}

/// The decimal text of `n`.
pub fn decimal_text(n: u64) -> (r: String)
    ensures
        r@ == decimal(n as nat),
{
    let mut s = String::new();
    push_decimal(&mut s, n);
    assert(Seq::<char>::empty() + decimal(n as nat) =~= decimal(n as nat));
    s
}


proof fn lemma_digit_char(d: nat)
    requires
        d < 10,
    ensures
        is_ascii_digit(digit_char(d)),
        digit_value(digit_char(d)) == d,
{
    let u = (d + ('0' as u32)) as u32;
    assert(u as char as u32 == u);
}

proof fn lemma_decimal_digits(n: nat)
    ensures
        decimal(n).len() > 0,
        all_digits(decimal(n)),
        digits_value(decimal(n)) == n,
        decimal(n)[0] != '+',
    decreases n,
{
    lemma_digit_char(n % 10);
    if n >= 10 {
        lemma_decimal_digits(n / 10);
        assert(decimal(n).drop_last() =~= decimal(n / 10));
        assert(decimal(n)[0] == decimal(n / 10)[0]);
        assert(decimal(n).last() == digit_char(n % 10));
        assert(digits_value(decimal(n)) == (n / 10) * 10 + n % 10);
        assert((n / 10) * 10 + n % 10 == n) by (nonlinear_arith);
    } else {
        assert(decimal(n).drop_last() =~= Seq::<char>::empty());
        assert(digits_value(Seq::<char>::empty()) == 0);
        assert(n % 10 == n);
    }
}

/// Reading back the decimal text of a number gives the number.
pub proof fn lemma_decimal_parses_back(n: nat)
    ensures
        parse_unsigned(decimal(n)) == Some(n),
{
    lemma_decimal_digits(n);
}

/// A port written in decimal reads back as the same port.
pub proof fn lemma_port_text_round_trip(port: u16)
    ensures
        parse_u16(decimal(port as nat)) == Some(port),
{
    lemma_decimal_parses_back(port as nat);
}


// ---------------------------------------------------------------------------
// Bytes to text
// ---------------------------------------------------------------------------

/// The text that `String::from_utf8_lossy` makes of `bytes`.
pub uninterp spec fn utf8_lossy(bytes: Seq<u8>) -> Seq<char>;

/// Decodes `bytes` with `String::from_utf8_lossy`, which puts U+FFFD in place
/// of what is not UTF-8.  Trusted: the text is named by `utf8_lossy`; the
/// only fact stated of it is the documented one, that valid UTF-8 decodes
/// to the text it encodes.
#[verifier::external_body]
pub(crate) fn decode_utf8_lossy(bytes: &[u8]) -> (r: String)
    ensures
        r@ == utf8_lossy(bytes@),
        vstd::utf8::valid_utf8(bytes@) ==> r@ == vstd::utf8::decode_utf8(bytes@),
{
    String::from_utf8_lossy(bytes).into_owned()
}

} // verus!
