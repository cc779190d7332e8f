//! Character-sequence utilities shared by the classifier, the prompt
//! builder and the record codec: substring search, line cleanup, joining,
//! and printing/parsing of decimal numbers.

use vstd::prelude::*;
use vstd::string::*;

verus! {

/// `pat` occurs contiguously somewhere in `text`.
pub open spec fn contains_seq(text: Seq<char>, pat: Seq<char>) -> bool {
    exists|i: int|
        0 <= i && i + pat.len() <= text.len() && #[trigger] text.subrange(i, i + pat.len())
            == pat
}

/// The characters of `s`, one by one.
pub fn chars_of(s: &str) -> (v: Vec<char>)
    ensures
        v@ == s@,
{
    let n = s.unicode_len();
    let mut v: Vec<char> = Vec::new();
    let mut i: usize = 0;
    while i < n
        invariant
            i <= n,
            n == s@.len(),
            v@ == s@.subrange(0, i as int),
        decreases n - i,
    {
        v.push(s.get_char(i));
        i = i + 1;
        assert(v@ =~= s@.subrange(0, i as int));
    }
    assert(v@ =~= s@);
    v
}

/// Whether `pat` occurs in `text`, scanning left to right.
pub fn find_sub(text: &Vec<char>, pat: &Vec<char>) -> (r: bool)
    ensures
        r == contains_seq(text@, pat@),
{
    let n = text.len();
    let m = pat.len();
    if m > n {
        return false;
    }
    let mut i: usize = 0;
    while i <= n - m
        invariant
            m <= n,
            n == text@.len(),
            m == pat@.len(),
            i <= n - m + 1,
            forall|j: int|
                0 <= j < i ==> #[trigger] text@.subrange(j, j + pat@.len()) != pat@,
        decreases n - m + 1 - i,
    {
        let mut k: usize = 0;
        let mut hit = true;
        while hit && k < m
            invariant
                k <= m,
                i + m <= n,
                n == text@.len(),
                m == pat@.len(),
                hit ==> forall|t: int| 0 <= t < k ==> text@[i + t] == pat@[t],
                !hit ==> k < m && text@[i + k] != pat@[k as int],
            decreases m - k + (if hit { 1int } else { 0int }),
        {
            if text[i + k] != pat[k] {
                hit = false;
            } else {
                k = k + 1;
            }
        }
        if hit {
            assert(text@.subrange(i as int, i + pat@.len()) =~= pat@);
            return true;
        } else {
            assert(text@.subrange(i as int, i + pat@.len()) != pat@) by {
                assert(text@.subrange(i as int, i + pat@.len())[k as int] != pat@[k as int]);
            }
        }
        i = i + 1;
    }
    assert forall|j: int| 0 <= j && j + pat@.len() <= text@.len() implies #[trigger] text@
        .subrange(j, j + pat@.len()) != pat@ by {
        assert(j < i);
    }
    false
}

/// The blank characters trimmed from line ends (the newline itself is the
/// line separator and never occurs inside a line).
pub open spec fn is_blankish(c: char) -> bool {
    c == ' ' || c == '\t' || c == '\r'
}

/// The first position at or after `i` holding a non-blank character (or
/// the end of `s`).
pub open spec fn trim_start_idx(s: Seq<char>, i: int) -> int
    decreases s.len() - i,
{
    if i < 0 || i >= s.len() || !is_blankish(s[i]) {
        i
    } else {
        trim_start_idx(s, i + 1)
    }
}

/// The position just past the last non-blank character at or before `j`.
pub open spec fn trim_end_idx(s: Seq<char>, j: int) -> int
    decreases j,
{
    if j <= 0 {
        0
    } else if !is_blankish(s[j - 1]) {
        j
    } else {
        trim_end_idx(s, j - 1)
    }
}

/// `s` without leading and trailing blanks.
pub open spec fn trim_blank(s: Seq<char>) -> Seq<char> {
    let a = trim_start_idx(s, 0);
    let b = trim_end_idx(s, s.len() as int);
    if a < b {
        s.subrange(a, b)
    } else {
        Seq::empty()
    }
}

/// Trims leading and trailing blanks off `s`.
pub fn trim_line(s: &str) -> (r: String)
    ensures
        r@ == trim_blank(s@),
{
    let v = chars_of(s);
    let n = v.len();
    let mut a: usize = 0;
    while a < n && is_blank_char(v[a])
        invariant
            a <= n,
            n == s@.len(),
            v@ == s@,
            trim_start_idx(s@, 0) == trim_start_idx(s@, a as int),
        decreases n - a,
    {
        a = a + 1;
    }
    let mut b: usize = n;
    while b > 0 && is_blank_char(v[b - 1])
        invariant
            b <= n,
            n == s@.len(),
            v@ == s@,
            trim_end_idx(s@, n as int) == trim_end_idx(s@, b as int),
        decreases b,
    {
        b = b - 1;
    }
    if a < b {
        String::from_str(s.substring_char(a, b))
    } else {
        String::new()
    }
}

fn is_blank_char(c: char) -> (r: bool)
    ensures
        r == is_blankish(c),
{
    c == ' ' || c == '\t' || c == '\r'
}

/// The position of the first newline at or after `i` (or the end of `s`).
pub open spec fn line_end(s: Seq<char>, i: int) -> int
    decreases s.len() - i,
{
    if i < 0 || i >= s.len() || s[i] == '\n' {
        i
    } else {
        line_end(s, i + 1)
    }
}

/// The lines of `s`, each trimmed of blanks, with the blank ones dropped.
pub open spec fn cleaned_lines(s: Seq<char>) -> Seq<Seq<char>>
    decreases s.len(),
{
    let e = line_end(s, 0);
    if 0 <= e < s.len() {
        let t = trim_blank(s.subrange(0, e));
        let rest = cleaned_lines(s.subrange(e + 1, s.len() as int));
        if t.len() > 0 {
            seq![t] + rest
        } else {
            rest
        }
    } else {
        let t = trim_blank(s);
        if t.len() > 0 {
            seq![t]
        } else {
            Seq::empty()
        }
    }
}

/// Lines joined back with single newlines.
pub open spec fn join_lines(ls: Seq<Seq<char>>) -> Seq<char>
    decreases ls.len(),
{
    if ls.len() == 0 {
        Seq::empty()
    } else if ls.len() == 1 {
        ls[0]
    } else {
        ls[0] + seq!['\n'] + join_lines(ls.drop_first())
    }
}

/// What OCR output is normalized to: every line trimmed, blank lines
/// dropped, the rest joined with single newlines.
pub open spec fn clean_text_sp(s: Seq<char>) -> Seq<char> {
    join_lines(cleaned_lines(s))
}

/// Every cleaned line is non-blank, so the joined text is empty exactly
/// when no line survived.
pub proof fn lemma_cleaned_lines_nonempty(s: Seq<char>)
    ensures
        forall|i: int| 0 <= i < cleaned_lines(s).len() ==> (#[trigger] cleaned_lines(s)[i]).len()
            > 0,
        clean_text_sp(s).len() == 0 <==> cleaned_lines(s).len() == 0,
    decreases s.len(),
{
    let e = line_end(s, 0);
    if 0 <= e < s.len() {
        lemma_cleaned_lines_nonempty(s.subrange(e + 1, s.len() as int));
    }
    let ls = cleaned_lines(s);
    if ls.len() > 1 {
        assert(clean_text_sp(s).len() >= ls[0].len());
    }
}

/// Normalizes OCR output: trims every line, drops the blank ones, joins
/// the rest with single newlines.
pub fn clean_ocr_text(s: &str) -> (r: String)
    ensures
        r@ == clean_text_sp(s@),
    decreases s@.len(),
{
    let v = chars_of(s);
    let n = v.len();
    let mut e: usize = 0;
    while e < n && v[e] != '\n'
        invariant
            e <= n,
            n == s@.len(),
            v@ == s@,
            line_end(s@, 0) == line_end(s@, e as int),
        decreases n - e,
    {
        e = e + 1;
    }
    if e < n {
        let head = s.substring_char(0, e);
        let tail = s.substring_char(e + 1, n);
        let t = trim_line(head);
        let rest = clean_ocr_text(tail);
        proof {
            lemma_cleaned_lines_nonempty(tail@);
            lemma_cleaned_lines_nonempty(s@);
        }
        if t.unicode_len() > 0 {
            if rest.as_str().unicode_len() > 0 {
                let mut out = t;
                out.append("\n");
                out.append(rest.as_str());
                proof {
                    reveal_strlit("\n");
                    let ls = cleaned_lines(s@);
                    assert(ls.drop_first() =~= cleaned_lines(tail@));
                    assert(out@ =~= clean_text_sp(s@));
                }
                out
            } else {
                proof {
                    let ls = cleaned_lines(s@);
                    assert(ls.len() == 1);
                    assert(ls[0] =~= t@);
                }
                t
            }
        } else {
            rest
        }
    } else {
        trim_line(s)
    }
}

/// `parts` joined with `sep` between neighbours.
pub open spec fn join_sp(parts: Seq<Seq<char>>, sep: Seq<char>) -> Seq<char>
    decreases parts.len(),
{
    if parts.len() == 0 {
        Seq::empty()
    } else if parts.len() == 1 {
        parts[0]
    } else {
        join_sp(parts.drop_last(), sep) + sep + parts.last()
    }
}

/// Joins strings with a separator.
pub fn join_with(parts: &Vec<String>, sep: &str) -> (r: String)
    ensures
        r@ == join_sp(parts@.map_values(|s: String| s@), sep@),
{
    let ghost views = parts@.map_values(|s: String| s@);
    let mut out = String::new();
    let n = parts.len();
    let mut i: usize = 0;
    while i < n
        invariant
            i <= n,
            n == parts@.len(),
            views == parts@.map_values(|s: String| s@),
            out@ == join_sp(views.subrange(0, i as int), sep@),
        decreases n - i,
    {
        if i > 0 {
            out.append(sep);
        }
        out.append(parts[i].as_str());
        i = i + 1;
        proof {
            let pre = views.subrange(0, i - 1 as int);
            let cur = views.subrange(0, i as int);
            assert(cur.drop_last() =~= pre);
            assert(cur.last() == views[i - 1]);
        }
    }
    proof {
        assert(views.subrange(0, n as int) =~= views);
    }
    out
}

/// The first `max` characters of `s` (all of it when shorter).
pub open spec fn truncate_sp(s: Seq<char>, max: nat) -> Seq<char> {
    if s.len() <= max {
        s
    } else {
        s.subrange(0, max as int)
    }
}

/// Truncates `s` to at most `max` characters.
pub fn truncate_chars(s: &str, max: usize) -> (r: String)
    ensures
        r@ == truncate_sp(s@, max as nat),
{
    let n = s.unicode_len();
    if n <= max {
        String::from_str(s)
    } else {
        String::from_str(s.substring_char(0, max))
    }
}

/// An element-for-element copy of a vector of strings.
pub fn clone_string_vec(v: &Vec<String>) -> (r: Vec<String>)
    ensures
        r@ == v@,
{
    let mut r: Vec<String> = Vec::new();
    let n = v.len();
    let mut i: usize = 0;
    while i < n
        invariant
            i <= n,
            n == v@.len(),
            r@ == v@.subrange(0, i as int),
        decreases n - i,
    {
        r.push(v[i].clone());
        i = i + 1;
        assert(r@ =~= v@.subrange(0, i as int));
    }
    assert(r@ =~= v@);
    r
}

/// A copy of an optional string.
pub fn clone_opt_string(o: &Option<String>) -> (r: Option<String>)
    ensures
        r == *o,
{
    match o {
        Some(s) => Some(s.clone()),
        None => None,
    }
}

/// Character-for-character string equality.
pub fn str_eq(a: &str, b: &str) -> (r: bool)
    ensures
        r == (a@ == b@),
{
    let va = chars_of(a);
    let vb = chars_of(b);
    if va.len() != vb.len() {
        return false;
    }
    let n = va.len();
    let mut i: usize = 0;
    while i < n
        invariant
            i <= n,
            n == va@.len() == vb@.len(),
            va@ == a@,
            vb@ == b@,
            forall|t: int| 0 <= t < i ==> va@[t] == vb@[t],
        decreases n - i,
    {
        if va[i] != vb[i] {
            return false;
        }
        i = i + 1;
    }
    assert(a@ =~= b@);
    true
}

/// The character for one decimal digit value.
pub open spec fn dec_digit(d: nat) -> char
    recommends
        d < 10,
{
    if d == 0 {
        '0'
    } else if d == 1 {
        '1'
    } else if d == 2 {
        '2'
    } else if d == 3 {
        '3'
    } else if d == 4 {
        '4'
    } else if d == 5 {
        '5'
    } else if d == 6 {
        '6'
    } else if d == 7 {
        '7'
    } else if d == 8 {
        '8'
    } else {
        '9'
    }
}

/// `n` written in decimal, most significant digit first, no sign and no
/// leading zeros (a single `'0'` for zero).
pub open spec fn u64_dec(n: nat) -> Seq<char>
    decreases n,
{
    if n < 10 {
        seq![dec_digit(n)]
    } else {
        u64_dec(n / 10) + seq![dec_digit(n % 10)]
    }
}

pub open spec fn is_dec_digit(c: char) -> bool {
    ('0' as u32) <= (c as u32) && (c as u32) <= ('9' as u32)
}

pub open spec fn digit_val(c: char) -> nat {
    ((c as u32) - ('0' as u32)) as nat
}

/// The value of a string of digits, most significant first.
pub open spec fn dec_val(s: Seq<char>) -> nat
    decreases s.len(),
{
    if s.len() == 0 {
        0
    } else {
        dec_val(s.drop_last()) * 10 + digit_val(s.last())
    }
}

pub open spec fn all_digits(s: Seq<char>) -> bool {
    forall|i: int| 0 <= i < s.len() ==> is_dec_digit(#[trigger] s[i])
}

/// Decimal printing is faithful: the digits of `n` read back as `n`.
pub proof fn lemma_u64_dec_props(n: nat)
    ensures
        u64_dec(n).len() >= 1,
        all_digits(u64_dec(n)),
        dec_val(u64_dec(n)) == n,
    decreases n,
{
    if n < 10 {
        let s = u64_dec(n);
        assert(s.drop_last() =~= Seq::<char>::empty());
        assert(dec_val(Seq::<char>::empty()) == 0);
        assert(dec_val(s) == dec_val(s.drop_last()) * 10 + digit_val(s.last()));
        assert(s.last() == dec_digit(n));
        assert(digit_val(dec_digit(n)) == n);
    } else {
        lemma_u64_dec_props(n / 10);
        let s = u64_dec(n);
        assert(s.drop_last() =~= u64_dec(n / 10));
        assert(s.last() == dec_digit(n % 10));
        assert(digit_val(dec_digit(n % 10)) == n % 10);
        assert(dec_val(s) == (n / 10) * 10 + n % 10);
        assert((n / 10) * 10 + n % 10 == n) by (nonlinear_arith);
        assert forall|i: int| 0 <= i < s.len() implies is_dec_digit(#[trigger] s[i]) by {
            if i < s.len() - 1 {
                assert(s[i] == u64_dec(n / 10)[i]);
            } else {
                assert(s[i] == dec_digit(n % 10));
            }
        }
    }
}

/// Appends one digit character to `out`.
fn push_digit(out: &mut String, d: u8)
    requires
        d < 10,
    ensures
        final(out)@ == old(out)@ + seq![dec_digit(d as nat)],
{
    let s: &str = if d == 0 {
        "0"
    } else if d == 1 {
        "1"
    } else if d == 2 {
        "2"
    } else if d == 3 {
        "3"
    } else if d == 4 {
        "4"
    } else if d == 5 {
        "5"
    } else if d == 6 {
        "6"
    } else if d == 7 {
        "7"
    } else if d == 8 {
        "8"
    } else {
        "9"
    };
    proof {
        reveal_strlit("0");
        reveal_strlit("1");
        reveal_strlit("2");
        reveal_strlit("3");
        reveal_strlit("4");
        reveal_strlit("5");
        reveal_strlit("6");
        reveal_strlit("7");
        reveal_strlit("8");
        reveal_strlit("9");
        assert(s@ =~= seq![dec_digit(d as nat)]);
    }
    out.append(s);
}

/// The first position at or after `i` that does not hold a digit
/// (or the end of `s`).
pub open spec fn span_digits(s: Seq<char>, i: int) -> int
    decreases s.len() - i,
{
    if i < 0 || i >= s.len() || !is_dec_digit(s[i]) {
        i
    } else {
        span_digits(s, i + 1)
    }
}

pub proof fn lemma_span_digits(s: Seq<char>, i: int)
    requires
        0 <= i <= s.len(),
    ensures
        i <= span_digits(s, i) <= s.len(),
        forall|t: int| i <= t < span_digits(s, i) ==> is_dec_digit(#[trigger] s[t]),
        span_digits(s, i) < s.len() ==> !is_dec_digit(s[span_digits(s, i)]),
    decreases s.len() - i,
{
    if i < s.len() && is_dec_digit(s[i]) {
        lemma_span_digits(s, i + 1);
    }
}

/// Where the digit run ends is determined by the digits themselves.
pub proof fn lemma_span_digits_determined(s: Seq<char>, i: int, j: int)
    requires
        0 <= i <= j <= s.len(),
        forall|t: int| i <= t < j ==> is_dec_digit(#[trigger] s[t]),
        j == s.len() || !is_dec_digit(s[j]),
    ensures
        span_digits(s, i) == j,
    decreases j - i,
{
    if i < j {
        lemma_span_digits_determined(s, i + 1, j);
    }
}

/// Appending digits to the right never shrinks the value read.
pub proof fn lemma_dec_val_prefix(s: Seq<char>, i: int, j: int, k: int)
    requires
        0 <= i <= j <= k <= s.len(),
    ensures
        dec_val(s.subrange(i, j)) <= dec_val(s.subrange(i, k)),
    decreases k - j,
{
    if j < k {
        lemma_dec_val_prefix(s, i, j, k - 1);
        let a = s.subrange(i, k - 1);
        let b = s.subrange(i, k);
        assert(b.drop_last() =~= a);
        assert(dec_val(b) == dec_val(a) * 10 + digit_val(b.last()));
    }
}

/// A run of digits starting at `i`, read as a `u64`: the value and the
/// position just past the run. `None` when no digit starts at `i` or when
/// the run's value exceeds `u64::MAX`.
pub open spec fn parse_u64_at(s: Seq<char>, i: int) -> Option<(u64, int)> {
    let j = span_digits(s, i);
    if j == i {
        None
    } else {
        let v = dec_val(s.subrange(i, j));
        if v <= u64::MAX {
            Some(((v as u64), j))
        } else {
            None
        }
    }
}

/// Reading right after printing yields the number back: where `s` holds
/// the digits of `n` at `i`, followed by a non-digit or the end, the parse
/// returns `n` and stops right past the digits.
pub proof fn lemma_parse_of_dec(s: Seq<char>, i: int, n: u64)
    requires
        0 <= i,
        i + u64_dec(n as nat).len() <= s.len(),
        s.subrange(i, i + u64_dec(n as nat).len() as int) == u64_dec(n as nat),
        i + u64_dec(n as nat).len() == s.len() || !is_dec_digit(
            s[i + u64_dec(n as nat).len() as int],
        ),
    ensures
        parse_u64_at(s, i) == Some((n, i + u64_dec(n as nat).len() as int)),
{
    let d = u64_dec(n as nat);
    let j = i + d.len() as int;
    lemma_u64_dec_props(n as nat);
    assert forall|t: int| i <= t < j implies is_dec_digit(#[trigger] s[t]) by {
        assert(s[t] == s.subrange(i, j)[t - i]);
    }
    lemma_span_digits_determined(s, i, j);
    assert(s.subrange(i, j) == d);
    assert(dec_val(s.subrange(i, j)) == n);
}

/// The digit value of `c`, when `c` is a decimal digit.
pub fn digit_of(c: char) -> (r: Option<u8>)
    ensures
        match r {
            Some(d) => is_dec_digit(c) && d < 10 && digit_val(c) == d,
            None => !is_dec_digit(c),
        },
{
    match c {
        '0' => Some(0),
        '1' => Some(1),
        '2' => Some(2),
        '3' => Some(3),
        '4' => Some(4),
        '5' => Some(5),
        '6' => Some(6),
        '7' => Some(7),
        '8' => Some(8),
        '9' => Some(9),
        _ => None,
    }
}

/// Reads the digit run starting at `start`, as `parse_u64_at` describes.
pub fn parse_u64(v: &Vec<char>, start: usize) -> (r: Option<(u64, usize)>)
    requires
        start <= v@.len(),
    ensures
        match r {
            Some(p) => {
                &&& parse_u64_at(v@, start as int) == Some((p.0, p.1 as int))
                &&& start < p.1 <= v@.len()
            },
            None => parse_u64_at(v@, start as int) is None,
        },
{
    proof {
        lemma_span_digits(v@, start as int);
    }
    let ghost span = span_digits(v@, start as int);
    let n = v.len();
    let mut acc: u64 = 0;
    let mut j: usize = start;
    loop
        invariant
            start <= j <= n,
            n == v@.len(),
            span == span_digits(v@, start as int),
            start <= span <= n,
            j <= span,
            forall|t: int| start <= t < span ==> is_dec_digit(#[trigger] v@[t]),
            span < n ==> !is_dec_digit(v@[span]),
            acc == dec_val(v@.subrange(start as int, j as int)),
        decreases n - j,
    {
        let run_over = if j == n {
            true
        } else {
            digit_of(v[j]).is_none()
        };
        if run_over {
            assert(j == span) by {
                if j < span {
                    assert(is_dec_digit(v@[j as int]));
                }
            }
            if j == start {
                proof {
                    lemma_span_digits_determined(v@, start as int, start as int);
                }
                return None;
            }
            return Some((acc, j));
        }
        let d = match digit_of(v[j]) {
            Some(d) => d,
            None => {
                assert(false);
                return None;
            },
        };
        assert(j < span) by {
            if span <= j {
                assert(!is_dec_digit(v@[span as int]));
                assert(is_dec_digit(v@[j as int]));
            }
        }
        let shifted = match acc.checked_mul(10) {
            Some(x) => x,
            None => {
                proof {
                    overflow_means_none(v@, start as int, j as int, span, acc as nat, d as nat);
                }
                return None;
            },
        };
        let next = match shifted.checked_add(d as u64) {
            Some(x) => x,
            None => {
                proof {
                    overflow_means_none(v@, start as int, j as int, span, acc as nat, d as nat);
                }
                return None;
            },
        };
        acc = next;
        j = j + 1;
        assert(v@.subrange(start as int, j as int).drop_last() =~= v@.subrange(
            start as int,
            j - 1,
        ));
    }
}

/// A value of more than `u64::MAX` read mid-run means the whole run
/// overflows, so the parse is `None`.
proof fn overflow_means_none(s: Seq<char>, start: int, j: int, span: int, acc: nat, d: nat)
    requires
        0 <= start <= j < span <= s.len(),
        span == span_digits(s, start),
        forall|t: int| start <= t < span ==> is_dec_digit(#[trigger] s[t]),
        acc == dec_val(s.subrange(start, j)),
        d == digit_val(s[j]),
        acc * 10 + d > u64::MAX,
    ensures
        parse_u64_at(s, start) is None,
{
    let one_more = s.subrange(start, j + 1);
    assert(one_more.drop_last() =~= s.subrange(start, j));
    assert(dec_val(one_more) == acc * 10 + d);
    lemma_dec_val_prefix(s, start, j + 1, span);
}

/// Appends `n` in decimal to `out`.
pub fn push_dec(out: &mut String, n: u64)
    ensures
        final(out)@ == old(out)@ + u64_dec(n as nat),
    decreases n,
{
    if n >= 10 {
        push_dec(out, n / 10);
        push_digit(out, (n % 10) as u8);
        assert(final(out)@ =~= old(out)@ + u64_dec(n as nat));
    } else {
        push_digit(out, n as u8);
    }
}

} // verus!
