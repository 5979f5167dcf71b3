//! Operations on text that the rest of the library builds on: comparing,
//! joining, trimming, splitting into lines, and reading numbers.

use vstd::prelude::*;
use vstd::string::*;

verus! {

/// Whether a character is whitespace: a character with the Unicode property
/// `White_Space`.
pub open spec fn is_space(c: char) -> bool {
    let code = c as u32;
    ||| 0x09 <= code <= 0x0D
    ||| code == 0x20
    ||| code == 0x85
    ||| code == 0xA0
    ||| code == 0x1680
    ||| 0x2000 <= code <= 0x200A
    ||| code == 0x2028
    ||| code == 0x2029
    ||| code == 0x202F
    ||| code == 0x205F
    ||| code == 0x3000
}

/// The index of the first character, from `from` on, that is no whitespace;
/// the length of the text where there is none.
pub open spec fn first_kept(s: Seq<char>, from: int) -> int
    decreases s.len() - from,
{
    if from < 0 || from >= s.len() || !is_space(s[from]) {
        from
    } else {
        first_kept(s, from + 1)
    }
}

/// The index after the last character, before `upto`, that is no
/// whitespace; 0 where there is none.
pub open spec fn last_kept(s: Seq<char>, upto: int) -> int
    decreases upto,
{
    if upto <= 0 || upto > s.len() || !is_space(s[upto - 1]) {
        upto
    } else {
        last_kept(s, upto - 1)
    }
}

/// The text that remains of `s` once leading and trailing whitespace is removed.
pub open spec fn trimmed(s: Seq<char>) -> Seq<char> {
    let from = first_kept(s, 0);
    let upto = last_kept(s, s.len() as int);
    if from >= upto {
        Seq::empty()
    } else {
        s.subrange(from, upto)
    }
}

/// The index of the first line feed from `from` on; the length of the text
/// where there is none.
pub open spec fn line_end(s: Seq<char>, from: int) -> int
    decreases s.len() - from,
{
    if from < 0 || from >= s.len() || s[from] == '\n' {
        from
    } else {
        line_end(s, from + 1)
    }
}

/// The line that begins at `from`: what stands before the next line feed,
/// or up to the end of the text; without the carriage return before the
/// line feed, where there is one.
pub open spec fn line_at(s: Seq<char>, from: int) -> Seq<char> {
    let end = line_end(s, from);
    if from < end < s.len() && s[end - 1] == '\r' {
        s.subrange(from, end - 1)
    } else {
        s.subrange(from, end)
    }
}

/// The lines of the text from `from` on.
pub open spec fn lines_from(s: Seq<char>, from: int) -> Seq<Seq<char>>
    decreases s.len() - from,
{
    if from < 0 || from >= s.len() || line_end(s, from) < from {
        Seq::empty()
    } else if line_end(s, from) >= s.len() {
        seq![line_at(s, from)]
    } else {
        seq![line_at(s, from)] + lines_from(s, line_end(s, from) + 1)
    }
}

/// The lines of `s`, each without its line ending: a line ends with a line
/// feed, which a carriage return may precede, and the last line also with
/// the text.
pub open spec fn lines_text(s: Seq<char>) -> Seq<Seq<char>> {
    lines_from(s, 0)
}

/// The value of a decimal digit.
pub open spec fn digit_value(c: char) -> Option<int> {
    let code = c as u32;
    if 0x30 <= code <= 0x39 {
        Some(code - 0x30)
    } else {
        None
    }
}

/// The number that a sequence of decimal digits writes; `None` where one of
/// the characters is no digit.
pub open spec fn number_of(digits: Seq<char>) -> Option<int>
    decreases digits.len(),
{
    if digits.len() == 0 {
        Some(0)
    } else {
        match (number_of(digits.drop_last()), digit_value(digits.last())) {
            (Some(high), Some(low)) => Some(10 * high + low),
            _ => None,
        }
    }
}

/// The digits of a decimal notation: what follows its sign, where it has one.
pub open spec fn digits_of(s: Seq<char>) -> Seq<char> {
    if s.len() > 0 && (s[0] == '-' || s[0] == '+') {
        s.drop_first()
    } else {
        s
    }
}

/// The number that `s` is the decimal notation of, if it is one of a
/// 32-bit signed integer: an optional sign and at least one digit, nothing
/// else, and a value in range.
pub open spec fn parsed_i32(s: Seq<char>) -> Option<i32> {
    let digits = digits_of(s);
    if digits.len() == 0 {
        None
    } else {
        match number_of(digits) {
            Some(v) => {
                let value = if s[0] == '-' {
                    -v
                } else {
                    v
                };
                if i32::MIN <= value <= i32::MAX {
                    Some(value as i32)
                } else {
                    None
                }
            },
            None => None,
        }
    }
}

/// The first line of `s`, if `s` has any line.
pub open spec fn first_line_of(s: Seq<char>) -> Option<Seq<char>> {
    if lines_text(s).len() > 0 {
        Some(lines_text(s)[0])
    } else {
        None
    }
}

/// Whether `s` begins with `prefix`.
pub open spec fn begins_with(s: Seq<char>, prefix: Seq<char>) -> bool {
    prefix.len() <= s.len() && s.subrange(0, prefix.len() as int) == prefix
}

/// What follows `prefix` in `s`, where `s` begins with it.
pub open spec fn after_prefix(s: Seq<char>, prefix: Seq<char>) -> Option<Seq<char>> {
    if begins_with(s, prefix) {
        Some(s.subrange(prefix.len() as int, s.len() as int))
    } else {
        None
    }
}

/// The view of an optional string.
pub open spec fn opt_text(s: Option<String>) -> Option<Seq<char>> {
    match s {
        Some(t) => Some(t@),
        None => None,
    }
}

/// The view of an optional string slice.
pub open spec fn opt_str(s: Option<&str>) -> Option<Seq<char>> {
    match s {
        Some(t) => Some(t@),
        None => None,
    }
}

/// Whether `a` comes before `b` when texts are ordered character by
/// character, each character by its code point, a text before any text that
/// it begins.
pub open spec fn text_before(a: Seq<char>, b: Seq<char>) -> bool
    decreases a.len(),
{
    if b.len() == 0 {
        false
    } else if a.len() == 0 {
        true
    } else if a[0] != b[0] {
        (a[0] as u32) < (b[0] as u32)
    } else {
        text_before(a.drop_first(), b.drop_first())
    }
}

/// Where two texts agree on their first `i` characters, they are ordered
/// as what follows those characters is.
pub proof fn lemma_text_before_skips(a: Seq<char>, b: Seq<char>, i: int)
    requires
        0 <= i <= a.len(),
        i <= b.len(),
        a.subrange(0, i) == b.subrange(0, i),
    ensures
        text_before(a, b) == text_before(a.skip(i), b.skip(i)),
    decreases i,
{
    if i == 0 {
        assert(a.skip(0) =~= a);
        assert(b.skip(0) =~= b);
    } else {
        assert(a[0] == a.subrange(0, i)[0]);
        assert(b[0] == b.subrange(0, i)[0]);
        assert(a.drop_first().subrange(0, i - 1) =~= a.subrange(0, i).drop_first());
        assert(b.drop_first().subrange(0, i - 1) =~= b.subrange(0, i).drop_first());
        lemma_text_before_skips(a.drop_first(), b.drop_first(), i - 1);
        assert(a.drop_first().skip(i - 1) =~= a.skip(i));
        assert(b.drop_first().skip(i - 1) =~= b.skip(i));
    }
}

/// Whether `a` comes before `b` in the order of texts.
pub fn str_lt(a: &str, b: &str) -> (res: bool)
    ensures
        res == text_before(a@, b@),
{
    let m = a.unicode_len();
    let n = b.unicode_len();
    let mut i: usize = 0;
    while i < m && i < n
        invariant
            m == a@.len(),
            n == b@.len(),
            i <= m,
            i <= n,
            a@.subrange(0, i as int) == b@.subrange(0, i as int),
        decreases m - i,
    {
        let x = a.get_char(i);
        let y = b.get_char(i);
        if x != y {
            proof {
                lemma_text_before_skips(a@, b@, i as int);
            }
            return (x as u32) < (y as u32);
        }
        assert(a@.subrange(0, i + 1) =~= a@.subrange(0, i as int).push(a@[i as int]));
        assert(b@.subrange(0, i + 1) =~= b@.subrange(0, i as int).push(b@[i as int]));
        i = i + 1;
    }
    proof {
        lemma_text_before_skips(a@, b@, i as int);
    }
    i < n
}

/// Whether two string slices hold the same characters.
pub fn str_eq(a: &str, b: &str) -> (res: bool)
    ensures
        res == (a@ == b@),
{
    a.to_owned() == b.to_owned()
}

/// Whether a character is whitespace.
pub fn char_is_space(c: char) -> (res: bool)
    ensures
        res == is_space(c),
{
    let code = c as u32;
    (0x09 <= code && code <= 0x0D) || code == 0x20 || code == 0x85 || code == 0xA0 || code
        == 0x1680 || (0x2000 <= code && code <= 0x200A) || code == 0x2028 || code == 0x2029
        || code == 0x202F || code == 0x205F || code == 0x3000
}

/// A text without its leading and trailing whitespace.
pub fn trim_text(s: &str) -> (res: String)
    ensures
        res@ == trimmed(s@),
{
    let n = s.unicode_len();
    let mut from: usize = 0;
    while from < n && char_is_space(s.get_char(from))
        invariant
            n == s@.len(),
            from <= n,
            first_kept(s@, 0) == first_kept(s@, from as int),
        decreases n - from,
    {
        from = from + 1;
    }
    if from == n {
        proof {
            reveal_strlit("");
            assert(""@ =~= Seq::<char>::empty());
            lemma_last_kept_bounds(s@, n as int);
        }
        return "".to_owned();
    }
    let mut upto: usize = n;
    while upto > from + 1 && char_is_space(s.get_char(upto - 1))
        invariant
            n == s@.len(),
            from < upto <= n,
            !is_space(s@[from as int]),
            last_kept(s@, n as int) == last_kept(s@, upto as int),
        decreases upto,
    {
        upto = upto - 1;
    }
    s.substring_char(from, upto).to_owned()
}

/// What is kept of a text never reaches beyond the text.
pub proof fn lemma_last_kept_bounds(s: Seq<char>, upto: int)
    requires
        0 <= upto <= s.len(),
    ensures
        0 <= last_kept(s, upto) <= upto,
    decreases upto,
{
    if upto > 0 && is_space(s[upto - 1]) {
        lemma_last_kept_bounds(s, upto - 1);
    }
}

/// The lines of a text, each without its line ending.
pub fn lines_of(s: &str) -> (res: Vec<String>)
    ensures
        crate::paths::text_views(res@) == lines_text(s@),
{
    let n = s.unicode_len();
    let mut out: Vec<String> = Vec::new();
    let mut from: usize = 0;
    assert(crate::paths::text_views(out@) + lines_from(s@, 0) =~= lines_text(s@));
    while from < n
        invariant
            n == s@.len(),
            from <= n,
            crate::paths::text_views(out@) + lines_from(s@, from as int) == lines_text(s@),
        decreases n - from,
    {
        let mut end: usize = from;
        while end < n && s.get_char(end) != '\n'
            invariant
                n == s@.len(),
                from <= end <= n,
                line_end(s@, from as int) == line_end(s@, end as int),
            decreases n - end,
        {
            end = end + 1;
        }
        let stop = if from < end && end < n && s.get_char(end - 1) == '\r' {
            end - 1
        } else {
            end
        };
        let line = s.substring_char(from, stop).to_owned();
        let ghost before = crate::paths::text_views(out@);
        out.push(line);
        proof {
            assert(line_end(s@, from as int) == end);
            assert(line@ == line_at(s@, from as int));
            assert(crate::paths::text_views(out@) =~= before.push(line@));
            assert(lines_from(s@, end + 1) =~= Seq::<Seq<char>>::empty() || end < n);
            assert(lines_from(s@, from as int) =~= seq![line@] + lines_from(s@, end + 1));
            assert(before.push(line@) + lines_from(s@, end + 1) =~= before + lines_from(
                s@,
                from as int,
            ));
        }
        if end < n {
            from = end + 1;
        } else {
            from = n;
        }
    }
    assert(lines_from(s@, from as int) =~= Seq::<Seq<char>>::empty());
    assert(crate::paths::text_views(out@) + Seq::<Seq<char>>::empty() =~= crate::paths::text_views(
        out@,
    ));
    out
}

/// The digits written so far never write more than all of them.
pub proof fn lemma_number_grows(digits: Seq<char>, i: int)
    requires
        0 <= i <= digits.len(),
        number_of(digits) is Some,
    ensures
        number_of(digits.take(i)) is Some,
        0 <= number_of(digits.take(i))->0 <= number_of(digits)->0,
    decreases digits.len() - i,
{
    if i == digits.len() {
        assert(digits.take(i) =~= digits);
        lemma_number_is_natural(digits);
    } else {
        lemma_number_grows(digits, i + 1);
        assert(digits.take(i + 1).drop_last() =~= digits.take(i));
    }
}

/// A sequence of digits writes no negative number.
pub proof fn lemma_number_is_natural(digits: Seq<char>)
    requires
        number_of(digits) is Some,
    ensures
        number_of(digits)->0 >= 0,
    decreases digits.len(),
{
    if digits.len() > 0 {
        lemma_number_is_natural(digits.drop_last());
    }
}

/// The value of a decimal digit.
pub fn digit(c: char) -> (res: Option<u8>)
    ensures
        match res {
            Some(d) => digit_value(c) == Some(d as int) && d <= 9,
            None => digit_value(c) is None,
        },
{
    let code = c as u32;
    if 0x30 <= code && code <= 0x39 {
        Some((code - 0x30) as u8)
    } else {
        None
    }
}

/// The number that a text is the decimal notation of, if it is one of a
/// 32-bit signed integer.
pub fn parse_i32(s: &str) -> (res: Option<i32>)
    ensures
        res == parsed_i32(s@),
{
    let n = s.unicode_len();
    if n == 0 {
        return None;
    }
    let first = s.get_char(0);
    let negative = first == '-';
    let start: usize = if first == '-' || first == '+' {
        1
    } else {
        0
    };
    if start == n {
        return None;
    }
    let ghost digits = digits_of(s@);
    assert(digits =~= s@.skip(start as int));
    let mut value: i64 = 0;
    let mut i: usize = start;
    assert(digits.take(0) =~= Seq::<char>::empty());
    while i < n
        invariant
            n == s@.len(),
            n > 0,
            start <= i <= n,
            start < n,
            digits == digits_of(s@),
            digits == s@.skip(start as int),
            negative == (s@[0] == '-'),
            number_of(digits.take(i - start)) == Some(value as int),
            0 <= value <= 2147483648,
        decreases n - i,
    {
        let c = s.get_char(i);
        let ghost k = i - start;
        proof {
            assert(digits.take(k + 1).drop_last() =~= digits.take(k));
            assert(digits.take(k + 1).last() == s@[i as int]);
        }
        match digit(c) {
            None => {
                proof {
                    assert(number_of(digits.take(k + 1)) is None);
                    if number_of(digits) is Some {
                        lemma_number_grows(digits, k + 1);
                    }
                    assert(number_of(digits) is None);
                }
                return None;
            },
            Some(d) => {
                value = value * 10 + d as i64;
                assert(number_of(digits.take(k + 1)) == Some(value as int));
                if value > 2147483648 {
                    proof {
                        if number_of(digits) is Some {
                            lemma_number_grows(digits, k + 1);
                        }
                    }
                    return None;
                }
            },
        }
        i = i + 1;
    }
    assert(digits.take(n - start) =~= digits);
    if negative {
        Some((-value) as i32)
    } else if value <= 2147483647 {
        Some(value as i32)
    } else {
        None
    }
}

/// What follows `prefix` in `s`, where `s` begins with it.
pub fn strip_prefix(s: &str, prefix: &str) -> (res: Option<String>)
    ensures
        opt_text(res) == after_prefix(s@, prefix@),
{
    let n = s.unicode_len();
    let m = prefix.unicode_len();
    if m > n {
        return None;
    }
    if str_eq(s.substring_char(0, m), prefix) {
        Some(s.substring_char(m, n).to_owned())
    } else {
        None
    }
}

/// `s` with every backslash doubled.
pub open spec fn backslashes_doubled(s: Seq<char>) -> Seq<char>
    decreases s.len(),
{
    if s.len() == 0 {
        Seq::empty()
    } else if s.last() == '\\' {
        backslashes_doubled(s.drop_last()) + seq!['\\', '\\']
    } else {
        backslashes_doubled(s.drop_last()).push(s.last())
    }
}

/// `s` with every backslash doubled, as a script needs a path written.
pub fn double_backslashes(s: &str) -> (res: String)
    ensures
        res@ == backslashes_doubled(s@),
{
    let n = s.unicode_len();
    let mut out = "".to_owned();
    let mut i: usize = 0;
    proof {
        reveal_strlit("");
        assert(s@.take(0) =~= Seq::<char>::empty());
        assert(out@ =~= Seq::<char>::empty());
    }
    while i < n
        invariant
            n == s@.len(),
            i <= n,
            out@ == backslashes_doubled(s@.take(i as int)),
        decreases n - i,
    {
        let c = s.substring_char(i, i + 1);
        proof {
            reveal_strlit("\\");
            reveal_strlit("\\\\");
            assert(c@ =~= seq![s@[i as int]]);
            assert(s@.take(i + 1).drop_last() =~= s@.take(i as int));
            assert(s@.take(i + 1).last() == s@[i as int]);
            assert("\\"@ =~= seq!['\\']);
            assert("\\\\"@ =~= seq!['\\', '\\']);
        }
        let ghost before = out@;
        if str_eq(c, "\\") {
            out.append("\\\\");
            assert(c@[0] == "\\"@[0]);
            assert(s@[i as int] == '\\');
            assert(out@ =~= before + seq!['\\', '\\']);
        } else {
            out.append(c);
            assert(c@ != seq!['\\']);
            assert(s@[i as int] != '\\');
            assert(out@ =~= before.push(s@[i as int]));
        }
        i = i + 1;
    }
    assert(s@.take(n as int) =~= s@);
    out
}

/// The first line of a text, if it has any line.
pub fn first_line(s: &str) -> (res: Option<String>)
    ensures
        opt_text(res) == first_line_of(s@),
{
    let lines = lines_of(s);
    if lines.len() > 0 {
        assert(crate::paths::text_views(lines@)[0] == lines[0]@);
        Some(lines[0].clone())
    } else {
        None
    }
}

/// `a` followed by `b`.
pub fn concat2(a: &str, b: &str) -> (res: String)
    ensures
        res@ == a@ + b@,
{
    let mut out = a.to_owned();
    out.append(b);
    out
}

/// `a`, `b` and `c` in a row.
pub fn concat3(a: &str, b: &str, c: &str) -> (res: String)
    ensures
        res@ == a@ + b@ + c@,
{
    let mut out = a.to_owned();
    out.append(b);
    out.append(c);
    out
}

/// No text comes before itself.
pub proof fn lemma_text_before_irreflexive(a: Seq<char>)
    ensures
        !text_before(a, a),
    decreases a.len(),
{
    if a.len() > 0 {
        lemma_text_before_irreflexive(a.drop_first());
    }
}

/// The order of texts is transitive.
pub proof fn lemma_text_before_transitive(a: Seq<char>, b: Seq<char>, c: Seq<char>)
    requires
        text_before(a, b),
        text_before(b, c),
    ensures
        text_before(a, c),
    decreases a.len(),
{
    if a.len() > 0 && b.len() > 0 && c.len() > 0 {
        if a[0] == b[0] && b[0] == c[0] {
            lemma_text_before_transitive(a.drop_first(), b.drop_first(), c.drop_first());
        }
    }
}

} // verus!
