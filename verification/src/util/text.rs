//! Text as sequences of characters: the operations the parsers are stated in.
//!
//! Every function here has a specification over `Seq<char>`; the executable
//! versions work on `Vec<char>` so that a whole file is walked once.

use vstd::prelude::*;

verus! {

/// The characters with Unicode's `White_Space` property: what trimming removes.
pub open spec fn is_whitespace(c: char) -> bool {
    let u = c as u32;
    ||| 0x09 <= u <= 0x0D
    ||| u == 0x20
    ||| u == 0x85
    ||| u == 0xA0
    ||| u == 0x1680
    ||| 0x2000 <= u <= 0x200A
    ||| u == 0x2028
    ||| u == 0x2029
    ||| u == 0x202F
    ||| u == 0x205F
    ||| u == 0x3000
}

/// Index of the first character at or after `from` that is no whitespace
/// (`s.len()` if there is none).
pub open spec fn skip_whitespace(s: Seq<char>, from: int) -> int
    decreases s.len() - from,
{
    if 0 <= from < s.len() && is_whitespace(s[from]) {
        skip_whitespace(s, from + 1)
    } else {
        from
    }
}

/// End of the text that is left of `s[from..to]` once trailing whitespace is
/// dropped.
pub open spec fn drop_trailing_whitespace(s: Seq<char>, from: int, to: int) -> int
    decreases to - from,
{
    if from < to <= s.len() && is_whitespace(s[to - 1]) {
        drop_trailing_whitespace(s, from, to - 1)
    } else {
        to
    }
}

/// `s` without leading and trailing whitespace.
pub open spec fn trimmed(s: Seq<char>) -> Seq<char> {
    let start = skip_whitespace(s, 0);
    s.subrange(start, drop_trailing_whitespace(s, start, s.len() as int))
}

/// Index of the first line feed at or after `from` (`s.len()` if there is none).
pub open spec fn line_end(s: Seq<char>, from: int) -> int
    decreases s.len() - from,
{
    if 0 <= from < s.len() && s[from] != '\n' {
        line_end(s, from + 1)
    } else {
        from
    }
}

/// A line without the carriage return that stood before its line feed.
pub open spec fn without_carriage_return(line: Seq<char>) -> Seq<char> {
    if line.len() > 0 && line.last() == '\r' {
        line.drop_last()
    } else {
        line
    }
}

/// The lines of `s[from..]`. A line ends at a line feed, or at a carriage
/// return followed by one; the last line needs no ending.
pub open spec fn lines_from(s: Seq<char>, from: int) -> Seq<Seq<char>>
    decreases s.len() - from,
{
    if from < 0 || from >= s.len() {
        Seq::empty()
    } else {
        let end = line_end(s, from);
        if end < from {
            Seq::empty()
        } else if end >= s.len() {
            seq![s.subrange(from, s.len() as int)]
        } else {
            seq![without_carriage_return(s.subrange(from, end))] + lines_from(s, end + 1)
        }
    }
}

/// The physical lines of a text.
pub open spec fn lines_of(s: Seq<char>) -> Seq<Seq<char>> {
    lines_from(s, 0)
}

/// Whether `pattern` occurs in `s` as a contiguous run.
pub open spec fn contains_run(s: Seq<char>, pattern: Seq<char>) -> bool {
    exists|i: int| occurs_at(s, pattern, i)
}

/// Whether `pattern` stands in `s` at index `i`.
pub open spec fn occurs_at(s: Seq<char>, pattern: Seq<char>, i: int) -> bool {
    0 <= i && i + pattern.len() <= s.len() && s.subrange(i, i + pattern.len()) == pattern
}

/// The items of `parts` with `separator` between each two neighbours.
pub open spec fn joined(parts: Seq<Seq<char>>, separator: Seq<char>) -> Seq<char>
    decreases parts.len(),
{
    if parts.len() == 0 {
        Seq::empty()
    } else if parts.len() == 1 {
        parts[0]
    } else {
        joined(parts.drop_last(), separator) + separator + parts.last()
    }
}

/// The character of a decimal digit.
pub open spec fn digit_char(d: nat) -> char {
    if d == 0 {
        '0'
    } else if d == 1 {
        '1'
    } else if d == 2 {
        '2'
    } else if d == 3 {
        '3'
    } else if d == 4 {
        '4'
    } else if d == 5 {
        '5'
    } else if d == 6 {
        '6'
    } else if d == 7 {
        '7'
    } else if d == 8 {
        '8'
    } else {
        '9'
    }
}

/// A number in decimal, without leading zeros.
pub open spec fn decimal_digits(n: nat) -> Seq<char>
    decreases n,
{
    if n < 10 {
        seq![digit_char(n)]
    } else {
        decimal_digits(n / 10).push(digit_char(n % 10))
    }
}

/// A character with an ASCII capital letter turned into its small letter.
pub open spec fn ascii_lower_char(c: char) -> char {
    if 'A' <= c <= 'Z' {
        ((c as u8) + 32) as char
    } else {
        c
    }
}

/// A text with its ASCII capital letters turned into small letters.
pub open spec fn ascii_lowercase(s: Seq<char>) -> Seq<char> {
    Seq::new(s.len(), |i: int| ascii_lower_char(s[i]))
}

/// A joined text is empty only if there is nothing to join, or one empty item.
pub proof fn lemma_joined_empty(parts: Seq<Seq<char>>, separator: Seq<char>)
    requires
        separator.len() > 0,
    ensures
        joined(parts, separator).len() == 0 <==> (parts.len() == 0 || (parts.len() == 1
            && parts[0].len() == 0)),
{
}

/// `s[from..]` with every backslash that is followed by `n` turned, together
/// with that `n`, into one line feed; pairs are taken from the left.
pub open spec fn unescaped_from(s: Seq<char>, from: int) -> Seq<char>
    decreases s.len() - from,
{
    if from < 0 || from >= s.len() {
        Seq::empty()
    } else if from + 1 < s.len() && s[from] == '\\' && s[from + 1] == 'n' {
        seq!['\n'] + unescaped_from(s, from + 2)
    } else {
        seq![s[from]] + unescaped_from(s, from + 1)
    }
}

/// A text with its two-character newline escapes turned into line feeds.
pub open spec fn unescaped(s: Seq<char>) -> Seq<char> {
    unescaped_from(s, 0)
}

/// The views of a vector of character vectors.
pub open spec fn line_views(lines: Seq<Vec<char>>) -> Seq<Seq<char>> {
    Seq::new(lines.len(), |i: int| lines[i]@)
}

/// The views of a vector of strings.
pub open spec fn string_views(strings: Seq<String>) -> Seq<Seq<char>> {
    Seq::new(strings.len(), |i: int| strings[i]@)
}

/// Where leading whitespace ends: everything before that index is whitespace,
/// and what stands at it is none.
pub proof fn lemma_skip_whitespace_bounds(s: Seq<char>, from: int)
    requires
        0 <= from <= s.len(),
    ensures
        from <= skip_whitespace(s, from) <= s.len(),
        forall|i: int| from <= i < skip_whitespace(s, from) ==> is_whitespace(s[i]),
        skip_whitespace(s, from) < s.len() ==> !is_whitespace(s[skip_whitespace(s, from)]),
    decreases s.len() - from,
{
    if from < s.len() && is_whitespace(s[from]) {
        lemma_skip_whitespace_bounds(s, from + 1);
    }
}

/// Where trailing whitespace begins: everything from that index on is
/// whitespace, and what stands before it is none.
pub proof fn lemma_drop_trailing_whitespace_bounds(s: Seq<char>, from: int, to: int)
    requires
        0 <= from <= to <= s.len(),
    ensures
        from <= drop_trailing_whitespace(s, from, to) <= to,
        forall|i: int|
            drop_trailing_whitespace(s, from, to) <= i < to ==> is_whitespace(s[i]),
        from < drop_trailing_whitespace(s, from, to) ==> !is_whitespace(
            s[drop_trailing_whitespace(s, from, to) - 1],
        ),
    decreases to - from,
{
    if from < to && is_whitespace(s[to - 1]) {
        lemma_drop_trailing_whitespace_bounds(s, from, to - 1);
    }
}

/// Where a line ends: no line feed stands before that index, and one stands
/// at it unless the text ends there.
pub proof fn lemma_line_end_bounds(s: Seq<char>, from: int)
    requires
        0 <= from <= s.len(),
    ensures
        from <= line_end(s, from) <= s.len(),
        forall|i: int| from <= i < line_end(s, from) ==> s[i] != '\n',
        line_end(s, from) < s.len() ==> s[line_end(s, from)] == '\n',
    decreases s.len() - from,
{
    if from < s.len() && s[from] != '\n' {
        lemma_line_end_bounds(s, from + 1);
    }
}

/// A trimmed text neither begins nor ends with whitespace, and trimming it
/// again changes nothing.
pub proof fn lemma_trimmed_is_tight(s: Seq<char>)
    ensures
        trimmed(s).len() > 0 ==> !is_whitespace(trimmed(s).first()) && !is_whitespace(
            trimmed(s).last(),
        ),
        trimmed(trimmed(s)) == trimmed(s),
{
    let start = skip_whitespace(s, 0);
    lemma_skip_whitespace_bounds(s, 0);
    lemma_drop_trailing_whitespace_bounds(s, start, s.len() as int);
    let end = drop_trailing_whitespace(s, start, s.len() as int);
    let t = trimmed(s);
    if t.len() > 0 {
        assert(t.first() == s[start]);
        assert(t.last() == s[end - 1]);
        assert(skip_whitespace(t, 0) == 0);
        assert(drop_trailing_whitespace(t, 0, t.len() as int) == t.len());
        assert(t.subrange(0, t.len() as int) =~= t);
    } else {
        assert(skip_whitespace(t, 0) == 0);
        assert(drop_trailing_whitespace(t, 0, 0) == 0);
        assert(t.subrange(0, 0) =~= t);
    }
}

/// No line holds a line feed.
pub proof fn lemma_lines_hold_no_line_feed(s: Seq<char>, from: int)
    requires
        0 <= from <= s.len(),
    ensures
        forall|k: int, i: int|
            0 <= k < lines_from(s, from).len() && 0 <= i < lines_from(s, from)[k].len()
                ==> lines_from(s, from)[k][i] != '\n',
    decreases s.len() - from,
{
    if from < s.len() {
        lemma_line_end_bounds(s, from);
        let end = line_end(s, from);
        if end < s.len() {
            lemma_lines_hold_no_line_feed(s, end + 1);
            let first = without_carriage_return(s.subrange(from, end));
            let rest = lines_from(s, end + 1);
            assert(lines_from(s, from) == seq![first] + rest);
            assert forall|k: int, i: int|
                0 <= k < lines_from(s, from).len() && 0 <= i < lines_from(s, from)[k].len()
                    implies lines_from(s, from)[k][i] != '\n' by {
                if k == 0 {
                    assert(first[i] == s[from + i]);
                } else {
                    assert(lines_from(s, from)[k] == rest[k - 1]);
                }
            }
        }
    }
}

/// Whether `c` is whitespace.
pub fn char_is_whitespace(c: char) -> (b: bool)
    ensures
        b == is_whitespace(c),
{
    let u: u32 = c as u32;
    (0x09 <= u && u <= 0x0D) || u == 0x20 || u == 0x85 || u == 0xA0 || u == 0x1680 || (0x2000 <= u
        && u <= 0x200A) || u == 0x2028 || u == 0x2029 || u == 0x202F || u == 0x205F || u == 0x3000
}

/// The characters of `s`, in order.
pub fn chars_of(s: &str) -> (v: Vec<char>)
    ensures
        v@ == s@,
{
    let mut v: Vec<char> = Vec::new();
    for c in it: s.chars()
        invariant
            v@ == it.seq().take(it.index() as int),
            it.seq() == s@,
    {
        v.push(c);
    }
    v
}

/// `String::push` of std: it appends the one character to the string.
#[verifier::external_body]
fn push_char(s: &mut String, c: char)
    ensures
        final(s)@ == old(s)@.push(c),
{
    s.push(c)
}

/// The string made of the characters `v[from..to]`.
pub fn string_of_range(v: &Vec<char>, from: usize, to: usize) -> (s: String)
    requires
        from <= to <= v.len(),
    ensures
        s@ == v@.subrange(from as int, to as int),
{
    let mut s = String::new();
    let mut i: usize = from;
    while i < to
        invariant
            from <= i <= to <= v.len(),
            s@ == v@.subrange(from as int, i as int),
        decreases to - i,
    {
        push_char(&mut s, v[i]);
        i += 1;
    }
    s
}

/// The string made of the characters of `v`.
pub fn string_of(v: &Vec<char>) -> (s: String)
    ensures
        s@ == v@,
{
    string_of_range(v, 0, v.len())
}

/// A copy of `v[from..to]`.
pub fn copy_range(v: &Vec<char>, from: usize, to: usize) -> (r: Vec<char>)
    requires
        from <= to <= v.len(),
    ensures
        r@ == v@.subrange(from as int, to as int),
{
    let mut r: Vec<char> = Vec::new();
    let mut i: usize = from;
    while i < to
        invariant
            from <= i <= to <= v.len(),
            r@ == v@.subrange(from as int, i as int),
        decreases to - i,
    {
        r.push(v[i]);
        i += 1;
    }
    r
}

/// Whether `pattern` stands in `v` at index `i`.
pub fn occurs(v: &Vec<char>, pattern: &Vec<char>, i: usize) -> (b: bool)
    requires
        i + pattern.len() <= v.len(),
    ensures
        b == occurs_at(v@, pattern@, i as int),
{
    let m = pattern.len();
    let mut k: usize = 0;
    while k < m
        invariant
            k <= m == pattern.len(),
            i + m <= v.len(),
            forall|t: int| 0 <= t < k ==> v@[i + t] == pattern@[t],
        decreases m - k,
    {
        if v[i + k] != pattern[k] {
            assert(v@.subrange(i as int, i + m)[k as int] != pattern@[k as int]);
            return false;
        }
        k += 1;
    }
    assert(v@.subrange(i as int, i + m) =~= pattern@);
    true
}

/// Whether `pattern` occurs in `v` as a contiguous run.
pub fn contains(v: &Vec<char>, pattern: &Vec<char>) -> (b: bool)
    ensures
        b == contains_run(v@, pattern@),
{
    let n = v.len();
    let m = pattern.len();
    if m > n {
        return false;
    }
    let last = n - m;
    let mut i: usize = 0;
    loop
        invariant
            m <= n,
            n == v.len(),
            m == pattern.len(),
            last == n - m,
            i <= last,
            forall|j: int| 0 <= j < i ==> !occurs_at(v@, pattern@, j),
        decreases last - i,
    {
        if occurs(v, pattern, i) {
            return true;
        }
        if i == last {
            return false;
        }
        i += 1;
    }
}

/// Whether `v` begins with `prefix`.
pub fn starts_with(v: &Vec<char>, prefix: &Vec<char>) -> (b: bool)
    ensures
        b == prefix@.is_prefix_of(v@),
{
    if prefix.len() > v.len() {
        return false;
    }
    let b = occurs(v, prefix, 0);
    assert(v@.subrange(0, 0 + prefix.len()) == v@.subrange(0, prefix@.len() as int));
    b
}

/// Whether `a` and `b` hold the same characters.
pub fn same_chars(a: &Vec<char>, b: &Vec<char>) -> (eq: bool)
    ensures
        eq == (a@ == b@),
{
    if a.len() != b.len() {
        return false;
    }
    let eq = occurs(a, b, 0);
    assert(a@.subrange(0, 0 + b.len()) =~= a@);
    eq
}

/// `v` without leading and trailing whitespace.
pub fn trim(v: &Vec<char>) -> (r: Vec<char>)
    ensures
        r@ == trimmed(v@),
{
    let n = v.len();
    let mut start: usize = 0;
    while start < n && char_is_whitespace(v[start])
        invariant
            0 <= start <= n == v.len(),
            skip_whitespace(v@, 0) == skip_whitespace(v@, start as int),
        decreases n - start,
    {
        start += 1;
    }
    let mut end: usize = n;
    while start < end && char_is_whitespace(v[end - 1])
        invariant
            start <= end <= n == v.len(),
            drop_trailing_whitespace(v@, start as int, n as int) == drop_trailing_whitespace(
                v@,
                start as int,
                end as int,
            ),
        decreases end - start,
    {
        end -= 1;
    }
    copy_range(v, start, end)
}

/// The physical lines of `v`.
pub fn split_lines(v: &Vec<char>) -> (lines: Vec<Vec<char>>)
    ensures
        line_views(lines@) == lines_of(v@),
{
    let n = v.len();
    let mut lines: Vec<Vec<char>> = Vec::new();
    let mut pos: usize = 0;
    assert(line_views(lines@) =~= Seq::<Seq<char>>::empty());
    while pos < n
        invariant
            pos <= n == v.len(),
            lines_of(v@) == line_views(lines@) + lines_from(v@, pos as int),
        decreases n - pos,
    {
        let mut end: usize = pos;
        while end < n && v[end] != '\n'
            invariant
                pos <= end <= n == v.len(),
                line_end(v@, pos as int) == line_end(v@, end as int),
            decreases n - end,
        {
            end += 1;
        }
        let ghost before = line_views(lines@);
        if end >= n {
            let line = copy_range(v, pos, n);
            lines.push(line);
            assert(line_views(lines@) =~= before + seq![v@.subrange(pos as int, n as int)]);
            pos = n;
        } else {
            let stop: usize = if end > pos && v[end - 1] == '\r' {
                end - 1
            } else {
                end
            };
            let line = copy_range(v, pos, stop);
            assert(line@ == without_carriage_return(v@.subrange(pos as int, end as int)));
            lines.push(line);
            assert(line_views(lines@) =~= before + seq![
                without_carriage_return(v@.subrange(pos as int, end as int)),
            ]);
            pos = end + 1;
        }
    }
    lines
}

/// The character of the decimal digit `d`.
pub fn digit_of(d: usize) -> (c: char)
    requires
        d < 10,
    ensures
        c == digit_char(d as nat),
{
    if d == 0 {
        '0'
    } else if d == 1 {
        '1'
    } else if d == 2 {
        '2'
    } else if d == 3 {
        '3'
    } else if d == 4 {
        '4'
    } else if d == 5 {
        '5'
    } else if d == 6 {
        '6'
    } else if d == 7 {
        '7'
    } else if d == 8 {
        '8'
    } else {
        '9'
    }
}

/// `n` in decimal, without leading zeros.
pub fn decimal_string(n: usize) -> (s: String)
    ensures
        s@ == decimal_digits(n as nat),
{
    let mut reversed: Vec<char> = Vec::new();
    let mut rest: usize = n;
    while rest >= 10
        invariant
            decimal_digits(n as nat) == decimal_digits(rest as nat) + reversed@.reverse(),
        decreases rest,
    {
        let ghost before = reversed@;
        reversed.push(digit_of(rest % 10));
        assert(reversed@.reverse() =~= seq![digit_char((rest % 10) as nat)] + before.reverse());
        assert(decimal_digits(rest as nat) == decimal_digits((rest / 10) as nat).push(
            digit_char((rest % 10) as nat),
        ));
        assert(decimal_digits((rest / 10) as nat).push(digit_char((rest % 10) as nat))
            + before.reverse() =~= decimal_digits((rest / 10) as nat) + (seq![
            digit_char((rest % 10) as nat),
        ] + before.reverse()));
        rest = rest / 10;
    }
    let ghost before = reversed@;
    reversed.push(digit_of(rest));
    assert(reversed@.reverse() =~= seq![digit_char(rest as nat)] + before.reverse());
    let mut s = String::new();
    let mut i: usize = reversed.len();
    while i > 0
        invariant
            i <= reversed.len(),
            s@ == reversed@.reverse().subrange(0, reversed.len() - i),
        decreases i,
    {
        i -= 1;
        let ghost old_s = s@;
        push_char(&mut s, reversed[i]);
        assert(s@ =~= reversed@.reverse().subrange(0, reversed.len() - i));
    }
    assert(s@ =~= reversed@.reverse());
    s
}

/// `v` with its ASCII capital letters turned into small letters.
pub fn lowercase_ascii(v: &Vec<char>) -> (r: Vec<char>)
    ensures
        r@ == ascii_lowercase(v@),
{
    let mut r: Vec<char> = Vec::new();
    let mut i: usize = 0;
    while i < v.len()
        invariant
            i <= v.len(),
            r.len() == i,
            forall|j: int| 0 <= j < i ==> r@[j] == ascii_lower_char(v@[j]),
        decreases v.len() - i,
    {
        let c = v[i];
        let lowered = if 'A' <= c && c <= 'Z' {
            ((c as u8) + 32) as char
        } else {
            c
        };
        r.push(lowered);
        i += 1;
    }
    assert(r@ =~= ascii_lowercase(v@));
    r
}

/// The strings of `parts` with `separator` between each two neighbours.
pub fn join_strings(parts: &Vec<String>, separator: &str) -> (s: String)
    ensures
        s@ == joined(string_views(parts@), separator@),
{
    let mut s = String::new();
    let mut i: usize = 0;
    let ghost views = string_views(parts@);
    assert(views.take(0) =~= Seq::<Seq<char>>::empty());
    while i < parts.len()
        invariant
            i <= parts.len(),
            views == string_views(parts@),
            s@ == joined(views.take(i as int), separator@),
        decreases parts.len() - i,
    {
        let ghost before = s@;
        if i > 0 {
            s.append(separator);
        }
        s.append(parts[i].as_str());
        proof {
            let next = views.take(i + 1);
            assert(next.drop_last() =~= views.take(i as int));
            assert(next.last() == parts@[i as int]@);
            if i == 0 {
                assert(s@ =~= parts@[0]@);
                assert(next[0] == parts@[0]@);
            } else {
                assert(s@ =~= before + separator@ + parts@[i as int]@);
            }
        }
        i += 1;
    }
    assert(views.take(parts.len() as int) =~= views);
    s
}

/// `text` with every two-character newline escape turned into a line feed.
pub fn unescape_newlines(text: &str) -> (s: String)
    ensures
        s@ == unescaped(text@),
{
    let v = chars_of(text);
    let n = v.len();
    let mut s = String::new();
    let mut i: usize = 0;
    while i < n
        invariant
            i <= n == v.len(),
            unescaped(v@) == s@ + unescaped_from(v@, i as int),
        decreases n - i,
    {
        let ghost before = s@;
        if v[i] == '\\' && i + 1 < n && v[i + 1] == 'n' {
            push_char(&mut s, '\n');
            assert(before + (seq!['\n'] + unescaped_from(v@, i + 2)) =~= s@ + unescaped_from(
                v@,
                i + 2,
            ));
            i += 2;
        } else {
            push_char(&mut s, v[i]);
            assert(before + (seq![v@[i as int]] + unescaped_from(v@, i + 1)) =~= s@
                + unescaped_from(v@, i + 1));
            i += 1;
        }
    }
    assert(s@ + unescaped_from(v@, n as int) =~= s@);
    s
}

} // verus!
