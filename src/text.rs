use vstd::prelude::*;

verus! {

/// Unicode `White_Space`, the set that `char::is_whitespace` tests.
pub open spec fn is_ws(c: char) -> bool {
    let u = c as u32;
    (9 <= u && u <= 13) || u == 32 || u == 0x85 || u == 0xA0 || u == 0x1680 || (0x2000 <= u && u
        <= 0x200A) || u == 0x2028 || u == 0x2029 || u == 0x202F || u == 0x205F || u == 0x3000
}

/// A word of a line: not empty and free of whitespace.
pub open spec fn is_token(t: Seq<char>) -> bool {
    t.len() > 0 && forall|i: int| 0 <= i < t.len() ==> !is_ws(#[trigger] t[i])
}

/// Length of the run of non-whitespace characters that starts `s`.
pub open spec fn token_len(s: Seq<char>) -> nat
    decreases s.len(),
{
    if s.len() == 0 || is_ws(s[0]) {
        0
    } else {
        1 + token_len(s.drop_first())
    }
}

/// The whitespace-separated words of `s`, in order (`str::split_whitespace`).
pub open spec fn words(s: Seq<char>) -> Seq<Seq<char>>
    decreases s.len(),
{
    if s.len() == 0 {
        seq![]
    } else if is_ws(s[0]) {
        words(s.drop_first())
    } else {
        let n = token_len(s);
        proof {
            lemma_token_len_bound(s);
        }
        seq![s.take(n as int)] + words(s.skip(n as int))
    }
}

/// Tests `is_ws`.
pub fn is_whitespace(c: char) -> (r: bool)
    ensures
        r == is_ws(c),
{
    let u = c as u32;
    (9 <= u && u <= 13) || u == 32 || u == 0x85 || u == 0xA0 || u == 0x1680 || (0x2000 <= u && u
        <= 0x200A) || u == 0x2028 || u == 0x2029 || u == 0x202F || u == 0x205F || u == 0x3000
}

/// The characters of a string, in order.
pub fn chars_of(s: &str) -> (r: Vec<char>)
    ensures
        r@ == s@,
{
    let mut out: Vec<char> = Vec::new();
    for c in it: s.chars()
        invariant
            out@ == it.seq().take(it.index() as int),
    {
        out.push(c);
    }
    out
}

/// Tests two strings for equal contents.
pub fn same_text(a: &str, b: &str) -> (r: bool)
    ensures
        r == (a@ == b@),
{
    let x = chars_of(a);
    let y = chars_of(b);
    if x.len() != y.len() {
        return false;
    }
    let mut i: usize = 0;
    while i < x.len()
        invariant
            x@ == a@,
            y@ == b@,
            x.len() == y.len(),
            i <= x.len(),
            forall|k: int| 0 <= k < i ==> x@[k] == y@[k],
        decreases x.len() - i,
    {
        if x[i] != y[i] {
            return false;
        }
        i = i + 1;
    }
    assert(x@ =~= y@);
    true
}

pub proof fn lemma_token_len_bound(s: Seq<char>)
    ensures
        token_len(s) <= s.len(),
    decreases s.len(),
{
    if s.len() > 0 && !is_ws(s[0]) {
        lemma_token_len_bound(s.drop_first());
    }
}

/// Skipping a non-whitespace character shortens the leading run by one.
proof fn lemma_token_len_step(s: Seq<char>, i: int)
    requires
        0 <= i < s.len(),
        !is_ws(s[i]),
    ensures
        token_len(s.skip(i)) == 1 + token_len(s.skip(i + 1)),
{
    assert(s.skip(i).drop_first() =~= s.skip(i + 1));
}

/// A run that ends at whitespace or at the end has that length.
proof fn lemma_token_len_end(s: Seq<char>, j: int)
    requires
        0 <= j <= s.len(),
        j == s.len() || is_ws(s[j]),
    ensures
        token_len(s.skip(j)) == 0,
{
}

proof fn lemma_words_ws(s: Seq<char>, i: int)
    requires
        0 <= i < s.len(),
        is_ws(s[i]),
    ensures
        words(s.skip(i)) == words(s.skip(i + 1)),
{
    assert(s.skip(i).drop_first() =~= s.skip(i + 1));
}

proof fn lemma_words_token(s: Seq<char>, i: int, j: int)
    requires
        0 <= i < j <= s.len(),
        token_len(s.skip(i)) == j - i,
    ensures
        words(s.skip(i)) == seq![s.subrange(i, j)] + words(s.skip(j)),
{
    assert(!is_ws(s.skip(i)[0]));
    assert(s.skip(i).take(j - i) =~= s.subrange(i, j));
    assert(s.skip(i).skip(j - i) =~= s.skip(j));
}

/// Splits `line` into its whitespace-separated words.
pub fn split_words(line: &str) -> (r: Vec<String>)
    ensures
        r@.map_values(|w: String| w@) == words(line@),
{
    let cs = chars_of(line);
    let n = cs.len();
    let mut out: Vec<String> = Vec::new();
    let mut i: usize = 0;
    assert(line@.skip(0) =~= line@);
    while i < n
        invariant
            cs@ == line@,
            n == cs.len(),
            i <= n,
            out@.map_values(|w: String| w@) + words(line@.skip(i as int)) == words(line@),
        decreases n - i,
    {
        if is_whitespace(cs[i]) {
            proof {
                lemma_words_ws(line@, i as int);
            }
            i = i + 1;
        } else {
            let mut j: usize = i + 1;
            proof {
                lemma_token_len_step(line@, i as int);
            }
            while j < n && !is_whitespace(cs[j])
                invariant
                    cs@ == line@,
                    n == cs.len(),
                    i < j <= n,
                    token_len(line@.skip(i as int)) == (j - i) + token_len(line@.skip(j as int)),
                decreases n - j,
            {
                proof {
                    lemma_token_len_step(line@, j as int);
                }
                j = j + 1;
            }
            proof {
                lemma_token_len_end(line@, j as int);
                lemma_words_token(line@, i as int, j as int);
            }
            let w = line.substring_char(i, j).to_owned();
            let ghost before = out@;
            out.push(w);
            proof {
                assert(out@.map_values(|w: String| w@) =~= before.map_values(|w: String| w@).push(
                    line@.subrange(i as int, j as int),
                ));
                assert(out@.map_values(|w: String| w@) + words(line@.skip(j as int)) =~= before.map_values(
                    |w: String| w@,
                ) + words(line@.skip(i as int)));
            }
            i = j;
        }
    }
    proof {
        assert(words(line@.skip(n as int)) =~= seq![]) by {
            assert(line@.skip(n as int).len() == 0);
        }
        assert(out@.map_values(|w: String| w@) + seq![] =~= out@.map_values(|w: String| w@));
    }
    out
}


/// The character of the decimal digit `d`.
pub open spec fn digit_char(d: nat) -> char {
    (48 + d) as char
}

/// The decimal representation of `n`, without leading zeros.
pub open spec fn decimal(n: nat) -> Seq<char>
    decreases n,
{
    if n < 10 {
        seq![digit_char(n)]
    } else {
        decimal(n / 10).push(digit_char(n % 10))
    }
}

pub open spec fn is_digit(c: char) -> bool {
    48 <= (c as u32) && (c as u32) <= 57
}

/// The value of a string of decimal digits.
pub open spec fn digits_value(s: Seq<char>) -> nat
    decreases s.len(),
{
    if s.len() == 0 {
        0
    } else {
        digits_value(s.drop_last()) * 10 + ((s.last() as u32) - 48) as nat
    }
}

/// The number that `s` writes in decimal digits, where it is one and fits in `usize`.
pub open spec fn number_of(s: Seq<char>) -> Option<usize> {
    if s.len() > 0 && (forall|i: int| 0 <= i < s.len() ==> is_digit(#[trigger] s[i]))
        && digits_value(s) <= usize::MAX {
        Some(digits_value(s) as usize)
    } else {
        None
    }
}

fn digit_str(d: usize) -> (r: &'static str)
    requires
        d < 10,
    ensures
        r@ == seq![digit_char(d as nat)],
{
    proof {
        reveal_strlit("0");
        reveal_strlit("1");
        reveal_strlit("2");
        reveal_strlit("3");
        reveal_strlit("4");
        reveal_strlit("5");
        reveal_strlit("6");
        reveal_strlit("7");
        reveal_strlit("8");
        reveal_strlit("9");
    }
    match d {
        0 => "0",
        1 => "1",
        2 => "2",
        3 => "3",
        4 => "4",
        5 => "5",
        6 => "6",
        7 => "7",
        8 => "8",
        _ => "9",
    }
}

/// Appends the decimal representation of `n` to `s`.
pub fn push_decimal(s: &mut String, n: usize)
    ensures
        final(s)@ == old(s)@ + decimal(n as nat),
    decreases n,
{
    if n >= 10 {
        push_decimal(s, n / 10);
    }
    s.append(digit_str(n % 10));
    proof {
        if n >= 10 {
            assert(decimal(n as nat) == decimal((n / 10) as nat).push(digit_char((n % 10) as nat)));
        }
    }
    assert(final(s)@ =~= old(s)@ + decimal(n as nat));
}

proof fn lemma_digits_value_prefix(s: Seq<char>, i: int, j: int)
    requires
        0 <= i <= j <= s.len(),
    ensures
        digits_value(s.take(i)) <= digits_value(s.take(j)),
    decreases j - i,
{
    if i < j {
        assert(s.take(j).drop_last() =~= s.take(j - 1));
        lemma_digits_value_prefix(s, i, j - 1);
    }
}

/// Reads a decimal number that fits in `usize`: digits only, at least one.
pub fn parse_usize(s: &str) -> (r: Option<usize>)
    ensures
        r == number_of(s@),
{
    let cs = chars_of(s);
    let n = cs.len();
    if n == 0 {
        return None;
    }
    let mut acc: u128 = 0;
    let mut i: usize = 0;
    assert(s@.take(0) =~= seq![]);
    while i < n
        invariant
            cs@ == s@,
            n == cs.len(),
            i <= n,
            acc as nat == digits_value(s@.take(i as int)),
            acc <= usize::MAX,
            forall|k: int| 0 <= k < i ==> is_digit(#[trigger] s@[k]),
        decreases n - i,
    {
        let c = cs[i];
        let u = c as u32;
        if u < 48 || u > 57 {
            return None;
        }
        let next = acc * 10 + (u - 48) as u128;
        proof {
            assert(s@.take(i + 1).drop_last() =~= s@.take(i as int));
        }
        if next > usize::MAX as u128 {
            proof {
                lemma_digits_value_prefix(s@, i + 1, n as int);
                assert(s@.take(n as int) =~= s@);
            }
            return None;
        }
        acc = next;
        i = i + 1;
    }
    assert(s@.take(n as int) =~= s@);
    Some(acc as usize)
}

/// A count as `str::parse::<usize>` reads it: one optional leading `+`, then
/// a decimal number that fits in `usize`.
pub open spec fn count_of(s: Seq<char>) -> Option<usize> {
    if s.len() > 0 && s[0] == '+' {
        number_of(s.drop_first())
    } else {
        number_of(s)
    }
}

/// Reads a count: an optional leading `+`, then digits only, at least one.
pub fn parse_count(s: &str) -> (r: Option<usize>)
    ensures
        r == count_of(s@),
{
    let n = s.unicode_len();
    if n > 0 && s.get_char(0) == '+' {
        let rest = s.substring_char(1, n);
        assert(rest@ =~= s@.drop_first());
        parse_usize(rest)
    } else {
        parse_usize(s)
    }
}

/// Words joined by single spaces.
pub open spec fn join_spaced(ws: Seq<Seq<char>>) -> Seq<char>
    decreases ws.len(),
{
    if ws.len() == 0 {
        seq![]
    } else if ws.len() == 1 {
        ws[0]
    } else {
        join_spaced(ws.drop_last()) + seq![' '] + ws.last()
    }
}

/// Joins the strings of `ws` from index `from` on with single spaces.
pub fn join_from(ws: &Vec<String>, from: usize) -> (r: String)
    requires
        from <= ws.len(),
    ensures
        r@ == join_spaced(ws@.map_values(|w: String| w@).skip(from as int)),
{
    let ghost all = ws@.map_values(|w: String| w@);
    let mut out = String::new();
    let mut i: usize = from;
    proof {
        reveal_strlit(" ");
        assert(all.subrange(from as int, from as int) =~= seq![]);
    }
    while i < ws.len()
        invariant
            from <= i <= ws.len(),
            all == ws@.map_values(|w: String| w@),
            out@ == join_spaced(all.subrange(from as int, i as int)),
        decreases ws.len() - i,
    {
        proof {
            reveal_strlit(" ");
        }
        if i > from {
            out.append(" ");
        }
        out.append(ws[i].as_str());
        proof {
            let part = all.subrange(from as int, i + 1);
            assert(part.drop_last() =~= all.subrange(from as int, i as int));
            assert(all[i as int] == ws@[i as int]@);
            assert(part.last() == all[i as int]);
            if i == from {
                assert(part =~= seq![all[i as int]]);
            }
        }
        i = i + 1;
    }
    assert(all.subrange(from as int, ws.len() as int) =~= all.skip(from as int));
    out
}

/// Number of characters before the first line feed.
pub open spec fn line_len(s: Seq<char>) -> nat
    decreases s.len(),
{
    if s.len() == 0 || s[0] == '\n' {
        0
    } else {
        1 + line_len(s.drop_first())
    }
}

pub proof fn lemma_line_len_bound(s: Seq<char>)
    ensures
        line_len(s) <= s.len(),
    decreases s.len(),
{
    if s.len() > 0 && s[0] != '\n' {
        lemma_line_len_bound(s.drop_first());
    }
}

/// A line without its carriage return, where it ends in one.
pub open spec fn strip_cr(l: Seq<char>) -> Seq<char> {
    if l.len() > 0 && l.last() == '\r' {
        l.drop_last()
    } else {
        l
    }
}

/// The lines of `s` as `str::lines` gives them: split at `\n` or `\r\n`,
/// a final line ending optional.
pub open spec fn lines(s: Seq<char>) -> Seq<Seq<char>>
    decreases s.len(),
{
    if s.len() == 0 {
        seq![]
    } else {
        let n = line_len(s);
        proof {
            lemma_line_len_bound(s);
        }
        if n >= s.len() {
            seq![s]
        } else {
            seq![strip_cr(s.take(n as int))] + lines(s.skip((n + 1) as int))
        }
    }
}

/// Appends the line of index `i` to `acc`, with a space before it where
/// both are non-empty and `acc` does not already end in one.
pub open spec fn join_step(acc: Seq<char>, line: Seq<char>, i: int) -> Seq<char> {
    if i != 0 && line.len() > 0 && acc.len() > 0 && acc.last() != ' ' {
        acc + seq![' '] + line
    } else {
        acc + line
    }
}

pub open spec fn fold_lines(ls: Seq<Seq<char>>) -> Seq<char>
    decreases ls.len(),
{
    if ls.len() == 0 {
        seq![]
    } else {
        join_step(fold_lines(ls.drop_last()), ls.last(), ls.len() - 1)
    }
}

/// `s` with its lines joined into one.
pub open spec fn single_line(s: Seq<char>) -> Seq<char> {
    fold_lines(lines(s))
}

proof fn lemma_line_len_run(s: Seq<char>, k: int, i: int)
    requires
        0 <= k <= i <= s.len(),
        forall|j: int| k <= j < i ==> s[j] != '\n',
        i == s.len() || s[i] == '\n',
    ensures
        line_len(s.skip(k)) == i - k,
    decreases i - k,
{
    if k < i {
        assert(s.skip(k).drop_first() =~= s.skip(k + 1));
        lemma_line_len_run(s, k + 1, i);
    }
}

/// Joins the lines of `text` into one line (see `single_line`).
pub fn remove_multiline(text: &str) -> (r: String)
    ensures
        r@ == single_line(text@),
{
    let cs = chars_of(text);
    let n = cs.len();
    let mut acc = String::new();
    let mut last: Option<char> = None;
    let mut start: usize = 0;
    let mut idx: usize = 0;
    let ghost mut done: Seq<Seq<char>> = seq![];
    let ghost s = text@;
    proof {
        reveal_strlit(" ");
        assert(s.skip(0) =~= s);
    }
    let mut i: usize = 0;
    while i < n
        invariant
            cs@ == s,
            s == text@,
            n == cs.len(),
            start <= i <= n,
            forall|j: int| start <= j < i ==> s[j] != '\n',
            done + lines(s.skip(start as int)) == lines(s),
            acc@ == fold_lines(done),
            idx == done.len(),
            idx <= i,
            last == (if acc@.len() == 0 {
                None::<char>
            } else {
                Some(acc@.last())
            }),
        decreases n - i,
    {
        if cs[i] == '\n' {
            let end: usize = if i > start && cs[i - 1] == '\r' {
                i - 1
            } else {
                i
            };
            let ghost line = s.subrange(start as int, end as int);
            proof {
                lemma_line_len_run(s, start as int, i as int);
                let rest = s.skip(start as int);
                assert(rest.take(i - start) =~= s.subrange(start as int, i as int));
                assert(rest.skip(i - start + 1) =~= s.skip(i + 1));
                assert(strip_cr(s.subrange(start as int, i as int)) =~= line);
                assert(lines(rest) == seq![line] + lines(s.skip(i + 1)));
                assert(done.push(line) + lines(s.skip(i + 1)) =~= done + lines(rest));
                assert(done.push(line).drop_last() =~= done);
            }
            let ghost before = acc@;
            proof {
                reveal_strlit(" ");
            }
            let spaced = match last {
                Some(c) => idx != 0 && end > start && c != ' ',
                None => false,
            };
            if spaced {
                acc.append(" ");
            }
            acc.append(text.substring_char(start, end));
            if end > start {
                last = Some(cs[end - 1]);
            }
            proof {
                assert(acc@ =~= join_step(before, line, idx as int));
                done = done.push(line);
            }
            idx = idx + 1;
            start = i + 1;
        }
        i = i + 1;
    }
    if start < n {
        let ghost line = s.subrange(start as int, n as int);
        proof {
            lemma_line_len_run(s, start as int, n as int);
            assert(s.skip(start as int) =~= line);
            assert(lines(s.skip(start as int)) == seq![line]);
            assert(done.push(line) =~= done + lines(s.skip(start as int)));
            assert(done.push(line).drop_last() =~= done);
        }
        let ghost before = acc@;
        let spaced = match last {
            Some(c) => idx != 0 && c != ' ',
            None => false,
        };
        if spaced {
            acc.append(" ");
        }
        acc.append(text.substring_char(start, n));
        proof {
            assert(acc@ =~= join_step(before, line, idx as int));
            done = done.push(line);
        }
    } else {
        proof {
            assert(s.skip(start as int).len() == 0);
            assert(done + seq![] =~= done);
        }
    }
    acc
}

/// Each word preceded by a single space.
pub open spec fn spaced_words(ts: Seq<Seq<char>>) -> Seq<char>
    decreases ts.len(),
{
    if ts.len() == 0 {
        seq![]
    } else {
        seq![' '] + ts[0] + spaced_words(ts.drop_first())
    }
}

/// The line made of the words `ts` (at least one), separated by single
/// spaces and ended by CRLF.
pub open spec fn line_of(ts: Seq<Seq<char>>) -> Seq<char> {
    ts[0] + spaced_words(ts.drop_first()) + seq!['\r', '\n']
}

/// A string that is empty or starts with whitespace.
pub open spec fn ws_led(s: Seq<char>) -> bool {
    s.len() == 0 || is_ws(s[0])
}

pub proof fn lemma_words_ws_prefix(c: char, s: Seq<char>)
    requires
        is_ws(c),
    ensures
        words(seq![c] + s) == words(s),
{
    assert((seq![c] + s).drop_first() =~= s);
}

proof fn lemma_token_len_concat(t: Seq<char>, s: Seq<char>)
    requires
        forall|i: int| 0 <= i < t.len() ==> !is_ws(#[trigger] t[i]),
        ws_led(s),
    ensures
        token_len(t + s) == t.len(),
    decreases t.len(),
{
    if t.len() == 0 {
        assert(t + s =~= s);
    } else {
        assert((t + s).drop_first() =~= t.drop_first() + s);
        assert(forall|i: int| 0 <= i < t.drop_first().len() ==> t.drop_first()[i] == t[i + 1]);
        lemma_token_len_concat(t.drop_first(), s);
    }
}

/// A word followed by whitespace (or nothing) is the first word.
pub proof fn lemma_words_token_prefix(t: Seq<char>, s: Seq<char>)
    requires
        is_token(t),
        ws_led(s),
    ensures
        words(t + s) == seq![t] + words(s),
{
    lemma_token_len_concat(t, s);
    assert((t + s)[0] == t[0]);
    assert((t + s).take(t.len() as int) =~= t);
    assert((t + s).skip(t.len() as int) =~= s);
}

proof fn lemma_words_spaced(ts: Seq<Seq<char>>, tail: Seq<char>)
    requires
        forall|i: int| 0 <= i < ts.len() ==> is_token(#[trigger] ts[i]),
        ws_led(tail),
    ensures
        words(spaced_words(ts) + tail) == ts + words(tail),
    decreases ts.len(),
{
    if ts.len() == 0 {
        assert(spaced_words(ts) + tail =~= tail);
        assert(ts + words(tail) =~= words(tail));
    } else {
        let rest = ts.drop_first();
        let after = spaced_words(rest) + tail;
        lemma_words_spaced(rest, tail);
        assert(spaced_words(ts) + tail =~= seq![' '] + (ts[0] + after));
        lemma_words_ws_prefix(' ', ts[0] + after);
        assert(ws_led(after)) by {
            if rest.len() > 0 {
                assert(after[0] == ' ');
            } else {
                assert(after =~= tail);
            }
        }
        lemma_words_token_prefix(ts[0], after);
        assert(seq![ts[0]] + (rest + words(tail)) =~= ts + words(tail));
    }
}

/// The words of a line built from words are those words.
pub proof fn lemma_words_line_of(ts: Seq<Seq<char>>)
    requires
        ts.len() > 0,
        forall|i: int| 0 <= i < ts.len() ==> is_token(#[trigger] ts[i]),
    ensures
        words(line_of(ts)) == ts,
{
    let crlf = seq!['\r', '\n'];
    assert(words(crlf) =~= seq![]) by {
        lemma_words_ws_prefix('\r', seq!['\n']);
        assert(crlf =~= seq!['\r'] + seq!['\n']);
        lemma_words_ws_prefix('\n', seq![]);
        assert(seq!['\n'] =~= seq!['\n'] + Seq::<char>::empty());
    }
    let rest = ts.drop_first();
    lemma_words_spaced(rest, crlf);
    let after = spaced_words(rest) + crlf;
    assert(ws_led(after)) by {
        if rest.len() > 0 {
            assert(after[0] == ' ');
        } else {
            assert(after =~= crlf);
        }
    }
    assert(line_of(ts) =~= ts[0] + after);
    lemma_words_token_prefix(ts[0], after);
    assert(seq![ts[0]] + (rest + seq![]) =~= ts);
}

/// `s` holds no `c`.
pub open spec fn free_of(s: Seq<char>, c: char) -> bool {
    forall|i: int| 0 <= i < s.len() ==> #[trigger] s[i] != c
}

pub broadcast proof fn lemma_free_of_concat(a: Seq<char>, b: Seq<char>, c: char)
    requires
        free_of(a, c),
        free_of(b, c),
    ensures
        #[trigger] free_of(a + b, c),
{
    assert forall|i: int| 0 <= i < (a + b).len() implies #[trigger] (a + b)[i] != c by {
        if i >= a.len() {
            assert((a + b)[i] == b[i - a.len()]);
        }
    }
}

/// The digits of a number hold no other character.
pub proof fn lemma_decimal_digits(n: nat)
    ensures
        forall|i: int| 0 <= i < decimal(n).len() ==> is_digit(#[trigger] decimal(n)[i]),
    decreases n,
{
    if n >= 10 {
        lemma_decimal_digits(n / 10);
        assert forall|i: int| 0 <= i < decimal(n).len() implies is_digit(#[trigger] decimal(n)[i]) by {
            if i < decimal(n / 10).len() {
                assert(decimal(n)[i] == decimal(n / 10)[i]);
            }
        }
    }
}

/// The non-empty lines of `ls`, in order, joined by single spaces.
pub open spec fn join_nonempty(ls: Seq<Seq<char>>) -> Seq<char>
    decreases ls.len(),
{
    if ls.len() == 0 {
        seq![]
    } else {
        let acc = join_nonempty(ls.drop_last());
        if ls.last().len() == 0 {
            acc
        } else if acc.len() == 0 {
            ls.last()
        } else {
            acc + seq![' '] + ls.last()
        }
    }
}

proof fn lemma_line_len_chars(s: Seq<char>)
    ensures
        forall|i: int| 0 <= i < line_len(s) ==> s[i] != '\n',
        line_len(s) < s.len() ==> s[line_len(s) as int] == '\n',
    decreases s.len(),
{
    if s.len() > 0 && s[0] != '\n' {
        let t = s.drop_first();
        lemma_line_len_chars(t);
        lemma_line_len_bound(t);
        assert forall|i: int| 0 <= i < line_len(s) implies s[i] != '\n' by {
            if i > 0 {
                assert(s[i] == t[i - 1]);
            }
        }
    }
}

proof fn lemma_lines_no_newline(s: Seq<char>)
    ensures
        forall|k: int| 0 <= k < lines(s).len() ==> free_of(#[trigger] lines(s)[k], '\n'),
    decreases s.len(),
{
    if s.len() > 0 {
        let n = line_len(s);
        lemma_line_len_bound(s);
        lemma_line_len_chars(s);
        if n < s.len() {
            let rest = s.skip((n + 1) as int);
            lemma_lines_no_newline(rest);
            let first = strip_cr(s.take(n as int));
            assert(free_of(first, '\n'));
            assert forall|k: int| 0 <= k < lines(s).len() implies free_of(
                #[trigger] lines(s)[k],
                '\n',
            ) by {
                if k > 0 {
                    assert(lines(s)[k] == lines(rest)[k - 1]);
                }
            }
        }
    }
}

proof fn lemma_fold_no_newline(ls: Seq<Seq<char>>)
    requires
        forall|k: int| 0 <= k < ls.len() ==> free_of(#[trigger] ls[k], '\n'),
    ensures
        free_of(fold_lines(ls), '\n'),
    decreases ls.len(),
{
    if ls.len() > 0 {
        let init = ls.drop_last();
        assert forall|k: int| 0 <= k < init.len() implies free_of(#[trigger] init[k], '\n') by {
            assert(init[k] == ls[k]);
        }
        lemma_fold_no_newline(init);
        assert(free_of(ls[ls.len() - 1], '\n'));
    }
}

/// The text of a request never breaks its line.
pub proof fn lemma_single_line_no_newline(s: Seq<char>)
    ensures
        free_of(single_line(s), '\n'),
{
    lemma_lines_no_newline(s);
    lemma_fold_no_newline(lines(s));
}

proof fn lemma_fold_is_join(ls: Seq<Seq<char>>)
    requires
        forall|k: int| 0 <= k < ls.len() && (#[trigger] ls[k]).len() > 0 ==> ls[k].last() != ' ',
    ensures
        fold_lines(ls) == join_nonempty(ls),
        join_nonempty(ls).len() > 0 ==> join_nonempty(ls).last() != ' ',
    decreases ls.len(),
{
    if ls.len() > 0 {
        let init = ls.drop_last();
        assert forall|k: int| 0 <= k < init.len() && (#[trigger] init[k]).len() > 0 implies init[k].last()
            != ' ' by {
            assert(init[k] == ls[k]);
        }
        lemma_fold_is_join(init);
        let last = ls[ls.len() - 1];
        if last.len() > 0 {
            assert(last.last() != ' ');
        }
    }
}

/// Where no line of `s` ends in a space, its lines become one: the non-empty
/// ones, in order, joined by single spaces.
pub proof fn lemma_single_line_joins(s: Seq<char>)
    requires
        forall|k: int| 0 <= k < lines(s).len() && (#[trigger] lines(s)[k]).len() > 0 ==> lines(s)[k].last()
            != ' ',
    ensures
        single_line(s) == join_nonempty(lines(s)),
        free_of(single_line(s), '\n'),
{
    lemma_fold_is_join(lines(s));
    lemma_single_line_no_newline(s);
}

} // verus!
