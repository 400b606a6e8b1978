//! Text building blocks: decimal rendering, right padding, and splitting text into lines.

use vstd::prelude::*;

verus! {

/// The character of a decimal digit `d` (0 to 9).
pub open spec fn digit_char(d: nat) -> char {
    (48 + d) as char
}

/// The decimal rendering of `n`, without sign and without leading zeros.
pub open spec fn decimal(n: nat) -> Seq<char>
    decreases n,
{
    if n < 10 {
        seq![digit_char(n)]
    } else {
        decimal(n / 10).push(digit_char(n % 10))
    }
}

/// `String::push`: appends one character at the end.
#[verifier::external_body]
fn push_char(s: &mut String, c: char)
    ensures
        final(s)@ == old(s)@.push(c),
{
    s.push(c);
}

fn push_decimal(s: &mut String, n: u64)
    ensures
        final(s)@ == old(s)@ + decimal(n as nat),
    decreases n,
{
    if n >= 10 {
        push_decimal(s, n / 10);
    }
    let d: u8 = (n % 10) as u8;
    push_char(s, (48u8 + d) as char);
    assert(old(s)@ + decimal(n as nat) =~= (if n >= 10 { old(s)@ + decimal((n / 10) as nat) } else { old(s)@ }).push(digit_char((n % 10) as nat)));
}

/// A line that starts with the character `first`, followed by `rest`.
pub fn char_then(first: char, rest: &str) -> (res: String)
    ensures
        res@ == seq![first] + rest@,
{
    let mut s = String::new();
    push_char(&mut s, first);
    s.append(rest);
    assert(s@ =~= seq![first] + rest@);
    s
}

/// The decimal rendering of `n`, as `n.to_string()` gives it.
pub fn decimal_string(n: u64) -> (res: String)
    ensures
        res@ == decimal(n as nat),
{
    let mut s = String::new();
    push_decimal(&mut s, n);
    assert(s@ =~= decimal(n as nat));
    s
}


/// `s` padded on the right with spaces up to `width` characters, as `format!("{:width$}", s)`
/// gives it: a text that is already that long or longer stays as it is.
pub open spec fn pad_right(s: Seq<char>, width: nat) -> Seq<char> {
    if s.len() >= width {
        s
    } else {
        s + Seq::new((width - s.len()) as nat, |i: int| ' ')
    }
}

/// `s` padded on the right with spaces up to `width` characters.
pub fn padded(s: &str, width: usize) -> (res: String)
    ensures
        res@ == pad_right(s@, width as nat),
{
    let mut res = String::from_str(s);
    let len = s.unicode_len();
    let mut n: usize = len;
    while n < width
        invariant
            len == s@.len(),
            len <= n,
            n <= width || n == len,
            res@ == s@ + Seq::new((n - len) as nat, |i: int| ' '),
        decreases width - n,
    {
        push_char(&mut res, ' ');
        n = n + 1;
        assert(res@ =~= s@ + Seq::new((n - len) as nat, |i: int| ' '));
    }
    assert(len >= width ==> res@ =~= s@);
    res
}

/// A line without the carriage return that ends it, if one does.
pub open spec fn without_cr(line: Seq<char>) -> Seq<char> {
    if line.len() > 0 && line.last() == '\r' {
        line.drop_last()
    } else {
        line
    }
}

/// The lines that a scan of `s` has closed, and the line it is still in.
pub open spec fn scan_lines(s: Seq<char>) -> (Seq<Seq<char>>, Seq<char>)
    decreases s.len(),
{
    if s.len() == 0 {
        (seq![], seq![])
    } else {
        let (done, cur) = scan_lines(s.drop_last());
        if s.last() == '\n' {
            (done.push(without_cr(cur)), seq![])
        } else {
            (done, cur.push(s.last()))
        }
    }
}

/// The lines of `s`, as `str::lines` gives them: split at each `\n`, with a `\r` just before
/// the `\n` removed, and with no empty line after a final `\n`.
pub open spec fn lines_of(s: Seq<char>) -> Seq<Seq<char>> {
    let (done, cur) = scan_lines(s);
    if cur.len() > 0 {
        done.push(cur)
    } else {
        done
    }
}

/// The views of a list of strings.
pub open spec fn string_views(v: Seq<String>) -> Seq<Seq<char>> {
    v.map_values(|l: String| l@)
}

/// The lines of `text`, one string each.
pub fn lines(text: &str) -> (res: Vec<String>)
    ensures
        string_views(res@) == lines_of(text@),
{
    let mut done: Vec<String> = Vec::new();
    let mut cur = String::new();
    let mut pending_cr = false;
    let ghost mut k: int = 0;
    for c in it: text.chars()
        invariant
            it.seq() == text@,
            k == it.index(),
            0 <= k <= text@.len(),
            string_views(done@) == scan_lines(text@.take(k)).0,
            scan_lines(text@.take(k)).1 == (if pending_cr { cur@.push('\r') } else { cur@ }),
            !pending_cr ==> (cur@.len() == 0 || cur@.last() != '\r'),
    {
        let ghost prev = text@.take(k);
        assert(text@.take(k + 1).drop_last() =~= prev);
        assert(text@.take(k + 1).last() == c);
        if c == '\n' {
            let line = cur;
            proof {
                assert(without_cr(if pending_cr { line@.push('\r') } else { line@ }) =~= line@);
            }
            done.push(line);
            cur = String::new();
            pending_cr = false;
            assert(string_views(done@) =~= scan_lines(text@.take(k + 1)).0);
        } else if c == '\r' {
            if pending_cr {
                push_char(&mut cur, '\r');
            }
            pending_cr = true;
            assert(string_views(done@) =~= scan_lines(text@.take(k + 1)).0);
        } else {
            if pending_cr {
                push_char(&mut cur, '\r');
            }
            push_char(&mut cur, c);
            pending_cr = false;
            assert(string_views(done@) =~= scan_lines(text@.take(k + 1)).0);
        }
        proof { k = k + 1; }
    }
    assert(text@.take(k) =~= text@);
    if pending_cr {
        push_char(&mut cur, '\r');
    }
    if cur.unicode_len() > 0 {
        done.push(cur);
    }
    assert(string_views(done@) =~= lines_of(text@));
    done
}


/// The number that a sequence of decimal digits stands for.
pub open spec fn digits_value(s: Seq<char>) -> int
    decreases s.len(),
{
    if s.len() == 0 {
        0
    } else {
        digits_value(s.drop_last()) * 10 + (s.last() as int - 48)
    }
}

/// A non-empty sequence of decimal digits.
pub open spec fn is_digits(d: Seq<char>) -> bool {
    d.len() >= 1 && forall|i: int| 0 <= i < d.len() ==> '0' <= #[trigger] d[i] <= '9'
}

/// `line` is the text `prefix`, then the value `v` in decimal digits, then the text `suffix`:
/// the digits between them read back to `v` itself.
pub open spec fn shows_value(line: Seq<char>, prefix: Seq<char>, suffix: Seq<char>, v: int) -> bool {
    exists|d: Seq<char>|
        #![trigger digits_value(d)]
        is_digits(d) && digits_value(d) == v && line == prefix + d + suffix
}

/// The decimal rendering of a number is a non-empty sequence of digits, without a leading
/// zero unless the number is zero, and reading it back gives the number.
pub proof fn lemma_decimal_round_trip(n: nat)
    ensures
        decimal(n).len() >= 1,
        forall|i: int| 0 <= i < decimal(n).len() ==> '0' <= #[trigger] decimal(n)[i] <= '9',
        decimal(n)[0] == '0' ==> n == 0,
        digits_value(decimal(n)) == n,
    decreases n,
{
    if n >= 10 {
        lemma_decimal_round_trip(n / 10);
        assert(decimal(n).drop_last() =~= decimal(n / 10));
        assert(decimal(n)[0] == decimal(n / 10)[0]);
        assert(digit_char(n % 10) as int == 48 + n % 10);
        assert((n / 10) * 10 + n % 10 == n) by (nonlinear_arith);
        assert(decimal(n).last() == digit_char(n % 10));
        assert(digits_value(decimal(n)) == digits_value(decimal(n / 10)) * 10 + (digit_char(
            n % 10,
        ) as int - 48));
    } else {
        assert(decimal(n).drop_last() =~= Seq::<char>::empty());
        assert(digit_char(n) as int == 48 + n);
        assert(digits_value(Seq::<char>::empty()) == 0);
        assert(digits_value(decimal(n)) == digits_value(decimal(n).drop_last()) * 10 + (
        decimal(n).last() as int - 48));
    }
}

/// The text of lines each ended by a newline.
pub open spec fn joined_lines(ls: Seq<Seq<char>>) -> Seq<char>
    decreases ls.len(),
{
    if ls.len() == 0 {
        seq![]
    } else {
        joined_lines(ls.drop_last()) + ls.last() + seq!['\n']
    }
}

/// A line that holds no newline and does not end in a carriage return.
pub open spec fn plain_line(l: Seq<char>) -> bool {
    &&& forall|i: int| 0 <= i < l.len() ==> #[trigger] l[i] != '\n'
    &&& l.len() == 0 || l.last() != '\r'
}

proof fn lemma_scan_line_chars(prefix: Seq<char>, line: Seq<char>)
    requires
        scan_lines(prefix).1 == Seq::<char>::empty(),
        forall|i: int| 0 <= i < line.len() ==> #[trigger] line[i] != '\n',
    ensures
        scan_lines(prefix + line) == (scan_lines(prefix).0, line),
    decreases line.len(),
{
    if line.len() == 0 {
        assert(prefix + line =~= prefix);
    } else {
        lemma_scan_line_chars(prefix, line.drop_last());
        assert((prefix + line).drop_last() =~= prefix + line.drop_last());
        assert(line.drop_last().push(line.last()) =~= line);
    }
}

proof fn lemma_scan_joined(ls: Seq<Seq<char>>)
    requires
        forall|i: int| 0 <= i < ls.len() ==> plain_line(#[trigger] ls[i]),
    ensures
        scan_lines(joined_lines(ls)) == (ls, Seq::<char>::empty()),
    decreases ls.len(),
{
    if ls.len() > 0 {
        let front = ls.drop_last();
        assert forall|i: int| 0 <= i < front.len() implies plain_line(#[trigger] front[i]) by {
            assert(front[i] == ls[i]);
        }
        lemma_scan_joined(front);
        let l = ls.last();
        assert(plain_line(ls[ls.len() - 1]));
        lemma_scan_line_chars(joined_lines(front), l);
        let t = joined_lines(ls);
        assert(t.drop_last() =~= joined_lines(front) + l);
        assert(t.last() == '\n');
        assert(without_cr(l) == l);
        assert(front.push(l) =~= ls);
    }
}

/// Lines written one after another, each ended by a newline, are read back as the same lines,
/// as long as no line holds a newline or ends in a carriage return.
pub proof fn lemma_lines_of_joined(ls: Seq<Seq<char>>)
    requires
        forall|i: int| 0 <= i < ls.len() ==> plain_line(#[trigger] ls[i]),
    ensures
        lines_of(joined_lines(ls)) == ls,
{
    lemma_scan_joined(ls);
}

/// No line of a text holds a newline.
pub proof fn lemma_lines_hold_no_newline(s: Seq<char>)
    ensures
        forall|i: int, j: int|
            0 <= i < lines_of(s).len() && 0 <= j < lines_of(s)[i].len() ==> #[trigger] lines_of(
                s,
            )[i][j] != '\n',
{
    lemma_scan_no_newline(s);
}

proof fn lemma_scan_no_newline(s: Seq<char>)
    ensures
        forall|i: int, j: int|
            0 <= i < scan_lines(s).0.len() && 0 <= j < scan_lines(s).0[i].len()
                ==> #[trigger] scan_lines(s).0[i][j] != '\n',
        forall|j: int| 0 <= j < scan_lines(s).1.len() ==> #[trigger] scan_lines(s).1[j] != '\n',
    decreases s.len(),
{
    if s.len() > 0 {
        lemma_scan_no_newline(s.drop_last());
        let (done, cur) = scan_lines(s.drop_last());
        if s.last() == '\n' {
            let l = without_cr(cur);
            assert forall|j: int| 0 <= j < l.len() implies l[j] != '\n' by {
                assert(l[j] == cur[j]);
            }
            assert forall|i: int, j: int|
                0 <= i < done.push(l).len() && 0 <= j < done.push(l)[i].len() implies #[trigger] done.push(l)[i][j] != '\n' by {
                if i < done.len() {
                    assert(done.push(l)[i] == done[i]);
                }
            }
        } else {
            let c = cur.push(s.last());
            assert forall|j: int| 0 <= j < c.len() implies #[trigger] c[j] != '\n' by {
                if j < cur.len() {
                    assert(c[j] == cur[j]);
                }
            }
        }
    }
}

} // verus!
