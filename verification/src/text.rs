use vstd::prelude::*;

verus! {

/// Which separator class a tokenization splits on: single tabs (the
/// wakeup-source table's field separator) or any ASCII whitespace (the
/// suspend-mode list's separator).
#[derive(Clone, Copy, Debug, PartialEq, Eq, Structural)]
pub enum SepKind {
    Tab,
    Whitespace,
}

/// ASCII whitespace, the characters the kernel's pseudo-files use to
/// separate and terminate values.
pub open spec fn is_ws_char(c: char) -> bool {
    c == ' ' || c == '\t' || c == '\n' || c == '\r'
}

pub open spec fn spec_is_sep(k: SepKind, c: char) -> bool {
    match k {
        SepKind::Tab => c == '\t',
        SepKind::Whitespace => is_ws_char(c),
    }
}

fn is_sep(k: SepKind, c: char) -> (r: bool)
    ensures
        r == spec_is_sep(k, c),
{
    match k {
        SepKind::Tab => c == '\t',
        SepKind::Whitespace => c == ' ' || c == '\t' || c == '\n' || c == '\r',
    }
}

/// The tokens of `s` from position `i` on, given that the characters read
/// so far of the current token are `cur`: a token is a maximal nonempty run
/// of non-separator characters. This is what splitting on the separator and
/// discarding empty fields yields.
pub open spec fn tokens_acc(s: Seq<char>, k: SepKind, i: int, cur: Seq<char>) -> Seq<Seq<char>>
    decreases s.len() - i,
{
    if i < 0 || i >= s.len() {
        if cur.len() > 0 {
            seq![cur]
        } else {
            seq![]
        }
    } else if spec_is_sep(k, s[i]) {
        if cur.len() > 0 {
            seq![cur] + tokens_acc(s, k, i + 1, seq![])
        } else {
            tokens_acc(s, k, i + 1, seq![])
        }
    } else {
        tokens_acc(s, k, i + 1, cur.push(s[i]))
    }
}

/// The maximal nonempty runs of non-separator characters of `s`, in order.
pub open spec fn tokens_of(s: Seq<char>, k: SepKind) -> Seq<Seq<char>> {
    tokens_acc(s, k, 0, seq![])
}

/// The views of a vector of owned strings.
pub open spec fn views_of(ts: Seq<String>) -> Seq<Seq<char>> {
    ts.map_values(|t: String| t@)
}

/// Reading a run of non-separator characters only extends the pending token.
proof fn lemma_tokens_acc_run(s: Seq<char>, k: SepKind, m: int, j: int, cur: Seq<char>)
    requires
        0 <= m <= j <= s.len(),
        forall|t: int| m <= t < j ==> !spec_is_sep(k, s[t]),
    ensures
        tokens_acc(s, k, m, cur) == tokens_acc(s, k, j, cur + s.subrange(m, j)),
    decreases j - m,
{
    if m < j {
        lemma_tokens_acc_run(s, k, m + 1, j, cur.push(s[m]));
        assert(cur.push(s[m]) + s.subrange(m + 1, j) =~= cur + s.subrange(m, j));
    } else {
        assert(cur + s.subrange(m, m) =~= cur);
    }
}

/// Splits `s` into its maximal nonempty runs of non-separator characters.
pub fn tokenize(s: &str, k: SepKind) -> (r: Vec<String>)
    ensures
        views_of(r@) == tokens_of(s@, k),
{
    let n = s.unicode_len();
    let mut out: Vec<String> = Vec::new();
    let mut i: usize = 0;
    while i < n
        invariant
            i <= n,
            n == s@.len(),
            tokens_of(s@, k) == views_of(out@) + tokens_acc(s@, k, i as int, Seq::<char>::empty()),
        decreases n - i,
    {
        if is_sep(k, s.get_char(i)) {
            i = i + 1;
        } else {
            let start = i;
            i = i + 1;
            while i < n && !is_sep(k, s.get_char(i))
                invariant
                    start < i <= n,
                    n == s@.len(),
                    forall|t: int| start <= t < i ==> !spec_is_sep(k, s@[t]),
                decreases n - i,
            {
                i = i + 1;
            }
            let tok = s.substring_char(start, i).to_owned();
            proof {
                lemma_tokens_acc_run(s@, k, start as int, i as int, Seq::<char>::empty());
                assert(Seq::<char>::empty() + s@.subrange(start as int, i as int) =~= s@.subrange(
                    start as int,
                    i as int,
                ));
            }
            let ghost old_out = out@;
            out.push(tok);
            proof {
                assert(views_of(out@) =~= views_of(old_out).push(tok@));
                assert(views_of(old_out) + tokens_acc(s@, k, start as int, Seq::<char>::empty())
                    =~= views_of(out@) + tokens_acc(s@, k, i as int, Seq::<char>::empty()));
            }
        }
    }
    proof {
        assert(views_of(out@) + tokens_acc(s@, k, n as int, Seq::<char>::empty()) =~= views_of(
            out@,
        ));
    }
    out
}

/// `s` with its trailing whitespace removed.
pub open spec fn spec_trim_end(s: Seq<char>) -> Seq<char>
    decreases s.len(),
{
    if s.len() > 0 && is_ws_char(s.last()) {
        spec_trim_end(s.drop_last())
    } else {
        s
    }
}

/// Removes trailing whitespace, as the table's fields carry the line's
/// terminating newline.
pub fn trim_end(s: &str) -> (r: String)
    ensures
        r@ == spec_trim_end(s@),
{
    let n = s.unicode_len();
    let mut j = n;
    proof {
        assert(s@.subrange(0, n as int) =~= s@);
    }
    while j > 0 && is_sep(SepKind::Whitespace, s.get_char(j - 1))
        invariant
            j <= n,
            n == s@.len(),
            spec_trim_end(s@) == spec_trim_end(s@.subrange(0, j as int)),
        decreases j,
    {
        proof {
            assert(s@.subrange(0, j as int).drop_last() =~= s@.subrange(0, j - 1));
        }
        j = j - 1;
    }
    s.substring_char(0, j).to_owned()
}

/// A line with one trailing carriage return removed, as reading lines from
/// a buffered source strips `\r\n` as well as `\n`.
pub open spec fn strip_cr(l: Seq<char>) -> Seq<char> {
    if l.len() > 0 && l.last() == '\r' {
        l.drop_last()
    } else {
        l
    }
}

/// The lines of `s` from position `i` on, the current line's characters so
/// far being `cur`: lines are separated by `'\n'`, each is yielded without
/// its terminator and without a trailing `'\r'`, and a final fragment after
/// the last separator is yielded only if it is nonempty. This matches
/// reading lines from a buffered source.
pub open spec fn lines_acc(s: Seq<char>, i: int, cur: Seq<char>) -> Seq<Seq<char>>
    decreases s.len() - i,
{
    if i < 0 || i >= s.len() {
        if cur.len() > 0 {
            seq![strip_cr(cur)]
        } else {
            seq![]
        }
    } else if s[i] == '\n' {
        seq![strip_cr(cur)] + lines_acc(s, i + 1, seq![])
    } else {
        lines_acc(s, i + 1, cur.push(s[i]))
    }
}

pub open spec fn spec_lines(s: Seq<char>) -> Seq<Seq<char>> {
    lines_acc(s, 0, seq![])
}

/// Reading a run without a newline only extends the pending line.
proof fn lemma_lines_acc_run(s: Seq<char>, m: int, j: int, cur: Seq<char>)
    requires
        0 <= m <= j <= s.len(),
        forall|t: int| m <= t < j ==> s[t] != '\n',
    ensures
        lines_acc(s, m, cur) == lines_acc(s, j, cur + s.subrange(m, j)),
    decreases j - m,
{
    if m < j {
        lemma_lines_acc_run(s, m + 1, j, cur.push(s[m]));
        assert(cur.push(s[m]) + s.subrange(m + 1, j) =~= cur + s.subrange(m, j));
    } else {
        assert(cur + s.subrange(m, m) =~= cur);
    }
}

/// Splits `s` into lines the way a buffered reader yields them.
pub fn split_lines(s: &str) -> (r: Vec<String>)
    ensures
        views_of(r@) == spec_lines(s@),
{
    let n = s.unicode_len();
    let mut out: Vec<String> = Vec::new();
    let mut i: usize = 0;
    while i < n
        invariant
            i <= n,
            n == s@.len(),
            spec_lines(s@) == views_of(out@) + lines_acc(s@, i as int, Seq::<char>::empty()),
        decreases n - i,
    {
        let start = i;
        while i < n && s.get_char(i) != '\n'
            invariant
                start <= i <= n,
                n == s@.len(),
                forall|t: int| start <= t < i ==> s@[t] != '\n',
            decreases n - i,
        {
            i = i + 1;
        }
        proof {
            lemma_lines_acc_run(s@, start as int, i as int, Seq::<char>::empty());
            assert(Seq::<char>::empty() + s@.subrange(start as int, i as int) =~= s@.subrange(
                start as int,
                i as int,
            ));
        }
        let ghost cur = s@.subrange(start as int, i as int);
        let line = if i > start && s.get_char(i - 1) == '\r' {
            proof {
                assert(cur.drop_last() =~= s@.subrange(start as int, i - 1));
            }
            s.substring_char(start, i - 1).to_owned()
        } else {
            s.substring_char(start, i).to_owned()
        };
        assert(line@ == strip_cr(cur));
        let ghost old_out = out@;
        out.push(line);
        proof {
            assert(views_of(out@) =~= views_of(old_out).push(line@));
        }
        if i < n {
            proof {
                assert(views_of(old_out) + lines_acc(s@, start as int, Seq::<char>::empty())
                    =~= views_of(out@) + lines_acc(s@, i + 1, Seq::<char>::empty()));
            }
            i = i + 1;
        } else {
            proof {
                assert(cur.len() > 0);
                assert(views_of(old_out) + lines_acc(s@, start as int, Seq::<char>::empty())
                    =~= views_of(out@) + lines_acc(s@, i as int, Seq::<char>::empty()));
            }
        }
    }
    proof {
        assert(views_of(out@) + lines_acc(s@, n as int, Seq::<char>::empty()) =~= views_of(out@));
    }
    out
}

/// A decimal digit.
pub open spec fn is_digit(c: char) -> bool {
    48 <= c as int && c as int <= 57
}

pub open spec fn digit_val(c: char) -> int {
    c as int - 48
}

pub open spec fn all_digits(s: Seq<char>) -> bool {
    forall|i: int| 0 <= i < s.len() ==> is_digit(#[trigger] s[i])
}

/// The number a digit string denotes, most significant digit first.
pub open spec fn digits_val(s: Seq<char>) -> int
    decreases s.len(),
{
    if s.len() == 0 {
        0
    } else {
        digits_val(s.drop_last()) * 10 + digit_val(s.last())
    }
}

/// The digit portion of a decimal string: `u64` parsing accepts one
/// optional leading plus sign.
pub open spec fn u64_digits(s: Seq<char>) -> Seq<char> {
    if s.len() > 0 && s[0] == '+' {
        s.drop_first()
    } else {
        s
    }
}

/// Whether `s` is a string `u64` parsing accepts: an optional plus sign,
/// then at least one digit, denoting a value that fits in a `u64`.
pub open spec fn is_u64_string(s: Seq<char>) -> bool {
    let d = u64_digits(s);
    d.len() > 0 && all_digits(d) && digits_val(d) <= u64::MAX
}

pub open spec fn u64_string_val(s: Seq<char>) -> int {
    digits_val(u64_digits(s))
}

proof fn lemma_digits_val_nonneg(s: Seq<char>)
    requires
        all_digits(s),
    ensures
        digits_val(s) >= 0,
    decreases s.len(),
{
    if s.len() > 0 {
        lemma_digits_val_nonneg(s.drop_last());
    }
}

/// A digit string's prefixes denote no more than the whole string does.
proof fn lemma_digits_val_prefix_le(s: Seq<char>, i: int)
    requires
        all_digits(s),
        0 <= i <= s.len(),
    ensures
        digits_val(s.subrange(0, i)) <= digits_val(s),
    decreases s.len() - i,
{
    if i < s.len() {
        lemma_digits_val_prefix_le(s, i + 1);
        let p = s.subrange(0, i + 1);
        assert(p.drop_last() =~= s.subrange(0, i));
        assert(all_digits(s.subrange(0, i)));
        lemma_digits_val_nonneg(s.subrange(0, i));
    } else {
        assert(s.subrange(0, i) =~= s);
    }
}

/// Parses a decimal `u64` as `u64::from_str` does: an optional leading
/// plus sign, then one or more digits; anything else, or a value that does
/// not fit, is rejected.
pub fn parse_u64(s: &str) -> (r: Option<u64>)
    ensures
        match r {
            Some(v) => is_u64_string(s@) && v == u64_string_val(s@),
            None => !is_u64_string(s@),
        },
{
    let n = s.unicode_len();
    let mut i: usize = 0;
    if n > 0 && s.get_char(0) == '+' {
        i = 1;
    }
    let ghost start = i as int;
    let ghost d = u64_digits(s@);
    proof {
        assert(d =~= s@.subrange(start, n as int));
    }
    if i == n {
        return None;
    }
    let mut val: u64 = 0;
    while i < n
        invariant
            0 <= start <= i <= n,
            n == s@.len(),
            d == u64_digits(s@),
            d =~= s@.subrange(start, n as int),
            d.len() > 0,
            forall|t: int| start <= t < i ==> is_digit(#[trigger] s@[t]),
            val == digits_val(s@.subrange(start, i as int)),
        decreases n - i,
    {
        let c = s.get_char(i);
        let u = c as u32;
        if !(48 <= u && u <= 57) {
            proof {
                assert(d[i - start] == s@[i as int]);
                assert(!all_digits(d));
            }
            return None;
        }
        let dv: u64 = (u - 48) as u64;
        let ghost p = s@.subrange(start, i + 1);
        proof {
            assert(p.len() == i + 1 - start);
            assert(forall|t: int| 0 <= t < p.len() ==> p[t] == s@[start + t]);
            assert(p.drop_last() =~= s@.subrange(start, i as int));
            assert(all_digits(p));
        }
        let next = match val.checked_mul(10) {
            Some(m) => m.checked_add(dv),
            None => None,
        };
        match next {
            Some(v) => {
                val = v;
            },
            None => {
                proof {
                    lemma_digits_val_nonneg(s@.subrange(start, i as int));
                    assert(digits_val(p) > u64::MAX);
                    if all_digits(d) {
                        assert(p =~= d.subrange(0, i + 1 - start));
                        lemma_digits_val_prefix_le(d, i + 1 - start);
                    }
                }
                return None;
            },
        }
        i = i + 1;
    }
    proof {
        assert(s@.subrange(start, n as int) =~= d);
    }
    Some(val)
}

} // verus!
