use vstd::prelude::*;
use std::collections::HashSet;

verus! {

broadcast use vstd::std_specs::hash::group_hash_axioms;

/// What `str::lines` yields: the text cut after each line feed, a carriage
/// return that stands just before a line feed taken off with it, and no empty
/// last line after a final line feed.
pub uninterp spec fn lines_of(s: Seq<char>) -> Seq<Seq<char>>;

/// What `str::trim` returns: the text without leading and trailing
/// Unicode white space.
pub uninterp spec fn trimmed(s: Seq<char>) -> Seq<char>;

/// Relies on std's `str::lines`, which depends on the text alone.
#[verifier::external_body]
fn split_lines(s: &str) -> (r: Vec<String>)
    ensures
        r@.len() == lines_of(s@).len(),
        forall|i: int| 0 <= i < r@.len() ==> #[trigger] r@[i]@ == lines_of(s@)[i],
{
    s.lines().map(String::from).collect()
}

/// Relies on std's `str::trim`, which depends on the text alone.
#[verifier::external_body]
fn trim_text(s: &str) -> (r: String)
    ensures
        r@ == trimmed(s@),
{
    s.trim().to_string()
}

/// How one trimmed line of an allow-list file reads.
#[derive(Debug, Clone, PartialEq, Eq)]
pub enum LineKind {
    Blank,
    Comment,
    Id(i64),
    /// Neither blank, a comment, nor an identifier; it is skipped.
    Invalid,
}

pub open spec fn is_digit(c: char) -> bool {
    '0' <= c && c <= '9'
}

pub open spec fn digit_value(c: char) -> int {
    (c as u32) as int - ('0' as u32) as int
}

/// The value of a string of decimal digits, most significant first.
pub open spec fn digits_value(s: Seq<char>) -> int
    decreases s.len(),
{
    if s.len() == 0 {
        0
    } else {
        digits_value(s.drop_last()) * 10 + digit_value(s.last())
    }
}

pub open spec fn all_digits(s: Seq<char>) -> bool {
    forall|i: int| 0 <= i < s.len() ==> is_digit(#[trigger] s[i])
}

/// The integer that a text writes in decimal: an optional `+` or `-`, then
/// one digit or more, nothing else.
pub open spec fn decimal_value(t: Seq<char>) -> Option<int> {
    let signed = t.len() > 0 && (t[0] == '-' || t[0] == '+');
    let body = if signed {
        t.drop_first()
    } else {
        t
    };
    if body.len() > 0 && all_digits(body) {
        if signed && t[0] == '-' {
            Some(-digits_value(body))
        } else {
            Some(digits_value(body))
        }
    } else {
        None
    }
}

/// The `i64` that a text writes in decimal, where it fits.
pub open spec fn id_of(t: Seq<char>) -> Option<i64> {
    match decimal_value(t) {
        Some(v) => if i64::MIN <= v <= i64::MAX {
            Some(v as i64)
        } else {
            None
        },
        None => None,
    }
}

/// How a line reads once trimmed.
pub open spec fn line_kind(t: Seq<char>) -> LineKind {
    if t.len() == 0 {
        LineKind::Blank
    } else if t[0] == '#' {
        LineKind::Comment
    } else {
        match id_of(t) {
            Some(v) => LineKind::Id(v),
            None => LineKind::Invalid,
        }
    }
}

/// The identifier that line `i` of `text` contributes, if any.
pub open spec fn line_id(text: Seq<char>, i: int) -> Option<i64> {
    match line_kind(trimmed(lines_of(text)[i])) {
        LineKind::Id(v) => Some(v),
        _ => None,
    }
}

/// The identifiers that an allow-list text holds: one for each line that
/// reads as an identifier once trimmed.
pub open spec fn ids_of(text: Seq<char>) -> Set<i64> {
    Set::new(|v: i64| exists|i: int| 0 <= i < lines_of(text).len() && line_id(text, i) == Some(v))
}

proof fn lemma_digits_nonneg(s: Seq<char>)
    requires
        all_digits(s),
    ensures
        digits_value(s) >= 0,
    decreases s.len(),
{
    if s.len() > 0 {
        lemma_digits_nonneg(s.drop_last());
    }
}

proof fn lemma_digits_grow(s: Seq<char>, j: int, k: int)
    requires
        all_digits(s),
        0 <= j <= k <= s.len(),
    ensures
        digits_value(s.subrange(0, j)) <= digits_value(s.subrange(0, k)),
    decreases k - j,
{
    if j < k {
        lemma_digits_grow(s, j, k - 1);
        let p = s.subrange(0, k);
        assert(p.drop_last() =~= s.subrange(0, k - 1));
        lemma_digits_nonneg(s.subrange(0, k - 1));
        assert(is_digit(s[k - 1]));
    }
}

/// Reads a decimal `i64` as `str::parse` does: an optional sign, then
/// digits; `None` on anything else or where the value does not fit.
pub fn parse_id(t: &str) -> (r: Option<i64>)
    ensures
        r == id_of(t@),
{
    let n = t.unicode_len();
    if n == 0 {
        return None;
    }
    let first = t.get_char(0);
    let neg = first == '-';
    let start: usize = if first == '-' || first == '+' {
        1
    } else {
        0
    };
    if start == n {
        return None;
    }
    let ghost body = t@.subrange(start as int, n as int);
    assert(start == 1 ==> body =~= t@.drop_first());
    assert(start == 0 ==> body =~= t@);
    let limit: u128 = 0x8000_0000_0000_0000;
    let mut acc: u128 = 0;
    let mut i: usize = start;
    while i < n
        invariant
            start <= i <= n,
            n == t@.len(),
            n > 0,
            limit == 0x8000_0000_0000_0000,
            start <= 1,
            neg == (t@[0] == '-'),
            (start == 1) == (t@[0] == '-' || t@[0] == '+'),
            start == 1 ==> body == t@.drop_first(),
            start == 0 ==> body == t@,
            body == t@.subrange(start as int, n as int),
            forall|k: int| 0 <= k < i - start ==> is_digit(#[trigger] body[k]),
            acc == digits_value(body.subrange(0, i - start)),
            acc <= limit,
        decreases n - i,
    {
        let c = t.get_char(i);
        if c < '0' || c > '9' {
            assert(!is_digit(body[i - start]));
            return None;
        }
        let d = (c as u32 - '0' as u32) as u128;
        proof {
            let p = body.subrange(0, i + 1 - start);
            assert(p.drop_last() =~= body.subrange(0, i - start));
            assert(p.last() == c);
        }
        assert(acc * 10 <= 0x5_0000_0000_0000_0000) by (nonlinear_arith)
            requires
                acc <= 0x8000_0000_0000_0000,
        ;
        assert(d <= 9);
        acc = acc * 10 + d;
        i = i + 1;
        if acc > limit {
            let mut j: usize = i;
            while j < n
                invariant
                    start <= i <= j <= n,
                    n == t@.len(),
                    n > 0,
                    limit == 0x8000_0000_0000_0000,
                    start <= 1,
                    acc > limit,
                    acc == digits_value(body.subrange(0, i - start)),
                    neg == (t@[0] == '-'),
                    (start == 1) == (t@[0] == '-' || t@[0] == '+'),
                    start == 1 ==> body == t@.drop_first(),
                    start == 0 ==> body == t@,
                    body == t@.subrange(start as int, n as int),
                    forall|k: int| 0 <= k < j - start ==> is_digit(#[trigger] body[k]),
                decreases n - j,
            {
                let c2 = t.get_char(j);
                if c2 < '0' || c2 > '9' {
                    assert(!is_digit(body[j - start]));
                    return None;
                }
                j = j + 1;
            }
            proof {
                assert(all_digits(body));
                lemma_digits_grow(body, i - start, body.len() as int);
                assert(body.subrange(0, body.len() as int) =~= body);
                assert(digits_value(body) > 0x8000_0000_0000_0000);
                if neg {
                    assert(decimal_value(t@) == Some(-digits_value(body)));
                } else {
                    assert(decimal_value(t@) == Some(digits_value(body)));
                }
            }
            return None;
        }
    }
    assert(body.subrange(0, n - start) =~= body);
    assert(all_digits(body));
    if neg {
        Some((0i128 - acc as i128) as i64)
    } else if acc < limit {
        Some(acc as i64)
    } else {
        None
    }
}

/// Classifies one trimmed line.
pub fn classify_line(t: &str) -> (r: LineKind)
    ensures
        r == line_kind(t@),
{
    let n = t.unicode_len();
    if n == 0 {
        return LineKind::Blank;
    }
    if t.get_char(0) == '#' {
        return LineKind::Comment;
    }
    match parse_id(t) {
        Some(v) => LineKind::Id(v),
        None => LineKind::Invalid,
    }
}

/// The set of user identifiers that an allow-list text holds. Blank lines
/// and lines that start with `#` are ignored; lines that do not read as an
/// identifier are skipped.
pub fn parse_allowed_users(text: &str) -> (r: HashSet<i64>)
    ensures
        r@ == ids_of(text@),
{
    let lines = split_lines(text);
    let mut set: HashSet<i64> = HashSet::new();
    let mut i: usize = 0;
    while i < lines.len()
        invariant
            i <= lines@.len(),
            lines@.len() == lines_of(text@).len(),
            forall|k: int| 0 <= k < lines@.len() ==> #[trigger] lines@[k]@ == lines_of(text@)[k],
            set@ == Set::new(
                |v: i64| exists|k: int| 0 <= k < i && line_id(text@, k) == Some(v),
            ),
        decreases lines@.len() - i,
    {
        let t = trim_text(lines[i].as_str());
        assert(lines@[i as int]@ == lines_of(text@)[i as int]);
        let kind = classify_line(t.as_str());
        let ghost before = set@;
        match kind {
            LineKind::Id(v) => {
                set.insert(v);
            },
            _ => {},
        }
        proof {
            assert(set@ =~= Set::new(
                |v: i64| exists|k: int| 0 <= k < i + 1 && line_id(text@, k) == Some(v),
            )) by {
                assert forall|v: i64| set@.contains(v) implies exists|k: int|
                    0 <= k < i + 1 && line_id(text@, k) == Some(v) by {
                    if before.contains(v) {
                        let k = choose|k: int| 0 <= k < i && line_id(text@, k) == Some(v);
                        assert(0 <= k < i + 1 && line_id(text@, k) == Some(v));
                    } else {
                        assert(line_id(text@, i as int) == Some(v));
                    }
                }
                assert forall|v: i64| (exists|k: int| 0 <= k < i + 1 && line_id(text@, k) == Some(v))
                    implies set@.contains(v) by {
                    let k = choose|k: int| 0 <= k < i + 1 && line_id(text@, k) == Some(v);
                    if k < i {
                        assert(before.contains(v));
                    }
                }
            }
        }
        i = i + 1;
    }
    set
}

/// The users that the chat front end answers.
#[derive(Debug)]
pub struct AllowList {
    pub ids: HashSet<i64>,
}

impl AllowList {
    /// The allow-list that a text holds.
    pub fn from_text(text: &str) -> (r: AllowList)
        ensures
            r.ids@ == ids_of(text@),
    {
        AllowList { ids: parse_allowed_users(text) }
    }

    /// An empty allow-list, used where the file is missing.
    pub fn empty() -> (r: AllowList)
        ensures
            r.ids@ == Set::<i64>::empty(),
    {
        AllowList { ids: HashSet::new() }
    }

    pub fn len(&self) -> (r: usize)
        ensures
            r == self.ids@.len(),
    {
        self.ids.len()
    }

    /// Whether `user_id` is allow-listed.
    pub fn is_authorized(&self, user_id: i64) -> (r: bool)
        ensures
            r == self.ids@.contains(user_id),
    {
        self.ids.contains(&user_id)
    }
}

} // verus!
