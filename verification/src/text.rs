//! Verified text helpers: decimal rendering of counters and sizes, prefix
//! and substring tests, and first-line extraction for status messages.

use vstd::prelude::*;

verus! {

/// The decimal digit character for a value below ten.
pub open spec fn spec_digit(d: nat) -> char {
    if d == 0 {
        '0'
    } else if d == 1 {
        '1'
    } else if d == 2 {
        '2'
    } else if d == 3 {
        '3'
    } else if d == 4 {
        '4'
    } else if d == 5 {
        '5'
    } else if d == 6 {
        '6'
    } else if d == 7 {
        '7'
    } else if d == 8 {
        '8'
    } else {
        '9'
    }
}

/// The usual decimal rendering of `n`: most significant digit first, no
/// leading zeros except for the single digit of zero itself.
pub open spec fn spec_decimal(n: nat) -> Seq<char>
    decreases n,
{
    if n < 10 {
        seq![spec_digit(n)]
    } else {
        spec_decimal(n / 10).push(spec_digit(n % 10))
    }
}

fn digit_str(d: u64) -> (r: &'static str)
    requires
        d < 10,
    ensures
        r@ == seq![spec_digit(d as nat)],
{
    proof {
        reveal_strlit("0");
        reveal_strlit("1");
        reveal_strlit("2");
        reveal_strlit("3");
        reveal_strlit("4");
        reveal_strlit("5");
        reveal_strlit("6");
        reveal_strlit("7");
        reveal_strlit("8");
        reveal_strlit("9");
    }
    let r: &'static str = if d == 0 {
        "0"
    } else if d == 1 {
        "1"
    } else if d == 2 {
        "2"
    } else if d == 3 {
        "3"
    } else if d == 4 {
        "4"
    } else if d == 5 {
        "5"
    } else if d == 6 {
        "6"
    } else if d == 7 {
        "7"
    } else if d == 8 {
        "8"
    } else {
        "9"
    };
    proof {
        assert(r@ =~= seq![spec_digit(d as nat)]);
    }
    r
}

/// Renders `n` in decimal.
pub fn decimal_string(n: u64) -> (r: String)
    ensures
        r@ == spec_decimal(n as nat),
    decreases n,
{
    let d: u64 = n % 10;
    let ds: &'static str = digit_str(d);
    if n < 10 {
        ds.to_owned()
    } else {
        proof {
            assert(n / 10 < n) by (nonlinear_arith)
                requires
                    n >= 10,
            ;
        }
        let mut prefix = decimal_string(n / 10);
        prefix.append(ds);
        proof {
            assert(spec_decimal((n / 10) as nat).push(spec_digit((n % 10) as nat)) =~= spec_decimal(
                (n / 10) as nat,
            ) + seq![spec_digit((n % 10) as nat)]);
        }
        prefix
    }
}

/// `p` stands at the front of `s`.
pub open spec fn spec_starts_with(s: Seq<char>, p: Seq<char>) -> bool {
    p.len() <= s.len() && s.subrange(0, p.len() as int) == p
}

/// Whether `p` occurs in `s` starting at position `i`.
pub open spec fn spec_matches_at(s: Seq<char>, p: Seq<char>, i: int) -> bool {
    0 <= i && i + p.len() <= s.len() && s.subrange(i, i + p.len()) == p
}

/// `p` occurs somewhere in `s`.
pub open spec fn spec_contains(s: Seq<char>, p: Seq<char>) -> bool {
    exists|i: int| spec_matches_at(s, p, i)
}

fn matches_at(s: &str, p: &str, i: usize, s_len: usize, p_len: usize) -> (r: bool)
    requires
        s_len == s@.len(),
        p_len == p@.len(),
        i + p_len <= s_len,
    ensures
        r == spec_matches_at(s@, p@, i as int),
{
    let mut j: usize = 0;
    while j < p_len
        invariant
            s_len == s@.len(),
            p_len == p@.len(),
            i + p_len <= s_len,
            j <= p_len,
            forall|k: int| 0 <= k < j ==> s@[i + k] == p@[k],
        decreases p_len - j,
    {
        if s.get_char(i + j) != p.get_char(j) {
            proof {
                assert(s@.subrange(i as int, i + p@.len())[j as int] != p@[j as int]);
            }
            return false;
        }
        j += 1;
    }
    proof {
        assert(s@.subrange(i as int, i + p@.len()) =~= p@);
    }
    true
}

/// `s` begins with `p`.
pub fn starts_with(s: &str, p: &str) -> (r: bool)
    ensures
        r == spec_starts_with(s@, p@),
{
    let s_len = s.unicode_len();
    let p_len = p.unicode_len();
    if p_len > s_len {
        return false;
    }
    matches_at(s, p, 0, s_len, p_len)
}

/// `p` occurs somewhere in `s`.
pub fn contains_substr(s: &str, p: &str) -> (r: bool)
    ensures
        r == spec_contains(s@, p@),
{
    let s_len = s.unicode_len();
    let p_len = p.unicode_len();
    if p_len > s_len {
        proof {
            assert(forall|i: int| !spec_matches_at(s@, p@, i));
        }
        return false;
    }
    if p_len == 0 {
        proof {
            assert(s@.subrange(0, 0) =~= p@);
            assert(spec_matches_at(s@, p@, 0));
        }
        return true;
    }
    let upper = s_len - p_len + 1;
    let mut i: usize = 0;
    while i < upper
        invariant
            s_len == s@.len(),
            p_len == p@.len(),
            0 < p_len <= s_len,
            upper == s_len - p_len + 1,
            i <= upper,
            forall|k: int| 0 <= k < i ==> !spec_matches_at(s@, p@, k),
        decreases upper - i,
    {
        if matches_at(s, p, i, s_len, p_len) {
            return true;
        }
        i += 1;
    }
    proof {
        assert(forall|k: int| spec_matches_at(s@, p@, k) ==> 0 <= k <= s@.len() - p@.len());
    }
    false
}

/// The index just past the first line of `s`: the position of the first
/// newline, or the length of `s` when it has none.
pub open spec fn spec_line_end(s: Seq<char>) -> int
    decreases s.len(),
{
    if s.len() == 0 {
        0
    } else if s[0] == '\n' {
        0
    } else {
        1 + spec_line_end(s.drop_first())
    }
}

/// The first line of `s`, with a trailing carriage return removed.
pub open spec fn spec_first_line(s: Seq<char>) -> Seq<char> {
    let head = s.subrange(0, spec_line_end(s));
    if head.len() > 0 && head[head.len() - 1] == '\r' {
        head.drop_last()
    } else {
        head
    }
}

proof fn lemma_line_end_bounds(s: Seq<char>)
    ensures
        0 <= spec_line_end(s) <= s.len(),
        forall|k: int| 0 <= k < spec_line_end(s) ==> s[k] != '\n',
        spec_line_end(s) < s.len() ==> s[spec_line_end(s)] == '\n',
    decreases s.len(),
{
    if s.len() > 0 && s[0] != '\n' {
        lemma_line_end_bounds(s.drop_first());
        assert forall|k: int| 0 <= k < spec_line_end(s) implies s[k] != '\n' by {
            if k > 0 {
                assert(s.drop_first()[k - 1] != '\n');
            }
        }
        if spec_line_end(s) < s.len() {
            assert(s.drop_first()[spec_line_end(s) - 1] == '\n');
        }
    }
}

/// The first line of `s`: everything before the first newline, with a
/// trailing carriage return removed, as `str::lines` would yield it.
pub fn first_line(s: &str) -> (r: String)
    ensures
        r@ == spec_first_line(s@),
{
    let len = s.unicode_len();
    let mut end: usize = 0;
    proof {
        lemma_line_end_bounds(s@);
    }
    while end < len && s.get_char(end) != '\n'
        invariant
            len == s@.len(),
            end <= len,
            forall|k: int| 0 <= k < end ==> s@[k] != '\n',
        decreases len - end,
    {
        end += 1;
    }
    proof {
        assert(spec_line_end(s@) == end as int) by {
            if spec_line_end(s@) < end as int {
                assert(s@[spec_line_end(s@)] == '\n');
            } else if spec_line_end(s@) > end as int {
                assert(end < len);
                assert(s@[end as int] != '\n');
            }
        }
    }
    let head_end = if end > 0 && s.get_char(end - 1) == '\r' {
        end - 1
    } else {
        end
    };
    let head = s.substring_char(0, head_end);
    proof {
        let full = s@.subrange(0, spec_line_end(s@));
        if end > 0 && s@[end - 1] == '\r' {
            assert(full.len() > 0 && full[full.len() - 1] == '\r');
            assert(s@.subrange(0, head_end as int) =~= full.drop_last());
        } else {
            assert(s@.subrange(0, head_end as int) =~= spec_first_line(s@));
        }
    }
    head.to_owned()
}

} // verus!
