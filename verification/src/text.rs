use vstd::prelude::*;

verus! {

/// The characters of `s`, in order.
pub fn chars_of(s: &str) -> (r: Vec<char>)
    ensures
        r@ == s@,
{
    let mut v: Vec<char> = Vec::new();
    for c in it: s.chars()
        invariant
            it.seq() == s@,
            v@ == it.seq().take(it.index()),
    {
        v.push(c);
    }
    v
}

/// Collects characters into a `String` (std's `FromIterator<char>` for `String`).
/// Claimed: the string holds exactly the given characters, in order.
#[verifier::external_body]
pub(crate) fn string_from_chars(v: &Vec<char>) -> (r: String)
    ensures
        r@ == v@,
{
    v.iter().collect()
}

/// A copy of an optional string.
pub fn clone_text(o: &Option<String>) -> (r: Option<String>)
    ensures
        r == *o,
{
    match o {
        Some(s) => Some(s.clone()),
        None => None,
    }
}

/// `s` without any line feed.
pub open spec fn without_newlines(s: Seq<char>) -> Seq<char> {
    s.filter(|c: char| c != '\n')
}

/// Removes every line feed from `s`, as `str::replace('\n', "")` does.
pub fn strip_newlines(s: &str) -> (r: String)
    ensures
        r@ == without_newlines(s@),
{
    let cs = chars_of(s);
    let mut kept: Vec<char> = Vec::new();
    let n = cs.len();
    for i in 0..n
        invariant
            n == cs@.len(),
            cs@ == s@,
            kept@ == without_newlines(cs@.take(i as int)),
    {
        proof {
            reveal_with_fuel(Seq::<char>::filter, 1);
            assert(cs@.take(i + 1).drop_last() =~= cs@.take(i as int));
        }
        if cs[i] != '\n' {
            kept.push(cs[i]);
        }
    }
    proof {
        assert(cs@.take(n as int) =~= cs@);
    }
    string_from_chars(&kept)
}

/// A line feed anywhere in a text does not change what the text is without line feeds,
/// so neither what the replies of the box are read as.
pub proof fn line_feeds_do_not_matter(a: Seq<char>, b: Seq<char>)
    ensures
        without_newlines(a + seq!['\n'] + b) == without_newlines(a + b),
{
    let keep = |c: char| c != '\n';
    Seq::filter_distributes_over_add(a, seq!['\n'], keep);
    Seq::filter_distributes_over_add(a + seq!['\n'], b, keep);
    Seq::filter_distributes_over_add(a, b, keep);
    reveal_with_fuel(Seq::<char>::filter, 2);
    assert(seq!['\n'].filter(keep) =~= Seq::<char>::empty());
    assert(a.filter(keep) + Seq::<char>::empty() =~= a.filter(keep));
}

/// An ASCII decimal digit.
pub open spec fn is_digit(c: char) -> bool {
    48 <= c as u32 && c as u32 <= 57
}

/// The value of a decimal digit.
pub open spec fn digit_value(c: char) -> int {
    c as u32 - 48
}

/// Every character of `s` is a decimal digit.
pub open spec fn all_digits(s: Seq<char>) -> bool {
    forall|i: int| 0 <= i < s.len() ==> #[trigger] is_digit(s[i])
}

/// The number that the decimal digits `s` write, most significant first.
pub open spec fn decimal_value(s: Seq<char>) -> int
    decreases s.len(),
{
    if s.len() == 0 {
        0
    } else {
        decimal_value(s.drop_last()) * 10 + digit_value(s.last())
    }
}

/// The integer that `s` writes in the form that std's `FromStr` for integers reads:
/// an optional `+` (or `-` where `signed`), then one decimal digit or more, and nothing
/// else. `None` where `s` has another form.
pub open spec fn decimal_int(s: Seq<char>, signed: bool) -> Option<int> {
    if s.len() == 0 {
        None
    } else {
        let neg = signed && s[0] == '-';
        let start: int = if s[0] == '+' || neg { 1 } else { 0 };
        let body = s.skip(start);
        if body.len() > 0 && all_digits(body) {
            Some(if neg { -decimal_value(body) } else { decimal_value(body) })
        } else {
            None
        }
    }
}

/// What std's `str::parse::<i32>` gives: `Some` exactly where the text writes an
/// integer that fits in an `i32`.
pub open spec fn i32_of(s: Seq<char>) -> Option<i32> {
    match decimal_int(s, true) {
        Some(v) => if i32::MIN <= v <= i32::MAX { Some(v as i32) } else { None },
        None => None,
    }
}

/// What std's `str::parse::<usize>` gives.
pub open spec fn usize_of(s: Seq<char>) -> Option<usize> {
    match decimal_int(s, false) {
        Some(v) => if 0 <= v <= usize::MAX { Some(v as usize) } else { None },
        None => None,
    }
}

/// What std's `str::parse::<u16>` gives.
pub open spec fn u16_of(s: Seq<char>) -> Option<u16> {
    match decimal_int(s, false) {
        Some(v) => if 0 <= v <= u16::MAX { Some(v as u16) } else { None },
        None => None,
    }
}

proof fn lemma_decimal_value_nonneg(s: Seq<char>)
    requires
        all_digits(s),
    ensures
        decimal_value(s) >= 0,
    decreases s.len(),
{
    if s.len() > 0 {
        assert(is_digit(s[s.len() - 1]));
        lemma_decimal_value_nonneg(s.drop_last());
    }
}

/// A digit string is worth at least as much as any of its prefixes.
proof fn lemma_decimal_value_prefix(s: Seq<char>, k: int)
    requires
        all_digits(s),
        0 <= k <= s.len(),
    ensures
        decimal_value(s.take(k)) <= decimal_value(s),
    decreases s.len(),
{
    if k < s.len() {
        assert(s.drop_last().take(k) =~= s.take(k));
        lemma_decimal_value_prefix(s.drop_last(), k);
        lemma_decimal_value_nonneg(s.drop_last());
        assert(is_digit(s[s.len() - 1]));
    } else {
        assert(s.take(k) =~= s);
    }
}

/// Reads `s` as `decimal_int` does, where the magnitude is at most `limit`.
fn decimal_within(s: &Vec<char>, signed: bool, limit: u64) -> (r: Option<i128>)
    requires
        limit >= 9,
    ensures
        match decimal_int(s@, signed) {
            Some(v) => if -limit <= v <= limit { r == Some(v as i128) } else { r is None },
            None => r is None,
        },
        r matches Some(v) ==> (signed || v >= 0),
{
    let n = s.len();
    if n == 0 {
        return None;
    }
    let neg = signed && s[0] == '-';
    let start: usize = if s[0] == '+' || neg { 1 } else { 0 };
    let ghost body = s@.skip(start as int);
    if start == n {
        return None;
    }
    let mut i: usize = start;
    let mut m: u64 = 0;
    while i < n
        invariant
            n == s@.len(),
            start <= i <= n,
            start < n,
            neg == (signed && s@[0] == '-'),
            start == (if s@[0] == '+' || neg { 1int } else { 0int }),
            body == s@.skip(start as int),
            all_digits(s@.subrange(start as int, i as int)),
            m == decimal_value(s@.subrange(start as int, i as int)),
            m <= limit,
            limit >= 9,
        decreases n - i,
    {
        let c = s[i];
        let ghost prefix = s@.subrange(start as int, i as int);
        let ghost next = s@.subrange(start as int, i + 1);
        assert(next.drop_last() =~= prefix);
        assert(body.take(i + 1 - start) =~= next);
        let code = c as u32;
        if code < 48 || code > 57 {
            assert(!is_digit(body[i - start]));
            return None;
        }
        let d: u64 = (code - 48) as u64;
        assert(all_digits(next)) by {
            assert forall|j: int| 0 <= j < next.len() implies #[trigger] is_digit(next[j]) by {
                if j < prefix.len() {
                    assert(next[j] == prefix[j]);
                }
            }
        }
        if m > (limit - d) / 10 {
            assert(m * 10 + d > limit) by (nonlinear_arith)
                requires
                    m > (limit - d) / 10,
                    d <= limit,
            ;
            proof {
                assert(next.last() == c);
                assert(decimal_value(next) == m * 10 + d);
                if all_digits(body) {
                    lemma_decimal_value_prefix(body, i + 1 - start);
                    assert(decimal_value(body) > limit);
                }
            }
            return None;
        }
        assert(m * 10 + d <= limit) by (nonlinear_arith)
            requires
                m <= (limit - d) / 10,
                d <= limit,
        ;
        m = m * 10 + d;
        i = i + 1;
    }
    assert(s@.subrange(start as int, n as int) =~= body);
    if neg {
        Some(-(m as i128))
    } else {
        Some(m as i128)
    }
}

/// Reads `s` as std's `str::parse::<i32>` does.
pub fn parse_i32(s: &str) -> (r: Option<i32>)
    ensures
        r == i32_of(s@),
{
    let cs = chars_of(s);
    match decimal_within(&cs, true, 0x8000_0000) {
        Some(v) => {
            if v <= 0x7fff_ffff {
                Some(v as i32)
            } else {
                None
            }
        },
        None => None,
    }
}

/// Reads `s` as std's `str::parse::<usize>` does.
pub fn parse_usize(s: &str) -> (r: Option<usize>)
    ensures
        r == usize_of(s@),
{
    let cs = chars_of(s);
    match decimal_within(&cs, false, usize::MAX as u64) {
        Some(v) => Some(v as usize),
        None => None,
    }
}

/// Reads `s` as std's `str::parse::<u16>` does.
pub fn parse_u16(s: &str) -> (r: Option<u16>)
    ensures
        r == u16_of(s@),
{
    let cs = chars_of(s);
    match decimal_within(&cs, false, 0xffff) {
        Some(v) => Some(v as u16),
        None => None,
    }
}

} // verus!
