//! Verified rendering of integers and millisecond counts as text.
use vstd::prelude::*;
use vstd::string::StringExecFns;

verus! {

/// The one-character text of a decimal digit.
pub open spec fn digit_lit(d: int) -> Seq<char> {
    if d == 0 {
        "0"@
    } else if d == 1 {
        "1"@
    } else if d == 2 {
        "2"@
    } else if d == 3 {
        "3"@
    } else if d == 4 {
        "4"@
    } else if d == 5 {
        "5"@
    } else if d == 6 {
        "6"@
    } else if d == 7 {
        "7"@
    } else if d == 8 {
        "8"@
    } else {
        "9"@
    }
}

/// Decimal text of a non-negative integer, without padding.
pub open spec fn dec_str(n: int) -> Seq<char>
    decreases n,
{
    if n < 10 {
        digit_lit(n)
    } else {
        dec_str(n / 10) + digit_lit(n % 10)
    }
}

/// Decimal text of `n` padded to two digits; intended for `0 <= n < 100`.
pub open spec fn two_dec(n: int) -> Seq<char> {
    digit_lit(n / 10) + digit_lit(n % 10)
}

/// Decimal text of an integer, with a leading minus sign when negative.
pub open spec fn int_str(n: int) -> Seq<char> {
    if n < 0 {
        "-"@ + dec_str(-n)
    } else {
        dec_str(n)
    }
}

/// Decimal text padded on the left with `0` to a width of two, as the
/// original zero-padded formatting does: one extra `0` for a single
/// digit, and the plain text everywhere else.
pub open spec fn pad2(n: int) -> Seq<char> {
    if 0 <= n < 10 {
        "0"@ + digit_lit(n)
    } else {
        int_str(n)
    }
}

/// Negative millisecond counts render as zero.
pub open spec fn clamp_ms(ms: int) -> int {
    if ms < 0 {
        0
    } else {
        ms
    }
}

/// A non-negative millisecond count as `H:MM:SS` when at least an hour,
/// else `M:SS`; seconds are floored, minutes and seconds zero-padded.
pub open spec fn duration_text(ms: int) -> Seq<char> {
    let t = ms / 1000;
    if t >= 3600 {
        dec_str(t / 3600) + ":"@ + two_dec((t % 3600) / 60) + ":"@ + two_dec(t % 60)
    } else {
        dec_str(t / 60) + ":"@ + two_dec(t % 60)
    }
}

/// `elapsed / total`, both as duration text.
pub open spec fn progress_pair_text(elapsed_ms: int, total_ms: int) -> Seq<char> {
    duration_text(clamp_ms(elapsed_ms)) + " / "@ + duration_text(clamp_ms(total_ms))
}

pub fn digit_str(d: u64) -> (r: &'static str)
    requires
        d < 10,
    ensures
        r@ == digit_lit(d as int),
{
    match d {
        0 => "0",
        1 => "1",
        2 => "2",
        3 => "3",
        4 => "4",
        5 => "5",
        6 => "6",
        7 => "7",
        8 => "8",
        _ => "9",
    }
}

pub fn u64_str(n: u64) -> (r: String)
    ensures
        r@ == dec_str(n as int),
    decreases n,
{
    if n < 10 {
        digit_str(n).to_owned()
    } else {
        let mut s = u64_str(n / 10);
        s.append(digit_str(n % 10));
        s
    }
}

pub fn two_dec_str(n: u64) -> (r: String)
    requires
        n < 100,
    ensures
        r@ == two_dec(n as int),
{
    let mut s = digit_str(n / 10).to_owned();
    s.append(digit_str(n % 10));
    s
}

pub fn i64_str(n: i64) -> (r: String)
    ensures
        r@ == int_str(n as int),
{
    if n < 0 {
        let wide: i128 = -(n as i128);
        let mag: u64 = wide as u64;
        let mut s = "-".to_owned();
        s.append(u64_str(mag).as_str());
        s
    } else {
        u64_str(n as u64)
    }
}

pub fn pad2_str(n: i64) -> (r: String)
    ensures
        r@ == pad2(n as int),
{
    if 0 <= n && n < 10 {
        let mut s = "0".to_owned();
        s.append(digit_str(n as u64));
        s
    } else {
        i64_str(n)
    }
}

/// The `H:MM:SS` / `M:SS` rendering of a millisecond count.
pub fn duration_string(ms: u64) -> (r: String)
    ensures
        r@ == duration_text(ms as int),
{
    let t: u64 = ms / 1000;
    let secs: u64 = t % 60;
    if t >= 3600 {
        let hours: u64 = t / 3600;
        let mins: u64 = (t % 3600) / 60;
        let mut s = u64_str(hours);
        s.append(":");
        s.append(two_dec_str(mins).as_str());
        s.append(":");
        s.append(two_dec_str(secs).as_str());
        s
    } else {
        let mins: u64 = t / 60;
        let mut s = u64_str(mins);
        s.append(":");
        s.append(two_dec_str(secs).as_str());
        s
    }
}

/// How many colons a text holds; the separator count tells the two
/// duration formats apart.
spec fn colon_count(s: Seq<char>) -> int
    decreases s.len(),
{
    if s.len() == 0 {
        0
    } else {
        colon_count(s.drop_last()) + if s.last() == ':' {
            1int
        } else {
            0int
        }
    }
}

proof fn lemma_colon_count_concat(a: Seq<char>, b: Seq<char>)
    ensures
        colon_count(a + b) == colon_count(a) + colon_count(b),
    decreases b.len(),
{
    if b.len() == 0 {
        assert(a + b =~= a);
    } else {
        lemma_colon_count_concat(a, b.drop_last());
        assert((a + b).drop_last() =~= a + b.drop_last());
        assert((a + b).last() == b.last());
    }
}

proof fn lemma_colon_count_single(c: char)
    ensures
        colon_count(seq![c]) == if c == ':' {
            1int
        } else {
            0int
        },
{
    assert(seq![c].drop_last() =~= Seq::<char>::empty());
    assert(colon_count(Seq::<char>::empty()) == 0);
    assert(seq![c].last() == c);
}

proof fn lemma_digit_no_colon(d: int)
    ensures
        colon_count(digit_lit(d)) == 0,
{
    reveal_strlit("0");
    reveal_strlit("1");
    reveal_strlit("2");
    reveal_strlit("3");
    reveal_strlit("4");
    reveal_strlit("5");
    reveal_strlit("6");
    reveal_strlit("7");
    reveal_strlit("8");
    reveal_strlit("9");
    assert("0"@ =~= seq!['0']);
    assert("1"@ =~= seq!['1']);
    assert("2"@ =~= seq!['2']);
    assert("3"@ =~= seq!['3']);
    assert("4"@ =~= seq!['4']);
    assert("5"@ =~= seq!['5']);
    assert("6"@ =~= seq!['6']);
    assert("7"@ =~= seq!['7']);
    assert("8"@ =~= seq!['8']);
    assert("9"@ =~= seq!['9']);
    lemma_colon_count_single('0');
    lemma_colon_count_single('1');
    lemma_colon_count_single('2');
    lemma_colon_count_single('3');
    lemma_colon_count_single('4');
    lemma_colon_count_single('5');
    lemma_colon_count_single('6');
    lemma_colon_count_single('7');
    lemma_colon_count_single('8');
    lemma_colon_count_single('9');
}

proof fn lemma_dec_str_no_colon(n: int)
    ensures
        colon_count(dec_str(n)) == 0,
    decreases n,
{
    if n < 10 {
        lemma_digit_no_colon(n);
    } else {
        lemma_dec_str_no_colon(n / 10);
        lemma_digit_no_colon(n % 10);
        lemma_colon_count_concat(dec_str(n / 10), digit_lit(n % 10));
    }
}

proof fn lemma_two_dec_no_colon(n: int)
    ensures
        colon_count(two_dec(n)) == 0,
{
    lemma_digit_no_colon(n / 10);
    lemma_digit_no_colon(n % 10);
    lemma_colon_count_concat(digit_lit(n / 10), digit_lit(n % 10));
}

proof fn lemma_colon_lit()
    ensures
        colon_count(":"@) == 1,
{
    reveal_strlit(":");
    assert(":"@ =~= seq![':']);
    lemma_colon_count_single(':');
}

/// The `H:MM:SS` form: some hour text, then zero-padded minutes and
/// seconds below sixty, colon-separated.
pub open spec fn hms_shape(s: Seq<char>) -> bool {
    exists|h: int, m: int, c: int|
        #![trigger dec_str(h), two_dec(m), two_dec(c)]
        h >= 1 && 0 <= m < 60 && 0 <= c < 60 && s == dec_str(h) + ":"@ + two_dec(m) + ":"@
            + two_dec(c)
}

/// The `M:SS` form: unpadded minutes below sixty, then zero-padded
/// seconds below sixty, one colon between them.
pub open spec fn mss_shape(s: Seq<char>) -> bool {
    exists|m: int, c: int|
        #![trigger dec_str(m), two_dec(c)]
        0 <= m < 60 && 0 <= c < 60 && s == dec_str(m) + ":"@ + two_dec(c)
}

proof fn lemma_hms_colons(s: Seq<char>)
    requires
        hms_shape(s),
    ensures
        colon_count(s) == 2,
{
    let (h, m, c) = choose|h: int, m: int, c: int|
        #![trigger dec_str(h), two_dec(m), two_dec(c)]
        h >= 1 && 0 <= m < 60 && 0 <= c < 60 && s == dec_str(h) + ":"@ + two_dec(m) + ":"@
            + two_dec(c);
    lemma_dec_str_no_colon(h);
    lemma_two_dec_no_colon(m);
    lemma_two_dec_no_colon(c);
    lemma_colon_lit();
    lemma_colon_count_concat(dec_str(h), ":"@);
    lemma_colon_count_concat(dec_str(h) + ":"@, two_dec(m));
    lemma_colon_count_concat(dec_str(h) + ":"@ + two_dec(m), ":"@);
    lemma_colon_count_concat(dec_str(h) + ":"@ + two_dec(m) + ":"@, two_dec(c));
}

proof fn lemma_mss_colons(s: Seq<char>)
    requires
        mss_shape(s),
    ensures
        colon_count(s) == 1,
{
    let (m, c) = choose|m: int, c: int|
        #![trigger dec_str(m), two_dec(c)]
        0 <= m < 60 && 0 <= c < 60 && s == dec_str(m) + ":"@ + two_dec(c);
    lemma_dec_str_no_colon(m);
    lemma_two_dec_no_colon(c);
    lemma_colon_lit();
    lemma_colon_count_concat(dec_str(m), ":"@);
    lemma_colon_count_concat(dec_str(m) + ":"@, two_dec(c));
}

/// For every non-negative millisecond count the rendering takes the
/// `H:MM:SS` form exactly when a full hour is reached, and the `M:SS`
/// form exactly otherwise; the two forms exclude each other.
pub proof fn lemma_duration_text_shape(ms: int)
    requires
        ms >= 0,
    ensures
        hms_shape(duration_text(ms)) <==> ms >= 3_600_000,
        mss_shape(duration_text(ms)) <==> ms < 3_600_000,
{
    let s = duration_text(ms);
    let t = ms / 1000;
    assert(t >= 3600 <==> ms >= 3_600_000);
    if ms >= 3_600_000 {
        let h = t / 3600;
        let m = (t % 3600) / 60;
        let c = t % 60;
        assert(h >= 1);
        assert(0 <= m < 60);
        assert(0 <= c < 60);
        assert(s == dec_str(h) + ":"@ + two_dec(m) + ":"@ + two_dec(c));
        assert(hms_shape(s));
        lemma_hms_colons(s);
        if mss_shape(s) {
            lemma_mss_colons(s);
        }
    } else {
        let m = t / 60;
        let c = t % 60;
        assert(0 <= m < 60);
        assert(0 <= c < 60);
        assert(s == dec_str(m) + ":"@ + two_dec(c));
        assert(mss_shape(s));
        lemma_mss_colons(s);
        if hms_shape(s) {
            lemma_hms_colons(s);
        }
    }
}

/// Character-for-character equality of two text slices.
pub fn str_eq(a: &str, b: &str) -> (r: bool)
    ensures
        r == (a@ == b@),
{
    let owned_a: String = a.to_owned();
    let owned_b: String = b.to_owned();
    owned_a == owned_b
}

} // verus!
