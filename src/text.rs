//! Character-level text helpers with exact specifications.
use vstd::prelude::*;
use vstd::string::*;

verus! {

/// `pat` occurs in `text` starting at position `i`.
pub open spec fn occurs_at(text: Seq<char>, pat: Seq<char>, i: int) -> bool {
    0 <= i && i + pat.len() <= text.len() && text.subrange(i, i + pat.len()) == pat
}

/// `pat` occurs somewhere in `text` as a contiguous run of characters.
pub open spec fn seq_contains(text: Seq<char>, pat: Seq<char>) -> bool {
    exists|i: int| occurs_at(text, pat, i)
}

/// `text` begins with `pre`.
pub open spec fn seq_starts_with(text: Seq<char>, pre: Seq<char>) -> bool {
    occurs_at(text, pre, 0)
}

/// The characters of `s`, in order.
pub fn chars_of(s: &str) -> (r: Vec<char>)
    ensures
        r@ == s@,
{
    let n = s.unicode_len();
    let mut r: Vec<char> = Vec::new();
    let mut i: usize = 0;
    while i < n
        invariant
            n == s@.len(),
            i <= n,
            r@ == s@.subrange(0, i as int),
        decreases n - i,
    {
        let c = s.get_char(i);
        r.push(c);
        i = i + 1;
        proof {
            assert(r@ =~= s@.subrange(0, i as int));
        }
    }
    assert(r@ =~= s@);
    r
}

/// Whether `pat` occurs in `text` at position `i`.
fn matches_at(text: &Vec<char>, pat: &Vec<char>, i: usize) -> (r: bool)
    requires
        i + pat@.len() <= text@.len(),
    ensures
        r == occurs_at(text@, pat@, i as int),
{
    let n = text.len();
    let mut j: usize = 0;
    while j < pat.len()
        invariant
            n == text@.len(),
            i + pat@.len() <= text@.len(),
            j <= pat@.len(),
            forall|k: int| 0 <= k < j ==> text@[i + k] == pat@[k],
        decreases pat@.len() - j,
    {
        if text[i + j] != pat[j] {
            proof {
                assert(text@.subrange(i as int, i + pat@.len())[j as int] != pat@[j as int]);
            }
            return false;
        }
        j = j + 1;
    }
    assert(text@.subrange(i as int, i + pat@.len()) =~= pat@);
    true
}

/// Whether `pat` occurs anywhere in `text`.
pub fn contains_chars(text: &Vec<char>, pat: &Vec<char>) -> (r: bool)
    ensures
        r == seq_contains(text@, pat@),
{
    if pat.len() > text.len() {
        return false;
    }
    let last = text.len() - pat.len();
    let mut i: usize = 0;
    while i <= last
        invariant
            last == text@.len() - pat@.len(),
            i <= last + 1,
            forall|k: int| 0 <= k < i ==> !occurs_at(text@, pat@, k),
        decreases last + 1 - i,
    {
        if matches_at(text, pat, i) {
            return true;
        }
        if i == last {
            return false;
        }
        i = i + 1;
    }
    false
}

/// Whether `pat` occurs anywhere in `text`, case-sensitively.
pub fn contains_str(text: &str, pat: &str) -> (r: bool)
    ensures
        r == seq_contains(text@, pat@),
{
    let t = chars_of(text);
    let p = chars_of(pat);
    contains_chars(&t, &p)
}

/// Whether `text` begins with `pre`.
pub fn starts_with_str(text: &str, pre: &str) -> (r: bool)
    ensures
        r == seq_starts_with(text@, pre@),
{
    let t = chars_of(text);
    let p = chars_of(pre);
    if p.len() > t.len() {
        return false;
    }
    matches_at(&t, &p, 0)
}

/// Whether two strings hold the same characters.
pub fn same_text(a: &str, b: &str) -> (r: bool)
    ensures
        r == (a@ == b@),
{
    let x = chars_of(a);
    let y = chars_of(b);
    if x.len() != y.len() {
        return false;
    }
    let r = matches_at(&x, &y, 0);
    proof {
        if r {
            assert(x@ =~= x@.subrange(0, y@.len() as int));
        }
        if x@ == y@ {
            assert(x@.subrange(0, y@.len() as int) =~= y@);
        }
    }
    r
}

} // verus!

verus! {

/// The character of a decimal digit.
pub open spec fn digit_char(d: nat) -> char {
    "0123456789"@[d as int]
}

/// The decimal digits of `n`, without leading zeros.
pub open spec fn decimal_digits(n: nat) -> Seq<char>
    decreases n,
{
    if n < 10 {
        seq![digit_char(n)]
    } else {
        decimal_digits(n / 10).push(digit_char(n % 10))
    }
}

/// `v` hundredths written with two decimal places, such as `12.05`.
pub open spec fn hundredths_text(v: nat) -> Seq<char> {
    decimal_digits(v / 100) + "."@ + if v % 100 < 10 {
        "0"@ + decimal_digits(v % 100)
    } else {
        decimal_digits(v % 100)
    }
}

/// What `str::to_lowercase` makes of a text.
pub uninterp spec fn lower_of(s: Seq<char>) -> Seq<char>;

/// The one-character text of a decimal digit.
fn digit_text(d: u64) -> (r: &'static str)
    requires
        d < 10,
    ensures
        r@ == seq![digit_char(d as nat)],
{
    let digits: &'static str = "0123456789";
    proof {
        reveal_strlit("0123456789");
    }
    let r = digits.substring_char(d as usize, d as usize + 1);
    assert(r@ =~= seq![digit_char(d as nat)]);
    r
}

/// The decimal digits of `n`, without sign or leading zeros.
pub fn decimal_text(n: u64) -> (r: String)
    ensures
        r@ == decimal_digits(n as nat),
    decreases n,
{
    if n < 10 {
        String::from_str(digit_text(n))
    } else {
        let head = decimal_text(n / 10);
        let r = head.concat(digit_text(n % 10));
        assert(r@ =~= decimal_digits(n as nat));
        r
    }
}

/// Relies on `str::to_lowercase`: the result depends on the characters alone.
#[verifier::external_body]
pub(crate) fn lowercase(s: &str) -> (r: String)
    ensures
        r@ == lower_of(s@),
{
    s.to_lowercase()
}

/// Writes `v` hundredths with two decimal places.
pub fn render_hundredths(v: u64) -> (r: String)
    ensures
        r@ == hundredths_text(v as nat),
{
    let whole = decimal_text(v / 100);
    let frac = v % 100;
    let with_point = whole.concat(".");
    if frac < 10 {
        let padded = with_point.concat("0");
        let digits = decimal_text(frac);
        let r = padded.concat(digits.as_str());
        assert(r@ =~= hundredths_text(v as nat));
        r
    } else {
        let digits = decimal_text(frac);
        with_point.concat(digits.as_str())
    }
}

} // verus!
