//! Text building blocks: decimal rendering of integers and removal of
//! trailing slashes, each proved against a direct mathematical definition.

use vstd::prelude::*;

verus! {

/// The character that stands for the decimal digit `d` (`0 <= d < 10`).
pub open spec fn digit_char(d: int) -> char {
    if d == 0 { '0' }
    else if d == 1 { '1' }
    else if d == 2 { '2' }
    else if d == 3 { '3' }
    else if d == 4 { '4' }
    else if d == 5 { '5' }
    else if d == 6 { '6' }
    else if d == 7 { '7' }
    else if d == 8 { '8' }
    else { '9' }
}

/// Decimal digits of a natural number, most significant first, no leading zeros.
pub open spec fn decimal_nat(n: nat) -> Seq<char>
    decreases n,
{
    if n < 10 {
        seq![digit_char(n as int)]
    } else {
        decimal_nat(n / 10) + seq![digit_char((n % 10) as int)]
    }
}

/// Decimal text of an integer as Rust's `Display` writes it: a `-` before
/// the digits of the magnitude when the number is negative.
pub open spec fn decimal(n: int) -> Seq<char> {
    if n < 0 {
        seq!['-'] + decimal_nat((-n) as nat)
    } else {
        decimal_nat(n as nat)
    }
}

/// The value of a decimal digit character (the inverse of [`digit_char`]).
pub open spec fn digit_value(c: char) -> int {
    if c == '0' { 0 }
    else if c == '1' { 1 }
    else if c == '2' { 2 }
    else if c == '3' { 3 }
    else if c == '4' { 4 }
    else if c == '5' { 5 }
    else if c == '6' { 6 }
    else if c == '7' { 7 }
    else if c == '8' { 8 }
    else { 9 }
}

/// Whether `c` is one of the ten decimal digit characters.
pub open spec fn is_digit(c: char) -> bool {
    c == '0' || c == '1' || c == '2' || c == '3' || c == '4' || c == '5' || c == '6' || c == '7' || c == '8' || c == '9'
}

/// The number that a string of decimal digits denotes.
pub open spec fn digits_value(s: Seq<char>) -> int
    decreases s.len(),
{
    if s.len() == 0 {
        0
    } else {
        digits_value(s.drop_last()) * 10 + digit_value(s.last())
    }
}

/// The integer that a decimal text (an optional `-`, then digits) denotes.
pub open spec fn read_decimal(s: Seq<char>) -> int {
    if s.len() > 0 && s[0] == '-' {
        -digits_value(s.drop_first())
    } else {
        digits_value(s)
    }
}

proof fn lemma_decimal_nat_reads_back(n: nat)
    ensures
        decimal_nat(n).len() > 0,
        forall|i: int| 0 <= i < decimal_nat(n).len() ==> is_digit(#[trigger] decimal_nat(n)[i]),
        digits_value(decimal_nat(n)) == n,
    decreases n,
{
    if n >= 10 {
        lemma_decimal_nat_reads_back(n / 10);
        let s = decimal_nat(n);
        assert(s.drop_last() =~= decimal_nat(n / 10));
        assert(s.last() == digit_char((n % 10) as int));
        assert(digit_value(digit_char((n % 10) as int)) == n % 10);
        assert(digits_value(s) == digits_value(decimal_nat(n / 10)) * 10 + n % 10);
        assert((n / 10) * 10 + n % 10 == n);
        assert forall|i: int| 0 <= i < s.len() implies is_digit(#[trigger] s[i]) by {
            if i < s.len() - 1 {
                assert(s[i] == decimal_nat(n / 10)[i]);
            }
        }
    } else {
        let s = decimal_nat(n);
        assert(s.drop_last() =~= Seq::<char>::empty());
        assert(digits_value(s.drop_last()) == 0);
        assert(s.last() == digit_char(n as int));
        assert(digit_value(digit_char(n as int)) == n);
        assert(digits_value(s) == digits_value(s.drop_last()) * 10 + digit_value(s.last()));
    }
}

/// Decimal text reads back to the number it renders, so distinct numbers
/// always render to distinct texts: a page number sent in a query is the one asked for.
pub proof fn law_decimal_reads_back(n: int)
    ensures
        read_decimal(decimal(n)) == n,
        forall|m: int| decimal(m) == decimal(n) ==> m == n,
{
    assert forall|k: int| #[trigger] read_decimal(decimal(k)) == k by {
        if k < 0 {
            lemma_decimal_nat_reads_back((-k) as nat);
            assert((seq!['-'] + decimal_nat((-k) as nat)).drop_first() =~= decimal_nat((-k) as nat));
        } else {
            lemma_decimal_nat_reads_back(k as nat);
            assert(is_digit(decimal_nat(k as nat)[0]));
        }
    }
}

/// `s` with every trailing `/` removed.
pub open spec fn trim_trailing_slashes(s: Seq<char>) -> Seq<char>
    decreases s.len(),
{
    if s.len() > 0 && s.last() == '/' {
        trim_trailing_slashes(s.drop_last())
    } else {
        s
    }
}

/// One decimal digit as a one-character string.
fn digit_string(d: u32) -> (s: String)
    requires
        d < 10,
    ensures
        s@ == seq![digit_char(d as int)],
{
    let lit: &str = if d == 0 {
        proof { reveal_strlit("0"); }
        "0"
    } else if d == 1 {
        proof { reveal_strlit("1"); }
        "1"
    } else if d == 2 {
        proof { reveal_strlit("2"); }
        "2"
    } else if d == 3 {
        proof { reveal_strlit("3"); }
        "3"
    } else if d == 4 {
        proof { reveal_strlit("4"); }
        "4"
    } else if d == 5 {
        proof { reveal_strlit("5"); }
        "5"
    } else if d == 6 {
        proof { reveal_strlit("6"); }
        "6"
    } else if d == 7 {
        proof { reveal_strlit("7"); }
        "7"
    } else if d == 8 {
        proof { reveal_strlit("8"); }
        "8"
    } else {
        proof { reveal_strlit("9"); }
        "9"
    };
    String::from_str(lit)
}

/// Decimal text of an unsigned number.
pub fn u32_decimal(n: u32) -> (s: String)
    ensures
        s@ == decimal_nat(n as nat),
{
    let mut m: u32 = n;
    let mut s = String::new();
    loop
        invariant
            decimal_nat(n as nat) == decimal_nat(m as nat) + s@,
        decreases m,
    {
        let d = digit_string(m % 10);
        let ghost old_s = s@;
        s = d.concat(s.as_str());
        if m < 10 {
            assert(decimal_nat(m as nat) == seq![digit_char(m as int)]);
            assert(s@ =~= decimal_nat(m as nat) + old_s);
            return s;
        }
        assert(decimal_nat(m as nat) == decimal_nat((m / 10) as nat) + seq![digit_char((m % 10) as int)]);
        assert(decimal_nat((m / 10) as nat) + s@ =~= decimal_nat(m as nat) + old_s);
        m = m / 10;
    }
}

/// Decimal text of a signed 32-bit number, as `format!("{}", n)` writes it.
pub fn i32_decimal(n: i32) -> (s: String)
    ensures
        s@ == decimal(n as int),
{
    if n < 0 {
        let magnitude: u32 = if n == i32::MIN {
            2147483648u32
        } else {
            (-n) as u32
        };
        proof { reveal_strlit("-"); }
        let digits = u32_decimal(magnitude);
        let s = String::from_str("-").concat(digits.as_str());
        assert(s@ =~= seq!['-'] + decimal_nat((-(n as int)) as nat));
        s
    } else {
        u32_decimal(n as u32)
    }
}

proof fn lemma_trim_step(s: Seq<char>, k: int)
    requires
        0 < k <= s.len(),
        s[k - 1] == '/',
    ensures
        trim_trailing_slashes(s.subrange(0, k)) == trim_trailing_slashes(s.subrange(0, k - 1)),
{
    assert(s.subrange(0, k).drop_last() =~= s.subrange(0, k - 1));
}

/// `s` without its trailing slashes, as `str::trim_end_matches('/')` gives it.
pub fn trim_end_slashes(s: &str) -> (r: String)
    ensures
        r@ == trim_trailing_slashes(s@),
{
    let n = s.unicode_len();
    let mut k: usize = n;
    assert(s@.subrange(0, n as int) =~= s@);
    while k > 0 && s.get_char(k - 1) == '/'
        invariant
            n == s@.len(),
            k <= n,
            trim_trailing_slashes(s@) == trim_trailing_slashes(s@.subrange(0, k as int)),
        decreases k,
    {
        proof { lemma_trim_step(s@, k as int); }
        k = k - 1;
    }
    let t = s.substring_char(0, k);
    proof {
        let p = s@.subrange(0, k as int);
        if k > 0 {
            assert(p.last() == s@[k - 1]);
        }
        assert(trim_trailing_slashes(p) == p);
    }
    String::from_str(t)
}

/// Trimming trailing slashes leaves no trailing slash behind.
pub proof fn lemma_trim_no_trailing_slash(s: Seq<char>)
    ensures
        trim_trailing_slashes(s).len() == 0 || trim_trailing_slashes(s).last() != '/',
    decreases s.len(),
{
    if s.len() > 0 && s.last() == '/' {
        lemma_trim_no_trailing_slash(s.drop_last());
    }
}

/// Trimming trailing slashes keeps a prefix of the text, and what it drops is all slashes.
pub proof fn lemma_trim_is_prefix(s: Seq<char>)
    ensures
        trim_trailing_slashes(s).len() <= s.len(),
        trim_trailing_slashes(s) =~= s.subrange(0, trim_trailing_slashes(s).len() as int),
        forall|i: int| trim_trailing_slashes(s).len() <= i < s.len() ==> s[i] == '/',
    decreases s.len(),
{
    if s.len() > 0 && s.last() == '/' {
        lemma_trim_is_prefix(s.drop_last());
        assert forall|i: int| trim_trailing_slashes(s).len() <= i < s.len() implies s[i] == '/' by {
            if i < s.len() - 1 {
                assert(s.drop_last()[i] == s[i]);
            }
        }
    }
}

/// Trimming trailing slashes twice is the same as trimming once.
pub proof fn lemma_trim_idempotent(s: Seq<char>)
    ensures
        trim_trailing_slashes(trim_trailing_slashes(s)) == trim_trailing_slashes(s),
{
    lemma_trim_no_trailing_slash(s);
}

/// The pagination query that list endpoints append to their path.
pub open spec fn page_query(page: int, per_page: int) -> Seq<char> {
    "?page="@ + decimal(page) + "&perPage="@ + decimal(per_page)
}

/// `a` followed by `b`.
pub fn join2(a: &str, b: &str) -> (r: String)
    ensures
        r@ == a@ + b@,
{
    String::from_str(a).concat(b)
}

/// `a`, then `b`, then `c`.
pub fn join3(a: &str, b: &str, c: &str) -> (r: String)
    ensures
        r@ == a@ + b@ + c@,
{
    String::from_str(a).concat(b).concat(c)
}

/// `path` followed by the pagination query for `page` and `per_page`.
pub fn with_page_query(path: String, page: i32, per_page: i32) -> (r: String)
    ensures
        r@ == path@ + page_query(page as int, per_page as int),
{
    let p = i32_decimal(page);
    let pp = i32_decimal(per_page);
    let r = path.concat("?page=").concat(p.as_str()).concat("&perPage=").concat(pp.as_str());
    assert(r@ =~= path@ + page_query(page as int, per_page as int));
    r
}

/// Model of an optional text argument.
pub open spec fn opt_text(o: Option<&str>) -> Option<Seq<char>> {
    match o {
        Some(t) => Some(t@),
        None => None,
    }
}

/// The query parameter `name` (written with its `&` and `=`) with the value
/// `value`, or nothing when there is no value.
pub open spec fn opt_param(name: Seq<char>, value: Option<Seq<char>>) -> Seq<char> {
    match value {
        Some(v) => name + v,
        None => seq![],
    }
}

/// `path` followed by the query parameter `name` with `value`, if there is one.
pub fn with_opt_param(path: String, name: &str, value: Option<&str>) -> (r: String)
    ensures
        r@ == path@ + opt_param(name@, opt_text(value)),
{
    match value {
        Some(v) => {
            let r = path.concat(name).concat(v);
            assert(r@ =~= path@ + opt_param(name@, opt_text(value)));
            r
        },
        None => {
            assert(path@ =~= path@ + opt_param(name@, opt_text(value)));
            path
        },
    }
}

/// The pagination query carries the page number after `?page=` and the page
/// size after `&perPage=`, each as its decimal text, in that order.
pub proof fn law_page_query_carries_page_then_size(page: int, per_page: int)
    ensures
        page_query(page, per_page) == "?page="@ + decimal(page) + "&perPage="@ + decimal(per_page),
        read_decimal(decimal(page)) == page,
        read_decimal(decimal(per_page)) == per_page,
{
    law_decimal_reads_back(page);
    law_decimal_reads_back(per_page);
}

/// An optional query parameter is written as its name followed by its value
/// when there is a value, and is left out entirely when there is none.
pub proof fn law_optional_parameter_present_iff_value(name: Seq<char>, value: Seq<char>)
    ensures
        opt_param(name, Some(value)) == name + value,
        opt_param(name, None) == Seq::<char>::empty(),
{
}

} // verus!
