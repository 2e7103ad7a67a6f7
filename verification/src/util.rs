//! Small string helpers shared by the modules of the library.

use vstd::prelude::*;
use vstd::string::*;
use vstd::std_specs::iter::IteratorSpec;

verus! {

/// Compares two string slices character by character: the result is `true`
/// exactly when both hold the same characters.
pub(crate) fn str_eq(a: &str, b: &str) -> (r: bool)
    ensures
        r == (a@ == b@),
{
    let x = str_chars(a);
    let y = str_chars(b);
    if x.len() != y.len() {
        return false;
    }
    let mut i: usize = 0;
    while i < x.len()
        invariant
            x@ == a@,
            y@ == b@,
            x@.len() == y@.len(),
            i <= x@.len(),
            forall|j: int| 0 <= j < i ==> x@[j] == y@[j],
        decreases x@.len() - i,
    {
        if x[i] != y[i] {
            assert(a@[i as int] != b@[i as int]);
            return false;
        }
        i += 1;
    }
    assert(x@ =~= y@);
    true
}

/// Concatenates two string slices into a new string.
pub fn concat_str(a: &str, b: &str) -> (r: String)
    ensures
        r@ == a@ + b@,
{
    let mut s = a.to_owned();
    s.append(b);
    s
}

/// Copies a string.
pub fn copy_string(s: &String) -> (r: String)
    ensures
        r@ == s@,
{
    s.clone()
}

/// Concatenates three string slices into a new string.
pub fn concat3(a: &str, b: &str, c: &str) -> (r: String)
    ensures
        r@ == a@ + b@ + c@,
{
    let mut s = a.to_owned();
    s.append(b);
    s.append(c);
    s
}

/// Four strings, one after the other.
pub fn concat4(a: &str, b: &str, c: &str, d: &str) -> (r: String)
    ensures
        r@ == a@ + b@ + c@ + d@,
{
    let mut s = a.to_owned();
    s.append(b);
    s.append(c);
    s.append(d);
    s
}

/// The characters of a string slice, in order.
pub fn str_chars(s: &str) -> (v: Vec<char>)
    ensures
        v@ == s@,
{
    broadcast use vstd::string::group_string_axioms;
    let mut v: Vec<char> = Vec::new();
    let mut it = s.chars();
    loop
        invariant
            it.obeys_prophetic_iter_laws(),
            v@ + it.remaining() == s@,
            it.decrease() is Some,
        ensures
            v@ == s@,
        decreases it.decrease()->0,
    {
        match it.next() {
            Some(c) => {
                v.push(c);
            },
            None => {
                break;
            },
        }
    }
    v
}

/// The decimal digit value of a character, if it is an ASCII digit.
pub open spec fn digit_value(c: char) -> Option<nat> {
    if '0' <= c && c <= '9' {
        Some((c as nat - '0' as nat) as nat)
    } else {
        None
    }
}

/// The value of a non-empty sequence of ASCII digits, read as a decimal number.
pub open spec fn decimal_value(s: Seq<char>) -> nat
    decreases s.len(),
{
    if s.len() == 0 {
        0
    } else {
        decimal_value(s.drop_last()) * 10 + digit_value(s.last()).unwrap_or(0)
    }
}

/// Holds when every character is an ASCII digit.
pub open spec fn all_digits(s: Seq<char>) -> bool {
    forall|i: int| 0 <= i < s.len() ==> #[trigger] digit_value(s[i]) is Some
}

/// The decimal rendering of a natural number, without leading zeros.
pub open spec fn decimal_string(n: nat) -> Seq<char>
    decreases n,
{
    if n < 10 {
        seq![digit_char(n)]
    } else {
        decimal_string(n / 10).push(digit_char(n % 10))
    }
}

/// A number written in decimal reads back as that number.
pub proof fn lemma_decimal_round_trip(n: nat)
    ensures
        decimal_string(n).len() > 0,
        all_digits(decimal_string(n)),
        decimal_value(decimal_string(n)) == n,
        decimal_string(n)[0] != '+',
    decreases n,
{
    if n < 10 {
        assert(digit_value(digit_char(n)) == Some(n));
        assert(decimal_string(n).drop_last() =~= Seq::<char>::empty());
        assert(decimal_value(Seq::<char>::empty()) == 0);
        assert(decimal_value(decimal_string(n)) == decimal_value(Seq::<char>::empty()) * 10 + n);
    } else {
        lemma_decimal_round_trip(n / 10);
        let s = decimal_string(n);
        let d = digit_char(n % 10);
        assert(digit_value(d) == Some(n % 10));
        assert(s.drop_last() =~= decimal_string(n / 10));
        assert(s.last() == d);
        assert forall|i: int| 0 <= i < s.len() implies #[trigger] digit_value(s[i]) is Some by {
            if i < s.len() - 1 {
                assert(s[i] == decimal_string(n / 10)[i]);
            }
        }
        assert(s[0] == decimal_string(n / 10)[0]);
        assert(decimal_value(s) == decimal_value(s.drop_last()) * 10 + digit_value(s.last()).unwrap_or(0));
        assert(decimal_value(s) == (n / 10) * 10 + n % 10);
    }
}

/// A 16-bit number written in decimal reads back as that number.
pub proof fn lemma_u16_round_trip(n: u16)
    ensures
        u16_literal(decimal_string(n as nat)) == Some(n),
{
    lemma_decimal_round_trip(n as nat);
}

/// The ASCII digit for a value below ten.
pub open spec fn digit_char(d: nat) -> char {
    if d == 0 { '0' } else if d == 1 { '1' } else if d == 2 { '2' } else if d == 3 { '3' }
    else if d == 4 { '4' } else if d == 5 { '5' } else if d == 6 { '6' } else if d == 7 { '7' }
    else if d == 8 { '8' } else { '9' }
}

/// The decimal string of a digit below ten.
fn digit_str(d: u64) -> (r: &'static str)
    requires
        d < 10,
    ensures
        r@ == seq![digit_char(d as nat)],
{
    proof {
        reveal_strlit("0");
        reveal_strlit("1");
        reveal_strlit("2");
        reveal_strlit("3");
        reveal_strlit("4");
        reveal_strlit("5");
        reveal_strlit("6");
        reveal_strlit("7");
        reveal_strlit("8");
        reveal_strlit("9");
    }
    if d == 0 { "0" } else if d == 1 { "1" } else if d == 2 { "2" } else if d == 3 { "3" }
    else if d == 4 { "4" } else if d == 5 { "5" } else if d == 6 { "6" } else if d == 7 { "7" }
    else if d == 8 { "8" } else { "9" }
}

/// Renders a number in decimal notation, as its `Display` implementation does.
pub fn decimal(n: u64) -> (r: String)
    ensures
        r@ == decimal_string(n as nat),
    decreases n,
{
    if n < 10 {
        digit_str(n).to_owned()
    } else {
        let mut s = decimal(n / 10);
        s.append(digit_str(n % 10));
        s
    }
}

/// Parses an unsigned 16-bit decimal number as `u16::from_str` accepts it:
/// an optional `+`, then one or more ASCII digits whose value fits.
pub open spec fn u16_literal(s: Seq<char>) -> Option<u16> {
    let body = if s.len() > 0 && s[0] == '+' { s.skip(1) } else { s };
    if body.len() > 0 && all_digits(body) && decimal_value(body) <= u16::MAX {
        Some(decimal_value(body) as u16)
    } else {
        None
    }
}

proof fn lemma_decimal_step(s: Seq<char>, i: int)
    requires
        0 <= i < s.len(),
        all_digits(s.take(i)),
        digit_value(s[i]) is Some,
    ensures
        decimal_value(s.take(i + 1)) == decimal_value(s.take(i)) * 10 + digit_value(s[i]).unwrap(),
        all_digits(s.take(i + 1)),
{
    assert(s.take(i + 1).drop_last() =~= s.take(i));
    assert forall|j: int| 0 <= j < i + 1 implies #[trigger] digit_value(s.take(i + 1)[j]) is Some by {
        if j < i {
            assert(s.take(i + 1)[j] == s.take(i)[j]);
        }
    }
}

proof fn lemma_decimal_prefix(s: Seq<char>, i: int)
    requires
        0 <= i <= s.len(),
    ensures
        decimal_value(s.take(i)) <= decimal_value(s),
    decreases s.len() - i,
{
    if i < s.len() {
        lemma_decimal_prefix(s, i + 1);
        assert(s.take(i + 1).drop_last() =~= s.take(i));
    } else {
        assert(s.take(i) =~= s);
    }
}

/// Parses a decimal `u16`, as `u16::from_str` does.
pub fn parse_u16(text: &str) -> (r: Option<u16>)
    ensures
        r == u16_literal(text@),
{
    let v = str_chars(text);
    let start: usize = if v.len() > 0 && v[0] == '+' { 1 } else { 0 };
    let ghost body = if v@.len() > 0 && v@[0] == '+' { v@.skip(1) } else { v@ };
    assert(body =~= v@.skip(start as int));
    if start == v.len() {
        return None;
    }
    let mut value: u64 = 0;
    let mut i: usize = start;
    while i < v.len()
        invariant
            start <= i <= v.len(),
            v@ == text@,
            body == (if v@.len() > 0 && v@[0] == '+' { v@.skip(1) } else { v@ }),
            body =~= v@.skip(start as int),
            value == decimal_value(body.take(i - start)),
            value <= u16::MAX,
            all_digits(body.take(i - start)),
        decreases v.len() - i,
    {
        let c = v[i];
        assert(body[i - start] == c);
        if c < '0' || c > '9' {
            assert(digit_value(body[i - start]) is None);
            return None;
        }
        let d: u64 = (c as u32 - '0' as u32) as u64;
        proof {
            lemma_decimal_step(body, i - start);
        }
        value = value * 10 + d;
        if value > 65535 {
            proof {
                lemma_decimal_prefix(body, i - start + 1);
            }
            return None;
        }
        i += 1;
    }
    assert(body.take(i - start) =~= body);
    Some(value as u16)
}

/// Case-insensitive ASCII comparison of a character with a lowercase letter.
pub open spec fn ci_eq(c: char, l: char) -> bool {
    c as u32 == l as u32 || (97 <= l as u32 <= 122 && c as u32 + 32 == l as u32)
}

/// A sequence equal to a lowercase word, ignoring ASCII case.
pub open spec fn eq_ignore_case(s: Seq<char>, word: Seq<char>) -> bool {
    s.len() == word.len() && forall|i: int| 0 <= i < s.len() ==> ci_eq(#[trigger] s[i], word[i])
}

/// The number of occurrences of a character.
pub open spec fn count_char(s: Seq<char>, c: char) -> nat
    decreases s.len(),
{
    if s.len() == 0 {
        0
    } else {
        count_char(s.drop_last(), c) + if s.last() == c { 1nat } else { 0nat }
    }
}

/// The position of the first exponent marker (`e` or `E`), or the length.
pub open spec fn exponent_pos(s: Seq<char>) -> int
    decreases s.len(),
{
    if s.len() == 0 {
        0
    } else if s[0] == 'e' || s[0] == 'E' {
        0
    } else {
        1 + exponent_pos(s.skip(1))
    }
}

/// The part after an optional leading sign.
pub open spec fn unsigned_part(s: Seq<char>) -> Seq<char> {
    if s.len() > 0 && (s[0] == '+' || s[0] == '-') { s.skip(1) } else { s }
}

/// A mantissa: digits with at most one decimal point and at least one digit.
pub open spec fn mantissa_ok(m: Seq<char>) -> bool {
    &&& forall|i: int| 0 <= i < m.len() ==> (m[i] == '.' || #[trigger] digit_value(m[i]) is Some)
    &&& count_char(m, '.') <= 1
    &&& m.len() > count_char(m, '.')
}

/// An exponent: an optional sign and one or more digits.
pub open spec fn exponent_ok(x: Seq<char>) -> bool {
    unsigned_part(x).len() > 0 && all_digits(unsigned_part(x))
}

/// The decimal grammar that `f64::from_str` documents:
/// `Sign? ( 'inf' | 'infinity' | 'nan' | Number )`, with
/// `Number ::= ( Digit+ | Digit+ '.' Digit* | Digit* '.' Digit+ ) Exp?`
/// and `Exp ::= ('e' | 'E') Sign? Digit+`, the words compared without case.
pub open spec fn float_literal(s: Seq<char>) -> bool {
    let b = unsigned_part(s);
    let k = exponent_pos(b);
    ||| eq_ignore_case(b, "inf"@)
    ||| eq_ignore_case(b, "infinity"@)
    ||| eq_ignore_case(b, "nan"@)
    ||| (mantissa_ok(b.take(k)) && (k == b.len() || exponent_ok(b.skip(k + 1))))
}

proof fn lemma_exponent_pos(s: Seq<char>)
    ensures
        0 <= exponent_pos(s) <= s.len(),
        exponent_pos(s) < s.len() ==> (s[exponent_pos(s)] == 'e' || s[exponent_pos(s)] == 'E'),
        forall|i: int| 0 <= i < exponent_pos(s) ==> s[i] != 'e' && s[i] != 'E',
    decreases s.len(),
{
    if s.len() > 0 && !(s[0] == 'e' || s[0] == 'E') {
        lemma_exponent_pos(s.skip(1));
        assert forall|i: int| 0 <= i < exponent_pos(s) implies s[i] != 'e' && s[i] != 'E' by {
            if i > 0 {
                assert(s[i] == s.skip(1)[i - 1]);
            }
        }
    }
}

fn eq_ignore_case_exec(v: &Vec<char>, start: usize, end: usize, word: &str) -> (r: bool)
    requires
        start <= end <= v.len(),
    ensures
        r == eq_ignore_case(v@.subrange(start as int, end as int), word@),
{
    let w = str_chars(word);
    if end - start != w.len() {
        return false;
    }
    let mut i: usize = 0;
    while i < w.len()
        invariant
            end - start == w.len(),
            w@ == word@,
            start <= end <= v.len(),
            i <= w.len(),
            forall|j: int| 0 <= j < i ==> ci_eq(v@[start + j], w@[j]),
        decreases w.len() - i,
    {
        let c = v[start + i] as u32;
        let l = w[i] as u32;
        if !(c == l || (97 <= l && l <= 122 && c == l - 32)) {
            assert(!ci_eq(v@.subrange(start as int, end as int)[i as int], word@[i as int]));
            return false;
        }
        i += 1;
    }
    assert forall|j: int| 0 <= j < end - start implies ci_eq(
        #[trigger] v@.subrange(start as int, end as int)[j], word@[j]) by {
        assert(v@.subrange(start as int, end as int)[j] == v@[start + j]);
    }
    true
}

fn all_digits_exec(v: &Vec<char>, start: usize, end: usize) -> (r: bool)
    requires
        start <= end <= v.len(),
    ensures
        r == all_digits(v@.subrange(start as int, end as int)),
{
    let mut i = start;
    while i < end
        invariant
            start <= i <= end <= v.len(),
            forall|j: int| start <= j < i ==> #[trigger] digit_value(v@[j]) is Some,
        decreases end - i,
    {
        if v[i] < '0' || v[i] > '9' {
            assert(digit_value(v@.subrange(start as int, end as int)[i - start]) is None);
            return false;
        }
        i += 1;
    }
    assert forall|j: int| 0 <= j < end - start implies #[trigger] digit_value(
        v@.subrange(start as int, end as int)[j]) is Some by {
        assert(v@.subrange(start as int, end as int)[j] == v@[start + j]);
    }
    true
}

proof fn lemma_count_split(s: Seq<char>, c: char, i: int)
    requires
        0 <= i < s.len(),
    ensures
        count_char(s.take(i + 1), c) == count_char(s.take(i), c) + if s[i] == c { 1nat } else { 0nat },
{
    assert(s.take(i + 1).drop_last() =~= s.take(i));
}

fn find_exponent(v: &Vec<char>, start: usize) -> (k: usize)
    requires
        start <= v.len(),
    ensures
        start <= k <= v.len(),
        k - start == exponent_pos(v@.subrange(start as int, v@.len() as int)),
{
    let ghost b = v@.subrange(start as int, v@.len() as int);
    let mut k = start;
    while k < v.len() && v[k] != 'e' && v[k] != 'E'
        invariant
            start <= k <= v.len(),
            forall|j: int| start <= j < k ==> v@[j] != 'e' && v@[j] != 'E',
        decreases v.len() - k,
    {
        k += 1;
    }
    proof {
        lemma_exponent_pos(b);
        let e = exponent_pos(b);
        if e < k - start {
            assert(b[e] == v@[start + e]);
        }
        if k - start < e {
            assert(b[k - start] == v@[k as int]);
        }
    }
    k
}

fn mantissa_check(v: &Vec<char>, start: usize, k: usize) -> (r: bool)
    requires
        start <= k <= v.len(),
    ensures
        r == mantissa_ok(v@.subrange(start as int, k as int)),
{
    let ghost m = v@.subrange(start as int, k as int);
    let mut dots: usize = 0;
    let mut i = start;
    while i < k
        invariant
            start <= i <= k <= v.len(),
            m == v@.subrange(start as int, k as int),
            dots == count_char(m.take(i - start), '.'),
            dots <= 1,
            forall|j: int| start <= j < i ==> (v@[j] == '.' || #[trigger] digit_value(v@[j]) is Some),
        decreases k - i,
    {
        proof {
            lemma_count_split(m, '.', i - start);
            assert(m[i - start] == v@[i as int]);
        }
        if v[i] == '.' {
            if dots == 1 {
                proof {
                    lemma_count_monotone(m, '.', i - start + 1);
                }
                return false;
            }
            dots = 1;
        } else if v[i] < '0' || v[i] > '9' {
            assert(!(m[i - start] == '.' || digit_value(m[i - start]) is Some));
            return false;
        }
        i += 1;
    }
    assert(m.take(i - start) =~= m);
    assert forall|j: int| 0 <= j < m.len() implies (m[j] == '.' || #[trigger] digit_value(m[j]) is Some) by {
        assert(m[j] == v@[start + j]);
    }
    k - start > dots
}

/// Checks a floating-point literal against the grammar that `f64::from_str` accepts.
pub fn is_float_literal(text: &str) -> (r: bool)
    ensures
        r == float_literal(text@),
{
    let v = str_chars(text);
    let start: usize = if v.len() > 0 && (v[0] == '+' || v[0] == '-') { 1 } else { 0 };
    let ghost b = unsigned_part(v@);
    assert(b =~= v@.subrange(start as int, v@.len() as int));
    if eq_ignore_case_exec(&v, start, v.len(), "inf") || eq_ignore_case_exec(&v, start, v.len(), "infinity")
        || eq_ignore_case_exec(&v, start, v.len(), "nan") {
        return true;
    }
    let k = find_exponent(&v, start);
    assert(b.take(k - start) =~= v@.subrange(start as int, k as int));
    if !mantissa_check(&v, start, k) {
        return false;
    }
    if k == v.len() {
        return true;
    }
    let es: usize = if k + 1 < v.len() && (v[k + 1] == '+' || v[k + 1] == '-') { k + 2 } else { k + 1 };
    assert(unsigned_part(b.skip(k - start + 1)) =~= v@.subrange(es as int, v@.len() as int));
    es < v.len() && all_digits_exec(&v, es, v.len())
}

proof fn lemma_count_monotone(s: Seq<char>, c: char, i: int)
    requires
        0 <= i <= s.len(),
    ensures
        count_char(s.take(i), c) <= count_char(s, c),
    decreases s.len() - i,
{
    if i < s.len() {
        lemma_count_monotone(s, c, i + 1);
        assert(s.take(i + 1).drop_last() =~= s.take(i));
    } else {
        assert(s.take(i) =~= s);
    }
}

} // verus!
