//! Text: comparison, trimming, numbers in decimal, and shortened identifiers.

use vstd::arithmetic::power::{lemma_pow0, lemma_pow1, lemma_pow_adds, pow};
use vstd::prelude::*;

verus! {

/// The model of a string: the sequence of its characters.
pub type Text = Seq<char>;

/// The model of an optional string.
pub open spec fn opt_text(o: Option<String>) -> Option<Text> {
    match o {
        Some(s) => Some(s@),
        None => None,
    }
}

/// The model of an outcome that carries a message when it failed.
pub open spec fn outcome_text(r: Result<(), String>) -> Result<(), Text> {
    match r {
        Ok(()) => Ok(()),
        Err(e) => Err(e@),
    }
}

/// The model of a list of strings.
pub open spec fn texts(list: Seq<String>) -> Seq<Text> {
    list.map_values(|s: String| s@)
}

/// Whether two strings hold the same characters.
pub fn same(a: &str, b: &str) -> (r: bool)
    ensures
        r == (a@ == b@),
{
    a.to_owned() == b.to_owned()
}

/// The characters with the Unicode property `White_Space`.
pub open spec fn is_white_space(c: char) -> bool {
    let n = c as u32;
    ||| 0x09 <= n <= 0x0d
    ||| n == 0x20
    ||| n == 0x85
    ||| n == 0xa0
    ||| n == 0x1680
    ||| 0x2000 <= n <= 0x200a
    ||| n == 0x2028
    ||| n == 0x2029
    ||| n == 0x202f
    ||| n == 0x205f
    ||| n == 0x3000
}

/// `s` without the white space that it starts with.
pub open spec fn trimmed_start(s: Text) -> Text
    decreases s.len(),
{
    if s.len() > 0 && is_white_space(s[0]) {
        trimmed_start(s.drop_first())
    } else {
        s
    }
}

/// `s` without the white space that it ends with.
pub open spec fn trimmed_end(s: Text) -> Text
    decreases s.len(),
{
    if s.len() > 0 && is_white_space(s.last()) {
        trimmed_end(s.drop_last())
    } else {
        s
    }
}

/// `s` without the white space at either end.
pub open spec fn trimmed(s: Text) -> Text {
    trimmed_end(trimmed_start(s))
}

/// Calls `str::trim`, which removes leading and trailing characters with the Unicode property
/// `White_Space`. The contract claims exactly that of it.
#[verifier::external_body]
pub(crate) fn trim(s: &str) -> (r: &str)
    ensures
        r@ == trimmed(s@),
{
    s.trim()
}

/// `s` without the slashes that it ends with.
pub open spec fn without_end_slashes(s: Text) -> Text
    decreases s.len(),
{
    if s.len() > 0 && s.last() == '/' {
        without_end_slashes(s.drop_last())
    } else {
        s
    }
}

/// Removes every slash at the end of `s`.
pub fn trim_end_slashes(s: &str) -> (r: String)
    ensures
        r@ == without_end_slashes(s@),
{
    let mut n: usize = s.unicode_len();
    assert(s@.take(n as int) =~= s@);
    while n > 0 && s.get_char(n - 1) == '/'
        invariant
            n <= s@.len(),
            without_end_slashes(s@.take(n as int)) == without_end_slashes(s@),
        decreases n,
    {
        assert(s@.take(n as int).drop_last() =~= s@.take(n - 1));
        n = n - 1;
    }
    assert(s@.subrange(0, n as int) =~= s@.take(n as int));
    s.substring_char(0, n).to_owned()
}

/// The ASCII lower-case form of a character; other characters stay as they are.
pub open spec fn ascii_lower(c: char) -> char {
    if 'A' <= c <= 'Z' {
        (c as u32 + 32) as char
    } else {
        c
    }
}

/// Whether two texts are equal up to the case of ASCII letters.
pub open spec fn same_ignoring_case(a: Text, b: Text) -> bool {
    &&& a.len() == b.len()
    &&& forall|i: int| 0 <= i < a.len() ==> ascii_lower(#[trigger] a[i]) == ascii_lower(b[i])
}

fn lower(c: char) -> (r: char)
    ensures
        r == ascii_lower(c),
{
    if 'A' <= c && c <= 'Z' {
        ((c as u8) + 32) as char
    } else {
        c
    }
}

/// Compares two strings without regard to the case of ASCII letters.
pub fn eq_ignore_ascii_case(a: &str, b: &str) -> (r: bool)
    ensures
        r == same_ignoring_case(a@, b@),
{
    let n: usize = a.unicode_len();
    if n != b.unicode_len() {
        return false;
    }
    let mut i: usize = 0;
    while i < n
        invariant
            n == a@.len(),
            n == b@.len(),
            i <= n,
            forall|j: int| 0 <= j < i ==> ascii_lower(#[trigger] a@[j]) == ascii_lower(b@[j]),
        decreases n - i,
    {
        if lower(a.get_char(i)) != lower(b.get_char(i)) {
            assert(ascii_lower(a@[i as int]) != ascii_lower(b@[i as int]));
            return false;
        }
        i = i + 1;
    }
    true
}

/// The character of a decimal digit.
pub open spec fn digit_char(d: nat) -> char {
    (48 + d) as char
}

/// A number in decimal, without leading zeros.
pub open spec fn decimal(n: nat) -> Text
    decreases n,
{
    if n < 10 {
        seq![digit_char(n)]
    } else {
        decimal(n / 10).push(digit_char(n % 10))
    }
}

fn digit_text(d: usize) -> (r: String)
    requires
        d < 10,
    ensures
        r@ == seq![digit_char(d as nat)],
{
    proof {
        reveal_strlit("0123456789");
    }
    let r = "0123456789".substring_char(d, d + 1).to_owned();
    assert(r@ =~= seq![digit_char(d as nat)]);
    r
}

/// Writes a number in decimal.
pub fn decimal_text(n: usize) -> (r: String)
    ensures
        r@ == decimal(n as nat),
    decreases n,
{
    if n < 10 {
        digit_text(n)
    } else {
        let r = decimal_text(n / 10).concat(digit_text(n % 10).as_str());
        assert(r@ =~= decimal((n / 10) as nat).push(digit_char((n % 10) as nat)));
        r
    }
}

/// A number in decimal, with a space before it where it has a single digit.
pub open spec fn padded_decimal(n: nat) -> Text {
    if n < 10 {
        " "@ + decimal(n)
    } else {
        decimal(n)
    }
}

/// Writes a number in decimal, right-aligned in two columns.
pub fn padded_decimal_text(n: usize) -> (r: String)
    ensures
        r@ == padded_decimal(n as nat),
{
    if n < 10 {
        " ".to_owned().concat(decimal_text(n).as_str())
    } else {
        decimal_text(n)
    }
}

/// Whether a character is a decimal digit.
pub open spec fn is_digit(c: char) -> bool {
    '0' <= c <= '9'
}

/// The number that a sequence of decimal digits stands for.
pub open spec fn digits_value(s: Text) -> nat
    decreases s.len(),
{
    if s.len() == 0 {
        0
    } else {
        digits_value(s.drop_last()) * 10 + (s.last() as u32 - 48) as nat
    }
}

/// `s` without the plus sign that it may start with.
pub open spec fn without_plus(s: Text) -> Text {
    if s.len() > 0 && s[0] == '+' {
        s.drop_first()
    } else {
        s
    }
}

/// A number as a user may type it: digits, perhaps after one plus sign, within the range of
/// `usize`.
pub open spec fn parsed_number(s: Text) -> Option<usize> {
    let digits = without_plus(s);
    if digits.len() > 0 && (forall|i: int| 0 <= i < digits.len() ==> is_digit(#[trigger] digits[i]))
        && digits_value(digits) <= usize::MAX {
        Some(digits_value(digits) as usize)
    } else {
        None
    }
}

proof fn lemma_digits_value_grows(s: Text, n: int)
    requires
        0 <= n <= s.len(),
    ensures
        digits_value(s.take(n)) <= digits_value(s),
    decreases s.len(),
{
    if n < s.len() {
        lemma_digits_value_grows(s.drop_last(), n);
        assert(s.drop_last().take(n) =~= s.take(n));
    } else {
        assert(s.take(n) =~= s);
    }
}

/// Reads a number from a string.
pub fn parse_number(s: &str) -> (r: Option<usize>)
    ensures
        r == parsed_number(s@),
{
    let n: usize = s.unicode_len();
    let start: usize = if n > 0 && s.get_char(0) == '+' {
        1
    } else {
        0
    };
    let ghost digits = without_plus(s@);
    assert(forall|i: int| 0 <= i < digits.len() ==> #[trigger] digits[i] == s@[i + start]);
    if start == n {
        return None;
    }
    let mut i: usize = start;
    let mut value: usize = 0;
    while i < n
        invariant
            n == s@.len(),
            start <= i <= n,
            digits.len() == n - start,
            forall|j: int| 0 <= j < digits.len() ==> #[trigger] digits[j] == s@[j + start],
            forall|j: int| 0 <= j < i - start ==> is_digit(#[trigger] digits[j]),
            value == digits_value(digits.take(i - start)),
            digits == without_plus(s@),
        decreases n - i,
    {
        let c: char = s.get_char(i);
        assert(c == digits[i - start]);
        if c < '0' || '9' < c {
            assert(!is_digit(digits[i - start]));
            return None;
        }
        let d: usize = ((c as u32) - 48) as usize;
        proof {
            let longer = digits.take(i - start + 1);
            assert(longer.drop_last() =~= digits.take(i - start));
            assert(digits_value(longer) == value * 10 + d);
            lemma_digits_value_grows(digits, i - start + 1);
        }
        match value.checked_mul(10) {
            Some(tens) => match tens.checked_add(d) {
                Some(sum) => {
                    value = sum;
                },
                None => {
                    return None;
                },
            },
            None => {
                return None;
            },
        }
        i = i + 1;
    }
    assert(digits.take(n - start) =~= digits);
    Some(value)
}

/// At most the first eight characters of an identifier.
pub open spec fn short(value: Text) -> Text {
    if value.len() <= 8 {
        value
    } else {
        value.take(8)
    }
}

/// Shortens an identifier to at most eight characters.
pub fn short_id(value: &str) -> (r: String)
    ensures
        r@ == short(value@),
{
    let n: usize = value.unicode_len();
    if n <= 8 {
        value.to_owned()
    } else {
        assert(value@.subrange(0, 8) =~= value@.take(8));
        value.substring_char(0, 8).to_owned()
    }
}

/// The text of an optional value, with a replacement where it is absent.
pub open spec fn text_or(o: Option<Text>, default: Text) -> Text {
    match o {
        Some(t) => t,
        None => default,
    }
}

/// Copies the string out of an option, or the replacement where there is none.
pub fn string_or(o: &Option<String>, default: &str) -> (r: String)
    ensures
        r@ == text_or(opt_text(*o), default@),
{
    match o {
        Some(s) => s.clone(),
        None => default.to_owned(),
    }
}

/// Copies an optional string.
pub fn copy_option(o: &Option<String>) -> (r: Option<String>)
    ensures
        r == *o,
{
    match o {
        Some(s) => Some(s.clone()),
        None => None,
    }
}

/// Copies a list of strings.
pub fn copy_strings(list: &Vec<String>) -> (r: Vec<String>)
    ensures
        r@ == list@,
{
    let r = list.clone();
    assert(r@ =~= list@);
    r
}

/// A number that was written in decimal is read back unchanged.
pub proof fn decimal_is_read_back(n: usize)
    ensures
        parsed_number(decimal(n as nat)) == Some(n),
{
    lemma_decimal_digits(n as nat);
    assert(is_digit(decimal(n as nat)[0]));
}

proof fn lemma_decimal_digits(n: nat)
    ensures
        decimal(n).len() > 0,
        forall|i: int| 0 <= i < decimal(n).len() ==> is_digit(#[trigger] decimal(n)[i]),
        digits_value(decimal(n)) == n,
    decreases n,
{
    if n < 10 {
        assert(decimal(n).drop_last() =~= Seq::<char>::empty());
        assert(digits_value(Seq::<char>::empty()) == 0);
    } else {
        lemma_decimal_digits(n / 10);
        assert(decimal(n).drop_last() =~= decimal(n / 10));
    }
}

/// Shortening an identifier a second time changes nothing, and what is left begins the identifier
/// and has eight characters, or all of them where there are fewer.
pub proof fn short_id_is_a_stable_prefix(value: Text)
    ensures
        short(short(value)) == short(value),
        short(value).len() <= 8,
        value.len() >= 8 ==> short(value).len() == 8,
        short(value) == value.take(short(value).len() as int),
        value.len() <= 8 ==> short(value) == value,
{
    assert(value.take(value.len() as int) =~= value);
}

/// Nothing is left to trim after trimming once, and trimming never lengthens a text.
pub proof fn trimming_twice_is_trimming_once(s: Text)
    ensures
        trimmed(s).len() <= s.len(),
        trimmed(trimmed(s)) == trimmed(s),
        trimmed(s).len() > 0 ==> !is_white_space(trimmed(s)[0]) && !is_white_space(
            trimmed(s).last(),
        ),
{
    lemma_trimmed_start(s);
    lemma_trimmed_end(trimmed_start(s));
}

proof fn lemma_trimmed_start(s: Text)
    ensures
        trimmed_start(s).len() > 0 ==> !is_white_space(trimmed_start(s)[0]),
        trimmed_start(s).len() <= s.len(),
    decreases s.len(),
{
    if s.len() > 0 && is_white_space(s[0]) {
        lemma_trimmed_start(s.drop_first());
    }
}

proof fn lemma_trimmed_end(s: Text)
    ensures
        trimmed_end(s).len() > 0 ==> !is_white_space(trimmed_end(s).last()) && trimmed_end(s)[0]
            == s[0],
        trimmed_end(s).len() <= s.len(),
    decreases s.len(),
{
    if s.len() > 0 && is_white_space(s.last()) {
        lemma_trimmed_end(s.drop_last());
    }
}

/// Trimming keeps a stretch of the text as it is, and what it leaves out at either end is white
/// space and nothing else.
pub proof fn trimming_removes_only_white_space(s: Text)
    ensures
        exists|i: int, j: int|
            0 <= i <= j <= s.len() && #[trigger] s.subrange(i, j) == trimmed(s) && (forall|k: int|
                0 <= k < s.len() && !(i <= k < j) ==> is_white_space(#[trigger] s[k])),
{
    let i = lemma_start(s);
    let rest = trimmed_start(s);
    let n = lemma_end(rest);
    assert(s.subrange(i, i + n) =~= trimmed(s));
    assert forall|k: int| 0 <= k < s.len() && !(i <= k < i + n) implies is_white_space(
        #[trigger] s[k],
    ) by {
        if k >= i {
            assert(rest[k - i] == s[k]);
        }
    }
}

proof fn lemma_start(s: Text) -> (i: int)
    ensures
        0 <= i <= s.len(),
        trimmed_start(s) == s.skip(i),
        forall|k: int| 0 <= k < i ==> is_white_space(#[trigger] s[k]),
    decreases s.len(),
{
    if s.len() > 0 && is_white_space(s[0]) {
        let i = lemma_start(s.drop_first());
        assert(s.drop_first().skip(i) =~= s.skip(i + 1));
        assert forall|k: int| 0 <= k < i + 1 implies is_white_space(#[trigger] s[k]) by {
            if k > 0 {
                assert(s.drop_first()[k - 1] == s[k]);
            }
        }
        i + 1
    } else {
        assert(s.skip(0) =~= s);
        0
    }
}

proof fn lemma_end(s: Text) -> (n: int)
    ensures
        0 <= n <= s.len(),
        trimmed_end(s) == s.take(n),
        forall|k: int| n <= k < s.len() ==> is_white_space(#[trigger] s[k]),
    decreases s.len(),
{
    if s.len() > 0 && is_white_space(s.last()) {
        let n = lemma_end(s.drop_last());
        assert(s.drop_last().take(n) =~= s.take(n));
        assert forall|k: int| n <= k < s.len() implies is_white_space(#[trigger] s[k]) by {
            if k < s.len() - 1 {
                assert(s.drop_last()[k] == s[k]);
            }
        }
        n
    } else {
        assert(s.take(s.len() as int) =~= s);
        s.len() as int
    }
}

/// Slashes at the end are removed, however many there are, and nothing else is.
pub proof fn only_end_slashes_are_removed(s: Text, slashes: Text)
    requires
        s.len() > 0 ==> s.last() != '/',
        forall|i: int| 0 <= i < slashes.len() ==> #[trigger] slashes[i] == '/',
    ensures
        without_end_slashes(s + slashes) == s,
    decreases slashes.len(),
{
    if slashes.len() > 0 {
        assert((s + slashes).last() == slashes[slashes.len() - 1]);
        assert((s + slashes).drop_last() =~= s + slashes.drop_last());
        only_end_slashes_are_removed(s, slashes.drop_last());
    } else {
        assert(s + slashes =~= s);
    }
}

/// Two texts are the same up to case exactly if they have the same length and differ, if at all,
/// where one has the upper-case and the other the lower-case form of a letter from A to Z.
pub proof fn only_the_case_of_letters_is_ignored(a: Text, b: Text)
    ensures
        same_ignoring_case(a, b) <==> a.len() == b.len() && (forall|i: int|
            0 <= i < a.len() ==> {
                ||| #[trigger] a[i] == b[i]
                ||| 65 <= a[i] as u32 <= 90 && b[i] as u32 == a[i] as u32 + 32
                ||| 65 <= b[i] as u32 <= 90 && a[i] as u32 == b[i] as u32 + 32
            }),
{
    assert forall|c: char, d: char| #[trigger]
        ascii_lower(c) == #[trigger] ascii_lower(d) <==> {
            ||| c == d
            ||| 65 <= c as u32 <= 90 && d as u32 == c as u32 + 32
            ||| 65 <= d as u32 <= 90 && c as u32 == d as u32 + 32
        } by {
        lemma_lower(c);
        lemma_lower(d);
    }
}

proof fn lemma_lower(c: char)
    ensures
        65 <= c as u32 <= 90 ==> ascii_lower(c) as u32 == c as u32 + 32,
        !(65 <= c as u32 <= 90) ==> ascii_lower(c) == c,
{
}

/// The number that decimal digits stand for: each digit counts ten times what it would count one
/// place further right.
pub open spec fn place_value(s: Text) -> int
    decreases s.len(),
{
    if s.len() == 0 {
        0
    } else {
        (s[0] as u32 - 48) * pow(10, (s.len() - 1) as nat) + place_value(s.drop_first())
    }
}

/// Whether a text is made of the digits from 0 to 9 only.
pub open spec fn all_digits(s: Text) -> bool {
    forall|i: int| 0 <= i < s.len() ==> '0' <= #[trigger] s[i] <= '9'
}

proof fn lemma_place_value_push(s: Text, c: char)
    ensures
        place_value(s.push(c)) == place_value(s) * 10 + (c as u32 - 48),
    decreases s.len(),
{
    if s.len() == 0 {
        assert(s.push(c).drop_first() =~= Seq::<char>::empty());
        lemma_pow0(10);
        assert(place_value(s.push(c)) == (c as u32 - 48) * pow(10, 0) + place_value(
            Seq::<char>::empty(),
        ));
    } else {
        let d = s[0] as u32 - 48;
        let p = pow(10, (s.len() - 1) as nat);
        let rest = place_value(s.drop_first());
        lemma_place_value_push(s.drop_first(), c);
        assert(s.push(c).drop_first() =~= s.drop_first().push(c));
        lemma_pow1(10);
        lemma_pow_adds(10, (s.len() - 1) as nat, 1);
        assert(d * (p * 10) + (rest * 10 + (c as u32 - 48)) == (d * p + rest) * 10 + (c as u32
            - 48)) by (nonlinear_arith);
    }
}

proof fn lemma_values_agree(s: Text)
    requires
        all_digits(s),
    ensures
        digits_value(s) == place_value(s),
    decreases s.len(),
{
    if s.len() > 0 {
        lemma_values_agree(s.drop_last());
        lemma_place_value_push(s.drop_last(), s.last());
        assert(s.drop_last().push(s.last()) =~= s);
    }
}

/// A number is written with digits only, which stand for it place by place, and without a zero
/// before them.
pub proof fn decimals_stand_for_their_numbers(n: nat)
    ensures
        decimal(n).len() > 0,
        all_digits(decimal(n)),
        place_value(decimal(n)) == n,
        decimal(n)[0] == '0' ==> n == 0 && decimal(n).len() == 1,
    decreases n,
{
    lemma_decimal_digits(n);
    assert forall|i: int|
        0 <= i < decimal(n).len() implies '0' <= #[trigger] decimal(n)[i] <= '9' by {
        assert(is_digit(decimal(n)[i]));
    }
    lemma_values_agree(decimal(n));
    if n >= 10 {
        decimals_stand_for_their_numbers(n / 10);
        assert(decimal(n)[0] == decimal(n / 10)[0]);
    }
}

/// A text of digits is read as the number that they stand for place by place, with or without one
/// plus sign before them, unless that number is too large.
pub proof fn digits_are_read_place_by_place(s: Text)
    requires
        s.len() > 0,
        all_digits(s),
    ensures
        place_value(s) <= usize::MAX ==> parsed_number(s) == Some(place_value(s) as usize)
            && parsed_number(seq!['+'] + s) == Some(place_value(s) as usize),
        place_value(s) > usize::MAX ==> parsed_number(s) is None && parsed_number(
            seq!['+'] + s,
        ) is None,
{
    lemma_values_agree(s);
    assert('0' <= s[0] <= '9');
    assert forall|i: int| 0 <= i < s.len() implies is_digit(#[trigger] s[i]) by {
        assert('0' <= s[i] <= '9');
    }
    assert((seq!['+'] + s).drop_first() =~= s);
}

/// Nothing but digits, after at most one plus sign, is read as a number.
pub proof fn only_digits_are_read(s: Text)
    requires
        parsed_number(s) is Some,
    ensures
        s.len() > 0,
        '0' <= s[0] <= '9' || (s[0] == '+' && s.len() > 1),
        all_digits(s.drop_first()),
{
    let digits = without_plus(s);
    assert forall|i: int|
        0 <= i < s.drop_first().len() implies '0' <= #[trigger] s.drop_first()[i] <= '9' by {
        if s[0] == '+' {
            assert(is_digit(digits[i]));
        } else {
            assert(is_digit(digits[i + 1]));
        }
    }
    assert(is_digit(digits[0]));
}

/// A number that is aligned in two columns ends with the number and has blanks before it where the
/// number is shorter.
pub proof fn alignment_adds_blanks_before(n: nat)
    ensures
        n < 10 ==> padded_decimal(n) == seq![' '] + decimal(n) && padded_decimal(n).len() == 2,
        n >= 10 ==> padded_decimal(n) == decimal(n),
{
    reveal_strlit(" ");
    assert(" "@ =~= seq![' ']);
}

/// The model of an optional or listed string holds the characters of the string, all of them.
pub proof fn models_hold_the_characters(o: Option<String>, r: Result<(), String>, list: Seq<String>)
    ensures
        opt_text(o) == (match o {
            Some(s) => Some(s@),
            None => None,
        }),
        outcome_text(r) == (match r {
            Ok(()) => Ok(()),
            Err(e) => Err(e@),
        }),
        texts(list).len() == list.len(),
        forall|i: int| 0 <= i < list.len() ==> #[trigger] texts(list)[i] == list[i]@,
{
}

/// A replacement takes the place of an absent text and of no other.
pub proof fn only_absent_texts_are_replaced(t: Text, default: Text)
    ensures
        text_or(Some(t), default) == t,
        text_or(None, default) == default,
{
}

} // verus!
