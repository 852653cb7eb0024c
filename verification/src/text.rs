//! Text: decimal numbers, hexadecimal digits, and the few string operations that URLs and blobs
//! need.
use vstd::prelude::*;
use vstd::utf8::is_ascii_chars;

verus! {

/// The character of the decimal digit `d`.
pub open spec fn digit_char(d: nat) -> char {
    (48 + d) as char
}

/// `n` in decimal, without leading zeros.
pub open spec fn decimal(n: nat) -> Seq<char>
    decreases n,
{
    if n < 10 {
        seq![digit_char(n)]
    } else {
        decimal(n / 10).push(digit_char(n % 10))
    }
}

/// The text of one decimal digit.
fn digit_str(d: u64) -> (r: &'static str)
    requires
        d < 10,
    ensures
        r@ == seq![digit_char(d as nat)],
{
    proof {
        reveal_strlit("0");
        reveal_strlit("1");
        reveal_strlit("2");
        reveal_strlit("3");
        reveal_strlit("4");
        reveal_strlit("5");
        reveal_strlit("6");
        reveal_strlit("7");
        reveal_strlit("8");
        reveal_strlit("9");
    }
    if d == 0 {
        "0"
    } else if d == 1 {
        "1"
    } else if d == 2 {
        "2"
    } else if d == 3 {
        "3"
    } else if d == 4 {
        "4"
    } else if d == 5 {
        "5"
    } else if d == 6 {
        "6"
    } else if d == 7 {
        "7"
    } else if d == 8 {
        "8"
    } else {
        "9"
    }
}

/// Appends `n` in decimal.
pub fn push_decimal(text: &mut String, n: u64)
    ensures
        final(text)@ == old(text)@ + decimal(n as nat),
    decreases n,
{
    let ghost before = text@;
    if n >= 10 {
        push_decimal(text, n / 10);
    }
    text.append(digit_str(n % 10));
    proof {
        if n >= 10 {
            assert(text@ == before + decimal((n / 10) as nat) + seq![digit_char((n % 10) as nat)]);
            assert(text@ =~= before + decimal((n / 10) as nat).push(digit_char((n % 10) as nat)));
        }
    }
}

/// The characters of a string, one after the other.
pub fn chars_of(s: &str) -> (r: Vec<char>)
    ensures
        r@ == s@,
{
    let mut r: Vec<char> = Vec::new();
    for c in it: s.chars()
        invariant
            it.seq() == s@,
            r@ == it.seq().take(it.index()),
    {
        r.push(c);
        assert(it.seq().take(it.index() + 1) =~= it.seq().take(it.index()).push(c));
    }
    assert(s@.take(s@.len() as int) =~= s@);
    r
}

/// Whether `needle` stands in `hay`, starting at index `i`.
pub open spec fn stands_at(hay: Seq<char>, needle: Seq<char>, i: int) -> bool {
    &&& 0 <= i
    &&& i + needle.len() <= hay.len()
    &&& hay.subrange(i, i + needle.len()) == needle
}

/// Whether `needle` stands anywhere in `hay`.
pub open spec fn contains_text(hay: Seq<char>, needle: Seq<char>) -> bool {
    exists|i: int| stands_at(hay, needle, i)
}

fn is_at(hay: &Vec<char>, needle: &Vec<char>, i: usize) -> (r: bool)
    requires
        i + needle@.len() <= hay@.len(),
    ensures
        r == stands_at(hay@, needle@, i as int),
{
    let mut k: usize = 0;
    while k < needle.len()
        invariant
            k <= needle@.len(),
            i + needle@.len() <= hay.len(),
            forall|j: int| 0 <= j < k ==> hay@[i + j] == needle@[j],
        decreases needle@.len() - k,
    {
        if hay[i + k] != needle[k] {
            assert(hay@.subrange(i as int, i + needle@.len())[k as int] != needle@[k as int]);
            return false;
        }
        k += 1;
    }
    assert(hay@.subrange(i as int, i + needle@.len()) =~= needle@);
    true
}

/// Whether `needle` stands anywhere in `hay`.
pub fn contains(hay: &str, needle: &str) -> (r: bool)
    ensures
        r == contains_text(hay@, needle@),
{
    let h: Vec<char> = chars_of(hay);
    let n: Vec<char> = chars_of(needle);
    if n.len() > h.len() {
        return false;
    }
    let last: usize = h.len() - n.len();
    let mut i: usize = 0;
    while i < last
        invariant
            h@ == hay@,
            n@ == needle@,
            last + n@.len() == h@.len(),
            i <= last,
            forall|j: int| 0 <= j < i ==> !stands_at(h@, n@, j),
        decreases last - i,
    {
        if is_at(&h, &n, i) {
            return true;
        }
        i += 1;
    }
    is_at(&h, &n, last)
}

/// `s` without any slashes at its end.
pub open spec fn without_trailing_slashes(s: Seq<char>) -> Seq<char>
    decreases s.len(),
{
    if s.len() > 0 && s.last() == '/' {
        without_trailing_slashes(s.drop_last())
    } else {
        s
    }
}

/// `s` without any slashes at its end.
pub fn trim_trailing_slashes(s: &str) -> (r: &str)
    ensures
        r@ == without_trailing_slashes(s@),
{
    let cs: Vec<char> = chars_of(s);
    let mut n: usize = cs.len();
    proof {
        assert(s@.take(n as int) =~= s@);
    }
    while n > 0 && cs[n - 1] == '/'
        invariant
            cs@ == s@,
            n <= cs@.len(),
            without_trailing_slashes(s@) == without_trailing_slashes(s@.take(n as int)),
        decreases n,
    {
        proof {
            assert(s@.take(n as int).drop_last() =~= s@.take(n - 1));
        }
        n -= 1;
    }
    let r: &str = s.substring_char(0, n);
    proof {
        assert(s@.take(n as int) =~= r@);
    }
    r
}

/// `s` without any `0x` at its front, however many stand there.
pub open spec fn without_0x(s: Seq<char>) -> Seq<char>
    decreases s.len(),
{
    if s.len() >= 2 && s[0] == '0' && s[1] == 'x' {
        without_0x(s.skip(2))
    } else {
        s
    }
}

proof fn lemma_without_0x_step(s: Seq<char>, i: int)
    requires
        0 <= i,
        i + 2 <= s.len(),
        s[i] == '0',
        s[i + 1] == 'x',
    ensures
        without_0x(s.skip(i)) == without_0x(s.skip(i + 2)),
{
    assert(s.skip(i).skip(2) =~= s.skip(i + 2));
}

/// Taking `0x` off the front brings no character in, and leaves none at the front.
pub proof fn lemma_without_0x(s: Seq<char>)
    ensures
        has_no_capitals(s) ==> has_no_capitals(without_0x(s)),
        without_0x(s).len() >= 2 ==> !(without_0x(s)[0] == '0' && without_0x(s)[1] == 'x'),
    decreases s.len(),
{
    if s.len() >= 2 && s[0] == '0' && s[1] == 'x' {
        lemma_without_0x(s.skip(2));
        assert(has_no_capitals(s) ==> has_no_capitals(s.skip(2)));
    }
}

/// `s` without any `0x` at its front.
pub fn trim_0x(s: &str) -> (r: &str)
    ensures
        r@ == without_0x(s@),
{
    let cs: Vec<char> = chars_of(s);
    let n: usize = cs.len();
    let mut i: usize = 0;
    proof {
        assert(s@.skip(0) =~= s@);
    }
    while n - i >= 2 && cs[i] == '0' && cs[i + 1] == 'x'
        invariant
            cs@ == s@,
            n == cs@.len(),
            i <= n,
            without_0x(s@) == without_0x(s@.skip(i as int)),
        decreases n - i,
    {
        proof {
            lemma_without_0x_step(s@, i as int);
        }
        i += 2;
    }
    let r: &str = s.substring_char(i, n);
    proof {
        let rest = s@.skip(i as int);
        assert(rest =~= r@);
        assert(rest.len() >= 2 ==> rest[0] == cs@[i as int] && rest[1] == cs@[i + 1]);
        assert(without_0x(rest) == rest);
    }
    r
}

/// The value of a hexadecimal digit, of either case.
pub open spec fn hex_value(c: char) -> Option<u8> {
    if '0' <= c <= '9' {
        Some((c as u8 - 48) as u8)
    } else if 'a' <= c <= 'f' {
        Some((c as u8 - 87) as u8)
    } else if 'A' <= c <= 'F' {
        Some((c as u8 - 55) as u8)
    } else {
        None
    }
}

/// Whether `d` is made of pairs of hexadecimal digits and nothing else.
pub open spec fn is_digit_pairs(d: Seq<char>) -> bool {
    &&& d.len() % 2 == 0
    &&& forall|i: int| 0 <= i < d.len() ==> hex_value(#[trigger] d[i]) is Some
}

/// The bytes that pairs of digits spell; `None` where the digits do not pair up or one of them is
/// no digit.
pub open spec fn pairs_decoded(d: Seq<char>) -> Option<Seq<u8>> {
    if is_digit_pairs(d) {
        Some(
            Seq::new(
                d.len() / 2,
                |i: int| (16 * hex_value(d[2 * i])->0 + hex_value(d[2 * i + 1])->0) as u8,
            ),
        )
    } else {
        None
    }
}

/// The bytes that `s` spells: two digits each, after one `0x` or `0X` at most.
pub open spec fn hex_decoded(s: Seq<char>) -> Option<Seq<u8>> {
    if s.len() >= 2 && s[0] == '0' && (s[1] == 'x' || s[1] == 'X') {
        pairs_decoded(s.skip(2))
    } else {
        pairs_decoded(s)
    }
}

/// The lower-case hexadecimal digit of value `v`.
pub open spec fn hex_char(v: int) -> char {
    if v < 10 {
        (48 + v) as char
    } else {
        (87 + v) as char
    }
}

/// Two lower-case digits for each byte.
pub open spec fn hex_encoded(bytes: Seq<u8>) -> Seq<char> {
    Seq::new(
        2 * bytes.len(),
        |i: int|
            if i % 2 == 0 {
                hex_char(bytes[i / 2] as int / 16)
            } else {
                hex_char(bytes[i / 2] as int % 16)
            },
    )
}

/// The small letter of a capital `A` to `Z`; any other character as it is.
pub open spec fn ascii_lower(c: char) -> char {
    if 'A' <= c <= 'Z' {
        (c as u8 + 32) as char
    } else {
        c
    }
}

/// Whether no character is a capital `A` to `Z`.
pub open spec fn has_no_capitals(s: Seq<char>) -> bool {
    forall|i: int| 0 <= i < s.len() ==> !('A' <= #[trigger] s[i] <= 'Z')
}

/// Each character in small letters.
pub open spec fn ascii_lowered(s: Seq<char>) -> Seq<char> {
    s.map_values(|c: char| ascii_lower(c))
}

/// Different numbers are written differently.
pub proof fn lemma_decimal_is_injective(a: nat, b: nat)
    ensures
        decimal(a) == decimal(b) ==> a == b,
    decreases a,
{
    if decimal(a) == decimal(b) {
        lemma_decimal_is_not_empty(a / 10);
        lemma_decimal_is_not_empty(b / 10);
        assert(decimal(a).last() == digit_char(a % 10));
        assert(decimal(b).last() == digit_char(b % 10));
        assert(digit_char(a % 10) as nat == 48 + a % 10);
        assert(digit_char(b % 10) as nat == 48 + b % 10);
        if a >= 10 {
            assert(b >= 10);
            assert(decimal(a).drop_last() =~= decimal(a / 10));
            assert(decimal(b).drop_last() =~= decimal(b / 10));
            lemma_decimal_is_injective(a / 10, b / 10);
        }
    }
}

proof fn lemma_decimal_is_not_empty(n: nat)
    ensures
        decimal(n).len() > 0,
    decreases n,
{
    if n >= 10 {
        lemma_decimal_is_not_empty(n / 10);
    }
}

/// The number that decimal digits spell, the most significant one first.
pub open spec fn number_read(digits: Seq<char>) -> int
    decreases digits.len(),
{
    if digits.len() == 0 {
        0
    } else {
        10 * number_read(digits.drop_last()) + (digits.last() as int - '0' as int)
    }
}

/// A number that is written in decimal is read back as itself. It is made of digits and nothing
/// else, and starts with a zero only where it is zero.
pub proof fn law_decimal_reads_back(n: nat)
    ensures
        number_read(decimal(n)) == n,
        decimal(n).len() > 0,
        forall|i: int| 0 <= i < decimal(n).len() ==> '0' <= #[trigger] decimal(n)[i] <= '9',
        decimal(n)[0] == '0' ==> n == 0,
        n == 0 ==> decimal(n).len() == 1,
    decreases n,
{
    assert(digit_char(n % 10) as int == 48 + n % 10);
    if n >= 10 {
        law_decimal_reads_back(n / 10);
        assert(decimal(n).drop_last() =~= decimal(n / 10));
        assert(decimal(n)[0] == decimal(n / 10)[0]);
        assert forall|i: int| 0 <= i < decimal(n).len() implies '0' <= #[trigger] decimal(n)[i]
            <= '9' by {
            if i < decimal(n).len() - 1 {
                assert(decimal(n)[i] == decimal(n / 10)[i]);
            }
        }
    } else {
        assert(decimal(n).drop_last() =~= Seq::empty());
        assert(number_read(decimal(n).drop_last()) == 0);
    }
}

/// A text stands in another exactly where the other is made of something, the text, and something
/// more.
pub proof fn law_text_stands_between_what_is_around_it(hay: Seq<char>, needle: Seq<char>)
    ensures
        contains_text(hay, needle) <==> exists|before: Seq<char>, after: Seq<char>| hay
            == #[trigger] (before + needle + after),
{
    if contains_text(hay, needle) {
        let i = choose|i: int| stands_at(hay, needle, i);
        let (before, after) = (hay.take(i), hay.skip(i + needle.len()));
        assert(hay =~= before + needle + after);
    }
    if exists|before: Seq<char>, after: Seq<char>| hay == #[trigger] (before + needle + after) {
        let (before, after) = choose|before: Seq<char>, after: Seq<char>| hay
            == #[trigger] (before + needle + after);
        let i = before.len() as int;
        assert(hay.subrange(i, i + needle.len()) =~= needle);
        assert(stands_at(hay, needle, i));
    }
}

/// Of the end of a text slashes go, all of them, and nothing else.
pub proof fn law_only_trailing_slashes_go(s: Seq<char>)
    ensures
        without_trailing_slashes(s).len() <= s.len(),
        without_trailing_slashes(s) == s.take(without_trailing_slashes(s).len() as int),
        forall|i: int| without_trailing_slashes(s).len() <= i < s.len() ==> #[trigger] s[i] == '/',
        without_trailing_slashes(s).len() > 0 ==> without_trailing_slashes(s).last() != '/',
    decreases s.len(),
{
    let r = without_trailing_slashes(s);
    if s.len() > 0 && s.last() == '/' {
        let t = s.drop_last();
        law_only_trailing_slashes_go(t);
        assert(t.take(r.len() as int) =~= s.take(r.len() as int));
        assert forall|i: int| r.len() <= i < s.len() implies #[trigger] s[i] == '/' by {
            if i < t.len() {
                assert(s[i] == t[i]);
            }
        }
    } else {
        assert(s.take(s.len() as int) =~= s);
    }
}

/// Of the front of a text each `0x` goes, and nothing else.
pub proof fn law_only_leading_0x_goes(s: Seq<char>)
    ensures
        without_0x(s).len() <= s.len(),
        (s.len() - without_0x(s).len()) % 2 == 0,
        without_0x(s) == s.skip(s.len() - without_0x(s).len()),
        forall|i: int|
            0 <= i < s.len() - without_0x(s).len() ==> #[trigger] s[i] == (if i % 2 == 0 {
                '0'
            } else {
                'x'
            }),
        !(without_0x(s).len() >= 2 && without_0x(s)[0] == '0' && without_0x(s)[1] == 'x'),
    decreases s.len(),
{
    let r = without_0x(s);
    if s.len() >= 2 && s[0] == '0' && s[1] == 'x' {
        let t = s.skip(2);
        law_only_leading_0x_goes(t);
        assert(t.skip(t.len() - r.len()) =~= s.skip(s.len() - r.len()));
        assert forall|i: int| 0 <= i < s.len() - r.len() implies #[trigger] s[i] == (if i % 2 == 0 {
            '0'
        } else {
            'x'
        }) by {
            if i >= 2 {
                assert(s[i] == t[i - 2]);
            }
        }
    } else {
        assert(s.skip(0) =~= s);
    }
}

/// The sixteen digits have the values of their places, in small letters and in capitals, and no
/// other character has a value.
pub proof fn law_digits_have_the_values_of_their_places(c: char, v: int)
    requires
        0 <= v < 16,
    ensures
        hex_char(v) == "0123456789abcdef"@[v],
        hex_value(c) == Some(v as u8) <==> c == "0123456789abcdef"@[v] || c
            == "0123456789ABCDEF"@[v],
        hex_value(c) is Some ==> hex_value(c)->0 < 16,
{
    reveal_strlit("0123456789abcdef");
    reveal_strlit("0123456789ABCDEF");
}

/// Bytes are written as two digits each, the higher one first.
pub proof fn law_byte_is_written_as_two_digits(bytes: Seq<u8>, i: int)
    requires
        0 <= i < bytes.len(),
    ensures
        hex_encoded(bytes).len() == 2 * bytes.len(),
        hex_encoded(bytes)[2 * i] == "0123456789abcdef"@[bytes[i] as int / 16],
        hex_encoded(bytes)[2 * i + 1] == "0123456789abcdef"@[bytes[i] as int % 16],
{
    law_digits_have_the_values_of_their_places('0', bytes[i] as int / 16);
    law_digits_have_the_values_of_their_places('0', bytes[i] as int % 16);
}

/// Where bytes are read, each one is what its two digits spell. Where none are, a digit is left
/// over or a character is no digit.
pub proof fn law_pair_of_digits_is_a_byte(d: Seq<char>)
    ensures
        match pairs_decoded(d) {
            Some(bytes) => d.len() == 2 * bytes.len() && forall|i: int|
                0 <= i < bytes.len() ==> {
                    &&& hex_value(d[2 * i]) is Some
                    &&& hex_value(d[2 * i + 1]) is Some
                    &&& #[trigger] bytes[i] == 16 * hex_value(d[2 * i])->0 + hex_value(
                        d[2 * i + 1],
                    )->0
                },
            None => d.len() % 2 == 1 || exists|i: int|
                0 <= i < d.len() && hex_value(#[trigger] d[i]) is None,
        },
{
    if let Some(bytes) = pairs_decoded(d) {
        assert forall|i: int| 0 <= i < bytes.len() implies {
            &&& hex_value(d[2 * i]) is Some
            &&& hex_value(d[2 * i + 1]) is Some
            &&& #[trigger] bytes[i] == 16 * hex_value(d[2 * i])->0 + hex_value(d[2 * i + 1])->0
        } by {
            assert(hex_value(d[2 * i]) is Some && hex_value(d[2 * i + 1]) is Some);
        }
    }
}

/// One `0x` or `0X` before the digits makes no difference.
pub proof fn law_one_prefix_makes_no_difference(d: Seq<char>)
    ensures
        hex_decoded(seq!['0', 'x'] + d) == pairs_decoded(d),
        hex_decoded(seq!['0', 'X'] + d) == pairs_decoded(d),
        !(d.len() >= 2 && d[0] == '0' && (d[1] == 'x' || d[1] == 'X')) ==> hex_decoded(d)
            == pairs_decoded(d),
{
    assert((seq!['0', 'x'] + d).skip(2) =~= d);
    assert((seq!['0', 'X'] + d).skip(2) =~= d);
}

/// Lowering turns each capital into its small letter and leaves every other character as it is.
pub proof fn law_lowering_changes_capitals_only(s: Seq<char>, i: int)
    requires
        0 <= i < s.len(),
    ensures
        ascii_lowered(s).len() == s.len(),
        'A' <= s[i] <= 'Z' ==> ascii_lowered(s)[i] as int == s[i] as int + 32,
        !('A' <= s[i] <= 'Z') ==> ascii_lowered(s)[i] == s[i],
        has_no_capitals(ascii_lowered(s)),
        has_no_capitals(s) ==> !('A' <= s[i] <= 'Z'),
{
}

proof fn lemma_digit_has_its_value(v: int)
    requires
        0 <= v < 16,
    ensures
        hex_value(hex_char(v)) == Some(v as u8),
        hex_char(v) != 'x',
        hex_char(v) != 'X',
{
}

/// What bytes are written as in pairs of digits is read as those bytes.
pub proof fn lemma_pairs_give_back_their_bytes(bytes: Seq<u8>)
    ensures
        without_0x(hex_encoded(bytes)) == hex_encoded(bytes),
        hex_decoded(hex_encoded(bytes)) == Some(bytes),
        is_ascii_chars(hex_encoded(bytes)),
{
    let h = hex_encoded(bytes);
    assert forall|i: int| 0 <= i < h.len() implies {
        &&& hex_value(#[trigger] h[i]) == Some(
            if i % 2 == 0 {
                (bytes[i / 2] as int / 16) as u8
            } else {
                (bytes[i / 2] as int % 16) as u8
            },
        )
        &&& h[i] != 'x'
        &&& h[i] != 'X'
    } by {
        lemma_digit_has_its_value(bytes[i / 2] as int / 16);
        lemma_digit_has_its_value(bytes[i / 2] as int % 16);
    }
    assert(is_digit_pairs(h));
    assert(pairs_decoded(h)->0 =~= bytes) by {
        assert forall|i: int| 0 <= i < bytes.len() implies pairs_decoded(h)->0[i] == bytes[i] by {
            assert(hex_value(h[2 * i]) == Some((bytes[i] as int / 16) as u8));
            assert(hex_value(h[2 * i + 1]) == Some((bytes[i] as int % 16) as u8));
        }
    }
}

} // verus!
