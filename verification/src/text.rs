//! Operations on text: numbers in decimal, white space at the ends, lists with separators.

use vstd::prelude::*;
use vstd::string::StrSliceExecFns;
use vstd::string::StringExecFns;
use vstd::utf8::{encode_utf8, valid_utf8};

verus! {

/// `std::string::FromUtf8Error`, which reading bytes as text fails with.
#[verifier::external_type_specification]
#[verifier::external_body]
pub struct ExFromUtf8Error(std::string::FromUtf8Error);

/// `String::from_utf8`: the text that `bytes` encode. It fails just when they are not valid
/// UTF-8.
#[verifier::external_body]
pub(crate) fn string_from_utf8(bytes: Vec<u8>) -> (r: Result<String, std::string::FromUtf8Error>)
    ensures
        r is Ok <==> valid_utf8(bytes@),
        r matches Ok(s) ==> encode_utf8(s@) == bytes@,
{
    String::from_utf8(bytes)
}

/// The characters with the Unicode property `White_Space`.
pub open spec fn is_white_space(c: char) -> bool {
    let code = c as u32;
    ||| 0x9 <= code <= 0xd
    ||| code == 0x20
    ||| code == 0x85
    ||| code == 0xa0
    ||| code == 0x1680
    ||| 0x2000 <= code <= 0x200a
    ||| code == 0x2028
    ||| code == 0x2029
    ||| code == 0x202f
    ||| code == 0x205f
    ||| code == 0x3000
}

/// `s` without the white space at its start.
pub open spec fn trimmed_start(s: Seq<char>) -> Seq<char>
    decreases s.len(),
{
    if s.len() > 0 && is_white_space(s.first()) {
        trimmed_start(s.drop_first())
    } else {
        s
    }
}

/// `s` without the white space at its end.
pub open spec fn trimmed_end(s: Seq<char>) -> Seq<char>
    decreases s.len(),
{
    if s.len() > 0 && is_white_space(s.last()) {
        trimmed_end(s.drop_last())
    } else {
        s
    }
}

/// `s` without the white space at its two ends.
pub open spec fn trimmed(s: Seq<char>) -> Seq<char> {
    trimmed_end(trimmed_start(s))
}

/// `str::trim`: the part of `s` that is left without the white space at its two ends, where
/// white space is what has the Unicode property `White_Space`.
#[verifier::external_body]
pub(crate) fn trim(s: &str) -> (r: &str)
    ensures
        r@ == trimmed(s@),
{
    s.trim()
}

/// The digit that stands for `d`.
pub open spec fn digit(d: nat) -> char {
    (d + 48) as char
}

/// `n` in decimal, without leading zeros.
pub open spec fn decimal(n: nat) -> Seq<char>
    decreases n,
{
    if n < 10 {
        seq![digit(n)]
    } else {
        decimal(n / 10).push(digit(n % 10))
    }
}

/// The digit that stands for `d`, as text.
fn digit_text(d: u64) -> (r: &'static str)
    requires
        d < 10,
    ensures
        r@ == seq![digit(d as nat)],
{
    proof {
        reveal_strlit("0");
        reveal_strlit("1");
        reveal_strlit("2");
        reveal_strlit("3");
        reveal_strlit("4");
        reveal_strlit("5");
        reveal_strlit("6");
        reveal_strlit("7");
        reveal_strlit("8");
        reveal_strlit("9");
    }
    let r = match d {
        0 => "0",
        1 => "1",
        2 => "2",
        3 => "3",
        4 => "4",
        5 => "5",
        6 => "6",
        7 => "7",
        8 => "8",
        _ => "9",
    };
    proof {
        assert(r@ =~= seq![digit(d as nat)]);
    }
    r
}

/// Appends `n` in decimal to `out`.
pub fn push_decimal(out: &mut String, n: u64)
    ensures
        final(out)@ == old(out)@ + decimal(n as nat),
    decreases n,
{
    if n >= 10 {
        push_decimal(out, n / 10);
    }
    out.append(digit_text(n % 10));
    proof {
        assert(out@ =~= old(out)@ + decimal(n as nat));
    }
}

/// The parts of `s` between the separators `sep`, of which there is one more than separators.
pub open spec fn split(s: Seq<char>, sep: char) -> Seq<Seq<char>>
    decreases s.len(),
{
    if s.len() == 0 {
        seq![s]
    } else {
        let before = split(s.drop_last(), sep);
        if s.last() == sep {
            before.push(Seq::empty())
        } else {
            before.drop_last().push(before.last().push(s.last()))
        }
    }
}

/// `parts` one after the other, with `sep` between them.
pub open spec fn join(parts: Seq<Seq<char>>, sep: char) -> Seq<char>
    decreases parts.len(),
{
    if parts.len() == 0 {
        Seq::empty()
    } else if parts.len() == 1 {
        parts[0]
    } else {
        join(parts.drop_last(), sep).push(sep) + parts.last()
    }
}

/// How often `c` occurs in `s`.
pub open spec fn occurrences(s: Seq<char>, c: char) -> nat
    decreases s.len(),
{
    if s.len() == 0 {
        0
    } else {
        occurrences(s.drop_last(), c) + if s.last() == c {
            1nat
        } else {
            0
        }
    }
}

/// The contents of each of `strings`.
pub open spec fn texts(strings: Seq<String>) -> Seq<Seq<char>> {
    Seq::new(strings.len(), |i: int| strings[i]@)
}

/// Splits `s` at each `sep`.
pub fn split_text(s: &str, sep: char) -> (r: Vec<String>)
    ensures
        texts(r@) == split(s@, sep),
{
    let n = s.unicode_len();
    let mut parts: Vec<String> = Vec::new();
    let mut start: usize = 0;
    let mut i: usize = 0;
    proof {
        assert(s@.take(0) =~= Seq::empty());
        assert(s@.subrange(0, 0) =~= Seq::empty());
        assert(texts(parts@).push(s@.subrange(0, 0)) =~= split(s@.take(0), sep));
    }
    while i < n
        invariant
            n == s@.len(),
            start <= i <= n,
            split(s@.take(i as int), sep) == texts(parts@).push(
                s@.subrange(start as int, i as int),
            ),
        decreases n - i,
    {
        let c = s.get_char(i);
        let ghost before = texts(parts@);
        let ghost part = s@.subrange(start as int, i as int);
        proof {
            assert(s@.take(i + 1).drop_last() =~= s@.take(i as int));
            assert(before.push(part).drop_last() =~= before);
        }
        if c == sep {
            parts.push(s.substring_char(start, i).to_owned());
            start = i + 1;
            proof {
                assert(texts(parts@) =~= before.push(part));
                assert(s@.subrange(start as int, i + 1) =~= Seq::empty());
            }
        } else {
            proof {
                assert(s@.subrange(start as int, i + 1) =~= part.push(c));
            }
        }
        i += 1;
    }
    let ghost before = texts(parts@);
    parts.push(s.substring_char(start, n).to_owned());
    proof {
        assert(s@.take(n as int) =~= s@);
        assert(texts(parts@) =~= before.push(s@.subrange(start as int, n as int)));
    }
    parts
}

/// Joining the parts of a text gives the text back. No part holds the separator, and there is
/// one part more than there are separators.
pub proof fn law_split_and_join(s: Seq<char>, sep: char)
    ensures
        join(split(s, sep), sep) == s,
        split(s, sep).len() == occurrences(s, sep) + 1,
        forall|i: int| 0 <= i < split(s, sep).len() ==> !(#[trigger] split(s, sep)[i]).contains(sep),
    decreases s.len(),
{
    let parts = split(s, sep);
    if s.len() == 0 {
        assert(join(parts, sep) =~= s);
    } else {
        let init = s.drop_last();
        let before = split(init, sep);
        law_split_and_join(init, sep);
        if s.last() == sep {
            assert(parts.drop_last() =~= before);
            assert(join(parts, sep) =~= s);
        } else {
            assert(parts.drop_last() =~= before.drop_last());
            assert(parts.last() == before.last().push(s.last()));
            assert(join(parts, sep) =~= join(before, sep).push(s.last()));
            assert(join(parts, sep) =~= s);
            assert forall|i: int| 0 <= i < parts.len() implies !(#[trigger] parts[i]).contains(
                sep,
            ) by {
                if i < parts.len() - 1 {
                    assert(parts[i] == before[i]);
                } else {
                    assert forall|j: int| 0 <= j < parts[i].len() implies parts[i][j] != sep by {
                        if j < parts[i].len() - 1 {
                            assert(!before[i].contains(sep));
                            assert(before[i][j] == parts[i][j]);
                        }
                    }
                }
            }
        }
    }
}

/// Different numbers have different decimals.
pub proof fn law_decimals_differ(a: nat, b: nat)
    requires
        a != b,
    ensures
        decimal(a) != decimal(b),
    decreases a,
{
    if decimal(a) == decimal(b) {
        lemma_decimal_len(a);
        lemma_decimal_len(b);
        if a >= 10 && b >= 10 {
            assert(decimal(a).last() == decimal(b).last());
            assert(a % 10 == b % 10);
            assert(decimal(a).drop_last() =~= decimal(a / 10));
            assert(decimal(b).drop_last() =~= decimal(b / 10));
            law_decimals_differ(a / 10, b / 10);
        } else if a < 10 && b < 10 {
            assert(decimal(a)[0] == decimal(b)[0]);
        }
    }
}

proof fn lemma_decimal_len(n: nat)
    ensures
        decimal(n).len() >= 1,
        n >= 10 <==> decimal(n).len() >= 2,
    decreases n,
{
    if n >= 10 {
        lemma_decimal_len(n / 10);
    }
}

/// Trimming takes white space away at the two ends, all of it, and nothing else.
pub proof fn law_trimmed(s: Seq<char>)
    ensures
        ({
            let r = trimmed(s);
            &&& r.len() > 0 ==> !is_white_space(r.first()) && !is_white_space(r.last())
            &&& exists|from: int, to: int|
                0 <= from <= to <= s.len() && r == #[trigger] s.subrange(from, to) && (forall|i: int|
                    0 <= i < from || to <= i < s.len() ==> is_white_space(#[trigger] s[i]))
        }),
{
    let from = lemma_trimmed_start(s);
    let t = trimmed_start(s);
    let len = lemma_trimmed_end(t);
    assert(trimmed(s) =~= s.subrange(from, from + len));
    assert forall|i: int| 0 <= i < from || from + len <= i < s.len() implies is_white_space(
        #[trigger] s[i],
    ) by {
        if i >= from {
            assert(t[i - from] == s[i]);
        }
    }
}

proof fn lemma_trimmed_start(s: Seq<char>) -> (from: int)
    ensures
        0 <= from <= s.len(),
        trimmed_start(s) == s.skip(from),
        forall|i: int| 0 <= i < from ==> is_white_space(#[trigger] s[i]),
        trimmed_start(s).len() > 0 ==> !is_white_space(trimmed_start(s).first()),
    decreases s.len(),
{
    if s.len() > 0 && is_white_space(s.first()) {
        let rest = s.drop_first();
        let from = lemma_trimmed_start(rest);
        assert(rest.skip(from) =~= s.skip(from + 1));
        assert forall|i: int| 0 <= i < from + 1 implies is_white_space(#[trigger] s[i]) by {
            if i > 0 {
                assert(rest[i - 1] == s[i]);
            }
        }
        from + 1
    } else {
        assert(s.skip(0) =~= s);
        0
    }
}

proof fn lemma_trimmed_end(s: Seq<char>) -> (len: int)
    ensures
        0 <= len <= s.len(),
        trimmed_end(s) == s.take(len),
        forall|i: int| len <= i < s.len() ==> is_white_space(#[trigger] s[i]),
        trimmed_end(s).len() > 0 ==> !is_white_space(trimmed_end(s).last()),
    decreases s.len(),
{
    if s.len() > 0 && is_white_space(s.last()) {
        let init = s.drop_last();
        let len = lemma_trimmed_end(init);
        assert(init.take(len) =~= s.take(len));
        assert forall|i: int| len <= i < s.len() implies is_white_space(#[trigger] s[i]) by {
            if i < s.len() - 1 {
                assert(init[i] == s[i]);
            }
        }
        len
    } else {
        assert(s.take(s.len() as int) =~= s);
        s.len() as int
    }
}

/// The number that `digits` stand for, the first of them being the most significant.
pub open spec fn number_of(digits: Seq<char>) -> int
    decreases digits.len(),
{
    if digits.len() == 0 {
        0
    } else {
        10 * number_of(digits.drop_last()) + (digits.last() as int - '0' as int)
    }
}

/// A decimal consists of digits, has no leading zero, and reads back as the number that it was
/// written for.
pub proof fn law_decimal_reads_back(n: nat)
    ensures
        number_of(decimal(n)) == n,
        forall|i: int| 0 <= i < decimal(n).len() ==> '0' <= #[trigger] decimal(n)[i] <= '9',
        decimal(n).len() > 0,
        decimal(n).len() > 1 ==> decimal(n)[0] != '0',
    decreases n,
{
    let digits = decimal(n);
    reveal_with_fuel(number_of, 2);
    if n < 10 {
        assert(digits.drop_last() =~= Seq::empty());
        assert(digits.last() == digit(n));
    } else {
        let front = decimal(n / 10);
        law_decimal_reads_back(n / 10);
        lemma_decimal_len(n / 10);
        assert(digits.drop_last() =~= front);
        assert(digits.last() == digit(n % 10));
        assert forall|i: int| 0 <= i < digits.len() implies '0' <= #[trigger] digits[i] <= '9' by {
            if i < front.len() {
                assert(digits[i] == front[i]);
            }
        }
        assert(digits[0] == front[0]);
        if front.len() == 1 {
            assert(n / 10 < 10);
            assert(front[0] == digit(n / 10));
        }
    }
}

/// The contents of strings are those of each of them, none more and none less.
pub proof fn law_texts_are_those_of_each(strings: Seq<String>)
    ensures
        texts(strings).len() == strings.len(),
        forall|i: int| 0 <= i < strings.len() ==> #[trigger] texts(strings)[i] == strings[i]@,
{
}

/// A text without separators is its only part, and a separator between two texts parts them.
pub proof fn law_separators_part(a: Seq<char>, b: Seq<char>, sep: char)
    ensures
        !a.contains(sep) ==> split(a, sep) == seq![a],
        split(a.push(sep) + b, sep) == split(a, sep) + split(b, sep),
    decreases a.len() + b.len(),
{
    if !a.contains(sep) {
        lemma_only_part(a, sep);
    }
    lemma_parted(a, b, sep);
}

proof fn lemma_only_part(a: Seq<char>, sep: char)
    requires
        !a.contains(sep),
    ensures
        split(a, sep) == seq![a],
    decreases a.len(),
{
    if a.len() > 0 {
        let init = a.drop_last();
        assert(a[a.len() - 1] != sep);
        assert(!init.contains(sep)) by {
            assert forall|i: int| 0 <= i < init.len() implies init[i] != sep by {
                assert(a[i] == init[i]);
            }
        }
        lemma_only_part(init, sep);
        assert(init.push(a.last()) =~= a);
        assert(split(a, sep) =~= seq![a]);
    }
}

proof fn lemma_parted(a: Seq<char>, b: Seq<char>, sep: char)
    ensures
        split(a.push(sep) + b, sep) == split(a, sep) + split(b, sep),
    decreases b.len(),
{
    let all = a.push(sep) + b;
    law_split_and_join(b, sep);
    if b.len() == 0 {
        assert(all.drop_last() =~= a);
        assert(all.last() == sep);
        assert(b =~= Seq::empty());
        assert(split(all, sep) =~= split(a, sep) + split(b, sep));
    } else {
        let init = b.drop_last();
        lemma_parted(a, init, sep);
        law_split_and_join(init, sep);
        assert(all.drop_last() =~= a.push(sep) + init);
        assert(all.last() == b.last());
        assert(split(all, sep) =~= split(a, sep) + split(b, sep));
    }
}

/// Among the characters of ASCII, white space is the blank and what lies from tabulator to
/// carriage return. Beyond the ideographic blank there is none.
pub proof fn law_ascii_white_space(c: char)
    ensures
        (c as u32) < 0x80 ==> (is_white_space(c) <==> c == ' ' || '\t' <= c <= '\r'),
        is_white_space(c) ==> (c as u32) <= 0x3000,
        '!' <= c <= '~' ==> !is_white_space(c),
{
}

} // verus!
