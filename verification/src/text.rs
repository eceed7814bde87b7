//! Text: comparison, decimal numerals, trimming and truncation.
use vstd::prelude::*;
use vstd::string::*;
use vstd::utf8::*;

verus! {

/// The number of bytes that UTF-8 spends on a character.
pub open spec fn char_width(c: char) -> nat {
    let code = c as u32;
    if code <= 0x7f {
        1
    } else if code <= 0x7ff {
        2
    } else if code <= 0xffff {
        3
    } else {
        4
    }
}

/// The number of bytes that UTF-8 spends on a text.
pub open spec fn byte_len(text: Seq<char>) -> nat {
    encode_utf8(text).len()
}

/// The longest prefix of `text` that UTF-8 encodes in at most `max_bytes` bytes.
pub open spec fn truncated(text: Seq<char>, max_bytes: nat) -> Seq<char>
    decreases text.len(),
{
    if text.len() == 0 || char_width(text[0]) > max_bytes {
        seq![]
    } else {
        seq![text[0]] + truncated(
            text.drop_first(),
            (max_bytes - char_width(text[0])) as nat,
        )
    }
}

/// Equal encodings come from equal texts.
pub proof fn lemma_encoding_injective(a: Seq<char>, b: Seq<char>)
    requires
        encode_utf8(a) == encode_utf8(b),
    ensures
        a == b,
{
    encode_utf8_decode_utf8(a);
    encode_utf8_decode_utf8(b);
}

/// The encoding of one character has its width.
proof fn lemma_char_width(c: char)
    ensures
        encode_scalar(c as u32).len() == char_width(c),
{
}

/// Where `truncated` cuts, in bytes: at a character boundary, and at the last one
/// that the limit allows.
proof fn lemma_truncation_point(text: Seq<char>, max_bytes: nat)
    ensures
        ({
            let bytes = encode_utf8(text);
            let kept = encode_utf8(truncated(text, max_bytes));
            &&& kept.len() <= max_bytes
            &&& kept.len() <= bytes.len()
            &&& is_char_boundary(bytes, kept.len() as int)
            &&& bytes.subrange(0, kept.len() as int) == kept
            &&& forall|j: int|
                kept.len() < j <= max_bytes && j <= bytes.len() ==> !#[trigger] is_char_boundary(
                    bytes,
                    j,
                )
        }),
    decreases text.len(),
{
    let bytes = encode_utf8(text);
    encode_utf8_valid_utf8(text);
    if text.len() == 0 {
        assert(bytes.subrange(0, 0) =~= seq![]);
    } else {
        let head = encode_scalar(text[0] as u32);
        let rest = text.drop_first();
        lemma_char_width(text[0]);
        encode_utf8_first_scalar(text);
        assert(bytes == head + encode_utf8(rest));
        assert(length_of_first_scalar(bytes) == head.len());
        assert(pop_first_scalar(bytes) =~= encode_utf8(rest));
        encode_utf8_valid_utf8(rest);
        if char_width(text[0]) > max_bytes {
            assert(bytes.subrange(0, 0) =~= seq![]);
            assert forall|j: int| 0 < j <= max_bytes && j <= bytes.len() implies !#[trigger] is_char_boundary(
                bytes,
                j,
            ) by {
                assert(!is_char_boundary(encode_utf8(rest), j - head.len()));
            }
        } else {
            let room = (max_bytes - char_width(text[0])) as nat;
            lemma_truncation_point(rest, room);
            let tail = truncated(rest, room);
            let all = truncated(text, max_bytes);
            assert(all[0] == text[0]);
            assert(all.drop_first() =~= tail);
            assert(encode_utf8(all) == head + encode_utf8(tail));
            let cut = encode_utf8(all).len() as int;
            assert(bytes.subrange(0, cut) =~= head + encode_utf8(rest).subrange(
                0,
                encode_utf8(tail).len() as int,
            ));
            assert forall|j: int| cut < j <= max_bytes && j <= bytes.len() implies !#[trigger] is_char_boundary(
                bytes,
                j,
            ) by {
                assert(!is_char_boundary(encode_utf8(rest), j - head.len()));
            }
        }
    }
}

/// What `truncated` keeps is a prefix of the text, fits the limit, and is the whole
/// text exactly when the whole text fits.
pub proof fn truncation_keeps_the_longest_fitting_prefix(text: Seq<char>, max_bytes: nat)
    ensures
        truncated(text, max_bytes).is_prefix_of(text),
        byte_len(truncated(text, max_bytes)) <= max_bytes,
        byte_len(text) <= max_bytes <==> truncated(text, max_bytes) == text,
        forall|k: int|
            truncated(text, max_bytes).len() < k <= text.len() ==> byte_len(#[trigger] text.take(k))
                > max_bytes,
    decreases text.len(),
{
    lemma_truncation_point(text, max_bytes);
    if text.len() > 0 {
        lemma_char_width(text[0]);
        let rest = text.drop_first();
        if char_width(text[0]) > max_bytes {
            assert forall|k: int| 0 < k <= text.len() implies byte_len(#[trigger] text.take(k))
                > max_bytes by {
                assert(text.take(k)[0] == text[0]);
            }
            assert(text.take(text.len() as int) =~= text);
        } else {
            let room = (max_bytes - char_width(text[0])) as nat;
            truncation_keeps_the_longest_fitting_prefix(rest, room);
            let all = truncated(text, max_bytes);
            assert(all.drop_first() =~= truncated(rest, room));
            assert forall|k: int| all.len() < k <= text.len() implies byte_len(
                #[trigger] text.take(k),
            ) > max_bytes by {
                assert(text.take(k).drop_first() =~= rest.take(k - 1));
                assert(text.take(k)[0] == text[0]);
            }
            assert(truncated(rest, room) == rest ==> all =~= text);
            assert(byte_len(text) == char_width(text[0]) + byte_len(rest));
            assert(all == text ==> truncated(rest, room) =~= rest);
        }
    } else {
        assert(truncated(text, max_bytes) =~= text);
    }
}

/// Whether two texts are the same.
pub fn same_text(a: &str, b: &str) -> (same: bool)
    ensures
        same == (a@ == b@),
{
    let left = a.as_bytes();
    let right = b.as_bytes();
    if left.len() != right.len() {
        return false;
    }
    let n: usize = left.len();
    for i in 0..n
        invariant
            n == left@.len(),
            n == right@.len(),
            left@ == a.spec_bytes(),
            right@ == b.spec_bytes(),
            forall|j: int| 0 <= j < i ==> left@[j] == right@[j],
    {
        if left[i] != right[i] {
            return false;
        }
    }
    proof {
        assert(left@ =~= right@);
        lemma_encoding_injective(a@, b@);
    }
    true
}

/// The length of a text is that of its parts.
pub proof fn lemma_byte_len_concat(head: Seq<char>, tail: Seq<char>)
    ensures
        byte_len(head + tail) == byte_len(head) + byte_len(tail),
    decreases head.len(),
{
    if head.len() == 0 {
        assert(head + tail =~= tail);
    } else {
        assert((head + tail).drop_first() =~= head.drop_first() + tail);
        lemma_byte_len_concat(head.drop_first(), tail);
    }
}

/// A text without bytes has no characters.
pub proof fn lemma_empty_when_no_bytes(text: Seq<char>)
    requires
        byte_len(text) == 0,
    ensures
        text.len() == 0,
{
    truncation_keeps_the_longest_fitting_prefix(text, 0);
    if text.len() > 0 {
        lemma_char_width(text[0]);
    }
}

/// What fits of a text is its first part and what fits of the rest, or what fits of
/// the first part alone.
pub proof fn lemma_truncated_concat(head: Seq<char>, tail: Seq<char>, max_bytes: nat)
    ensures
        byte_len(head) <= max_bytes ==> truncated(head + tail, max_bytes) == head + truncated(
            tail,
            (max_bytes - byte_len(head)) as nat,
        ),
        byte_len(head) > max_bytes ==> truncated(head + tail, max_bytes) == truncated(
            head,
            max_bytes,
        ),
    decreases head.len(),
{
    if head.len() == 0 {
        assert(head + tail =~= tail);
        assert(head + truncated(tail, max_bytes) =~= truncated(tail, max_bytes));
    } else {
        lemma_char_width(head[0]);
        assert((head + tail).drop_first() =~= head.drop_first() + tail);
        if char_width(head[0]) <= max_bytes {
            let room = (max_bytes - char_width(head[0])) as nat;
            lemma_truncated_concat(head.drop_first(), tail, room);
        }
    }
}

/// The longest prefix of `output` that fits in `max_bytes` bytes without splitting a
/// character.
pub fn truncate_codex_output(output: &str, max_bytes: usize) -> (kept: String)
    ensures
        kept@ == truncated(output@, max_bytes as nat),
{
    let size: usize = output.as_bytes().len();
    proof {
        truncation_keeps_the_longest_fitting_prefix(output@, max_bytes as nat);
    }
    if size <= max_bytes {
        return output.to_owned();
    }
    let mut end: usize = max_bytes;
    proof {
        lemma_truncation_point(output@, max_bytes as nat);
        encode_utf8_valid_utf8(output@);
    }
    while !output.is_char_boundary(end)
        invariant
            end <= max_bytes < output.spec_bytes().len(),
            valid_utf8(output.spec_bytes()),
            forall|j: int|
                end < j <= max_bytes ==> !#[trigger] is_char_boundary(output.spec_bytes(), j),
        decreases end,
    {
        end = end - 1;
    }
    let (head, _) = output.split_at(end);
    proof {
        let cut = byte_len(truncated(output@, max_bytes as nat)) as int;
        assert(cut == end);
        lemma_encoding_injective(head@, truncated(output@, max_bytes as nat));
    }
    head.to_owned()
}

/// The character of a decimal digit.
pub open spec fn digit_char(digit: nat) -> char {
    ('0' as u32 + digit) as char
}

/// The decimal numeral of a natural number.
pub open spec fn digits(n: nat) -> Seq<char>
    decreases n,
{
    if n < 10 {
        seq![digit_char(n)]
    } else {
        digits(n / 10).push(digit_char(n % 10))
    }
}

/// The decimal numeral of an integer, with a minus sign where it is negative.
pub open spec fn decimal(n: int) -> Seq<char> {
    if n < 0 {
        seq!['-'] + digits((-n) as nat)
    } else {
        digits(n as nat)
    }
}

/// The text of one decimal digit.
fn digit_text(digit: u64) -> (text: &'static str)
    requires
        digit < 10,
    ensures
        text@ == seq![digit_char(digit as nat)],
{
    proof {
        reveal_strlit("0");
        reveal_strlit("1");
        reveal_strlit("2");
        reveal_strlit("3");
        reveal_strlit("4");
        reveal_strlit("5");
        reveal_strlit("6");
        reveal_strlit("7");
        reveal_strlit("8");
        reveal_strlit("9");
    }
    match digit {
        0 => "0",
        1 => "1",
        2 => "2",
        3 => "3",
        4 => "4",
        5 => "5",
        6 => "6",
        7 => "7",
        8 => "8",
        _ => "9",
    }
}

/// The decimal numeral of an unsigned integer.
pub fn digits_text(n: u64) -> (text: String)
    ensures
        text@ == digits(n as nat),
    decreases n,
{
    if n < 10 {
        digit_text(n).to_owned()
    } else {
        let mut text = digits_text(n / 10);
        text.append(digit_text(n % 10));
        text
    }
}

/// The decimal numeral of a signed integer.
pub fn decimal_text(n: i64) -> (text: String)
    ensures
        text@ == decimal(n as int),
{
    if n < 0 {
        proof {
            reveal_strlit("-");
        }
        let magnitude: u64 = (-(n + 1)) as u64 + 1;
        let mut text = "-".to_owned();
        text.append(digits_text(magnitude).as_str());
        text
    } else {
        digits_text(n as u64)
    }
}

/// The characters with the Unicode property `White_Space`.
pub open spec fn is_white_space(c: char) -> bool {
    let code = c as u32;
    ||| 0x9 <= code <= 0xd
    ||| code == 0x20
    ||| code == 0x85
    ||| code == 0xa0
    ||| code == 0x1680
    ||| 0x2000 <= code <= 0x200a
    ||| code == 0x2028
    ||| code == 0x2029
    ||| code == 0x202f
    ||| code == 0x205f
    ||| code == 0x3000
}

/// A text without the white space at its two ends.
pub open spec fn trimmed(text: Seq<char>) -> Seq<char>
    decreases text.len(),
{
    if text.len() == 0 {
        text
    } else if is_white_space(text.first()) {
        trimmed(text.drop_first())
    } else if is_white_space(text.last()) {
        trimmed(text.drop_last())
    } else {
        text
    }
}

/// Whether a text holds nothing but white space.
pub open spec fn blank(text: Seq<char>) -> bool {
    trimmed(text).len() == 0
}

/// Trims a text with `str::trim`, which removes leading and trailing characters
/// that have the Unicode property `White_Space`.
#[verifier::external_body]
pub(crate) fn trim(text: &str) -> (rest: &str)
    ensures
        rest@ == trimmed(text@),
{
    text.trim()
}

/// Whether a line holds nothing but white space.
pub fn is_blank(line: &str) -> (r: bool)
    ensures
        r == blank(line@),
{
    trim(line).is_empty()
}

/// A text is blank exactly when each of its characters is white space.
pub proof fn blank_means_all_white_space(text: Seq<char>)
    ensures
        blank(text) <==> forall|i: int| 0 <= i < text.len() ==> is_white_space(#[trigger] text[i]),
    decreases text.len(),
{
    if text.len() > 0 {
        if is_white_space(text.first()) {
            let rest = text.drop_first();
            blank_means_all_white_space(rest);
            if blank(rest) {
                assert forall|i: int| 0 <= i < text.len() implies is_white_space(
                    #[trigger] text[i],
                ) by {
                    if i > 0 {
                        assert(rest[i - 1] == text[i]);
                    }
                }
            } else {
                let i = choose|i: int| 0 <= i < rest.len() && !is_white_space(rest[i]);
                assert(text[i + 1] == rest[i]);
            }
        } else {
            assert(!is_white_space(text[0]));
            assert(!blank(text)) by {
                lemma_trim_keeps_first(text);
            }
        }
    }
}

/// Trimming stops at a character that is not white space.
proof fn lemma_trim_keeps_first(text: Seq<char>)
    requires
        text.len() > 0,
        !is_white_space(text.first()),
    ensures
        trimmed(text).len() > 0,
    decreases text.len(),
{
    if is_white_space(text.last()) {
        lemma_trim_keeps_first(text.drop_last());
    }
}

/// The length of a text in bytes is that of its encoding, in which a character takes
/// one byte up to U+7F, two up to U+7FF, three up to U+FFFF and four beyond.
pub proof fn lengths_are_counted_in_bytes(text: Seq<char>, c: char)
    ensures
        byte_len(text) == encode_utf8(text).len(),
        byte_len(seq![]) == 0,
        byte_len(text.push(c)) == byte_len(text) + if c as u32 <= 0x7f {
            1nat
        } else if c as u32 <= 0x7ff {
            2
        } else if c as u32 <= 0xffff {
            3
        } else {
            4
        },
{
    let empty = Seq::<char>::empty();
    assert(text.push(c) =~= text + seq![c]);
    lemma_byte_len_concat(text, seq![c]);
    lemma_byte_len_concat(empty, empty);
    assert(empty + empty =~= empty);
    assert(seq![c].drop_first() =~= empty);
    lemma_char_width(c);
}

/// What is kept of a text is all of it or as much as fits: one more character would
/// not fit.
pub proof fn truncation_stops_only_at_the_limit(text: Seq<char>, max_bytes: nat)
    ensures
        ({
            let kept = truncated(text, max_bytes);
            &&& kept.len() <= text.len()
            &&& kept == text.take(kept.len() as int)
            &&& encode_utf8(kept).len() <= max_bytes
            &&& kept.len() < text.len() ==> encode_utf8(text.take(kept.len() as int + 1)).len() > max_bytes
        }),
{
    truncation_keeps_the_longest_fitting_prefix(text, max_bytes);
    let kept = truncated(text, max_bytes);
    assert(kept =~= text.take(kept.len() as int));
    if kept.len() < text.len() {
        assert(byte_len(text.take(kept.len() as int + 1)) > max_bytes);
    }
}

/// Numerals are written digit by digit, most significant first, without leading zeros;
/// a negative number has a minus sign before the numeral of its magnitude.
pub proof fn numerals_are_decimal(n: nat, d: nat)
    requires
        d < 10,
    ensures
        digits(d) == seq![('0' as u32 + d) as char],
        n > 0 ==> digits(10 * n + d) == digits(n).push(('0' as u32 + d) as char),
        decimal(n as int) == digits(n),
        n > 0 ==> decimal(-(n as int)) == seq!['-'] + digits(n),
{
    if n > 0 {
        let m = 10 * n + d;
        assert(m / 10 == n && m % 10 == d) by (nonlinear_arith)
            requires
                m == 10 * n + d,
                d < 10,
        ;
        assert(digits(m) == digits(n).push(digit_char(d)));
    }
}

/// White space is what Unicode says it is.
pub proof fn white_space(c: char)
    ensures
        is_white_space(c) <==> (0x9 <= c as u32 <= 0xd || c as u32 == 0x20 || c as u32 == 0x85
            || c as u32 == 0xa0 || c as u32 == 0x1680 || 0x2000 <= c as u32 <= 0x200a || c as u32
            == 0x2028 || c as u32 == 0x2029 || c as u32 == 0x202f || c as u32 == 0x205f || c as u32
            == 0x3000),
{
}

/// Whether a text has nothing but white space outside the given bounds.
pub open spec fn is_bounded_by(text: Seq<char>, i: int, j: int) -> bool {
    &&& 0 <= i <= j <= text.len()
    &&& forall|k: int| 0 <= k < i ==> is_white_space(#[trigger] text[k])
    &&& forall|k: int| j <= k < text.len() ==> is_white_space(#[trigger] text[k])
}

/// The bounds of a text with white space in front.
proof fn lemma_bounds_in_front(text: Seq<char>, i: int, j: int)
    requires
        text.len() > 0,
        is_white_space(text[0]),
        is_bounded_by(text.drop_first(), i, j),
    ensures
        is_bounded_by(text, i + 1, j + 1),
        text.subrange(i + 1, j + 1) == text.drop_first().subrange(i, j),
{
    let inner = text.drop_first();
    assert forall|k: int| 0 <= k < i + 1 implies is_white_space(#[trigger] text[k]) by {
        if k > 0 {
            assert(inner[k - 1] == text[k]);
        }
    }
    assert forall|k: int| j + 1 <= k < text.len() implies is_white_space(#[trigger] text[k]) by {
        assert(inner[k - 1] == text[k]);
    }
    assert(text.subrange(i + 1, j + 1) =~= inner.subrange(i, j));
}

/// The bounds of a text with white space behind.
proof fn lemma_bounds_behind(text: Seq<char>, i: int, j: int)
    requires
        text.len() > 0,
        is_white_space(text[text.len() - 1]),
        is_bounded_by(text.drop_last(), i, j),
    ensures
        is_bounded_by(text, i, j),
        text.subrange(i, j) == text.drop_last().subrange(i, j),
{
    let inner = text.drop_last();
    assert forall|k: int| 0 <= k < i implies is_white_space(#[trigger] text[k]) by {
        assert(inner[k] == text[k]);
    }
    assert forall|k: int| j <= k < text.len() implies is_white_space(#[trigger] text[k]) by {
        if k < inner.len() {
            assert(inner[k] == text[k]);
        }
    }
    assert(text.subrange(i, j) =~= inner.subrange(i, j));
}

/// Where trimming cuts a text.
proof fn lemma_trim_bounds(text: Seq<char>) -> (bounds: (int, int))
    ensures
        is_bounded_by(text, bounds.0, bounds.1),
        trimmed(text) == text.subrange(bounds.0, bounds.1),
    decreases text.len(),
{
    if text.len() > 0 && is_white_space(text.first()) {
        let (i, j) = lemma_trim_bounds(text.drop_first());
        lemma_bounds_in_front(text, i, j);
        (i + 1, j + 1)
    } else if text.len() > 0 && is_white_space(text.last()) {
        let (i, j) = lemma_trim_bounds(text.drop_last());
        lemma_bounds_behind(text, i, j);
        (i, j)
    } else {
        assert(text =~= text.subrange(0, text.len() as int));
        (0, text.len() as int)
    }
}

/// What is left of a text has no white space at its ends.
proof fn lemma_trimmed_ends(text: Seq<char>)
    ensures
        trimmed(text).len() > 0 ==> !is_white_space(trimmed(text).first()) && !is_white_space(
            trimmed(text).last(),
        ),
    decreases text.len(),
{
    if text.len() > 0 {
        if is_white_space(text.first()) {
            lemma_trimmed_ends(text.drop_first());
        } else if is_white_space(text.last()) {
            lemma_trimmed_ends(text.drop_last());
        }
    }
}

/// Trimming takes away white space at the two ends, all of it and nothing else.
pub proof fn trimming_takes_the_white_space_at_the_ends(text: Seq<char>)
    ensures
        trimmed(text).len() > 0 ==> !is_white_space(trimmed(text).first()) && !is_white_space(
            trimmed(text).last(),
        ),
        exists|i: int, j: int|
            0 <= i <= j <= text.len() && trimmed(text) == #[trigger] text.subrange(i, j) && (
            forall|k: int| 0 <= k < i ==> is_white_space(#[trigger] text[k])) && (forall|k: int|
                j <= k < text.len() ==> is_white_space(#[trigger] text[k])),
        blank(text) <==> trimmed(text) == Seq::<char>::empty(),
{
    lemma_trimmed_ends(text);
    let (i, j) = lemma_trim_bounds(text);
    assert(trimmed(text) == text.subrange(i, j));
    assert(trimmed(text).len() == 0 ==> trimmed(text) =~= Seq::<char>::empty());
}

} // verus!
