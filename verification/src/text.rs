//! Text as sequences of characters: what fits a name buffer, comparison
//! without regard to ASCII case, quoting for the automation script, and
//! decimal numerals.

use vstd::prelude::*;
use vstd::utf8::{char_is_scalar, encode_scalar, encode_utf8};

verus! {

/// `String::push` appends one character to the end of the string and leaves
/// the characters before it as they were.
pub assume_specification[ String::push ](text: &mut String, c: char)
    ensures
        final(text)@ == old(text)@.push(c),
;

/// Size in bytes of the buffer through which the window server's names pass.
/// The last byte is taken by the terminator.
pub const NAME_BUFFER_SIZE: usize = 256;

/// Copies the characters of a string slice into a vector.
pub fn chars_of(text: &str) -> (chars: Vec<char>)
    ensures
        chars@ == text@,
{
    let mut chars: Vec<char> = Vec::new();
    for c in walk: text.chars()
        invariant
            walk.seq() == text@,
            chars@ == walk.seq().take(walk.index() as int),
    {
        chars.push(c);
    }
    chars
}

/// Number of bytes that the UTF-8 encoding of one character takes.
pub open spec fn utf8_width(c: char) -> nat {
    let code = c as u32;
    if code < 0x80 {
        1
    } else if code < 0x800 {
        2
    } else if code < 0x1_0000 {
        3
    } else {
        4
    }
}

/// Number of bytes that the UTF-8 encoding of a text takes.
pub open spec fn utf8_len(text: Seq<char>) -> nat {
    encode_utf8(text).len()
}

/// The encoding of one character is as long as [`utf8_width`] says.
pub proof fn lemma_encoded_width(c: char)
    ensures
        encode_scalar(c as u32).len() == utf8_width(c),
{
    char_is_scalar(c);
}

/// A character added at the end of a text adds its width to the length of
/// the encoding.
pub proof fn lemma_utf8_len_push(text: Seq<char>, c: char)
    ensures
        utf8_len(text.push(c)) == utf8_len(text) + utf8_width(c),
    decreases text.len(),
{
    let longer = text.push(c);
    lemma_encoded_width(c);
    if text.len() == 0 {
        assert(encode_utf8(longer.drop_first()).len() == 0);
    } else {
        assert(longer.drop_first() == text.drop_first().push(c));
        lemma_utf8_len_push(text.drop_first(), c);
    }
}

/// Whether a text can stand in the name buffer as a terminated string: it
/// holds no NUL character, and its encoding leaves one byte for the
/// terminator.
pub open spec fn fits_name_buffer(text: Seq<char>) -> bool {
    utf8_len(text) < NAME_BUFFER_SIZE && !text.contains('\0')
}

/// Whether `kept` is the number of leading characters of `text` that survive
/// the name buffer: those characters fit, and one more would not.
pub open spec fn is_buffer_cut(text: Seq<char>, kept: int) -> bool {
    &&& 0 <= kept <= text.len()
    &&& fits_name_buffer(text.take(kept))
    &&& kept < text.len() ==> !fits_name_buffer(text.take(kept + 1))
}

/// The longest prefix of `text` that fits the name buffer.
pub open spec fn buffered(text: Seq<char>) -> Seq<char> {
    text.take(choose|kept: int| is_buffer_cut(text, kept))
}

/// A prefix of a text that fits the name buffer fits it too.
proof fn lemma_fits_prefix(text: Seq<char>, shorter: int, longer: int)
    requires
        0 <= shorter <= longer <= text.len(),
        fits_name_buffer(text.take(longer)),
    ensures
        fits_name_buffer(text.take(shorter)),
    decreases longer - shorter,
{
    if shorter < longer {
        let whole = text.take(longer);
        let part = text.take(longer - 1);
        assert(part.push(text[longer - 1]) == whole);
        lemma_utf8_len_push(part, text[longer - 1]);
        assert(!part.contains('\0')) by {
            if part.contains('\0') {
                let i = choose|i: int| 0 <= i < part.len() && part[i] == '\0';
                assert(whole[i] == '\0');
            }
        }
        lemma_fits_prefix(text, shorter, longer - 1);
    }
}

/// From any prefix that fits, a buffer cut is reached by taking characters
/// for as long as they fit.
proof fn lemma_buffer_cut_from(text: Seq<char>, kept: int)
    requires
        0 <= kept <= text.len(),
        fits_name_buffer(text.take(kept)),
    ensures
        exists|cut: int| is_buffer_cut(text, cut),
    decreases text.len() - kept,
{
    if kept < text.len() && fits_name_buffer(text.take(kept + 1)) {
        lemma_buffer_cut_from(text, kept + 1);
    } else {
        assert(is_buffer_cut(text, kept));
    }
}

/// A text has exactly one buffer cut.
pub proof fn lemma_buffer_cut_unique(text: Seq<char>, first: int, second: int)
    requires
        is_buffer_cut(text, first),
        is_buffer_cut(text, second),
    ensures
        first == second,
{
    if first < second {
        lemma_fits_prefix(text, first + 1, second);
    } else if second < first {
        lemma_fits_prefix(text, second + 1, first);
    }
}

/// What the name buffer holds of a text is a prefix of the text that fits
/// the buffer, and no longer prefix fits. A text that fits is held whole.
pub proof fn lemma_buffered_is_longest_fitting_prefix(text: Seq<char>)
    ensures
        buffered(text).is_prefix_of(text),
        fits_name_buffer(buffered(text)),
        forall|longer: int|
            buffered(text).len() < longer <= text.len() ==> !fits_name_buffer(
                #[trigger] text.take(longer),
            ),
        fits_name_buffer(text) ==> buffered(text) == text,
{
    lemma_buffer_cut_from(text, 0);
    let cut = choose|cut: int| is_buffer_cut(text, cut);
    assert forall|longer: int| cut < longer <= text.len() implies !fits_name_buffer(
        #[trigger] text.take(longer),
    ) by {
        if fits_name_buffer(text.take(longer)) {
            lemma_fits_prefix(text, cut + 1, longer);
        }
    }
    if fits_name_buffer(text) {
        assert(text.take(text.len() as int) == text);
        if cut < text.len() {
            lemma_fits_prefix(text, cut + 1, text.len() as int);
        }
    }
}

/// Of a text that does not begin with a NUL character the name buffer holds
/// at least the first character: no single character is too wide for it.
pub proof fn lemma_buffered_keeps_a_beginning(text: Seq<char>)
    requires
        text.len() > 0,
        text[0] != '\0',
    ensures
        buffered(text).len() > 0,
        buffered(text)[0] == text[0],
{
    lemma_buffered_is_longest_fitting_prefix(text);
    let first = text.take(1);
    assert(Seq::<char>::empty().push(text[0]) == first);
    lemma_utf8_len_push(Seq::<char>::empty(), text[0]);
    assert(fits_name_buffer(first));
}

/// The encoded width of one character, as a machine integer.
pub fn char_width(c: char) -> (width: usize)
    ensures
        width == utf8_width(c),
{
    let code: u32 = c as u32;
    if code < 0x80 {
        1
    } else if code < 0x800 {
        2
    } else if code < 0x1_0000 {
        3
    } else {
        4
    }
}

/// Cuts a name to what the name buffer holds: the text ends before the first
/// NUL character, and before the first character whose encoding would not
/// leave room for the terminator. A text that fits comes back whole.
pub fn buffer_text(text: &str) -> (kept: String)
    ensures
        kept@ == buffered(text@),
        is_buffer_cut(text@, kept@.len() as int),
{
    let chars = chars_of(text);
    let mut kept = String::new();
    let mut used: usize = 0;
    let mut i: usize = 0;
    while i < chars.len()
        invariant
            i <= chars.len(),
            chars@ == text@,
            kept@ == text@.take(i as int),
            used == utf8_len(kept@),
            fits_name_buffer(kept@),
        ensures
            kept@ == text@.take(i as int),
            is_buffer_cut(text@, i as int),
        decreases chars.len() - i,
    {
        let c = chars[i];
        let width: usize = char_width(c);
        proof {
            assert(text@.take(i as int).push(c) == text@.take(i as int + 1));
            lemma_utf8_len_push(text@.take(i as int), c);
        }
        if c == '\0' || used + width >= NAME_BUFFER_SIZE {
            proof {
                let next = text@.take(i as int + 1);
                if c == '\0' {
                    assert(next[i as int] == '\0');
                }
            }
            break ;
        }
        proof {
            let next = text@.take(i as int + 1);
            assert(!next.contains('\0')) by {
                if next.contains('\0') {
                    let j = choose|j: int| 0 <= j < next.len() && next[j] == '\0';
                    assert(j < i ==> kept@[j] == '\0');
                }
            }
        }
        kept.push(c);
        used = used + width;
        i = i + 1;
    }
    proof {
        let cut = choose|cut: int| is_buffer_cut(text@, cut);
        lemma_buffer_cut_unique(text@, cut, kept@.len() as int);
    }
    kept
}

/// Whether two texts hold the same characters.
pub fn same_text(left: &str, right: &str) -> (same: bool)
    ensures
        same == (left@ == right@),
{
    let a = chars_of(left);
    let b = chars_of(right);
    if a.len() != b.len() {
        return false;
    }
    let mut i: usize = 0;
    while i < a.len()
        invariant
            i <= a.len(),
            a.len() == b.len(),
            a@ == left@,
            b@ == right@,
            a@.take(i as int) == b@.take(i as int),
        decreases a.len() - i,
    {
        if a[i] != b[i] {
            return false;
        }
        i = i + 1;
    }
    assert(a@.take(a@.len() as int) == a@);
    assert(b@.take(b@.len() as int) == b@);
    true
}

/// Whether a text begins with the characters of `prefix`.
pub fn has_prefix(text: &str, prefix: &str) -> (found: bool)
    ensures
        found == prefix@.is_prefix_of(text@),
{
    let a = chars_of(text);
    let b = chars_of(prefix);
    if b.len() > a.len() {
        return false;
    }
    let mut i: usize = 0;
    while i < b.len()
        invariant
            i <= b.len() <= a.len(),
            a@ == text@,
            b@ == prefix@,
            forall|j: int| 0 <= j < i ==> b@[j] == a@[j],
        decreases b.len() - i,
    {
        if b[i] != a[i] {
            return false;
        }
        i = i + 1;
    }
    true
}

/// The number by which a character is compared when ASCII case is ignored:
/// the code of its lower-case form for `A` to `Z`, its own code otherwise.
pub open spec fn ascii_folded(c: char) -> u32 {
    if 'A' <= c && c <= 'Z' {
        (c as u32 + 32) as u32
    } else {
        c as u32
    }
}

/// Whether two texts are equal when the ASCII letters `A` to `Z` are read as
/// `a` to `z`. Characters outside ASCII are compared as they are.
pub open spec fn equal_ignoring_ascii_case(left: Seq<char>, right: Seq<char>) -> bool {
    &&& left.len() == right.len()
    &&& forall|i: int| 0 <= i < left.len() ==> ascii_folded(left[i]) == ascii_folded(right[i])
}

/// Folds one character for comparison without regard to ASCII case.
pub fn fold_ascii(c: char) -> (folded: u32)
    ensures
        folded == ascii_folded(c),
{
    if 'A' <= c && c <= 'Z' {
        c as u32 + 32
    } else {
        c as u32
    }
}

/// Compares two texts without regard to the case of ASCII letters.
pub fn eq_ignore_ascii_case(left: &str, right: &str) -> (equal: bool)
    ensures
        equal == equal_ignoring_ascii_case(left@, right@),
{
    let a = chars_of(left);
    let b = chars_of(right);
    if a.len() != b.len() {
        return false;
    }
    let mut i: usize = 0;
    while i < a.len()
        invariant
            i <= a.len(),
            a.len() == b.len(),
            a@ == left@,
            b@ == right@,
            forall|j: int| 0 <= j < i ==> ascii_folded(a@[j]) == ascii_folded(b@[j]),
        decreases a.len() - i,
    {
        if fold_ascii(a[i]) != fold_ascii(b[i]) {
            return false;
        }
        i = i + 1;
    }
    true
}

/// What stands in a script's string literal for one character of the text:
/// a double quote and a backslash each get a backslash in front, any other
/// character stands for itself.
pub open spec fn escaped_char(c: char) -> Seq<char> {
    if c == '"' || c == '\\' {
        seq!['\\', c]
    } else {
        seq![c]
    }
}

/// The text with a backslash put in front of every double quote and every
/// backslash.
pub open spec fn escaped(text: Seq<char>) -> Seq<char>
    decreases text.len(),
{
    if text.len() == 0 {
        Seq::empty()
    } else {
        escaped_char(text.first()) + escaped(text.drop_first())
    }
}

/// Escaping goes through a text character by character, so a character added
/// at the end adds its escaped form at the end.
pub proof fn lemma_escaped_push(text: Seq<char>, c: char)
    ensures
        escaped(text.push(c)) == escaped(text) + escaped_char(c),
    decreases text.len(),
{
    let longer = text.push(c);
    if text.len() == 0 {
        assert(escaped(longer.drop_first()) == Seq::<char>::empty());
    } else {
        assert(longer.drop_first() == text.drop_first().push(c));
        lemma_escaped_push(text.drop_first(), c);
        assert(escaped(longer) == escaped_char(text.first()) + (escaped(text.drop_first())
            + escaped_char(c)));
    }
}

/// Puts a backslash in front of every double quote and every backslash of a
/// text, so that the text can stand between double quotes in the automation
/// script: no character of it can end the string literal or take the closing
/// double quote with it.
pub fn escape_quotes(text: &str) -> (quoted: String)
    ensures
        quoted@ == escaped(text@),
{
    let chars = chars_of(text);
    let mut quoted = String::new();
    let mut i: usize = 0;
    while i < chars.len()
        invariant
            i <= chars.len(),
            chars@ == text@,
            quoted@ == escaped(text@.take(i as int)),
        decreases chars.len() - i,
    {
        let c = chars[i];
        proof {
            lemma_escaped_push(text@.take(i as int), c);
            assert(text@.take(i as int).push(c) == text@.take(i as int + 1));
        }
        if c == '"' || c == '\\' {
            quoted.push('\\');
        }
        quoted.push(c);
        i = i + 1;
    }
    assert(text@.take(text@.len() as int) == text@);
    quoted
}

/// The number of backslashes that stand in an unbroken run right before the
/// position `at` of a written text.
pub open spec fn backslashes_before(written: Seq<char>, at: int) -> nat
    decreases at,
{
    if at <= 0 || at > written.len() || written[at - 1] != '\\' {
        0
    } else {
        1 + backslashes_before(written, at - 1)
    }
}

/// The run of backslashes before a position depends only on what is written
/// before that position.
proof fn lemma_backslashes_before_prefix(written: Seq<char>, more: Seq<char>, at: int)
    requires
        at <= written.len(),
    ensures
        backslashes_before(written + more, at) == backslashes_before(written, at),
    decreases at,
{
    if at > 0 && written[at - 1] == '\\' {
        lemma_backslashes_before_prefix(written, more, at - 1);
    }
}

/// In an escaped text every double quote has an odd number of backslashes
/// right before it, so the script language reads it as part of the text; and
/// the text ends in an even number of backslashes, so the double quote that
/// closes the literal is read as closing it.
pub proof fn lemma_escaped_quotes_guarded(text: Seq<char>)
    ensures
        forall|i: int|
            #![trigger escaped(text)[i]]
            0 <= i < escaped(text).len() && escaped(text)[i] == '"' ==> backslashes_before(
                escaped(text),
                i,
            ) % 2 == 1,
        backslashes_before(escaped(text), escaped(text).len() as int) % 2 == 0,
    decreases text.len(),
{
    if text.len() > 0 {
        let before = escaped(text.drop_last());
        let unit = escaped_char(text.last());
        let whole = escaped(text);
        let n = before.len() as int;
        assert(text.drop_last().push(text.last()) == text);
        lemma_escaped_push(text.drop_last(), text.last());
        lemma_escaped_quotes_guarded(text.drop_last());
        lemma_backslashes_before_prefix(before, unit, n);
        assert(whole[n] == unit[0]);
        if unit.len() == 2 {
            assert(whole[n + 1] == unit[1]);
            assert(backslashes_before(whole, n + 1) == 1 + backslashes_before(whole, n));
        }
        assert forall|i: int|
            #![trigger whole[i]]
            0 <= i < whole.len() && whole[i] == '"' implies backslashes_before(whole, i) % 2
            == 1 by {
            if i < n {
                assert(before[i] == '"');
                lemma_backslashes_before_prefix(before, unit, i);
            }
        }
    }
}

/// The text that a string literal of the automation script stands for, given
/// what is written between its double quotes: a backslash makes the character
/// after it part of the text. There is no such text where a double quote
/// stands without a backslash before it, which would end the literal early,
/// or where the last character is a backslash that would take the closing
/// double quote with it.
pub open spec fn literal_text(written: Seq<char>) -> Option<Seq<char>>
    decreases written.len(),
{
    if written.len() == 0 {
        Some(Seq::empty())
    } else if written[0] == '"' {
        None
    } else if written[0] == '\\' {
        if written.len() == 1 {
            None
        } else {
            match literal_text(written.skip(2)) {
                Some(rest) => Some(seq![written[1]] + rest),
                None => None,
            }
        }
    } else {
        match literal_text(written.skip(1)) {
            Some(rest) => Some(seq![written[0]] + rest),
            None => None,
        }
    }
}

/// Any text, escaped and written between double quotes, is a whole string
/// literal that stands for that text: no double quote of the text ends the
/// literal early, and no backslash of it takes the closing double quote.
pub proof fn lemma_escaped_reads_back(text: Seq<char>)
    ensures
        literal_text(escaped(text)) == Some(text),
    decreases text.len(),
{
    if text.len() > 0 {
        let c = text.first();
        let rest = text.drop_first();
        lemma_escaped_reads_back(rest);
        let written = escaped(text);
        if c == '"' || c == '\\' {
            assert(written[0] == '\\' && written[1] == c);
            assert(written.skip(2) == escaped(rest));
        } else {
            assert(written[0] == c);
            assert(written.skip(1) == escaped(rest));
        }
        assert(seq![c] + rest == text);
    }
}

/// The character for one decimal digit.
pub open spec fn digit_char(digit: int) -> char {
    ((48 + digit) as u8) as char
}

/// The decimal numeral of a natural number, without leading zeros.
pub open spec fn decimal_of_nat(n: nat) -> Seq<char>
    decreases n,
{
    if n < 10 {
        seq![digit_char(n as int)]
    } else {
        decimal_of_nat(n / 10).push(digit_char((n % 10) as int))
    }
}

/// The decimal numeral of an integer: a minus sign for a negative number,
/// then the numeral of its magnitude.
pub open spec fn decimal_of(n: int) -> Seq<char> {
    if n < 0 {
        seq!['-'] + decimal_of_nat((-n) as nat)
    } else {
        decimal_of_nat(n as nat)
    }
}

/// The number that a sequence of decimal digits stands for.
pub open spec fn numeral_value(digits: Seq<char>) -> int
    decreases digits.len(),
{
    if digits.len() == 0 {
        0
    } else {
        10 * numeral_value(digits.drop_last()) + (digits.last() as u32 - 48)
    }
}

/// The number that a numeral with an optional minus sign stands for.
pub open spec fn signed_numeral_value(numeral: Seq<char>) -> int {
    if numeral.len() > 0 && numeral[0] == '-' {
        -numeral_value(numeral.drop_first())
    } else {
        numeral_value(numeral)
    }
}

/// The numeral of a natural number holds digits only, and reads back as the
/// number.
pub proof fn lemma_decimal_of_nat_reads_back(n: nat)
    ensures
        numeral_value(decimal_of_nat(n)) == n,
        decimal_of_nat(n).len() > 0,
        forall|i: int|
            0 <= i < decimal_of_nat(n).len() ==> '0' <= #[trigger] decimal_of_nat(n)[i] <= '9',
    decreases n,
{
    let numeral = decimal_of_nat(n);
    if n < 10 {
        assert(numeral_value(numeral) == 10 * numeral_value(numeral.drop_last()) + (
        numeral.last() as u32 - 48));
    } else {
        lemma_decimal_of_nat_reads_back(n / 10);
        assert(numeral.drop_last() == decimal_of_nat(n / 10));
    }
}

/// The numeral of an integer reads back as the integer.
pub proof fn lemma_decimal_reads_back(n: int)
    ensures
        signed_numeral_value(decimal_of(n)) == n,
{
    if n < 0 {
        lemma_decimal_of_nat_reads_back((-n) as nat);
        assert(decimal_of(n).drop_first() == decimal_of_nat((-n) as nat));
    } else {
        lemma_decimal_of_nat_reads_back(n as nat);
    }
}

/// Appends the decimal numeral of `n` to `out`.
pub fn push_decimal(out: &mut String, n: u32)
    ensures
        final(out)@ == old(out)@ + decimal_of_nat(n as nat),
    decreases n,
{
    if n >= 10 {
        push_decimal(out, n / 10);
    }
    let digit: u8 = (n % 10) as u8;
    out.push((48 + digit) as char);
}

/// Writes an integer as a decimal numeral.
pub fn decimal(n: i32) -> (numeral: String)
    ensures
        numeral@ == decimal_of(n as int),
{
    let mut numeral = String::new();
    if n < 0 {
        numeral.push('-');
        let magnitude: i64 = 0 - (n as i64);
        push_decimal(&mut numeral, magnitude as u32);
    } else {
        push_decimal(&mut numeral, n as u32);
    }
    numeral
}

/// The text that `String::from_utf8_lossy` makes of a sequence of bytes:
/// the bytes read as UTF-8, with the replacement character U+FFFD in place
/// of every part that is not valid UTF-8.
pub uninterp spec fn lossy_text(bytes: Seq<u8>) -> Seq<char>;

/// Reads bytes as text with `String::from_utf8_lossy`. The result depends on
/// the bytes alone; it is named [`lossy_text`] and nothing more is claimed
/// of it.
#[verifier::external_body]
pub(crate) fn text_from_bytes(bytes: &[u8]) -> (text: String)
    ensures
        text@ == lossy_text(bytes@),
{
    String::from_utf8_lossy(bytes).into_owned()
}

} // verus!
