//! Text: the few string operations that the labels, messages and state files need, each with the
//! characters it produces or recognises stated exactly.
use vstd::prelude::*;

verus! {

/// The character of a digit below sixteen, upper case.
pub open spec fn digit_char(d: int) -> char {
    if d == 0 { '0' } else if d == 1 { '1' } else if d == 2 { '2' } else if d == 3 { '3' }
    else if d == 4 { '4' } else if d == 5 { '5' } else if d == 6 { '6' } else if d == 7 { '7' }
    else if d == 8 { '8' } else if d == 9 { '9' } else if d == 10 { 'A' } else if d == 11 { 'B' }
    else if d == 12 { 'C' } else if d == 13 { 'D' } else if d == 14 { 'E' } else { 'F' }
}

/// `n` in decimal, without leading zeros.
pub open spec fn decimal(n: nat) -> Seq<char>
    decreases n,
{
    if n < 10 {
        seq![digit_char(n as int)]
    } else {
        decimal(n / 10).push(digit_char((n % 10) as int))
    }
}

/// The last `width` hexadecimal digits of `n`, upper case.
pub open spec fn hex(n: nat, width: nat) -> Seq<char>
    decreases width,
{
    if width == 0 {
        Seq::empty()
    } else {
        hex(n / 16, (width - 1) as nat).push(digit_char((n % 16) as int))
    }
}

fn digit_text(d: u64) -> (text: &'static str)
    requires
        d < 16,
    ensures
        text@ == seq![digit_char(d as int)],
{
    proof {
        reveal_strlit("0"); reveal_strlit("1"); reveal_strlit("2"); reveal_strlit("3");
        reveal_strlit("4"); reveal_strlit("5"); reveal_strlit("6"); reveal_strlit("7");
        reveal_strlit("8"); reveal_strlit("9"); reveal_strlit("A"); reveal_strlit("B");
        reveal_strlit("C"); reveal_strlit("D"); reveal_strlit("E"); reveal_strlit("F");
    }
    if d == 0 { "0" } else if d == 1 { "1" } else if d == 2 { "2" } else if d == 3 { "3" }
    else if d == 4 { "4" } else if d == 5 { "5" } else if d == 6 { "6" } else if d == 7 { "7" }
    else if d == 8 { "8" } else if d == 9 { "9" } else if d == 10 { "A" } else if d == 11 { "B" }
    else if d == 12 { "C" } else if d == 13 { "D" } else if d == 14 { "E" } else { "F" }
}

/// Writes `n` in decimal.
pub fn decimal_text(n: u64) -> (text: String)
    ensures
        text@ == decimal(n as nat),
    decreases n,
{
    if n < 10 {
        digit_text(n).to_owned()
    } else {
        let mut text = decimal_text(n / 10);
        text.append(digit_text(n % 10));
        proof {
            assert(text@ =~= decimal(n as nat));
        }
        text
    }
}

/// Writes the last `width` hexadecimal digits of `n`, upper case, with leading zeros.
pub fn hex_text(n: u64, width: usize) -> (text: String)
    ensures
        text@ == hex(n as nat, width as nat),
    decreases width,
{
    if width == 0 {
        String::new()
    } else {
        let mut text = hex_text(n / 16, width - 1);
        text.append(digit_text(n % 16));
        proof {
            assert(text@ =~= hex(n as nat, width as nat));
        }
        text
    }
}

/// Two texts, one after the other.
pub fn joined(before: &str, after: &str) -> (text: String)
    ensures
        text@ == before@ + after@,
{
    let mut text = before.to_owned();
    text.append(after);
    text
}

/// A text between two others.
pub fn around(before: &str, middle: String, after: &str) -> (text: String)
    ensures
        text@ == before@ + middle@ + after@,
{
    let mut text = before.to_owned();
    text.append(middle.as_str());
    text.append(after);
    text
}

/// Whether two strings hold the same characters.
pub fn same_text(a: &str, b: &str) -> (same: bool)
    ensures
        same == (a@ == b@),
{
    a.to_owned() == b.to_owned()
}

/// The characters of `text`.
pub fn characters(text: &str) -> (chars: Vec<char>)
    ensures
        chars@ == text@,
{
    let mut chars: Vec<char> = Vec::new();
    let length = text.unicode_len();
    let mut i: usize = 0;
    while i < length
        invariant
            i <= length,
            length == text@.len(),
            chars@ == text@.take(i as int),
        decreases length - i,
    {
        chars.push(text.get_char(i));
        i = i + 1;
        proof {
            assert(chars@ =~= text@.take(i as int));
        }
    }
    proof {
        assert(text@.take(length as int) =~= text@);
    }
    chars
}

/// White space in the sense of the Unicode `White_Space` property.
pub open spec fn is_space(c: char) -> bool {
    let n = c as int;
    ||| 0x09 <= n <= 0x0D
    ||| n == 0x20
    ||| n == 0x85
    ||| n == 0xA0
    ||| n == 0x1680
    ||| 0x2000 <= n <= 0x200A
    ||| n == 0x2028
    ||| n == 0x2029
    ||| n == 0x202F
    ||| n == 0x205F
    ||| n == 0x3000
}

/// Tells white space from other characters.
pub fn space(c: char) -> (yes: bool)
    ensures
        yes == is_space(c),
{
    let n: u32 = c as u32;
    (0x09 <= n && n <= 0x0D) || n == 0x20 || n == 0x85 || n == 0xA0 || n == 0x1680
        || (0x2000 <= n && n <= 0x200A) || n == 0x2028 || n == 0x2029 || n == 0x202F
        || n == 0x205F || n == 0x3000
}

/// Text that shows nothing: white space only.
pub open spec fn is_blank(text: Seq<char>) -> bool {
    forall|i: int| 0 <= i < text.len() ==> is_space(#[trigger] text[i])
}

/// Whether nothing is left of `text` when the white space around it is taken off.
pub fn blank(text: &str) -> (yes: bool)
    ensures
        yes == is_blank(text@),
{
    let chars = characters(text);
    let mut i: usize = 0;
    while i < chars.len()
        invariant
            i <= chars.len(),
            chars@ == text@,
            forall|j: int| 0 <= j < i ==> is_space(#[trigger] text@[j]),
        decreases chars.len() - i,
    {
        if !space(chars[i]) {
            proof {
                assert(!is_space(text@[i as int]));
            }
            return false;
        }
        i = i + 1;
    }
    true
}

/// `text` without its leading white space.
pub open spec fn trim_start(text: Seq<char>) -> Seq<char>
    decreases text.len(),
{
    if text.len() > 0 && is_space(text[0]) {
        trim_start(text.skip(1))
    } else {
        text
    }
}

/// `text` without its trailing white space.
pub open spec fn trim_end(text: Seq<char>) -> Seq<char>
    decreases text.len(),
{
    if text.len() > 0 && is_space(text.last()) {
        trim_end(text.drop_last())
    } else {
        text
    }
}

/// `text` without the white space around it.
pub open spec fn trim(text: Seq<char>) -> Seq<char> {
    trim_end(trim_start(text))
}

/// The characters from `from` up to `to`.
fn part(chars: &Vec<char>, from: usize, to: usize) -> (piece: Vec<char>)
    requires
        from <= to <= chars@.len(),
    ensures
        piece@ == chars@.subrange(from as int, to as int),
{
    let mut piece: Vec<char> = Vec::new();
    let mut i: usize = from;
    while i < to
        invariant
            from <= i <= to <= chars@.len(),
            piece@ == chars@.subrange(from as int, i as int),
        decreases to - i,
    {
        piece.push(chars[i]);
        i = i + 1;
        proof {
            assert(piece@ =~= chars@.subrange(from as int, i as int));
        }
    }
    piece
}

/// Takes off the white space around a text.
pub fn trimmed(chars: &Vec<char>) -> (inner: Vec<char>)
    ensures
        inner@ == trim(chars@),
{
    let mut from: usize = 0;
    let mut to: usize = chars.len();
    proof {
        assert(chars@.subrange(0, to as int) =~= chars@);
    }
    while from < to && space(chars[from])
        invariant
            from <= to == chars@.len(),
            trim_start(chars@) == trim_start(chars@.subrange(from as int, to as int)),
        decreases to - from,
    {
        proof {
            assert(chars@.subrange(from as int, to as int).skip(1) =~= chars@.subrange(
                from + 1,
                to as int,
            ));
        }
        from = from + 1;
    }
    proof {
        assert(trim_start(chars@) == chars@.subrange(from as int, to as int));
    }
    while from < to && space(chars[to - 1])
        invariant
            from <= to <= chars@.len(),
            trim(chars@) == trim_end(chars@.subrange(from as int, to as int)),
        decreases to - from,
    {
        proof {
            assert(chars@.subrange(from as int, to as int).drop_last() =~= chars@.subrange(
                from as int,
                to - 1,
            ));
        }
        to = to - 1;
    }
    part(chars, from, to)
}

/// The value of a hexadecimal digit of either case.
pub open spec fn hex_value(c: char) -> Option<nat> {
    let n = c as int;
    if 0x30 <= n <= 0x39 {
        Some((n - 0x30) as nat)
    } else if 0x41 <= n <= 0x46 {
        Some((n - 0x41 + 10) as nat)
    } else if 0x61 <= n <= 0x66 {
        Some((n - 0x61 + 10) as nat)
    } else {
        None
    }
}

/// The number that a string of hexadecimal digits writes; `None` where another character occurs.
pub open spec fn hex_number(digits: Seq<char>) -> Option<nat>
    decreases digits.len(),
{
    if digits.len() == 0 {
        Some(0)
    } else {
        match (hex_number(digits.drop_last()), hex_value(digits.last())) {
            (Some(high), Some(low)) => Some(16 * high + low),
            _ => None,
        }
    }
}

/// The byte that a text writes in base sixteen: an optional plus sign, then one digit or more,
/// with a value of at most 255.
pub open spec fn hex_byte(text: Seq<char>) -> Option<u8> {
    let digits = if text.len() > 0 && text[0] == '+' { text.skip(1) } else { text };
    match hex_number(digits) {
        Some(n) => if digits.len() > 0 && n <= 255 { Some(n as u8) } else { None },
        None => None,
    }
}

fn digit_value(c: char) -> (value: Option<u32>)
    ensures
        match value {
            Some(v) => hex_value(c) == Some(v as nat) && v < 16,
            None => hex_value(c) is None,
        },
{
    let n: u32 = c as u32;
    if 0x30 <= n && n <= 0x39 {
        Some(n - 0x30)
    } else if 0x41 <= n && n <= 0x46 {
        Some(n - 0x41 + 10)
    } else if 0x61 <= n && n <= 0x66 {
        Some(n - 0x61 + 10)
    } else {
        None
    }
}

/// A character that is no digit spoils every number that it stands in.
pub proof fn lemma_prefix_of_number(digits: Seq<char>, k: int)
    requires
        0 <= k <= digits.len(),
        hex_number(digits.take(k)) is None,
    ensures
        hex_number(digits) is None,
    decreases digits.len() - k,
{
    if k < digits.len() {
        assert(digits.take(k + 1).drop_last() =~= digits.take(k));
        lemma_prefix_of_number(digits, k + 1);
    } else {
        assert(digits.take(k) =~= digits);
    }
}

proof fn lemma_number_grows(digits: Seq<char>, k: int)
    requires
        0 <= k <= digits.len(),
        hex_number(digits) is Some,
    ensures
        hex_number(digits.take(k)) is Some,
        hex_number(digits.take(k))->0 <= hex_number(digits)->0,
    decreases digits.len() - k,
{
    if k < digits.len() {
        lemma_number_grows(digits, k + 1);
        assert(digits.take(k + 1).drop_last() =~= digits.take(k));
    } else {
        assert(digits.take(k) =~= digits);
    }
}

/// Reads a byte written in base sixteen.
pub fn parse_hex_byte(text: &Vec<char>) -> (byte: Option<u8>)
    ensures
        byte == hex_byte(text@),
{
    let start: usize = if text.len() > 0 && text[0] == '+' { 1 } else { 0 };
    let ghost digits = text@.skip(start as int);
    proof {
        assert(text@.skip(0) =~= text@);
        assert(digits.take(0) =~= Seq::empty());
    }
    let mut value: u32 = 0;
    let mut i: usize = start;
    while i < text.len()
        invariant
            start <= i <= text@.len(),
            digits == text@.skip(start as int),
            digits == (if text@.len() > 0 && text@[0] == '+' { text@.skip(1) } else { text@ }),
            hex_number(digits.take(i - start)) == Some(value as nat),
            value <= 255,
        decreases text.len() - i,
    {
        proof {
            assert(digits.take(i - start + 1).drop_last() =~= digits.take(i - start));
            assert(digits.take(i - start + 1).last() == text@[i as int]);
        }
        match digit_value(text[i]) {
            Some(d) => {
                value = value * 16 + d;
            },
            None => {
                proof {
                    lemma_prefix_of_number(digits, i - start + 1);
                }
                return None;
            },
        }
        if value > 255 {
            proof {
                if hex_number(digits) is Some {
                    lemma_number_grows(digits, i - start + 1);
                }
            }
            return None;
        }
        i = i + 1;
    }
    proof {
        assert(digits.take(text@.len() - start) =~= digits);
    }
    if i == start {
        None
    } else {
        Some(value as u8)
    }
}

/// A line without the carriage return that ends it.
pub open spec fn chomp(line: Seq<char>) -> Seq<char> {
    if line.len() > 0 && line.last() == '\r' {
        line.drop_last()
    } else {
        line
    }
}

/// The lines of a text. A line ends at a line feed, with or without a carriage return before it;
/// the last line may end with the text.
pub open spec fn lines(text: Seq<char>) -> Seq<Seq<char>>
    decreases text.len(),
{
    if text.len() == 0 {
        Seq::empty()
    } else {
        match text.index_of_first('\n') {
            None => seq![text],
            Some(end) => {
                proof {
                    text.index_of_first_ensures('\n');
                }
                seq![chomp(text.take(end))] + lines(text.skip(end + 1))
            },
        }
    }
}

/// The first line of a text ends at its first line feed.
pub proof fn lemma_first_line(line: Seq<char>, rest: Seq<char>)
    requires
        !line.contains('\n'),
    ensures
        lines(line + seq!['\n'] + rest) == seq![chomp(line)] + lines(rest),
{
    let text = line + seq!['\n'] + rest;
    let end = line.len() as int;
    text.index_of_first_ensures('\n');
    assert(text[end] == '\n');
    assert(text.contains('\n'));
    assert forall|j: int| 0 <= j < end implies text[j] != '\n' by {
        assert(text[j] == line[j]);
        assert(line.contains(line[j]));
    }
    assert(text.index_of_first('\n') == Some(end));
    assert(text.take(end) =~= line);
    assert(text.skip(end + 1) =~= rest);
}

/// A text without line feeds is one line.
pub proof fn lemma_only_line(line: Seq<char>)
    requires
        !line.contains('\n'),
        line.len() > 0,
    ensures
        lines(line) == seq![line],
{
    line.index_of_first_ensures('\n');
}

/// A byte written with two hexadecimal digits is read back.
pub proof fn lemma_hex_byte_round_trip(byte: u8)
    ensures
        hex_byte(hex(byte as nat, 2)) == Some(byte),
{
    let high = digit_char((byte / 16) as int);
    let low = digit_char((byte % 16) as int);
    reveal_with_fuel(hex, 3);
    let text = hex(byte as nat, 2);
    assert(text =~= seq![high, low]);
    reveal_with_fuel(hex_number, 3);
    assert(text.drop_last() =~= seq![high]);
    assert(text.drop_last().drop_last() =~= Seq::empty());
    assert(hex_value(high) == Some((byte / 16) as nat));
    assert(hex_value(low) == Some((byte % 16) as nat));
}

/// A list of texts, each as its characters.
pub open spec fn texts(list: Seq<Vec<char>>) -> Seq<Seq<char>> {
    list.map_values(|text: Vec<char>| text@)
}

/// Splits a text into its lines.
pub fn split_lines(text: &Vec<char>) -> (list: Vec<Vec<char>>)
    ensures
        texts(list@) == lines(text@),
{
    let mut list: Vec<Vec<char>> = Vec::new();
    let mut from: usize = 0;
    proof {
        assert(text@.skip(0) =~= text@);
        assert(texts(list@) + lines(text@) =~= lines(text@));
    }
    while from < text.len()
        invariant
            from <= text@.len(),
            texts(list@) + lines(text@.skip(from as int)) == lines(text@),
        decreases text.len() - from,
    {
        let ghost rest = text@.skip(from as int);
        let ghost before = list@;
        let mut end: usize = from;
        while end < text.len() && text[end] != '\n'
            invariant
                from <= end <= text@.len(),
                forall|j: int| from <= j < end ==> text@[j] != '\n',
            decreases text.len() - end,
        {
            end = end + 1;
        }
        proof {
            rest.index_of_first_ensures('\n');
            if end < text@.len() {
                assert(rest[end - from] == '\n');
                assert(rest.contains('\n'));
                assert(rest.index_of_first('\n') == Some(end - from));
            } else {
                if rest.contains('\n') {
                    let k = rest.index_of('\n');
                    assert(rest[k] == text@[from + k]);
                }
                assert(rest.index_of_first('\n') is None);
            }
        }
        if end == text.len() {
            list.push(part(text, from, end));
            proof {
                assert(list@.last()@ =~= rest);
                assert(texts(list@) =~= texts(before).push(rest));
                assert(texts(before) + seq![rest] =~= texts(list@));
                assert(text@.skip(end as int) =~= Seq::<char>::empty());
                assert(texts(list@) + Seq::<Seq<char>>::empty() =~= texts(list@));
            }
            from = end;
        } else {
            let stop: usize = if end > from && text[end - 1] == '\r' { end - 1 } else { end };
            list.push(part(text, from, stop));
            proof {
                let line = rest.take(end - from);
                assert(list@.last()@ =~= chomp(line));
                assert(rest.skip(end - from + 1) =~= text@.skip(end + 1));
                let tail = lines(text@.skip(end + 1));
                assert(lines(rest) == seq![chomp(line)] + tail);
                assert(texts(list@) =~= texts(before).push(chomp(line)));
                assert(texts(list@) + tail =~= texts(before) + (seq![chomp(line)] + tail));
            }
            from = end + 1;
        }
    }
    proof {
        assert(text@.skip(from as int) =~= Seq::<char>::empty());
        assert(texts(list@) + Seq::<Seq<char>>::empty() =~= texts(list@));
    }
    list
}

/// What follows `prefix` in `text`, where `text` begins with it.
pub open spec fn after(text: Seq<char>, prefix: Seq<char>) -> Option<Seq<char>> {
    if prefix.is_prefix_of(text) {
        Some(text.skip(prefix.len() as int))
    } else {
        None
    }
}

/// Takes `prefix` off the front of `text`.
pub fn strip(text: &Vec<char>, prefix: &str) -> (rest: Option<Vec<char>>)
    ensures
        match rest {
            Some(chars) => after(text@, prefix@) == Some(chars@),
            None => after(text@, prefix@) is None,
        },
{
    let wanted = characters(prefix);
    if text.len() < wanted.len() {
        return None;
    }
    let mut i: usize = 0;
    while i < wanted.len()
        invariant
            i <= wanted@.len() <= text@.len(),
            wanted@ == prefix@,
            wanted@.take(i as int) == text@.take(i as int),
        decreases wanted.len() - i,
    {
        if wanted[i] != text[i] {
            proof {
                assert(prefix@[i as int] != text@.subrange(0, prefix@.len() as int)[i as int]);
            }
            return None;
        }
        i = i + 1;
        proof {
            assert(wanted@.take(i as int) =~= text@.take(i as int));
        }
    }
    proof {
        assert(wanted@.take(i as int) =~= prefix@);
        assert(text@.take(i as int) =~= text@.subrange(0, prefix@.len() as int));
    }
    let rest = part(text, wanted.len(), text.len());
    proof {
        assert(rest@ =~= text@.skip(prefix@.len() as int));
    }
    Some(rest)
}

/// Whether `chars` spells `word`.
pub fn spells(chars: &Vec<char>, word: &str) -> (yes: bool)
    ensures
        yes == (chars@ == word@),
{
    match strip(chars, word) {
        Some(rest) => {
            proof {
                if rest@.len() == 0 {
                    assert(chars@ =~= word@);
                }
            }
            rest.len() == 0
        },
        None => {
            proof {
                if chars@ == word@ {
                    assert(word@.is_prefix_of(chars@));
                }
            }
            false
        },
    }
}

// ---- What holds of texts ----

/// The number that a string of decimal digits writes.
pub open spec fn decimal_value(digits: Seq<char>) -> nat
    decreases digits.len(),
{
    if digits.len() == 0 {
        0
    } else {
        10 * decimal_value(digits.drop_last()) + (digits.last() as int - 0x30) as nat
    }
}

/// A number in decimal is written with the ten digits, without a leading zero, and has its value.
pub proof fn law_decimal_has_the_value(n: nat)
    ensures
        decimal_value(decimal(n)) == n,
        decimal(n).len() > 0,
        decimal(n)[0] == '0' ==> n == 0 && decimal(n).len() == 1,
        forall|i: int|
            0 <= i < decimal(n).len() ==> 0x30 <= (#[trigger] decimal(n)[i]) as int && decimal(
                n,
            )[i] as int <= 0x39,
    decreases n,
{
    reveal_with_fuel(decimal_value, 2);
    if n < 10 {
        assert(decimal(n).drop_last() =~= Seq::empty());
    } else {
        law_decimal_has_the_value(n / 10);
        let digit = digit_char((n % 10) as int);
        assert(decimal(n).drop_last() =~= decimal(n / 10));
        assert(decimal(n).last() == digit);
        assert(decimal(n)[0] == decimal(n / 10)[0]);
    }
}

/// The largest number of `width` digits in base sixteen, plus one.
pub open spec fn sixteens(width: nat) -> nat
    decreases width,
{
    if width == 0 {
        1
    } else {
        16 * sixteens((width - 1) as nat)
    }
}

/// A number that has room in `width` hexadecimal digits is read back from them; there are just
/// `width`, and the letters among them are capitals.
pub proof fn law_hex_is_read_back(n: nat, width: nat)
    requires
        n < sixteens(width),
    ensures
        hex(n, width).len() == width,
        hex_number(hex(n, width)) == Some(n),
        forall|i: int|
            0 <= i < width ==> {
                let c = (#[trigger] hex(n, width)[i]) as int;
                0x30 <= c <= 0x39 || 0x41 <= c <= 0x46
            },
    decreases width,
{
    if width > 0 {
        law_hex_is_read_back(n / 16, (width - 1) as nat);
        let digit = digit_char((n % 16) as int);
        assert(hex(n, width).drop_last() =~= hex(n / 16, (width - 1) as nat));
        assert(hex(n, width).last() == digit);
        assert(hex_value(digit) == Some(n % 16));
    } else {
        assert(hex(n, width) =~= Seq::empty());
    }
}

/// Capital and small digits have the same value, and nothing but the sixteen digits has one.
pub proof fn law_digits_of_either_case(c: char)
    ensures
        hex_value(c) matches Some(value) ==> value < 16 && (c == digit_char(value as int) || 0x61
            <= c as int && c as int == digit_char(value as int) as int + 0x20),
        '0' <= c && c <= '9' || 'A' <= c && c <= 'F' || 'a' <= c && c <= 'f' <==> hex_value(
            c,
        ) is Some,
{
}

/// A text is its trimmed form between blanks, and the trimmed form neither begins nor ends with one.
pub proof fn law_trimming_takes_off_blanks(text: Seq<char>)
    ensures
        exists|from: int, to: int|
            0 <= from <= to <= text.len() && trim(text) == #[trigger] text.subrange(from, to)
                && is_blank(text.take(from)) && is_blank(text.skip(to)),
        trim(text).len() > 0 ==> !is_space(trim(text)[0]) && !is_space(trim(text).last()),
{
    lemma_trimmed_start(text);
    let from = choose|from: int|
        0 <= from <= text.len() && trim_start(text) == text.skip(from) && is_blank(
            #[trigger] text.take(from),
        );
    let rest = trim_start(text);
    lemma_trimmed_end(rest);
    let kept = choose|kept: int|
        0 <= kept <= rest.len() && trim_end(rest) == rest.take(kept) && is_blank(
            #[trigger] rest.skip(kept),
        );
    let to = from + kept;
    assert(trim(text) =~= text.subrange(from, to));
    assert(text.skip(to) =~= rest.skip(kept));
    if trim(text).len() > 0 {
        assert(trim(text)[0] == rest[0]);
    }
}

proof fn lemma_trimmed_start(text: Seq<char>)
    ensures
        exists|from: int|
            0 <= from <= text.len() && trim_start(text) == text.skip(from) && is_blank(
                #[trigger] text.take(from),
            ),
        trim_start(text).len() > 0 ==> !is_space(trim_start(text)[0]),
    decreases text.len(),
{
    if text.len() > 0 && is_space(text[0]) {
        let rest = text.skip(1);
        lemma_trimmed_start(rest);
        let from = choose|from: int|
            0 <= from <= rest.len() && trim_start(rest) == rest.skip(from) && is_blank(
                #[trigger] rest.take(from),
            );
        assert(rest.skip(from) =~= text.skip(from + 1));
        assert forall|i: int| 0 <= i < from + 1 implies is_space(
            #[trigger] text.take(from + 1)[i],
        ) by {
            if i > 0 {
                assert(text.take(from + 1)[i] == rest.take(from)[i - 1]);
            }
        }
        assert(is_blank(text.take(from + 1)));
    } else {
        assert(text.skip(0) =~= text);
        assert(is_blank(text.take(0)));
    }
}

proof fn lemma_trimmed_end(text: Seq<char>)
    ensures
        exists|to: int|
            0 <= to <= text.len() && trim_end(text) == text.take(to) && is_blank(
                #[trigger] text.skip(to),
            ),
        trim_end(text).len() > 0 ==> !is_space(trim_end(text).last()),
    decreases text.len(),
{
    if text.len() > 0 && is_space(text.last()) {
        let rest = text.drop_last();
        lemma_trimmed_end(rest);
        let to = choose|to: int|
            0 <= to <= rest.len() && trim_end(rest) == rest.take(to) && is_blank(
                #[trigger] rest.skip(to),
            );
        assert(rest.take(to) =~= text.take(to));
        assert forall|i: int| 0 <= i < text.len() - to implies is_space(
            #[trigger] text.skip(to)[i],
        ) by {
            if i < rest.len() - to {
                assert(text.skip(to)[i] == rest.skip(to)[i]);
            }
        }
        assert(is_blank(text.skip(to)));
    } else {
        assert(text.take(text.len() as int) =~= text);
        assert(is_blank(text.skip(text.len() as int)));
    }
}

/// Printable characters of the basic alphabet are no white space; blank, tabulator, line feed and
/// carriage return are, and so is the wide blank of Chinese text.
pub proof fn law_printable_characters_are_no_space(c: char)
    ensures
        '!' <= c && c <= '~' ==> !is_space(c),
        c == ' ' || c == '\t' || c == '\n' || c == '\r' || c as int == 0x3000 ==> is_space(c),
{
}

/// What follows a prefix gives the text back when the prefix is put before it, and every text that
/// begins with the prefix has such a rest.
pub proof fn law_prefix_and_rest(text: Seq<char>, prefix: Seq<char>, rest: Seq<char>)
    ensures
        after(prefix + rest, prefix) == Some(rest),
        after(text, prefix) matches Some(left) ==> prefix + left == text,
{
    let whole = prefix + rest;
    assert(whole.subrange(0, prefix.len() as int) =~= prefix);
    assert(whole.skip(prefix.len() as int) =~= rest);
    if after(text, prefix) is Some {
        let left = text.skip(prefix.len() as int);
        assert(text.subrange(0, prefix.len() as int) == prefix);
        assert(text =~= text.subrange(0, prefix.len() as int) + left);
    }
}

/// A line ends at a line feed, and a carriage return right before it belongs to the end, not to the
/// line. What comes last without a line feed is a line as it stands.
pub proof fn law_lines_end_at_line_feeds(line: Seq<char>, rest: Seq<char>)
    requires
        !line.contains('\n'),
    ensures
        line.len() == 0 || line.last() != '\r' ==> lines(line + seq!['\n'] + rest) == seq![line]
            + lines(rest),
        lines(line.push('\r') + seq!['\n'] + rest) == seq![line] + lines(rest),
        line.len() > 0 ==> lines(line) == seq![line],
        lines(Seq::<char>::empty()) == Seq::<Seq<char>>::empty(),
{
    lemma_first_line(line, rest);
    let ended = line.push('\r');
    assert(!ended.contains('\n')) by {
        if ended.contains('\n') {
            let i = choose|i: int| 0 <= i < ended.len() && ended[i] == '\n';
            assert(line[i] == '\n');
        }
    }
    lemma_first_line(ended, rest);
    assert(ended.drop_last() =~= line);
    if line.len() > 0 {
        lemma_only_line(line);
    }
}

/// What is read as a byte: the digits of a number up to 255, with or without a plus sign.
pub proof fn law_what_is_read_as_a_byte(n: nat, width: nat)
    requires
        width > 0,
        n < sixteens(width),
    ensures
        n <= 255 ==> hex_byte(hex(n, width)) == Some(n as u8) && hex_byte(
            seq!['+'] + hex(n, width),
        ) == Some(n as u8),
        n > 255 ==> hex_byte(hex(n, width)) is None && hex_byte(seq!['+'] + hex(n, width)) is None,
        hex_byte(Seq::<char>::empty()) is None,
        hex_byte(seq!['+']) is None,
{
    law_hex_is_read_back(n, width);
    let digits = hex(n, width);
    assert(digits[0] != '+');
    assert((seq!['+'] + digits).skip(1) =~= digits);
    assert(seq!['+'].skip(1) =~= Seq::<char>::empty());
}

/// A text with anything but digits behind its first character is not read as a byte.
pub proof fn law_nothing_but_digits_is_read(text: Seq<char>, at: int)
    requires
        0 <= at < text.len(),
        at > 0 || text[0] != '+',
        hex_value(text[at]) is None,
    ensures
        hex_byte(text) is None,
{
    let digits = if text[0] == '+' {
        text.skip(1)
    } else {
        text
    };
    let k = if text[0] == '+' {
        at - 1
    } else {
        at
    };
    assert(digits.take(k + 1).last() == text[at]);
    lemma_prefix_of_number(digits, k + 1);
}

/// The blank characters, by their numbers.
pub proof fn law_the_blank_characters(c: char)
    ensures
        is_space(c) <==> 9 <= c as int <= 13 || 0x2000 <= c as int <= 0x200A || set![
            32int,
            133int,
            160int,
            5760int,
            8232int,
            8233int,
            8239int,
            8287int,
            12288int,
        ].contains(c as int),
{
}

/// A text is blank exactly if nothing of it is left when it is trimmed.
pub proof fn law_a_blank_text_has_nothing_to_keep(text: Seq<char>)
    ensures
        is_blank(text) <==> trim(text).len() == 0,
{
    law_trimming_takes_off_blanks(text);
    let (from, to) = choose|from: int, to: int|
        0 <= from <= to <= text.len() && trim(text) == #[trigger] text.subrange(from, to)
            && is_blank(text.take(from)) && is_blank(text.skip(to));
    if trim(text).len() > 0 {
        assert(trim(text)[0] == text[from]);
    } else {
        assert forall|i: int| 0 <= i < text.len() implies is_space(#[trigger] text[i]) by {
            if i < from {
                assert(text.take(from)[i] == text[i]);
            } else {
                assert(text.skip(to)[i - to] == text[i]);
            }
        }
    }
}

} // verus!
