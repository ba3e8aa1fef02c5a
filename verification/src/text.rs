//! Text as sequences of characters: splitting and joining, endings,
//! unsigned numbers in a radix of at most ten, dictionary order, and lists
//! kept in that order without repeats.
use vstd::prelude::*;
use vstd::string::StringExecFns;

verus! {

/// `String::push` appends one character.
pub assume_specification[ String::push ](s: &mut String, c: char)
    ensures
        final(s)@ == old(s)@.push(c),
;

/// What `str::to_lowercase` makes of a text.
pub uninterp spec fn lowercase_of(text: Seq<char>) -> Seq<char>;

/// `str::to_lowercase` gives the lowercase equivalent of the text, which depends on the text alone.
pub assume_specification[ str::to_lowercase ](text: &str) -> (lower: String)
    ensures
        lower@ == lowercase_of(text@),
;

/// The characters of a string slice, in order.
pub fn chars_of(s: &str) -> (out: Vec<char>)
    ensures
        out@ == s@,
{
    let mut out: Vec<char> = Vec::new();
    for c in iter: s.chars()
        invariant
            iter.seq() == s@,
            out@ == s@.subrange(0, iter.index() as int),
    {
        out.push(c);
        assert(out@ == s@.subrange(0, iter.index() + 1));
    }
    assert(s@.subrange(0, s@.len() as int) == s@);
    out
}

/// The string made of the given characters, in order.
pub fn string_of(v: &Vec<char>) -> (out: String)
    ensures
        out@ == v@,
{
    let mut out = String::new();
    let mut i: usize = 0;
    while i < v.len()
        invariant
            i <= v.len(),
            out@ == v@.subrange(0, i as int),
        decreases v.len() - i,
    {
        out.push(v[i]);
        i = i + 1;
        assert(out@ == v@.subrange(0, i as int));
    }
    assert(v@.subrange(0, v.len() as int) == v@);
    out
}

/// Two texts, one after the other.
pub fn joined(first: &str, second: &str) -> (out: String)
    ensures
        out@ == first@ + second@,
{
    let mut out = first.to_owned();
    out.append(second);
    out
}

/// Appends the characters of `more` to `out`.
pub fn append_chars(out: &mut Vec<char>, more: &Vec<char>)
    ensures
        final(out)@ == old(out)@ + more@,
{
    let ghost before = out@;
    let mut i: usize = 0;
    while i < more.len()
        invariant
            i <= more.len(),
            out@ == before + more@.subrange(0, i as int),
        decreases more.len() - i,
    {
        out.push(more[i]);
        i = i + 1;
        assert(out@ == before + more@.subrange(0, i as int));
    }
    assert(more@.subrange(0, more.len() as int) == more@);
}

/// The texts of a vector of strings.
pub open spec fn texts(strings: Seq<String>) -> Seq<Seq<char>> {
    strings.map_values(|s: String| s@)
}

/// The texts that a vector of character vectors holds.
pub open spec fn views(parts: Seq<Vec<char>>) -> Seq<Seq<char>> {
    parts.map_values(|part: Vec<char>| part@)
}

/// Whether two character vectors hold the same text.
pub fn same_chars(a: &Vec<char>, b: &Vec<char>) -> (same: bool)
    ensures
        same == (a@ == b@),
{
    if a.len() != b.len() {
        return false;
    }
    let mut i: usize = 0;
    while i < a.len()
        invariant
            a.len() == b.len(),
            i <= a.len(),
            a@.subrange(0, i as int) == b@.subrange(0, i as int),
        decreases a.len() - i,
    {
        if a[i] != b[i] {
            return false;
        }
        i = i + 1;
        assert(a@.subrange(0, i as int) == a@.subrange(0, i - 1).push(a@[i - 1]));
        assert(b@.subrange(0, i as int) == b@.subrange(0, i - 1).push(b@[i - 1]));
    }
    assert(a@.subrange(0, a.len() as int) == a@);
    assert(b@.subrange(0, b.len() as int) == b@);
    true
}

/// Whether two string slices hold the same text.
pub fn same_text(a: &str, b: &str) -> (same: bool)
    ensures
        same == (a@ == b@),
{
    let left = chars_of(a);
    let right = chars_of(b);
    same_chars(&left, &right)
}

/// Whether a character vector spells the given string slice.
pub fn spells(token: &Vec<char>, word: &str) -> (same: bool)
    ensures
        same == (token@ == word@),
{
    let right = chars_of(word);
    same_chars(token, &right)
}

/// `suffix` is the end of `text`.
pub open spec fn ends_with(text: Seq<char>, suffix: Seq<char>) -> bool {
    suffix.len() <= text.len() && text.subrange(text.len() - suffix.len(), text.len() as int)
        == suffix
}

/// Whether `text` ends with `suffix`; every text ends with the empty one.
pub fn text_ends_with(text: &str, suffix: &str) -> (found: bool)
    ensures
        found == ends_with(text@, suffix@),
{
    let whole = chars_of(text);
    let tail = chars_of(suffix);
    if tail.len() > whole.len() {
        return false;
    }
    let start: usize = whole.len() - tail.len();
    let mut i: usize = 0;
    while i < tail.len()
        invariant
            whole@ == text@,
            tail@ == suffix@,
            start + tail.len() == whole.len(),
            i <= tail.len(),
            whole@.subrange(start as int, start + i) == tail@.subrange(0, i as int),
        decreases tail.len() - i,
    {
        if whole[start + i] != tail[i] {
            proof {
                let cut = text@.subrange(text@.len() - suffix@.len(), text@.len() as int);
                assert(cut[i as int] == whole@[start + i]);
            }
            return false;
        }
        i = i + 1;
        assert(whole@.subrange(start as int, start + i) == whole@.subrange(
            start as int,
            start + i - 1,
        ).push(whole@[start + i - 1]));
        assert(tail@.subrange(0, i as int) == tail@.subrange(0, i - 1).push(tail@[i - 1]));
    }
    assert(tail@.subrange(0, tail.len() as int) == tail@);
    true
}

/// Index of the first `sep` in `text`, or the length of `text` if it holds none.
pub open spec fn first_index(text: Seq<char>, sep: char) -> int
    decreases text.len(),
{
    if text.len() == 0 {
        0
    } else if text[0] == sep {
        0
    } else {
        1 + first_index(text.drop_first(), sep)
    }
}

/// The pieces of `text` between occurrences of `sep`. A text without `sep`
/// is one piece; `n` separators always give `n + 1` pieces, empty ones included.
pub open spec fn split_on(text: Seq<char>, sep: char) -> Seq<Seq<char>>
    decreases text.len(),
{
    let cut = first_index(text, sep);
    if cut < 0 || cut >= text.len() {
        seq![text]
    } else {
        seq![text.take(cut)] + split_on(text.skip(cut + 1), sep)
    }
}

/// The pieces joined again, with one `sep` between neighbours.
pub open spec fn join_with(parts: Seq<Seq<char>>, sep: char) -> Seq<char>
    decreases parts.len(),
{
    if parts.len() == 0 {
        Seq::empty()
    } else if parts.len() == 1 {
        parts[0]
    } else {
        join_with(parts.drop_last(), sep).push(sep) + parts.last()
    }
}

/// Where the first `sep` stands, once the characters before it are known to differ from it.
pub proof fn lemma_first_index(text: Seq<char>, sep: char, at: int)
    requires
        0 <= at <= text.len(),
        forall|k: int| 0 <= k < at ==> text[k] != sep,
        at == text.len() || text[at] == sep,
    ensures
        first_index(text, sep) == at,
    decreases at,
{
    if at > 0 {
        let rest = text.drop_first();
        assert forall|k: int| 0 <= k < at - 1 implies rest[k] != sep by {
            assert(rest[k] == text[k + 1]);
        }
        lemma_first_index(rest, sep, at - 1);
    }
}

/// Where the first `sep` is said to stand, it stands, if the text holds one.
pub proof fn lemma_first_index_is_sep(text: Seq<char>, sep: char)
    ensures
        0 <= first_index(text, sep) <= text.len(),
        first_index(text, sep) < text.len() ==> text[first_index(text, sep)] == sep,
    decreases text.len(),
{
    if text.len() > 0 && text[0] != sep {
        lemma_first_index_is_sep(text.drop_first(), sep);
    }
}

/// Splits `text` at every `sep`.
pub fn split_chars(text: &Vec<char>, sep: char) -> (parts: Vec<Vec<char>>)
    ensures
        views(parts@) == split_on(text@, sep),
        parts.len() >= 1,
{
    let mut parts: Vec<Vec<char>> = Vec::new();
    let mut current: Vec<char> = Vec::new();
    let ghost mut start: int = 0;
    let mut i: usize = 0;
    proof {
        assert(text@.skip(0) == text@);
        assert(views(parts@) + split_on(text@, sep) == split_on(text@, sep));
    }
    while i < text.len()
        invariant
            0 <= start <= i <= text.len(),
            current@ == text@.subrange(start, i as int),
            forall|k: int| start <= k < i ==> text@[k] != sep,
            split_on(text@, sep) == views(parts@) + split_on(text@.skip(start), sep),
        decreases text.len() - i,
    {
        if text[i] == sep {
            proof {
                let rest = text@.skip(start);
                assert forall|k: int| 0 <= k < i - start implies rest[k] != sep by {
                    assert(rest[k] == text@[start + k]);
                }
                lemma_first_index(rest, sep, i - start);
                assert(rest.take(i - start) == current@);
                assert(rest.skip(i - start + 1) == text@.skip(i + 1));
                assert(views(parts@.push(current)) == views(parts@).push(current@));
                assert(views(parts@) + (seq![current@] + split_on(text@.skip(i + 1), sep))
                    == views(parts@).push(current@) + split_on(text@.skip(i + 1), sep));
            }
            parts.push(current);
            current = Vec::new();
            proof {
                start = i + 1;
            }
        } else {
            current.push(text[i]);
        }
        i = i + 1;
        assert(current@ == text@.subrange(start, i as int));
    }
    proof {
        let rest = text@.skip(start);
        assert forall|k: int| 0 <= k < i - start implies rest[k] != sep by {
            assert(rest[k] == text@[start + k]);
        }
        lemma_first_index(rest, sep, i - start);
        assert(rest == current@);
        assert(views(parts@.push(current)) == views(parts@).push(current@));
        assert(views(parts@) + seq![current@] == views(parts@).push(current@));
    }
    parts.push(current);
    parts
}

/// Joins the pieces from index `from` on with `sep`.
pub fn join_chars(parts: &Vec<Vec<char>>, from: usize, sep: char) -> (out: Vec<char>)
    requires
        from <= parts.len(),
    ensures
        out@ == join_with(views(parts@).skip(from as int), sep),
{
    let mut out: Vec<char> = Vec::new();
    let mut i: usize = from;
    while i < parts.len()
        invariant
            from <= i <= parts.len(),
            out@ == join_with(views(parts@).subrange(from as int, i as int), sep),
        decreases parts.len() - i,
    {
        let ghost head = views(parts@).subrange(from as int, i as int);
        let ghost next = views(parts@).subrange(from as int, i + 1);
        proof {
            assert(next.drop_last() == head);
            assert(next.last() == parts@[i as int]@);
        }
        if i > from {
            out.push(sep);
        }
        append_chars(&mut out, &parts[i]);
        i = i + 1;
        proof {
            if next.len() == 1 {
                assert(head.len() == 0);
                assert(out@ == next[0]);
            }
        }
    }
    assert(views(parts@).subrange(from as int, parts.len() as int) == views(parts@).skip(
        from as int,
    ));
    out
}

/// A text without `sep`, then `sep`, then more: the first piece is that
/// text, and the others are the pieces of what follows.
pub proof fn lemma_split_after_first(first: Seq<char>, rest: Seq<char>, sep: char)
    requires
        forall|i: int| 0 <= i < first.len() ==> first[i] != sep,
    ensures
        split_on(first.push(sep) + rest, sep) == seq![first] + split_on(rest, sep),
{
    let text = first.push(sep) + rest;
    assert forall|k: int| 0 <= k < first.len() implies text[k] != sep by {
        assert(text[k] == first[k]);
    }
    assert(text[first.len() as int] == sep);
    lemma_first_index(text, sep, first.len() as int);
    assert(text.take(first.len() as int) == first);
    assert(text.skip(first.len() as int + 1) == rest);
}

/// Every text has at least one piece.
pub proof fn lemma_split_is_not_empty(text: Seq<char>, sep: char)
    ensures
        split_on(text, sep).len() >= 1,
    decreases text.len(),
{
    let cut = first_index(text, sep);
    if !(cut < 0 || cut >= text.len()) {
        lemma_split_is_not_empty(text.skip(cut + 1), sep);
    }
}

/// Joining with one more piece in front puts that piece and a `sep` in front.
pub proof fn lemma_join_after_first(first: Seq<char>, parts: Seq<Seq<char>>, sep: char)
    requires
        parts.len() >= 1,
    ensures
        join_with(seq![first] + parts, sep) == first.push(sep) + join_with(parts, sep),
    decreases parts.len(),
{
    let all = seq![first] + parts;
    assert(all.drop_last() == seq![first] + parts.drop_last());
    assert(all.last() == parts.last());
    if parts.len() == 1 {
        assert(all.drop_last() == seq![first]);
        assert(join_with(all.drop_last(), sep) == first);
        assert(join_with(parts, sep) == parts[0]);
        assert(first.push(sep) + parts[0] == first.push(sep) + parts.last());
    } else {
        lemma_join_after_first(first, parts.drop_last(), sep);
        assert(join_with(all, sep) == join_with(all.drop_last(), sep).push(sep) + parts.last());
        assert(join_with(parts, sep) == join_with(parts.drop_last(), sep).push(sep)
            + parts.last());
        assert((first.push(sep) + join_with(parts.drop_last(), sep)).push(sep) + parts.last()
            == first.push(sep) + (join_with(parts.drop_last(), sep).push(sep) + parts.last()));
    }
}

/// The pieces of a text, joined again, are the text.
pub proof fn lemma_join_of_split(text: Seq<char>, sep: char)
    ensures
        join_with(split_on(text, sep), sep) == text,
    decreases text.len(),
{
    let cut = first_index(text, sep);
    if cut < 0 || cut >= text.len() {
        assert(split_on(text, sep) == seq![text]);
    } else {
        let rest = text.skip(cut + 1);
        lemma_join_of_split(rest, sep);
        lemma_split_is_not_empty(rest, sep);
        lemma_join_after_first(text.take(cut), split_on(rest, sep), sep);
        lemma_first_index_is_sep(text, sep);
        assert(text.take(cut).push(sep) + rest == text);
    }
}

/// The character that writes the digit `d`.
pub open spec fn digit_char(d: nat) -> char {
    if d == 0 {
        '0'
    } else if d == 1 {
        '1'
    } else if d == 2 {
        '2'
    } else if d == 3 {
        '3'
    } else if d == 4 {
        '4'
    } else if d == 5 {
        '5'
    } else if d == 6 {
        '6'
    } else if d == 7 {
        '7'
    } else if d == 8 {
        '8'
    } else {
        '9'
    }
}

/// The digit that `c` writes, if it is one of `0` to `9`.
pub open spec fn digit_of(c: char) -> Option<nat> {
    if c == '0' {
        Some(0)
    } else if c == '1' {
        Some(1)
    } else if c == '2' {
        Some(2)
    } else if c == '3' {
        Some(3)
    } else if c == '4' {
        Some(4)
    } else if c == '5' {
        Some(5)
    } else if c == '6' {
        Some(6)
    } else if c == '7' {
        Some(7)
    } else if c == '8' {
        Some(8)
    } else if c == '9' {
        Some(9)
    } else {
        None
    }
}

/// `c` is a digit of the given radix.
pub open spec fn is_digit(c: char, radix: nat) -> bool {
    digit_of(c) matches Some(d) && d < radix
}

/// Every character of `text` is a digit of the given radix.
pub open spec fn all_digits(text: Seq<char>, radix: nat) -> bool {
    forall|i: int| 0 <= i < text.len() ==> is_digit(#[trigger] text[i], radix)
}

/// The number that a run of digits writes, most significant digit first.
pub open spec fn digits_value(text: Seq<char>, radix: nat) -> nat
    decreases text.len(),
{
    if text.len() == 0 {
        0
    } else {
        digits_value(text.drop_last(), radix) * radix + match digit_of(text.last()) {
            Some(d) => d,
            None => 0,
        }
    }
}

/// What remains of `text` once one leading `+` is taken off.
pub open spec fn unsigned_body(text: Seq<char>) -> Seq<char> {
    if text.len() > 0 && text[0] == '+' {
        text.skip(1)
    } else {
        text
    }
}

/// The unsigned number that `text` writes: an optional `+`, then at least one
/// digit and nothing but digits, with a value of at most `max`.
pub open spec fn unsigned_of(text: Seq<char>, radix: nat, max: nat) -> Option<nat> {
    let body = unsigned_body(text);
    if body.len() > 0 && all_digits(body, radix) && digits_value(body, radix) <= max {
        Some(digits_value(body, radix))
    } else {
        None
    }
}

/// The digits of `n` in the given radix, without leading zeros; zero is `0`.
pub open spec fn digits_of(n: nat, radix: nat) -> Seq<char>
    decreases n,
    via digits_of_decreases
{
    if radix < 2 || n < radix {
        seq![digit_char(n)]
    } else {
        digits_of(n / radix, radix).push(digit_char(n % radix))
    }
}

#[via_fn]
proof fn digits_of_decreases(n: nat, radix: nat) {
    if !(radix < 2 || n < radix) {
        assert(n / radix < n) by (nonlinear_arith)
            requires
                radix >= 2,
                n >= radix,
        ;
    }
}

/// `text` with zeros in front until it is `width` characters long.
pub open spec fn zero_padded(text: Seq<char>, width: nat) -> Seq<char> {
    if text.len() >= width {
        text
    } else {
        Seq::new((width - text.len()) as nat, |i: int| '0') + text
    }
}

/// The digit that `c` writes in the given radix.
pub fn digit_value(c: char, radix: u64) -> (digit: Option<u64>)
    requires
        2 <= radix <= 10,
    ensures
        match digit {
            Some(d) => is_digit(c, radix as nat) && digit_of(c) == Some(d as nat),
            None => !is_digit(c, radix as nat),
        },
{
    let d: u64 = if c == '0' {
        0
    } else if c == '1' {
        1
    } else if c == '2' {
        2
    } else if c == '3' {
        3
    } else if c == '4' {
        4
    } else if c == '5' {
        5
    } else if c == '6' {
        6
    } else if c == '7' {
        7
    } else if c == '8' {
        8
    } else if c == '9' {
        9
    } else {
        return None;
    };
    if d < radix {
        Some(d)
    } else {
        None
    }
}

/// A run of digits is worth at least as much as any of its beginnings.
pub proof fn lemma_digits_value_grows(text: Seq<char>, radix: nat, cut: int)
    requires
        radix >= 1,
        0 <= cut <= text.len(),
    ensures
        digits_value(text.take(cut), radix) <= digits_value(text, radix),
    decreases text.len() - cut,
{
    if cut == text.len() {
        assert(text.take(cut) == text);
    } else {
        let shorter = text.drop_last();
        lemma_digits_value_grows(shorter, radix, cut);
        assert(shorter.take(cut) == text.take(cut));
        assert(digits_value(shorter, radix) <= digits_value(shorter, radix) * radix)
            by (nonlinear_arith)
            requires
                radix >= 1,
        ;
    }
}

/// Reads an unsigned number in the given radix, with `max` as the largest value accepted.
pub fn parse_unsigned(text: &Vec<char>, radix: u64, max: u64) -> (value: Option<u64>)
    requires
        2 <= radix <= 10,
    ensures
        match value {
            Some(v) => unsigned_of(text@, radix as nat, max as nat) == Some(v as nat),
            None => unsigned_of(text@, radix as nat, max as nat) is None,
        },
{
    let start: usize = if text.len() > 0 && text[0] == '+' {
        1
    } else {
        0
    };
    let ghost body = unsigned_body(text@);
    assert(body == text@.skip(start as int));
    if start == text.len() {
        return None;
    }
    let mut value: u64 = 0;
    let mut i: usize = start;
    while i < text.len()
        invariant
            2 <= radix <= 10,
            start <= i <= text.len(),
            body == text@.skip(start as int),
            body == unsigned_body(text@),
            all_digits(body.take(i - start), radix as nat),
            value == digits_value(body.take(i - start), radix as nat),
            value <= max,
        decreases text.len() - i,
    {
        let ghost head = body.take(i - start);
        let ghost next = body.take(i - start + 1);
        proof {
            assert(next.drop_last() == head);
            assert(next.last() == text@[i as int]);
        }
        match digit_value(text[i], radix) {
            None => {
                assert(!is_digit(body[i - start], radix as nat));
                return None;
            },
            Some(d) => {
                assert((value as int) * (radix as int) <= 0xffff_ffff_ffff_ffff * 10)
                    by (nonlinear_arith)
                    requires
                        0 <= value <= 0xffff_ffff_ffff_ffff,
                        0 <= radix <= 10,
                ;
                let wide: u128 = (value as u128) * (radix as u128) + (d as u128);
                assert(wide == digits_value(next, radix as nat)) by {
                    assert((value as u128) * (radix as u128) == (value as nat) * (radix as nat))
                        by (nonlinear_arith)
                        requires
                            value <= u64::MAX,
                            radix <= 10,
                    ;
                }
                if wide > max as u128 {
                    proof {
                        lemma_digits_value_grows(body, radix as nat, i - start + 1);
                    }
                    return None;
                }
                value = wide as u64;
                assert forall|k: int| 0 <= k < next.len() implies is_digit(
                    #[trigger] next[k],
                    radix as nat,
                ) by {
                    if k < head.len() {
                        assert(next[k] == head[k]);
                    }
                }
            },
        }
        i = i + 1;
    }
    assert(body.take(i - start) == body);
    Some(value)
}

/// Reads a decimal number that fits the platform's word, as `str::parse` does for `usize`.
pub fn parse_decimal(text: &Vec<char>) -> (value: Option<usize>)
    ensures
        match value {
            Some(v) => unsigned_of(text@, 10, usize::MAX as nat) == Some(v as nat),
            None => unsigned_of(text@, 10, usize::MAX as nat) is None,
        },
{
    match parse_unsigned(text, 10, usize::MAX as u64) {
        Some(v) => Some(v as usize),
        None => None,
    }
}

/// Appends the digits of `n` in the given radix to `out`.
pub fn push_digits(n: u64, radix: u64, out: &mut Vec<char>)
    requires
        2 <= radix <= 10,
    ensures
        final(out)@ == old(out)@ + digits_of(n as nat, radix as nat),
    decreases n,
{
    if n >= radix {
        assert(n / radix < n) by (nonlinear_arith)
            requires
                radix >= 2,
                n >= radix,
        ;
        push_digits(n / radix, radix, out);
    }
    let d: u64 = n % radix;
    assert(n < radix ==> d == n) by (nonlinear_arith)
        requires
            d == n % radix,
            radix >= 2,
    ;
    assert(d < radix) by (nonlinear_arith)
        requires
            d == n % radix,
            radix >= 2,
    ;
    let c: char = if d == 0 {
        '0'
    } else if d == 1 {
        '1'
    } else if d == 2 {
        '2'
    } else if d == 3 {
        '3'
    } else if d == 4 {
        '4'
    } else if d == 5 {
        '5'
    } else if d == 6 {
        '6'
    } else if d == 7 {
        '7'
    } else if d == 8 {
        '8'
    } else {
        '9'
    };
    out.push(c);
    assert(c == digit_char(d as nat));
    proof {
        if n >= radix {
            assert(final(out)@ == old(out)@ + digits_of((n / radix) as nat, radix as nat).push(
                digit_char((n % radix) as nat),
            ));
        } else {
            assert(final(out)@ == old(out)@ + seq![digit_char(n as nat)]);
        }
    }
}

/// `n` written in decimal, as `{}` formats an unsigned integer.
pub fn decimal_text(n: usize) -> (out: String)
    ensures
        out@ == digits_of(n as nat, 10),
{
    let mut digits: Vec<char> = Vec::new();
    push_digits(n as u64, 10, &mut digits);
    assert(Seq::<char>::empty() + digits_of(n as nat, 10) == digits_of(n as nat, 10));
    string_of(&digits)
}

/// The digits written for a number are digits of the radix and are worth that number.
pub proof fn lemma_digits_of_value(n: nat, radix: nat)
    requires
        2 <= radix <= 10,
    ensures
        digits_of(n, radix).len() >= 1,
        all_digits(digits_of(n, radix), radix),
        digits_value(digits_of(n, radix), radix) == n,
    decreases n,
{
    let text = digits_of(n, radix);
    if n < radix {
        assert(text == seq![digit_char(n)]);
        assert(text.drop_last() == Seq::<char>::empty());
        assert(digits_value(text.drop_last(), radix) == 0);
        assert(digit_of(text.last()) == Some(n));
        assert(0 * radix == 0) by (nonlinear_arith);
        assert(digits_value(text, radix) == 0 * radix + n);
    } else {
        let high = n / radix;
        let low = n % radix;
        assert(high < n && low < radix && high * radix + low == n) by (nonlinear_arith)
            requires
                radix >= 2,
                n >= radix,
                high == n / radix,
                low == n % radix,
        ;
        lemma_digits_of_value(high, radix);
        assert(text == digits_of(high, radix).push(digit_char(low)));
        assert(text.drop_last() == digits_of(high, radix));
        assert(digit_of(text.last()) == Some(low));
        assert(digits_value(text, radix) == digits_value(text.drop_last(), radix) * radix + low);
        assert forall|i: int| 0 <= i < text.len() implies is_digit(#[trigger] text[i], radix) by {
            if i < text.len() - 1 {
                assert(text[i] == digits_of(high, radix)[i]);
            }
        }
    }
}

/// A run of zeros is worth nothing.
pub proof fn lemma_zeros_value(count: nat, radix: nat)
    ensures
        digits_value(Seq::new(count, |i: int| '0'), radix) == 0,
    decreases count,
{
    let zeros = Seq::new(count, |i: int| '0');
    if count > 0 {
        lemma_zeros_value((count - 1) as nat, radix);
        assert(zeros.drop_last() == Seq::new((count - 1) as nat, |i: int| '0'));
        assert(digit_of(zeros.last()) == Some(0nat));
        assert(0 * radix == 0);
    }
}

/// Zeros in front change neither what a run of digits is worth nor that it is one.
pub proof fn lemma_zero_padded_value(text: Seq<char>, radix: nat, width: nat)
    requires
        2 <= radix <= 10,
        all_digits(text, radix),
    ensures
        all_digits(zero_padded(text, width), radix),
        digits_value(zero_padded(text, width), radix) == digits_value(text, radix),
        zero_padded(text, width).len() >= text.len(),
    decreases text.len(),
{
    let padded = zero_padded(text, width);
    if text.len() < width {
        let zeros = Seq::new((width - text.len()) as nat, |i: int| '0');
        assert forall|i: int| 0 <= i < padded.len() implies is_digit(#[trigger] padded[i], radix) by {
            if i < zeros.len() {
                assert(padded[i] == '0');
            } else {
                assert(padded[i] == text[i - zeros.len()]);
            }
        }
        if text.len() == 0 {
            lemma_zeros_value(zeros.len(), radix);
            assert(padded == zeros);
        } else {
            let shorter = text.drop_last();
            assert(all_digits(shorter, radix)) by {
                assert forall|i: int| 0 <= i < shorter.len() implies is_digit(
                    #[trigger] shorter[i],
                    radix,
                ) by {
                    assert(shorter[i] == text[i]);
                }
            }
            lemma_zero_padded_value(shorter, radix, (width - 1) as nat);
            assert(zero_padded(shorter, (width - 1) as nat) == zeros + shorter);
            assert(padded.drop_last() == zeros + shorter);
            assert(padded.last() == text.last());
        }
    }
}

/// Writing a number, with or without zeros in front, and reading it back gives the number.
pub proof fn lemma_written_number_reads_back(n: nat, radix: nat, width: nat, max: nat)
    requires
        2 <= radix <= 10,
        n <= max,
    ensures
        unsigned_of(zero_padded(digits_of(n, radix), width), radix, max) == Some(n),
        unsigned_of(digits_of(n, radix), radix, max) == Some(n),
{
    let plain = digits_of(n, radix);
    lemma_digits_of_value(n, radix);
    lemma_zero_padded_value(plain, radix, width);
    let padded = zero_padded(plain, width);
    assert(is_digit(padded[0], radix));
    assert(is_digit(plain[0], radix));
    assert(unsigned_body(padded) == padded);
    assert(unsigned_body(plain) == plain);
}

/// How one text stands to another in dictionary order.
#[derive(Debug, Clone, Copy, PartialEq, Eq, Structural)]
pub enum TextOrder {
    Before,
    Same,
    After,
}

/// Dictionary order by code point: the first differing character decides,
/// and a text comes before every longer text that it begins.
pub open spec fn text_order(a: Seq<char>, b: Seq<char>) -> TextOrder
    decreases a.len(),
{
    if a.len() == 0 {
        if b.len() == 0 {
            TextOrder::Same
        } else {
            TextOrder::Before
        }
    } else if b.len() == 0 {
        TextOrder::After
    } else if a[0] < b[0] {
        TextOrder::Before
    } else if a[0] > b[0] {
        TextOrder::After
    } else {
        text_order(a.drop_first(), b.drop_first())
    }
}

/// A common beginning does not change the order of two texts.
pub proof fn lemma_text_order_skips(a: Seq<char>, b: Seq<char>, shared: int)
    requires
        0 <= shared <= a.len(),
        shared <= b.len(),
        a.take(shared) == b.take(shared),
    ensures
        text_order(a, b) == text_order(a.skip(shared), b.skip(shared)),
    decreases shared,
{
    if shared == 0 {
        assert(a.skip(0) == a);
        assert(b.skip(0) == b);
    } else {
        assert(a[0] == a.take(shared)[0]);
        assert(b[0] == b.take(shared)[0]);
        let a1 = a.drop_first();
        let b1 = b.drop_first();
        assert(a1.take(shared - 1) == a.take(shared).drop_first());
        assert(b1.take(shared - 1) == b.take(shared).drop_first());
        lemma_text_order_skips(a1, b1, shared - 1);
        assert(a1.skip(shared - 1) == a.skip(shared));
        assert(b1.skip(shared - 1) == b.skip(shared));
    }
}

/// Two texts are in the same place of the order exactly when they are equal.
pub proof fn lemma_text_order_same(a: Seq<char>, b: Seq<char>)
    ensures
        text_order(a, b) == TextOrder::Same <==> a == b,
    decreases a.len(),
{
    if a.len() > 0 && b.len() > 0 {
        lemma_text_order_same(a.drop_first(), b.drop_first());
        if a[0] == b[0] && a.drop_first() == b.drop_first() {
            assert(a == seq![a[0]] + a.drop_first());
            assert(b == seq![b[0]] + b.drop_first());
        }
    } else if a.len() == 0 && b.len() == 0 {
        assert(a == b);
    }
}

/// Swapping the two texts swaps before and after.
pub proof fn lemma_text_order_flips(a: Seq<char>, b: Seq<char>)
    ensures
        text_order(a, b) == TextOrder::Before <==> text_order(b, a) == TextOrder::After,
        text_order(a, b) == TextOrder::Same <==> text_order(b, a) == TextOrder::Same,
    decreases a.len(),
{
    if a.len() > 0 && b.len() > 0 {
        lemma_text_order_flips(a.drop_first(), b.drop_first());
    }
}

/// What comes before a text that comes before a third comes before the third.
pub proof fn lemma_text_order_chains(a: Seq<char>, b: Seq<char>, c: Seq<char>)
    requires
        text_order(a, b) == TextOrder::Before,
        text_order(b, c) == TextOrder::Before,
    ensures
        text_order(a, c) == TextOrder::Before,
    decreases a.len(),
{
    if a.len() > 0 && b.len() > 0 && c.len() > 0 {
        if a[0] == b[0] && b[0] == c[0] {
            lemma_text_order_chains(a.drop_first(), b.drop_first(), c.drop_first());
        }
    }
}

/// Compares two texts in dictionary order.
pub fn order_chars(a: &Vec<char>, b: &Vec<char>) -> (order: TextOrder)
    ensures
        order == text_order(a@, b@),
{
    let mut i: usize = 0;
    while i < a.len() && i < b.len()
        invariant
            i <= a.len(),
            i <= b.len(),
            a@.take(i as int) == b@.take(i as int),
        decreases a.len() - i,
    {
        proof {
            lemma_text_order_skips(a@, b@, i as int);
            assert(a@.skip(i as int)[0] == a@[i as int]);
            assert(b@.skip(i as int)[0] == b@[i as int]);
        }
        if a[i] < b[i] {
            return TextOrder::Before;
        }
        if a[i] > b[i] {
            return TextOrder::After;
        }
        i = i + 1;
        assert(a@.take(i as int) == a@.take(i - 1).push(a@[i - 1]));
        assert(b@.take(i as int) == b@.take(i - 1).push(b@[i - 1]));
    }
    proof {
        lemma_text_order_skips(a@, b@, i as int);
    }
    if i < b.len() {
        TextOrder::Before
    } else if i < a.len() {
        TextOrder::After
    } else {
        TextOrder::Same
    }
}

/// Compares two strings in dictionary order.
pub fn order_strings(a: &String, b: &String) -> (order: TextOrder)
    ensures
        order == text_order(a@, b@),
{
    let left = chars_of(a.as_str());
    let right = chars_of(b.as_str());
    order_chars(&left, &right)
}

/// Each text comes before the next: the texts are in order, and none occurs twice.
pub open spec fn strictly_ascending(texts: Seq<Seq<char>>) -> bool {
    forall|i: int, j: int|
        0 <= i < j < texts.len() ==> text_order(#[trigger] texts[i], #[trigger] texts[j])
            == TextOrder::Before
}

/// Puts `item` into a list that is in order and without repeats, at its
/// place; a text that the list holds already is not put in again.
pub fn insert_ordered(list: &mut Vec<String>, item: String)
    requires
        strictly_ascending(texts(old(list)@)),
    ensures
        strictly_ascending(texts(final(list)@)),
        forall|text: Seq<char>|
            texts(final(list)@).contains(text) <==> (texts(old(list)@).contains(text)
                || text == item@),
{
    let ghost before = texts(list@);
    let mut at: usize = 0;
    let mut placed = false;
    while at < list.len() && !placed
        invariant
            at <= list.len(),
            texts(list@) == before,
            strictly_ascending(before),
            forall|k: int| 0 <= k < at ==> text_order(#[trigger] before[k], item@)
                == TextOrder::Before,
            placed ==> at < list.len() && text_order(before[at as int], item@)
                == TextOrder::After,
        decreases list.len() - at + (if placed { 0int } else { 1int }),
    {
        assert(before[at as int] == list@[at as int]@);
        match order_strings(&list[at], &item) {
            TextOrder::Before => {
                at = at + 1;
            },
            TextOrder::Same => {
                proof {
                    lemma_text_order_same(before[at as int], item@);
                    assert forall|text: Seq<char>|
                        before.contains(text) <==> (before.contains(text) || text == item@) by {
                        if text == item@ {
                            assert(before[at as int] == text);
                        }
                    }
                }
                return ;
            },
            TextOrder::After => {
                placed = true;
            },
        }
    }
    let ghost was = list@;
    list.insert(at, item);
    proof {
        let after = texts(list@);
        assert(after =~= before.insert(at as int, item@));
        assert forall|i: int, j: int| 0 <= i < j < after.len() implies text_order(
            #[trigger] after[i],
            #[trigger] after[j],
        ) == TextOrder::Before by {
            if j < at {
                assert(after[i] == before[i] && after[j] == before[j]);
            } else if j == at {
                assert(after[i] == before[i]);
            } else if i == at {
                assert(after[j] == before[j - 1]);
                lemma_text_order_flips(item@, before[at as int]);
                if j - 1 > at {
                    lemma_text_order_chains(item@, before[at as int], before[j - 1]);
                }
            } else if i < at {
                assert(after[i] == before[i] && after[j] == before[j - 1]);
            } else {
                assert(after[i] == before[i - 1] && after[j] == before[j - 1]);
            }
        }
        assert forall|text: Seq<char>|
            after.contains(text) <==> (before.contains(text) || text == item@) by {
            if after.contains(text) {
                let k = choose|k: int| 0 <= k < after.len() && after[k] == text;
                if k < at {
                    assert(before[k] == text);
                } else if k > at {
                    assert(before[k - 1] == text);
                }
            }
            if before.contains(text) {
                let k = choose|k: int| 0 <= k < before.len() && before[k] == text;
                if k < at {
                    assert(after[k] == text);
                } else {
                    assert(after[k + 1] == text);
                }
            }
            if text == item@ {
                assert(after[at as int] == text);
            }
        }
    }
}

/// The texts of `items`, each once, in dictionary order.
pub fn ordered_set(items: &Vec<String>) -> (list: Vec<String>)
    ensures
        strictly_ascending(texts(list@)),
        forall|text: Seq<char>|
            texts(list@).contains(text) <==> texts(items@).contains(text),
{
    let mut list: Vec<String> = Vec::new();
    let mut i: usize = 0;
    while i < items.len()
        invariant
            i <= items.len(),
            strictly_ascending(texts(list@)),
            forall|text: Seq<char>|
                texts(list@).contains(text) <==> texts(items@.take(i as int)).contains(
                    text,
                ),
        decreases items.len() - i,
    {
        let ghost had = texts(list@);
        let ghost seen = texts(items@.take(i as int));
        insert_ordered(&mut list, items[i].clone());
        i = i + 1;
        proof {
            let now = texts(items@.take(i as int));
            assert(now =~= seen.push(items@[i - 1]@));
            assert forall|text: Seq<char>|
                texts(list@).contains(text) <==> now.contains(text) by {
                if now.contains(text) {
                    let k = choose|k: int| 0 <= k < now.len() && now[k] == text;
                    if k < seen.len() {
                        assert(seen[k] == text);
                    }
                }
                if seen.contains(text) {
                    let k = choose|k: int| 0 <= k < seen.len() && seen[k] == text;
                    assert(now[k] == text);
                }
                if text == items@[i - 1]@ {
                    assert(now[i - 1] == text);
                }
            }
        }
    }
    assert(items@.take(items.len() as int) == items@);
    list
}

} // verus!
