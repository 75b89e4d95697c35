//! Text: decimal numbers, trimming, splitting and joining, and short forms of long identifiers.

use vstd::prelude::*;
use vstd::string::*;
use vstd::utf8::*;

verus! {

/// `String::push` of std: the character is appended at the end.
pub assume_specification[ String::push ](s: &mut String, c: char)
    ensures
        final(s)@ == old(s)@.push(c),
;

/// The text that an absent value shows as.
pub open spec fn blank() -> Seq<char> {
    Seq::empty()
}

/// The view of an optional text.
pub open spec fn opt_text(o: Option<String>) -> Option<Seq<char>> {
    match o {
        Some(s) => Some(s@),
        None => None,
    }
}

/// An optional text, an absent one as the empty text.
pub open spec fn text_or_blank(o: Option<Seq<char>>) -> Seq<char> {
    match o {
        Some(s) => s,
        None => blank(),
    }
}

/// The views of a list of texts.
pub open spec fn texts(v: Seq<String>) -> Seq<Seq<char>> {
    v.map_values(|s: String| s@)
}

/// A text that is present only where it is not empty.
pub open spec fn non_blank(s: Seq<char>) -> Option<Seq<char>> {
    if s.len() == 0 {
        None
    } else {
        Some(s)
    }
}

/// `a` followed by `b`.
pub fn join2(a: &str, b: &str) -> (r: String)
    ensures
        r@ == a@ + b@,
{
    let mut s = a.to_owned();
    s.append(b);
    s
}

/// `a`, `b` and `c` in a row.
pub fn join3(a: &str, b: &str, c: &str) -> (r: String)
    ensures
        r@ == a@ + b@ + c@,
{
    let mut s = a.to_owned();
    s.append(b);
    s.append(c);
    s
}

/// Whether two texts hold the same characters.
pub fn same_text(a: &str, b: &str) -> (r: bool)
    ensures
        r == (a@ == b@),
{
    a.to_owned() == b.to_owned()
}

/// The text itself, or the empty text where there is none.
pub fn or_blank(o: &Option<String>) -> (r: String)
    ensures
        r@ == text_or_blank(opt_text(*o)),
{
    match o {
        Some(s) => s.clone(),
        None => String::new(),
    }
}

/// Nothing for the empty text, otherwise the text.
pub fn some_unless_blank(s: &str) -> (r: Option<String>)
    ensures
        opt_text(r) == non_blank(s@),
{
    if s.is_empty() {
        None
    } else {
        Some(s.to_owned())
    }
}

/// A copy of an optional text.
pub fn copy_opt(o: &Option<String>) -> (r: Option<String>)
    ensures
        r == *o,
{
    match o {
        Some(s) => Some(s.clone()),
        None => None,
    }
}

/// A copy of a list of texts.
pub fn copy_texts(v: &Vec<String>) -> (r: Vec<String>)
    ensures
        r@ == v@,
{
    let mut out: Vec<String> = Vec::new();
    for i in 0..v.len()
        invariant
            out@ == v@.take(i as int),
    {
        out.push(v[i].clone());
        assert(v@.take(i + 1) =~= v@.take(i as int).push(v@[i as int]));
    }
    assert(v@.take(v@.len() as int) =~= v@);
    out
}

// ---------------------------------------------------------------------------
// Numbers

/// The decimal digit `d`.
pub open spec fn digit(d: nat) -> char {
    (48 + d) as char
}

/// The decimal numeral of `n`, without leading zeros.
pub open spec fn decimal(n: nat) -> Seq<char>
    decreases n,
{
    if n < 10 {
        seq![digit(n)]
    } else {
        decimal(n / 10).push(digit(n % 10))
    }
}

/// The decimal numeral of `n`, with a minus sign in front of a negative number.
pub open spec fn signed_decimal(n: int) -> Seq<char> {
    if n < 0 {
        seq!['-'] + decimal((-n) as nat)
    } else {
        decimal(n as nat)
    }
}

/// Writes `n` in decimal.
pub fn wide_decimal_text(n: u128) -> (r: String)
    ensures
        r@ == decimal(n as nat),
    decreases n,
{
    let last: u8 = (n % 10) as u8;
    if n < 10 {
        let mut s = String::new();
        s.push((48 + last) as char);
        assert(s@ =~= seq![digit(n as nat)]);
        s
    } else {
        let mut s = wide_decimal_text(n / 10);
        s.push((48 + last) as char);
        s
    }
}

/// Writes `n` in decimal.
pub fn decimal_text(n: u64) -> (r: String)
    ensures
        r@ == decimal(n as nat),
{
    wide_decimal_text(n as u128)
}

/// Writes `n` in decimal, with its sign where it is negative.
pub fn integer_text(n: i64) -> (r: String)
    ensures
        r@ == signed_decimal(n as int),
{
    if n < 0 {
        let magnitude: u64 = (-(n + 1)) as u64 + 1;
        let mut s = String::new();
        s.push('-');
        s.append(decimal_text(magnitude).as_str());
        assert(s@ =~= seq!['-'] + decimal((-n) as nat));
        s
    } else {
        decimal_text(n as u64)
    }
}

/// The value that a sequence of digits denotes.
pub open spec fn decimal_value(s: Seq<char>) -> nat
    decreases s.len(),
{
    if s.len() == 0 {
        0
    } else {
        (10 * decimal_value(s.drop_last()) + (s.last() as int - 48)) as nat
    }
}

/// A numeral denotes the number that it was written for, so different numbers read differently.
pub proof fn decimal_denotes(n: nat)
    ensures
        decimal_value(decimal(n)) == n,
        decimal(n).len() > 0,
    decreases n,
{
    if n < 10 {
        assert(decimal(n).drop_last() =~= Seq::<char>::empty());
        assert(decimal_value(Seq::<char>::empty()) == 0);
    } else {
        decimal_denotes(n / 10);
        assert(decimal(n).drop_last() =~= decimal(n / 10));
    }
}

// ---------------------------------------------------------------------------
// Characters

/// Unicode's control characters (general category Cc).
pub open spec fn is_control_char(c: char) -> bool {
    c as u32 <= 0x1f || 0x7f <= c as u32 <= 0x9f
}

/// Unicode's white space (property White_Space).
pub open spec fn is_space_char(c: char) -> bool {
    let u = c as u32;
    ||| 0x09 <= u <= 0x0d
    ||| u == 0x20
    ||| u == 0x85
    ||| u == 0xa0
    ||| u == 0x1680
    ||| 0x2000 <= u <= 0x200a
    ||| u == 0x2028
    ||| u == 0x2029
    ||| u == 0x202f
    ||| u == 0x205f
    ||| u == 0x3000
}

/// Whether `c` is a control character.
pub fn is_control(c: char) -> (r: bool)
    ensures
        r == is_control_char(c),
{
    let u: u32 = c as u32;
    u <= 0x1f || (0x7f <= u && u <= 0x9f)
}

/// Whether `c` is white space.
pub fn is_space(c: char) -> (r: bool)
    ensures
        r == is_space_char(c),
{
    let u: u32 = c as u32;
    (0x09 <= u && u <= 0x0d) || u == 0x20 || u == 0x85 || u == 0xa0 || u == 0x1680 || (0x2000 <= u
        && u <= 0x200a) || u == 0x2028 || u == 0x2029 || u == 0x202f || u == 0x205f || u == 0x3000
}

/// The characters of a text, one by one.
pub fn chars_of(s: &str) -> (r: Vec<char>)
    ensures
        r@ == s@,
{
    let mut out: Vec<char> = Vec::new();
    for c in it: s.chars()
        invariant
            it.seq() == s@,
            out@ == s@.take(it.index()),
    {
        out.push(c);
        assert(s@.take(it.index() + 1) =~= s@.take(it.index()).push(c));
    }
    assert(s@.take(s@.len() as int) =~= s@);
    out
}

/// The text made of the characters from `from` up to, not including, `to`.
pub fn text_of(chars: &Vec<char>, from: usize, to: usize) -> (r: String)
    requires
        from <= to <= chars@.len(),
    ensures
        r@ == chars@.subrange(from as int, to as int),
{
    let mut out = String::new();
    for i in from..to
        invariant
            from <= to <= chars@.len(),
            out@ == chars@.subrange(from as int, i as int),
    {
        out.push(chars[i]);
        assert(chars@.subrange(from as int, i + 1) =~= chars@.subrange(from as int, i as int).push(
            chars@[i as int],
        ));
    }
    out
}

// ---------------------------------------------------------------------------
// Trimming

/// `s` without the white space at its start.
pub open spec fn trim_start(s: Seq<char>) -> Seq<char>
    decreases s.len(),
{
    if s.len() > 0 && is_space_char(s[0]) {
        trim_start(s.drop_first())
    } else {
        s
    }
}

/// `s` without the white space at its end.
pub open spec fn trim_end(s: Seq<char>) -> Seq<char>
    decreases s.len(),
{
    if s.len() > 0 && is_space_char(s.last()) {
        trim_end(s.drop_last())
    } else {
        s
    }
}

/// `s` without the white space around it.
pub open spec fn trimmed(s: Seq<char>) -> Seq<char> {
    trim_end(trim_start(s))
}

/// A text with no white space at either end.
pub open spec fn is_trim(s: Seq<char>) -> bool {
    s.len() == 0 || (!is_space_char(s[0]) && !is_space_char(s.last()))
}

proof fn lemma_trim_end_keeps_first(s: Seq<char>)
    requires
        s.len() == 0 || !is_space_char(s[0]),
    ensures
        is_trim(trim_end(s)),
        trim_end(s).len() <= s.len(),
        trim_end(s) == s.take(trim_end(s).len() as int),
    decreases s.len(),
{
    if s.len() > 0 && is_space_char(s.last()) {
        lemma_trim_end_keeps_first(s.drop_last());
        assert(s.drop_last().take(trim_end(s).len() as int) =~= s.take(trim_end(s).len() as int));
    } else {
        assert(s.take(s.len() as int) =~= s);
    }
}

proof fn lemma_trim_start(s: Seq<char>)
    ensures
        trim_start(s).len() == 0 || !is_space_char(trim_start(s)[0]),
        trim_start(s).len() <= s.len(),
        trim_start(s) == s.skip(s.len() - trim_start(s).len()),
    decreases s.len(),
{
    if s.len() > 0 && is_space_char(s[0]) {
        lemma_trim_start(s.drop_first());
        let t = trim_start(s);
        assert(s.drop_first().skip(s.drop_first().len() - t.len()) =~= s.skip(s.len() - t.len()));
    } else {
        assert(s.skip(0) =~= s);
    }
}

/// What trimming leaves is a stretch of the text with no white space at either end, and trimming
/// it again changes nothing.
pub proof fn trimming_is_idempotent(s: Seq<char>)
    ensures
        is_trim(trimmed(s)),
        trimmed(trimmed(s)) == trimmed(s),
        exists|i: int, j: int| 0 <= i <= j <= s.len() && trimmed(s) == #[trigger] s.subrange(i, j),
{
    lemma_trim_start(s);
    let t = trim_start(s);
    lemma_trim_end_keeps_first(t);
    let i = s.len() - t.len();
    assert(trimmed(s) =~= s.subrange(i, i + trimmed(s).len()));
}

/// A trimmed text is left alone.
pub proof fn trim_leaves_trim(s: Seq<char>)
    requires
        is_trim(s),
    ensures
        trimmed(s) == s,
{
}

/// The text without the white space around it.
pub fn trim_text(s: &str) -> (r: String)
    ensures
        r@ == trimmed(s@),
{
    let chars = chars_of(s);
    let n: usize = chars.len();
    let mut from: usize = 0;
    assert(s@.skip(0) =~= s@);
    while from < n && is_space(chars[from])
        invariant
            chars@ == s@,
            n == chars@.len(),
            from <= n,
            trim_start(s@) == trim_start(s@.skip(from as int)),
        decreases n - from,
    {
        assert(s@.skip(from as int).drop_first() =~= s@.skip(from + 1));
        from = from + 1;
    }
    let mut to: usize = n;
    assert(trim_start(s@) == s@.skip(from as int));
    assert(s@.skip(from as int) =~= s@.subrange(from as int, to as int));
    while from < to && is_space(chars[to - 1])
        invariant
            chars@ == s@,
            n == chars@.len(),
            from <= to <= n,
            trimmed(s@) == trim_end(s@.subrange(from as int, to as int)),
        decreases to,
    {
        assert(s@.subrange(from as int, to as int).drop_last() =~= s@.subrange(
            from as int,
            to - 1,
        ));
        to = to - 1;
    }
    text_of(&chars, from, to)
}

// ---------------------------------------------------------------------------
// Short forms

/// Whether a text can be cut `part` bytes from either end once it is longer than `limit` bytes.
pub open spec fn can_shorten(s: Seq<char>, limit: int, part: int) -> bool {
    let bytes = encode_utf8(s);
    bytes.len() > limit ==> is_char_boundary(bytes, part) && is_char_boundary(
        bytes,
        bytes.len() - part,
    )
}

/// A text of more than `limit` bytes by its first and its last `part` bytes.
pub open spec fn shortened(s: Seq<char>, limit: int, part: int) -> Seq<char> {
    let bytes = encode_utf8(s);
    if bytes.len() > limit {
        decode_utf8(bytes.take(part)) + "..."@ + decode_utf8(bytes.skip(bytes.len() - part))
    } else {
        s
    }
}

/// Whether a text can be cut `part` bytes from either end once it is longer than `limit` bytes.
pub fn is_shortenable(s: &str, limit: usize, part: usize) -> (r: bool)
    requires
        part <= limit,
    ensures
        r == can_shorten(s@, limit as int, part as int),
{
    let len: usize = s.as_bytes().len();
    len <= limit || (s.is_char_boundary(part) && s.is_char_boundary(len - part))
}

/// A text of more than `limit` bytes by its first and its last `part` bytes.
pub fn shorten(s: &str, limit: usize, part: usize) -> (r: String)
    requires
        part <= limit,
        can_shorten(s@, limit as int, part as int),
    ensures
        r@ == shortened(s@, limit as int, part as int),
{
    let len: usize = s.as_bytes().len();
    if len > limit {
        let (head, _) = s.split_at(part);
        let (_, tail) = s.split_at(len - part);
        proof {
            let bytes = encode_utf8(s@);
            encode_utf8_decode_utf8(head@);
            encode_utf8_decode_utf8(tail@);
            assert(bytes.take(part as int) =~= bytes.subrange(0, part as int));
            assert(bytes.skip(len - part) =~= bytes.subrange(len - part, len as int));
        }
        join3(head, "...", tail)
    } else {
        s.to_owned()
    }
}

proof fn lemma_ascii_boundary(s: Seq<char>, i: int)
    requires
        is_ascii_chars(s),
        0 <= i <= s.len(),
    ensures
        is_char_boundary(encode_utf8(s), i),
{
    let bytes = encode_utf8(s);
    is_ascii_chars_encode_utf8(s);
    encode_utf8_valid_utf8(s);
    if i == bytes.len() {
        is_char_boundary_start_end_of_seq(bytes);
    } else {
        is_char_boundary_iff_not_is_continuation_byte(bytes, i);
        assert(s[i] as u8 == bytes[i]);
        assert(!is_continuation_byte(bytes[i]));
    }
}

/// A text of one-byte characters can be cut anywhere.
pub proof fn ascii_can_be_shortened(s: Seq<char>, limit: int, part: int)
    requires
        is_ascii_chars(s),
        0 <= part <= limit,
    ensures
        can_shorten(s, limit, part),
        s.len() > limit ==> shortened(s, limit, part) == s.take(part) + "..."@ + s.skip(
            s.len() - part,
        ),
        s.len() <= limit ==> shortened(s, limit, part) == s,
{
    is_ascii_chars_encode_utf8(s);
    let bytes = encode_utf8(s);
    if bytes.len() > limit {
        lemma_ascii_boundary(s, part);
        lemma_ascii_boundary(s, s.len() - part);
        is_ascii_chars_encode_utf8(s.take(part));
        is_ascii_chars_encode_utf8(s.skip(s.len() - part));
        assert(is_ascii_chars(s.take(part)));
        assert(is_ascii_chars(s.skip(s.len() - part)));
        assert(bytes.take(part) =~= encode_utf8(s.take(part)));
        assert(bytes.skip(s.len() - part) =~= encode_utf8(s.skip(s.len() - part)));
        encode_utf8_decode_utf8(s.take(part));
        encode_utf8_decode_utf8(s.skip(s.len() - part));
    }
}

/// `s` without its control characters.
pub open spec fn without_controls(s: Seq<char>) -> Seq<char> {
    s.filter(|c: char| !is_control_char(c))
}

/// The text without its control characters.
pub fn drop_controls(s: &str) -> (r: String)
    ensures
        r@ == without_controls(s@),
{
    let chars = chars_of(s);
    let mut out = String::new();
    let ghost keep = |c: char| !is_control_char(c);
    assert(chars@.take(0).filter(keep) =~= Seq::<char>::empty()) by {
        reveal(Seq::filter);
    }
    for i in 0..chars.len()
        invariant
            chars@ == s@,
            keep == (|c: char| !is_control_char(c)),
            out@ == chars@.take(i as int).filter(keep),
    {
        let c = chars[i];
        proof {
            assert(chars@.take(i + 1) =~= chars@.take(i as int).push(c));
            assert(chars@.take(i + 1).drop_last() =~= chars@.take(i as int));
            reveal(Seq::filter);
        }
        if !is_control(c) {
            out.push(c);
        }
    }
    assert(chars@.take(chars@.len() as int) =~= chars@);
    out
}

// ---------------------------------------------------------------------------
// Lists

/// Texts in a row, with a separator between them.
pub open spec fn joined(parts: Seq<Seq<char>>, separator: Seq<char>) -> Seq<char>
    decreases parts.len(),
{
    if parts.len() == 0 {
        blank()
    } else if parts.len() == 1 {
        parts[0]
    } else {
        joined(parts.drop_last(), separator) + separator + parts.last()
    }
}

/// Joins texts by a separator.
pub fn join_texts(parts: &Vec<String>, separator: &str) -> (r: String)
    ensures
        r@ == joined(texts(parts@), separator@),
{
    let mut out = String::new();
    for i in 0..parts.len()
        invariant
            out@ == joined(texts(parts@).take(i as int), separator@),
    {
        let ghost next = texts(parts@).take(i + 1);
        assert(next.drop_last() =~= texts(parts@).take(i as int));
        assert(next.last() == parts@[i as int]@);
        if i > 0 {
            out.append(separator);
        }
        let ghost before_part = out@;
        out.append(parts[i].as_str());
        assert(i == 0 ==> before_part + parts@[i as int]@ =~= parts@[i as int]@);
    }
    assert(texts(parts@).take(parts@.len() as int) =~= texts(parts@));
    out
}

/// The pieces of a text between the separators in it.
pub open spec fn pieces(s: Seq<char>, separator: char) -> Seq<Seq<char>>
    decreases s.len(),
{
    if s.len() == 0 {
        seq![blank()]
    } else {
        let head = pieces(s.drop_last(), separator);
        if s.last() == separator {
            head.push(blank())
        } else {
            head.drop_last().push(head.last().push(s.last()))
        }
    }
}

/// Whether a text is free of a character.
pub open spec fn lacks(s: Seq<char>, c: char) -> bool {
    forall|i: int| 0 <= i < s.len() ==> #[trigger] s[i] != c
}

proof fn lemma_pieces_lack(s: Seq<char>, separator: char)
    ensures
        pieces(s, separator).len() > 0,
        forall|i: int|
            0 <= i < pieces(s, separator).len() ==> lacks(
                #[trigger] pieces(s, separator)[i],
                separator,
            ),
    decreases s.len(),
{
    if s.len() > 0 {
        lemma_pieces_lack(s.drop_last(), separator);
        let head = pieces(s.drop_last(), separator);
        assert(lacks(head[head.len() - 1], separator));
        assert(lacks(head.last().push(s.last()), separator) || s.last() == separator);
    }
}

/// Every text has a piece.
pub proof fn lemma_some_piece(s: Seq<char>, separator: char)
    ensures
        pieces(s, separator).len() > 0,
{
    lemma_pieces_lack(s, separator);
}

/// A text without separators is one piece.
pub proof fn lemma_one_piece(s: Seq<char>, separator: char)
    requires
        lacks(s, separator),
    ensures
        pieces(s, separator) == seq![s],
    decreases s.len(),
{
    if s.len() == 0 {
        assert(s =~= blank());
    } else {
        let t = s.drop_last();
        assert forall|i: int| 0 <= i < t.len() implies #[trigger] t[i] != separator by {
            assert(t[i] == s[i]);
        }
        lemma_one_piece(t, separator);
        assert(s.last() == s[s.len() - 1]);
        assert(seq![t].drop_last().push(t.push(s.last())) =~= seq![s]) by {
            assert(t.push(s.last()) =~= s);
        }
    }
}

/// What follows a separator is a piece of its own.
pub proof fn lemma_last_piece(a: Seq<char>, b: Seq<char>, separator: char)
    requires
        lacks(b, separator),
    ensures
        pieces(a.push(separator) + b, separator) == pieces(a, separator).push(b),
    decreases b.len(),
{
    let s = a.push(separator) + b;
    if b.len() == 0 {
        assert(s =~= a.push(separator));
        assert(s.drop_last() =~= a);
        assert(b =~= blank());
    } else {
        let c = b.drop_last();
        assert forall|i: int| 0 <= i < c.len() implies #[trigger] c[i] != separator by {
            assert(c[i] == b[i]);
        }
        lemma_last_piece(a, c, separator);
        assert(s.drop_last() =~= a.push(separator) + c);
        assert(s.last() == b[b.len() - 1]);
        let head = pieces(a, separator).push(c);
        assert(head.drop_last() =~= pieces(a, separator));
        assert(c.push(b.last()) =~= b);
    }
}

/// Splits a text at a separator.
pub fn split_text(s: &str, separator: char) -> (r: Vec<String>)
    ensures
        texts(r@) == pieces(s@, separator),
{
    let chars = chars_of(s);
    let mut out: Vec<String> = Vec::new();
    let mut piece = String::new();
    assert(s@.take(0) =~= blank());
    assert(texts(out@).push(piece@) =~= pieces(s@.take(0), separator));
    for i in 0..chars.len()
        invariant
            chars@ == s@,
            texts(out@).push(piece@) == pieces(s@.take(i as int), separator),
    {
        let c = chars[i];
        let ghost next = s@.take(i + 1);
        assert(next.drop_last() =~= s@.take(i as int));
        assert(next.last() == c);
        let ghost before = texts(out@).push(piece@);
        assert(before.drop_last() =~= texts(out@));
        if c == separator {
            out.push(piece);
            assert(texts(out@) =~= before);
            piece = String::new();
        } else {
            piece.push(c);
        }
    }
    assert(s@.take(s@.len() as int) =~= s@);
    let ghost before = texts(out@).push(piece@);
    out.push(piece);
    assert(texts(out@) =~= before);
    out
}

/// Whether a text has any character.
pub open spec fn has_text() -> spec_fn(Seq<char>) -> bool {
    |s: Seq<char>| s.len() > 0
}

/// Trimming, for each text of a list.
pub open spec fn trims() -> spec_fn(Seq<char>) -> Seq<char> {
    |s: Seq<char>| trimmed(s)
}

/// The entries of a list that is separated by commas: trimmed, and without those that are empty.
pub open spec fn list_entries(s: Seq<char>) -> Seq<Seq<char>> {
    pieces(s, ',').map_values(trims()).filter(has_text())
}

/// Reads a list that is separated by commas.
pub fn parse_list(s: &str) -> (r: Vec<String>)
    ensures
        texts(r@) == list_entries(s@),
{
    let parts = split_text(s, ',');
    let mut out: Vec<String> = Vec::new();
    let ghost all = pieces(s@, ',').map_values(trims());
    proof {
        crate::seqs::lemma_filter_start(all, has_text());
    }
    assert(texts(out@) =~= all.take(0).filter(has_text()));
    for i in 0..parts.len()
        invariant
            texts(parts@) == pieces(s@, ','),
            all == pieces(s@, ',').map_values(trims()),
            texts(out@) == all.take(i as int).filter(has_text()),
    {
        let entry = trim_text(parts[i].as_str());
        proof {
            crate::seqs::lemma_filter_step(all, has_text(), i as int);
            assert(texts(parts@)[i as int] == parts@[i as int]@);
            assert(all[i as int] == entry@);
        }
        if !entry.as_str().is_empty() {
            let ghost before = texts(out@);
            let ghost shown = entry@;
            out.push(entry);
            assert(texts(out@) =~= before.push(shown));
        }
    }
    proof {
        crate::seqs::lemma_filter_end(all, has_text());
        assert(texts(parts@).len() == parts@.len());
    }
    out
}

/// Whether a text can stand in a list that is separated by commas.
pub open spec fn is_entry(s: Seq<char>) -> bool {
    s.len() > 0 && is_trim(s) && lacks(s, ',')
}

proof fn lemma_entries(s: Seq<char>)
    ensures
        forall|i: int| 0 <= i < list_entries(s).len() ==> is_entry(#[trigger] list_entries(s)[i]),
{
    lemma_pieces_lack(s, ',');
    let all = pieces(s, ',').map_values(trims());
    crate::seqs::lemma_filter_keeps(all, has_text());
    assert forall|i: int| 0 <= i < list_entries(s).len() implies is_entry(
        #[trigger] list_entries(s)[i],
    ) by {
        let e = list_entries(s)[i];
        assert(has_text()(e));
        assert(all.contains(e));
        let j = choose|j: int| 0 <= j < all.len() && all[j] == e;
        let p = pieces(s, ',')[j];
        assert(lacks(p, ','));
        trimming_is_idempotent(p);
        let (a, b) = choose|a: int, b: int|
            0 <= a <= b <= p.len() && trimmed(p) == #[trigger] p.subrange(a, b);
        assert forall|k: int| 0 <= k < e.len() implies #[trigger] e[k] != ',' by {
            assert(e[k] == p[a + k]);
        }
    }
}

proof fn lemma_read_back(list: Seq<Seq<char>>)
    requires
        forall|i: int| 0 <= i < list.len() ==> is_entry(#[trigger] list[i]),
    ensures
        list_entries(joined(list, ", "@)) == list,
    decreases list.len(),
{
    reveal(Seq::filter);
    reveal_strlit(", ");
    let trim = trims();
    assert(Seq::<Seq<char>>::empty().filter(has_text()) =~= Seq::<Seq<char>>::empty());
    if list.len() == 0 {
        assert(pieces(blank(), ',').map_values(trim) =~= seq![trimmed(blank())]);
        assert(seq![trimmed(blank())].drop_last() =~= Seq::<Seq<char>>::empty());
        assert(list =~= Seq::<Seq<char>>::empty());
        assert(list_entries(blank()) == list);
    } else if list.len() == 1 {
        let x = list[0];
        lemma_one_piece(x, ',');
        trim_leaves_trim(x);
        assert(seq![x].map_values(trim) =~= seq![x]);
        assert(seq![x].drop_last() =~= Seq::<Seq<char>>::empty());
        assert(Seq::<Seq<char>>::empty().push(x) =~= list);
        assert(list_entries(x) == list);
    } else {
        let rest = list.drop_last();
        let x = list.last();
        assert(is_entry(list[list.len() - 1]));
        assert forall|i: int| 0 <= i < rest.len() implies is_entry(#[trigger] rest[i]) by {
            assert(rest[i] == list[i]);
        }
        lemma_read_back(rest);
        let a = joined(rest, ", "@);
        let spaced = seq![' '] + x;
        assert(a + ", "@ + x =~= a.push(',') + spaced);
        assert(lacks(spaced, ',')) by {
            assert forall|i: int| 0 <= i < spaced.len() implies #[trigger] spaced[i] != ',' by {
                if i > 0 {
                    assert(spaced[i] == x[i - 1]);
                }
            }
        }
        lemma_last_piece(a, spaced, ',');
        assert(spaced.drop_first() =~= x);
        assert(trimmed(spaced) == x) by {
            assert(trim_start(spaced) == trim_start(x));
            trim_leaves_trim(x);
        }
        let before = pieces(a, ',').map_values(trim);
        assert(pieces(a, ',').push(spaced).map_values(trim) =~= before.push(x));
        assert(before.push(x).drop_last() =~= before);
        assert(before.push(x).filter(has_text()) == before.filter(has_text()).push(x));
        assert(rest.push(x) =~= list);
    }
}

/// A list that is separated by commas survives being shown and read again.
pub proof fn lists_survive_display(s: Seq<char>)
    ensures
        list_entries(joined(list_entries(s), ", "@)) == list_entries(s),
{
    lemma_entries(s);
    lemma_read_back(list_entries(s));
}

/// The texts of a list are seen one by one, as many as there are and each at its own place, and an
/// optional text is seen where there is one.
pub proof fn texts_are_seen_one_by_one(v: Seq<String>, o: Option<String>)
    ensures
        texts(v).len() == v.len(),
        forall|i: int| 0 <= i < v.len() ==> #[trigger] texts(v)[i] == v[i]@,
        o matches Some(s) ==> opt_text(o) == Some(s@),
        o is None ==> opt_text(o) is None,
{
}

/// Between the empty text and no text nothing is lost: an absent text shows as the empty one, a
/// present one as itself, and the empty text is read as absent.
pub proof fn absent_texts_show_as_empty(s: Seq<char>)
    ensures
        text_or_blank(Some(s)) == s,
        text_or_blank(None).len() == 0,
        s.len() > 0 ==> non_blank(s) == Some(s),
        s.len() == 0 ==> non_blank(s) is None,
{
}

/// Trimming takes white space and nothing else: the text is what was trimmed off before, what is
/// left, and what was trimmed off behind.
pub proof fn trimming_takes_white_space_only(s: Seq<char>) -> (cut: (int, int))
    ensures
        0 <= cut.0 <= cut.1 <= s.len(),
        trimmed(s) == s.subrange(cut.0, cut.1),
        is_trim(trimmed(s)),
        forall|i: int| 0 <= i < s.len() && (i < cut.0 || cut.1 <= i) ==> is_space_char(#[trigger] s[i]),
{
    lemma_trim_start_takes(s);
    let t = trim_start(s);
    lemma_trim_start(s);
    lemma_trim_end_takes(t);
    lemma_trim_end_keeps_first(t);
    let from = s.len() - t.len();
    let to = from + trimmed(s).len();
    assert(trimmed(s) =~= s.subrange(from, to));
    assert forall|i: int| 0 <= i < s.len() && (i < from || to <= i) implies is_space_char(
        #[trigger] s[i],
    ) by {
        if to <= i {
            assert(t[i - from] == s[i]);
        }
    }
    (from, to)
}

proof fn lemma_trim_start_takes(s: Seq<char>)
    ensures
        trim_start(s).len() <= s.len(),
        forall|i: int|
            0 <= i < s.len() - trim_start(s).len() ==> is_space_char(#[trigger] s[i]),
    decreases s.len(),
{
    if s.len() > 0 && is_space_char(s[0]) {
        let rest = s.drop_first();
        lemma_trim_start_takes(rest);
        assert forall|i: int| 0 <= i < s.len() - trim_start(s).len() implies is_space_char(
            #[trigger] s[i],
        ) by {
            if i > 0 {
                assert(rest[i - 1] == s[i]);
            }
        }
    }
}

proof fn lemma_trim_end_takes(s: Seq<char>)
    ensures
        trim_end(s).len() <= s.len(),
        forall|i: int| trim_end(s).len() <= i < s.len() ==> is_space_char(#[trigger] s[i]),
    decreases s.len(),
{
    if s.len() > 0 && is_space_char(s.last()) {
        let rest = s.drop_last();
        lemma_trim_end_takes(rest);
        assert forall|i: int| trim_end(s).len() <= i < s.len() implies is_space_char(
            #[trigger] s[i],
        ) by {
            if i < rest.len() {
                assert(rest[i] == s[i]);
            }
        }
    }
}

/// Control characters are dropped one by one, and no other character is, wherever it stands.
pub proof fn only_control_characters_are_dropped(a: Seq<char>, b: Seq<char>, c: char)
    ensures
        without_controls(a + b) == without_controls(a) + without_controls(b),
        is_control_char(c) ==> without_controls(seq![c]).len() == 0,
        !is_control_char(c) ==> without_controls(seq![c]) == seq![c],
        is_control_char(c) <==> (c as u32) < 32 || 127 <= (c as u32) < 160,
{
    let keep = |c: char| !is_control_char(c);
    crate::seqs::lemma_filter_adds(a, b, keep);
    crate::seqs::lemma_filter_one(c, keep);
}

/// Texts are joined in their order with the separator between each two of them, and nowhere else.
pub proof fn joining_puts_separators_between(
    parts: Seq<Seq<char>>,
    part: Seq<char>,
    separator: Seq<char>,
)
    ensures
        joined(Seq::empty(), separator).len() == 0,
        joined(seq![part], separator) == part,
        parts.len() > 0 ==> joined(parts.push(part), separator) == joined(parts, separator)
            + separator + part,
{
    assert(parts.push(part).drop_last() =~= parts);
}

/// Splitting loses nothing: the pieces of a text hold no separator, and put together again with
/// separators between them they are the text.
pub proof fn pieces_make_up_the_text(s: Seq<char>, separator: char)
    ensures
        pieces(s, separator).len() > 0,
        forall|i: int|
            0 <= i < pieces(s, separator).len() ==> lacks(
                #[trigger] pieces(s, separator)[i],
                separator,
            ),
        joined(pieces(s, separator), seq![separator]) == s,
    decreases s.len(),
{
    lemma_pieces_lack(s, separator);
    if s.len() == 0 {
        assert(s =~= blank());
    } else {
        let t = s.drop_last();
        pieces_make_up_the_text(t, separator);
        let head = pieces(t, separator);
        assert(t.push(s.last()) =~= s);
        if s.last() == separator {
            assert(head.push(blank()).drop_last() =~= head);
            assert(t + seq![separator] + blank() =~= s);
        } else {
            let grown = head.last().push(s.last());
            let all = head.drop_last().push(grown);
            assert(all.drop_last() =~= head.drop_last());
            if head.len() == 1 {
                assert(all =~= seq![grown]);
                assert(grown =~= s);
            } else {
                let front = joined(head.drop_last(), seq![separator]) + seq![separator];
                assert(front + grown =~= (front + head.last()).push(s.last()));
            }
        }
    }
}

proof fn lemma_pieces_add(a: Seq<char>, b: Seq<char>, separator: char)
    ensures
        pieces(a.push(separator) + b, separator) == pieces(a, separator) + pieces(b, separator),
    decreases b.len(),
{
    let s = a.push(separator) + b;
    if b.len() == 0 {
        assert(s =~= a.push(separator));
        assert(s.drop_last() =~= a);
        assert(pieces(a, separator).push(blank()) =~= pieces(a, separator) + seq![blank()]);
    } else {
        let c = b.drop_last();
        lemma_pieces_add(a, c, separator);
        lemma_pieces_lack(c, separator);
        assert(s.drop_last() =~= a.push(separator) + c);
        assert(s.last() == b.last());
        let x = pieces(a, separator);
        let y = pieces(c, separator);
        assert((x + y).push(blank()) =~= x + y.push(blank()));
        assert((x + y).drop_last().push((x + y).last().push(b.last())) =~= x + y.drop_last().push(
            y.last().push(b.last()),
        ));
    }
}

/// A list is read entry by entry: a comma parts it into two lists, and what has no comma in it is
/// one entry without the white space around it, or none where nothing else is there.
pub proof fn lists_are_read_entry_by_entry(a: Seq<char>, b: Seq<char>)
    ensures
        list_entries(a.push(',') + b) == list_entries(a) + list_entries(b),
        lacks(a, ',') && trimmed(a).len() > 0 ==> list_entries(a) == seq![trimmed(a)],
        lacks(a, ',') && trimmed(a).len() == 0 ==> list_entries(a).len() == 0,
{
    lemma_pieces_add(a, b, ',');
    let x = pieces(a, ',').map_values(trims());
    let y = pieces(b, ',').map_values(trims());
    assert((pieces(a, ',') + pieces(b, ',')).map_values(trims()) =~= x + y);
    crate::seqs::lemma_filter_adds(x, y, has_text());
    if lacks(a, ',') {
        lemma_one_piece(a, ',');
        assert(seq![a].map_values(trims()) =~= seq![trimmed(a)]);
        crate::seqs::lemma_filter_one(trimmed(a), has_text());
    }
}

/// A numeral is made of digits alone, and does not begin with a zero unless it is zero's own; a
/// negative number has a minus sign before its magnitude.
pub proof fn numerals_are_plain(n: nat)
    ensures
        forall|i: int| 0 <= i < decimal(n).len() ==> '0' <= #[trigger] decimal(n)[i] <= '9',
        n > 0 ==> decimal(n)[0] != '0',
        n == 0 ==> decimal(n) == seq!['0'],
        decimal_value(decimal(n)) == n,
        signed_decimal(n as int) == decimal(n),
        n > 0 ==> signed_decimal(-(n as int)) == seq!['-'] + decimal(n),
    decreases n,
{
    decimal_denotes(n);
    if n >= 10 {
        numerals_are_plain(n / 10);
        let front = decimal(n / 10);
        assert(decimal(n)[0] == front[0]);
        assert forall|i: int| 0 <= i < decimal(n).len() implies '0' <= #[trigger] decimal(n)[i]
            <= '9' by {
            if i < front.len() {
                assert(decimal(n)[i] == front[i]);
            }
        }
    }
}

/// White space and control characters are those of Unicode, by their numbers.
pub proof fn characters_are_told_apart(c: char)
    ensures
        is_space_char(c) <==> (9 <= c as u32 <= 13 || c as u32 == 32 || c as u32 == 133 || c as u32
            == 160 || c as u32 == 5760 || 8192 <= c as u32 <= 8202 || c as u32 == 8232 || c as u32
            == 8233 || c as u32 == 8239 || c as u32 == 8287 || c as u32 == 12288),
        is_control_char(c) <==> (c as u32 <= 31 || 127 <= c as u32 <= 159),
{
}

} // verus!
