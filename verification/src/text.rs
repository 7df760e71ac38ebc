//! Text as sequences of characters: case folding, trimming, splitting, decimal numbers, and the
//! conversions between `&str`, `Vec<char>` and `String` that the tuple code is written over.

use vstd::prelude::*;

verus! {

/// Whether a character is an ASCII decimal digit.
pub open spec fn is_digit(c: char) -> bool {
    '0' <= c && c <= '9'
}

/// The value of an ASCII decimal digit.
pub open spec fn digit_value(c: char) -> nat {
    if c == '1' {
        1
    } else if c == '2' {
        2
    } else if c == '3' {
        3
    } else if c == '4' {
        4
    } else if c == '5' {
        5
    } else if c == '6' {
        6
    } else if c == '7' {
        7
    } else if c == '8' {
        8
    } else if c == '9' {
        9
    } else {
        0
    }
}

/// The ASCII decimal digit of a value below ten.
pub open spec fn digit_char(d: nat) -> char {
    if d == 1 {
        '1'
    } else if d == 2 {
        '2'
    } else if d == 3 {
        '3'
    } else if d == 4 {
        '4'
    } else if d == 5 {
        '5'
    } else if d == 6 {
        '6'
    } else if d == 7 {
        '7'
    } else if d == 8 {
        '8'
    } else if d == 9 {
        '9'
    } else {
        '0'
    }
}

/// ASCII lowercase: `A` to `Z` become `a` to `z`, and every other character is unchanged.
pub open spec fn ascii_lower(c: char) -> char {
    if 'A' <= c && c <= 'Z' {
        ((c as u32) + 32) as char
    } else {
        c
    }
}

/// A sequence with every ASCII uppercase letter lowered.
pub open spec fn lower(s: Seq<char>) -> Seq<char> {
    Seq::new(s.len(), |i: int| ascii_lower(s[i]))
}

/// Whether a character has the Unicode `White_Space` property, which is what `str::trim`
/// removes.
pub open spec fn is_whitespace(c: char) -> bool {
    ||| ('\u{9}' <= c && c <= '\u{d}')
    ||| c == ' '
    ||| c == '\u{85}'
    ||| c == '\u{a0}'
    ||| c == '\u{1680}'
    ||| ('\u{2000}' <= c && c <= '\u{200a}')
    ||| c == '\u{2028}'
    ||| c == '\u{2029}'
    ||| c == '\u{202f}'
    ||| c == '\u{205f}'
    ||| c == '\u{3000}'
}

/// The sequence without its leading whitespace.
pub open spec fn trim_start(s: Seq<char>) -> Seq<char>
    decreases s.len(),
{
    if s.len() > 0 && is_whitespace(s[0]) {
        trim_start(s.drop_first())
    } else {
        s
    }
}

/// The sequence without its trailing whitespace.
pub open spec fn trim_end(s: Seq<char>) -> Seq<char>
    decreases s.len(),
{
    if s.len() > 0 && is_whitespace(s.last()) {
        trim_end(s.drop_last())
    } else {
        s
    }
}

/// The sequence without leading and trailing whitespace.
pub open spec fn trim(s: Seq<char>) -> Seq<char> {
    trim_end(trim_start(s))
}

/// The pieces of a sequence between occurrences of a separator, which is always at least one
/// piece: the empty sequence splits into one empty piece.
pub open spec fn split(s: Seq<char>, sep: char) -> Seq<Seq<char>>
    decreases s.len(),
{
    if s.len() == 0 {
        seq![Seq::<char>::empty()]
    } else if s[0] == sep {
        seq![Seq::<char>::empty()] + split(s.drop_first(), sep)
    } else {
        prefix_first(seq![s[0]], split(s.drop_first(), sep))
    }
}

/// A list of pieces with `p` put in front of the first one.
pub open spec fn prefix_first(p: Seq<char>, parts: Seq<Seq<char>>) -> Seq<Seq<char>> {
    parts.update(0, p + parts[0])
}

/// Whether `p` is where `s` starts.
pub open spec fn starts_with(s: Seq<char>, p: Seq<char>) -> bool {
    p.len() <= s.len() && s.take(p.len() as int) == p
}

/// Whether `p` is where `s` ends.
pub open spec fn ends_with(s: Seq<char>, p: Seq<char>) -> bool {
    p.len() <= s.len() && s.skip(s.len() - p.len()) == p
}

/// Whether every character is an ASCII decimal digit.
pub open spec fn all_digits(s: Seq<char>) -> bool {
    forall|i: int| 0 <= i < s.len() ==> is_digit(#[trigger] s[i])
}

/// The value of a run of decimal digits, most significant first.
pub open spec fn digits_value(s: Seq<char>) -> nat
    decreases s.len(),
{
    if s.len() == 0 {
        0
    } else {
        digits_value(s.drop_last()) * 10 + digit_value(s.last())
    }
}

/// What `u32::from_str` reads: an optional `+`, then one or more decimal digits whose value
/// fits in 32 bits.
pub open spec fn parse_u32(s: Seq<char>) -> Option<u32> {
    let d = if s.len() > 0 && s[0] == '+' {
        s.drop_first()
    } else {
        s
    };
    if d.len() > 0 && all_digits(d) && digits_value(d) <= u32::MAX {
        Some(digits_value(d) as u32)
    } else {
        None
    }
}

/// The decimal spelling of a number, with no leading zeros.
pub open spec fn dec(n: nat) -> Seq<char>
    decreases n,
{
    if n < 10 {
        seq![digit_char(n)]
    } else {
        dec(n / 10).push(digit_char(n % 10))
    }
}

/// The empty sequence splits into one piece, and so does everything else: a split is never
/// empty.
pub proof fn lemma_split_nonempty(s: Seq<char>, sep: char)
    ensures
        split(s, sep).len() >= 1,
    decreases s.len(),
{
    if s.len() > 0 {
        lemma_split_nonempty(s.drop_first(), sep);
    }
}

/// The digits of a number are digits, and read back as the number.
pub proof fn lemma_dec(n: nat)
    ensures
        dec(n).len() >= 1,
        all_digits(dec(n)),
        digits_value(dec(n)) == n,
        dec(n)[0] != '+',
        !dec(n).contains('.'),
        !dec(n).contains('-'),
    decreases n,
{
    if n >= 10 {
        lemma_dec(n / 10);
        let d = dec(n);
        assert(d.drop_last() =~= dec(n / 10));
        assert(d.last() == digit_char(n % 10));
        assert(digit_value(digit_char(n % 10)) == n % 10);
        assert((n / 10) * 10 + n % 10 == n) by (nonlinear_arith);
        assert forall|i: int| 0 <= i < d.len() implies is_digit(#[trigger] d[i]) by {
            if i < d.len() - 1 {
                assert(d[i] == dec(n / 10)[i]);
            }
        }
        assert(d[0] == dec(n / 10)[0]);
        if d.contains('.') {
            let i = choose|i: int| 0 <= i < d.len() && d[i] == '.';
            assert(is_digit(d[i]));
        }
        if d.contains('-') {
            let i = choose|i: int| 0 <= i < d.len() && d[i] == '-';
            assert(is_digit(d[i]));
        }
    } else {
        let d = dec(n);
        assert(d.drop_last() =~= Seq::<char>::empty());
        assert(digits_value(Seq::<char>::empty()) == 0);
        assert(digits_value(d) == digit_value(digit_char(n)));
        if d.contains('.') {
            let i = choose|i: int| 0 <= i < d.len() && d[i] == '.';
            assert(i == 0);
        }
        if d.contains('-') {
            let i = choose|i: int| 0 <= i < d.len() && d[i] == '-';
            assert(i == 0);
        }
    }
}

/// Reading the decimal spelling of a 32-bit number gives the number back.
pub proof fn lemma_parse_dec(n: u32)
    ensures
        parse_u32(dec(n as nat)) == Some(n),
{
    lemma_dec(n as nat);
}

/// Whether a character can appear in a canonical spelling: a lowercase ASCII letter, a digit,
/// a dot or an underscore.
pub open spec fn spelling_char(c: char) -> bool {
    ('a' <= c && c <= 'z') || is_digit(c) || c == '.' || c == '_'
}

/// Whether every character can appear in a canonical spelling.
pub open spec fn spelled(s: Seq<char>) -> bool {
    forall|i: int| 0 <= i < s.len() ==> spelling_char(#[trigger] s[i])
}

/// Two spelled sequences make a spelled sequence.
pub proof fn lemma_spelled_concat(a: Seq<char>, b: Seq<char>)
    requires
        spelled(a),
        spelled(b),
    ensures
        spelled(a + b),
{
    assert forall|i: int| 0 <= i < (a + b).len() implies spelling_char(#[trigger] (a + b)[i]) by {
        if i < a.len() {
            assert((a + b)[i] == a[i]);
        } else {
            assert((a + b)[i] == b[i - a.len()]);
        }
    }
}

/// The digits of a number are spelled.
pub proof fn lemma_dec_spelled(n: nat)
    ensures
        spelled(dec(n)),
{
    lemma_dec(n);
    assert forall|i: int| 0 <= i < dec(n).len() implies spelling_char(#[trigger] dec(n)[i]) by {
        assert(is_digit(dec(n)[i]));
    }
}

/// Lowering a spelled sequence changes nothing.
pub proof fn lemma_lower_spelled(s: Seq<char>)
    requires
        spelled(s),
    ensures
        lower(s) == s,
{
    assert forall|i: int| 0 <= i < s.len() implies #[trigger] lower(s)[i] == s[i] by {
        assert(spelling_char(s[i]));
    }
    assert(lower(s) =~= s);
}

/// Trimming a sequence that neither starts nor ends with whitespace changes nothing.
pub proof fn lemma_trim_unchanged(s: Seq<char>)
    requires
        s.len() > 0 ==> !is_whitespace(s[0]) && !is_whitespace(s.last()),
    ensures
        trim(s) == s,
{
    assert(trim_start(s) == s);
    assert(trim_end(s) == s);
}

/// A sequence without the separator splits into itself.
pub proof fn lemma_split_whole(a: Seq<char>, sep: char)
    requires
        !a.contains(sep),
    ensures
        split(a, sep) == seq![a],
    decreases a.len(),
{
    if a.len() > 0 {
        assert(a[0] != sep);
        assert(!a.drop_first().contains(sep)) by {
            if a.drop_first().contains(sep) {
                let i = choose|i: int| 0 <= i < a.drop_first().len() && a.drop_first()[i] == sep;
                assert(a[i + 1] == sep);
            }
        }
        lemma_split_whole(a.drop_first(), sep);
        assert(seq![a[0]] + a.drop_first() =~= a);
        assert(prefix_first(seq![a[0]], seq![a.drop_first()]) =~= seq![a]);
    } else {
        assert(a =~= Seq::<char>::empty());
    }
}

/// A piece without the separator, then the separator, splits into the piece and the rest.
pub proof fn lemma_split_concat(a: Seq<char>, sep: char, b: Seq<char>)
    requires
        !a.contains(sep),
    ensures
        split(a + seq![sep] + b, sep) == seq![a] + split(b, sep),
    decreases a.len(),
{
    let s = a + seq![sep] + b;
    if a.len() > 0 {
        assert(a[0] != sep);
        assert(!a.drop_first().contains(sep)) by {
            if a.drop_first().contains(sep) {
                let i = choose|i: int| 0 <= i < a.drop_first().len() && a.drop_first()[i] == sep;
                assert(a[i + 1] == sep);
            }
        }
        lemma_split_concat(a.drop_first(), sep, b);
        assert(s.drop_first() =~= a.drop_first() + seq![sep] + b);
        assert(s[0] == a[0]);
        assert(seq![a[0]] + a.drop_first() =~= a);
        assert(prefix_first(seq![a[0]], seq![a.drop_first()] + split(b, sep)) =~= seq![a] + split(
            b,
            sep,
        ));
    } else {
        assert(s.drop_first() =~= b);
        assert(a =~= Seq::<char>::empty());
    }
}

/// A spelled sequence holds no dash.
pub proof fn lemma_spelled_no_dash(s: Seq<char>)
    requires
        spelled(s),
    ensures
        !s.contains('-'),
{
    if s.contains('-') {
        let i = choose|i: int| 0 <= i < s.len() && s[i] == '-';
        assert(spelling_char(s[i]));
    }
}

/// A number's digits hold no dot, so they split at dots into themselves.
pub proof fn lemma_split_dec(n: nat)
    ensures
        split(dec(n), '.') == seq![dec(n)],
{
    lemma_dec(n);
    lemma_split_whole(dec(n), '.');
}

/// The lowered character of a character.
pub fn lower_char(c: char) -> (r: char)
    ensures
        r == ascii_lower(c),
{
    if c >= 'A' && c <= 'Z' {
        let b: u8 = c as u8;
        (b + 32) as char
    } else {
        c
    }
}

/// Whether a character has the Unicode `White_Space` property.
pub fn char_is_whitespace(c: char) -> (r: bool)
    ensures
        r == is_whitespace(c),
{
    (c >= '\u{9}' && c <= '\u{d}') || c == ' ' || c == '\u{85}' || c == '\u{a0}' || c
        == '\u{1680}' || (c >= '\u{2000}' && c <= '\u{200a}') || c == '\u{2028}' || c
        == '\u{2029}' || c == '\u{202f}' || c == '\u{205f}' || c == '\u{3000}'
}

/// Whether a character is an ASCII decimal digit.
pub fn char_is_digit(c: char) -> (r: bool)
    ensures
        r == is_digit(c),
{
    c >= '0' && c <= '9'
}

/// The characters of a string slice.
pub fn chars_of(s: &str) -> (r: Vec<char>)
    ensures
        r@ == s@,
{
    let n = s.unicode_len();
    let mut r: Vec<char> = Vec::new();
    let mut i: usize = 0;
    while i < n
        invariant
            n == s@.len(),
            i <= n,
            r@ == s@.take(i as int),
        decreases n - i,
    {
        r.push(s.get_char(i));
        i = i + 1;
        assert(r@ =~= s@.take(i as int));
    }
    assert(r@ =~= s@);
    r
}

/// Append the characters of a string slice.
pub fn push_str(v: &mut Vec<char>, s: &str)
    ensures
        final(v)@ == old(v)@ + s@,
{
    let n = s.unicode_len();
    let mut i: usize = 0;
    while i < n
        invariant
            n == s@.len(),
            i <= n,
            v@ == old(v)@ + s@.take(i as int),
        decreases n - i,
    {
        v.push(s.get_char(i));
        i = i + 1;
        assert(v@ =~= old(v)@ + s@.take(i as int));
    }
    assert(s@.take(n as int) =~= s@);
}

/// Append a sequence of characters.
pub fn push_chars(v: &mut Vec<char>, s: &Vec<char>)
    ensures
        final(v)@ == old(v)@ + s@,
{
    let mut i: usize = 0;
    while i < s.len()
        invariant
            i <= s@.len(),
            v@ == old(v)@ + s@.take(i as int),
        decreases s@.len() - i,
    {
        v.push(s[i]);
        i = i + 1;
        assert(v@ =~= old(v)@ + s@.take(i as int));
    }
    assert(s@.take(s@.len() as int) =~= s@);
}

/// Whether a sequence of characters spells the string slice.
pub fn chars_eq(a: &Vec<char>, s: &str) -> (r: bool)
    ensures
        r == (a@ == s@),
{
    let n = s.unicode_len();
    if a.len() != n {
        return false;
    }
    let mut i: usize = 0;
    while i < n
        invariant
            n == s@.len(),
            n == a@.len(),
            i <= n,
            a@.take(i as int) == s@.take(i as int),
        decreases n - i,
    {
        if a[i] != s.get_char(i) {
            assert(a@[i as int] != s@[i as int]);
            return false;
        }
        i = i + 1;
        assert(a@.take(i as int) =~= s@.take(i as int));
    }
    assert(a@ =~= a@.take(n as int));
    assert(s@ =~= s@.take(n as int));
    true
}

/// Whether the sequence starts with the string slice.
pub fn chars_starts_with(a: &Vec<char>, p: &str) -> (r: bool)
    ensures
        r == starts_with(a@, p@),
{
    let n = p.unicode_len();
    if a.len() < n {
        return false;
    }
    let mut i: usize = 0;
    while i < n
        invariant
            n == p@.len(),
            n <= a@.len(),
            i <= n,
            a@.take(i as int) == p@.take(i as int),
        decreases n - i,
    {
        if a[i] != p.get_char(i) {
            assert(a@.take(n as int)[i as int] != p@[i as int]);
            return false;
        }
        i = i + 1;
        assert(a@.take(i as int) =~= p@.take(i as int));
    }
    assert(p@ =~= p@.take(n as int));
    true
}

/// Whether the sequence ends with the string slice.
pub fn chars_ends_with(a: &Vec<char>, p: &str) -> (r: bool)
    ensures
        r == ends_with(a@, p@),
{
    let n = p.unicode_len();
    if a.len() < n {
        return false;
    }
    let off = a.len() - n;
    let mut i: usize = 0;
    while i < n
        invariant
            n == p@.len(),
            off + n == a@.len(),
            off + n == a.len(),
            i <= n,
            a@.skip(off as int).take(i as int) == p@.take(i as int),
        decreases n - i,
    {
        if a[off + i] != p.get_char(i) {
            assert(a@.skip(off as int)[i as int] != p@[i as int]);
            return false;
        }
        i = i + 1;
        assert(a@.skip(off as int).take(i as int) =~= p@.take(i as int));
    }
    assert(p@ =~= p@.take(n as int));
    assert(a@.skip(off as int) =~= a@.skip(off as int).take(n as int));
    true
}

/// The characters from `from` up to `to`.
pub fn slice_chars(a: &Vec<char>, from: usize, to: usize) -> (r: Vec<char>)
    requires
        from <= to <= a@.len(),
    ensures
        r@ == a@.subrange(from as int, to as int),
{
    let mut r: Vec<char> = Vec::new();
    let mut i: usize = from;
    while i < to
        invariant
            from <= i <= to,
            to <= a@.len(),
            r@ == a@.subrange(from as int, i as int),
        decreases to - i,
    {
        r.push(a[i]);
        i = i + 1;
        assert(r@ =~= a@.subrange(from as int, i as int));
    }
    r
}

/// The sequence with every ASCII uppercase letter lowered.
pub fn lower_chars(a: &Vec<char>) -> (r: Vec<char>)
    ensures
        r@ == lower(a@),
{
    let mut r: Vec<char> = Vec::new();
    let mut i: usize = 0;
    while i < a.len()
        invariant
            i <= a@.len(),
            r@ == lower(a@.take(i as int)),
        decreases a@.len() - i,
    {
        r.push(lower_char(a[i]));
        i = i + 1;
        assert(r@ =~= lower(a@.take(i as int)));
    }
    assert(a@.take(a@.len() as int) =~= a@);
    r
}

/// Dropping leading whitespace one character at a time reaches the first non-whitespace
/// character.
proof fn lemma_trim_start_skip(s: Seq<char>, i: int)
    requires
        0 <= i <= s.len(),
        forall|j: int| 0 <= j < i ==> is_whitespace(#[trigger] s[j]),
    ensures
        trim_start(s) == trim_start(s.skip(i)),
    decreases i,
{
    if i > 0 {
        assert(s.skip(1) =~= s.drop_first());
        lemma_trim_start_skip(s.drop_first(), i - 1);
        assert(s.drop_first().skip(i - 1) =~= s.skip(i));
    } else {
        assert(s.skip(0) =~= s);
    }
}

/// Dropping trailing whitespace one character at a time reaches the last non-whitespace
/// character.
proof fn lemma_trim_end_take(s: Seq<char>, i: int)
    requires
        0 <= i <= s.len(),
        forall|j: int| i <= j < s.len() ==> is_whitespace(#[trigger] s[j]),
    ensures
        trim_end(s) == trim_end(s.take(i)),
    decreases s.len() - i,
{
    if i < s.len() {
        assert(s.take(s.len() - 1) =~= s.drop_last());
        lemma_trim_end_take(s.drop_last(), i);
        assert(s.drop_last().take(i) =~= s.take(i));
    } else {
        assert(s.take(i) =~= s);
    }
}

/// The sequence without its leading whitespace.
pub fn trim_start_chars(a: &Vec<char>) -> (r: Vec<char>)
    ensures
        r@ == trim_start(a@),
{
    let n = a.len();
    let mut start: usize = 0;
    while start < n && char_is_whitespace(a[start])
        invariant
            n == a@.len(),
            start <= n,
            forall|j: int| 0 <= j < start ==> is_whitespace(#[trigger] a@[j]),
        decreases n - start,
    {
        start = start + 1;
    }
    proof {
        lemma_trim_start_skip(a@, start as int);
        assert(a@.skip(start as int) =~= a@.subrange(start as int, n as int));
    }
    slice_chars(a, start, n)
}

/// Whether a character occurs in a sequence.
pub fn chars_contains(a: &Vec<char>, c: char) -> (r: bool)
    ensures
        r == a@.contains(c),
{
    let mut i: usize = 0;
    while i < a.len()
        invariant
            i <= a@.len(),
            forall|j: int| 0 <= j < i ==> #[trigger] a@[j] != c,
        decreases a@.len() - i,
    {
        if a[i] == c {
            return true;
        }
        i = i + 1;
    }
    false
}

/// The sequence without its trailing whitespace.
pub fn trim_end_chars(a: &Vec<char>) -> (r: Vec<char>)
    ensures
        r@ == trim_end(a@),
{
    let n = a.len();
    let mut end: usize = n;
    while end > 0 && char_is_whitespace(a[end - 1])
        invariant
            n == a@.len(),
            end <= n,
            forall|j: int| end <= j < n ==> is_whitespace(#[trigger] a@[j]),
        decreases end,
    {
        end = end - 1;
    }
    proof {
        lemma_trim_end_take(a@, end as int);
        assert(a@.take(end as int) =~= a@.subrange(0, end as int));
        if end > 0 {
            assert(a@.take(end as int).last() == a@[end - 1]);
        }
    }
    slice_chars(a, 0, end)
}

/// The sequence without leading and trailing whitespace.
pub fn trim_chars(a: &Vec<char>) -> (r: Vec<char>)
    ensures
        r@ == trim(a@),
{
    let n = a.len();
    let mut start: usize = 0;
    while start < n && char_is_whitespace(a[start])
        invariant
            n == a@.len(),
            start <= n,
            forall|j: int| 0 <= j < start ==> is_whitespace(#[trigger] a@[j]),
        decreases n - start,
    {
        start = start + 1;
    }
    proof {
        lemma_trim_start_skip(a@, start as int);
    }
    let mut end: usize = n;
    while end > start && char_is_whitespace(a[end - 1])
        invariant
            n == a@.len(),
            start <= end <= n,
            forall|j: int| end <= j < n ==> is_whitespace(#[trigger] a@[j]),
        decreases end,
    {
        end = end - 1;
    }
    let ghost rest = a@.skip(start as int);
    proof {
        assert(trim_start(rest) == rest);
        assert forall|j: int| end - start <= j < rest.len() implies is_whitespace(
            #[trigger] rest[j],
        ) by {
            assert(rest[j] == a@[j + start]);
        }
        lemma_trim_end_take(rest, end - start);
        assert(rest.take(end - start) =~= a@.subrange(start as int, end as int));
    }
    slice_chars(a, start, end)
}

/// Splitting a sequence that starts with a piece free of separators puts that piece in front of
/// the first piece of the rest.
proof fn lemma_split_step(s: Seq<char>, i: int, sep: char)
    requires
        0 <= i < s.len(),
    ensures
        s[i] == sep ==> split(s.skip(i), sep) == seq![Seq::<char>::empty()] + split(
            s.skip(i + 1),
            sep,
        ),
        s[i] != sep ==> split(s.skip(i), sep) == prefix_first(seq![s[i]], split(s.skip(i + 1), sep)),
{
    assert(s.skip(i).drop_first() =~= s.skip(i + 1));
    assert(s.skip(i)[0] == s[i]);
}

/// The pieces of a sequence between occurrences of a separator.
pub fn split_chars(a: &Vec<char>, sep: char) -> (r: Vec<Vec<char>>)
    ensures
        r@.len() == split(a@, sep).len(),
        forall|k: int| 0 <= k < r@.len() ==> #[trigger] r@[k]@ == split(a@, sep)[k],
{
    let n = a.len();
    let mut parts: Vec<Vec<char>> = Vec::new();
    let mut cur: Vec<char> = Vec::new();
    let mut i: usize = 0;
    proof {
        assert(a@.skip(0) =~= a@);
        lemma_split_nonempty(a@, sep);
        assert(prefix_first(cur@, split(a@, sep)) =~= split(a@, sep));
    }
    while i < n
        invariant
            n == a@.len(),
            i <= n,
            split(a@, sep) == parts@.map_values(|p: Vec<char>| p@) + prefix_first(
                cur@,
                split(a@.skip(i as int), sep),
            ),
        decreases n - i,
    {
        let ghost tail = split(a@.skip(i as int + 1), sep);
        proof {
            lemma_split_step(a@, i as int, sep);
            lemma_split_nonempty(a@.skip(i as int + 1), sep);
        }
        if a[i] == sep {
            let ghost old_parts = parts@.map_values(|p: Vec<char>| p@);
            let ghost old_cur = cur@;
            let done = cur;
            parts.push(done);
            cur = Vec::new();
            proof {
                assert(parts@.map_values(|p: Vec<char>| p@) =~= old_parts.push(old_cur));
                assert(prefix_first(cur@, tail) =~= tail);
                assert(prefix_first(old_cur, seq![Seq::<char>::empty()] + tail) =~= seq![old_cur]
                    + tail);
                assert(old_parts + (seq![old_cur] + tail) =~= old_parts.push(old_cur) + tail);
            }
        } else {
            let ghost old_cur = cur@;
            cur.push(a[i]);
            proof {
                assert(cur@ =~= old_cur + seq![a@[i as int]]);
                assert(old_cur + (seq![a@[i as int]] + tail[0]) =~= cur@ + tail[0]);
                assert(prefix_first(old_cur, prefix_first(seq![a@[i as int]], tail))
                    =~= prefix_first(cur@, tail));
            }
        }
        i = i + 1;
    }
    proof {
        assert(a@.skip(n as int) =~= Seq::<char>::empty());
        assert(prefix_first(cur@, seq![Seq::<char>::empty()]) =~= seq![cur@]);
    }
    let ghost before = parts@.map_values(|p: Vec<char>| p@);
    parts.push(cur);
    proof {
        assert(parts@.map_values(|p: Vec<char>| p@) =~= before + seq![
            parts@[parts@.len() - 1]@,
        ]);
        assert forall|k: int| 0 <= k < parts@.len() implies #[trigger] parts@[k]@ == split(
            a@,
            sep,
        )[k] by {
            assert(parts@.map_values(|p: Vec<char>| p@)[k] == parts@[k]@);
        }
    }
    parts
}

/// Append the decimal spelling of a number.
pub fn push_dec(v: &mut Vec<char>, n: u32)
    ensures
        final(v)@ == old(v)@ + dec(n as nat),
    decreases n,
{
    if n >= 10 {
        push_dec(v, n / 10);
    }
    v.push(digit_to_char(n % 10));
    proof {
        if n >= 10 {
            assert(dec(n as nat) == dec((n / 10) as nat).push(digit_char((n % 10) as nat)));
        }
    }
    assert(final(v)@ =~= old(v)@ + dec(n as nat)) by {
        if n < 10 {
            assert(dec(n as nat) =~= seq![digit_char(n as nat)]);
        }
    }
}

/// The value of a prefix of digits never exceeds the value of the whole run.
proof fn lemma_digits_value_take(s: Seq<char>, i: int)
    requires
        0 <= i <= s.len(),
    ensures
        digits_value(s.take(i)) <= digits_value(s),
    decreases s.len() - i,
{
    if i < s.len() {
        lemma_digits_value_take(s.drop_last(), i);
        assert(s.drop_last().take(i) =~= s.take(i));
    } else {
        assert(s.take(i) =~= s);
    }
}

/// What `u32::from_str` reads from a sequence of characters.
pub fn parse_u32_chars(a: &Vec<char>) -> (r: Option<u32>)
    ensures
        r == parse_u32(a@),
{
    let n = a.len();
    let start: usize = if n > 0 && a[0] == '+' {
        1
    } else {
        0
    };
    let ghost d = if a@.len() > 0 && a@[0] == '+' {
        a@.drop_first()
    } else {
        a@
    };
    assert(d =~= a@.skip(start as int));
    if start == n {
        return None;
    }
    let mut value: u64 = 0;
    let mut i: usize = start;
    while i < n
        invariant
            start <= i <= n,
            n == a@.len(),
            d == a@.skip(start as int),
            d == (if a@.len() > 0 && a@[0] == '+' {
                a@.drop_first()
            } else {
                a@
            }),
            d.len() > 0,
            all_digits(a@.subrange(start as int, i as int)),
            value == digits_value(a@.subrange(start as int, i as int)),
            value <= u32::MAX,
        decreases n - i,
    {
        let c = a[i];
        if !char_is_digit(c) {
            assert(d[i - start] == c);
            assert(!all_digits(d));
            assert(parse_u32(a@) is None);
            return None;
        }
        let dv: u64 = char_to_digit(c) as u64;
        let ghost pre = a@.subrange(start as int, i as int);
        let ghost next = a@.subrange(start as int, i as int + 1);
        assert(next.drop_last() =~= pre);
        assert(next.last() == c);
        value = value * 10 + dv;
        i = i + 1;
        assert(all_digits(next)) by {
            assert forall|k: int| 0 <= k < next.len() implies is_digit(#[trigger] next[k]) by {
                if k < pre.len() {
                    assert(next[k] == pre[k]);
                }
            }
        }
        if value > 0xffff_ffff {
            proof {
                assert(d.take(i - start) =~= next);
                lemma_digits_value_take(d, i - start);
                assert(digits_value(d) > u32::MAX);
                assert(parse_u32(a@) is None);
            }
            return None;
        }
    }
    assert(d =~= a@.subrange(start as int, n as int));
    Some(value as u32)
}

/// The ASCII decimal digit of a value below ten.
pub fn digit_to_char(d: u32) -> (c: char)
    requires
        d < 10,
    ensures
        c == digit_char(d as nat),
{
    if d == 1 {
        '1'
    } else if d == 2 {
        '2'
    } else if d == 3 {
        '3'
    } else if d == 4 {
        '4'
    } else if d == 5 {
        '5'
    } else if d == 6 {
        '6'
    } else if d == 7 {
        '7'
    } else if d == 8 {
        '8'
    } else if d == 9 {
        '9'
    } else {
        '0'
    }
}

/// The value of an ASCII decimal digit.
pub fn char_to_digit(c: char) -> (d: u32)
    ensures
        d == digit_value(c),
        d < 10,
{
    if c == '1' {
        1
    } else if c == '2' {
        2
    } else if c == '3' {
        3
    } else if c == '4' {
        4
    } else if c == '5' {
        5
    } else if c == '6' {
        6
    } else if c == '7' {
        7
    } else if c == '8' {
        8
    } else if c == '9' {
        9
    } else {
        0
    }
}

/// A `String` holding these characters.
pub fn string_of(v: &Vec<char>) -> (s: String)
    ensures
        s@ == v@,
{
    let mut s = String::new();
    let mut i: usize = 0;
    while i < v.len()
        invariant
            i <= v@.len(),
            s@ == v@.take(i as int),
        decreases v@.len() - i,
    {
        push_char(&mut s, v[i]);
        i = i + 1;
        assert(s@ =~= v@.take(i as int));
    }
    assert(v@.take(v@.len() as int) =~= v@);
    s
}

/// `String::push`, which appends one character to the end of the string.
#[verifier::external_body]
fn push_char(s: &mut String, c: char)
    ensures
        final(s)@ == old(s)@.push(c),
{
    s.push(c)
}

} // verus!
