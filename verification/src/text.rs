//! Text operations used by the extraction rules, each specified over `Seq<char>`.

use vstd::prelude::*;

verus! {

/// `String::push` appends one character to the end of the string.
pub assume_specification[ String::push ](s: &mut String, ch: char)
    ensures
        final(s)@ == old(s)@.push(ch),
;

/// `str == str` holds exactly when both hold the same characters in the same order.
pub assume_specification[ <str as PartialEq>::eq ](a: &str, b: &str) -> (same: bool)
    ensures
        same == (a@ == b@),
;

/// What `str::to_lowercase` makes of a text: its lower-case form under the Unicode case
/// mappings that the standard library carries.
pub uninterp spec fn lowercase_of(s: Seq<char>) -> Seq<char>;

/// Calls `str::to_lowercase`. The lower-case form depends on the characters of `s` alone.
#[verifier::external_body]
pub(crate) fn lowercase(s: &str) -> (low: String)
    ensures
        low@ == lowercase_of(s@),
{
    s.to_lowercase()
}

/// The characters of `s`, one element each.
pub(crate) fn chars_of(s: &str) -> (chars: Vec<char>)
    ensures
        chars@ == s@,
{
    let mut chars: Vec<char> = Vec::new();
    for c in it: s.chars()
        invariant
            it.seq() == s@,
            chars@ == s@.take(it.index() as int),
    {
        chars.push(c);
    }
    chars
}

/// The text made of `chars[from..to]`.
pub(crate) fn text_of(chars: &Vec<char>, from: usize, to: usize) -> (s: String)
    requires
        from <= to <= chars.len(),
    ensures
        s@ == chars@.subrange(from as int, to as int),
{
    let mut s = String::new();
    let mut i: usize = from;
    while i < to
        invariant
            from <= i <= to <= chars.len(),
            s@ == chars@.subrange(from as int, i as int),
        decreases to - i,
    {
        s.push(chars[i]);
        i += 1;
    }
    s
}

/// `a` followed by `b`.
pub fn concat(a: &str, b: &str) -> (out: String)
    ensures
        out@ == a@ + b@,
{
    let mut out = String::from_str(a);
    out.append(b);
    out
}

/// Number of characters of `s` that stand before its first `sep`; the whole length where
/// `s` holds no `sep`.
pub open spec fn first_sep(s: Seq<char>, sep: char) -> nat
    decreases s.len(),
{
    if s.len() == 0 || s[0] == sep {
        0
    } else {
        1 + first_sep(s.drop_first(), sep)
    }
}

/// The pieces of `s` between occurrences of `sep`: always at least one piece, and an empty
/// piece wherever two separators touch or one stands at an end.
pub open spec fn pieces(s: Seq<char>, sep: char) -> Seq<Seq<char>>
    decreases s.len(),
{
    let n = first_sep(s, sep);
    if n >= s.len() {
        seq![s]
    } else {
        seq![s.take(n as int)] + pieces(s.skip(n as int + 1), sep)
    }
}

/// `first_sep` is the one position that has no separator before it and either a separator
/// at it or the end of the text.
pub proof fn lemma_first_sep(s: Seq<char>, sep: char, n: int)
    requires
        0 <= n <= s.len(),
        forall|k: int| 0 <= k < n ==> s[k] != sep,
        n == s.len() || s[n] == sep,
    ensures
        first_sep(s, sep) == n,
    decreases n,
{
    if n > 0 {
        lemma_first_sep(s.drop_first(), sep, n - 1);
    }
}

/// Splits `s` at every `sep`.
pub fn split(s: &str, sep: char) -> (parts: Vec<String>)
    ensures
        parts.deep_view() == pieces(s@, sep),
{
    let chars = chars_of(s);
    let mut parts: Vec<String> = Vec::new();
    let mut start: usize = 0;
    let mut i: usize = 0;
    proof {
        assert(s@.skip(0) == s@);
        assert(parts.deep_view() + pieces(s@, sep) == pieces(s@, sep));
    }
    while i < chars.len()
        invariant
            chars@ == s@,
            0 <= start <= i <= chars.len(),
            forall|k: int| start <= k < i ==> chars[k] != sep,
            pieces(s@, sep) == parts.deep_view() + pieces(s@.skip(start as int), sep),
        decreases chars.len() - i,
    {
        if chars[i] == sep {
            let piece = text_of(&chars, start, i);
            proof {
                let rest = s@.skip(start as int);
                lemma_first_sep(rest, sep, i - start);
                assert(rest.take(i - start) == s@.subrange(start as int, i as int));
                assert(rest.skip(i - start + 1) == s@.skip(i + 1));
                assert(parts.deep_view().push(piece@) + pieces(s@.skip(i + 1), sep)
                    == parts.deep_view() + pieces(rest, sep));
            }
            let ghost before = parts.deep_view();
            parts.push(piece);
            assert(parts.deep_view() == before.push(piece@));
            start = i + 1;
        }
        i += 1;
    }
    let piece = text_of(&chars, start, i);
    proof {
        let rest = s@.skip(start as int);
        lemma_first_sep(rest, sep, i - start);
        assert(piece@ == rest);
    }
    let ghost before = parts.deep_view();
    parts.push(piece);
    assert(parts.deep_view() == before.push(piece@));
    parts
}

/// Piece number `k` of `s` split at every `sep`, counted from 0; absent where the split
/// gives fewer pieces.
pub open spec fn segment(s: Seq<char>, sep: char, k: int) -> Option<Seq<char>> {
    let parts = pieces(s, sep);
    if 0 <= k < parts.len() {
        Some(parts[k])
    } else {
        None
    }
}

/// The last piece of `s` split at every `sep`; absent where `s` holds no `sep`.
pub open spec fn trailing_segment(s: Seq<char>, sep: char) -> Option<Seq<char>> {
    let parts = pieces(s, sep);
    if parts.len() > 1 {
        Some(parts.last())
    } else {
        None
    }
}

/// Piece number `k` of `s` split at every `sep`, counted from 0.
pub fn nth_segment(s: &str, sep: char, k: usize) -> (piece: Option<String>)
    ensures
        piece.deep_view() == segment(s@, sep, k as int),
{
    let parts = split(s, sep);
    if k < parts.len() {
        assert(parts.deep_view()[k as int] == parts[k as int]@);
        Some(parts[k].clone())
    } else {
        None
    }
}

/// The last piece of `s` split at every `sep`, where `s` holds a `sep`.
pub fn last_segment(s: &str, sep: char) -> (piece: Option<String>)
    ensures
        piece.deep_view() == trailing_segment(s@, sep),
{
    let parts = split(s, sep);
    if parts.len() > 1 {
        let k: usize = parts.len() - 1;
        assert(parts.deep_view()[k as int] == parts[k as int]@);
        Some(parts[k].clone())
    } else {
        None
    }
}

/// The part of `s` before its first `sep`; all of `s` where it holds no `sep`.
pub open spec fn before_first(s: Seq<char>, sep: char) -> Seq<char> {
    s.take(first_sep(s, sep) as int)
}

/// Cuts `s` off at its first `sep`.
pub fn take_before(s: &str, sep: char) -> (head: String)
    ensures
        head@ == before_first(s@, sep),
{
    let chars = chars_of(s);
    let mut i: usize = 0;
    while i < chars.len() && chars[i] != sep
        invariant
            0 <= i <= chars.len(),
            forall|k: int| 0 <= k < i ==> chars[k] != sep,
        decreases chars.len() - i,
    {
        i += 1;
    }
    proof {
        lemma_first_sep(s@, sep, i as int);
    }
    text_of(&chars, 0, i)
}

/// Which characters count as white space between words.
#[derive(Clone, Copy, Debug, PartialEq, Eq, Structural)]
pub enum Spacing {
    /// Space, tab, line feed, form feed and carriage return.
    Ascii,
    /// Every character with the Unicode property `White_Space`.
    Unicode,
}

/// Space, tab, line feed, form feed or carriage return.
pub open spec fn is_ascii_blank(c: char) -> bool {
    c == ' ' || c == '\t' || c == '\n' || c == '\x0C' || c == '\r'
}

/// The characters that carry the Unicode property `White_Space`.
pub open spec fn is_unicode_blank(c: char) -> bool {
    let n = c as u32;
    ||| 0x09 <= n <= 0x0D
    ||| n == 0x20
    ||| n == 0x85
    ||| n == 0xA0
    ||| n == 0x1680
    ||| 0x2000 <= n <= 0x200A
    ||| n == 0x2028
    ||| n == 0x2029
    ||| n == 0x202F
    ||| n == 0x205F
    ||| n == 0x3000
}

/// Whether `c` separates words under `spacing`.
pub open spec fn is_blank(c: char, spacing: Spacing) -> bool {
    match spacing {
        Spacing::Ascii => is_ascii_blank(c),
        Spacing::Unicode => is_unicode_blank(c),
    }
}

/// Tells whether `c` separates words under `spacing`.
pub fn blank(c: char, spacing: Spacing) -> (b: bool)
    ensures
        b == is_blank(c, spacing),
{
    let n: u32 = c as u32;
    match spacing {
        Spacing::Ascii => n == 0x20 || n == 0x09 || n == 0x0A || n == 0x0C || n == 0x0D,
        Spacing::Unicode => (0x09 <= n && n <= 0x0D) || n == 0x20 || n == 0x85 || n == 0xA0 || n
            == 0x1680 || (0x2000 <= n && n <= 0x200A) || n == 0x2028 || n == 0x2029 || n == 0x202F
            || n == 0x205F || n == 0x3000,
    }
}

/// Number of characters of `s` that stand before its first blank; the whole length where
/// `s` holds no blank.
pub open spec fn first_blank(s: Seq<char>, spacing: Spacing) -> nat
    decreases s.len(),
{
    if s.len() == 0 || is_blank(s[0], spacing) {
        0
    } else {
        1 + first_blank(s.drop_first(), spacing)
    }
}

/// The words of `s`: its maximal runs of characters that are not blank, in order.
pub open spec fn words(s: Seq<char>, spacing: Spacing) -> Seq<Seq<char>>
    decreases s.len(),
{
    if s.len() == 0 {
        Seq::empty()
    } else if is_blank(s[0], spacing) {
        words(s.drop_first(), spacing)
    } else {
        let n = first_blank(s, spacing);
        if n >= s.len() {
            seq![s]
        } else {
            seq![s.take(n as int)] + words(s.skip(n as int), spacing)
        }
    }
}

/// `first_blank` is the one position that has no blank before it and either a blank at it
/// or the end of the text.
pub proof fn lemma_first_blank(s: Seq<char>, spacing: Spacing, n: int)
    requires
        0 <= n <= s.len(),
        forall|k: int| 0 <= k < n ==> !is_blank(s[k], spacing),
        n == s.len() || is_blank(s[n], spacing),
    ensures
        first_blank(s, spacing) == n,
    decreases n,
{
    if n > 0 {
        lemma_first_blank(s.drop_first(), spacing, n - 1);
    }
}

/// Splits `s` into its words.
pub fn split_words(s: &str, spacing: Spacing) -> (parts: Vec<String>)
    ensures
        parts.deep_view() == words(s@, spacing),
{
    let chars = chars_of(s);
    let mut parts: Vec<String> = Vec::new();
    let mut i: usize = 0;
    proof {
        assert(s@.skip(0) == s@);
        assert(parts.deep_view() + words(s@, spacing) == words(s@, spacing));
    }
    while i < chars.len()
        invariant
            chars@ == s@,
            0 <= i <= chars.len(),
            words(s@, spacing) == parts.deep_view() + words(s@.skip(i as int), spacing),
        decreases chars.len() - i,
    {
        let ghost rest = s@.skip(i as int);
        if blank(chars[i], spacing) {
            assert(rest.drop_first() == s@.skip(i + 1));
            i += 1;
        } else {
            let mut j: usize = i + 1;
            while j < chars.len() && !blank(chars[j], spacing)
                invariant
                    chars@ == s@,
                    i < j <= chars.len(),
                    forall|k: int| i <= k < j ==> !is_blank(chars[k], spacing),
                decreases chars.len() - j,
            {
                j += 1;
            }
            let word = text_of(&chars, i, j);
            proof {
                lemma_first_blank(rest, spacing, j - i);
                assert(rest.take(j - i) == s@.subrange(i as int, j as int));
                assert(rest.skip(j - i) == s@.skip(j as int));
                if j == chars.len() {
                    assert(word@ == rest);
                    assert(words(s@.skip(j as int), spacing) == Seq::<Seq<char>>::empty());
                }
                assert(words(rest, spacing) == seq![word@] + words(s@.skip(j as int), spacing));
                assert(parts.deep_view().push(word@) + words(s@.skip(j as int), spacing)
                    == parts.deep_view() + words(rest, spacing));
            }
            let ghost before = parts.deep_view();
            parts.push(word);
            assert(parts.deep_view() == before.push(word@));
            i = j;
        }
    }
    assert(words(s@.skip(i as int), spacing) == Seq::<Seq<char>>::empty());
    assert(parts.deep_view() + Seq::<Seq<char>>::empty() == parts.deep_view());
    parts
}

/// The words put together again with one space between neighbours.
pub open spec fn joined(ws: Seq<Seq<char>>) -> Seq<char>
    decreases ws.len(),
{
    if ws.len() == 0 {
        Seq::empty()
    } else if ws.len() == 1 {
        ws[0]
    } else {
        joined(ws.drop_last()) + seq![' '] + ws.last()
    }
}

/// `s` with every run of ASCII white space turned into one space and none left at either
/// end.
pub open spec fn squeezed(s: Seq<char>) -> Seq<char> {
    joined(words(s, Spacing::Ascii))
}

/// Collapses every run of ASCII white space in `s` to one space and trims both ends.
pub fn escape(s: &str) -> (out: String)
    ensures
        out@ == squeezed(s@),
{
    let parts = split_words(s, Spacing::Ascii);
    let mut out = String::new();
    let mut k: usize = 0;
    assert(parts.deep_view().take(0) == Seq::<Seq<char>>::empty());
    while k < parts.len()
        invariant
            0 <= k <= parts.len(),
            parts.deep_view() == words(s@, Spacing::Ascii),
            out@ == joined(parts.deep_view().take(k as int)),
        decreases parts.len() - k,
    {
        let ghost done = parts.deep_view().take(k as int);
        let ghost next = parts.deep_view().take(k + 1);
        proof {
            assert(next.drop_last() == done);
            assert(next.last() == parts[k as int]@);
        }
        if k > 0 {
            out.push(' ');
            assert(out@ == joined(done) + seq![' ']);
        }
        out.append(parts[k].as_str());
        k += 1;
    }
    assert(parts.deep_view().take(k as int) == parts.deep_view());
    out
}

/// Where `first_blank` lies: not past the end, with no blank before it, and at a blank
/// unless it is the end.
pub proof fn lemma_first_blank_bounds(s: Seq<char>, spacing: Spacing)
    ensures
        first_blank(s, spacing) <= s.len(),
        forall|k: int| 0 <= k < first_blank(s, spacing) ==> !is_blank(#[trigger] s[k], spacing),
        first_blank(s, spacing) < s.len() ==> is_blank(s[first_blank(s, spacing) as int], spacing),
    decreases s.len(),
{
    if s.len() > 0 && !is_blank(s[0], spacing) {
        let t = s.drop_first();
        lemma_first_blank_bounds(t, spacing);
        assert forall|k: int| 0 <= k < first_blank(s, spacing) implies !is_blank(
            #[trigger] s[k],
            spacing,
        ) by {
            if k > 0 {
                assert(s[k] == t[k - 1]);
            }
        }
    }
}

/// Whether `w` could be a word: it holds a character, and none of its characters is blank.
pub open spec fn is_word(w: Seq<char>, spacing: Spacing) -> bool {
    w.len() > 0 && forall|k: int| 0 <= k < w.len() ==> !is_blank(#[trigger] w[k], spacing)
}

/// Every one of the words of a text is a word.
pub proof fn lemma_words_are_words(s: Seq<char>, spacing: Spacing)
    ensures
        forall|i: int| 0 <= i < words(s, spacing).len() ==> is_word(
            #[trigger] words(s, spacing)[i],
            spacing,
        ),
    decreases s.len(),
{
    let all = words(s, spacing);
    if s.len() == 0 {
        assert(all.len() == 0);
    } else if is_blank(s[0], spacing) {
        lemma_words_are_words(s.drop_first(), spacing);
        assert(all == words(s.drop_first(), spacing));
    } else {
        let n = first_blank(s, spacing) as int;
        lemma_first_blank_bounds(s, spacing);
        if n >= s.len() {
            assert(is_word(s, spacing));
            assert(all == seq![s]);
        } else {
            let head = s.take(n);
            let rest = words(s.skip(n), spacing);
            lemma_words_are_words(s.skip(n), spacing);
            assert(is_word(head, spacing));
            assert(all == seq![head] + rest);
            assert forall|i: int| 0 <= i < all.len() implies is_word(
                #[trigger] all[i],
                spacing,
            ) by {
                if i > 0 {
                    assert(all[i] == rest[i - 1]);
                }
            }
        }
    }
}

/// A word alone is its own one word.
pub proof fn lemma_words_of_a_word(w: Seq<char>, spacing: Spacing)
    requires
        is_word(w, spacing),
    ensures
        words(w, spacing) == seq![w],
{
    lemma_first_blank(w, spacing, w.len() as int);
}

/// A text followed by a space and a word has the words of the text and then that word.
pub proof fn lemma_words_with_one_more(a: Seq<char>, w: Seq<char>, spacing: Spacing)
    requires
        is_word(w, spacing),
    ensures
        words(a + seq![' '] + w, spacing) == words(a, spacing).push(w),
    decreases a.len(),
{
    let tail = seq![' '] + w;
    let all = a + seq![' '] + w;
    assert(all == a + tail);
    assert(is_blank(' ', spacing));
    if a.len() == 0 {
        assert(all.drop_first() == w);
        lemma_words_of_a_word(w, spacing);
        assert(words(a, spacing).push(w) == seq![w]);
    } else if is_blank(a[0], spacing) {
        assert(all.drop_first() == a.drop_first() + seq![' '] + w);
        lemma_words_with_one_more(a.drop_first(), w, spacing);
    } else {
        let n = first_blank(a, spacing) as int;
        lemma_first_blank_bounds(a, spacing);
        assert(all[0] == a[0]);
        if n >= a.len() {
            assert forall|k: int| 0 <= k < a.len() implies !is_blank(all[k], spacing) by {
                assert(all[k] == a[k]);
            }
            assert(all[a.len() as int] == ' ');
            lemma_first_blank(all, spacing, a.len() as int);
            assert(all.take(a.len() as int) == a);
            assert(all.skip(a.len() as int) == tail);
            assert(tail.drop_first() == w);
            lemma_words_of_a_word(w, spacing);
            assert(words(tail, spacing) == seq![w]);
            assert(words(a, spacing) == seq![a]);
            assert(seq![a] + seq![w] == seq![a].push(w));
        } else {
            assert forall|k: int| 0 <= k < n implies !is_blank(all[k], spacing) by {
                assert(all[k] == a[k]);
            }
            assert(all[n] == a[n]);
            lemma_first_blank(all, spacing, n);
            assert(all.take(n) == a.take(n));
            assert(all.skip(n) == a.skip(n) + seq![' '] + w);
            lemma_words_with_one_more(a.skip(n), w, spacing);
            assert(seq![a.take(n)] + words(a.skip(n), spacing).push(w) == (seq![a.take(n)] + words(
                a.skip(n),
                spacing,
            )).push(w));
        }
    }
}

/// Words put together with one space between neighbours come apart into the same words.
pub proof fn lemma_words_of_joined(ws: Seq<Seq<char>>, spacing: Spacing)
    requires
        forall|i: int| 0 <= i < ws.len() ==> is_word(#[trigger] ws[i], spacing),
    ensures
        words(joined(ws), spacing) == ws,
    decreases ws.len(),
{
    if ws.len() == 0 {
    } else if ws.len() == 1 {
        lemma_words_of_a_word(ws[0], spacing);
        assert(ws == seq![ws[0]]);
    } else {
        let init = ws.drop_last();
        assert forall|i: int| 0 <= i < init.len() implies is_word(#[trigger] init[i], spacing) by {
            assert(init[i] == ws[i]);
        }
        lemma_words_of_joined(init, spacing);
        lemma_words_with_one_more(joined(init), ws.last(), spacing);
        assert(init.push(ws.last()) == ws);
    }
}

/// Collapsing white space changes no word and leaves nothing to collapse: the collapsed
/// text has the words of the text it was made from, and collapsing it again gives it back.
pub proof fn law_escape_is_idempotent(s: Seq<char>)
    ensures
        words(squeezed(s), Spacing::Ascii) == words(s, Spacing::Ascii),
        squeezed(squeezed(s)) == squeezed(s),
{
    lemma_words_are_words(s, Spacing::Ascii);
    lemma_words_of_joined(words(s, Spacing::Ascii), Spacing::Ascii);
}

/// `s` without any occurrence of `ch`.
pub open spec fn without(s: Seq<char>, ch: char) -> Seq<char> {
    s.filter(|c: char| c != ch)
}

/// Removes every occurrence of `ch` from `s`.
pub fn remove_char(s: &str, ch: char) -> (out: String)
    ensures
        out@ == without(s@, ch),
{
    let chars = chars_of(s);
    let mut out = String::new();
    let mut i: usize = 0;
    proof {
        reveal(Seq::filter);
        assert(s@.take(0) == Seq::<char>::empty());
    }
    while i < chars.len()
        invariant
            chars@ == s@,
            0 <= i <= chars.len(),
            out@ == without(s@.take(i as int), ch),
        decreases chars.len() - i,
    {
        proof {
            reveal(Seq::filter);
            assert(s@.take(i + 1).drop_last() == s@.take(i as int));
        }
        if chars[i] != ch {
            out.push(chars[i]);
        }
        i += 1;
    }
    assert(s@.take(i as int) == s@);
    out
}

/// Whether `c` is one of the ten decimal digits.
pub open spec fn is_digit(c: char) -> bool {
    '0' <= c <= '9'
}

/// Whether `s` holds decimal digits only.
pub open spec fn all_digits(s: Seq<char>) -> bool {
    forall|i: int| 0 <= i < s.len() ==> is_digit(#[trigger] s[i])
}

/// The number that the digits of `s` write in base ten; 0 for the empty text.
pub open spec fn decimal(s: Seq<char>) -> int
    decreases s.len(),
{
    if s.len() == 0 {
        0
    } else {
        decimal(s.drop_last()) * 10 + (s.last() as u32 - '0' as u32)
    }
}

/// `s` without one leading `+`, if it has one.
pub open spec fn unsigned_part(s: Seq<char>) -> Seq<char> {
    if s.len() > 0 && s[0] == '+' {
        s.drop_first()
    } else {
        s
    }
}

/// The `u32` that `s` writes: an optional `+`, then one or more decimal digits whose value
/// fits in 32 bits. Anything else, the empty text included, writes no number.
pub open spec fn parsed_u32(s: Seq<char>) -> Option<u32> {
    let d = unsigned_part(s);
    if d.len() > 0 && all_digits(d) && decimal(d) <= u32::MAX {
        Some(decimal(d) as u32)
    } else {
        None
    }
}

/// A longer run of digits never writes a smaller number than one of its prefixes.
pub proof fn lemma_decimal_grows(s: Seq<char>, k: int)
    requires
        all_digits(s),
        0 <= k <= s.len(),
    ensures
        0 <= decimal(s.take(k)) <= decimal(s),
    decreases s.len() - k,
{
    if k == 0 {
        assert(s.take(0).len() == 0);
        lemma_decimal_not_negative(s);
    } else {
        lemma_decimal_not_negative(s.take(k));
        if k < s.len() {
            lemma_decimal_grows(s, k + 1);
            assert(s.take(k + 1).drop_last() == s.take(k));
            assert(is_digit(s.take(k + 1).last()));
        } else {
            assert(s.take(k) == s);
        }
    }
}

/// A run of digits writes no negative number.
pub proof fn lemma_decimal_not_negative(s: Seq<char>)
    requires
        all_digits(s),
    ensures
        0 <= decimal(s),
    decreases s.len(),
{
    if s.len() > 0 {
        lemma_decimal_not_negative(s.drop_last());
        assert(is_digit(s.last()));
    }
}

/// Reads `s` as a `u32` in base ten.
pub fn parse_u32(s: &str) -> (n: Option<u32>)
    ensures
        n == parsed_u32(s@),
{
    let chars = chars_of(s);
    let start: usize = if chars.len() > 0 && chars[0] == '+' {
        1
    } else {
        0
    };
    let ghost d = unsigned_part(s@);
    assert(d == s@.skip(start as int));
    if start == chars.len() {
        return None;
    }
    let mut acc: u64 = 0;
    let mut i: usize = start;
    assert(d.take(0).len() == 0);
    while i < chars.len()
        invariant
            chars@ == s@,
            d == s@.skip(start as int),
            d == unsigned_part(s@),
            start <= i <= chars.len(),
            all_digits(d.take(i - start)),
            acc == decimal(d.take(i - start)),
            acc <= u32::MAX,
        decreases chars.len() - i,
    {
        let c = chars[i];
        let ghost seen = d.take(i - start);
        let ghost more = d.take(i - start + 1);
        proof {
            assert(more.drop_last() == seen);
            assert(more.last() == c);
        }
        if !('0' <= c && c <= '9') {
            assert(d[i - start] == c);
            return None;
        }
        assert forall|k: int| 0 <= k < more.len() implies is_digit(#[trigger] more[k]) by {
            if k < seen.len() {
                assert(more[k] == seen[k]);
            }
        }
        acc = acc * 10 + (c as u32 - '0' as u32) as u64;
        if acc > u32::MAX as u64 {
            proof {
                if all_digits(d) {
                    lemma_decimal_grows(d, i - start + 1);
                }
            }
            return None;
        }
        i += 1;
    }
    assert(d.take(i - start) == d);
    Some(acc as u32)
}

/// `s` without `prefix` at its start; `s` itself where it does not start with `prefix`.
pub open spec fn after_prefix(s: Seq<char>, prefix: Seq<char>) -> Seq<char> {
    if prefix.is_prefix_of(s) {
        s.skip(prefix.len() as int)
    } else {
        s
    }
}

/// Drops `prefix` from the start of `s` where `s` starts with it.
pub fn strip_prefix(s: &str, prefix: &str) -> (out: String)
    ensures
        out@ == after_prefix(s@, prefix@),
{
    let chars = chars_of(s);
    let lead = chars_of(prefix);
    if lead.len() > chars.len() {
        return String::from_str(s);
    }
    let mut i: usize = 0;
    while i < lead.len()
        invariant
            chars@ == s@,
            lead@ == prefix@,
            0 <= i <= lead.len() <= chars.len(),
            forall|k: int| 0 <= k < i ==> chars[k] == lead[k],
        decreases lead.len() - i,
    {
        if chars[i] != lead[i] {
            assert(s@.subrange(0, prefix@.len() as int)[i as int] != prefix@[i as int]);
            return String::from_str(s);
        }
        i += 1;
    }
    assert(prefix@ =~= s@.subrange(0, prefix@.len() as int));
    let out = text_of(&chars, lead.len(), chars.len());
    out
}

} // verus!
