//! Character and string helpers shared by the document model and the renderer.
use vstd::prelude::*;
use vstd::utf8::{encode_utf8, encode_utf8_decode_utf8};

verus! {

/// `String::push` appends one character to the end of the string.
pub assume_specification[ String::push ](s: &mut String, c: char)
    ensures
        final(s)@ == old(s)@.push(c),
;

/// How many bytes a text takes.
pub open spec fn byte_len(s: Seq<char>) -> nat {
    encode_utf8(s).len()
}

/// How many bytes a text takes.
pub fn str_byte_len(s: &str) -> (n: usize)
    ensures
        n == byte_len(s@),
{
    s.as_bytes().len()
}

/// Whether two texts hold the same characters in the same order, found by comparing
/// their bytes.
pub fn str_eq(a: &str, b: &str) -> (same: bool)
    ensures
        same == (a@ == b@),
{
    let x = a.as_bytes();
    let y = b.as_bytes();
    proof {
        encode_utf8_decode_utf8(a@);
        encode_utf8_decode_utf8(b@);
    }
    if x.len() != y.len() {
        return false;
    }
    let mut i: usize = 0;
    while i < x.len()
        invariant
            i <= x.len(),
            x.len() == y.len(),
            x@ == encode_utf8(a@),
            y@ == encode_utf8(b@),
            forall|j: int| 0 <= j < i ==> x@[j] == y@[j],
        decreases x.len() - i,
    {
        if x[i] != y[i] {
            return false;
        }
        i = i + 1;
    }
    assert(x@ =~= y@);
    true
}

/// The views of a sequence of strings.
pub open spec fn string_views(strings: Seq<String>) -> Seq<Seq<char>> {
    strings.map_values(|s: String| s@)
}

/// Whether one of the strings holds exactly the characters of `s`.
pub fn contains_text(strings: &Vec<String>, s: &str) -> (found: bool)
    ensures
        found == string_views(strings@).contains(s@),
{
    let mut i: usize = 0;
    while i < strings.len()
        invariant
            i <= strings.len(),
            forall|j: int| 0 <= j < i ==> string_views(strings@)[j] != s@,
        decreases strings.len() - i,
    {
        if str_eq(strings[i].as_str(), s) {
            assert(string_views(strings@)[i as int] == s@);
            return true;
        }
        i = i + 1;
    }
    false
}

/// The characters with the Unicode `White_Space` property.
pub open spec fn is_space(c: char) -> bool {
    c == ' ' || ('\u{9}' <= c && c <= '\u{d}') || c == '\u{85}' || c == '\u{a0}' || c
        == '\u{1680}' || ('\u{2000}' <= c && c <= '\u{200a}') || c == '\u{2028}' || c
        == '\u{2029}' || c == '\u{202f}' || c == '\u{205f}' || c == '\u{3000}'
}

/// Whether every character of `s` is white space (true of the empty text).
pub open spec fn is_blank(s: Seq<char>) -> bool {
    forall|i: int| 0 <= i < s.len() ==> is_space(#[trigger] s[i])
}

pub fn is_whitespace(c: char) -> (b: bool)
    ensures
        b == is_space(c),
{
    c == ' ' || ('\u{9}' <= c && c <= '\u{d}') || c == '\u{85}' || c == '\u{a0}' || c
        == '\u{1680}' || ('\u{2000}' <= c && c <= '\u{200a}') || c == '\u{2028}' || c
        == '\u{2029}' || c == '\u{202f}' || c == '\u{205f}' || c == '\u{3000}'
}

/// The words of `s`: its maximal runs of characters that are not white space, in order.
/// Said from left to right: a white space character adds nothing, a character that follows
/// another word character extends the last word, and any other character starts a new word.
pub open spec fn split_whitespace(s: Seq<char>) -> Seq<Seq<char>>
    decreases s.len(),
{
    if s.len() == 0 {
        Seq::empty()
    } else {
        let before = split_whitespace(s.drop_last());
        if is_space(s.last()) {
            before
        } else if s.len() >= 2 && !is_space(s[s.len() - 2]) && before.len() > 0 {
            before.drop_last().push(before.last().push(s.last()))
        } else {
            before.push(seq![s.last()])
        }
    }
}

/// The words with one space between each two neighbours.
pub open spec fn join_words(words: Seq<Seq<char>>) -> Seq<char>
    decreases words.len(),
{
    if words.len() == 0 {
        Seq::empty()
    } else if words.len() == 1 {
        words[0]
    } else {
        join_words(words.drop_last()).push(' ') + words.last()
    }
}

/// Whether `s` starts with white space other than a line feed.
pub open spec fn leading_space(s: Seq<char>) -> bool {
    s.len() > 0 && is_space(s[0]) && s[0] != '\n'
}

/// Whether the white space that `s` ends with holds anything but line feeds.
pub open spec fn trailing_space(s: Seq<char>) -> bool {
    exists|k: int|
        0 <= k < s.len() && is_space(#[trigger] s[k]) && s[k] != '\n' && forall|j: int|
            k < j < s.len() ==> is_space(#[trigger] s[j])
}

/// One space where the condition holds, nothing where it does not.
pub open spec fn space_if(b: bool) -> Seq<char> {
    if b {
        seq![' ']
    } else {
        Seq::empty()
    }
}

/// The text with every run of white space inside it collapsed into one space. White space
/// at either end is dropped, but for one space in front where the text starts with white
/// space other than a line feed, and one space behind where the white space that the text
/// ends with holds more than line feeds.
pub open spec fn spec_clean_whitespace(s: Seq<char>) -> Seq<char> {
    space_if(leading_space(s)) + join_words(split_whitespace(s)) + space_if(trailing_space(s))
}

/// The character of a decimal digit.
pub open spec fn digit(d: nat) -> char {
    if d == 0 {
        '0'
    } else if d == 1 {
        '1'
    } else if d == 2 {
        '2'
    } else if d == 3 {
        '3'
    } else if d == 4 {
        '4'
    } else if d == 5 {
        '5'
    } else if d == 6 {
        '6'
    } else if d == 7 {
        '7'
    } else if d == 8 {
        '8'
    } else {
        '9'
    }
}

/// The decimal numeral of `n`, without leading zeros.
pub open spec fn spec_decimal(n: nat) -> Seq<char>
    decreases n,
{
    if n < 10 {
        seq![digit(n)]
    } else {
        spec_decimal(n / 10).push(digit(n % 10))
    }
}

/// The characters of `s`, in order.
pub fn to_chars(s: &str) -> (v: Vec<char>)
    ensures
        v@ == s@,
{
    let mut v: Vec<char> = Vec::new();
    for c in it: s.chars()
        invariant
            v@ == it.seq().take(it.index()),
            it.seq() == s@,
    {
        v.push(c);
    }
    v
}

/// The string made of the characters `v[from..to]`.
pub fn from_chars(v: &Vec<char>, from: usize, to: usize) -> (s: String)
    requires
        from <= to <= v.len(),
    ensures
        s@ == v@.subrange(from as int, to as int),
{
    let mut s = String::new();
    let mut i: usize = from;
    while i < to
        invariant
            from <= i <= to <= v.len(),
            s@ == v@.subrange(from as int, i as int),
        decreases to - i,
    {
        s.push(v[i]);
        i = i + 1;
    }
    s
}

/// Extending the last word by a character extends the joined text by that character.
pub proof fn lemma_join_extend(words: Seq<Seq<char>>, c: char)
    requires
        words.len() > 0,
    ensures
        join_words(words.drop_last().push(words.last().push(c))) == join_words(words).push(c),
{
    let extended = words.drop_last().push(words.last().push(c));
    if words.len() == 1 {
        assert(extended[0] == words[0].push(c));
    } else {
        assert(extended.drop_last() == words.drop_last());
        assert(join_words(extended) == join_words(words.drop_last()).push(' ') + words.last().push(
            c,
        ));
        assert(join_words(words.drop_last()).push(' ') + words.last().push(c) == (join_words(
            words.drop_last(),
        ).push(' ') + words.last()).push(c));
    }
}

/// A new word joins the text after one space, or as it is where it is the first.
pub proof fn lemma_join_push(words: Seq<Seq<char>>, c: char)
    ensures
        join_words(words.push(seq![c])) == if words.len() == 0 {
            seq![c]
        } else {
            join_words(words).push(' ').push(c)
        },
{
    let more = words.push(seq![c]);
    assert(more.drop_last() == words);
    if words.len() > 0 {
        assert(join_words(words).push(' ') + seq![c] == join_words(words).push(' ').push(c));
    }
}

/// A word: at least one character, none of them white space.
pub open spec fn is_word(w: Seq<char>) -> bool {
    w.len() > 0 && forall|j: int| 0 <= j < w.len() ==> !is_space(#[trigger] w[j])
}

/// A text in which white space occurs only as single spaces between two characters that
/// are not white space.
pub open spec fn is_collapsed(t: Seq<char>) -> bool {
    forall|i: int|
        0 <= i < t.len() && is_space(#[trigger] t[i]) ==> t[i] == ' ' && 0 < i < t.len() - 1
            && !is_space(t[i - 1]) && !is_space(t[i + 1])
}

/// Splitting gives words.
pub proof fn lemma_split_gives_words(s: Seq<char>)
    ensures
        forall|i: int|
            0 <= i < split_whitespace(s).len() ==> is_word(#[trigger] split_whitespace(s)[i]),
    decreases s.len(),
{
    if s.len() > 0 {
        lemma_split_gives_words(s.drop_last());
        let before = split_whitespace(s.drop_last());
        let words = split_whitespace(s);
        if !is_space(s.last()) {
            assert forall|i: int| 0 <= i < words.len() implies is_word(#[trigger] words[i]) by {
                if i < words.len() - 1 {
                    assert(words[i] == before[i]);
                } else if s.len() >= 2 && !is_space(s[s.len() - 2]) && before.len() > 0 {
                    assert(is_word(before[before.len() - 1]));
                    assert(words[i] == before.last().push(s.last()));
                } else {
                    assert(words[i] == seq![s.last()]);
                }
            }
        }
    }
}

/// Words joined by single spaces make a collapsed text, which starts and ends with a
/// word character unless there is no word at all.
pub proof fn lemma_join_is_collapsed(words: Seq<Seq<char>>)
    requires
        forall|i: int| 0 <= i < words.len() ==> is_word(#[trigger] words[i]),
    ensures
        is_collapsed(join_words(words)),
        words.len() == 0 ==> join_words(words).len() == 0,
        words.len() > 0 ==> join_words(words).len() > 0 && !is_space(join_words(words)[0])
            && !is_space(join_words(words).last()),
    decreases words.len(),
{
    if words.len() == 1 {
        assert(is_word(words[0]));
    } else if words.len() >= 2 {
        let init = words.drop_last();
        assert forall|i: int| 0 <= i < init.len() implies is_word(#[trigger] init[i]) by {
            assert(init[i] == words[i]);
        }
        lemma_join_is_collapsed(init);
        let a = join_words(init);
        let w = words.last();
        let t = join_words(words);
        assert(is_word(words[words.len() - 1]));
        assert(t == a.push(' ') + w);
        assert forall|i: int| 0 <= i < t.len() && is_space(#[trigger] t[i]) implies t[i] == ' '
            && 0 < i < t.len() - 1 && !is_space(t[i - 1]) && !is_space(t[i + 1]) by {
            if i < a.len() {
                assert(t[i] == a[i]);
                assert(t[i - 1] == a[i - 1]);
                assert(t[i + 1] == a[i + 1]);
            } else if i == a.len() {
                assert(t[i - 1] == a.last());
                assert(t[i + 1] == w[0]);
            } else {
                assert(t[i] == w[i - a.len() - 1]);
            }
        }
        assert(t[0] == a[0]);
        assert(t.last() == w.last());
    }
}

/// A word appended to a text that does not end inside a word is one more word.
proof fn lemma_split_append_word(t: Seq<char>, w: Seq<char>)
    requires
        t.len() == 0 || is_space(t.last()),
        is_word(w),
    ensures
        split_whitespace(t + w) == split_whitespace(t).push(w),
    decreases w.len(),
{
    let c = w.last();
    let init = w.drop_last();
    assert(t + w == (t + init).push(c));
    assert((t + w).drop_last() == t + init);
    if init.len() == 0 {
        assert(t + init == t);
        assert(w == seq![c]);
    } else {
        assert(is_word(init)) by {
            assert forall|j: int| 0 <= j < init.len() implies !is_space(#[trigger] init[j]) by {
                assert(init[j] == w[j]);
            }
        }
        lemma_split_append_word(t, init);
        assert((t + w)[(t + w).len() - 2] == init.last());
        assert(init.last() == w[w.len() - 2]);
        assert(split_whitespace(t).push(init).drop_last() == split_whitespace(t));
        assert(init.push(c) == w);
    }
}

/// White space in front of a text adds no word.
proof fn lemma_split_after_space(x: Seq<char>)
    ensures
        split_whitespace(seq![' '] + x) == split_whitespace(x),
    decreases x.len(),
{
    let s = seq![' '] + x;
    assert(is_space(' '));
    if x.len() == 0 {
        assert(s.len() == 1 && s.last() == ' ');
        assert(s.drop_last() == Seq::<char>::empty());
        assert(split_whitespace(s) == split_whitespace(s.drop_last()));
    } else {
        lemma_split_after_space(x.drop_last());
        assert(s.len() == x.len() + 1);
        assert(s.drop_last() == seq![' '] + x.drop_last());
        assert(s.last() == x.last());
        assert(split_whitespace(s.drop_last()) == split_whitespace(x.drop_last()));
        if x.len() >= 2 {
            assert(s[s.len() - 2] == x[x.len() - 2]);
        } else {
            assert(s[s.len() - 2] == ' ');
            assert(x.drop_last() == Seq::<char>::empty());
            assert(split_whitespace(x.drop_last()).len() == 0);
        }
    }
}

/// Splitting what was joined gives the words back.
proof fn lemma_split_of_join(words: Seq<Seq<char>>)
    requires
        forall|i: int| 0 <= i < words.len() ==> is_word(#[trigger] words[i]),
    ensures
        split_whitespace(join_words(words)) == words,
    decreases words.len(),
{
    if words.len() == 1 {
        assert(is_word(words[0]));
        lemma_split_append_word(Seq::empty(), words[0]);
        assert(Seq::<char>::empty() + words[0] == words[0]);
        assert(split_whitespace(Seq::<char>::empty()).push(words[0]) == words);
    } else if words.len() >= 2 {
        let init = words.drop_last();
        assert forall|i: int| 0 <= i < init.len() implies is_word(#[trigger] init[i]) by {
            assert(init[i] == words[i]);
        }
        lemma_split_of_join(init);
        let t = join_words(init).push(' ');
        assert(t.drop_last() == join_words(init));
        assert(is_word(words[words.len() - 1]));
        lemma_split_append_word(t, words.last());
        assert(init.push(words.last()) == words);
    }
}

/// Cleaning keeps the words of a text: what comes out splits into the same words, in the
/// same order.
pub proof fn lemma_clean_whitespace_keeps_words(s: Seq<char>)
    ensures
        split_whitespace(spec_clean_whitespace(s)) == split_whitespace(s),
{
    let words = split_whitespace(s);
    let core = join_words(words);
    lemma_split_gives_words(s);
    lemma_split_of_join(words);
    let with_trail = core + space_if(trailing_space(s));
    if trailing_space(s) {
        assert(with_trail.drop_last() == core);
    } else {
        assert(with_trail == core);
    }
    assert(split_whitespace(with_trail) == words);
    if leading_space(s) {
        lemma_split_after_space(with_trail);
    } else {
        assert(space_if(leading_space(s)) + with_trail == with_trail);
    }
    assert(spec_clean_whitespace(s) == space_if(leading_space(s)) + with_trail);
}

/// What cleaning does to the white space of a text: the words stay, in order, with one
/// space between each two; so inside the result white space occurs only as single spaces
/// between word characters. Around that the result has at most one space at either end.
pub proof fn lemma_clean_whitespace_shape(s: Seq<char>)
    ensures
        ({
            let core = join_words(split_whitespace(s));
            &&& spec_clean_whitespace(s) == space_if(leading_space(s)) + core + space_if(
                trailing_space(s),
            )
            &&& is_collapsed(core)
            &&& core.len() > 0 ==> !is_space(core[0]) && !is_space(core.last())
        }),
{
    lemma_split_gives_words(s);
    lemma_join_is_collapsed(split_whitespace(s));
}

/// A text with a character that is not white space has a word.
proof fn lemma_split_has_word(s: Seq<char>)
    requires
        exists|i: int| 0 <= i < s.len() && !is_space(#[trigger] s[i]),
    ensures
        split_whitespace(s).len() > 0,
    decreases s.len(),
{
    if is_space(s.last()) {
        let i = choose|i: int| 0 <= i < s.len() && !is_space(#[trigger] s[i]);
        assert(s.drop_last()[i] == s[i]);
        lemma_split_has_word(s.drop_last());
    }
}

/// Where a text has a word, the cleaned text starts with white space exactly if the first
/// character of the text is white space other than a line feed; and then a single space
/// stands before the first word.
pub proof fn lemma_clean_whitespace_leading(s: Seq<char>)
    requires
        exists|i: int| 0 <= i < s.len() && !is_space(#[trigger] s[i]),
    ensures
        ({
            let r = spec_clean_whitespace(s);
            &&& r.len() > 0
            &&& is_space(r[0]) <==> is_space(s[0]) && s[0] != '\n'
            &&& is_space(r[0]) ==> r[0] == ' ' && r.len() > 1 && !is_space(r[1])
        }),
{
    lemma_split_has_word(s);
    lemma_split_gives_words(s);
    lemma_join_is_collapsed(split_whitespace(s));
    let core = join_words(split_whitespace(s));
    let r = spec_clean_whitespace(s);
    if leading_space(s) {
        assert(r[0] == ' ');
        assert(r[1] == core[0]);
    } else {
        assert(r[0] == core[0]);
    }
}

/// Where a text has a word, the cleaned text ends with white space exactly if the white
/// space that the text ends with holds more than line feeds; and then a single space
/// stands behind the last word.
pub proof fn lemma_clean_whitespace_trailing(s: Seq<char>)
    requires
        exists|i: int| 0 <= i < s.len() && !is_space(#[trigger] s[i]),
    ensures
        ({
            let r = spec_clean_whitespace(s);
            &&& r.len() > 0
            &&& is_space(r.last()) <==> trailing_space(s)
            &&& is_space(r.last()) ==> r.last() == ' ' && r.len() > 1 && !is_space(r[r.len() - 2])
        }),
{
    lemma_split_has_word(s);
    lemma_split_gives_words(s);
    lemma_join_is_collapsed(split_whitespace(s));
    let core = join_words(split_whitespace(s));
    let front = space_if(leading_space(s)) + core;
    let r = spec_clean_whitespace(s);
    assert(r == front + space_if(trailing_space(s)));
    assert(front[front.len() - 1] == core[core.len() - 1]);
    if trailing_space(s) {
        assert(r[r.len() - 1] == ' ');
        assert(r[r.len() - 2] == front[front.len() - 1]);
    } else {
        assert(r == front);
    }
}

/// Unless the text ends with a line feed that follows other white space, a space trails
/// the cleaned text exactly if the last character is white space other than a line feed.
pub proof fn lemma_trailing_space_by_last(s: Seq<char>)
    requires
        s.len() > 0,
        !(s.last() == '\n' && trailing_space(s)),
    ensures
        trailing_space(s) <==> is_space(s.last()) && s.last() != '\n',
{
    if trailing_space(s) {
        let k = choose|k: int|
            0 <= k < s.len() && is_space(#[trigger] s[k]) && s[k] != '\n' && forall|j: int|
                k < j < s.len() ==> is_space(#[trigger] s[j]);
        if k < s.len() - 1 {
            assert(is_space(s[s.len() - 1]));
        }
    }
}

fn has_leading_space(chars: &Vec<char>) -> (b: bool)
    ensures
        b == leading_space(chars@),
{
    chars.len() > 0 && is_whitespace(chars[0]) && chars[0] != '\n'
}

fn has_trailing_space(chars: &Vec<char>) -> (b: bool)
    ensures
        b == trailing_space(chars@),
{
    let mut i: usize = chars.len();
    while i > 0 && is_whitespace(chars[i - 1])
        invariant
            i <= chars.len(),
            forall|j: int|
                i <= j < chars.len() ==> is_space(#[trigger] chars@[j]) && chars@[j] == '\n',
        decreases i,
    {
        if chars[i - 1] != '\n' {
            return true;
        }
        i = i - 1;
    }
    proof {
        if trailing_space(chars@) {
            let k = choose|k: int|
                0 <= k < chars@.len() && is_space(#[trigger] chars@[k]) && chars@[k] != '\n'
                    && forall|j: int| k < j < chars@.len() ==> is_space(#[trigger] chars@[j]);
            if k < i - 1 {
                assert(is_space(chars@[i - 1]));
            }
        }
    }
    false
}

/// Collapses the white space of a text run.
pub fn clean_whitespace(input: &str) -> (out: String)
    ensures
        out@ == spec_clean_whitespace(input@),
{
    let chars = to_chars(input);
    let lead = has_leading_space(&chars);
    let trail = has_trailing_space(&chars);
    let mut out = String::new();
    if lead {
        out.push(' ');
    }
    let mut any = false;
    let mut in_word = false;
    let mut i: usize = 0;
    assert(chars@.take(0) == Seq::<char>::empty());
    assert(out@ == space_if(lead) + join_words(split_whitespace(chars@.take(0))));
    while i < chars.len()
        invariant
            i <= chars.len(),
            out@ == space_if(lead) + join_words(split_whitespace(chars@.take(i as int))),
            any == (split_whitespace(chars@.take(i as int)).len() > 0),
            in_word == (i > 0 && !is_space(chars@[i - 1])),
        decreases chars.len() - i,
    {
        let c = chars[i];
        let ghost before = chars@.take(i as int);
        let ghost now = chars@.take(i + 1);
        let ghost words = split_whitespace(before);
        proof {
            assert(now.drop_last() == before);
            assert(now.last() == c);
            if i > 0 {
                assert(now[now.len() - 2] == chars@[i - 1]);
            }
        }
        if !is_whitespace(c) {
            if any && in_word {
                proof {
                    lemma_join_extend(words, c);
                }
            } else {
                proof {
                    lemma_join_push(words, c);
                }
                if any {
                    out.push(' ');
                }
            }
            out.push(c);
            any = true;
            in_word = true;
            assert(out@ == space_if(lead) + join_words(split_whitespace(now)));
        } else {
            in_word = false;
        }
        i = i + 1;
    }
    assert(chars@.take(chars@.len() as int) == chars@);
    if trail {
        out.push(' ');
    }
    assert(out@ == spec_clean_whitespace(input@));
    out
}

fn digit_char(d: usize) -> (c: char)
    requires
        d < 10,
    ensures
        c == digit(d as nat),
{
    if d == 0 {
        '0'
    } else if d == 1 {
        '1'
    } else if d == 2 {
        '2'
    } else if d == 3 {
        '3'
    } else if d == 4 {
        '4'
    } else if d == 5 {
        '5'
    } else if d == 6 {
        '6'
    } else if d == 7 {
        '7'
    } else if d == 8 {
        '8'
    } else {
        '9'
    }
}

/// Appends the decimal numeral of `n` to `s`.
pub fn push_decimal(s: &mut String, n: usize)
    ensures
        final(s)@ == old(s)@ + spec_decimal(n as nat),
    decreases n,
{
    if n >= 10 {
        push_decimal(s, n / 10);
    }
    s.push(digit_char(n % 10));
}

/// Whether `s` holds nothing but white space.
pub fn is_blank_str(s: &str) -> (b: bool)
    ensures
        b == is_blank(s@),
{
    let mut blank = true;
    for c in it: s.chars()
        invariant
            it.seq() == s@,
            blank == is_blank(s@.take(it.index())),
    {
        let ghost k = it.index();
        assert(s@.take(k + 1) == s@.take(k).push(c));
        if !is_whitespace(c) {
            blank = false;
            assert(!is_space(s@.take(k + 1)[k]));
        }
    }
    assert(s@.take(s@.len() as int) == s@);
    blank
}

} // verus!
