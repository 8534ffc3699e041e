//! Text: trimming, splitting, joining, searching, ordering and decimal numbers.

use vstd::prelude::*;

use crate::text::{
    all_digits, before, blank, chars_of, concat2, concat3, concat4, contains_char, contains_part,
    decimal, decimal_round_trip, digit_char, digits_value, ends_with, find_from, find_last,
    is_blank, is_digit, is_space, join, join_texts, lemma_last_index, occurs_at, parse_u16,
    parse_u64, same, split, split_text, split_words, starts_with, strip_prefix, text_before, texts,
    to_ascii_lower, trim, trim_end, trim_start, trimmed, u64_text, unsigned_part, words,
};

verus! {

// ---------------------------------------------------------------------------
// Trimming
// ---------------------------------------------------------------------------

/// Nothing but white space.
pub open spec fn all_space(s: Seq<char>) -> bool {
    forall|i: int| 0 <= i < s.len() ==> is_space(#[trigger] s[i])
}

/// Where `trim_start` begins.
proof fn lemma_trim_start_at(s: Seq<char>) -> (i: int)
    ensures
        0 <= i <= s.len(),
        trim_start(s) == s.skip(i),
        all_space(s.take(i)),
        i < s.len() ==> !is_space(s[i]),
    decreases s.len(),
{
    if s.len() > 0 && is_space(s[0]) {
        let k = lemma_trim_start_at(s.drop_first());
        assert(s.drop_first().skip(k) =~= s.skip(k + 1));
        assert forall|j: int| 0 <= j < k + 1 implies is_space(#[trigger] s.take(k + 1)[j]) by {
            if j > 0 {
                assert(s.drop_first().take(k)[j - 1] == s[j]);
            }
        }
        k + 1
    } else {
        assert(s.skip(0) =~= s);
        0
    }
}

/// Where `trim_end` ends.
proof fn lemma_trim_end_at(s: Seq<char>) -> (j: int)
    ensures
        0 <= j <= s.len(),
        trim_end(s) == s.take(j),
        all_space(s.skip(j)),
        j > 0 ==> !is_space(s[j - 1]),
    decreases s.len(),
{
    if s.len() > 0 && is_space(s.last()) {
        let k = lemma_trim_end_at(s.drop_last());
        assert(s.drop_last().take(k) =~= s.take(k));
        assert forall|i: int| 0 <= i < s.len() - k implies is_space(#[trigger] s.skip(k)[i]) by {
            if i < s.len() - k - 1 {
                assert(s.drop_last().skip(k)[i] == s[k + i]);
            }
        }
        k
    } else {
        assert(s.take(s.len() as int) =~= s);
        s.len() as int
    }
}

/// Where a trimmed text lies in the text.
pub proof fn lemma_trim_at(s: Seq<char>) -> (r: (int, int))
    ensures
        0 <= r.0 <= r.1 <= s.len(),
        trim(s) == s.subrange(r.0, r.1),
        all_space(s.take(r.0)),
        all_space(s.skip(r.1)),
        r.0 < r.1 ==> !is_space(s[r.0]) && !is_space(s[r.1 - 1]),
{
    let i = lemma_trim_start_at(s);
    let t = s.skip(i);
    let j = lemma_trim_end_at(t);
    assert(t.take(j) =~= s.subrange(i, i + j));
    assert(t.skip(j) =~= s.skip(i + j));
    if j > 0 {
        assert(t[j - 1] == s[i + j - 1]);
    }
    (i, i + j)
}

/// A text is blank exactly where all of it is white space.
pub proof fn lemma_blank(s: Seq<char>)
    ensures
        is_blank(s) <==> all_space(s),
{
    let (i, j) = lemma_trim_at(s);
    if i == j {
        assert forall|k: int| 0 <= k < s.len() implies is_space(#[trigger] s[k]) by {
            if k < i {
                assert(s.take(i)[k] == s[k]);
            } else {
                assert(s.skip(j)[k - j] == s[k]);
            }
        }
    }
}

/// Trimming takes white space off both ends, all of it, and nothing else.
pub proof fn trimming_takes_the_space_off(s: &str, r: String)
    requires
        call_ensures(trimmed, (s,), r),
    ensures
        r@.len() > 0 ==> !is_space(r@[0]) && !is_space(r@.last()),
        exists|head: Seq<char>, tail: Seq<char>|
            s@ == #[trigger] (head + r@ + tail) && all_space(head) && all_space(tail),
{
    let (i, j) = lemma_trim_at(s@);
    let head = s@.take(i);
    let tail = s@.skip(j);
    assert(s@ =~= head + r@ + tail);
}

/// Text is blank exactly where all of it is white space.
pub proof fn blank_text_is_all_space(s: &str, r: bool)
    requires
        call_ensures(blank, (s,), r),
    ensures
        r <==> forall|i: int| 0 <= i < s@.len() ==> is_space(#[trigger] s@[i]),
{
    lemma_blank(s@);
}

/// Spaces, tabs and line ends are white space; visible ASCII characters are not.
pub proof fn space_is_not_visible(c: char)
    ensures
        c == ' ' || c == '\t' || c == '\n' || c == '\r' ==> is_space(c),
        '!' <= c <= '~' ==> !is_space(c),
{
}

// ---------------------------------------------------------------------------
// Pieces
// ---------------------------------------------------------------------------

/// A text that is copied, compared or put together is what it was made of.
pub proof fn texts_are_put_together(
    a: &str,
    b: &str,
    c: &str,
    d: &str,
    chars: Vec<char>,
    equal: bool,
    two: String,
    three: String,
    four: String,
)
    requires
        call_ensures(chars_of, (a,), chars),
        call_ensures(same, (a, b), equal),
        call_ensures(concat2, (a, b), two),
        call_ensures(concat3, (a, b, c), three),
        call_ensures(concat4, (a, b, c, d), four),
    ensures
        chars@ == a@,
        equal <==> a@ == b@,
        two@.len() == a@.len() + b@.len(),
        two@.take(a@.len() as int) == a@,
        two@.skip(a@.len() as int) == b@,
        three@ == two@ + c@,
        four@ == three@ + d@,
{
    assert(two@.take(a@.len() as int) =~= a@);
    assert(two@.skip(a@.len() as int) =~= b@);
}

proof fn lemma_split_len(s: Seq<char>, sep: char)
    ensures
        split(s, sep).len() >= 1,
    decreases s.len(),
{
    if s.len() > 0 {
        lemma_split_len(s.drop_last(), sep);
    }
}

proof fn lemma_join_last(parts: Seq<Seq<char>>, sep: Seq<char>, x: Seq<char>)
    requires
        parts.len() > 0,
    ensures
        join(parts.push(x), sep) == join(parts, sep) + sep + x,
        join(parts.drop_last().push(parts.last() + x), sep) == join(parts, sep) + x,
{
    assert(parts.push(x).drop_last() =~= parts);
    let grown = parts.drop_last().push(parts.last() + x);
    assert(grown.drop_last() =~= parts.drop_last());
    if parts.len() == 1 {
        assert(join(grown, sep) =~= join(parts, sep) + x);
    } else {
        assert(join(grown, sep) =~= join(parts, sep) + x);
    }
}

/// The pieces of a text, with the separator between them, are the text, and none
/// of them holds the separator.
pub proof fn lemma_split_join(s: Seq<char>, sep: char)
    ensures
        split(s, sep).len() >= 1,
        join(split(s, sep), seq![sep]) == s,
        forall|i: int| 0 <= i < split(s, sep).len() ==> !(#[trigger] split(s, sep)[i]).contains(sep),
    decreases s.len(),
{
    if s.len() == 0 {
        assert(split(s, sep)[0] =~= s);
    } else {
        let t = s.drop_last();
        lemma_split_join(t, sep);
        let head = split(t, sep);
        let all = split(s, sep);
        if s.last() == sep {
            lemma_join_last(head, seq![sep], Seq::<char>::empty());
            assert(join(all, seq![sep]) =~= s);
            assert forall|i: int| 0 <= i < all.len() implies !(#[trigger] all[i]).contains(sep) by {
                if i < head.len() {
                    assert(all[i] == head[i]);
                }
            }
        } else {
            lemma_join_last(head, seq![sep], seq![s.last()]);
            assert(head.last() + seq![s.last()] =~= head.last().push(s.last()));
            assert(join(all, seq![sep]) =~= s);
            assert forall|i: int| 0 <= i < all.len() implies !(#[trigger] all[i]).contains(sep) by {
                if i < head.len() - 1 {
                    assert(all[i] == head[i]);
                } else {
                    let x = head.last();
                    assert(x == head[head.len() - 1]);
                    assert(all[i] == x.push(s.last()));
                    if all[i].contains(sep) {
                        let k = choose|k: int| 0 <= k < all[i].len() && all[i][k] == sep;
                        assert(x[k] == sep);
                    }
                }
            }
        }
    }
}

/// Splitting cuts a text at every separator: put together again with the separator
/// between them the pieces give the text, and no piece holds a separator.
pub proof fn splitting_undoes_joining(
    s: &str,
    sep: char,
    pieces: Vec<String>,
    between: &str,
    whole: String,
)
    requires
        call_ensures(split_text, (s, sep), pieces),
        between@ == seq![sep],
        call_ensures(join_texts, (&pieces, between), whole),
    ensures
        whole@ == s@,
        pieces@.len() >= 1,
        forall|i: int| 0 <= i < pieces@.len() ==> !(#[trigger] pieces@[i])@.contains(sep),
{
    lemma_split_join(s@, sep);
    assert forall|i: int| 0 <= i < pieces@.len() implies !(#[trigger] pieces@[i])@.contains(
        sep,
    ) by {
        assert(texts(pieces@)[i] == pieces@[i]@);
    }
}

proof fn lemma_split_plain(s: Seq<char>, sep: char)
    requires
        !s.contains(sep),
    ensures
        split(s, sep) == seq![s],
    decreases s.len(),
{
    if s.len() > 0 {
        let t = s.drop_last();
        assert(s[s.len() - 1] != sep);
        assert(!t.contains(sep)) by {
            if t.contains(sep) {
                let k = choose|k: int| 0 <= k < t.len() && t[k] == sep;
                assert(s[k] == sep);
            }
        }
        lemma_split_plain(t, sep);
        assert(t.push(s.last()) =~= s);
        assert(split(s, sep) =~= seq![s]);
    } else {
        assert(s =~= Seq::<char>::empty());
    }
}

proof fn lemma_split_behind(a: Seq<char>, b: Seq<char>, sep: char)
    requires
        !b.contains(sep),
    ensures
        split(a + seq![sep] + b, sep) == split(a, sep).push(b),
    decreases b.len(),
{
    let s = a + seq![sep] + b;
    if b.len() == 0 {
        assert(s.drop_last() =~= a);
        assert(b =~= Seq::<char>::empty());
    } else {
        let c = b.drop_last();
        assert(b[b.len() - 1] != sep);
        assert(!c.contains(sep)) by {
            if c.contains(sep) {
                let k = choose|k: int| 0 <= k < c.len() && c[k] == sep;
                assert(b[k] == sep);
            }
        }
        lemma_split_behind(a, c, sep);
        assert(s.drop_last() =~= a + seq![sep] + c);
        let head = split(a, sep).push(c);
        assert(head.drop_last() =~= split(a, sep));
        assert(c.push(b.last()) =~= b);
    }
}

/// Pieces without the separator, joined with it, are cut into the same pieces again.
pub proof fn lemma_join_split(parts: Seq<Seq<char>>, sep: char)
    requires
        parts.len() > 0,
        forall|i: int| 0 <= i < parts.len() ==> !(#[trigger] parts[i]).contains(sep),
    ensures
        split(join(parts, seq![sep]), sep) == parts,
    decreases parts.len(),
{
    if parts.len() == 1 {
        lemma_split_plain(parts[0], sep);
        assert(parts =~= seq![parts[0]]);
    } else {
        let h = parts.drop_last();
        assert forall|i: int| 0 <= i < h.len() implies !(#[trigger] h[i]).contains(sep) by {
            assert(h[i] == parts[i]);
        }
        lemma_join_split(h, sep);
        assert(!parts[parts.len() - 1].contains(sep));
        lemma_split_behind(join(h, seq![sep]), parts.last(), sep);
        assert(h.push(parts.last()) =~= parts);
    }
}

/// Pieces without the separator that were joined with it are found again.
pub proof fn joining_is_undone_by_splitting(
    parts: Vec<String>,
    between: &str,
    sep: char,
    whole: String,
    s: &str,
    pieces: Vec<String>,
)
    requires
        parts@.len() > 0,
        forall|i: int| 0 <= i < parts@.len() ==> !(#[trigger] parts@[i])@.contains(sep),
        between@ == seq![sep],
        call_ensures(join_texts, (&parts, between), whole),
        s@ == whole@,
        call_ensures(split_text, (s, sep), pieces),
    ensures
        texts(pieces@) == texts(parts@),
{
    let p = texts(parts@);
    assert forall|i: int| 0 <= i < p.len() implies !(#[trigger] p[i]).contains(sep) by {
        assert(p[i] == parts@[i]@);
    }
    lemma_join_split(p, sep);
}

/// Nothing joined is nothing, one text joined is that text, and one more text comes
/// behind the others with the separator before it.
pub proof fn joining_puts_the_separator_between(
    parts: Vec<String>,
    more: Vec<String>,
    sep: &str,
    joined: String,
    longer: String,
)
    requires
        call_ensures(join_texts, (&parts, sep), joined),
        call_ensures(join_texts, (&more, sep), longer),
        more@.len() == parts@.len() + 1,
        forall|i: int| 0 <= i < parts@.len() ==> #[trigger] more@[i] == parts@[i],
    ensures
        parts@.len() == 0 ==> joined@.len() == 0,
        parts@.len() == 0 ==> longer@ == more@[0]@,
        parts@.len() > 0 ==> longer@ == joined@ + sep@ + more@[parts@.len() as int]@,
{
    let p = texts(parts@);
    let q = texts(more@);
    if parts@.len() > 0 {
        assert(q =~= p.push(more@[parts@.len() as int]@));
        lemma_join_last(p, sep@, more@[parts@.len() as int]@);
    } else {
        assert(q[0] == more@[0]@);
    }
}

// ---------------------------------------------------------------------------
// Words
// ---------------------------------------------------------------------------

/// A run of characters without white space.
pub open spec fn is_word(w: Seq<char>) -> bool {
    w.len() > 0 && forall|i: int| 0 <= i < w.len() ==> !is_space(#[trigger] w[i])
}

pub proof fn lemma_words_are_words(s: Seq<char>)
    ensures
        forall|i: int| 0 <= i < words(s).len() ==> is_word(#[trigger] words(s)[i]),
        s.len() > 0 && !is_space(s.last()) ==> words(s).len() > 0,
    decreases s.len(),
{
    if s.len() > 0 {
        let t = s.drop_last();
        lemma_words_are_words(t);
        let head = words(t);
        let c = s.last();
        if !is_space(c) {
            if s.len() == 1 || is_space(s[s.len() - 2]) {
                assert(words(s) == head.push(seq![c]));
            } else {
                assert(t.last() == s[s.len() - 2]);
                assert(words(s) == head.drop_last().push(head.last().push(c)));
                assert(is_word(head[head.len() - 1]));
                assert(is_word(head.last().push(c)));
            }
        }
    }
}

/// A text of no white space is one word.
pub proof fn lemma_one_word(w: Seq<char>)
    requires
        is_word(w),
    ensures
        words(w) == seq![w],
    decreases w.len(),
{
    let t = w.drop_last();
    if w.len() == 1 {
        assert(words(t) =~= Seq::<Seq<char>>::empty());
        assert(words(w) =~= seq![w]) by {
            assert(seq![w.last()] =~= w);
        }
    } else {
        assert(is_word(t));
        lemma_one_word(t);
        assert(t.push(w.last()) =~= w);
        assert(words(w) =~= seq![w]);
    }
}

/// White space parts words: those before it and those behind it are read on their own.
pub proof fn lemma_words_apart(a: Seq<char>, c: char, b: Seq<char>)
    requires
        is_space(c),
    ensures
        words(a.push(c) + b) == words(a) + words(b),
    decreases b.len(),
{
    let s = a.push(c) + b;
    if b.len() == 0 {
        assert(s =~= a.push(c));
        assert(s.drop_last() =~= a);
        assert(words(b) =~= Seq::<Seq<char>>::empty());
        assert(words(s) =~= words(a) + words(b));
    } else {
        let t = b.drop_last();
        lemma_words_apart(a, c, t);
        assert(s.drop_last() =~= a.push(c) + t);
        assert(s.last() == b.last());
        if b.len() == 1 {
            assert(s[s.len() - 2] == c);
        } else {
            assert(s[s.len() - 2] == b[b.len() - 2]);
            if !is_space(b.last()) && !is_space(b[b.len() - 2]) {
                lemma_words_are_words(t);
                assert(t.last() == b[b.len() - 2]);
                assert(words(t).len() > 0);
                let x = words(a) + words(t);
                assert(x.drop_last() =~= words(a) + words(t).drop_last());
                assert(x.last() == words(t).last());
            }
        }
        assert(words(s) =~= words(a) + words(b));
    }
}

/// Words joined by spaces are read as those words.
pub proof fn lemma_words_of_join(w: Seq<Seq<char>>)
    requires
        forall|i: int| 0 <= i < w.len() ==> is_word(#[trigger] w[i]),
    ensures
        words(join(w, " "@)) == w,
    decreases w.len(),
{
    reveal_strlit(" ");
    if w.len() == 0 {
        assert(words(join(w, " "@)) =~= w);
    } else if w.len() == 1 {
        lemma_one_word(w[0]);
        assert(w =~= seq![w[0]]);
    } else {
        let h = w.drop_last();
        assert forall|i: int| 0 <= i < h.len() implies is_word(#[trigger] h[i]) by {
            assert(h[i] == w[i]);
        }
        lemma_words_of_join(h);
        assert(is_word(w[w.len() - 1]));
        lemma_one_word(w.last());
        let a = join(h, " "@);
        assert(a + " "@ + w.last() =~= a.push(' ') + w.last());
        lemma_words_apart(a, ' ', w.last());
        assert(h + seq![w.last()] =~= w);
    }
}

/// Words are runs of characters without white space, and no two of them touch: text
/// with white space in it has the words before the white space and those behind it.
pub proof fn words_are_parted_by_space(
    s: &str,
    r: Vec<String>,
    a: &str,
    left: Vec<String>,
    c: char,
    b: &str,
    right: Vec<String>,
)
    requires
        call_ensures(split_words, (s,), r),
        call_ensures(split_words, (a,), left),
        call_ensures(split_words, (b,), right),
    ensures
        forall|i: int| 0 <= i < r@.len() ==> is_word((#[trigger] r@[i])@),
        s@.len() == 0 ==> r@.len() == 0,
        is_word(s@) ==> r@.len() == 1 && r@[0]@ == s@,
        is_space(c) && s@ == a@.push(c) + b@ ==> texts(r@) == texts(left@) + texts(right@),
{
    lemma_words_are_words(s@);
    assert forall|i: int| 0 <= i < r@.len() implies is_word((#[trigger] r@[i])@) by {
        assert(texts(r@)[i] == r@[i]@);
    }
    assert(texts(r@).len() == r@.len());
    if is_word(s@) {
        lemma_one_word(s@);
        assert(texts(r@)[0] == r@[0]@);
    }
    if is_space(c) && s@ == a@.push(c) + b@ {
        lemma_words_apart(a@, c, b@);
    }
}

// ---------------------------------------------------------------------------
// Searching
// ---------------------------------------------------------------------------

/// A text begins with another one, ends with it or holds it exactly where it is made
/// of it and of something else.
pub proof fn parts_are_found(
    s: &str,
    p: &str,
    starts: bool,
    ends: bool,
    holds: bool,
    rest: Option<String>,
    head: Seq<char>,
    tail: Seq<char>,
)
    requires
        call_ensures(starts_with, (s, p), starts),
        call_ensures(ends_with, (s, p), ends),
        call_ensures(contains_part, (s, p), holds),
        call_ensures(strip_prefix, (s, p), rest),
    ensures
        s@ == p@ + tail ==> starts && rest is Some && rest->Some_0@ == tail,
        s@ == head + p@ ==> ends,
        s@ == head + p@ + tail ==> holds,
        starts <==> rest is Some,
        rest is Some ==> s@ == p@ + rest->Some_0@,
        ends ==> p@.len() <= s@.len() && s@ == s@.take(s@.len() - p@.len()) + p@,
        holds ==> exists|i: int|
            0 <= i && i + p@.len() <= s@.len() && #[trigger] s@.subrange(i, i + p@.len()) == p@,
{
    let n = p@.len() as int;
    if s@ == p@ + tail {
        assert(s@.take(n) =~= p@);
        assert(s@.skip(n) =~= tail);
    }
    if s@ == head + p@ {
        assert(s@.skip(s@.len() - p@.len()) =~= p@);
    }
    if s@ == head + p@ + tail {
        assert(s@.subrange(head.len() as int, head.len() + n) =~= p@);
        assert(occurs_at(s@, p@, head.len() as int));
    }
    if rest is Some {
        assert(s@ =~= s@.take(n) + s@.skip(n));
    }
    if ends {
        assert(s@ =~= s@.take(s@.len() - p@.len()) + s@.skip(s@.len() - p@.len()));
    }
    if holds {
        let i = choose|i: int| #[trigger] occurs_at(s@, p@, i);
        assert(s@.subrange(i, i + p@.len()) == p@);
    }
}

/// The first position of a character has none before it, and the last has none
/// behind it.
pub proof fn positions_are_the_first_and_the_last(
    v: Vec<char>,
    c: char,
    i: usize,
    first: usize,
    last: Option<usize>,
)
    requires
        i <= v@.len(),
        call_ensures(find_from, (&v, c, i), first),
        call_ensures(find_last, (&v, c), last),
    ensures
        i <= first <= v@.len(),
        first < v@.len() ==> v@[first as int] == c,
        forall|j: int| i <= j < first ==> v@[j] != c,
        last is Some ==> last->Some_0 < v@.len() && v@[last->Some_0 as int] == c,
        forall|j: int|
            0 <= j < v@.len() && (last is Some ==> j > last->Some_0) ==> #[trigger] v@[j] != c,
{
    lemma_last_index(v@, c, v@.len() as int);
}

/// A character is in a text exactly where it stands at one of its positions.
pub proof fn characters_are_found(s: &str, c: char, r: bool)
    requires
        call_ensures(contains_char, (s, c), r),
    ensures
        r <==> exists|i: int| 0 <= i < s@.len() && #[trigger] s@[i] == c,
{
    if r {
        let i = choose|i: int| 0 <= i < s@.len() && s@[i] == c;
        assert(s@[i] == c);
    }
}

// ---------------------------------------------------------------------------
// Numbers
// ---------------------------------------------------------------------------

/// A number that is written is read back as that number, unless it is too large.
pub proof fn numbers_are_read_as_written(
    n: u64,
    text: String,
    s: &str,
    max: u64,
    r: Option<u64>,
    small: Option<u16>,
)
    requires
        call_ensures(u64_text, (n,), text),
        s@ == text@ || s@ == seq!['+'] + text@,
        call_ensures(parse_u64, (s, max), r),
        call_ensures(parse_u16, (s,), small),
    ensures
        n <= max ==> r == Some(n),
        n > max ==> r is None,
        n <= u16::MAX ==> small == Some(n as u16),
        n > u16::MAX ==> small is None,
{
    decimal_round_trip(n as nat, n as nat);
    let d = decimal(n as nat);
    assert(d[0] != '+') by {
        assert(is_digit(d[0]));
    }
    if s@ == seq!['+'] + text@ {
        assert(s@.skip(1) =~= d);
        assert(s@[0] == '+');
    }
    assert(unsigned_part(s@) == d);
}

/// Only digits behind at most one plus sign are read as a number.
pub proof fn only_digits_are_numbers(s: &str, max: u64, r: Option<u64>, i: int)
    requires
        call_ensures(parse_u64, (s, max), r),
        r is Some,
        0 <= i < s@.len(),
    ensures
        r->Some_0 <= max,
        '0' <= s@[i] <= '9' || (i == 0 && s@[0] == '+' && s@.len() > 1),
        s@.len() > 0,
{
    let d = unsigned_part(s@);
    if s@[0] == '+' {
        if i > 0 {
            assert(d[i - 1] == s@[i]);
        }
    } else {
        assert(d[i] == s@[i]);
    }
}

/// Nothing is no number, and one digit more multiplies a number by ten and adds the
/// digit.
pub proof fn digits_count_by_their_place(
    s: &str,
    longer: &str,
    digit: u64,
    max: u64,
    r: Option<u64>,
    more: Option<u64>,
)
    requires
        call_ensures(parse_u64, (s, max), r),
        call_ensures(parse_u64, (longer, max), more),
        digit < 10,
        longer@ == s@.push((('0' as u32) + digit) as char),
    ensures
        s@.len() == 0 ==> r is None && (digit <= max ==> more == Some(digit)),
        r is Some && r->Some_0 * 10 + digit <= max ==> more is Some && more->Some_0 == r->Some_0
            * 10 + digit,
{
    let c = (('0' as u32) + digit) as char;
    let d = unsigned_part(s@);
    let e = unsigned_part(longer@);
    assert(is_digit(c) && c as nat - '0' as nat == digit);
    assert(c != '+');
    if s@.len() == 0 {
        assert(e =~= seq![c]);
        assert(e.drop_last() =~= Seq::<char>::empty());
        assert(digits_value(e.drop_last()) == 0);
        assert(digits_value(e) == digit);
        assert(all_digits(e));
    } else if r is Some {
        assert(longer@[0] == s@[0]);
        if s@[0] == '+' {
            assert(longer@.skip(1) =~= d.push(c));
        }
        assert(e =~= d.push(c));
        assert(e.drop_last() =~= d);
        assert(e.last() == c);
        assert(all_digits(e)) by {
            assert forall|k: int| 0 <= k < e.len() implies is_digit(#[trigger] e[k]) by {
                if k < d.len() {
                    assert(e[k] == d[k]);
                }
            }
        }
        assert(digits_value(e) == digits_value(d) * 10 + digit);
    }
}

/// A number below ten is written with its digit; another one with that of the tens
/// and its last digit behind them, and without a zero in front.
pub proof fn numbers_are_written_by_their_digits(
    n: u64,
    text: String,
    tens: String,
)
    requires
        call_ensures(u64_text, (n,), text),
        call_ensures(u64_text, (n / 10,), tens),
    ensures
        n < 10 ==> text@ == seq![(('0' as u64) + n) as char],
        n >= 10 ==> text@ == tens@.push((('0' as u64) + n % 10) as char),
        n > 0 ==> text@[0] != '0',
        forall|i: int| 0 <= i < text@.len() ==> '0' <= #[trigger] text@[i] <= '9',
{
    decimal_round_trip(n as nat, n as nat);
    if n > 0 {
        lemma_no_leading_zero(n as nat);
    }
    assert forall|i: int| 0 <= i < text@.len() implies '0' <= #[trigger] text@[i] <= '9' by {
        assert(is_digit(text@[i]));
    }
}

proof fn lemma_no_leading_zero(n: nat)
    requires
        n > 0,
    ensures
        decimal(n).len() > 0,
        decimal(n)[0] != '0',
    decreases n,
{
    if n < 10 {
        assert(decimal(n)[0] == digit_char(n));
    } else {
        lemma_no_leading_zero(n / 10);
        assert(decimal(n)[0] == decimal(n / 10)[0]);
    }
}

// ---------------------------------------------------------------------------
// Order and letters
// ---------------------------------------------------------------------------

pub proof fn lemma_before_at(a: Seq<char>, b: Seq<char>, k: int)
    requires
        0 <= k <= a.len(),
        k <= b.len(),
        a.take(k) == b.take(k),
    ensures
        k < a.len() && k < b.len() && a[k] < b[k] ==> text_before(a, b) && !text_before(b, a),
        k == a.len() && k < b.len() ==> text_before(a, b) && !text_before(b, a),
        k == a.len() && k == b.len() ==> !text_before(a, b),
    decreases k,
{
    if k > 0 {
        assert(a[0] == a.take(k)[0] && b[0] == b.take(k)[0]);
        if k < a.len() {
            assert(a.drop_first()[k - 1] == a[k]);
        }
        if k < b.len() {
            assert(b.drop_first()[k - 1] == b[k]);
        }
        assert(a.drop_first().take(k - 1) =~= a.take(k).drop_first());
        assert(b.drop_first().take(k - 1) =~= b.take(k).drop_first());
        lemma_before_at(a.drop_first(), b.drop_first(), k - 1);
    }
}

/// Where two texts first differ the lesser character comes first; a text comes
/// before one that goes on where it ends.
pub proof fn texts_are_ordered_where_they_differ(
    a: &str,
    b: &str,
    k: int,
    forth: bool,
    back: bool,
)
    requires
        call_ensures(before, (a, b), forth),
        call_ensures(before, (b, a), back),
        0 <= k <= a@.len(),
        k <= b@.len(),
        forall|i: int| 0 <= i < k ==> a@[i] == b@[i],
    ensures
        k < a@.len() && k < b@.len() && a@[k] < b@[k] ==> forth && !back,
        k == a@.len() && k < b@.len() ==> forth && !back,
        k == a@.len() && k == b@.len() ==> !forth && !back,
{
    assert(a@.take(k) =~= b@.take(k));
    lemma_before_at(a@, b@, k);
    lemma_before_at(b@, a@, k);
}

/// In lower case a capital letter of ASCII becomes the small one, and every other
/// character stays.
pub proof fn letters_become_small(s: &str, r: String, i: int)
    requires
        call_ensures(to_ascii_lower, (s,), r),
        0 <= i < s@.len(),
    ensures
        r@.len() == s@.len(),
        'A' <= s@[i] <= 'Z' ==> r@[i] as int - 'a' as int == s@[i] as int - 'A' as int,
        !('A' <= s@[i] <= 'Z') ==> r@[i] == s@[i],
{
}

/// White space is the tab, the line ends, the space, and the spaces that other scripts
/// have.
pub proof fn white_space_is_told_apart(c: char, r: bool)
    requires
        call_ensures(crate::text::char_is_space, (c,), r),
    ensures
        c == ' ' || c == '\t' || c == '\n' || c == '\r' || c == '\u{b}' || c == '\u{c}' ==> r,
        '!' <= c <= '~' ==> !r,
        c < '\t' ==> !r,
        '\u{e}' <= c < ' ' ==> !r,
        c == '\u{85}' || c == '\u{a0}' || c == '\u{1680}' || '\u{2000}' <= c <= '\u{200a}' || c
            == '\u{2028}' || c == '\u{2029}' || c == '\u{202f}' || c == '\u{205f}' || c
            == '\u{3000}' ==> r,
        '\u{a1}' <= c < '\u{1680}' || '\u{3001}' <= c ==> !r,
{
}

/// Parts of texts and lists of texts are what they are taken from.
pub proof fn copies_are_what_they_are_taken_from(
    v: Vec<char>,
    from: usize,
    to: usize,
    part: String,
    list: Vec<String>,
    copied: Vec<String>,
    needle: &str,
    found: bool,
    i: int,
)
    requires
        from <= to <= v@.len(),
        call_ensures(crate::text::string_of, (&v, from, to), part),
        call_ensures(crate::text::clone_texts, (&list,), copied),
        call_ensures(crate::text::text_in, (&list, needle), found),
    ensures
        part@.len() == to - from,
        0 <= i < to - from ==> part@[i] == v@[from + i],
        copied@.len() == list@.len(),
        0 <= i < list@.len() ==> copied@[i]@ == list@[i]@,
        0 <= i < list@.len() && list@[i]@ == needle@ ==> found,
        found ==> exists|k: int| 0 <= k < list@.len() && (#[trigger] list@[k])@ == needle@,
{
    if 0 <= i < list@.len() && list@[i]@ == needle@ {
        assert(texts(list@)[i] == needle@);
    }
    if found {
        let k = choose|k: int| 0 <= k < texts(list@).len() && texts(list@)[k] == needle@;
        assert(list@[k]@ == needle@);
    }
}

} // verus!
