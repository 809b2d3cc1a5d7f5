//! Text as sequences of characters: trimming, splitting on whitespace,
//! joining with single spaces, decimal rendering and substring search.

use vstd::prelude::*;

verus! {

/// Whether a character has the Unicode `White_Space` property.
pub uninterp spec fn is_white_space(c: char) -> bool;

/// Calls `char::is_whitespace`. Its result is taken on trust to be a fixed
/// property of the character, which contracts name `is_white_space`.
#[verifier::external_body]
fn is_whitespace(c: char) -> (b: bool)
    ensures
        b == is_white_space(c),
{
    c.is_whitespace()
}

/// Calls `String::push`, which is trusted to append the character at the end.
#[verifier::external_body]
pub(crate) fn push_char(s: &mut String, c: char)
    ensures
        final(s)@ == old(s)@.push(c),
{
    s.push(c)
}

/// Calls `String::pop`, which is trusted to remove the last character and
/// return it, and on an empty string to return `None` and change nothing.
#[verifier::external_body]
pub(crate) fn pop_char(s: &mut String) -> (c: Option<char>)
    ensures
        old(s)@.len() == 0 ==> c is None && final(s)@ == old(s)@,
        old(s)@.len() > 0 ==> c == Some(old(s)@.last()) && final(s)@ == old(s)@.drop_last(),
{
    s.pop()
}

/// The views of a sequence of strings.
pub open spec fn texts(v: Seq<String>) -> Seq<Seq<char>> {
    Seq::new(v.len(), |i: int| v[i]@)
}

/// The characters of a string, in order.
pub fn to_chars(s: &str) -> (v: Vec<char>)
    ensures
        v@ == s@,
{
    let mut v: Vec<char> = Vec::new();
    for c in it: s.chars()
        invariant
            v@ == it.seq().take(it.index() as int),
            it.seq() == s@,
    {
        v.push(c);
    }
    v
}

/// The string made of the characters `chars[from..to]`.
pub fn from_chars(chars: &[char], from: usize, to: usize) -> (s: String)
    requires
        from <= to <= chars@.len(),
    ensures
        s@ == chars@.subrange(from as int, to as int),
{
    let mut s = String::new();
    let mut i: usize = from;
    while i < to
        invariant
            from <= i <= to <= chars@.len(),
            s@ == chars@.subrange(from as int, i as int),
        decreases to - i,
    {
        push_char(&mut s, chars[i]);
        i += 1;
    }
    s
}

/// Whether two strings hold the same characters.
pub fn same_text(a: &str, b: &str) -> (same: bool)
    ensures
        same == (a@ == b@),
{
    a.to_owned() == b.to_owned()
}

/// The number of whitespace characters at the start of `s`.
pub open spec fn leading_space(s: Seq<char>) -> nat
    decreases s.len(),
{
    if s.len() > 0 && is_white_space(s[0]) {
        1 + leading_space(s.drop_first())
    } else {
        0
    }
}

/// The number of whitespace characters at the end of `s`.
pub open spec fn trailing_space(s: Seq<char>) -> nat
    decreases s.len(),
{
    if s.len() > 0 && is_white_space(s.last()) {
        1 + trailing_space(s.drop_last())
    } else {
        0
    }
}

/// `s` without its leading and trailing whitespace.
pub open spec fn trimmed(s: Seq<char>) -> Seq<char> {
    if leading_space(s) >= s.len() {
        Seq::empty()
    } else {
        s.subrange(leading_space(s) as int, s.len() - trailing_space(s))
    }
}

/// Whether every character of `s` is whitespace.
pub open spec fn is_blank(s: Seq<char>) -> bool {
    forall|i: int| 0 <= i < s.len() ==> is_white_space(#[trigger] s[i])
}

/// The leading whitespace of `s` ends at `k` when everything before `k` is
/// whitespace and `k` is the end of `s` or holds another character.
pub proof fn lemma_leading_space(s: Seq<char>, k: int)
    requires
        0 <= k <= s.len(),
        forall|i: int| 0 <= i < k ==> is_white_space(#[trigger] s[i]),
        k == s.len() || !is_white_space(s[k]),
    ensures
        leading_space(s) == k,
    decreases k,
{
    if k > 0 {
        let t = s.drop_first();
        assert forall|i: int| 0 <= i < k - 1 implies is_white_space(#[trigger] t[i]) by {
            assert(t[i] == s[i + 1]);
        }
        lemma_leading_space(t, k - 1);
    }
}

/// The trailing whitespace of `s` starts at `k` when everything from `k` on
/// is whitespace and `k` is the start of `s` or follows another character.
pub proof fn lemma_trailing_space(s: Seq<char>, k: int)
    requires
        0 <= k <= s.len(),
        forall|i: int| k <= i < s.len() ==> is_white_space(#[trigger] s[i]),
        k == 0 || !is_white_space(s[k - 1]),
    ensures
        trailing_space(s) == s.len() - k,
    decreases s.len() - k,
{
    if k < s.len() {
        let t = s.drop_last();
        assert forall|i: int| k <= i < t.len() implies is_white_space(#[trigger] t[i]) by {
            assert(t[i] == s[i]);
        }
        lemma_trailing_space(t, k);
    }
}

/// A copy of `s` without its leading and trailing whitespace.
pub fn trim(s: &str) -> (t: String)
    ensures
        t@ == trimmed(s@),
{
    let chars = to_chars(s);
    let n = chars.len();
    let mut start: usize = 0;
    while start < n && is_whitespace(chars[start])
        invariant
            start <= n == chars@.len(),
            forall|i: int| 0 <= i < start ==> is_white_space(#[trigger] chars@[i]),
        decreases n - start,
    {
        start += 1;
    }
    proof {
        lemma_leading_space(chars@, start as int);
    }
    if start == n {
        return String::new();
    }
    let mut end: usize = n;
    while end > start && is_whitespace(chars[end - 1])
        invariant
            start < n == chars@.len(),
            start <= end <= n,
            !is_white_space(chars@[start as int]),
            forall|i: int| end <= i < n ==> is_white_space(#[trigger] chars@[i]),
        decreases end,
    {
        end -= 1;
    }
    proof {
        lemma_trailing_space(chars@, end as int);
    }
    from_chars(chars.as_slice(), start, end)
}

/// The length of the run of non-whitespace characters at the start of `s`.
pub open spec fn word_len(s: Seq<char>) -> nat
    decreases s.len(),
{
    if s.len() > 0 && !is_white_space(s[0]) {
        1 + word_len(s.drop_first())
    } else {
        0
    }
}

/// The leading word of `s` never runs past the end of `s`.
pub proof fn lemma_word_len_bound(s: Seq<char>)
    ensures
        word_len(s) <= s.len(),
    decreases s.len(),
{
    if s.len() > 0 && !is_white_space(s[0]) {
        lemma_word_len_bound(s.drop_first());
    }
}

/// The leading word of `s` ends at `k` when nothing before `k` is whitespace
/// and `k` is the end of `s` or holds whitespace.
pub proof fn lemma_word_len(s: Seq<char>, k: int)
    requires
        0 <= k <= s.len(),
        forall|i: int| 0 <= i < k ==> !is_white_space(#[trigger] s[i]),
        k == s.len() || is_white_space(s[k]),
    ensures
        word_len(s) == k,
    decreases k,
{
    if k > 0 {
        let t = s.drop_first();
        assert forall|i: int| 0 <= i < k - 1 implies !is_white_space(#[trigger] t[i]) by {
            assert(t[i] == s[i + 1]);
        }
        lemma_word_len(t, k - 1);
    }
}

/// The words of `s`: its maximal runs of non-whitespace characters, in order.
pub open spec fn tokens(s: Seq<char>) -> Seq<Seq<char>>
    decreases s.len(),
{
    if s.len() == 0 {
        Seq::empty()
    } else if is_white_space(s[0]) {
        tokens(s.drop_first())
    } else {
        proof {
            lemma_word_len_bound(s);
        }
        seq![s.take(word_len(s) as int)] + tokens(s.skip(word_len(s) as int))
    }
}

/// Splits a string on whitespace into its words.
pub fn split_whitespace(s: &str) -> (words: Vec<String>)
    ensures
        texts(words@) == tokens(s@),
{
    let chars = to_chars(s);
    let n = chars.len();
    let mut words: Vec<String> = Vec::new();
    let mut i: usize = 0;
    proof {
        assert(chars@.skip(0) =~= chars@);
        assert(texts(words@) + tokens(chars@.skip(0)) =~= tokens(chars@));
    }
    while i < n
        invariant
            i <= n == chars@.len(),
            texts(words@) + tokens(chars@.skip(i as int)) == tokens(chars@),
        decreases n - i,
    {
        let ghost rest = chars@.skip(i as int);
        if is_whitespace(chars[i]) {
            proof {
                assert(rest.drop_first() =~= chars@.skip(i + 1));
            }
            i += 1;
        } else {
            let mut j: usize = i + 1;
            while j < n && !is_whitespace(chars[j])
                invariant
                    i < j <= n == chars@.len(),
                    forall|k: int| i <= k < j ==> !is_white_space(#[trigger] chars@[k]),
                decreases n - j,
            {
                j += 1;
            }
            let word = from_chars(chars.as_slice(), i, j);
            proof {
                assert forall|k: int| 0 <= k < j - i implies !is_white_space(#[trigger] rest[k]) by {
                    assert(rest[k] == chars@[i + k]);
                }
                lemma_word_len(rest, j - i);
                assert(rest.take(j - i) =~= chars@.subrange(i as int, j as int));
                assert(rest.skip(j - i) =~= chars@.skip(j as int));
                assert(texts(words@.push(word)) =~= texts(words@) + seq![word@]);
                assert(texts(words@) + (seq![word@] + tokens(chars@.skip(j as int)))
                    =~= texts(words@.push(word)) + tokens(chars@.skip(j as int)));
            }
            words.push(word);
            i = j;
        }
    }
    proof {
        assert(texts(words@) + tokens(chars@.skip(i as int)) =~= texts(words@));
    }
    words
}

/// A line with a character that is not whitespace has at least one word.
pub proof fn lemma_tokens_nonempty(s: Seq<char>, k: int)
    requires
        0 <= k < s.len(),
        !is_white_space(s[k]),
    ensures
        tokens(s).len() > 0,
    decreases s.len(),
{
    if is_white_space(s[0]) {
        assert(s.drop_first()[k - 1] == s[k]);
        lemma_tokens_nonempty(s.drop_first(), k - 1);
    }
}

/// A blank line has no words.
pub proof fn lemma_tokens_blank(s: Seq<char>)
    requires
        is_blank(s),
    ensures
        tokens(s).len() == 0,
    decreases s.len(),
{
    if s.len() > 0 {
        let t = s.drop_first();
        assert(is_white_space(s[0]));
        assert forall|i: int| 0 <= i < t.len() implies is_white_space(#[trigger] t[i]) by {
            assert(t[i] == s[i + 1]);
        }
        lemma_tokens_blank(t);
    }
}

/// The leading whitespace of `s` is whitespace, and what follows it is not.
pub proof fn lemma_leading_space_ends(s: Seq<char>)
    ensures
        leading_space(s) <= s.len(),
        forall|i: int| 0 <= i < leading_space(s) ==> is_white_space(#[trigger] s[i]),
        leading_space(s) < s.len() ==> !is_white_space(s[leading_space(s) as int]),
    decreases s.len(),
{
    if s.len() > 0 && is_white_space(s[0]) {
        let t = s.drop_first();
        lemma_leading_space_ends(t);
        assert forall|i: int| 0 <= i < leading_space(s) implies is_white_space(#[trigger] s[i]) by {
            if i > 0 {
                assert(s[i] == t[i - 1]);
            }
        }
        if leading_space(s) < s.len() {
            assert(s[leading_space(s) as int] == t[leading_space(t) as int]);
        }
    }
}

/// The trailing whitespace of `s` is whitespace, and what precedes it is not.
pub proof fn lemma_trailing_space_ends(s: Seq<char>)
    ensures
        trailing_space(s) <= s.len(),
        forall|i: int| s.len() - trailing_space(s) <= i < s.len() ==> is_white_space(#[trigger] s[i]),
        trailing_space(s) < s.len() ==> !is_white_space(s[s.len() - trailing_space(s) - 1]),
    decreases s.len(),
{
    if s.len() > 0 && is_white_space(s.last()) {
        let t = s.drop_last();
        lemma_trailing_space_ends(t);
        assert forall|i: int| s.len() - trailing_space(s) <= i < s.len() implies is_white_space(
            #[trigger] s[i],
        ) by {
            if i < s.len() - 1 {
                assert(s[i] == t[i]);
            }
        }
        if trailing_space(s) < s.len() {
            assert(s[s.len() - trailing_space(s) - 1] == t[t.len() - trailing_space(t) - 1]);
        }
    }
}

/// Trimming leaves nothing exactly when the text is blank; what it leaves
/// neither starts nor ends with whitespace, and is a stretch of the text.
pub proof fn lemma_trimmed(s: Seq<char>)
    ensures
        trimmed(s).len() == 0 <==> is_blank(s),
        trimmed(s).len() > 0 ==> !is_white_space(trimmed(s).first()) && !is_white_space(
            trimmed(s).last(),
        ),
        leading_space(s) + trailing_space(s) <= s.len() || is_blank(s),
        !is_blank(s) ==> trimmed(s) == s.subrange(
            leading_space(s) as int,
            s.len() - trailing_space(s),
        ),
{
    lemma_leading_space_ends(s);
    lemma_trailing_space_ends(s);
    let a = leading_space(s) as int;
    let b = s.len() - trailing_space(s);
    if a < s.len() {
        assert(!is_white_space(s[a]));
        assert(a < b) by {
            if b <= a {
                assert(is_white_space(s[a]));
            }
        }
        assert(!is_blank(s));
        assert(trimmed(s).first() == s[a]);
        assert(trimmed(s).last() == s[b - 1]);
    }
}

/// What trimming leaves, if anything, has at least one word.
pub proof fn lemma_trimmed_has_word(s: Seq<char>)
    ensures
        trimmed(s).len() > 0 ==> tokens(trimmed(s)).len() > 0,
        trimmed(s).len() == 0 ==> tokens(s).len() == 0,
{
    lemma_trimmed(s);
    if trimmed(s).len() > 0 {
        lemma_tokens_nonempty(trimmed(s), 0);
    } else {
        lemma_tokens_blank(s);
    }
}

/// The leading word of `s` holds no whitespace, and what follows it, if
/// anything, is whitespace.
pub proof fn lemma_word_len_ends(s: Seq<char>)
    ensures
        word_len(s) <= s.len(),
        forall|i: int| 0 <= i < word_len(s) ==> !is_white_space(#[trigger] s[i]),
        word_len(s) < s.len() ==> is_white_space(s[word_len(s) as int]),
    decreases s.len(),
{
    if s.len() > 0 && !is_white_space(s[0]) {
        let t = s.drop_first();
        lemma_word_len_ends(t);
        assert forall|i: int| 0 <= i < word_len(s) implies !is_white_space(#[trigger] s[i]) by {
            if i > 0 {
                assert(s[i] == t[i - 1]);
            }
        }
        if word_len(s) < s.len() {
            assert(s[word_len(s) as int] == t[word_len(t) as int]);
        }
    }
}

/// Whether `w` is a word: non-empty and without whitespace.
pub open spec fn is_word(w: Seq<char>) -> bool {
    w.len() > 0 && forall|i: int| 0 <= i < w.len() ==> !is_white_space(#[trigger] w[i])
}

/// Every one of a line's words is a word.
pub proof fn lemma_tokens_are_words(s: Seq<char>)
    ensures
        forall|k: int| 0 <= k < tokens(s).len() ==> is_word(#[trigger] tokens(s)[k]),
    decreases s.len(),
{
    if s.len() == 0 {
        assert(tokens(s).len() == 0);
    } else if is_white_space(s[0]) {
        lemma_tokens_are_words(s.drop_first());
        assert(tokens(s) == tokens(s.drop_first()));
    } else {
        lemma_word_len_ends(s);
        let w = word_len(s) as int;
        let first = s.take(w);
        let rest = tokens(s.skip(w));
        lemma_tokens_are_words(s.skip(w));
        assert(tokens(s) == seq![first] + rest);
        assert(is_word(first)) by {
            assert forall|i: int| 0 <= i < first.len() implies !is_white_space(
                #[trigger] first[i],
            ) by {
                assert(first[i] == s[i]);
            }
        }
        assert forall|k: int| 0 <= k < tokens(s).len() implies is_word(#[trigger] tokens(s)[k]) by {
            if k == 0 {
                assert(tokens(s)[0] == first);
            } else {
                assert(tokens(s)[k] == rest[k - 1]);
            }
        }
    }
}

/// Whitespace at the start of a line does not change its words.
pub proof fn lemma_tokens_skip_space(s: Seq<char>, k: int)
    requires
        0 <= k <= s.len(),
        forall|i: int| 0 <= i < k ==> is_white_space(#[trigger] s[i]),
    ensures
        tokens(s.skip(k)) == tokens(s),
    decreases k,
{
    if k == 0 {
        assert(s.skip(0) =~= s);
    } else {
        let t = s.drop_first();
        assert(is_white_space(s[0]));
        assert forall|i: int| 0 <= i < k - 1 implies is_white_space(#[trigger] t[i]) by {
            assert(t[i] == s[i + 1]);
        }
        lemma_tokens_skip_space(t, k - 1);
        assert(t.skip(k - 1) =~= s.skip(k));
    }
}

/// One whitespace character at the end of a line does not change its words.
pub proof fn lemma_tokens_drop_space(s: Seq<char>)
    requires
        s.len() > 0,
        is_white_space(s.last()),
    ensures
        tokens(s.drop_last()) == tokens(s),
    decreases s.len(),
{
    let d = s.drop_last();
    if s.len() == 1 {
        assert(s.drop_first().len() == 0);
        assert(tokens(s) == tokens(s.drop_first()));
        assert(tokens(s.drop_first()) =~= Seq::<Seq<char>>::empty());
        assert(tokens(d) =~= Seq::<Seq<char>>::empty());
    } else if is_white_space(s[0]) {
        let t = s.drop_first();
        assert(t.last() == s.last());
        lemma_tokens_drop_space(t);
        assert(d[0] == s[0]);
        assert(d.drop_first() =~= t.drop_last());
        assert(tokens(d) == tokens(d.drop_first()));
        assert(tokens(s) == tokens(t));
    } else {
        lemma_word_len_ends(s);
        let w = word_len(s) as int;
        assert(w < s.len()) by {
            if w == s.len() {
                assert(!is_white_space(s[s.len() - 1]));
            }
        }
        let rest = s.skip(w);
        assert(rest.last() == s.last());
        lemma_tokens_drop_space(rest);
        assert(d[0] == s[0]);
        assert forall|i: int| 0 <= i < w implies !is_white_space(#[trigger] d[i]) by {
            assert(d[i] == s[i]);
        }
        if w < d.len() {
            assert(d[w] == s[w]);
        }
        lemma_word_len(d, w);
        assert(d.take(w) =~= s.take(w));
        assert(d.skip(w) =~= rest.drop_last());
        assert(tokens(s) == seq![s.take(w)] + tokens(rest));
        assert(tokens(d) == seq![d.take(w)] + tokens(d.skip(w)));
    }
}

/// Whitespace at the end of a line does not change its words.
pub proof fn lemma_tokens_take_space(s: Seq<char>, k: int)
    requires
        0 <= k <= s.len(),
        forall|i: int| k <= i < s.len() ==> is_white_space(#[trigger] s[i]),
    ensures
        tokens(s.take(k)) == tokens(s),
    decreases s.len() - k,
{
    if k == s.len() {
        assert(s.take(k) =~= s);
    } else {
        let d = s.drop_last();
        assert(is_white_space(s[s.len() - 1]));
        lemma_tokens_drop_space(s);
        assert forall|i: int| k <= i < d.len() implies is_white_space(#[trigger] d[i]) by {
            assert(d[i] == s[i]);
        }
        lemma_tokens_take_space(d, k);
        assert(d.take(k) =~= s.take(k));
    }
}

/// Trimming a line does not change its words.
pub proof fn lemma_tokens_trimmed(s: Seq<char>)
    ensures
        tokens(trimmed(s)) == tokens(s),
{
    lemma_trimmed(s);
    lemma_leading_space_ends(s);
    lemma_trailing_space_ends(s);
    if is_blank(s) {
        lemma_tokens_blank(s);
    } else {
        let a = leading_space(s) as int;
        let b = s.len() - trailing_space(s);
        let t = s.skip(a);
        lemma_tokens_skip_space(s, a);
        assert forall|i: int| b - a <= i < t.len() implies is_white_space(#[trigger] t[i]) by {
            assert(t[i] == s[a + i]);
        }
        lemma_tokens_take_space(t, b - a);
        assert(t.take(b - a) =~= s.subrange(a, b));
    }
}

/// The parts, each preceded by one space.
pub open spec fn spaced(parts: Seq<Seq<char>>) -> Seq<char>
    decreases parts.len(),
{
    if parts.len() == 0 {
        Seq::empty()
    } else {
        spaced(parts.drop_last()) + seq![' '] + parts.last()
    }
}

/// The parts with a single space between neighbours.
pub open spec fn joined(parts: Seq<Seq<char>>) -> Seq<char> {
    if parts.len() == 0 {
        Seq::empty()
    } else {
        parts[0] + spaced(parts.skip(1))
    }
}

/// Joins the parts with a single space between neighbours.
pub fn join(parts: &[String]) -> (s: String)
    ensures
        s@ == joined(texts(parts@)),
{
    let mut s = String::new();
    if parts.len() == 0 {
        return s;
    }
    s.append(parts[0].as_str());
    let ghost all = texts(parts@);
    let mut i: usize = 1;
    proof {
        assert(all.subrange(1, 1) =~= Seq::<Seq<char>>::empty());
        assert(s@ =~= all[0] + spaced(all.subrange(1, 1)));
    }
    while i < parts.len()
        invariant
            1 <= i <= parts@.len(),
            all == texts(parts@),
            s@ == all[0] + spaced(all.subrange(1, i as int)),
        decreases parts.len() - i,
    {
        let ghost before = s@;
        push_char(&mut s, ' ');
        s.append(parts[i].as_str());
        proof {
            let next = all.subrange(1, i + 1);
            assert(next.drop_last() =~= all.subrange(1, i as int));
            assert(next.last() == parts@[i as int]@);
            assert(s@ =~= all[0] + spaced(next));
        }
        i += 1;
    }
    proof {
        assert(all.subrange(1, i as int) =~= all.skip(1));
    }
    s
}

/// The character that writes the digit `d`.
pub open spec fn digit(d: nat) -> char {
    if d == 0 {
        '0'
    } else if d == 1 {
        '1'
    } else if d == 2 {
        '2'
    } else if d == 3 {
        '3'
    } else if d == 4 {
        '4'
    } else if d == 5 {
        '5'
    } else if d == 6 {
        '6'
    } else if d == 7 {
        '7'
    } else if d == 8 {
        '8'
    } else {
        '9'
    }
}

/// The decimal numeral of `n`, without leading zeros.
pub open spec fn decimal(n: nat) -> Seq<char>
    decreases n,
{
    if n < 10 {
        seq![digit(n)]
    } else {
        decimal(n / 10).push(digit(n % 10))
    }
}

fn digit_char(d: u32) -> (c: char)
    requires
        d < 10,
    ensures
        c == digit(d as nat),
{
    match d {
        0 => '0',
        1 => '1',
        2 => '2',
        3 => '3',
        4 => '4',
        5 => '5',
        6 => '6',
        7 => '7',
        8 => '8',
        _ => '9',
    }
}

/// Appends the decimal numeral of `n` to `out`.
pub fn push_decimal(out: &mut String, n: u32)
    ensures
        final(out)@ == old(out)@ + decimal(n as nat),
    decreases n,
{
    if n >= 10 {
        push_decimal(out, n / 10);
    }
    push_char(out, digit_char(n % 10));
}

/// Whether `needle` stands in `hay` at position `i`.
pub open spec fn occurs_at(hay: Seq<char>, needle: Seq<char>, i: int) -> bool {
    0 <= i && i + needle.len() <= hay.len() && hay.subrange(i, i + needle.len()) == needle
}

/// Whether `needle` stands somewhere in `hay`.
pub open spec fn occurs_in(hay: Seq<char>, needle: Seq<char>) -> bool {
    exists|i: int| occurs_at(hay, needle, i)
}

fn matches_at(hay: &[char], needle: &[char], i: usize) -> (b: bool)
    requires
        i + needle@.len() <= hay@.len(),
    ensures
        b == occurs_at(hay@, needle@, i as int),
{
    let len = hay.len();
    let mut k: usize = 0;
    while k < needle.len()
        invariant
            k <= needle@.len(),
            i + needle@.len() <= hay@.len() == len,
            forall|j: int| 0 <= j < k ==> hay@[i + j] == needle@[j],
        decreases needle.len() - k,
    {
        if hay[i + k] != needle[k] {
            proof {
                assert(hay@.subrange(i as int, i + needle@.len())[k as int] == hay@[i + k]);
            }
            return false;
        }
        k += 1;
    }
    proof {
        assert(hay@.subrange(i as int, i + needle@.len()) =~= needle@);
    }
    true
}

/// Whether `needle` stands somewhere in `hay`.
pub fn contains(hay: &str, needle: &str) -> (found: bool)
    ensures
        found == occurs_in(hay@, needle@),
{
    let h = to_chars(hay);
    let n = to_chars(needle);
    if n.len() == 0 {
        proof {
            assert(h@.subrange(0, 0) =~= n@);
            assert(occurs_at(hay@, needle@, 0));
        }
        return true;
    }
    if n.len() > h.len() {
        return false;
    }
    let last = h.len() - n.len();
    let mut i: usize = 0;
    while i <= last
        invariant
            i <= last + 1,
            last == h@.len() - n@.len(),
            0 < n@.len() <= h@.len() <= usize::MAX,
            h@ == hay@,
            n@ == needle@,
            forall|j: int| 0 <= j < i ==> !occurs_at(h@, n@, j),
        decreases last + 1 - i,
    {
        if matches_at(h.as_slice(), n.as_slice(), i) {
            assert(occurs_at(hay@, needle@, i as int));
            return true;
        }
        i += 1;
    }
    false
}

/// The number of times `c` is repeated at the start of `s`.
pub open spec fn leading_run(s: Seq<char>, c: char) -> nat
    decreases s.len(),
{
    if s.len() > 0 && s[0] == c {
        1 + leading_run(s.drop_first(), c)
    } else {
        0
    }
}

/// The run of `c` at the start of `s` ends at `k` when everything before `k`
/// is `c` and `k` is the end of `s` or holds another character.
pub proof fn lemma_leading_run(s: Seq<char>, c: char, k: int)
    requires
        0 <= k <= s.len(),
        forall|i: int| 0 <= i < k ==> #[trigger] s[i] == c,
        k == s.len() || s[k] != c,
    ensures
        leading_run(s, c) == k,
    decreases k,
{
    if k > 0 {
        let t = s.drop_first();
        assert forall|i: int| 0 <= i < k - 1 implies #[trigger] t[i] == c by {
            assert(t[i] == s[i + 1]);
        }
        lemma_leading_run(t, c, k - 1);
    }
}

/// A copy of `s` without the run of `c` at its start.
pub fn strip_leading(s: &str, c: char) -> (t: String)
    ensures
        t@ == s@.skip(leading_run(s@, c) as int),
{
    let chars = to_chars(s);
    let n = chars.len();
    let mut start: usize = 0;
    while start < n && chars[start] == c
        invariant
            start <= n == chars@.len(),
            forall|i: int| 0 <= i < start ==> #[trigger] chars@[i] == c,
        decreases n - start,
    {
        start += 1;
    }
    proof {
        lemma_leading_run(chars@, c, start as int);
    }
    from_chars(chars.as_slice(), start, n)
}

} // verus!
