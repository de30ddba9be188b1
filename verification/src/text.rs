use vstd::prelude::*;
use vstd::string::StrSliceExecFns;
use vstd::string::StringExecFns;

verus! {

/// The whitespace characters this library splits on: ASCII blank,
/// tab, line feed and carriage return.
pub open spec fn is_space(c: char) -> bool {
    c == ' ' || c == '\t' || c == '\n' || c == '\r'
}

pub fn char_is_space(c: char) -> (r: bool)
    ensures
        r == is_space(c),
{
    c == ' ' || c == '\t' || c == '\n' || c == '\r'
}

/// A word holds no whitespace at all.
pub open spec fn space_free(w: Seq<char>) -> bool {
    forall|i: int| 0 <= i < w.len() ==> !is_space(w[i])
}

/// The words of `s`: the maximal runs of non-whitespace characters,
/// in the order they occur.
pub open spec fn split_spaces(s: Seq<char>) -> Seq<Seq<char>>
    decreases s.len(),
{
    if s.len() == 0 {
        Seq::empty()
    } else {
        let prefix = s.drop_last();
        let c = s.last();
        let words = split_spaces(prefix);
        if is_space(c) {
            words
        } else if prefix.len() > 0 && !is_space(prefix.last()) {
            words.update(words.len() - 1, words.last().push(c))
        } else {
            words.push(seq![c])
        }
    }
}

/// The words joined back into one text with a single blank between
/// neighbours.
pub open spec fn join_spaces(words: Seq<Seq<char>>) -> Seq<char>
    decreases words.len(),
{
    if words.len() == 0 {
        Seq::empty()
    } else if words.len() == 1 {
        words[0]
    } else {
        join_spaces(words.drop_last()) + seq![' '] + words.last()
    }
}

/// Whitespace normalization: split into words, join with single blanks.
pub open spec fn normalize_spaces(s: Seq<char>) -> Seq<char> {
    join_spaces(split_spaces(s))
}

/// Every word produced by `split_spaces` is non-empty and free of
/// whitespace; and a text whose last character is not whitespace
/// produces at least one word.
pub proof fn lemma_split_words_wf(s: Seq<char>)
    ensures
        forall|i: int|
            0 <= i < split_spaces(s).len() ==> (#[trigger] split_spaces(s)[i]).len() > 0
                && space_free(split_spaces(s)[i]),
        s.len() > 0 && !is_space(s.last()) ==> split_spaces(s).len() > 0,
    decreases s.len(),
{
    if s.len() > 0 {
        let prefix = s.drop_last();
        let c = s.last();
        lemma_split_words_wf(prefix);
        let words = split_spaces(prefix);
        if is_space(c) {
        } else if prefix.len() > 0 && !is_space(prefix.last()) {
            let grown = words.last().push(c);
            assert(grown.len() > 0);
            assert(space_free(words.last()));
            assert(space_free(grown));
        } else {
            assert(space_free(seq![c]));
        }
    }
}

/// Appending a whitespace character does not change the words.
pub proof fn lemma_split_append_space(s: Seq<char>, c: char)
    requires
        is_space(c),
    ensures
        split_spaces(s.push(c)) == split_spaces(s),
{
    assert(s.push(c).drop_last() =~= s);
    assert(s.push(c).last() == c);
}

/// Appending a whole word after a whitespace boundary appends exactly
/// that word to the word list.
pub proof fn lemma_split_append_word(p: Seq<char>, w: Seq<char>)
    requires
        p.len() == 0 || is_space(p.last()),
        w.len() > 0,
        space_free(w),
    ensures
        split_spaces(p + w) == split_spaces(p).push(w),
    decreases w.len(),
{
    if w.len() == 1 {
        assert((p + w).drop_last() =~= p);
        assert((p + w).last() == w[0]);
        assert(!is_space(w[0]));
        assert(seq![w[0]] =~= w);
    } else {
        let w0 = w.drop_last();
        assert(w0.len() > 0);
        assert(space_free(w0));
        lemma_split_append_word(p, w0);
        assert((p + w).drop_last() =~= p + w0);
        assert((p + w).last() == w.last());
        assert(!is_space(w.last()));
        assert((p + w0).len() > 0);
        assert((p + w0).last() == w0.last());
        assert(!is_space(w0.last()));
        let words = split_spaces(p + w0);
        assert(words == split_spaces(p).push(w0));
        assert(words.len() == split_spaces(p).len() + 1);
        assert(words.last() == w0);
        assert(w0.push(w.last()) =~= w);
        assert(split_spaces(p + w) == words.update(words.len() - 1, w));
        assert(words.update(words.len() - 1, w) =~= split_spaces(p).push(w));
    }
}

/// Splitting is a left inverse of joining: joining any list of
/// non-empty, whitespace-free words with single blanks and splitting
/// again gives back exactly that list.
pub proof fn lemma_split_join(words: Seq<Seq<char>>)
    requires
        forall|i: int|
            0 <= i < words.len() ==> (#[trigger] words[i]).len() > 0 && space_free(words[i]),
    ensures
        split_spaces(join_spaces(words)) == words,
    decreases words.len(),
{
    if words.len() == 0 {
    } else if words.len() == 1 {
        lemma_split_append_word(Seq::empty(), words[0]);
        assert(Seq::empty() + words[0] =~= words[0]);
        assert(split_spaces(words[0]) == Seq::<Seq<char>>::empty().push(words[0]));
        assert(Seq::<Seq<char>>::empty().push(words[0]) =~= words);
    } else {
        let rest = words.drop_last();
        lemma_split_join(rest);
        let j = join_spaces(rest);
        lemma_split_append_space(j, ' ');
        assert(split_spaces(j.push(' ')) == split_spaces(j));
        assert(j.push(' ').len() > 0);
        assert(j.push(' ').last() == ' ');
        lemma_split_append_word(j.push(' '), words.last());
        assert(j.push(' ') + words.last() =~= join_spaces(words));
        assert(split_spaces(join_spaces(words)) == rest.push(words.last()));
        assert(rest.push(words.last()) =~= words);
    }
}

/// The non-whitespace characters of `s`, in order.
pub open spec fn content_chars(s: Seq<char>) -> Seq<char> {
    s.filter(|c: char| !is_space(c))
}

/// Splitting neither invents nor drops content: the split words,
/// concatenated, are exactly the non-whitespace characters of the
/// text, in order.
pub proof fn lemma_split_preserves_content(s: Seq<char>)
    ensures
        split_spaces(s).flatten_alt() == content_chars(s),
    decreases s.len(),
{
    reveal(Seq::filter);
    if s.len() == 0 {
        assert(split_spaces(s).flatten_alt() =~= Seq::<char>::empty());
        assert(content_chars(s) =~= Seq::<char>::empty());
    } else {
        let p = s.drop_last();
        let c = s.last();
        lemma_split_preserves_content(p);
        lemma_split_words_wf(p);
        let words = split_spaces(p);
        if is_space(c) {
            assert(content_chars(s) == content_chars(p));
        } else if p.len() > 0 && !is_space(p.last()) {
            let updated = words.update(words.len() - 1, words.last().push(c));
            assert(words.len() > 0);
            assert(updated.drop_last() =~= words.drop_last());
            assert(updated.last() == words.last().push(c));
            assert(updated.flatten_alt() == updated.drop_last().flatten_alt().add(updated.last()));
            assert(words.flatten_alt() == words.drop_last().flatten_alt().add(words.last()));
            assert(words.drop_last().flatten_alt().add(words.last().push(c)) =~= words.flatten_alt(
            ).push(c));
            assert(content_chars(s) == content_chars(p).push(c));
        } else {
            let pushed = words.push(seq![c]);
            assert(pushed.drop_last() =~= words);
            assert(pushed.flatten_alt() == words.flatten_alt().add(seq![c]));
            assert(words.flatten_alt().add(seq![c]) =~= words.flatten_alt().push(c));
            assert(content_chars(s) == content_chars(p).push(c));
        }
    }
}

/// Normalizing whitespace twice is the same as normalizing once. In
/// particular, a stream that re-splits a completed text into word
/// chunks neither invents nor drops content: the chunks, joined and
/// normalized, reproduce the completed text normalized.
pub proof fn lemma_normalize_idempotent(s: Seq<char>)
    ensures
        normalize_spaces(normalize_spaces(s)) == normalize_spaces(s),
{
    lemma_split_words_wf(s);
    lemma_split_join(split_spaces(s));
}

/// The words of `s`, as owned strings.
pub fn split_whitespace_words(s: &str) -> (r: Vec<String>)
    ensures
        r.deep_view() == split_spaces(s@),
{
    let n = s.unicode_len();
    let mut words: Vec<String> = Vec::new();
    let mut i: usize = 0;
    let mut start: usize = 0;
    while i < n
        invariant
            n == s@.len(),
            i <= n,
            start <= i,
            forall|k: int| start <= k < i ==> !is_space(s@[k]),
            start < i ==> (start == 0 || is_space(s@[start - 1])),
            start == i ==> (i == 0 || is_space(s@[i - 1])),
            start < i ==> words.deep_view().push(s@.subrange(start as int, i as int))
                == split_spaces(s@.take(i as int)),
            start == i ==> words.deep_view() == split_spaces(s@.take(i as int)),
        decreases n - i,
    {
        let ghost pre = s@.take(i as int);
        let ghost post = s@.take(i + 1 as int);
        proof {
            assert(post.drop_last() =~= pre);
            assert(post.last() == s@[i as int]);
        }
        let c = s.get_char(i);
        if char_is_space(c) {
            proof {
                assert(split_spaces(post) == split_spaces(pre));
            }
            if start < i {
                let w = s.substring_char(start, i);
                let ghost before = words.deep_view();
                words.push(w.to_owned());
                proof {
                    assert(words.deep_view() =~= before.push(s@.subrange(start as int, i as int)));
                }
            }
            start = i + 1;
        } else {
            if start < i {
                proof {
                    assert(pre.len() > 0);
                    assert(pre.last() == s@[i - 1]);
                    assert(!is_space(pre.last()));
                    let words0 = split_spaces(pre);
                    assert(words0 == words.deep_view().push(s@.subrange(start as int, i as int)));
                    assert(words0.len() == words.deep_view().len() + 1);
                    assert(words0.last() == s@.subrange(start as int, i as int));
                    assert(split_spaces(post) == words0.update(
                        words0.len() - 1,
                        words0.last().push(s@[i as int]),
                    ));
                    assert(s@.subrange(start as int, i as int).push(s@[i as int]) =~= s@.subrange(
                        start as int,
                        i + 1 as int,
                    ));
                    assert(words0.update(words0.len() - 1, s@.subrange(start as int, i + 1 as int))
                        =~= words.deep_view().push(s@.subrange(start as int, i + 1 as int)));
                }
            } else {
                proof {
                    assert(pre.len() == 0 || is_space(pre.last()));
                    assert(split_spaces(post) == split_spaces(pre).push(seq![s@[i as int]]));
                    assert(seq![s@[i as int]] =~= s@.subrange(start as int, i + 1 as int));
                }
            }
        }
        i = i + 1;
    }
    if start < n {
        let w = s.substring_char(start, n);
        let ghost before = words.deep_view();
        words.push(w.to_owned());
        proof {
            assert(words.deep_view() =~= before.push(s@.subrange(start as int, n as int)));
        }
    }
    proof {
        assert(s@.take(n as int) =~= s@);
    }
    words
}

/// The words joined into one text with a single blank between
/// neighbours.
pub fn join_with_spaces(words: &Vec<String>) -> (r: String)
    ensures
        r@ == join_spaces(words.deep_view()),
{
    let mut out = String::new();
    let mut i: usize = 0;
    proof {
        reveal_strlit(" ");
    }
    while i < words.len()
        invariant
            i <= words.len(),
            out@ == join_spaces(words.deep_view().take(i as int)),
            " "@ =~= seq![' '],
        decreases words.len() - i,
    {
        let ghost pre = words.deep_view().take(i as int);
        let ghost post = words.deep_view().take(i + 1 as int);
        proof {
            assert(post.drop_last() =~= pre);
            assert(post.last() == words.deep_view()[i as int]);
        }
        if i > 0 {
            out.append(" ");
        }
        out.append(words[i].as_str());
        i = i + 1;
    }
    proof {
        assert(words.deep_view().take(words.len() as int) =~= words.deep_view());
    }
    out
}

/// Whitespace normalization of an actual string.
pub fn normalize_whitespace(s: &str) -> (r: String)
    ensures
        r@ == normalize_spaces(s@),
{
    let words = split_whitespace_words(s);
    join_with_spaces(&words)
}

/// The decimal digit character for a value below ten.
pub open spec fn digit_char(d: nat) -> char {
    if d == 0 {
        '0'
    } else if d == 1 {
        '1'
    } else if d == 2 {
        '2'
    } else if d == 3 {
        '3'
    } else if d == 4 {
        '4'
    } else if d == 5 {
        '5'
    } else if d == 6 {
        '6'
    } else if d == 7 {
        '7'
    } else if d == 8 {
        '8'
    } else {
        '9'
    }
}

/// The decimal numeral of `n`, most significant digit first, without
/// leading zeros (zero itself is `0`).
pub open spec fn spec_decimal(n: nat) -> Seq<char>
    decreases n,
{
    if n < 10 {
        seq![digit_char(n)]
    } else {
        spec_decimal(n / 10).push(digit_char(n % 10))
    }
}

/// Render `n` in decimal.
pub fn u64_to_decimal(n: u64) -> (r: String)
    ensures
        r@ == spec_decimal(n as nat),
    decreases n,
{
    proof {
        reveal_strlit("0123456789");
    }
    let digits = "0123456789";
    assert(digits@.len() == 10);
    let d = (n % 10) as usize;
    assert(digits@[d as int] == digit_char((n % 10) as nat));
    let last = digits.substring_char(d, d + 1);
    proof {
        assert(last@ =~= seq![digit_char((n % 10) as nat)]);
    }
    if n < 10 {
        last.to_owned()
    } else {
        let mut prefix = u64_to_decimal(n / 10);
        prefix.append(last);
        proof {
            assert(spec_decimal((n / 10) as nat) + last@ =~= spec_decimal(n as nat));
        }
        prefix
    }
}

} // verus!
