//! Text as sequences of characters: searching, trimming, splitting and numbers.

use vstd::prelude::*;

verus! {

/// `String::push` appends one character and keeps what was there.
pub assume_specification[ String::push ](s: &mut String, c: char)
    ensures
        final(s)@ == old(s)@.push(c),
;

/// The characters of `s`, in order.
pub fn chars_of(s: &str) -> (r: Vec<char>)
    ensures
        r@ == s@,
{
    let mut r: Vec<char> = Vec::new();
    for c in it: s.chars()
        invariant
            it.seq() == s@,
            r@ == s@.take(it.index() as int),
    {
        r.push(c);
        proof {
            assert(s@.take(it.index() as int).push(c) =~= s@.take(it.index() + 1));
        }
    }
    proof {
        assert(s@.take(s@.len() as int) =~= s@);
    }
    r
}

/// Whether two texts are the same.
pub fn same_text(a: &str, b: &str) -> (r: bool)
    ensures
        r == (a@ == b@),
{
    let s = chars_of(a);
    let t = chars_of(b);
    if s.len() != t.len() {
        return false;
    }
    let mut i: usize = 0;
    while i < s.len()
        invariant
            i <= s@.len(),
            s@.len() == t@.len(),
            s@ == a@,
            t@ == b@,
            forall|k: int| 0 <= k < i ==> s@[k] == t@[k],
        decreases s@.len() - i,
    {
        if s[i] != t[i] {
            return false;
        }
        i = i + 1;
    }
    proof {
        assert(s@ =~= t@);
    }
    true
}

/// The text made of the characters of `v` from `from` up to but not including `to`.
pub fn text_between(v: &Vec<char>, from: usize, to: usize) -> (r: String)
    requires
        from <= to <= v@.len(),
    ensures
        r@ == v@.subrange(from as int, to as int),
{
    let mut r = String::new();
    let mut i: usize = from;
    while i < to
        invariant
            from <= i <= to <= v@.len(),
            r@ == v@.subrange(from as int, i as int),
        decreases to - i,
    {
        r.push(v[i]);
        i = i + 1;
        proof {
            assert(v@.subrange(from as int, i as int) =~= v@.subrange(from as int, i - 1).push(v@[i - 1]));
        }
    }
    r
}

// ---- Searching ----

/// `needle` stands in `text` at position `i`.
pub open spec fn occurs_at(text: Seq<char>, needle: Seq<char>, i: int) -> bool {
    0 <= i && i + needle.len() <= text.len() && text.subrange(i, i + needle.len()) == needle
}

/// `needle` stands somewhere in `text`.
pub open spec fn occurs_in(text: Seq<char>, needle: Seq<char>) -> bool {
    exists|i: int| occurs_at(text, needle, i)
}

/// The first position at or after `from` where `needle` stands in `text`.
pub open spec fn first_from(text: Seq<char>, needle: Seq<char>, from: int) -> Option<int>
    decreases text.len() + 1 - from,
{
    if from < 0 || from + needle.len() > text.len() {
        None
    } else if occurs_at(text, needle, from) {
        Some(from)
    } else {
        first_from(text, needle, from + 1)
    }
}

/// The first position where `needle` stands in `text`.
pub open spec fn first_index(text: Seq<char>, needle: Seq<char>) -> Option<int> {
    first_from(text, needle, 0)
}

/// The last position at or before `upto` where `needle` stands in `text`.
pub open spec fn last_upto(text: Seq<char>, needle: Seq<char>, upto: int) -> Option<int>
    decreases upto + 1,
{
    if upto < 0 {
        None
    } else if occurs_at(text, needle, upto) {
        Some(upto)
    } else {
        last_upto(text, needle, upto - 1)
    }
}

/// The last position where `needle` stands in `text`.
pub open spec fn last_index(text: Seq<char>, needle: Seq<char>) -> Option<int> {
    last_upto(text, needle, text.len() - needle.len())
}

/// `text` begins with `prefix`.
pub open spec fn begins_with(text: Seq<char>, prefix: Seq<char>) -> bool {
    occurs_at(text, prefix, 0)
}

/// `first_from` gives the least occurrence at or after `from`, and `None` exactly when there is none.
pub proof fn lemma_first_from(text: Seq<char>, needle: Seq<char>, from: int)
    requires
        0 <= from,
    ensures
        match first_from(text, needle, from) {
            Some(i) => from <= i && occurs_at(text, needle, i) && (forall|j: int|
                from <= j < i ==> !occurs_at(text, needle, j)),
            None => forall|j: int| from <= j ==> !occurs_at(text, needle, j),
        },
    decreases text.len() + 1 - from,
{
    if from + needle.len() <= text.len() && !occurs_at(text, needle, from) {
        lemma_first_from(text, needle, from + 1);
    }
}

/// `last_upto` gives the greatest occurrence at or before `upto`, and `None` exactly when there is none.
pub proof fn lemma_last_upto(text: Seq<char>, needle: Seq<char>, upto: int)
    ensures
        match last_upto(text, needle, upto) {
            Some(i) => 0 <= i <= upto && occurs_at(text, needle, i) && (forall|j: int|
                i < j <= upto ==> !occurs_at(text, needle, j)),
            None => forall|j: int| j <= upto ==> !occurs_at(text, needle, j),
        },
    decreases upto + 1,
{
    if upto >= 0 && !occurs_at(text, needle, upto) {
        lemma_last_upto(text, needle, upto - 1);
    }
}

/// The first index is the given position when `needle` stands there and nowhere before.
pub proof fn lemma_first_index_is(text: Seq<char>, needle: Seq<char>, at: int)
    requires
        occurs_at(text, needle, at),
        forall|j: int| 0 <= j < at ==> !occurs_at(text, needle, j),
    ensures
        first_index(text, needle) == Some(at),
{
    lemma_first_from(text, needle, 0);
}

/// The last index is the given position when `needle` stands there and nowhere after.
pub proof fn lemma_last_index_is(text: Seq<char>, needle: Seq<char>, at: int)
    requires
        occurs_at(text, needle, at),
        forall|j: int| at < j ==> !occurs_at(text, needle, j),
    ensures
        last_index(text, needle) == Some(at),
{
    lemma_last_upto(text, needle, text.len() - needle.len());
}

/// Whether `needle` stands in `text` at position `i`.
fn stands_at(text: &Vec<char>, needle: &Vec<char>, i: usize) -> (r: bool)
    requires
        i + needle@.len() <= text@.len(),
    ensures
        r == occurs_at(text@, needle@, i as int),
{
    let size: usize = text.len();
    let mut k: usize = 0;
    while k < needle.len()
        invariant
            size == text@.len(),
            k <= needle@.len(),
            i + needle@.len() <= size,
            forall|m: int| 0 <= m < k ==> text@[i + m] == needle@[m],
        decreases needle@.len() - k,
    {
        if text[i + k] != needle[k] {
            proof {
                assert(text@.subrange(i as int, i + needle@.len())[k as int] != needle@[k as int]);
            }
            return false;
        }
        k = k + 1;
    }
    proof {
        assert(text@.subrange(i as int, i + needle@.len()) =~= needle@);
    }
    true
}

/// The first position at or after `from` where `needle` stands in `text`.
pub fn find_from(text: &Vec<char>, needle: &Vec<char>, from: usize) -> (r: Option<usize>)
    ensures
        match r {
            Some(i) => first_from(text@, needle@, from as int) == Some(i as int)
                && i + needle@.len() <= text@.len() <= usize::MAX,
            None => first_from(text@, needle@, from as int) is None,
        },
{
    if needle.len() > text.len() {
        return None;
    }
    let size: usize = text.len();
    let last: usize = size - needle.len();
    let mut i: usize = from;
    while i <= last
        invariant
            size == text@.len(),
            last == text@.len() - needle@.len(),
            from <= i,
            first_from(text@, needle@, from as int) == first_from(text@, needle@, i as int),
        decreases text@.len() + 1 - i,
    {
        if stands_at(text, needle, i) {
            return Some(i);
        }
        if i == last {
            proof {
                reveal_with_fuel(first_from, 2);
            }
            return None;
        }
        i = i + 1;
    }
    None
}

/// The last position where `needle` stands in `text`.
pub fn rfind(text: &Vec<char>, needle: &Vec<char>) -> (r: Option<usize>)
    ensures
        match r {
            Some(i) => last_index(text@, needle@) == Some(i as int)
                && i + needle@.len() <= text@.len() <= usize::MAX,
            None => last_index(text@, needle@) is None,
        },
{
    if needle.len() > text.len() {
        return None;
    }
    let size: usize = text.len();
    let mut i: usize = size - needle.len();
    loop
        invariant
            size == text@.len(),
            i + needle@.len() <= text@.len(),
            last_index(text@, needle@) == last_upto(text@, needle@, i as int),
        decreases i,
    {
        if stands_at(text, needle, i) {
            return Some(i);
        }
        if i == 0 {
            proof {
                reveal_with_fuel(last_upto, 2);
            }
            return None;
        }
        i = i - 1;
    }
}

/// Whether `needle` stands somewhere in `text`.
pub fn contains(text: &str, needle: &str) -> (r: bool)
    ensures
        r == occurs_in(text@, needle@),
{
    let t = chars_of(text);
    let n = chars_of(needle);
    let found = find_from(&t, &n, 0);
    proof {
        lemma_first_from(text@, needle@, 0);
        if found is None {
            assert forall|i: int| !occurs_at(text@, needle@, i) by {}
        }
    }
    found.is_some()
}

/// Whether `text` begins with `prefix`.
pub fn starts_with(text: &str, prefix: &str) -> (r: bool)
    ensures
        r == begins_with(text@, prefix@),
{
    let t = chars_of(text);
    let p = chars_of(prefix);
    p.len() <= t.len() && stands_at(&t, &p, 0)
}

// ---- White space ----

/// The characters that Unicode gives the property White_Space.
pub open spec fn is_space(c: char) -> bool {
    let n = c as u32;
    ||| 0x9 <= n <= 0xd
    ||| n == 0x20
    ||| n == 0x85
    ||| n == 0xa0
    ||| n == 0x1680
    ||| 0x2000 <= n <= 0x200a
    ||| n == 0x2028
    ||| n == 0x2029
    ||| n == 0x202f
    ||| n == 0x205f
    ||| n == 0x3000
}

/// Whether `c` is white space.
pub fn is_whitespace(c: char) -> (r: bool)
    ensures
        r == is_space(c),
{
    let n: u32 = c as u32;
    (0x9 <= n && n <= 0xd) || n == 0x20 || n == 0x85 || n == 0xa0 || n == 0x1680 || (0x2000 <= n && n
        <= 0x200a) || n == 0x2028 || n == 0x2029 || n == 0x202f || n == 0x205f || n == 0x3000
}

/// `s` without the white space that it begins with.
pub open spec fn trimmed_start(s: Seq<char>) -> Seq<char>
    decreases s.len(),
{
    if s.len() > 0 && is_space(s[0]) {
        trimmed_start(s.skip(1))
    } else {
        s
    }
}

/// `s` without the white space that it ends with.
pub open spec fn trimmed_end(s: Seq<char>) -> Seq<char>
    decreases s.len(),
{
    if s.len() > 0 && is_space(s.last()) {
        trimmed_end(s.drop_last())
    } else {
        s
    }
}

/// `s` without the white space around it.
pub open spec fn trimmed(s: Seq<char>) -> Seq<char> {
    trimmed_end(trimmed_start(s))
}

/// `text` without the white space around it.
pub fn trim(text: &str) -> (r: String)
    ensures
        r@ == trimmed(text@),
{
    let t = chars_of(text);
    let mut from: usize = 0;
    proof {
        assert(text@.skip(0) =~= text@);
    }
    while from < t.len() && is_whitespace(t[from])
        invariant
            from <= t@.len(),
            t@ == text@,
            trimmed_start(text@) == trimmed_start(text@.skip(from as int)),
        decreases t@.len() - from,
    {
        proof {
            assert(text@.skip(from as int).skip(1) =~= text@.skip(from + 1));
        }
        from = from + 1;
    }
    let ghost rest = text@.skip(from as int);
    proof {
        assert(trimmed_start(text@) == rest);
    }
    let mut to: usize = t.len();
    proof {
        assert(rest =~= text@.subrange(from as int, to as int));
    }
    while to > from && is_whitespace(t[to - 1])
        invariant
            from <= to <= t@.len(),
            t@ == text@,
            trimmed_end(rest) == trimmed_end(text@.subrange(from as int, to as int)),
        decreases to,
    {
        proof {
            assert(text@.subrange(from as int, to as int).drop_last() =~= text@.subrange(
                from as int,
                to - 1,
            ));
        }
        to = to - 1;
    }
    text_between(&t, from, to)
}

/// The position of the first white space in `s`, or its length.
pub open spec fn word_end(s: Seq<char>) -> int
    decreases s.len(),
{
    if s.len() == 0 || is_space(s[0]) {
        0
    } else {
        1 + word_end(s.skip(1))
    }
}

/// A word ends inside the text.
pub proof fn lemma_word_end(s: Seq<char>)
    ensures
        0 <= word_end(s) <= s.len(),
        forall|i: int| 0 <= i < word_end(s) ==> !is_space(#[trigger] s[i]),
        word_end(s) < s.len() ==> is_space(s[word_end(s)]),
    decreases s.len(),
{
    if s.len() > 0 && !is_space(s[0]) {
        lemma_word_end(s.skip(1));
        assert forall|i: int| 0 <= i < word_end(s) implies !is_space(#[trigger] s[i]) by {
            if i > 0 {
                assert(s[i] == s.skip(1)[i - 1]);
            }
        }
    }
}

/// The text without leading white space is no longer than the text.
pub proof fn lemma_trimmed_start_len(s: Seq<char>)
    ensures
        trimmed_start(s).len() <= s.len(),
        trimmed_start(s).len() > 0 ==> !is_space(trimmed_start(s)[0]),
    decreases s.len(),
{
    if s.len() > 0 && is_space(s[0]) {
        lemma_trimmed_start_len(s.skip(1));
    }
}

/// The words of `s`: its longest runs of characters that are not white space.
pub open spec fn words(s: Seq<char>) -> Seq<Seq<char>>
    decreases s.len(),
{
    let t = trimmed_start(s);
    if t.len() == 0 {
        Seq::empty()
    } else {
        proof {
            lemma_trimmed_start_len(s);
            lemma_word_end(t);
        }
        seq![t.take(word_end(t))] + words(t.skip(word_end(t)))
    }
}

/// The texts of a list of strings.
pub open spec fn texts(v: Seq<String>) -> Seq<Seq<char>> {
    v.map_values(|s: String| s@)
}

/// The words of `text`.
pub fn split_whitespace(text: &str) -> (r: Vec<String>)
    ensures
        texts(r@) == words(text@),
{
    let t = chars_of(text);
    let mut r: Vec<String> = Vec::new();
    let mut i: usize = 0;
    proof {
        assert(t@.skip(0) =~= t@);
        assert(texts(r@) + words(t@) =~= words(t@));
    }
    loop
        invariant
            i <= t@.len(),
            t@ == text@,
            words(text@) == texts(r@) + words(t@.skip(i as int)),
        decreases t@.len() - i,
    {
        let ghost s0 = t@.skip(i as int);
        while i < t.len() && is_whitespace(t[i])
            invariant
                i <= t@.len(),
                t@ == text@,
                trimmed_start(s0) == trimmed_start(t@.skip(i as int)),
            decreases t@.len() - i,
        {
            proof {
                assert(t@.skip(i as int).skip(1) =~= t@.skip(i + 1));
            }
            i = i + 1;
        }
        proof {
            lemma_trimmed_start_len(s0);
            assert(trimmed_start(s0) == t@.skip(i as int));
        }
        if i == t.len() {
            proof {
                assert(texts(r@) + Seq::<Seq<char>>::empty() =~= texts(r@));
            }
            return r;
        }
        let from: usize = i;
        let ghost w = t@.skip(from as int);
        while i < t.len() && !is_whitespace(t[i])
            invariant
                from <= i <= t@.len(),
                t@ == text@,
                w == t@.skip(from as int),
                word_end(w) == (i - from) + word_end(t@.skip(i as int)),
            decreases t@.len() - i,
        {
            proof {
                assert(t@.skip(i as int).skip(1) =~= t@.skip(i + 1));
            }
            i = i + 1;
        }
        let ghost r0 = r@;
        r.push(text_between(&t, from, i));
        proof {
            assert(word_end(w) == i - from);
            assert(w.take(word_end(w)) =~= t@.subrange(from as int, i as int));
            assert(w.skip(word_end(w)) =~= t@.skip(i as int));
            assert(texts(r@) =~= texts(r0).push(w.take(word_end(w))));
            assert(texts(r0) + (seq![w.take(word_end(w))] + words(t@.skip(i as int))) =~= texts(r@)
                + words(t@.skip(i as int)));
        }
    }
}

/// The texts of `parts` one after another, with `sep` between neighbours.
pub open spec fn joined(parts: Seq<Seq<char>>, sep: Seq<char>) -> Seq<char>
    decreases parts.len(),
{
    if parts.len() == 0 {
        Seq::empty()
    } else if parts.len() == 1 {
        parts[0]
    } else {
        joined(parts.drop_last(), sep) + sep + parts.last()
    }
}

/// Where a text stands in `a` or in `b`, it stands in `a + b`.
pub proof fn lemma_occurs_in_part(a: Seq<char>, b: Seq<char>, needle: Seq<char>)
    ensures
        occurs_in(a, needle) ==> occurs_in(a + b, needle),
        occurs_in(b, needle) ==> occurs_in(a + b, needle),
{
    if occurs_in(a, needle) {
        let i = choose|i: int| occurs_at(a, needle, i);
        assert((a + b).subrange(i, i + needle.len()) =~= a.subrange(i, i + needle.len()));
        assert(occurs_at(a + b, needle, i));
    }
    if occurs_in(b, needle) {
        let i = choose|i: int| occurs_at(b, needle, i);
        assert((a + b).subrange(a.len() + i, a.len() + i + needle.len()) =~= b.subrange(
            i,
            i + needle.len(),
        ));
        assert(occurs_at(a + b, needle, a.len() + i));
    }
}

/// What a text holds, whatever holds the text holds too.
pub proof fn lemma_occurs_through(text: Seq<char>, middle: Seq<char>, needle: Seq<char>)
    requires
        occurs_in(text, middle),
        occurs_in(middle, needle),
    ensures
        occurs_in(text, needle),
{
    let i = choose|i: int| occurs_at(text, middle, i);
    let k = choose|k: int| occurs_at(middle, needle, k);
    assert(text.subrange(i + k, i + k + needle.len()) =~= middle.subrange(k, k + needle.len()));
    assert(occurs_at(text, needle, i + k));
}

/// A text that does not hold the separator stands in lines that are joined by it exactly where it
/// stands in one of the lines.
pub proof fn law_text_in_joined_lines_is_in_a_line(
    lines: Seq<Seq<char>>,
    sep: Seq<char>,
    needle: Seq<char>,
)
    requires
        sep.len() == 1,
        needle.len() > 0,
        !needle.contains(sep[0]),
    ensures
        occurs_in(joined(lines, sep), needle) <==> exists|i: int|
            0 <= i < lines.len() && occurs_in(#[trigger] lines[i], needle),
    decreases lines.len(),
{
    if lines.len() == 0 {
        assert(joined(lines, sep) =~= Seq::empty());
        if occurs_in(joined(lines, sep), needle) {
            let i = choose|i: int| occurs_at(joined(lines, sep), needle, i);
            assert(needle.len() == 0);
        }
    } else if lines.len() == 1 {
        if occurs_in(lines[0], needle) {
            assert(0 <= 0 < lines.len());
        }
    } else {
        let front = lines.drop_last();
        let head = joined(front, sep);
        let last = lines.last();
        law_text_in_joined_lines_is_in_a_line(front, sep, needle);
        lemma_occurs_in_part(head + sep, last, needle);
        lemma_occurs_in_part(head, sep, needle);
        assert(forall|i: int| 0 <= i < front.len() ==> #[trigger] front[i] == lines[i]);
        if occurs_in(head, needle) {
            let i = choose|i: int| 0 <= i < front.len() && occurs_in(#[trigger] front[i], needle);
            assert(occurs_in(lines[i], needle));
        }
        if exists|i: int| 0 <= i < lines.len() && occurs_in(#[trigger] lines[i], needle) {
            let i = choose|i: int| 0 <= i < lines.len() && occurs_in(#[trigger] lines[i], needle);
            if i < front.len() {
                assert(occurs_in(front[i], needle));
            }
        }
        if occurs_in(last, needle) {
            assert(occurs_in(lines[lines.len() - 1], needle));
        }
        if occurs_in(joined(lines, sep), needle) {
            let text = head + sep + last;
            let i = choose|i: int| occurs_at(text, needle, i);
            if i + needle.len() <= head.len() {
                assert(head.subrange(i, i + needle.len()) =~= text.subrange(i, i + needle.len()));
                assert(occurs_at(head, needle, i));
            } else if i <= head.len() {
                assert(text.subrange(i, i + needle.len())[head.len() - i] == sep[0]);
                assert(needle[head.len() - i] == sep[0]);
            } else {
                let k = i - head.len() - 1;
                assert(last.subrange(k, k + needle.len()) =~= text.subrange(i, i + needle.len()));
                assert(occurs_at(last, needle, k));
            }
        }
    }
}

/// Joined lines, each character mapped, are the mapped lines joined by the mapped separator.
pub proof fn lemma_joined_maps(lines: Seq<Seq<char>>, sep: Seq<char>, f: spec_fn(char) -> char)
    ensures
        joined(lines, sep).map_values(f) == joined(
            lines.map_values(|line: Seq<char>| line.map_values(f)),
            sep.map_values(f),
        ),
    decreases lines.len(),
{
    let mapped = lines.map_values(|line: Seq<char>| line.map_values(f));
    if lines.len() == 0 {
        assert(joined(lines, sep).map_values(f) =~= joined(mapped, sep.map_values(f)));
    } else if lines.len() > 1 {
        lemma_joined_maps(lines.drop_last(), sep, f);
        assert(mapped.drop_last() =~= lines.drop_last().map_values(
            |line: Seq<char>| line.map_values(f),
        ));
        assert(joined(lines, sep).map_values(f) =~= joined(mapped, sep.map_values(f)));
    }
}

/// The texts of `parts` from position `from` on, with `sep` between neighbours.
pub fn join_from(parts: &Vec<String>, from: usize, sep: &str) -> (r: String)
    requires
        from <= parts@.len(),
    ensures
        r@ == joined(texts(parts@).skip(from as int), sep@),
{
    let ghost all = texts(parts@).skip(from as int);
    let mut r = String::new();
    let mut i: usize = from;
    while i < parts.len()
        invariant
            from <= i <= parts@.len(),
            all == texts(parts@).skip(from as int),
            r@ == joined(all.take(i - from), sep@),
        decreases parts@.len() - i,
    {
        proof {
            assert(all.take(i + 1 - from).drop_last() =~= all.take(i - from));
            assert(all.take(i + 1 - from).last() == parts@[i as int]@);
        }
        if i > from {
            r.append(sep);
            r.append(parts[i].as_str());
        } else {
            r.append(parts[i].as_str());
            proof {
                assert(all.take(1)[0] == parts@[i as int]@);
                assert(r@ =~= parts@[i as int]@);
            }
        }
        i = i + 1;
    }
    proof {
        assert(all.take(all.len() as int) =~= all);
    }
    r
}

/// The texts of `parts`, with `sep` between neighbours.
pub fn join(parts: &Vec<String>, sep: &str) -> (r: String)
    ensures
        r@ == joined(texts(parts@), sep@),
{
    proof {
        assert(texts(parts@).skip(0) =~= texts(parts@));
    }
    join_from(parts, 0, sep)
}

// ---- Numbers ----

/// `c` is one of the ten decimal digits.
pub open spec fn is_digit(c: char) -> bool {
    '0' <= c <= '9'
}

/// The value of a decimal digit.
pub open spec fn digit_value(c: char) -> nat {
    (c as u32 - '0' as u32) as nat
}

/// The decimal digit with the value `d`.
pub open spec fn digit_char(d: nat) -> char {
    (('0' as u32) + d) as char
}

/// Every character of `s` is a decimal digit.
pub open spec fn all_digits(s: Seq<char>) -> bool {
    forall|i: int| 0 <= i < s.len() ==> is_digit(#[trigger] s[i])
}

/// The number that the digits `s` write.
pub open spec fn digits_value(s: Seq<char>) -> nat
    decreases s.len(),
{
    if s.len() == 0 {
        0
    } else {
        digits_value(s.drop_last()) * 10 + digit_value(s.last())
    }
}

/// The decimal digits of `n`, without leading zeros.
pub open spec fn decimal(n: nat) -> Seq<char>
    decreases n,
{
    if n < 10 {
        seq![digit_char(n)]
    } else {
        decimal(n / 10).push(digit_char(n % 10))
    }
}

/// The number below two to the power of 64 that `s` writes: an optional plus sign and at least
/// one digit, nothing else.
pub open spec fn parsed_u64(s: Seq<char>) -> Option<u64> {
    let digits = if s.len() > 0 && s[0] == '+' {
        s.skip(1)
    } else {
        s
    };
    if digits.len() > 0 && all_digits(digits) && digits_value(digits) <= u64::MAX {
        Some(digits_value(digits) as u64)
    } else {
        None
    }
}

/// A longer run of digits does not write a smaller number.
proof fn lemma_digits_value_grows(s: Seq<char>, n: int)
    requires
        0 <= n <= s.len(),
    ensures
        digits_value(s.take(n)) <= digits_value(s),
    decreases s.len(),
{
    if n == s.len() {
        assert(s.take(n) =~= s);
    } else {
        lemma_digits_value_grows(s.drop_last(), n);
        assert(s.drop_last().take(n) =~= s.take(n));
    }
}

/// The digits of a number write that number.
pub proof fn lemma_decimal_value(n: nat)
    ensures
        decimal(n).len() > 0,
        all_digits(decimal(n)),
        digits_value(decimal(n)) == n,
        n > 0 ==> decimal(n)[0] != '0',
    decreases n,
{
    if n < 10 {
        assert(decimal(n).drop_last() =~= Seq::empty());
        assert(digits_value(decimal(n).drop_last()) == 0);
    } else {
        lemma_decimal_value(n / 10);
        assert(decimal(n).drop_last() =~= decimal(n / 10));
    }
}

/// Reading the digits of a number gives the number back.
pub proof fn law_decimal_is_read_back(n: u64)
    ensures
        parsed_u64(decimal(n as nat)) == Some(n),
{
    lemma_decimal_value(n as nat);
}

/// The number that `text` writes in decimal, if it writes one below two to the power of 64.
pub fn parse_u64(text: &str) -> (r: Option<u64>)
    ensures
        r == parsed_u64(text@),
{
    let t = chars_of(text);
    let from: usize = if t.len() > 0 && t[0] == '+' {
        1
    } else {
        0
    };
    let ghost digits = if text@.len() > 0 && text@[0] == '+' {
        text@.skip(1)
    } else {
        text@
    };
    proof {
        assert(digits =~= t@.skip(from as int));
    }
    if from == t.len() {
        return None;
    }
    let mut value: u64 = 0;
    let mut i: usize = from;
    while i < t.len()
        invariant
            from <= i <= t@.len(),
            digits == t@.skip(from as int),
            forall|k: int| 0 <= k < i - from ==> is_digit(#[trigger] digits[k]),
            value == digits_value(digits.take(i - from)),
            parsed_u64(text@) == if digits.len() > 0 && all_digits(digits) && digits_value(digits)
                <= u64::MAX {
                Some(digits_value(digits) as u64)
            } else {
                None
            },
        decreases t@.len() - i,
    {
        let c: char = t[i];
        proof {
            assert(digits[i - from] == c);
            assert(digits.take(i + 1 - from).drop_last() =~= digits.take(i - from));
            assert(digits.take(i + 1 - from).last() == c);
        }
        if c < '0' || '9' < c {
            return None;
        }
        let d: u64 = (c as u32 - '0' as u32) as u64;
        proof {
            lemma_digits_value_grows(digits, i + 1 - from);
        }
        if value > (u64::MAX - d) / 10 {
            return None;
        }
        value = value * 10 + d;
        i = i + 1;
    }
    proof {
        assert(digits.take(digits.len() as int) =~= digits);
    }
    Some(value)
}

/// The decimal digit with the value `d`.
fn digit_of(d: u64) -> (r: char)
    requires
        d < 10,
    ensures
        r == digit_char(d as nat),
{
    if d == 0 {
        '0'
    } else if d == 1 {
        '1'
    } else if d == 2 {
        '2'
    } else if d == 3 {
        '3'
    } else if d == 4 {
        '4'
    } else if d == 5 {
        '5'
    } else if d == 6 {
        '6'
    } else if d == 7 {
        '7'
    } else if d == 8 {
        '8'
    } else {
        '9'
    }
}

/// The decimal digits of `n`.
pub fn to_decimal(n: u64) -> (r: String)
    ensures
        r@ == decimal(n as nat),
    decreases n,
{
    if n < 10 {
        let mut r = String::new();
        r.push(digit_of(n));
        proof {
            assert(r@ =~= decimal(n as nat));
        }
        r
    } else {
        let mut r = to_decimal(n / 10);
        r.push(digit_of(n % 10));
        r
    }
}

/// The absolute value of `n`.
pub fn magnitude(n: i64) -> (r: u64)
    ensures
        r == if n < 0 {
            -n
        } else {
            n as int
        },
{
    if n >= 0 {
        n as u64
    } else {
        (-(n + 1)) as u64 + 1
    }
}

// ---- Characters taken out ----

/// `s` without its commas.
pub open spec fn without_commas(s: Seq<char>) -> Seq<char> {
    s.filter(|c: char| c != ',')
}

/// `text` without its commas.
pub fn remove_commas(text: &str) -> (r: String)
    ensures
        r@ == without_commas(text@),
{
    let t = chars_of(text);
    let mut r = String::new();
    let mut i: usize = 0;
    proof {
        assert(without_commas(t@.take(0)) =~= Seq::empty()) by {
            reveal(Seq::filter);
        }
    }
    while i < t.len()
        invariant
            i <= t@.len(),
            r@ == without_commas(t@.take(i as int)),
        decreases t@.len() - i,
    {
        let c: char = t[i];
        proof {
            assert(t@.take(i + 1).drop_last() =~= t@.take(i as int));
            reveal(Seq::filter);
        }
        if c != ',' {
            r.push(c);
        }
        i = i + 1;
    }
    proof {
        assert(t@.take(t@.len() as int) =~= t@);
    }
    r
}

/// `s` without its color codes: each section sign goes, with the character that follows it.
pub open spec fn without_colors(s: Seq<char>) -> Seq<char>
    decreases s.len(),
{
    if s.len() == 0 || (s.len() == 1 && s[0] == '§') {
        Seq::empty()
    } else if s[0] == '§' {
        without_colors(s.skip(2))
    } else {
        seq![s[0]] + without_colors(s.skip(1))
    }
}

/// Remove the color and format codes, a section sign with the character after it, from `s`.
pub fn remove_mc_colors(s: &str) -> (r: String)
    ensures
        r@ == without_colors(s@),
{
    let t = chars_of(s);
    let mut r = String::new();
    let mut i: usize = 0;
    proof {
        assert(t@.skip(0) =~= t@);
        assert(Seq::<char>::empty() + without_colors(t@) =~= without_colors(t@));
    }
    while i < t.len()
        invariant
            i <= t@.len(),
            t@ == s@,
            without_colors(s@) == r@ + without_colors(t@.skip(i as int)),
        decreases t@.len() - i,
    {
        let c: char = t[i];
        let ghost rest = t@.skip(i as int);
        if c == '§' {
            if t.len() - i >= 2 {
                proof {
                    assert(rest.skip(2) =~= t@.skip(i + 2));
                }
                i = i + 2;
            } else {
                i = i + 1;
            }
        } else {
            proof {
                assert(rest.skip(1) =~= t@.skip(i + 1));
                assert(r@ + (seq![c] + without_colors(t@.skip(i + 1))) =~= r@.push(c)
                    + without_colors(t@.skip(i + 1)));
            }
            r.push(c);
            i = i + 1;
        }
    }
    proof {
        assert(r@ + Seq::<char>::empty() =~= r@);
    }
    r
}

/// No color codes are left: the section sign does not occur in what remains.
pub proof fn law_colors_are_gone(s: Seq<char>)
    ensures
        !without_colors(s).contains('§'),
    decreases s.len(),
{
    if s.len() == 0 {
    } else if s[0] == '§' {
        if s.len() > 1 {
            law_colors_are_gone(s.skip(2));
        }
    } else {
        law_colors_are_gone(s.skip(1));
        let rest = without_colors(s.skip(1));
        assert forall|i: int| 0 <= i < (seq![s[0]] + rest).len() implies (seq![s[0]] + rest)[i]
            != '§' by {
            if i > 0 {
                assert(rest.contains(rest[i - 1]));
            }
        }
    }
}

/// A text without section signs is kept as it is; so removing colors twice is removing them once.
pub proof fn law_plain_text_keeps_its_characters(s: Seq<char>)
    requires
        !s.contains('§'),
    ensures
        without_colors(s) == s,
    decreases s.len(),
{
    if s.len() > 0 {
        assert(s.contains(s[0]));
        assert forall|i: int| 0 <= i < s.skip(1).len() implies s.skip(1)[i] != '§' by {
            assert(s.contains(s[i + 1]));
        }
        law_plain_text_keeps_its_characters(s.skip(1));
        assert(seq![s[0]] + s.skip(1) =~= s);
    }
}

/// Removing colors from a text without colors changes nothing.
pub proof fn law_colors_are_removed_once(s: Seq<char>)
    ensures
        without_colors(without_colors(s)) == without_colors(s),
{
    law_colors_are_gone(s);
    law_plain_text_keeps_its_characters(without_colors(s));
}

/// `a` with `b` behind it.
pub fn plus(a: String, b: &str) -> (r: String)
    ensures
        r@ == a@ + b@,
{
    let mut r = a;
    r.append(b);
    r
}

/// A text is held exactly where something stands before it and something behind it.
pub proof fn law_held_text_stands_between(text: Seq<char>, needle: Seq<char>)
    ensures
        occurs_in(text, needle) <==> exists|before: Seq<char>, after: Seq<char>|
            text == #[trigger] (before + needle + after),
{
    if occurs_in(text, needle) {
        let i = choose|i: int| occurs_at(text, needle, i);
        let before = text.take(i);
        let after = text.skip(i + needle.len());
        assert(text =~= text.take(i) + text.subrange(i, i + needle.len()) + text.skip(
            i + needle.len(),
        ));
        assert(text == before + needle + after);
    }
    if exists|before: Seq<char>, after: Seq<char>| text == #[trigger] (before + needle + after) {
        let (before, after) = choose|before: Seq<char>, after: Seq<char>|
            text == #[trigger] (before + needle + after);
        assert(text.subrange(before.len() as int, before.len() as int + needle.len()) =~= needle);
        assert(occurs_at(text, needle, before.len() as int));
    }
}

/// A text begins with exactly those texts that it is a continuation of.
pub proof fn law_beginning_is_continued(text: Seq<char>, prefix: Seq<char>)
    ensures
        begins_with(text, prefix) <==> prefix.len() <= text.len() && (forall|i: int|
            0 <= i < prefix.len() ==> #[trigger] text[i] == prefix[i]),
{
    if begins_with(text, prefix) {
        assert forall|i: int| 0 <= i < prefix.len() implies #[trigger] text[i] == prefix[i] by {
            assert(text.subrange(0, prefix.len() as int)[i] == prefix[i]);
        }
    }
    if prefix.len() <= text.len() && (forall|i: int|
        0 <= i < prefix.len() ==> #[trigger] text[i] == prefix[i]) {
        assert(text.subrange(0, prefix.len() as int) =~= prefix);
    }
}

/// Among the ASCII characters, white space is the space and the five controls from the tab to the
/// carriage return.
pub proof fn law_ascii_white_space(c: char)
    requires
        (c as u32) < 128,
    ensures
        is_space(c) <==> c == ' ' || c == '\t' || c == '\n' || c == '\r' || c as u32 == 11
            || c as u32 == 12,
{
}

/// What the front loses by trimming is white space, and what is left begins with none.
proof fn lemma_trimmed_start(s: Seq<char>)
    ensures
        trimmed_start(s).len() <= s.len(),
        s.skip(s.len() - trimmed_start(s).len()) == trimmed_start(s),
        forall|i: int|
            0 <= i < s.len() - trimmed_start(s).len() ==> is_space(#[trigger] s[i]),
        trimmed_start(s).len() > 0 ==> !is_space(trimmed_start(s)[0]),
    decreases s.len(),
{
    if s.len() > 0 && is_space(s[0]) {
        let rest = s.skip(1);
        lemma_trimmed_start(rest);
        assert(s.skip(s.len() - trimmed_start(s).len()) =~= rest.skip(
            rest.len() - trimmed_start(rest).len(),
        ));
        assert forall|i: int| 0 <= i < s.len() - trimmed_start(s).len() implies is_space(
            #[trigger] s[i],
        ) by {
            if i > 0 {
                assert(s[i] == rest[i - 1]);
            }
        }
    } else {
        assert(s.skip(0) =~= s);
    }
}

/// What the end loses by trimming is white space, and what is left ends with none.
proof fn lemma_trimmed_end(s: Seq<char>)
    ensures
        trimmed_end(s).len() <= s.len(),
        s.take(trimmed_end(s).len() as int) == trimmed_end(s),
        forall|i: int| trimmed_end(s).len() <= i < s.len() ==> is_space(#[trigger] s[i]),
        trimmed_end(s).len() > 0 ==> !is_space(trimmed_end(s).last()),
    decreases s.len(),
{
    if s.len() > 0 && is_space(s.last()) {
        let rest = s.drop_last();
        lemma_trimmed_end(rest);
        assert(s.take(trimmed_end(s).len() as int) =~= rest.take(trimmed_end(rest).len() as int));
        assert forall|i: int| trimmed_end(s).len() <= i < s.len() implies is_space(
            #[trigger] s[i],
        ) by {
            if i < rest.len() {
                assert(s[i] == rest[i]);
            }
        }
    } else {
        assert(s.take(s.len() as int) =~= s);
    }
}

/// Trimming takes white space from both ends, all of it and nothing else.
pub proof fn law_trimming_takes_the_space_around(s: Seq<char>)
    ensures
        ({
            let t = trimmed(s);
            &&& t.len() > 0 ==> !is_space(t[0]) && !is_space(t.last())
            &&& exists|from: int|
                0 <= from && from + t.len() <= s.len() && #[trigger] s.subrange(
                    from,
                    from + t.len(),
                ) == t && (forall|i: int|
                    0 <= i < from || from + t.len() <= i < s.len() ==> is_space(#[trigger] s[i]))
        }),
{
    let u = trimmed_start(s);
    let t = trimmed(s);
    lemma_trimmed_start(s);
    lemma_trimmed_end(u);
    let from = s.len() - u.len();
    assert(s.subrange(from, from + t.len()) =~= t) by {
        assert(u.take(t.len() as int) =~= t);
        assert forall|i: int| 0 <= i < t.len() implies s[from + i] == t[i] by {
            assert(s.skip(from)[i] == u[i]);
            assert(u.take(t.len() as int)[i] == t[i]);
        }
    }
    if t.len() > 0 {
        assert(t[0] == u.take(t.len() as int)[0]);
    }
    assert forall|i: int| 0 <= i < from || from + t.len() <= i < s.len() implies is_space(
        #[trigger] s[i],
    ) by {
        if i >= from {
            assert(s.skip(from)[i - from] == u[i - from]);
        }
    }
}

/// The text is a word: it is not empty, and holds no white space.
pub open spec fn is_word(s: Seq<char>) -> bool {
    s.len() > 0 && forall|i: int| 0 <= i < s.len() ==> !is_space(#[trigger] s[i])
}

/// The first word of a text that begins with a word and then has white space, or nothing.
proof fn lemma_first_word_goes_first(word: Seq<char>, rest: Seq<char>)
    requires
        is_word(word),
        rest.len() > 0 ==> is_space(rest[0]),
    ensures
        words(word + rest) == seq![word] + words(rest),
{
    let s = word + rest;
    assert(!is_space(word[0]));
    assert(s[0] == word[0]);
    assert(trimmed_start(s) == s);
    lemma_word_end(s);
    let end = word_end(s);
    if end < word.len() {
        assert(s[end] == word[end]);
    } else if end > word.len() {
        assert(s[word.len() as int] == rest[0]);
    }
    assert(s.take(end) =~= word);
    assert(s.skip(end) =~= rest);
}

/// White space before the words makes no difference.
proof fn lemma_space_before_words(rest: Seq<char>)
    ensures
        words(" "@ + rest) == words(rest),
{
    reveal_strlit(" ");
    let s = " "@ + rest;
    assert(s[0] == ' ');
    assert(s.skip(1) =~= rest);
    assert(trimmed_start(s) == trimmed_start(rest));
}

/// Words that are joined by spaces are found again, all of them and in their order.
pub proof fn law_joined_words_are_found_again(list: Seq<Seq<char>>)
    requires
        forall|i: int| 0 <= i < list.len() ==> is_word(#[trigger] list[i]),
    ensures
        words(joined(list, " "@)) == list,
    decreases list.len(),
{
    if list.len() == 0 {
        assert(words(joined(list, " "@)) =~= list);
    } else {
        let rest = list.skip(1);
        assert forall|i: int| 0 <= i < rest.len() implies is_word(#[trigger] rest[i]) by {
            assert(rest[i] == list[i + 1]);
        }
        law_joined_words_are_found_again(rest);
        assert(is_word(list[0]));
        if rest.len() == 0 {
            lemma_first_word_goes_first(list[0], Seq::empty());
            assert(list[0] + Seq::<char>::empty() =~= list[0]);
            assert(words(Seq::<char>::empty()) =~= Seq::empty());
        } else {
            lemma_joined_from_the_front(list, " "@);
            reveal_strlit(" ");
            lemma_first_word_goes_first(list[0], " "@ + joined(rest, " "@));
            lemma_space_before_words(joined(rest, " "@));
            assert(list[0] + (" "@ + joined(rest, " "@)) =~= list[0] + " "@ + joined(rest, " "@));
        }
        assert(seq![list[0]] + rest =~= list);
    }
}

/// Joining can begin at the front.
proof fn lemma_joined_from_the_front(list: Seq<Seq<char>>, sep: Seq<char>)
    requires
        list.len() >= 2,
    ensures
        joined(list, sep) == list[0] + sep + joined(list.skip(1), sep),
    decreases list.len(),
{
    let front = list.drop_last();
    assert(list.skip(1).drop_last() =~= front.skip(1));
    if list.len() == 2 {
        assert(front =~= seq![list[0]]);
        assert(joined(front, sep) == list[0]);
        assert(list.skip(1) =~= seq![list[1]]);
        assert(joined(list.skip(1), sep) == list[1]);
        assert(list.last() == list[1]);
    } else {
        lemma_joined_from_the_front(front, sep);
        assert(joined(list, sep) =~= list[0] + sep + joined(list.skip(1), sep));
    }
}

/// A color code goes out of a text, and nothing else does: what stands before it stays, and what
/// stands behind it loses its own.
pub proof fn law_color_code_goes_out(before: Seq<char>, code: char, after: Seq<char>)
    requires
        !before.contains('§'),
    ensures
        without_colors(before + seq!['§', code] + after) == before + without_colors(after),
    decreases before.len(),
{
    let s = before + seq!['§', code] + after;
    if before.len() == 0 {
        assert(s.skip(2) =~= after);
        assert(before + without_colors(after) =~= without_colors(after));
    } else {
        let rest = before.skip(1);
        assert(before.contains(before[0]));
        assert forall|i: int| 0 <= i < rest.len() implies rest[i] != '§' by {
            assert(before.contains(before[i + 1]));
        }
        law_color_code_goes_out(rest, code, after);
        assert(s.skip(1) =~= rest + seq!['§', code] + after);
        assert(seq![before[0]] + (rest + without_colors(after)) =~= before + without_colors(after));
    }
}

/// Nothing but digits, with a plus sign before them at most, is read as a number, and every digit
/// counts ten times what the next one does.
pub proof fn law_number_is_read_digit_by_digit(s: Seq<char>, digit: char)
    ensures
        parsed_u64(Seq::empty()) is None,
        s.len() > 0 && (exists|i: int| 0 <= i < s.len() && !is_digit(#[trigger] s[i])) && s[0] != '+'
            ==> parsed_u64(s) is None,
        s.len() > 0 && s[0] != '+' && parsed_u64(s) is Some && is_digit(digit) && parsed_u64(s)->0
            * 10 + 9 <= u64::MAX ==> parsed_u64(s.push(digit)) == Some(
            (parsed_u64(s)->0 * 10 + (digit as u32 - '0' as u32)) as u64,
        ),
{
    if s.len() > 0 && s[0] != '+' && parsed_u64(s) is Some && is_digit(digit) {
        assert(s.push(digit).drop_last() =~= s);
        assert(s.push(digit)[0] == s[0]);
    }
}

/// Only commas go out of a text: one without commas stays as it is.
pub proof fn law_only_commas_go_out(s: Seq<char>)
    ensures
        !s.contains(',') ==> without_commas(s) == s,
        !without_commas(s).contains(','),
    decreases s.len(),
{
    reveal(Seq::filter);
    if s.len() > 0 {
        let front = s.drop_last();
        law_only_commas_go_out(front);
        if !s.contains(',') {
            assert forall|i: int| 0 <= i < front.len() implies front[i] != ',' by {
                assert(s.contains(s[i]));
            }
            assert(s.contains(s.last()));
            assert(front.push(s.last()) =~= s);
        }
        let kept = without_commas(front);
        assert forall|i: int| 0 <= i < without_commas(s).len() implies without_commas(s)[i]
            != ',' by {
            if i < kept.len() {
                assert(kept.contains(kept[i]));
            }
        }
    } else {
        assert(without_commas(s) =~= s);
    }
}

/// Digits without a leading zero are those of the number that they write.
proof fn lemma_decimal_of_digits(s: Seq<char>)
    requires
        all_digits(s),
        s.len() > 0,
        s.len() == 1 || s[0] != '0',
    ensures
        decimal(digits_value(s)) == s,
        s[0] != '0' ==> digits_value(s) > 0,
    decreases s.len(),
{
    let last = s.last();
    assert(is_digit(s[s.len() - 1]));
    assert(digit_char(digit_value(last)) == last);
    let front = s.drop_last();
    if front.len() == 0 {
        assert(digits_value(front) == 0);
        assert(decimal(digits_value(s)) =~= s);
    } else {
        assert forall|i: int| 0 <= i < front.len() implies is_digit(#[trigger] front[i]) by {
            assert(is_digit(s[i]));
        }
        assert(front[0] == s[0]);
        lemma_decimal_of_digits(front);
        let n = digits_value(s);
        assert(n == digits_value(front) * 10 + digit_value(last));
        assert(n / 10 == digits_value(front) && n % 10 == digit_value(last)) by (nonlinear_arith)
            requires
                n == digits_value(front) * 10 + digit_value(last),
                digit_value(last) < 10,
        ;
        assert(decimal(n) == decimal(n / 10).push(digit_char(n % 10)));
        assert(front.push(last) =~= s);
    }
}

/// A number is read only from its own digits, whatever its size: what is read from digits without a
/// leading zero has those very digits, so nothing comes of a number that is too large. A plus sign
/// makes no difference.
pub proof fn law_number_is_read_from_its_own_digits(s: Seq<char>)
    ensures
        s.len() > 0 && s[0] != '+' && (s.len() == 1 || s[0] != '0') ==> (parsed_u64(s) matches Some(
            n,
        ) ==> s == decimal(n as nat)),
        s.len() > 0 && s[0] != '+' ==> parsed_u64(seq!['+'] + s) == parsed_u64(s),
{
    if s.len() > 0 && s[0] != '+' {
        assert((seq!['+'] + s).skip(1) =~= s);
        if s.len() == 1 || s[0] != '0' {
            if parsed_u64(s) is Some {
                lemma_decimal_of_digits(s);
            }
        }
    }
}

/// White space parts words: the words of two texts with any white space between them are the words of
/// the one and then those of the other, a word alone is its only word, and nothing has none.
pub proof fn law_white_space_parts_words(a: Seq<char>, space: char, b: Seq<char>)
    requires
        is_space(space),
    ensures
        words(a + seq![space] + b) == words(a) + words(b),
        is_word(a) ==> words(a) == seq![a],
        words(Seq::<char>::empty()).len() == 0,
    decreases a.len(),
{
    let s = a + seq![space] + b;
    let tail = seq![space] + b;
    assert(tail.skip(1) =~= b);
    assert(trimmed_start(tail) == trimmed_start(b));
    assert(words(tail) == words(b));
    if is_word(a) {
        lemma_first_word_goes_first(a, Seq::empty());
        assert(a + Seq::<char>::empty() =~= a);
        assert(words(Seq::<char>::empty()) =~= Seq::empty());
        assert(seq![a] + Seq::<Seq<char>>::empty() =~= seq![a]);
    }
    if a.len() == 0 {
        assert(s =~= tail);
        assert(words(a) + words(b) =~= words(b));
    } else if is_space(a[0]) {
        let rest = a.skip(1);
        law_white_space_parts_words(rest, space, b);
        assert(s.skip(1) =~= rest + seq![space] + b);
        assert(trimmed_start(s) == trimmed_start(s.skip(1)));
        assert(trimmed_start(a) == trimmed_start(rest));
    } else {
        lemma_word_end(a);
        let end = word_end(a);
        let word = a.take(end);
        let rest = a.skip(end);
        assert(is_word(word)) by {
            assert(end > 0);
            assert forall|i: int| 0 <= i < word.len() implies !is_space(#[trigger] word[i]) by {
                assert(word[i] == a[i]);
            }
        }
        assert(a =~= word + rest);
        lemma_first_word_goes_first(word, rest);
        let more = rest + seq![space] + b;
        assert(s =~= word + more);
        if rest.len() == 0 {
            assert(more =~= tail);
        } else {
            assert(more[0] == rest[0]);
        }
        lemma_first_word_goes_first(word, more);
        law_white_space_parts_words(rest, space, b);
        assert(seq![word] + (words(rest) + words(b)) =~= (seq![word] + words(rest)) + words(b));
    }
}

/// The words of a text are words: none is empty, and none holds white space.
pub proof fn law_words_are_words(s: Seq<char>)
    ensures
        forall|i: int| 0 <= i < words(s).len() ==> is_word(#[trigger] words(s)[i]),
    decreases s.len(),
{
    let t = trimmed_start(s);
    if t.len() > 0 {
        lemma_trimmed_start_len(s);
        lemma_word_end(t);
        let end = word_end(t);
        law_words_are_words(t.skip(end));
        let first = t.take(end);
        let rest = words(t.skip(end));
        assert(is_word(first)) by {
            assert forall|i: int| 0 <= i < first.len() implies !is_space(#[trigger] first[i]) by {
                assert(first[i] == t[i]);
            }
        }
        assert forall|i: int| 0 <= i < words(s).len() implies is_word(#[trigger] words(s)[i]) by {
            if i > 0 {
                assert(words(s)[i] == rest[i - 1]);
            }
        }
    }
}

} // verus!
