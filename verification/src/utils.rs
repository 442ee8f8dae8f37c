//! Text forms the service stores: key/value pairs as lines of
//! `key<TAB>value` separated by CRLF, and lists written as `[a, b, c]`.

use std::collections::HashMap;

use vstd::prelude::*;
use vstd::std_specs::hash::obeys_key_model;

use crate::parcel::{map_of, pairs_map};

use crate::text::{
    chars_of, contains_seq, dec_digits, i64_to_text, int_text, occurs_at, push_char, push_str,
    split_by, split_seq, string_of, texts, u64_to_text,
};

verus! {

/// The line separator of stored pairs.
pub open spec fn crlf() -> Seq<char> {
    seq!['\r', '\n']
}

/// The items of a list, each followed by the separator but the last.
pub open spec fn join_seq(items: Seq<Seq<char>>, sep: Seq<char>) -> Seq<char>
    decreases items.len(),
{
    if items.len() == 0 {
        Seq::empty()
    } else if items.len() == 1 {
        items[0]
    } else {
        items[0] + sep + join_seq(items.skip(1), sep)
    }
}

/// The line of one pair: its key, a tab, its value.
pub open spec fn pair_line(pair: (Seq<char>, Seq<char>)) -> Seq<char> {
    pair.0 + seq!['\t'] + pair.1
}

/// The texts of a vector of string pairs.
pub open spec fn pair_texts(v: Seq<(String, String)>) -> Seq<(Seq<char>, Seq<char>)> {
    v.map_values(|p: (String, String)| (p.0@, p.1@))
}

/// The stored text of a list of pairs.
pub open spec fn pairs_text(pairs: Seq<(Seq<char>, Seq<char>)>) -> Seq<char> {
    join_seq(pairs.map_values(|p: (Seq<char>, Seq<char>)| pair_line(p)), crlf())
}

/// Writes pairs as lines of `key<TAB>value` separated by CRLF.
pub fn hashmap_to_string(pairs: &Vec<(String, String)>) -> (r: String)
    ensures
        r@ == pairs_text(pair_texts(pairs@)),
{
    let ghost lines = pair_texts(pairs@).map_values(|p: (Seq<char>, Seq<char>)| pair_line(p));
    let n = pairs.len();
    if n == 0 {
        return String::new();
    }
    // Built from the back: `tail` holds the joining of the lines from `i` on.
    let mut tail = String::new();
    push_str(&mut tail, pairs[n - 1].0.as_str());
    push_char(&mut tail, '\t');
    push_str(&mut tail, pairs[n - 1].1.as_str());
    let mut i: usize = n - 1;
    proof {
        assert(lines.skip(i as int) =~= seq![lines[i as int]]);
    }
    while i > 0
        invariant
            0 <= i < n,
            n == pairs@.len(),
            lines == pair_texts(pairs@).map_values(|p: (Seq<char>, Seq<char>)| pair_line(p)),
            tail@ == join_seq(lines.skip(i as int), crlf()),
        decreases i,
    {
        let mut line = String::new();
        push_str(&mut line, pairs[i - 1].0.as_str());
        push_char(&mut line, '\t');
        push_str(&mut line, pairs[i - 1].1.as_str());
        push_char(&mut line, '\r');
        push_char(&mut line, '\n');
        push_str(&mut line, tail.as_str());
        proof {
            let k = (i - 1) as int;
            assert(lines.skip(k).skip(1) =~= lines.skip(i as int));
            assert(lines.skip(k)[0] == lines[k]);
            assert(line@ =~= lines[k] + crlf() + join_seq(lines.skip(i as int), crlf()));
        }
        tail = line;
        i = i - 1;
    }
    proof {
        assert(lines.skip(0) =~= lines);
    }
    tail
}

/// A line cut at its first tab into key and value; nothing when it has no
/// tab.
pub open spec fn split_tab(line: Seq<char>) -> Option<(Seq<char>, Seq<char>)>
    decreases line.len(),
{
    if line.len() == 0 {
        None
    } else if line[0] == '\t' {
        Some((Seq::empty(), line.skip(1)))
    } else {
        match split_tab(line.skip(1)) {
            Some((k, v)) => Some((seq![line[0]] + k, v)),
            None => None,
        }
    }
}

/// Whether a line holds exactly one tab.
pub open spec fn one_tab(line: Seq<char>) -> bool {
    split_tab(line) matches Some((k, v)) && !v.contains('\t')
}

/// Whether a stored text can be read: every line holds exactly one tab.
pub open spec fn readable_text(s: Seq<char>) -> bool {
    s.len() > 0 ==> forall|i: int|
        0 <= i < split_seq(s, crlf()).len() ==> #[trigger] one_tab(split_seq(s, crlf())[i])
}

/// The pairs a stored text holds, in order: none for the empty text.
pub open spec fn text_pairs(s: Seq<char>) -> Seq<(Seq<char>, Seq<char>)> {
    if s.len() == 0 {
        Seq::empty()
    } else {
        split_seq(s, crlf()).map_values(|line: Seq<char>| split_tab(line).unwrap())
    }
}

/// Cuts a line at its first tab.
fn cut_at_tab(line: &str) -> (r: (String, String))
    requires
        split_tab(line@) is Some,
    ensures
        (r.0@, r.1@) == split_tab(line@).unwrap(),
{
    let chars = chars_of(line);
    let mut key: Vec<char> = Vec::new();
    let mut i: usize = 0;
    proof {
        assert(line@.skip(0) =~= line@);
        assert(line@.take(0) =~= Seq::<char>::empty());
        match split_tab(line@) {
            Some((k, v)) => {
                assert(line@.take(0) + k =~= k);
            },
            None => {},
        }
    }
    while i < chars.len() && chars[i] != '\t'
        invariant
            chars@ == line@,
            i <= chars@.len(),
            key@ == line@.take(i as int),
            forall|j: int| 0 <= j < i ==> line@[j] != '\t',
            split_tab(line@) == match split_tab(line@.skip(i as int)) {
                Some((k, v)) => Some((line@.take(i as int) + k, v)),
                None => None,
            },
        decreases chars@.len() - i,
    {
        let ghost t = line@.skip(i as int);
        proof {
            assert(t.skip(1) =~= line@.skip(i + 1));
            assert(line@.take(i as int) + seq![t[0]] =~= line@.take(i + 1));
            match split_tab(t.skip(1)) {
                Some((k, v)) => {
                    assert(line@.take(i as int) + (seq![t[0]] + k) =~= line@.take(i + 1) + k);
                },
                None => {},
            }
        }
        key.push(chars[i]);
        i = i + 1;
    }
    proof {
        if i == chars.len() {
            assert(line@.skip(i as int).len() == 0);
        }
        assert(line@.take(i as int) + Seq::<char>::empty() =~= line@.take(i as int));
    }
    let mut value: Vec<char> = Vec::new();
    let mut j: usize = i + 1;
    while j < chars.len()
        invariant
            chars@ == line@,
            i < chars@.len(),
            i + 1 <= j <= chars@.len(),
            value@ == line@.subrange(i + 1, j as int),
        decreases chars@.len() - j,
    {
        value.push(chars[j]);
        j = j + 1;
    }
    proof {
        assert(line@.skip(i as int).skip(1) =~= line@.subrange(i + 1, chars@.len() as int));
    }
    (string_of(&key), string_of(&value))
}

/// Reads the map of a stored text: a later line wins over an earlier one
/// with the same key (stated where strings obey vstd's model of hashed
/// keys, over pairs with the texts of the lines).
pub fn string_to_hashmap(s: &str) -> (r: HashMap<String, String>)
    requires
        readable_text(s@),
    ensures
        obeys_key_model::<String>() ==> exists|p: Seq<(String, String)>|
            pair_texts(p) == text_pairs(s@) && #[trigger] pairs_map(p) == r@,
{
    let pairs = string_to_pairs(s);
    let r = map_of(&pairs);
    proof {
        if obeys_key_model::<String>() {
            assert(pairs_map(pairs@) == r@);
        }
    }
    r
}

/// Reads the pairs of a stored text, in order.
pub fn string_to_pairs(s: &str) -> (r: Vec<(String, String)>)
    requires
        readable_text(s@),
    ensures
        pair_texts(r@) == text_pairs(s@),
{
    let mut r: Vec<(String, String)> = Vec::new();
    if s.unicode_len() == 0 {
        proof {
            assert(pair_texts(r@) =~= Seq::<(Seq<char>, Seq<char>)>::empty());
        }
        return r;
    }
    proof {
        reveal_strlit("\r\n");
        assert("\r\n"@ =~= crlf());
    }
    let lines = split_by(s, "\r\n");
    let ghost pieces = split_seq(s@, crlf());
    let mut i: usize = 0;
    while i < lines.len()
        invariant
            s@.len() > 0,
            readable_text(s@),
            pieces == split_seq(s@, crlf()),
            texts(lines@) == pieces,
            i <= lines@.len(),
            pair_texts(r@) == pieces.take(i as int).map_values(
                |line: Seq<char>| split_tab(line).unwrap(),
            ),
        decreases lines@.len() - i,
    {
        proof {
            assert(texts(lines@)[i as int] == lines@[i as int]@);
            assert(one_tab(pieces[i as int]));
        }
        let pair = cut_at_tab(lines[i].as_str());
        let ghost before = r@;
        let ghost read = (pair.0@, pair.1@);
        r.push(pair);
        proof {
            assert(read == split_tab(pieces[i as int]).unwrap());
            assert(pair_texts(r@) =~= pair_texts(before).push(read));
            assert(pieces.take(i + 1).map_values(|line: Seq<char>| split_tab(line).unwrap())
                =~= pieces.take(i as int).map_values(
                |line: Seq<char>| split_tab(line).unwrap(),
            ).push(split_tab(pieces[i as int]).unwrap()));
        }
        i = i + 1;
    }
    proof {
        assert(pieces.take(lines@.len() as int) =~= pieces);
    }
    r
}

/// Whether a character is a square bracket.
pub open spec fn is_bracket(c: char) -> bool {
    c == '[' || c == ']'
}

/// `s` without the square brackets at its start.
pub open spec fn trim_start_brackets(s: Seq<char>) -> Seq<char>
    decreases s.len(),
{
    if s.len() > 0 && is_bracket(s[0]) {
        trim_start_brackets(s.skip(1))
    } else {
        s
    }
}

/// `s` without the square brackets at its end.
pub open spec fn trim_end_brackets(s: Seq<char>) -> Seq<char>
    decreases s.len(),
{
    if s.len() > 0 && is_bracket(s.last()) {
        trim_end_brackets(s.drop_last())
    } else {
        s
    }
}

/// The items of a list written as `[a, b, c]`: the text without the
/// brackets at its ends, cut at each `, `.
pub open spec fn list_items(s: Seq<char>) -> Seq<Seq<char>> {
    split_seq(trim_end_brackets(trim_start_brackets(s)), seq![',', ' '])
}

/// Reads the items of a list written as `[a, b, c]`.
pub fn split_string(s: &str) -> (r: Vec<String>)
    ensures
        texts(r@) == list_items(s@),
{
    let chars = chars_of(s);
    let mut start: usize = 0;
    proof {
        assert(s@.skip(0) =~= s@);
    }
    while start < chars.len() && (chars[start] == '[' || chars[start] == ']')
        invariant
            chars@ == s@,
            start <= chars@.len(),
            trim_start_brackets(s@) == trim_start_brackets(s@.skip(start as int)),
        decreases chars@.len() - start,
    {
        proof {
            assert(s@.skip(start as int).skip(1) =~= s@.skip(start + 1));
        }
        start = start + 1;
    }
    let mut end: usize = chars.len();
    proof {
        assert(s@.skip(start as int).len() > 0 ==> !is_bracket(s@.skip(start as int)[0]));
        assert(trim_start_brackets(s@) == s@.skip(start as int));
        assert(s@.subrange(start as int, end as int) =~= s@.skip(start as int));
    }
    while end > start && (chars[end - 1] == '[' || chars[end - 1] == ']')
        invariant
            chars@ == s@,
            start <= end <= chars@.len(),
            trim_start_brackets(s@) == s@.skip(start as int),
            trim_end_brackets(s@.skip(start as int)) == trim_end_brackets(
                s@.subrange(start as int, end as int),
            ),
        decreases end,
    {
        proof {
            assert(s@.subrange(start as int, end as int).drop_last() =~= s@.subrange(
                start as int,
                end - 1,
            ));
        }
        end = end - 1;
    }
    let mut kept: Vec<char> = Vec::new();
    let mut i: usize = start;
    while i < end
        invariant
            chars@ == s@,
            start <= i <= end <= chars@.len(),
            kept@ == s@.subrange(start as int, i as int),
        decreases end - i,
    {
        kept.push(chars[i]);
        i = i + 1;
    }
    proof {
        let t = s@.subrange(start as int, end as int);
        assert(t.len() > 0 ==> !is_bracket(t.last()));
        assert(trim_end_brackets(t) == t);
        reveal_strlit(", ");
        assert(", "@ =~= seq![',', ' ']);
    }
    let trimmed = string_of(&kept);
    split_by(trimmed.as_str(), ", ")
}

/// Whether a text holds no line separator.
pub open spec fn no_crlf(s: Seq<char>) -> bool {
    !contains_seq(s, crlf())
}

/// Whether a pair can be stored and read back: neither key nor value holds
/// a tab or a line separator.
pub open spec fn storable_pair(pair: (Seq<char>, Seq<char>)) -> bool {
    &&& !pair.0.contains('\t')
    &&& !pair.1.contains('\t')
    &&& no_crlf(pair.0)
    &&& no_crlf(pair.1)
}

/// Whether a separator is two different characters, so that it cannot
/// overlap itself.
pub open spec fn two_char_sep(sep: Seq<char>) -> bool {
    sep.len() == 2 && sep[0] != sep[1]
}

proof fn lemma_no_sep_skip(a: Seq<char>, sep: Seq<char>)
    requires
        a.len() > 0,
        !contains_seq(a, sep),
    ensures
        !contains_seq(a.skip(1), sep),
{
    assert forall|j: int| !occurs_at(a.skip(1), sep, j) by {
        if occurs_at(a.skip(1), sep, j) {
            assert(a.skip(1).subrange(j, j + sep.len()) =~= a.subrange(j + 1, j + 1 + sep.len()));
            assert(occurs_at(a, sep, j + 1));
        }
    }
}

proof fn lemma_split_plain(a: Seq<char>, sep: Seq<char>)
    requires
        two_char_sep(sep),
        !contains_seq(a, sep),
    ensures
        split_seq(a, sep) == seq![a],
    decreases a.len(),
{
    if a.len() >= 2 {
        if a.take(2) == sep {
            assert(a.subrange(0, 2) =~= a.take(2));
            assert(occurs_at(a, sep, 0));
        }
        lemma_no_sep_skip(a, sep);
        lemma_split_plain(a.skip(1), sep);
        assert(seq![a[0]] + a.skip(1) =~= a);
    }
}

proof fn lemma_split_line(a: Seq<char>, t: Seq<char>, sep: Seq<char>)
    requires
        two_char_sep(sep),
        !contains_seq(a, sep),
    ensures
        split_seq(a + sep + t, sep) == seq![a] + split_seq(t, sep),
    decreases a.len(),
{
    let w = a + sep + t;
    if a.len() == 0 {
        assert(w.take(2) =~= sep);
        assert(w.skip(2) =~= t);
        assert(a =~= Seq::<char>::empty());
    } else {
        if a.len() >= 2 {
            assert(w.take(2) =~= a.take(2));
            if a.take(2) == sep {
                assert(a.subrange(0, 2) =~= a.take(2));
                assert(occurs_at(a, sep, 0));
            }
        } else {
            assert(w.take(2)[1] == sep[0]);
        }
        assert(w.take(2) != sep);
        lemma_no_sep_skip(a, sep);
        assert(w.skip(1) =~= a.skip(1) + sep + t);
        lemma_split_line(a.skip(1), t, sep);
        assert(seq![a[0]] + a.skip(1) =~= a);
        assert(split_seq(w, sep) =~= seq![a] + split_seq(t, sep));
    }
}

/// Joining items that hold no separator and splitting the result again
/// gives back the items, for a separator of two different characters.
pub proof fn lemma_split_join(lines: Seq<Seq<char>>, sep: Seq<char>)
    requires
        two_char_sep(sep),
        lines.len() >= 1,
        forall|i: int| 0 <= i < lines.len() ==> !contains_seq(#[trigger] lines[i], sep),
    ensures
        split_seq(join_seq(lines, sep), sep) == lines,
    decreases lines.len(),
{
    if lines.len() == 1 {
        lemma_split_plain(lines[0], sep);
        assert(seq![lines[0]] =~= lines);
    } else {
        let rest = lines.skip(1);
        assert forall|i: int| 0 <= i < rest.len() implies !contains_seq(#[trigger] rest[i], sep) by {
            assert(rest[i] == lines[i + 1]);
        }
        lemma_split_join(rest, sep);
        lemma_split_line(lines[0], join_seq(rest, sep), sep);
        assert(seq![lines[0]] + rest =~= lines);
    }
}

proof fn lemma_line_plain(k: Seq<char>, v: Seq<char>)
    requires
        no_crlf(k),
        no_crlf(v),
    ensures
        no_crlf(k + seq!['\t'] + v),
{
    let line = k + seq!['\t'] + v;
    assert forall|j: int| !occurs_at(line, crlf(), j) by {
        if occurs_at(line, crlf(), j) {
            let piece = line.subrange(j, j + 2);
            assert(piece[0] == '\r' && piece[1] == '\n');
            if j + 2 <= k.len() {
                assert(k.subrange(j, j + 2) =~= piece);
                assert(occurs_at(k, crlf(), j));
            } else if j == k.len() - 1 {
                assert(line[j + 1] == '\t');
            } else if j == k.len() {
                assert(line[j] == '\t');
            } else {
                let jv = j - k.len() - 1;
                assert(v.subrange(jv, jv + 2) =~= piece);
                assert(occurs_at(v, crlf(), jv));
            }
        }
    }
}

proof fn lemma_tab_split(k: Seq<char>, v: Seq<char>)
    requires
        !k.contains('\t'),
    ensures
        split_tab(k + seq!['\t'] + v) == Some((k, v)),
    decreases k.len(),
{
    let line = k + seq!['\t'] + v;
    if k.len() == 0 {
        assert(line.skip(1) =~= v);
        assert(k =~= Seq::<char>::empty());
    } else {
        assert(line[0] == k[0]);
        assert(k[0] != '\t') by {
            if k[0] == '\t' {
                assert(k.contains('\t'));
            }
        }
        assert(!k.skip(1).contains('\t')) by {
            if k.skip(1).contains('\t') {
                let j = choose|j: int| 0 <= j < k.skip(1).len() && k.skip(1)[j] == '\t';
                assert(k[j + 1] == '\t');
            }
        }
        assert(line.skip(1) =~= k.skip(1) + seq!['\t'] + v);
        lemma_tab_split(k.skip(1), v);
        assert(seq![k[0]] + k.skip(1) =~= k);
    }
}

/// Pairs written as stored text are read back as the same pairs, in the
/// same order, as long as no key or value holds a tab or a line separator.
pub proof fn lemma_pairs_round_trip(pairs: Seq<(Seq<char>, Seq<char>)>)
    requires
        forall|i: int| 0 <= i < pairs.len() ==> storable_pair(#[trigger] pairs[i]),
    ensures
        readable_text(pairs_text(pairs)),
        text_pairs(pairs_text(pairs)) == pairs,
{
    let lines = pairs.map_values(|p: (Seq<char>, Seq<char>)| pair_line(p));
    if pairs.len() == 0 {
        assert(text_pairs(pairs_text(pairs)) =~= pairs);
    } else {
        assert forall|i: int| 0 <= i < lines.len() implies no_crlf(#[trigger] lines[i]) by {
            lemma_line_plain(pairs[i].0, pairs[i].1);
        }
        lemma_split_join(lines, crlf());
        assert(pairs_text(pairs).len() > 0) by {
            lemma_join_starts(lines);
        }
        assert forall|i: int| 0 <= i < lines.len() implies split_tab(#[trigger] lines[i]) == Some(
            pairs[i],
        ) by {
            lemma_tab_split(pairs[i].0, pairs[i].1);
        }
        assert(text_pairs(pairs_text(pairs)) =~= pairs);
    }
}

proof fn lemma_join_starts(lines: Seq<Seq<char>>)
    requires
        lines.len() >= 1,
    ensures
        join_seq(lines, crlf()).len() >= lines[0].len(),
        lines[0].len() > 0 ==> join_seq(lines, crlf()).len() > 0,
{
}

/// The separator of written list items.
pub open spec fn comma_space() -> Seq<char> {
    seq![',', ' ']
}

/// A list written as `[a, b, c]`.
pub open spec fn list_text(items: Seq<Seq<char>>) -> Seq<char> {
    seq!['['] + join_seq(items, comma_space()) + seq![']']
}

/// The decimal writings of signed numbers.
pub open spec fn i64_texts(v: Seq<i64>) -> Seq<Seq<char>> {
    v.map_values(|x: i64| int_text(x as int))
}

/// The decimal writings of byte counts.
pub open spec fn usize_texts(v: Seq<usize>) -> Seq<Seq<char>> {
    v.map_values(|x: usize| dec_digits(x as nat))
}

/// Writes a list of texts as `[a, b, c]`.
fn write_list(items: &Vec<String>) -> (r: String)
    ensures
        r@ == list_text(texts(items@)),
{
    let ghost all = texts(items@);
    let n = items.len();
    let mut body = String::new();
    if n > 0 {
        push_str(&mut body, items[n - 1].as_str());
        let mut i: usize = n - 1;
        proof {
            assert(all.skip(i as int) =~= seq![all[i as int]]);
        }
        while i > 0
            invariant
                0 <= i < n,
                n == items@.len(),
                all == texts(items@),
                body@ == join_seq(all.skip(i as int), comma_space()),
            decreases i,
        {
            let mut piece = String::new();
            push_str(&mut piece, items[i - 1].as_str());
            push_char(&mut piece, ',');
            push_char(&mut piece, ' ');
            push_str(&mut piece, body.as_str());
            proof {
                let k = (i - 1) as int;
                assert(all.skip(k).skip(1) =~= all.skip(i as int));
                assert(all.skip(k)[0] == all[k]);
                assert(piece@ =~= all[k] + comma_space() + join_seq(all.skip(i as int), comma_space()));
            }
            body = piece;
            i = i - 1;
        }
        proof {
            assert(all.skip(0) =~= all);
        }
    }
    let mut r = String::new();
    push_char(&mut r, '[');
    push_str(&mut r, body.as_str());
    push_char(&mut r, ']');
    proof {
        if n == 0 {
            assert(all =~= Seq::<Seq<char>>::empty());
        }
        assert(r@ =~= list_text(all));
    }
    r
}

/// Writes signed sizes as a list `[a, b, c]`, as they are stored.
pub fn i64_list_text(v: &Vec<i64>) -> (r: String)
    ensures
        r@ == list_text(i64_texts(v@)),
{
    let mut items: Vec<String> = Vec::new();
    let mut i: usize = 0;
    while i < v.len()
        invariant
            i <= v@.len(),
            texts(items@) == i64_texts(v@.take(i as int)),
        decreases v@.len() - i,
    {
        let t = i64_to_text(v[i]);
        let ghost before = items@;
        items.push(t);
        proof {
            assert(texts(items@) =~= texts(before).push(int_text(v@[i as int] as int)));
            assert(i64_texts(v@.take(i + 1)) =~= i64_texts(v@.take(i as int)).push(
                int_text(v@[i as int] as int),
            ));
        }
        i = i + 1;
    }
    proof {
        assert(v@.take(v@.len() as int) =~= v@);
    }
    write_list(&items)
}

/// Writes byte counts as a list `[a, b, c]`, as they are stored.
pub fn usize_list_text(v: &Vec<usize>) -> (r: String)
    ensures
        r@ == list_text(usize_texts(v@)),
{
    let mut items: Vec<String> = Vec::new();
    let mut i: usize = 0;
    while i < v.len()
        invariant
            i <= v@.len(),
            texts(items@) == usize_texts(v@.take(i as int)),
        decreases v@.len() - i,
    {
        let t = u64_to_text(v[i] as u64);
        let ghost before = items@;
        items.push(t);
        proof {
            assert(texts(items@) =~= texts(before).push(dec_digits(v@[i as int] as nat)));
            assert(usize_texts(v@.take(i + 1)) =~= usize_texts(v@.take(i as int)).push(
                dec_digits(v@[i as int] as nat),
            ));
        }
        i = i + 1;
    }
    proof {
        assert(v@.take(v@.len() as int) =~= v@);
    }
    write_list(&items)
}

/// Whether a text can be an item of a written list that reads back: it is
/// not empty and holds no bracket and no comma.
pub open spec fn plain_item(s: Seq<char>) -> bool {
    &&& s.len() > 0
    &&& forall|j: int| 0 <= j < s.len() ==> !is_bracket(#[trigger] s[j]) && s[j] != ','
}

proof fn lemma_join_ends(items: Seq<Seq<char>>, sep: Seq<char>)
    requires
        items.len() >= 1,
        forall|i: int| 0 <= i < items.len() ==> (#[trigger] items[i]).len() > 0,
    ensures
        join_seq(items, sep).len() > 0,
        join_seq(items, sep)[0] == items[0][0],
        join_seq(items, sep).last() == items.last().last(),
    decreases items.len(),
{
    if items.len() > 1 {
        let rest = items.skip(1);
        assert(rest.last() == items.last());
        assert forall|i: int| 0 <= i < rest.len() implies (#[trigger] rest[i]).len() > 0 by {
            assert(rest[i] == items[i + 1]);
        }
        lemma_join_ends(rest, sep);
    }
}

proof fn lemma_trim_list(body: Seq<char>)
    requires
        body.len() > 0,
        !is_bracket(body[0]),
        !is_bracket(body.last()),
    ensures
        trim_end_brackets(trim_start_brackets(seq!['['] + body + seq![']'])) == body,
{
    let t = seq!['['] + body + seq![']'];
    assert(t.skip(1) =~= body + seq![']']);
    assert((body + seq![']'])[0] == body[0]);
    assert(t[0] == '[');
    assert(trim_start_brackets(t.skip(1)) == t.skip(1));
    assert(trim_start_brackets(t) == body + seq![']']);
    assert((body + seq![']']).drop_last() =~= body);
    assert(trim_end_brackets(body) == body);
}

proof fn lemma_plain_no_comma_space(s: Seq<char>)
    requires
        plain_item(s),
    ensures
        !contains_seq(s, comma_space()),
{
    if contains_seq(s, comma_space()) {
        let j = choose|j: int| occurs_at(s, comma_space(), j);
        assert(s.subrange(j, j + 2)[0] == ',');
        assert(s[j] == ',');
    }
}

/// A list of plain items written as `[a, b, c]` reads back as the same
/// items. (The empty list does not: `[]` reads as one empty item.)
pub proof fn lemma_list_round_trip(items: Seq<Seq<char>>)
    requires
        items.len() >= 1,
        forall|i: int| 0 <= i < items.len() ==> plain_item(#[trigger] items[i]),
    ensures
        list_items(list_text(items)) == items,
{
    let body = join_seq(items, comma_space());
    assert forall|i: int| 0 <= i < items.len() implies (#[trigger] items[i]).len() > 0 by {
        assert(plain_item(items[i]));
    }
    lemma_join_ends(items, comma_space());
    assert(plain_item(items[0]));
    assert(plain_item(items.last()));
    assert(!is_bracket(items[0][0]));
    assert(!is_bracket(items.last()[items.last().len() - 1]));
    lemma_trim_list(body);
    assert forall|i: int| 0 <= i < items.len() implies !contains_seq(
        #[trigger] items[i],
        comma_space(),
    ) by {
        lemma_plain_no_comma_space(items[i]);
    }
    lemma_split_join(items, comma_space());
}

proof fn lemma_dec_digits_plain(n: nat)
    ensures
        plain_item(dec_digits(n)),
        forall|j: int| 0 <= j < dec_digits(n).len() ==> #[trigger] dec_digits(n)[j] != '-',
    decreases n,
{
    if n >= 10 {
        lemma_dec_digits_plain(n / 10);
    }
    let d = dec_digits(n);
    assert forall|j: int| 0 <= j < d.len() implies !is_bracket(#[trigger] d[j]) && d[j] != ','
        && d[j] != '-' by {
        if n >= 10 && j < d.len() - 1 {
            assert(d[j] == dec_digits(n / 10)[j]);
        }
    }
}

proof fn lemma_int_text_plain(n: int)
    ensures
        plain_item(int_text(n)),
{
    if n < 0 {
        lemma_dec_digits_plain((-n) as nat);
        let t = int_text(n);
        assert forall|j: int| 0 <= j < t.len() implies !is_bracket(#[trigger] t[j]) && t[j] != ','
            by {
            if j > 0 {
                assert(t[j] == dec_digits((-n) as nat)[j - 1]);
            }
        }
    } else {
        lemma_dec_digits_plain(n as nat);
    }
}

/// Sizes written as a list read back as the writings of the same sizes,
/// when there is at least one.
pub proof fn lemma_i64_list_round_trip(v: Seq<i64>)
    requires
        v.len() >= 1,
    ensures
        list_items(list_text(i64_texts(v))) == i64_texts(v),
{
    let items = i64_texts(v);
    assert forall|i: int| 0 <= i < items.len() implies plain_item(#[trigger] items[i]) by {
        lemma_int_text_plain(v[i] as int);
    }
    lemma_list_round_trip(items);
}

/// Byte counts written as a list read back as the writings of the same
/// counts, when there is at least one.
pub proof fn lemma_usize_list_round_trip(v: Seq<usize>)
    requires
        v.len() >= 1,
    ensures
        list_items(list_text(usize_texts(v))) == usize_texts(v),
{
    let items = usize_texts(v);
    assert forall|i: int| 0 <= i < items.len() implies plain_item(#[trigger] items[i]) by {
        lemma_dec_digits_plain(v[i] as nat);
    }
    lemma_list_round_trip(items);
}

/// An integer parameter of a system event, from what the event answered:
/// -1 means the parameter is missing.
pub fn int_param(answer: i32) -> (r: Option<i32>)
    ensures
        r == if answer == -1 {
            None
        } else {
            Some(answer)
        },
{
    if answer == -1 {
        None
    } else {
        Some(answer)
    }
}

/// The result of subscribing to system events, from the code the system
/// answered: 0 is success, anything else the error.
pub fn subscribe_answer(code: i32) -> (r: Result<(), i32>)
    ensures
        r == if code == 0 {
            Ok::<(), i32>(())
        } else {
            Err(code)
        },
{
    if code == 0 {
        Ok(())
    } else {
        Err(code)
    }
}

} // verus!
