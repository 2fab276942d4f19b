//! Text as a sequence of characters: its lines, their order, and sorting them.

use vstd::prelude::*;
use vstd::relations::{sorted_by, total_ordering};
use vstd::seq_lib::{lemma_sorted_unique, to_multiset_build, to_multiset_contains, to_multiset_insert};

verus! {

/// `String::push`: adds a character at the end of a string.
pub assume_specification[ String::push ](text: &mut String, c: char)
    ensures
        final(text)@ == old(text)@.push(c),
;

/// The character that ends a line.
pub open spec fn is_newline(c: char) -> bool {
    c == '\n'
}

/// A text that holds no newline.
pub open spec fn newline_free(line: Seq<char>) -> bool {
    forall|i: int| 0 <= i < line.len() ==> line[i] != '\n'
}

/// The number of lines of a text: one more than it has newlines.
pub open spec fn line_count(text: Seq<char>) -> nat {
    text.filter(|c: char| is_newline(c)).len() + 1
}

/// Whether the character at `index` of a text is a newline that does not
/// come directly after a carriage return. A newline after a carriage return
/// makes one grapheme cluster with it; any other is a cluster of its own.
pub open spec fn is_line_break(text: Seq<char>, index: int) -> bool {
    &&& 0 <= index < text.len()
    &&& text[index] == '\n'
    &&& index > 0 ==> text[index - 1] != '\r'
}

/// The number of the last line of a text, for one who ends a line at each
/// newline that is a grapheme cluster of its own: the number of newlines of
/// the text that do not come directly after a carriage return.
pub open spec fn last_line(text: Seq<char>) -> nat
    decreases text.len(),
{
    if text.len() == 0 {
        0
    } else if is_line_break(text, text.len() - 1) {
        last_line(text.drop_last()) + 1
    } else {
        last_line(text.drop_last())
    }
}

/// What follows the last newline of a text that does not come directly
/// after a carriage return: the last line, for one who ends a line at each
/// newline that is a grapheme cluster of its own. Without such a newline,
/// the whole text.
pub open spec fn last_line_text(text: Seq<char>) -> Seq<char>
    decreases text.len(),
{
    if text.len() == 0 || is_line_break(text, text.len() - 1) {
        Seq::<char>::empty()
    } else {
        last_line_text(text.drop_last()).push(text.last())
    }
}

/// Whether `left` is what is left of `text` once one stretch has been taken
/// out of it: what came before the stretch and what came after it, in their
/// order and with nothing between them. The stretch may be empty.
pub open spec fn is_cut(text: Seq<char>, left: Seq<char>) -> bool {
    exists|from: int, to: int|
        #![trigger text.take(from), text.skip(to)]
        0 <= from <= to <= text.len() && left == text.take(from) + text.skip(to)
}

/// The pieces of a text between its newlines, in order. There is always at
/// least one: a text that ends in a newline has an empty last piece.
pub open spec fn split_lines(text: Seq<char>) -> Seq<Seq<char>>
    decreases text.len(),
{
    if text.len() == 0 {
        seq![Seq::<char>::empty()]
    } else {
        let before = split_lines(text.drop_last());
        if text.last() == '\n' {
            before.push(Seq::<char>::empty())
        } else {
            before.drop_last().push(before.last().push(text.last()))
        }
    }
}

/// The lines of a text whose newlines end lines rather than separate them:
/// the pieces between the newlines, without an empty piece after the last one.
pub open spec fn split_terminator(text: Seq<char>) -> Seq<Seq<char>> {
    let pieces = split_lines(text);
    if pieces.last().len() == 0 {
        pieces.drop_last()
    } else {
        pieces
    }
}

/// The given lines with one newline between each two neighbours.
pub open spec fn join_lines(lines: Seq<Seq<char>>) -> Seq<char>
    decreases lines.len(),
{
    if lines.len() == 0 {
        Seq::<char>::empty()
    } else if lines.len() == 1 {
        lines[0]
    } else {
        join_lines(lines.drop_last()).push('\n') + lines.last()
    }
}

/// The first line of a text, for one who ends a line at each newline and
/// takes a carriage return directly before the newline for a part of the end:
/// what comes before the first newline, without such a carriage return.
/// Without a newline, the whole text.
pub open spec fn first_line(text: Seq<char>) -> Seq<char> {
    let piece = split_lines(text)[0];
    if split_lines(text).len() > 1 && piece.len() > 0 && piece.last() == '\r' {
        piece.drop_last()
    } else {
        piece
    }
}

/// Line `index` of a text, or the empty line where the text has no such line.
pub open spec fn line_at(text: Seq<char>, index: int) -> Seq<char> {
    if 0 <= index < split_lines(text).len() {
        split_lines(text)[index]
    } else {
        Seq::<char>::empty()
    }
}

/// The views of a vector of lines.
pub open spec fn line_views(lines: Seq<Vec<char>>) -> Seq<Seq<char>> {
    Seq::new(lines.len(), |i: int| lines[i]@)
}

/// The order of lines: character by character, by the characters' code
/// points, a line coming before every longer line that starts with it.
pub open spec fn line_le(a: Seq<char>, b: Seq<char>) -> bool
    decreases a.len(),
{
    if a.len() == 0 {
        true
    } else if b.len() == 0 {
        false
    } else if a[0] != b[0] {
        (a[0] as u32) < (b[0] as u32)
    } else {
        line_le(a.drop_first(), b.drop_first())
    }
}

/// The order of lines as a relation.
pub open spec fn line_order() -> spec_fn(Seq<char>, Seq<char>) -> bool {
    |a: Seq<char>, b: Seq<char>| line_le(a, b)
}

/// The given lines in ascending order.
pub open spec fn sorted_lines(lines: Seq<Seq<char>>) -> Seq<Seq<char>> {
    lines.sort_by(line_order())
}

/// The lines of a text in ascending order, each followed by a newline; for a
/// text without lines, a single newline.
pub open spec fn sorted_text(text: Seq<char>) -> Seq<char> {
    join_lines(sorted_lines(split_terminator(text))).push('\n')
}

/// A text that ends in a newline, and in one only.
pub open spec fn ends_in_one_newline(text: Seq<char>) -> bool {
    &&& text.len() >= 1
    &&& text.last() == '\n'
    &&& text.len() >= 2 ==> text[text.len() - 2] != '\n'
}

/// The characters of a string, in order.
pub fn to_chars(text: &str) -> (chars: Vec<char>)
    ensures
        chars@ == text@,
{
    let mut chars: Vec<char> = Vec::new();
    for c in it: text.chars()
        invariant
            chars@ == it.seq().take(it.index() as int),
            it.seq() == text@,
    {
        chars.push(c);
    }
    chars
}

/// The string made of the given characters.
pub fn from_chars(chars: &Vec<char>) -> (text: String)
    ensures
        text@ == chars@,
{
    let mut text = String::new();
    let mut i: usize = 0;
    while i < chars.len()
        invariant
            i <= chars.len(),
            text@ == chars@.take(i as int),
        decreases chars.len() - i,
    {
        text.push(chars[i]);
        i = i + 1;
    }
    text
}

/// The pieces of a text between its newlines.
pub fn split(chars: &Vec<char>) -> (pieces: Vec<Vec<char>>)
    ensures
        line_views(pieces@) == split_lines(chars@),
{
    let mut done: Vec<Vec<char>> = Vec::new();
    let mut current: Vec<char> = Vec::new();
    let mut i: usize = 0;
    while i < chars.len()
        invariant
            i <= chars.len(),
            line_views(done@).push(current@) == split_lines(chars@.take(i as int)),
        decreases chars.len() - i,
    {
        let c = chars[i];
        proof {
            assert(chars@.take(i + 1).drop_last() =~= chars@.take(i as int));
            assert(chars@.take(i + 1).last() == c);
        }
        if c == '\n' {
            let ghost before = line_views(done@);
            let ghost ended = current@;
            done.push(current);
            current = Vec::new();
            assert(line_views(done@) =~= before.push(ended));
        } else {
            let ghost before = current@;
            current.push(c);
            assert(line_views(done@).push(before).drop_last() =~= line_views(done@));
        }
        i = i + 1;
    }
    assert(chars@.take(i as int) =~= chars@);
    let ghost before = line_views(done@);
    let ghost ended = current@;
    done.push(current);
    assert(line_views(done@) =~= before.push(ended));
    done
}

/// The lines of a text whose newlines end its lines.
pub fn split_ending(chars: &Vec<char>) -> (lines: Vec<Vec<char>>)
    ensures
        line_views(lines@) == split_terminator(chars@),
{
    let mut pieces = split(chars);
    proof {
        lemma_split_lines_shape(chars@);
    }
    let last = pieces.len() - 1;
    if pieces[last].len() == 0 {
        let ghost before = line_views(pieces@);
        pieces.pop();
        assert(line_views(pieces@) =~= before.drop_last());
    }
    pieces
}

/// The given lines with one newline between each two neighbours.
pub fn join(lines: &Vec<Vec<char>>) -> (text: Vec<char>)
    ensures
        text@ == join_lines(line_views(lines@)),
{
    let mut text: Vec<char> = Vec::new();
    let mut i: usize = 0;
    while i < lines.len()
        invariant
            i <= lines.len(),
            text@ == join_lines(line_views(lines@).take(i as int)),
        decreases lines.len() - i,
    {
        let ghost done = line_views(lines@).take(i as int);
        let ghost next = line_views(lines@).take(i + 1);
        if i > 0 {
            text.push('\n');
        }
        let ghost start = text@;
        let line = &lines[i];
        let mut j: usize = 0;
        while j < line.len()
            invariant
                j <= line.len(),
                text@ == start + line@.take(j as int),
            decreases line.len() - j,
        {
            text.push(line[j]);
            assert(line@.take(j + 1) =~= line@.take(j as int).push(line@[j as int]));
            j = j + 1;
        }
        proof {
            assert(line@.take(j as int) =~= line@);
            assert(next.drop_last() =~= done);
            assert(next.last() == line@);
            if i == 0 {
                assert(text@ =~= line@);
            }
        }
        i = i + 1;
    }
    assert(line_views(lines@).take(i as int) =~= line_views(lines@));
    text
}

/// Whether line `a` comes before line `b` in the order of lines, or is `b`.
pub fn line_precedes(a: &Vec<char>, b: &Vec<char>) -> (le: bool)
    ensures
        le == line_le(a@, b@),
{
    let mut i: usize = 0;
    assert(a@.skip(0) =~= a@ && b@.skip(0) =~= b@);
    while i < a.len() && i < b.len()
        invariant
            i <= a.len(),
            i <= b.len(),
            line_le(a@, b@) == line_le(a@.skip(i as int), b@.skip(i as int)),
        decreases a.len() - i,
    {
        if a[i] != b[i] {
            return (a[i] as u32) < (b[i] as u32);
        }
        proof {
            assert(a@.skip(i as int).drop_first() =~= a@.skip(i + 1));
            assert(b@.skip(i as int).drop_first() =~= b@.skip(i + 1));
        }
        i = i + 1;
    }
    i == a.len()
}

/// The given lines in ascending order. Lines that compare equal keep the
/// order in which they were given.
pub fn sort(lines: Vec<Vec<char>>) -> (sorted: Vec<Vec<char>>)
    ensures
        line_views(sorted@) == sorted_lines(line_views(lines@)),
        sorted_by(line_views(sorted@), line_order()),
        line_views(sorted@).to_multiset() == line_views(lines@).to_multiset(),
{
    broadcast use vstd::multiset::group_multiset_axioms;

    let ghost all = line_views(lines@);
    let mut rest = lines;
    let mut sorted: Vec<Vec<char>> = Vec::new();
    assert(line_views(sorted@).to_multiset().add(all.to_multiset()) =~= all.to_multiset()) by {
        assert(line_views(sorted@) =~= Seq::<Seq<char>>::empty());
        line_views(sorted@).to_multiset_ensures();
    }
    while rest.len() > 0
        invariant
            sorted_by(line_views(sorted@), line_order()),
            line_views(sorted@).to_multiset().add(line_views(rest@).to_multiset())
                == all.to_multiset(),
        decreases rest.len(),
    {
        let ghost rest_before = line_views(rest@);
        let ghost sorted_before = line_views(sorted@);
        let line = rest.pop().unwrap();
        let mut k: usize = 0;
        while k < sorted.len() && !line_precedes(&line, &sorted[k])
            invariant
                k <= sorted.len(),
                forall|j: int| 0 <= j < k ==> line_le(#[trigger] sorted@[j]@, line@),
            decreases sorted.len() - k,
        {
            proof {
                lemma_line_le_connected(line@, sorted@[k as int]@);
            }
            k = k + 1;
        }
        sorted.insert(k, line);
        proof {
            let placed = line_views(sorted@);
            let order = line_order();
            assert(placed =~= sorted_before.insert(k as int, line@));
            assert(rest_before =~= line_views(rest@).push(line@));
            to_multiset_build(line_views(rest@), line@);
            to_multiset_insert(sorted_before, k as int, line@);
            assert(placed.to_multiset().add(line_views(rest@).to_multiset())
                =~= sorted_before.to_multiset().add(rest_before.to_multiset()));
            assert forall|i: int, j: int| 0 <= i < j < placed.len() implies #[trigger] order(
                placed[i],
                placed[j],
            ) by {
                if j == k {
                    assert(placed[i] == sorted_before[i]);
                } else if i == k {
                    assert(placed[j] == sorted_before[j - 1]);
                    assert(line_le(line@, sorted_before[k as int]));
                    if j - 1 > k {
                        assert(order(sorted_before[k as int], sorted_before[j - 1]));
                        lemma_line_le_transitive(line@, sorted_before[k as int], placed[j]);
                    }
                } else {
                    let before_i = if i < k { i } else { i - 1 };
                    let before_j = if j < k { j } else { j - 1 };
                    assert(placed[i] == sorted_before[before_i]);
                    assert(placed[j] == sorted_before[before_j]);
                    assert(order(sorted_before[before_i], sorted_before[before_j]));
                }
            }
        }
    }
    proof {
        assert(line_views(rest@) =~= Seq::<Seq<char>>::empty());
        line_views(rest@).to_multiset_ensures();
        assert(line_views(sorted@).to_multiset() =~= all.to_multiset());
        lemma_line_order_total();
        all.lemma_sort_by_ensures(line_order());
        lemma_sorted_unique(line_views(sorted@), all.sort_by(line_order()), line_order());
    }
    sorted
}

/// The lines of a text in ascending order, each followed by a newline.
pub fn sort_text(text: &str) -> (sorted: String)
    ensures
        sorted@ == sorted_text(text@),
{
    let chars = to_chars(text);
    let lines = split_ending(&chars);
    let ordered = sort(lines);
    let mut joined = join(&ordered);
    joined.push('\n');
    from_chars(&joined)
}

/// A text always splits into at least one piece, and none of the pieces holds
/// a newline.
pub proof fn lemma_split_lines_shape(text: Seq<char>)
    ensures
        split_lines(text).len() >= 1,
        forall|i: int| 0 <= i < split_lines(text).len() ==> newline_free(#[trigger] split_lines(text)[i]),
    decreases text.len(),
{
    if text.len() > 0 {
        lemma_split_lines_shape(text.drop_last());
    }
}

/// In a text without carriage returns every newline ends a line: the number
/// of the last line is one less than the number of lines.
pub proof fn lemma_last_line_without_carriage_returns(text: Seq<char>)
    requires
        forall|i: int| 0 <= i < text.len() ==> text[i] != '\r',
    ensures
        last_line(text) + 1 == line_count(text),
    decreases text.len(),
{
    reveal(Seq::filter);
    if text.len() > 0 {
        lemma_last_line_without_carriage_returns(text.drop_last());
    }
}

/// The number of the last line of a text is less than its number of lines,
/// and so no more than the text is long.
pub proof fn lemma_last_line_bound(text: Seq<char>)
    ensures
        last_line(text) < line_count(text),
        last_line(text) <= text.len(),
    decreases text.len(),
{
    reveal(Seq::filter);
    if text.len() > 0 {
        lemma_last_line_bound(text.drop_last());
    }
}

proof fn lemma_split_single(line: Seq<char>)
    requires
        newline_free(line),
    ensures
        split_lines(line) == seq![line],
    decreases line.len(),
{
    if line.len() > 0 {
        let init = line.drop_last();
        lemma_split_single(init);
        assert(init.push(line.last()) =~= line);
        assert(seq![init].drop_last().push(seq![init].last().push(line.last())) =~= seq![line]);
    } else {
        assert(line =~= Seq::<char>::empty());
    }
}

proof fn lemma_split_append_line(text: Seq<char>, line: Seq<char>)
    requires
        newline_free(line),
    ensures
        split_lines(text.push('\n') + line) == split_lines(text).push(line),
    decreases line.len(),
{
    let whole = text.push('\n') + line;
    if line.len() == 0 {
        assert(whole.drop_last() =~= text);
        assert(line =~= Seq::<char>::empty());
    } else {
        let init = line.drop_last();
        lemma_split_append_line(text, init);
        assert(whole.drop_last() =~= text.push('\n') + init);
        assert(split_lines(text).push(init).drop_last() =~= split_lines(text));
        assert(init.push(line.last()) =~= line);
    }
}

/// Lines that hold no newline are the pieces of their joined text.
pub proof fn lemma_split_join(lines: Seq<Seq<char>>)
    requires
        lines.len() >= 1,
        forall|i: int| 0 <= i < lines.len() ==> newline_free(#[trigger] lines[i]),
    ensures
        split_lines(join_lines(lines)) == lines,
    decreases lines.len(),
{
    if lines.len() == 1 {
        lemma_split_single(lines[0]);
        assert(seq![lines[0]] =~= lines);
    } else {
        lemma_split_join(lines.drop_last());
        lemma_split_append_line(join_lines(lines.drop_last()), lines.last());
        assert(lines.drop_last().push(lines.last()) =~= lines);
    }
}

proof fn lemma_line_le_reflexive(a: Seq<char>)
    ensures
        line_le(a, a),
    decreases a.len(),
{
    if a.len() > 0 {
        lemma_line_le_reflexive(a.drop_first());
    }
}

proof fn lemma_line_le_antisymmetric(a: Seq<char>, b: Seq<char>)
    requires
        line_le(a, b),
        line_le(b, a),
    ensures
        a == b,
    decreases a.len(),
{
    if a.len() == 0 {
        assert(a =~= b);
    } else {
        lemma_line_le_antisymmetric(a.drop_first(), b.drop_first());
        assert(a =~= seq![a[0]] + a.drop_first());
        assert(b =~= seq![b[0]] + b.drop_first());
    }
}

proof fn lemma_line_le_transitive(a: Seq<char>, b: Seq<char>, c: Seq<char>)
    requires
        line_le(a, b),
        line_le(b, c),
    ensures
        line_le(a, c),
    decreases a.len(),
{
    if a.len() > 0 && a[0] == b[0] && b[0] == c[0] {
        lemma_line_le_transitive(a.drop_first(), b.drop_first(), c.drop_first());
    }
}

proof fn lemma_line_le_connected(a: Seq<char>, b: Seq<char>)
    ensures
        line_le(a, b) || line_le(b, a),
    decreases a.len(),
{
    if a.len() > 0 && b.len() > 0 {
        if a[0] == b[0] {
            lemma_line_le_connected(a.drop_first(), b.drop_first());
        } else {
            vstd::utf8::char_u32_cast(a[0], a[0] as u32);
            vstd::utf8::char_u32_cast(b[0], b[0] as u32);
        }
    }
}

/// The order of lines is total: any two lines compare, and two lines that
/// compare both ways are the same line.
pub proof fn lemma_line_order_total()
    ensures
        total_ordering(line_order()),
{
    let order = line_order();
    assert forall|a: Seq<char>| #[trigger] order(a, a) by {
        lemma_line_le_reflexive(a);
    }
    assert forall|a: Seq<char>, b: Seq<char>| #[trigger] order(a, b) && #[trigger] order(b, a) implies a == b by {
        lemma_line_le_antisymmetric(a, b);
    }
    assert forall|a: Seq<char>, b: Seq<char>, c: Seq<char>| #[trigger] order(a, b) && #[trigger] order(b, c) implies order(a, c) by {
        lemma_line_le_transitive(a, b, c);
    }
    assert forall|a: Seq<char>, b: Seq<char>| #[trigger] order(a, b) || #[trigger] order(b, a) by {
        lemma_line_le_connected(a, b);
    }
}

/// Sorting keeps the lines: the result is in ascending order and holds each
/// line as often as it was given.
pub proof fn lemma_sorted_lines_ordered(lines: Seq<Seq<char>>)
    ensures
        sorted_by(sorted_lines(lines), line_order()),
        sorted_lines(lines).to_multiset() == lines.to_multiset(),
        sorted_lines(lines).len() == lines.len(),
        forall|line: Seq<char>| sorted_lines(lines).contains(line) <==> lines.contains(line),
{
    broadcast use vstd::multiset::group_multiset_axioms;

    lemma_line_order_total();
    lines.lemma_sort_by_ensures(line_order());
    lines.to_multiset_ensures();
    sorted_lines(lines).to_multiset_ensures();
    assert forall|line: Seq<char>| sorted_lines(lines).contains(line) <==> lines.contains(
        line,
    ) by {
        to_multiset_contains(lines, line);
        to_multiset_contains(sorted_lines(lines), line);
    }
}

/// Lines that are in ascending order already are left as they are.
pub proof fn lemma_sorted_lines_fixed(lines: Seq<Seq<char>>)
    requires
        sorted_by(lines, line_order()),
    ensures
        sorted_lines(lines) == lines,
{
    lemma_line_order_total();
    lemma_sorted_lines_ordered(lines);
    lemma_sorted_unique(sorted_lines(lines), lines, line_order());
}

/// Sorting twice gives what sorting once gives.
pub proof fn lemma_sorted_text_idempotent(text: Seq<char>)
    ensures
        sorted_text(sorted_text(text)) == sorted_text(text),
{
    let lines = split_terminator(text);
    let sorted = sorted_lines(lines);
    let out = sorted_text(text);
    lemma_split_lines_shape(text);
    lemma_sorted_lines_ordered(lines);
    assert(out.drop_last() =~= join_lines(sorted));
    if sorted.len() == 0 {
        let blank = seq![Seq::<char>::empty()];
        assert(out.drop_last() =~= Seq::<char>::empty());
        assert(split_lines(out.drop_last()) =~= blank);
        assert(split_lines(out) == blank.push(Seq::<char>::empty()));
        assert(split_terminator(out) =~= blank);
        lemma_sorted_lines_fixed(blank);
        assert(join_lines(blank) =~= join_lines(sorted));
    } else {
        assert forall|i: int| 0 <= i < sorted.len() implies newline_free(#[trigger] sorted[i]) by {
            assert(sorted.contains(sorted[i]));
            assert(lines.contains(sorted[i]));
        }
        lemma_split_join(sorted);
        assert(split_lines(out) == sorted.push(Seq::<char>::empty()));
        assert(split_terminator(out) =~= sorted);
        lemma_sorted_lines_fixed(sorted);
    }
}

/// A sorted text ends in a newline. It ends in one only, whether or not the
/// text that was sorted ended in one, unless that text had two or more lines
/// and all of them were empty.
pub proof fn lemma_sorted_text_ends_in_newline(text: Seq<char>)
    ensures
        sorted_text(text).len() >= 1,
        sorted_text(text).last() == '\n',
        ends_in_one_newline(sorted_text(text)) <==> (split_terminator(text).len() <= 1
            || exists|i: int|
            0 <= i < split_terminator(text).len() && (#[trigger] split_terminator(text)[i]).len()
                > 0),
{
    let lines = split_terminator(text);
    let sorted = sorted_lines(lines);
    let out = sorted_text(text);
    let order = line_order();
    lemma_split_lines_shape(text);
    lemma_sorted_lines_ordered(lines);
    assert(out.drop_last() =~= join_lines(sorted));
    if sorted.len() >= 1 {
        let greatest = sorted.last();
        assert(sorted.contains(greatest));
        assert(lines.contains(greatest));
        assert(newline_free(greatest));
        if exists|i: int| 0 <= i < lines.len() && (#[trigger] lines[i]).len() > 0 {
            let i = choose|i: int| 0 <= i < lines.len() && (#[trigger] lines[i]).len() > 0;
            assert(lines.contains(lines[i]));
            assert(sorted.contains(lines[i]));
            let j = choose|j: int| 0 <= j < sorted.len() && sorted[j] == lines[i];
            if j < sorted.len() - 1 {
                assert(order(sorted[j], sorted[sorted.len() - 1]));
            }
            assert(greatest.len() > 0);
            assert(join_lines(sorted).last() == greatest.last());
        } else {
            assert(greatest.len() == 0) by {
                let j = choose|j: int| 0 <= j < lines.len() && lines[j] == greatest;
                assert(lines[j].len() == 0);
            }
            if sorted.len() >= 2 {
                assert(join_lines(sorted) =~= join_lines(sorted.drop_last()).push('\n'));
            }
        }
    }
}

/// A newline at the end of a text makes no difference to the sorted text.
pub proof fn lemma_sorted_text_ignores_last_newline(text: Seq<char>)
    requires
        text.len() == 0 || text.last() != '\n',
    ensures
        sorted_text(text.push('\n')) == sorted_text(text),
{
    let ended = text.push('\n');
    lemma_split_lines_shape(text);
    assert(ended.drop_last() =~= text);
    assert(split_terminator(ended) =~= split_lines(text));
    if text.len() == 0 {
        let blank = seq![Seq::<char>::empty()];
        let none = Seq::<Seq<char>>::empty();
        assert(split_lines(text) =~= blank);
        assert(split_terminator(text) =~= none);
        lemma_sorted_lines_fixed(blank);
        lemma_sorted_lines_fixed(none);
    }
}

} // verus!
