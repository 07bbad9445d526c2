//! Text helpers shared by the parsers and formatters of the crate.
//!
//! Text is handled as a sequence of characters: every function here is
//! specified over `Seq<char>`, the view of `str` and `String`.
use vstd::prelude::*;

verus! {

/// The characters of `s`, in order.
pub fn chars_of(s: &str) -> (v: Vec<char>)
    ensures
        v@ == s@,
{
    let mut v: Vec<char> = Vec::new();
    for c in it: s.chars()
        invariant
            v@ == it.seq().take(it.index() as int),
            it.seq() == s@,
    {
        v.push(c);
    }
    v
}

/// Appends one character to a string.
///
/// Wraps `String::push`, which std documents as appending the given
/// character to the end of the string.
#[verifier::external_body]
fn push_char(s: &mut String, c: char)
    ensures
        final(s)@ == old(s)@.push(c),
{
    s.push(c)
}

/// The string made of the characters of `v`, in order.
pub fn string_of(v: &Vec<char>) -> (s: String)
    ensures
        s@ == v@,
{
    let mut s = String::new();
    let mut i: usize = 0;
    while i < v.len()
        invariant
            i <= v.len(),
            s@ == v@.take(i as int),
        decreases v.len() - i,
    {
        push_char(&mut s, v[i]);
        i += 1;
    }
    s
}

/// Appends the characters of `tail` to `out`.
pub fn extend_chars(out: &mut Vec<char>, tail: &Vec<char>)
    ensures
        final(out)@ == old(out)@ + tail@,
{
    let mut i: usize = 0;
    while i < tail.len()
        invariant
            i <= tail.len(),
            out@ == old(out)@ + tail@.take(i as int),
        decreases tail.len() - i,
    {
        out.push(tail[i]);
        i += 1;
    }
}

/// The characters from `from` (inclusive) to `to` (exclusive).
pub fn slice_chars(v: &Vec<char>, from: usize, to: usize) -> (r: Vec<char>)
    requires
        from <= to <= v.len(),
    ensures
        r@ == v@.subrange(from as int, to as int),
{
    let mut r: Vec<char> = Vec::new();
    let mut i: usize = from;
    while i < to
        invariant
            from <= i <= to <= v.len(),
            r@ == v@.subrange(from as int, i as int),
        decreases to - i,
    {
        r.push(v[i]);
        i += 1;
    }
    r
}

/// Whether two texts hold the same characters.
pub fn same_chars(a: &Vec<char>, b: &Vec<char>) -> (r: bool)
    ensures
        r == (a@ == b@),
{
    if a.len() != b.len() {
        return false;
    }
    let mut i: usize = 0;
    while i < a.len()
        invariant
            i <= a.len(),
            a.len() == b.len(),
            a@.take(i as int) == b@.take(i as int),
        decreases a.len() - i,
    {
        if a[i] != b[i] {
            return false;
        }
        assert(a@.take(i + 1) == a@.take(i as int).push(a@[i as int]));
        assert(b@.take(i + 1) == b@.take(i as int).push(b@[i as int]));
        i += 1;
    }
    assert(a@ == a@.take(a.len() as int));
    assert(b@ == b@.take(b.len() as int));
    true
}

// ---------------------------------------------------------------------
// Splitting
// ---------------------------------------------------------------------

/// The pieces of `s` between occurrences of `sep`.
///
/// A text with `k` separators has `k + 1` pieces, some of which may be
/// empty; the empty text has one empty piece.
pub open spec fn split(s: Seq<char>, sep: char) -> Seq<Seq<char>>
    decreases s.len(),
{
    if s.len() == 0 {
        seq![Seq::<char>::empty()]
    } else {
        let init = split(s.drop_last(), sep);
        if s.last() == sep {
            init.push(Seq::<char>::empty())
        } else {
            init.update(init.len() - 1, init.last().push(s.last()))
        }
    }
}

/// Number of occurrences of `sep` in `s`.
pub open spec fn count_char(s: Seq<char>, sep: char) -> nat
    decreases s.len(),
{
    if s.len() == 0 {
        0
    } else {
        count_char(s.drop_last(), sep) + if s.last() == sep {
            1nat
        } else {
            0nat
        }
    }
}

/// The pieces joined again, with `sep` between neighbours.
pub open spec fn join(pieces: Seq<Seq<char>>, sep: char) -> Seq<char>
    decreases pieces.len(),
{
    if pieces.len() == 0 {
        Seq::<char>::empty()
    } else if pieces.len() == 1 {
        pieces[0]
    } else {
        join(pieces.drop_last(), sep).push(sep) + pieces.last()
    }
}

/// Splitting loses nothing: there is one piece more than there are
/// separators, no piece holds a separator, and joining the pieces gives
/// the text back.
pub proof fn lemma_split_properties(s: Seq<char>, sep: char)
    ensures
        split(s, sep).len() == count_char(s, sep) + 1,
        forall|i: int, j: int|
            0 <= i < split(s, sep).len() && 0 <= j < split(s, sep)[i].len() ==> split(
                s,
                sep,
            )[i][j] != sep,
        join(split(s, sep), sep) == s,
    decreases s.len(),
{
    if s.len() == 0 {
        assert(join(split(s, sep), sep) == s);
    } else {
        let init = split(s.drop_last(), sep);
        lemma_split_properties(s.drop_last(), sep);
        let full = split(s, sep);
        if s.last() == sep {
            assert(full.drop_last() == init);
            assert(join(full, sep) == join(init, sep).push(sep) + Seq::<char>::empty());
            assert(join(full, sep) == s.drop_last().push(sep));
            assert(s.drop_last().push(s.last()) == s);
        } else {
            assert(full.len() == init.len());
            if init.len() == 1 {
                assert(join(init, sep) == init[0]);
                assert(join(full, sep) == init[0].push(s.last()));
            } else {
                assert(full.drop_last() == init.drop_last());
                assert(join(full, sep) == join(init.drop_last(), sep).push(sep) + init.last().push(
                    s.last(),
                ));
                assert(join(init, sep) == join(init.drop_last(), sep).push(sep) + init.last());
                assert(join(full, sep) == join(init, sep).push(s.last()));
            }
            assert(s.drop_last().push(s.last()) == s);
        }
    }
}

/// The views of the pieces of a split text.
pub open spec fn views(pieces: Seq<Vec<char>>) -> Seq<Seq<char>> {
    pieces.map_values(|p: Vec<char>| p@)
}

/// Splits `s` at every occurrence of `sep`.
pub fn split_chars(s: &Vec<char>, sep: char) -> (pieces: Vec<Vec<char>>)
    ensures
        views(pieces@) == split(s@, sep),
{
    let mut pieces: Vec<Vec<char>> = Vec::new();
    let mut current: Vec<char> = Vec::new();
    let mut i: usize = 0;
    assert(s@.take(0) == Seq::<char>::empty());
    assert(views(pieces@).push(current@) == split(s@.take(0), sep));
    while i < s.len()
        invariant
            i <= s.len(),
            views(pieces@).push(current@) == split(s@.take(i as int), sep),
        decreases s.len() - i,
    {
        let c = s[i];
        proof {
            let pre = s@.take(i as int);
            let cur = s@.take(i + 1);
            assert(cur.drop_last() == pre);
            assert(cur.last() == c);
        }
        if c == sep {
            let ghost before = views(pieces@);
            pieces.push(current);
            assert(views(pieces@) == before.push(current@));
            current = Vec::new();
        } else {
            let ghost before = current@;
            current.push(c);
            assert(views(pieces@).push(current@) == views(pieces@).push(before).update(
                views(pieces@).len() as int,
                before.push(c),
            ));
        }
        i += 1;
    }
    assert(s@.take(s.len() as int) == s@);
    let ghost before = views(pieces@);
    pieces.push(current);
    assert(views(pieces@) == before.push(current@));
    pieces
}

// ---------------------------------------------------------------------
// Lines, blanks and prefixes
// ---------------------------------------------------------------------

/// The lines of a text: its pieces between line feeds, without the empty
/// piece that follows a final line feed. The empty text has no line.
pub open spec fn lines(s: Seq<char>) -> Seq<Seq<char>> {
    let pieces = split(s, '\n');
    if pieces.last().len() == 0 {
        pieces.drop_last()
    } else {
        pieces
    }
}

/// Splits a text into its lines.
pub fn lines_of(s: &Vec<char>) -> (r: Vec<Vec<char>>)
    ensures
        views(r@) == lines(s@),
{
    let mut pieces = split_chars(s, '\n');
    proof {
        lemma_split_properties(s@, '\n');
    }
    let n = pieces.len();
    assert(views(pieces@).last() == pieces@[n - 1]@);
    if pieces[n - 1].len() == 0 {
        let ghost before = views(pieces@);
        pieces.pop();
        assert(views(pieces@) == before.drop_last());
    }
    pieces
}

/// An ASCII blank: space, tab, line feed, form feed or carriage return.
pub open spec fn is_blank(c: char) -> bool {
    c == ' ' || c == '\t' || c == '\n' || c == '\x0c' || c == '\r'
}

/// Whether `c` is an ASCII blank.
pub fn blank(c: char) -> (r: bool)
    ensures
        r == is_blank(c),
{
    c == ' ' || c == '\t' || c == '\n' || c == '\x0c' || c == '\r'
}

/// The text without the blanks that lead it.
pub open spec fn trim_start(s: Seq<char>) -> Seq<char>
    decreases s.len(),
{
    if s.len() > 0 && is_blank(s[0]) {
        trim_start(s.skip(1))
    } else {
        s
    }
}

/// The text without the blanks that end it.
pub open spec fn trim_end(s: Seq<char>) -> Seq<char>
    decreases s.len(),
{
    if s.len() > 0 && is_blank(s.last()) {
        trim_end(s.drop_last())
    } else {
        s
    }
}

/// The text without the blanks around it.
pub open spec fn trim(s: Seq<char>) -> Seq<char> {
    trim_end(trim_start(s))
}

/// Removes the blanks around a text.
pub fn trim_chars(s: &Vec<char>) -> (r: Vec<char>)
    ensures
        r@ == trim(s@),
{
    let n = s.len();
    let mut a: usize = 0;
    assert(s@.skip(0) == s@);
    while a < n && blank(s[a])
        invariant
            a <= n,
            n == s.len(),
            trim_start(s@) == trim_start(s@.skip(a as int)),
        decreases n - a,
    {
        assert(s@.skip(a as int).skip(1) == s@.skip(a + 1));
        a += 1;
    }
    let ghost rest = s@.skip(a as int);
    assert(trim_start(s@) == rest);
    let mut b: usize = n;
    assert(s@.subrange(a as int, n as int) == rest);
    while b > a && blank(s[b - 1])
        invariant
            a <= b <= n,
            n == s.len(),
            trim_end(rest) == trim_end(s@.subrange(a as int, b as int)),
        decreases b,
    {
        assert(s@.subrange(a as int, b as int).drop_last() == s@.subrange(a as int, b - 1));
        b -= 1;
    }
    slice_chars(s, a, b)
}

/// The words of a text: its longest runs of characters that are not
/// blank, in order.
pub open spec fn words(s: Seq<char>) -> Seq<Seq<char>>
    decreases s.len(),
{
    if s.len() == 0 {
        Seq::<Seq<char>>::empty()
    } else {
        let init = words(s.drop_last());
        if is_blank(s.last()) {
            init
        } else if s.len() >= 2 && !is_blank(s[s.len() - 2]) && init.len() > 0 {
            init.update(init.len() - 1, init.last().push(s.last()))
        } else {
            init.push(seq![s.last()])
        }
    }
}

/// No word is empty and no word holds a blank.
pub proof fn lemma_words_properties(s: Seq<char>)
    ensures
        forall|i: int|
            0 <= i < words(s).len() ==> (#[trigger] words(s)[i]).len() > 0,
        forall|i: int, j: int|
            0 <= i < words(s).len() && 0 <= j < words(s)[i].len() ==> !is_blank(
                #[trigger] words(s)[i][j],
            ),
        s.len() > 0 && !is_blank(s.last()) ==> words(s).len() > 0,
    decreases s.len(),
{
    if s.len() > 0 {
        lemma_words_properties(s.drop_last());
        let init = words(s.drop_last());
        let full = words(s);
        let c = s.last();
        if is_blank(c) {
        } else if s.len() >= 2 && !is_blank(s[s.len() - 2]) && init.len() > 0 {
            let k = init.len() - 1;
            assert forall|i: int| 0 <= i < full.len() implies (#[trigger] full[i]).len() > 0 by {
                if i < k {
                    assert(full[i] == init[i]);
                }
            }
            assert forall|i: int, j: int|
                0 <= i < full.len() && 0 <= j < full[i].len() implies !is_blank(
                #[trigger] full[i][j],
            ) by {
                if i < k {
                    assert(full[i] == init[i]);
                } else if j < init[k].len() {
                    assert(full[i][j] == init[k][j]);
                }
            }
        } else {
            assert forall|i: int| 0 <= i < full.len() implies (#[trigger] full[i]).len() > 0 by {
                if i < init.len() {
                    assert(full[i] == init[i]);
                }
            }
            assert forall|i: int, j: int|
                0 <= i < full.len() && 0 <= j < full[i].len() implies !is_blank(
                #[trigger] full[i][j],
            ) by {
                if i < init.len() {
                    assert(full[i] == init[i]);
                }
            }
        }
    }
}

/// Splits a text into its words.
pub fn words_of(s: &Vec<char>) -> (r: Vec<Vec<char>>)
    ensures
        views(r@) == words(s@),
{
    let mut done: Vec<Vec<char>> = Vec::new();
    let mut current: Vec<char> = Vec::new();
    let mut i: usize = 0;
    assert(s@.take(0) == Seq::<char>::empty());
    while i < s.len()
        invariant
            i <= s.len(),
            current@.len() > 0 <==> (i > 0 && !is_blank(s@[i - 1])),
            current@.len() == 0 ==> views(done@) == words(s@.take(i as int)),
            current@.len() > 0 ==> views(done@).push(current@) == words(s@.take(i as int)),
        decreases s.len() - i,
    {
        let c = s[i];
        proof {
            let pre = s@.take(i as int);
            let cur = s@.take(i + 1);
            assert(cur.drop_last() == pre);
            assert(cur.last() == c);
            if i > 0 {
                assert(cur[cur.len() - 2] == s@[i - 1]);
            }
        }
        if blank(c) {
            if current.len() > 0 {
                let ghost before = views(done@);
                done.push(current);
                assert(views(done@) == before.push(current@));
                current = Vec::new();
            }
        } else {
            let ghost before = current@;
            current.push(c);
            proof {
                if before.len() > 0 {
                    assert(views(done@).push(current@) == views(done@).push(before).update(
                        views(done@).len() as int,
                        before.push(c),
                    ));
                } else {
                    assert(current@ == seq![c]);
                }
            }
        }
        i += 1;
    }
    assert(s@.take(s.len() as int) == s@);
    if current.len() > 0 {
        let ghost before = views(done@);
        done.push(current);
        assert(views(done@) == before.push(current@));
    }
    done
}

/// Whether `s` begins with `prefix`.
pub open spec fn starts_with(s: Seq<char>, prefix: Seq<char>) -> bool {
    prefix.len() <= s.len() && s.take(prefix.len() as int) == prefix
}

/// Whether `s` begins with `prefix`.
pub fn has_prefix(s: &Vec<char>, prefix: &Vec<char>) -> (r: bool)
    ensures
        r == starts_with(s@, prefix@),
{
    if prefix.len() > s.len() {
        return false;
    }
    let head = slice_chars(s, 0, prefix.len());
    assert(s@.subrange(0, prefix.len() as int) == s@.take(prefix.len() as int));
    same_chars(&head, prefix)
}

/// The text after every leading repetition of `prefix`.
pub open spec fn strip_repeated_prefix(s: Seq<char>, prefix: Seq<char>) -> Seq<char>
    decreases s.len(),
{
    if prefix.len() > 0 && starts_with(s, prefix) {
        strip_repeated_prefix(s.skip(prefix.len() as int), prefix)
    } else {
        s
    }
}

/// Removes every leading repetition of `prefix`.
pub fn strip_prefix_repeatedly(s: &Vec<char>, prefix: &Vec<char>) -> (r: Vec<char>)
    ensures
        r@ == strip_repeated_prefix(s@, prefix@),
{
    if prefix.len() == 0 {
        return slice_chars(s, 0, s.len());
    }
    let mut rest = slice_chars(s, 0, s.len());
    assert(rest@ == s@);
    while has_prefix(&rest, prefix)
        invariant
            prefix.len() > 0,
            strip_repeated_prefix(s@, prefix@) == strip_repeated_prefix(rest@, prefix@),
        decreases rest.len(),
    {
        let next = slice_chars(&rest, prefix.len(), rest.len());
        assert(next@ == rest@.skip(prefix.len() as int));
        rest = next;
    }
    rest
}

// ---------------------------------------------------------------------
// Lists of strings
// ---------------------------------------------------------------------

/// The views of a list of strings.
pub open spec fn string_views(strings: Seq<String>) -> Seq<Seq<char>> {
    strings.map_values(|s: String| s@)
}

/// A copy of a list of strings.
pub fn clone_strings(strings: &Vec<String>) -> (r: Vec<String>)
    ensures
        string_views(r@) == string_views(strings@),
{
    let mut r: Vec<String> = Vec::new();
    let mut i: usize = 0;
    while i < strings.len()
        invariant
            i <= strings.len(),
            string_views(r@) == string_views(strings@).take(i as int),
        decreases strings.len() - i,
    {
        let ghost before = string_views(r@);
        let s = strings[i].clone();
        r.push(s);
        assert(string_views(r@) == before.push(s@));
        assert(string_views(strings@).take(i + 1) == string_views(strings@).take(i as int).push(
            strings@[i as int]@,
        ));
        i += 1;
    }
    assert(string_views(strings@).take(strings.len() as int) == string_views(strings@));
    r
}

/// The strings made of each text of a list.
pub fn strings_of(pieces: &Vec<Vec<char>>) -> (r: Vec<String>)
    ensures
        string_views(r@) == views(pieces@),
{
    let mut r: Vec<String> = Vec::new();
    let mut i: usize = 0;
    while i < pieces.len()
        invariant
            i <= pieces.len(),
            string_views(r@) == views(pieces@).take(i as int),
        decreases pieces.len() - i,
    {
        let ghost before = string_views(r@);
        let s = string_of(&pieces[i]);
        r.push(s);
        assert(string_views(r@) == before.push(s@));
        assert(views(pieces@).take(i + 1) == views(pieces@).take(i as int).push(
            pieces@[i as int]@,
        ));
        i += 1;
    }
    assert(views(pieces@).take(pieces.len() as int) == views(pieces@));
    r
}

} // verus!
