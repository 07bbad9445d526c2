//! Unix paths as text: joining, components, making relative.
use crate::text::{extend_chars, slice_chars, split, split_chars, views};
use vstd::prelude::*;

verus! {

/// The path `base` extended by `component`.
///
/// An absolute component replaces the base. Otherwise the component is
/// appended, after a `/` unless the base is empty or already ends in one.
pub open spec fn path_push(base: Seq<char>, component: Seq<char>) -> Seq<char> {
    if component.len() > 0 && component[0] == '/' {
        component
    } else if base.len() == 0 || base.last() == '/' {
        base + component
    } else {
        base.push('/') + component
    }
}

/// The path `base` extended by each of `components` in turn.
pub open spec fn path_push_all(base: Seq<char>, components: Seq<Seq<char>>) -> Seq<char>
    decreases components.len(),
{
    if components.len() == 0 {
        base
    } else {
        path_push(path_push_all(base, components.drop_last()), components.last())
    }
}

/// Extends the path `base` by `component`.
pub fn push_component(base: &mut Vec<char>, component: &Vec<char>)
    ensures
        final(base)@ == path_push(old(base)@, component@),
{
    if component.len() > 0 && component[0] == '/' {
        base.clear();
        extend_chars(base, component);
        assert(base@ == component@);
    } else {
        if base.len() > 0 && base[base.len() - 1] != '/' {
            base.push('/');
        }
        extend_chars(base, component);
    }
}

/// Extends the path `base` by each of `components` in turn.
pub fn push_components(base: &mut Vec<char>, components: &Vec<Vec<char>>)
    ensures
        final(base)@ == path_push_all(old(base)@, views(components@)),
{
    let mut i: usize = 0;
    assert(views(components@).take(0) == Seq::<Seq<char>>::empty());
    while i < components.len()
        invariant
            i <= components.len(),
            base@ == path_push_all(old(base)@, views(components@).take(i as int)),
        decreases components.len() - i,
    {
        proof {
            let next = views(components@).take(i + 1);
            assert(next.drop_last() == views(components@).take(i as int));
            assert(next.last() == components@[i as int]@);
        }
        push_component(base, &components[i]);
        i += 1;
    }
    assert(views(components@).take(components.len() as int) == views(components@));
}

/// Whether a piece of a path between two `/` names something: it is not
/// empty, not `.` and not `..`.
pub open spec fn is_normal(piece: Seq<char>) -> bool {
    piece.len() > 0 && piece != seq!['.'] && piece != seq!['.', '.']
}

/// The names along a path: its pieces between `/` that are normal.
pub open spec fn normal_components(path: Seq<char>) -> Seq<Seq<char>> {
    split(path, '/').filter(|piece: Seq<char>| is_normal(piece))
}

/// Whether `piece` is a normal component.
fn normal(piece: &Vec<char>) -> (r: bool)
    ensures
        r == is_normal(piece@),
{
    let n = piece.len();
    if n == 0 {
        false
    } else if n == 1 {
        assert(piece@ == seq!['.'] <==> piece@[0] == '.') by {
            if piece@[0] == '.' {
                assert(piece@ =~= seq!['.']);
            } else {
                assert(seq!['.'][0] == '.');
            }
        }
        assert(piece@ != seq!['.', '.']) by {
            assert(seq!['.', '.'].len() == 2);
        }
        piece[0] != '.'
    } else if n == 2 {
        assert(piece@ == seq!['.', '.'] <==> (piece@[0] == '.' && piece@[1] == '.')) by {
            if piece@[0] == '.' && piece@[1] == '.' {
                assert(piece@ =~= seq!['.', '.']);
            } else {
                assert(seq!['.', '.'][0] == '.');
                assert(seq!['.', '.'][1] == '.');
            }
        }
        assert(piece@ != seq!['.']) by {
            assert(seq!['.'].len() == 1);
        }
        !(piece[0] == '.' && piece[1] == '.')
    } else {
        assert(piece@ != seq!['.']) by {
            assert(seq!['.'].len() == 1);
        }
        assert(piece@ != seq!['.', '.']) by {
            assert(seq!['.', '.'].len() == 2);
        }
        true
    }
}

/// The names along `path`, in order.
pub fn normal_components_of(path: &Vec<char>) -> (r: Vec<Vec<char>>)
    ensures
        views(r@) == normal_components(path@),
{
    let pieces = split_chars(path, '/');
    let ghost all = views(pieces@);
    let ghost keep = |piece: Seq<char>| is_normal(piece);
    let mut r: Vec<Vec<char>> = Vec::new();
    let mut i: usize = 0;
    proof {
        assert(all.take(0) == Seq::<Seq<char>>::empty());
        reveal(Seq::filter);
        assert(all.take(0).filter(keep) == Seq::<Seq<char>>::empty());
    }
    while i < pieces.len()
        invariant
            i <= pieces.len(),
            all == views(pieces@),
            keep == (|piece: Seq<char>| is_normal(piece)),
            views(r@) == all.take(i as int).filter(keep),
        decreases pieces.len() - i,
    {
        proof {
            reveal(Seq::filter);
            let next = all.take(i + 1);
            assert(next.drop_last() == all.take(i as int));
            assert(next.last() == pieces@[i as int]@);
        }
        if normal(&pieces[i]) {
            let ghost before = views(r@);
            let piece = slice_chars(&pieces[i], 0, pieces[i].len());
            assert(piece@ == pieces@[i as int]@);
            r.push(piece);
            assert(views(r@) == before.push(piece@));
        }
        i += 1;
    }
    assert(all.take(pieces.len() as int) == all);
    r
}

/// The path without the `/` characters that lead it: the same place, named
/// from the root instead of absolutely.
pub open spec fn strip_root(path: Seq<char>) -> Seq<char>
    decreases path.len(),
{
    if path.len() > 0 && path[0] == '/' {
        strip_root(path.skip(1))
    } else {
        path
    }
}

/// A path stripped of its root does not begin with `/`, and is the end of
/// the path it came from.
pub proof fn lemma_strip_root_relative(path: Seq<char>)
    ensures
        strip_root(path).len() == 0 || strip_root(path)[0] != '/',
        strip_root(path).len() <= path.len(),
        strip_root(path) == path.skip(path.len() - strip_root(path).len()),
    decreases path.len(),
{
    if path.len() > 0 && path[0] == '/' {
        lemma_strip_root_relative(path.skip(1));
        let rest = path.skip(1);
        assert(rest.skip(rest.len() - strip_root(rest).len()) == path.skip(
            path.len() - strip_root(path).len(),
        ));
    } else {
        assert(path.skip(0) == path);
    }
}

/// Removes the `/` characters that lead a path.
pub fn strip_root_of(path: &Vec<char>) -> (r: Vec<char>)
    ensures
        r@ == strip_root(path@),
{
    let n = path.len();
    let mut a: usize = 0;
    assert(path@.skip(0) == path@);
    while a < n && path[a] == '/'
        invariant
            a <= n,
            n == path.len(),
            strip_root(path@) == strip_root(path@.skip(a as int)),
        decreases n - a,
    {
        assert(path@.skip(a as int).skip(1) == path@.skip(a + 1));
        a += 1;
    }
    assert(path@.subrange(a as int, n as int) == path@.skip(a as int));
    slice_chars(path, a, n)
}

} // verus!
