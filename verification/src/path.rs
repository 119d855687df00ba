//! Resolution of request paths below a root directory.
//!
//! A requested path is untrusted text. It is cut into components at `/` and
//! `\`, and only ordinary components are kept: empty components, `.` and
//! `..` are dropped, never honoured. What is left is joined onto the root.

use crate::text::{append, from_chars, join, join_with, split, split_on, to_chars, views};
use vstd::prelude::*;

verus! {

/// The reason why a path could not be resolved.
#[derive(Debug, Clone, Copy, PartialEq, Eq)]
pub enum PathError {
    /// The resolved path cannot be written as text.
    NotText,
}

/// `path` with every backslash replaced by a slash.
pub open spec fn unify_separators(path: Seq<char>) -> Seq<char> {
    path.map_values(
        |c: char|
            if c == '\\' {
                '/'
            } else {
                c
            },
    )
}

/// Whether `component` names an entry of a directory: it is not empty, not
/// `.` and not `..`.
pub open spec fn is_normal_component(component: Seq<char>) -> bool {
    component.len() > 0 && component != seq!['.'] && component != seq!['.', '.']
}

/// The predicate that `is_normal_component` denotes.
pub open spec fn normal_component() -> spec_fn(Seq<char>) -> bool {
    |component: Seq<char>| is_normal_component(component)
}

/// The ordinary components of `path`, in order.
pub open spec fn normal_components(path: Seq<char>) -> Seq<Seq<char>> {
    split(unify_separators(path), '/').filter(normal_component())
}

/// `path` reduced to its ordinary components, with one slash between
/// neighbours and none at either end.
pub open spec fn normalized(path: Seq<char>) -> Seq<char> {
    join(normal_components(path), '/')
}

/// `relative` appended to the directory `root`: a path that starts at the
/// file system's root replaces `root`; otherwise one slash separates the two
/// unless `root` is empty or ends in one.
pub open spec fn joined(root: Seq<char>, relative: Seq<char>) -> Seq<char> {
    if relative.len() > 0 && relative[0] == '/' {
        relative
    } else if root.len() == 0 || root.last() == '/' {
        root + relative
    } else {
        root.push('/') + relative
    }
}

/// The path below `root` that the request for `requested` is resolved to.
pub open spec fn resolved(root: Seq<char>, requested: Seq<char>) -> Seq<char> {
    joined(root, normalized(requested))
}

/// The index of the last `c` in `s`, or -1 if there is none.
pub open spec fn last_index_of(s: Seq<char>, c: char) -> int
    decreases s.len(),
{
    if s.len() == 0 {
        -1
    } else if s.last() == c {
        s.len() - 1
    } else {
        last_index_of(s.drop_last(), c)
    }
}

/// The part of `path` after its last slash.
pub open spec fn file_name(path: Seq<char>) -> Seq<char> {
    path.skip(last_index_of(path, '/') + 1)
}

/// The extension of the file that `path` names: the part of the file name
/// after its last dot, and nothing where the name has no dot or only a
/// leading one.
pub open spec fn extension(path: Seq<char>) -> Seq<char> {
    let name = file_name(path);
    let dot = last_index_of(name, '.');
    if dot <= 0 {
        Seq::<char>::empty()
    } else {
        name.skip(dot + 1)
    }
}

/// How far below the starting directory one is after walking `components`
/// in order: `..` leads one level up, `.` and an empty component stay, any
/// other component leads one level down.
pub open spec fn walk_depth(components: Seq<Seq<char>>) -> int
    decreases components.len(),
{
    if components.len() == 0 {
        0
    } else {
        let step: int = if components.last() == seq!['.', '.'] {
            -1
        } else if components.last().len() == 0 || components.last() == seq!['.'] {
            0
        } else {
            1
        };
        walk_depth(components.drop_last()) + step
    }
}

/// Splitting text that ends in text without separator: the last piece grows.
proof fn lemma_split_append(s: Seq<char>, t: Seq<char>, sep: char)
    requires
        forall|i: int| 0 <= i < t.len() ==> t[i] != sep,
    ensures
        split(s + t, sep).len() == split(s, sep).len(),
        split(s, sep).len() >= 1,
        split(s + t, sep) == split(s, sep).update(
            split(s, sep).len() - 1,
            split(s, sep).last() + t,
        ),
    decreases t.len(),
{
    crate::text::lemma_split_pieces(s, sep);
    if t.len() == 0 {
        assert(s + t == s);
        assert(split(s, sep).last() + t == split(s, sep).last());
    } else {
        let front = t.drop_last();
        assert forall|i: int| 0 <= i < front.len() implies front[i] != sep by {
            assert(front[i] == t[i]);
        }
        lemma_split_append(s, front, sep);
        assert((s + t).drop_last() == s + front);
        assert((s + t).last() == t.last());
        assert(t.last() == t[t.len() - 1]);
        assert((split(s, sep).last() + front).push(t.last()) == split(s, sep).last() + t);
        let base = split(s, sep);
        let mid = split(s + front, sep);
        assert(split(s + t, sep) == mid.update(mid.len() - 1, mid.last().push(t.last())));
        assert(mid.update(mid.len() - 1, mid.last().push(t.last())) =~= base.update(
            base.len() - 1,
            base.last() + t,
        ));
    }
}

/// Splitting what `join` made of pieces without separator gives the pieces
/// back.
pub proof fn lemma_split_join(parts: Seq<Seq<char>>, sep: char)
    requires
        parts.len() >= 1,
        forall|i: int, j: int| 0 <= i < parts.len() && 0 <= j < parts[i].len() ==> parts[i][j] != sep,
    ensures
        split(join(parts, sep), sep) == parts,
    decreases parts.len(),
{
    if parts.len() == 1 {
        lemma_split_append(Seq::<char>::empty(), parts[0], sep);
        assert(Seq::<char>::empty() + parts[0] == parts[0]);
        assert(split(Seq::<char>::empty(), sep) == seq![Seq::<char>::empty()]);
        assert(join(parts, sep) == parts[0]);
        assert(split(parts[0], sep) =~= parts);
    } else {
        let front = parts.drop_last();
        assert forall|i: int, j: int| 0 <= i < front.len() && 0 <= j < front[i].len() implies front[i][j]
            != sep by {
            assert(front[i] == parts[i]);
        }
        lemma_split_join(front, sep);
        let head = join(front, sep).push(sep);
        assert(head.drop_last() == join(front, sep));
        assert(split(head, sep) == front.push(Seq::<char>::empty()));
        lemma_split_append(head, parts.last(), sep);
        assert(Seq::<char>::empty() + parts.last() == parts.last());
        assert(split(join(parts, sep), sep) =~= parts);
    }
}

/// Walking ordinary components only never leads above the start.
proof fn lemma_walk_depth_of_normal(components: Seq<Seq<char>>)
    requires
        forall|i: int|
            0 <= i < components.len() ==> components[i] != seq!['.', '.'],
    ensures
        walk_depth(components) >= 0,
    decreases components.len(),
{
    if components.len() > 0 {
        assert forall|i: int| 0 <= i < components.drop_last().len() implies components.drop_last()[i]
            != seq!['.', '.'] by {
            assert(components.drop_last()[i] == components[i]);
        }
        lemma_walk_depth_of_normal(components.drop_last());
    }
}

/// Every ordinary component of a path is non-empty, is neither `.` nor `..`,
/// and holds neither slash nor backslash.
pub proof fn lemma_normal_components(path: Seq<char>)
    ensures
        forall|i: int|
            0 <= i < normal_components(path).len() ==> {
                let component = #[trigger] normal_components(path)[i];
                &&& is_normal_component(component)
                &&& !component.contains('/')
                &&& !component.contains('\\')
            },
{
    let unified = unify_separators(path);
    let pieces = split(unified, '/');
    let kept = pieces.filter(normal_component());
    crate::text::lemma_split_pieces(unified, '/');
    lemma_pieces_within(unified, '/');
    assert forall|i: int| 0 <= i < kept.len() implies {
        let component = #[trigger] kept[i];
        &&& is_normal_component(component)
        &&& !component.contains('/')
        &&& !component.contains('\\')
    } by {
        pieces.lemma_filter_pred(normal_component(), i);
        let component = kept[i];
        assert(kept.contains(component));
        pieces.lemma_filter_contains_rev(normal_component(), component);
        let k = choose|k: int| 0 <= k < pieces.len() && pieces[k] == component;
        if component.contains('/') {
            let j = choose|j: int| 0 <= j < component.len() && component[j] == '/';
            assert(pieces[k][j] != '/');
        }
        if component.contains('\\') {
            let j = choose|j: int| 0 <= j < component.len() && component[j] == '\\';
            assert(unified.contains(pieces[k][j]));
            let m = choose|m: int| 0 <= m < unified.len() && unified[m] == '\\';
            assert(unified[m] != '\\');
        }
    }
}

/// Every character of every piece of `s` is a character of `s`.
proof fn lemma_pieces_within(s: Seq<char>, sep: char)
    ensures
        forall|i: int, j: int|
            0 <= i < split(s, sep).len() && 0 <= j < split(s, sep)[i].len() ==> s.contains(
                #[trigger] split(s, sep)[i][j],
            ),
    decreases s.len(),
{
    if s.len() > 0 {
        let front = s.drop_last();
        lemma_pieces_within(front, sep);
        crate::text::lemma_split_pieces(front, sep);
        assert forall|i: int, j: int|
            0 <= i < split(s, sep).len() && 0 <= j < split(s, sep)[i].len() implies s.contains(
            #[trigger] split(s, sep)[i][j],
        ) by {
            let c = split(s, sep)[i][j];
            if s.last() != sep && i == split(front, sep).len() - 1 && j == split(s, sep)[i].len()
                - 1 {
                assert(s[s.len() - 1] == c);
            } else {
                assert(split(front, sep)[i][j] == c);
                assert(front.contains(c));
                let m = choose|m: int| 0 <= m < front.len() && front[m] == c;
                assert(s[m] == c);
            }
        }
    }
}

/// What `join` makes of pieces of which the first is not empty begins as
/// that piece does.
proof fn lemma_join_first(parts: Seq<Seq<char>>, sep: char)
    requires
        parts.len() >= 1,
        parts[0].len() > 0,
    ensures
        join(parts, sep).len() > 0,
        join(parts, sep)[0] == parts[0][0],
    decreases parts.len(),
{
    if parts.len() > 1 {
        lemma_join_first(parts.drop_last(), sep);
        assert(parts.drop_last()[0] == parts[0]);
    }
}

/// A normalized path is relative: it does not begin with a slash.
pub proof fn lemma_normalized_is_relative(requested: Seq<char>)
    ensures
        normalized(requested).len() > 0 ==> normalized(requested)[0] != '/',
{
    let parts = normal_components(requested);
    lemma_normal_components(requested);
    if parts.len() > 0 {
        assert(is_normal_component(parts[0]));
        lemma_join_first(parts, '/');
        assert(!parts[0].contains('/'));
    }
}

/// A resolved request never leaves its root. The resolved path is the root,
/// a slash where the root does not end in one, and the normalized request.
/// Read as a sequence of components, the normalized request holds no `..`,
/// and walking any number of its components from the root ends at the root
/// or below it.
pub proof fn lemma_resolved_path_confined(root: Seq<char>, requested: Seq<char>)
    ensures
        root.is_prefix_of(resolved(root, requested)),
        resolved(root, requested) == root + normalized(requested) || resolved(root, requested)
            == root.push('/') + normalized(requested),
        forall|i: int|
            0 <= i < split(normalized(requested), '/').len() ==> #[trigger] split(
                normalized(requested),
                '/',
            )[i] != seq!['.', '.'],
        forall|k: int|
            0 <= k <= split(normalized(requested), '/').len() ==> walk_depth(
                #[trigger] split(normalized(requested), '/').take(k),
            ) >= 0,
{
    let parts = normal_components(requested);
    let components = split(normalized(requested), '/');
    lemma_normal_components(requested);
    lemma_normalized_is_relative(requested);
    if parts.len() == 0 {
        assert(normalized(requested) == Seq::<char>::empty());
        assert(components == seq![Seq::<char>::empty()]);
    } else {
        assert forall|i: int, j: int| 0 <= i < parts.len() && 0 <= j < parts[i].len() implies parts[i][j]
            != '/' by {
            assert(!parts[i].contains('/'));
        }
        lemma_split_join(parts, '/');
        assert(components == parts);
    }
    assert forall|i: int| 0 <= i < components.len() implies #[trigger] components[i] != seq![
        '.',
        '.',
    ] by {
        if parts.len() > 0 {
            assert(is_normal_component(parts[i]));
        } else {
            assert(components[i].len() == 0);
            assert(seq!['.', '.'].len() == 2);
        }
    }
    assert forall|k: int| 0 <= k <= components.len() implies walk_depth(
        #[trigger] components.take(k),
    ) >= 0 by {
        lemma_walk_depth_of_normal(components.take(k));
    }
}

/// Every character of what `join` makes is the separator or a character of
/// one of the pieces.
proof fn lemma_join_characters(parts: Seq<Seq<char>>, sep: char, c: char)
    requires
        join(parts, sep).contains(c),
        c != sep,
    ensures
        exists|i: int| 0 <= i < parts.len() && #[trigger] parts[i].contains(c),
    decreases parts.len(),
{
    let whole = join(parts, sep);
    let k = choose|k: int| 0 <= k < whole.len() && whole[k] == c;
    if parts.len() == 1 {
        assert(parts[0].contains(c));
    } else if parts.len() > 1 {
        let front = parts.drop_last();
        let head = join(front, sep);
        if k < head.len() {
            assert(head[k] == c);
            lemma_join_characters(front, sep, c);
            let i = choose|i: int| 0 <= i < front.len() && #[trigger] front[i].contains(c);
            assert(parts[i] == front[i]);
        } else {
            assert(k > head.len());
            assert(parts.last()[k - head.len() - 1] == c);
            assert(parts[parts.len() - 1].contains(c));
        }
    }
}

/// Filtering pieces that all pass keeps them all.
proof fn lemma_filter_keeps_normal(parts: Seq<Seq<char>>)
    requires
        forall|i: int| 0 <= i < parts.len() ==> is_normal_component(#[trigger] parts[i]),
    ensures
        parts.filter(normal_component()) == parts,
    decreases parts.len(),
{
    reveal(Seq::filter);
    if parts.len() > 0 {
        let front = parts.drop_last();
        assert forall|i: int| 0 <= i < front.len() implies is_normal_component(
            #[trigger] front[i],
        ) by {
            assert(front[i] == parts[i]);
        }
        lemma_filter_keeps_normal(front);
        assert(is_normal_component(parts[parts.len() - 1]));
        assert(front.push(parts.last()) == parts);
    }
}

/// Normalizing a normalized path changes nothing.
pub proof fn lemma_normalized_is_stable(requested: Seq<char>)
    ensures
        normalized(normalized(requested)) == normalized(requested),
{
    let parts = normal_components(requested);
    let once = normalized(requested);
    lemma_normal_components(requested);
    assert(unify_separators(once) == once) by {
        assert forall|k: int| 0 <= k < once.len() implies once[k] != '\\' by {
            if once[k] == '\\' {
                assert(once.contains('\\'));
                lemma_join_characters(parts, '/', '\\');
                let i = choose|i: int| 0 <= i < parts.len() && #[trigger] parts[i].contains('\\');
                assert(!parts[i].contains('\\'));
            }
        }
    }
    if parts.len() == 0 {
        assert(once == Seq::<char>::empty());
        assert(split(once, '/') == seq![Seq::<char>::empty()]);
        let single = seq![Seq::<char>::empty()];
        assert(single.filter(normal_component()) == Seq::<Seq<char>>::empty()) by {
            reveal_with_fuel(Seq::filter, 2);
            assert(single.drop_last().len() == 0);
        }
    } else {
        assert forall|i: int, j: int| 0 <= i < parts.len() && 0 <= j < parts[i].len() implies parts[i][j]
            != '/' by {
            assert(!parts[i].contains('/'));
        }
        lemma_split_join(parts, '/');
        lemma_filter_keeps_normal(parts);
    }
}

/// `path` with every backslash replaced by a slash.
fn with_unified_separators(path: &[char]) -> (r: Vec<char>)
    ensures
        r@ == unify_separators(path@),
{
    let mut r: Vec<char> = Vec::new();
    let mut i: usize = 0;
    while i < path.len()
        invariant
            i <= path.len(),
            r@ == unify_separators(path@.take(i as int)),
        decreases path.len() - i,
    {
        assert(path@.take(i + 1) == path@.take(i as int).push(path@[i as int]));
        if path[i] == '\\' {
            r.push('/');
        } else {
            r.push(path[i]);
        }
        i += 1;
    }
    assert(path@.take(path.len() as int) == path@);
    r
}

fn is_normal(component: &[char]) -> (r: bool)
    ensures
        r == is_normal_component(component@),
{
    if component.len() == 0 {
        false
    } else if component.len() == 1 && component[0] == '.' {
        assert(component@ == seq!['.']);
        false
    } else if component.len() == 2 && component[0] == '.' && component[1] == '.' {
        assert(component@ == seq!['.', '.']);
        false
    } else {
        assert(component@ != seq!['.']) by {
            if component@ == seq!['.'] {
                assert(seq!['.'].len() == 1);
                assert(seq!['.'][0] == '.');
            }
        }
        assert(component@ != seq!['.', '.']) by {
            if component@ == seq!['.', '.'] {
                assert(seq!['.', '.'].len() == 2);
                assert(seq!['.', '.'][0] == '.');
                assert(seq!['.', '.'][1] == '.');
            }
        }
        true
    }
}

/// The ordinary components of `path`, joined by single slashes.
pub fn normalize_chars(path: &[char]) -> (r: Vec<char>)
    ensures
        r@ == normalized(path@),
{
    let unified = with_unified_separators(path);
    let pieces = split_on(unified.as_slice(), '/');
    let mut kept: Vec<Vec<char>> = Vec::new();
    let mut i: usize = 0;
    assert(views(pieces@).take(0).filter(normal_component()) == Seq::<Seq<char>>::empty()) by {
        reveal(Seq::filter);
    }
    while i < pieces.len()
        invariant
            i <= pieces.len(),
            views(kept@) == views(pieces@).take(i as int).filter(normal_component()),
        decreases pieces.len() - i,
    {
        proof {
            assert(views(pieces@).take(i + 1) == views(pieces@).take(i as int).push(
                pieces@[i as int]@,
            ));
            views(pieces@).take(i as int).lemma_filter_push(
                pieces@[i as int]@,
                normal_component(),
            );
        }
        if is_normal(pieces[i].as_slice()) {
            let ghost before = views(kept@);
            let piece = crate::text::subrange(pieces[i].as_slice(), 0, pieces[i].len());
            assert(piece@ == pieces@[i as int]@);
            kept.push(piece);
            assert(views(kept@) == before.push(pieces@[i as int]@));
        }
        i += 1;
    }
    assert(views(pieces@).take(pieces.len() as int) == views(pieces@));
    join_with(&kept, '/')
}

/// Reduces a requested path to its ordinary components. Components that
/// would lead up or nowhere are dropped, so the result never names anything
/// outside the directory that it is later joined to. Every string is text,
/// so this never fails.
pub fn normalize_path(path: &str) -> (r: Result<String, PathError>)
    ensures
        r matches Ok(p) && p@ == normalized(path@),
{
    let chars = to_chars(path);
    let clean = normalize_chars(chars.as_slice());
    Ok(from_chars(clean.as_slice()))
}

/// `relative` appended to the directory `root`.
pub fn join_path(root: &str, relative: &str) -> (r: String)
    ensures
        r@ == joined(root@, relative@),
{
    let root_chars = to_chars(root);
    let rel_chars = to_chars(relative);
    if rel_chars.len() > 0 && rel_chars[0] == '/' {
        return from_chars(rel_chars.as_slice());
    }
    let mut out: Vec<char> = Vec::new();
    append(&mut out, root_chars.as_slice());
    if root_chars.len() > 0 && root_chars[root_chars.len() - 1] != '/' {
        out.push('/');
    }
    append(&mut out, rel_chars.as_slice());
    from_chars(out.as_slice())
}

/// Resolves a requested path below `root`.
pub fn resolve(root: &str, requested: &str) -> (r: Result<String, PathError>)
    ensures
        r matches Ok(p) && p@ == resolved(root@, requested@),
{
    match normalize_path(requested) {
        Ok(relative) => Ok(join_path(root, relative.as_str())),
        Err(e) => Err(e),
    }
}

/// The index of the last `c` in `s`, if there is one.
fn last_position(s: &[char], c: char) -> (r: Option<usize>)
    ensures
        match r {
            Some(i) => last_index_of(s@, c) == i && i < s.len(),
            None => last_index_of(s@, c) == -1,
        },
{
    let mut i: usize = s.len();
    assert(s@.take(i as int) == s@);
    while i > 0
        invariant
            i <= s.len(),
            last_index_of(s@, c) == last_index_of(s@.take(i as int), c),
        decreases i,
    {
        if s[i - 1] == c {
            return Some(i - 1);
        }
        assert(s@.take(i as int).drop_last() == s@.take(i - 1));
        i -= 1;
    }
    None
}

/// The extension of the file that `path` names.
pub fn extension_of(path: &str) -> (r: String)
    ensures
        r@ == extension(path@),
{
    let chars = to_chars(path);
    let start: usize = match last_position(chars.as_slice(), '/') {
        Some(i) => i + 1,
        None => 0,
    };
    let name = crate::text::subrange(chars.as_slice(), start, chars.len());
    assert(name@ == file_name(path@));
    match last_position(name.as_slice(), '.') {
        Some(dot) => {
            if dot == 0 {
                String::new()
            } else {
                let ext = crate::text::subrange(name.as_slice(), dot + 1, name.len());
                from_chars(ext.as_slice())
            }
        },
        None => String::new(),
    }
}

} // verus!
