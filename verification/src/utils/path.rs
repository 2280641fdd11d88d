//! Paths, by their components.
use vstd::prelude::*;

verus! {

/// The components of a path. Paths that are written differently can have the same ones.
#[verifier::ext_equal]
pub struct PathParts {
    /// Whether the path begins at the root.
    pub rooted: bool,
    pub parts: Seq<Seq<char>>,
}

/// A path split at every slash.
pub open spec fn split(path: Seq<char>) -> Seq<Seq<char>>
    decreases path.len(),
{
    if path.len() == 0 {
        seq![Seq::empty()]
    } else {
        let before = split(path.drop_last());
        if path.last() == '/' {
            before.push(Seq::empty())
        } else {
            before.drop_last().push(before.last().push(path.last()))
        }
    }
}

/// Whether a piece stands for where it is already.
pub open spec fn is_dot(piece: Seq<char>) -> bool {
    piece.len() == 1 && piece[0] == '.'
}

/// The pieces that are neither empty nor a dot.
pub open spec fn named(pieces: Seq<Seq<char>>) -> Seq<Seq<char>>
    decreases pieces.len(),
{
    if pieces.len() == 0 {
        pieces
    } else {
        let before = named(pieces.drop_last());
        if pieces.last().len() == 0 || is_dot(pieces.last()) {
            before
        } else {
            before.push(pieces.last())
        }
    }
}

/// What the first piece adds: it can be a dot too.
pub open spec fn leading(piece: Seq<char>) -> Seq<Seq<char>> {
    if piece.len() == 0 {
        Seq::empty()
    } else {
        seq![piece]
    }
}

/// The components of a path: the pieces between slashes, without empty ones and without a dot that does
/// not stand at the very beginning.
pub open spec fn path_parts(path: Seq<char>) -> PathParts {
    PathParts {
        rooted: path.len() > 0 && path[0] == '/',
        parts: leading(split(path)[0]) + named(split(path).skip(1)),
    }
}

/// A path that is split has at least one piece.
pub proof fn lemma_split_len(path: Seq<char>)
    ensures
        split(path).len() > 0,
    decreases path.len(),
{
    if path.len() > 0 {
        lemma_split_len(path.drop_last());
    }
}

/// Two texts one after the other are split into the pieces of both, where the last of the first and the
/// first of the second are one.
pub proof fn lemma_split_concat(a: Seq<char>, b: Seq<char>)
    ensures
        split(a + b) == split(a).drop_last() + seq![split(a).last() + split(b)[0]] + split(b).skip(1),
    decreases b.len(),
{
    lemma_split_len(a);
    lemma_split_len(b);
    let left = split(a);
    let right = split(b);
    if b.len() == 0 {
        assert(a + b =~= a);
        assert(left.last() + right[0] =~= left.last());
        assert(split(a + b) =~= left.drop_last() + seq![left.last() + right[0]] + right.skip(1));
    } else {
        let shorter = b.drop_last();
        lemma_split_len(shorter);
        lemma_split_concat(a, shorter);
        assert((a + b).drop_last() =~= a + shorter);
        assert((a + b).last() == b.last());
        let before = split(shorter);
        let so_far = left.drop_last() + seq![left.last() + before[0]] + before.skip(1);
        assert(split(a + shorter) == so_far);
        let c = b.last();
        if c == '/' {
            assert(right == before.push(Seq::empty()));
            assert(so_far.push(Seq::empty()) =~= left.drop_last() + seq![left.last() + right[0]]
                + right.skip(1));
        } else {
            let grown = so_far.drop_last().push(so_far.last().push(c));
            let wanted = left.drop_last() + seq![left.last() + right[0]] + right.skip(1);
            assert(split(a + b) == grown);
            assert(grown.len() == wanted.len());
            assert forall|i: int| 0 <= i < grown.len() implies grown[i] =~= wanted[i] by {
                if before.len() == 1 && i == left.len() - 1 {
                    assert(so_far.last() == left.last() + before[0]);
                    assert((left.last() + before[0]).push(c) =~= left.last() + before[0].push(c));
                }
            }
            assert(grown =~= wanted);
        }
    }
}

/// A text that begins with a slash is split into an empty piece and the pieces after the slash.
pub proof fn lemma_split_after_slash(path: Seq<char>)
    requires
        path.len() > 0,
        path[0] == '/',
    ensures
        split(path) == seq![Seq::<char>::empty()] + split(path.skip(1)),
{
    let slash = seq!['/'];
    let rest = path.skip(1);
    assert(path =~= slash + rest);
    lemma_split_len(rest);
    lemma_split_concat(slash, rest);
    assert(slash.drop_last() =~= Seq::<char>::empty());
    assert(split(slash.drop_last()) =~= seq![Seq::<char>::empty()]);
    assert(split(slash) =~= seq![Seq::<char>::empty(), Seq::<char>::empty()]);
    assert(Seq::<char>::empty() + split(rest)[0] =~= split(rest)[0]);
    assert(split(path) =~= seq![Seq::<char>::empty()] + split(rest));
}

/// A text that begins with another character has it at the beginning of its first piece.
pub proof fn lemma_split_after_char(path: Seq<char>)
    requires
        path.len() > 0,
        path[0] != '/',
    ensures
        split(path) == seq![seq![path[0]] + split(path.skip(1))[0]] + split(path.skip(1)).skip(1),
{
    let first = seq![path[0]];
    let rest = path.skip(1);
    assert(path =~= first + rest);
    lemma_split_concat(first, rest);
    assert(first.drop_last() =~= Seq::<char>::empty());
    assert(split(first.drop_last()) =~= seq![Seq::<char>::empty()]);
    assert(Seq::<char>::empty().push(path[0]) =~= first);
    assert(split(first) =~= seq![first]);
    assert(split(path) =~= seq![first + split(rest)[0]] + split(rest).skip(1));
}

/// The first piece is empty just if the text is, or begins with a slash.
pub proof fn lemma_first_piece(path: Seq<char>)
    ensures
        split(path).len() > 0,
        split(path)[0].len() == 0 <==> path.len() == 0 || path[0] == '/',
{
    lemma_split_len(path);
    if path.len() > 0 {
        if path[0] == '/' {
            lemma_split_after_slash(path);
        } else {
            lemma_split_after_char(path);
        }
    }
}

/// What is named in two lists of pieces.
pub proof fn lemma_named_concat(a: Seq<Seq<char>>, b: Seq<Seq<char>>)
    ensures
        named(a + b) == named(a) + named(b),
    decreases b.len(),
{
    if b.len() == 0 {
        assert(a + b =~= a);
        assert(named(a) + named(b) =~= named(a));
    } else {
        lemma_named_concat(a, b.drop_last());
        assert((a + b).drop_last() =~= a + b.drop_last());
        assert(named(a + b) =~= named(a) + named(b));
    }
}

/// Compares two pieces.
fn same_piece(a: &Vec<char>, b: &Vec<char>) -> (r: bool)
    ensures
        r == (a@ == b@),
{
    if a.len() != b.len() {
        return false;
    }
    let mut i: usize = 0;
    while i < a.len()
        invariant
            i <= a@.len(),
            a@.len() == b@.len(),
            forall|k: int| 0 <= k < i ==> a@[k] == b@[k],
        decreases a@.len() - i,
    {
        if a[i] != b[i] {
            return false;
        }
        i = i + 1;
    }
    assert(a@ =~= b@);
    true
}

/// The pieces in the abstract.
spec fn piece_views(pieces: Seq<Vec<char>>) -> Seq<Seq<char>> {
    pieces.map_values(|p: Vec<char>| p@)
}

/// Splits a path at every slash.
fn split_path(path: &str) -> (r: Vec<Vec<char>>)
    ensures
        piece_views(r@) == split(path@),
        r@.len() > 0,
{
    let len: usize = path.unicode_len();
    let mut pieces: Vec<Vec<char>> = Vec::new();
    let mut current: Vec<char> = Vec::new();
    let mut i: usize = 0;
    assert(piece_views(pieces@).push(current@) =~= split(path@.take(0)));
    while i < len
        invariant
            i <= len,
            len == path@.len(),
            piece_views(pieces@).push(current@) == split(path@.take(i as int)),
        decreases len - i,
    {
        let c = path.get_char(i);
        let ghost done = piece_views(pieces@);
        let ghost last = current@;
        assert(path@.take(i + 1).drop_last() =~= path@.take(i as int));
        assert(path@.take(i + 1).last() == c);
        assert(done.push(last).drop_last() =~= done);
        if c == '/' {
            pieces.push(current);
            current = Vec::new();
            assert(piece_views(pieces@) =~= done.push(last));
        } else {
            current.push(c);
        }
        assert(piece_views(pieces@).push(current@) =~= split(path@.take(i + 1)));
        i = i + 1;
    }
    assert(path@.take(i as int) =~= path@);
    let ghost done = piece_views(pieces@);
    pieces.push(current);
    assert(piece_views(pieces@) =~= done.push(current@));
    pieces
}

/// Takes the components of a path, and whether it begins at the root.
fn find_parts(path: &str) -> (r: (bool, Vec<Vec<char>>))
    ensures
        path_parts(path@) == (PathParts { rooted: r.0, parts: piece_views(r.1@) }),
{
    let pieces = split_path(path);
    let ghost all = piece_views(pieces@);
    let rooted = path.unicode_len() > 0 && path.get_char(0) == '/';
    let mut parts: Vec<Vec<char>> = Vec::new();
    if pieces[0].len() > 0 {
        let first: Vec<char> = copy_piece(&pieces[0]);
        parts.push(first);
    }
    assert(piece_views(parts@) =~= leading(all[0]));
    let mut i: usize = 1;
    assert(all.skip(1).take(0) =~= Seq::<Seq<char>>::empty());
    assert(leading(all[0]) + named(all.skip(1).take(0)) =~= leading(all[0]));
    while i < pieces.len()
        invariant
            1 <= i <= pieces@.len(),
            all == piece_views(pieces@),
            piece_views(parts@) == leading(all[0]) + named(all.skip(1).take(i - 1)),
        decreases pieces@.len() - i,
    {
        let piece = &pieces[i];
        let ghost so_far = piece_views(parts@);
        assert(all[i as int] == piece@);
        assert(all.skip(1).take(i as int).drop_last() =~= all.skip(1).take(i - 1));
        assert(all.skip(1).take(i as int).last() == piece@);
        if piece.len() > 0 && !(piece.len() == 1 && piece[0] == '.') {
            let part: Vec<char> = copy_piece(piece);
            parts.push(part);
            assert(piece_views(parts@) =~= so_far.push(piece@));
        }
        assert(piece_views(parts@) =~= leading(all[0]) + named(all.skip(1).take(i as int)));
        i = i + 1;
    }
    assert(all.skip(1).take(i - 1) =~= all.skip(1));
    (rooted, parts)
}

/// The same piece once more.
fn copy_piece(piece: &Vec<char>) -> (r: Vec<char>)
    ensures
        r@ == piece@,
{
    let mut copy: Vec<char> = Vec::new();
    let mut i: usize = 0;
    while i < piece.len()
        invariant
            i <= piece@.len(),
            copy@ == piece@.take(i as int),
        decreases piece@.len() - i,
    {
        copy.push(piece[i]);
        assert(copy@ =~= piece@.take(i + 1));
        i = i + 1;
    }
    assert(copy@ =~= piece@);
    copy
}

/// Compares two paths by their components.
pub fn same_path(a: &str, b: &str) -> (r: bool)
    ensures
        r == (path_parts(a@) == path_parts(b@)),
{
    let (a_rooted, a_parts) = find_parts(a);
    let (b_rooted, b_parts) = find_parts(b);
    if a_rooted != b_rooted || a_parts.len() != b_parts.len() {
        assert(path_parts(a@).parts.len() == a_parts@.len());
        assert(path_parts(b@).parts.len() == b_parts@.len());
        return false;
    }
    let mut i: usize = 0;
    while i < a_parts.len()
        invariant
            i <= a_parts@.len(),
            a_parts@.len() == b_parts@.len(),
            path_parts(a@).parts == piece_views(a_parts@),
            path_parts(b@).parts == piece_views(b_parts@),
            forall|k: int|
                0 <= k < i ==> #[trigger] piece_views(a_parts@)[k] == piece_views(b_parts@)[k],
        decreases a_parts@.len() - i,
    {
        if !same_piece(&a_parts[i], &b_parts[i]) {
            assert(piece_views(a_parts@)[i as int] != piece_views(b_parts@)[i as int]);
            return false;
        }
        i = i + 1;
    }
    assert(path_parts(a@) =~= path_parts(b@));
    true
}

/// Whether a path begins at the home directory: its first component is a tilde.
pub open spec fn begins_at_home(path: PathParts) -> bool {
    !path.rooted && path.parts.len() > 0 && path.parts[0] == seq!['~']
}

/// A path that begins at the home directory, with the home directory in its place.
pub open spec fn at_home(home: PathParts, path: PathParts) -> PathParts {
    PathParts { rooted: home.rooted, parts: home.parts + path.parts.skip(1) }
}

/// A path begins at the home directory if it is a tilde, or begins with one and a slash.
proof fn lemma_begins_at_home(path: Seq<char>)
    ensures
        begins_at_home(path_parts(path)) <==> path.len() > 0 && path[0] == '~' && (path.len() == 1
            || path[1] == '/'),
{
    let pieces = split(path);
    lemma_first_piece(path);
    if path.len() > 0 && path[0] != '/' {
        let rest = path.skip(1);
        lemma_split_after_char(path);
        lemma_first_piece(rest);
        assert(path_parts(path).parts[0] == pieces[0]);
        assert(pieces[0] == seq![path[0]] + split(rest)[0]);
        if split(rest)[0].len() == 0 {
            assert(pieces[0] =~= seq![path[0]]);
        }
        assert(pieces[0][0] == path[0]);
        assert(seq!['~'].len() == 1 && seq!['~'][0] == '~');
        assert(pieces[0].len() == 1 + split(rest)[0].len());
    }
}

/// The components of a path that begins at the home directory, after the tilde.
proof fn lemma_after_tilde(path: Seq<char>)
    requires
        path.len() > 0,
        path[0] == '~',
        path.len() == 1 || path[1] == '/',
    ensures
        path_parts(path).parts.skip(1) == named(split(path.skip(1)).skip(1)),
{
    let rest = path.skip(1);
    lemma_split_after_char(path);
    lemma_first_piece(rest);
    let pieces = split(path);
    assert(pieces.skip(1) =~= split(rest).skip(1));
    assert(path_parts(path).parts.skip(1) =~= named(pieces.skip(1)));
}

/// The components of a directory with something after it.
proof fn lemma_parts_below(home: Seq<char>, rest: Seq<char>)
    requires
        home.len() > 0,
        rest.len() == 0 || rest[0] == '/',
    ensures
        path_parts(home + rest).parts == path_parts(home).parts + named(split(rest).skip(1)),
        path_parts(home + rest).rooted == path_parts(home).rooted,
{
    lemma_split_len(home);
    lemma_first_piece(rest);
    lemma_split_concat(home, rest);
    let upper = split(home);
    let lower = split(rest).skip(1);
    assert(upper.last() + split(rest)[0] =~= upper.last());
    assert(split(home + rest) =~= upper + lower);
    assert((upper + lower).skip(1) =~= upper.skip(1) + lower);
    lemma_named_concat(upper.skip(1), lower);
    assert(path_parts(home + rest).parts =~= path_parts(home).parts + named(lower));
}

/// A slash that nothing is named after does not count.
proof fn lemma_skip_slash(rest: Seq<char>)
    requires
        rest.len() > 0,
        rest[0] == '/',
    ensures
        rest.len() == 1 || rest[1] == '/' ==> named(split(rest).skip(1)) == named(
            split(rest.skip(1)).skip(1),
        ),
        rest.len() > 1 && rest[1] == '.' && (rest.len() == 2 || rest[2] == '/') ==> named(
            split(rest).skip(1),
        ) == named(split(rest.skip(2)).skip(1)),
        rest.len() > 1 && rest[1] != '/' && !(rest[1] == '.' && (rest.len() == 2 || rest[2]
            == '/')) ==> named(split(rest).skip(1)) == path_parts(rest.skip(1)).parts,
{
    let after = rest.skip(1);
    lemma_split_after_slash(rest);
    lemma_first_piece(after);
    let pieces = split(after);
    assert(split(rest).skip(1) =~= pieces);
    assert(pieces =~= seq![pieces[0]] + pieces.skip(1));
    lemma_named_concat(seq![pieces[0]], pieces.skip(1));
    assert(seq![pieces[0]].drop_last() =~= Seq::<Seq<char>>::empty());
    reveal_with_fuel(named, 2);
    if rest.len() == 1 || rest[1] == '/' {
        assert(named(seq![pieces[0]]) =~= Seq::<Seq<char>>::empty());
        assert(named(pieces) =~= named(pieces.skip(1)));
    } else {
        let last = rest.skip(2);
        assert(after.skip(1) =~= last);
        lemma_split_after_char(after);
        lemma_first_piece(last);
        assert(pieces.skip(1) =~= split(last).skip(1));
        assert(pieces[0] =~= seq![rest[1]] + split(last)[0]);
        assert(pieces[0][0] == rest[1]);
        if is_dot(pieces[0]) {
            assert(named(seq![pieces[0]]) =~= Seq::<Seq<char>>::empty());
            assert(named(pieces) =~= named(pieces.skip(1)));
        } else {
            assert(named(seq![pieces[0]]) =~= seq![pieces[0]]);
            assert(named(pieces) =~= leading(pieces[0]) + named(pieces.skip(1)));
        }
    }
}

/// The home directory is not known.
#[derive(Clone, Copy, Debug, PartialEq, Eq, Structural)]
pub struct NoHomeDirectory;

/// Expands `~` at the start of a path. Returns nothing for a path that does not begin so.
///
/// An empty home directory leaves the rest of the path alone, which is then relative.
pub fn expand_home(path: &str, home: Option<&str>) -> (r: Result<Option<String>, NoHomeDirectory>)
    ensures
        match r {
            Ok(None) => !begins_at_home(path_parts(path@)),
            Ok(Some(expanded)) => {
                &&& begins_at_home(path_parts(path@))
                &&& home matches Some(home) && {
                    &&& path_parts(expanded@) == at_home(path_parts(home@), path_parts(path@))
                    &&& home@.len() > 0 ==> expanded@ == home@ + path@.skip(1)
                }
            },
            Err(_) => begins_at_home(path_parts(path@)) && home is None,
        },
{
    proof {
        lemma_begins_at_home(path@);
    }
    let len: usize = path.unicode_len();
    if len == 0 || path.get_char(0) != '~' || len > 1 && path.get_char(1) != '/' {
        return Ok(None);
    }
    let Some(home) = home else {
        return Err(NoHomeDirectory);
    };
    let ghost rest = path@.skip(1);
    proof {
        lemma_after_tilde(path@);
    }
    if home.unicode_len() > 0 {
        let mut expanded = home.to_owned();
        let tail = path.substring_char(1, len);
        expanded.append(tail);
        assert(tail@ =~= rest);
        proof {
            lemma_parts_below(home@, rest);
        }
        assert(path_parts(expanded@) =~= at_home(path_parts(home@), path_parts(path@)));
        return Ok(Some(expanded));
    }
    let mut i: usize = 1;
    while i < len && (i + 1 == len || path.get_char(i + 1) == '/' || path.get_char(i + 1) == '.' && (
    i + 2 == len || path.get_char(i + 2) == '/'))
        invariant
            1 <= i <= len,
            len == path@.len(),
            i < len ==> path@[i as int] == '/',
            named(split(path@.skip(i as int)).skip(1)) == path_parts(path@).parts.skip(1),
        decreases len - i,
    {
        let ghost here = path@.skip(i as int);
        proof {
            lemma_skip_slash(here);
        }
        assert(here.skip(1) =~= path@.skip(i + 1));
        if i + 1 == len || path.get_char(i + 1) == '/' {
            i = i + 1;
        } else {
            assert(here.skip(2) =~= path@.skip(i + 2));
            i = i + 2;
        }
    }
    let ghost here = path@.skip(i as int);
    assert(home@ =~= Seq::<char>::empty());
    assert(split(home@) =~= seq![Seq::<char>::empty()]);
    assert(path_parts(home@).parts =~= Seq::<Seq<char>>::empty());
    if i < len {
        proof {
            lemma_skip_slash(here);
        }
        i = i + 1;
    }
    let tail = path.substring_char(i, len);
    assert(tail@ =~= path@.skip(i as int));
    proof {
        if here.len() > 0 {
            assert(here.skip(1) =~= tail@);
        } else {
            assert(tail@ =~= Seq::<char>::empty());
            assert(here =~= Seq::<char>::empty());
        }
    }
    assert(path_parts(tail@) =~= at_home(path_parts(home@), path_parts(path@)));
    Ok(Some(tail.to_owned()))
}

/// A dot between two slashes does not count, nor does a second slash.
pub proof fn law_dots_do_not_count(a: Seq<char>, b: Seq<char>)
    ensures
        path_parts(a + seq!['/', '.', '/'] + b) == path_parts(a + seq!['/'] + b),
        path_parts(a + seq!['/', '/'] + b) == path_parts(a + seq!['/'] + b),
{
    let slash = seq!['/'] + b;
    let dot = seq!['/', '.', '/'] + b;
    let double = seq!['/', '/'] + b;
    assert(a + seq!['/', '.', '/'] + b =~= a + dot);
    assert(a + seq!['/', '/'] + b =~= a + double);
    assert(a + seq!['/'] + b =~= a + slash);
    assert(dot.skip(2) =~= slash);
    assert(double.skip(1) =~= slash);
    lemma_skip_slash(dot);
    lemma_skip_slash(double);
    if a.len() > 0 {
        lemma_parts_below(a, slash);
        lemma_parts_below(a, dot);
        lemma_parts_below(a, double);
    } else {
        assert(a + dot =~= dot);
        assert(a + double =~= double);
        assert(a + slash =~= slash);
        lemma_first_piece(dot);
        lemma_first_piece(double);
        lemma_first_piece(slash);
    }
    assert(path_parts(a + dot) =~= path_parts(a + slash));
    assert(path_parts(a + double) =~= path_parts(a + slash));
}

} // verus!
