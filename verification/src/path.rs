//! From the path of a URL to a path in the file system.

use std::path::PathBuf;
use vstd::prelude::*;

use crate::page::strings_view;

verus! {

/// `std::path::PathBuf`, an owned path of the platform. What it holds is named by
/// [`path_components`].
#[verifier::external_type_specification]
#[verifier::external_body]
pub struct ExPathBuf(std::path::PathBuf);

/// The texts of the components of a path, as `Path::components` lists them on the platform that
/// the path is one of.
pub uninterp spec fn path_components(path: PathBuf) -> Seq<Seq<char>>;

/// Whether `piece` can be no more than the name of a file or directory on any platform: it holds
/// no separator, and no colon, with which a drive is named.
pub open spec fn is_plain(piece: Seq<char>) -> bool {
    forall|i: int|
        0 <= i < piece.len() ==> (#[trigger] piece[i]) != '/' && piece[i] != '\\' && piece[i] != ':'
}

/// The components of a path that was extended with each of `pieces` in turn: an empty piece is
/// none, and neither is a single dot but at the start of the path.
pub open spec fn components_of(pieces: Seq<Seq<char>>) -> Seq<Seq<char>>
    decreases pieces.len(),
{
    if pieces.len() == 0 {
        pieces
    } else {
        let before = components_of(pieces.drop_last());
        let piece = pieces.last();
        if piece.len() == 0 || (piece == seq!['.'] && before.len() > 0) {
            before
        } else {
            before.push(piece)
        }
    }
}

/// `PathBuf::from_iter`: the path that comes of extending an empty path with each piece in turn.
/// What the text of the path is depends on the platform, and so does what a piece with a
/// separator or a drive in it does. Where there is no such piece, the components of the path are
/// the pieces, as `Path::components` has it: repeated separators, a trailing one, and dots within
/// the path do not count.
#[verifier::external_body]
fn path_from_pieces(pieces: Vec<String>) -> (path: PathBuf)
    ensures
        (forall|i: int| 0 <= i < pieces@.len() ==> is_plain(#[trigger] pieces@[i]@))
            ==> path_components(path) == components_of(strings_view(pieces@)),
{
    PathBuf::from_iter(pieces)
}

/// Whether collecting `pieces` as a path gave `path`.
pub closed spec fn collected(pieces: Seq<Seq<char>>, path: PathBuf) -> bool {
    exists|strings: Vec<String>|
        strings_view(strings@) == pieces && #[trigger] call_ensures(
            path_from_pieces,
            (strings,),
            path,
        )
}

/// `String::push`: appends one character to the end of the string.
pub assume_specification[ String::push ](s: &mut String, c: char)
    ensures
        final(s)@ == old(s)@.push(c),
;

/// `s` without its leading slashes.
pub open spec fn without_leading_slashes(s: Seq<char>) -> Seq<char>
    decreases s.len(),
{
    if s.len() > 0 && s[0] == '/' {
        without_leading_slashes(s.drop_first())
    } else {
        s
    }
}

/// The pieces of `s` between its slashes, in order; a piece may be empty, and there is always one.
pub open spec fn pieces(s: Seq<char>) -> Seq<Seq<char>>
    decreases s.len(),
{
    if s.len() == 0 {
        seq![Seq::empty()]
    } else {
        let before = pieces(s.drop_last());
        if s.last() == '/' {
            before.push(Seq::empty())
        } else {
            before.drop_last().push(before.last().push(s.last()))
        }
    }
}

/// The pieces that the file path for the URL path `s` is collected from.
pub open spec fn file_pieces(s: Seq<char>) -> Seq<Seq<char>> {
    pieces(without_leading_slashes(s))
}

/// Converts the path of a URL to a file path: the leading slashes go, the rest is split at each
/// slash, and the pieces are collected as a path of the platform.
pub fn url_path_to_file_path(path: &str) -> (file_path: PathBuf)
    ensures
        collected(file_pieces(path@), file_path),
        (forall|i: int|
            0 <= i < file_pieces(path@).len() ==> is_plain(#[trigger] file_pieces(path@)[i]))
            ==> path_components(file_path) == components_of(file_pieces(path@)),
{
    let mut parts: Vec<String> = Vec::new();
    let mut part = String::new();
    let mut leading = true;
    assert(path@.take(0) =~= Seq::<char>::empty());
    assert(strings_view(parts@).push(part@) =~= file_pieces(path@.take(0)));
    for c in it: path.chars()
        invariant
            it.seq() == path@,
            0 <= it.index() <= path@.len(),
            leading == (without_leading_slashes(path@.take(it.index() as int)).len() == 0),
            strings_view(parts@).push(part@) == file_pieces(path@.take(it.index() as int)),
    {
        let ghost before = path@.take(it.index() as int);
        let ghost trimmed = without_leading_slashes(before);
        let ghost views = strings_view(parts@);
        proof {
            assert(path@.take(it.index() + 1) =~= before.push(c));
            lemma_without_leading_slashes_push(before, c);
            assert(trimmed.push(c).drop_last() =~= trimmed);
            assert(views.push(part@).drop_last() =~= views);
        }
        if c == '/' {
            if leading {
                assert(without_leading_slashes(before.push(c)) =~= trimmed);
            } else {
                let ghost whole = part@;
                parts.push(part);
                part = String::new();
                assert(strings_view(parts@) =~= views.push(whole));
                assert(part@ =~= Seq::empty());
            }
        } else {
            part.push(c);
            leading = false;
        }
    }
    let ghost views = strings_view(parts@);
    let ghost last = part@;
    parts.push(part);
    proof {
        assert(path@.take(path@.len() as int) =~= path@);
        assert(strings_view(parts@) =~= views.push(last));
        assert forall|i: int|
            (forall|j: int|
                0 <= j < file_pieces(path@).len() ==> is_plain(#[trigger] file_pieces(path@)[j]))
                && 0 <= i < parts@.len() implies is_plain(#[trigger] parts@[i]@) by {
            assert(strings_view(parts@)[i] == parts@[i]@);
        }
    }
    let file_path = path_from_pieces(parts);
    assert(call_ensures(path_from_pieces, (parts,), file_path));
    file_path
}

/// What one more character at the end does to a text without its leading slashes.
proof fn lemma_without_leading_slashes_push(s: Seq<char>, c: char)
    ensures
        without_leading_slashes(s).len() == 0 && c == '/' ==> without_leading_slashes(
            s.push(c),
        ).len() == 0,
        without_leading_slashes(s).len() > 0 || c != '/' ==> without_leading_slashes(s.push(c))
            == without_leading_slashes(s).push(c),
    decreases s.len(),
{
    if s.len() > 0 && s[0] == '/' {
        lemma_without_leading_slashes_push(s.drop_first(), c);
        assert(s.push(c).drop_first() =~= s.drop_first().push(c));
    } else if s.len() == 0 {
        assert(s.push(c).drop_first() =~= Seq::empty());
        reveal_with_fuel(without_leading_slashes, 2);
    }
}

/// There is always a piece.
proof fn lemma_pieces_nonempty(s: Seq<char>)
    ensures
        pieces(s).len() > 0,
    decreases s.len(),
{
    if s.len() > 0 {
        lemma_pieces_nonempty(s.drop_last());
    }
}

/// `pieces` with a slash between each two of them.
pub open spec fn joined(pieces: Seq<Seq<char>>) -> Seq<char>
    decreases pieces.len(),
{
    if pieces.len() == 0 {
        Seq::empty()
    } else if pieces.len() == 1 {
        pieces[0]
    } else {
        joined(pieces.drop_last()).push('/') + pieces.last()
    }
}

/// Those of `pieces` that hold a name: the ones that are not empty.
pub open spec fn named(pieces: Seq<Seq<char>>) -> Seq<Seq<char>>
    decreases pieces.len(),
{
    if pieces.len() == 0 {
        pieces
    } else if pieces.last().len() == 0 {
        named(pieces.drop_last())
    } else {
        named(pieces.drop_last()).push(pieces.last())
    }
}

/// Splitting a path loses nothing: its pieces, with slashes in between, are the path.
pub proof fn pieces_give_back_the_path(s: Seq<char>)
    ensures
        joined(pieces(s)) == s,
    decreases s.len(),
{
    if s.len() > 0 {
        let before = s.drop_last();
        let parts = pieces(before);
        pieces_give_back_the_path(before);
        lemma_pieces_nonempty(before);
        if s.last() == '/' {
            assert(pieces(s).drop_last() =~= parts);
            assert(joined(pieces(s)) =~= s);
        } else {
            assert(pieces(s).drop_last() =~= parts.drop_last());
            assert(joined(pieces(s)) =~= joined(parts).push(s.last()));
            assert(joined(parts).push(s.last()) =~= s);
        }
    }
}

/// No piece holds a slash, so none is an absolute path.
pub proof fn pieces_hold_no_slash(s: Seq<char>)
    ensures
        forall|i: int| 0 <= i < pieces(s).len() ==> !(#[trigger] pieces(s)[i]).contains('/'),
    decreases s.len(),
{
    if s.len() > 0 {
        let parts = pieces(s.drop_last());
        pieces_hold_no_slash(s.drop_last());
        lemma_pieces_nonempty(s.drop_last());
        assert forall|i: int| 0 <= i < pieces(s).len() implies !(#[trigger] pieces(
            s,
        )[i]).contains('/') by {
            if i == pieces(s).len() - 1 {
                if s.last() != '/' {
                    let longer = pieces(s)[i];
                    assert(!parts.last().contains('/'));
                    if longer.contains('/') {
                        let j = choose|j: int| 0 <= j < longer.len() && longer[j] == '/';
                        assert(j < parts.last().len());
                        assert(parts.last()[j] == '/');
                    }
                }
            } else {
                assert(pieces(s)[i] == parts[i]);
            }
        }
    }
}

/// The pieces of two paths with a slash in between are those of the one and then those of the
/// other.
pub proof fn pieces_of_joined(a: Seq<char>, b: Seq<char>)
    ensures
        pieces(a.push('/') + b) == pieces(a) + pieces(b),
    decreases b.len(),
{
    let whole = a.push('/') + b;
    if b.len() == 0 {
        assert(whole.drop_last() =~= a);
        assert(pieces(a).push(Seq::empty()) =~= pieces(a) + seq![Seq::<char>::empty()]);
    } else {
        let rest = pieces(b.drop_last());
        pieces_of_joined(a, b.drop_last());
        lemma_pieces_nonempty(b.drop_last());
        assert(whole.drop_last() =~= a.push('/') + b.drop_last());
        assert(pieces(whole) =~= pieces(a) + pieces(b));
    }
}

/// Slashes in front of a URL path make no difference.
pub proof fn leading_slash_is_ignored(s: Seq<char>)
    ensures
        file_pieces(seq!['/'] + s) == file_pieces(s),
{
    assert((seq!['/'] + s).drop_first() =~= s);
}

/// The path starts with a name, unless it is empty.
pub proof fn file_path_starts_with_a_name(s: Seq<char>)
    ensures
        file_pieces(s).len() > 0,
        file_pieces(s)[0].len() == 0 ==> file_pieces(s) == seq![Seq::<char>::empty()],
    decreases s.len(),
{
    if s.len() > 0 && s[0] == '/' {
        file_path_starts_with_a_name(s.drop_first());
    } else {
        lemma_first_piece(s);
    }
}

/// A text that does not start with a slash starts with a piece that is not empty.
proof fn lemma_first_piece(s: Seq<char>)
    requires
        s.len() > 0 ==> s[0] != '/',
    ensures
        pieces(s).len() > 0,
        s.len() > 0 ==> pieces(s)[0].len() > 0,
    decreases s.len(),
{
    if s.len() > 0 {
        lemma_first_piece(s.drop_last());
        lemma_pieces_nonempty(s.drop_last());
    }
}

/// The names in one list of pieces and then in another.
proof fn lemma_named_add(a: Seq<Seq<char>>, b: Seq<Seq<char>>)
    ensures
        named(a + b) == named(a) + named(b),
    decreases b.len(),
{
    if b.len() == 0 {
        assert(a + b =~= a);
        assert(named(a) + named(b) =~= named(a));
    } else {
        lemma_named_add(a, b.drop_last());
        assert((a + b).drop_last() =~= a + b.drop_last());
        assert(named(a + b) =~= named(a) + named(b));
    }
}

/// The file path has the names of the URL path, in their order, and no others.
pub proof fn file_path_keeps_names(s: Seq<char>)
    ensures
        named(file_pieces(s)) == named(pieces(s)),
    decreases s.len(),
{
    if s.len() > 0 && s[0] == '/' {
        let rest = s.drop_first();
        file_path_keeps_names(rest);
        pieces_of_joined(Seq::empty(), rest);
        assert(Seq::<char>::empty().push('/') + rest =~= s);
        lemma_named_add(pieces(Seq::empty()), pieces(rest));
        reveal_with_fuel(named, 2);
        assert(named(pieces(Seq::empty())) =~= Seq::empty());
        assert(named(pieces(s)) =~= named(pieces(rest)));
    }
}

/// The names in the file path of two URL paths with a slash in between are those of the file path
/// of the one and then those of the file path of the other.
pub proof fn file_path_of_joined(a: Seq<char>, b: Seq<char>)
    ensures
        named(file_pieces(a.push('/') + b)) == named(file_pieces(a)) + named(file_pieces(b)),
{
    file_path_keeps_names(a.push('/') + b);
    file_path_keeps_names(a);
    file_path_keeps_names(b);
    pieces_of_joined(a, b);
    lemma_named_add(pieces(a), pieces(b));
}

/// A file path written with slashes is a URL path for the same file path.
pub proof fn file_path_is_stable(s: Seq<char>)
    ensures
        file_pieces(joined(file_pieces(s))) == file_pieces(s),
    decreases s.len(),
{
    if s.len() > 0 && s[0] == '/' {
        file_path_is_stable(s.drop_first());
    } else {
        pieces_give_back_the_path(s);
    }
}

/// Where no piece is a single dot, the components of a path are the names among its pieces.
pub proof fn components_are_names(pieces: Seq<Seq<char>>)
    requires
        forall|i: int| 0 <= i < pieces.len() ==> (#[trigger] pieces[i]) != seq!['.'],
    ensures
        components_of(pieces) == named(pieces),
    decreases pieces.len(),
{
    if pieces.len() > 0 {
        assert forall|i: int| 0 <= i < pieces.drop_last().len() implies (
        #[trigger] pieces.drop_last()[i]) != seq!['.'] by {
            assert(pieces[i] != seq!['.']);
        }
        components_are_names(pieces.drop_last());
        assert(pieces[pieces.len() - 1] != seq!['.']);
    }
}

/// A text without a slash is one piece.
pub proof fn piece_without_slash(s: Seq<char>)
    requires
        !s.contains('/'),
    ensures
        pieces(s) == seq![s],
    decreases s.len(),
{
    if s.len() > 0 {
        let before = s.drop_last();
        assert(!before.contains('/')) by {
            if before.contains('/') {
                let i = choose|i: int| 0 <= i < before.len() && before[i] == '/';
                assert(s[i] == '/');
            }
        }
        assert(s.contains(s.last())) by {
            assert(s[s.len() - 1] == s.last());
        }
        piece_without_slash(before);
        assert(pieces(s) =~= seq![before.push(s.last())]);
        assert(before.push(s.last()) =~= s);
    } else {
        assert(s =~= Seq::empty());
    }
}

/// Nothing but leading slashes is taken away.
pub proof fn only_leading_slashes_go(s: Seq<char>)
    requires
        s.len() == 0 || s[0] != '/',
    ensures
        file_pieces(s) == pieces(s),
{
}

/// A piece is plain exactly if it holds no slash, no backslash and no colon.
pub proof fn plain_pieces(piece: Seq<char>)
    ensures
        is_plain(piece) <==> !piece.contains('/') && !piece.contains('\\') && !piece.contains(':'),
{
    if !is_plain(piece) {
        let i = choose|i: int|
            0 <= i < piece.len() && ((#[trigger] piece[i]) == '/' || piece[i] == '\\' || piece[i]
                == ':');
        assert(piece.contains(piece[i]));
    }
}

/// One piece more makes one component more, unless the piece is empty or a dot within the path.
pub proof fn components_grow_by_names(pieces: Seq<Seq<char>>, piece: Seq<char>)
    ensures
        components_of(Seq::empty()) == Seq::<Seq<char>>::empty(),
        components_of(pieces.push(Seq::empty())) == components_of(pieces),
        piece.len() > 0 && piece != seq!['.'] ==> components_of(pieces.push(piece))
            == components_of(pieces).push(piece),
        components_of(pieces).len() > 0 ==> components_of(pieces.push(seq!['.'])) == components_of(
            pieces,
        ),
        components_of(pieces).len() == 0 ==> components_of(pieces.push(seq!['.'])) == seq![
            seq!['.'],
        ],
{
    assert(pieces.push(piece).drop_last() =~= pieces);
    assert(pieces.push(Seq::empty()).drop_last() =~= pieces);
    assert(pieces.push(seq!['.']).drop_last() =~= pieces);
    if components_of(pieces).len() == 0 {
        assert(components_of(pieces).push(seq!['.']) =~= seq![seq!['.']]);
    }
}

/// The path is what collecting the pieces of the URL path gave, each word for word and in order.
proof fn pieces_are_collected(path: &str, file_path: PathBuf)
    requires
        call_ensures(url_path_to_file_path, (path,), file_path),
    ensures
        exists|strings: Vec<String>|
            {
                &&& #[trigger] call_ensures(path_from_pieces, (strings,), file_path)
                &&& strings@.len() == file_pieces(path@).len()
                &&& forall|i: int|
                    0 <= i < strings@.len() ==> (#[trigger] strings@[i])@ == file_pieces(path@)[i]
            },
{
    let strings = choose|strings: Vec<String>|
        strings_view(strings@) == file_pieces(path@) && #[trigger] call_ensures(
            path_from_pieces,
            (strings,),
            file_path,
        );
    assert forall|i: int| 0 <= i < strings@.len() implies (#[trigger] strings@[i])@ == file_pieces(
        path@,
    )[i] by {
        assert(strings_view(strings@)[i] == strings@[i]@);
    }
}

/// A slash and a name at the end of a URL path put that name at the end of the file path, and
/// change nothing else.
pub proof fn names_extend_the_file_path(
    path: &str,
    longer: &str,
    name: Seq<char>,
    file_path: PathBuf,
    longer_path: PathBuf,
)
    requires
        longer@ == path@.push('/') + name,
        name.len() > 0,
        name != seq!['.'],
        !name.contains('/') && !name.contains('\\') && !name.contains(':'),
        !path@.contains('\\') && !path@.contains(':'),
        call_ensures(url_path_to_file_path, (path,), file_path),
        call_ensures(url_path_to_file_path, (longer,), longer_path),
    ensures
        path_components(longer_path) == path_components(file_path).push(name),
{
    let s = path@;
    plain_pieces(name);
    piece_without_slash(name);
    lemma_file_pieces_plain(s);
    lemma_file_pieces_extend(s, name);
    let parts = file_pieces(s);
    let more = file_pieces(longer@);
    assert(!longer@.contains('\\') && !longer@.contains(':')) by {
        lemma_contains_extended(s, name, '\\');
        lemma_contains_extended(s, name, ':');
    }
    lemma_file_pieces_plain(longer@);
    components_grow_by_names(parts, name);
}

/// What stands in an extended text stands in one of its parts.
proof fn lemma_contains_extended(s: Seq<char>, name: Seq<char>, c: char)
    requires
        c != '/',
        !s.contains(c),
        !name.contains(c),
    ensures
        !(s.push('/') + name).contains(c),
{
    let longer = s.push('/') + name;
    if longer.contains(c) {
        let i = choose|i: int| 0 <= i < longer.len() && longer[i] == c;
        if i < s.len() {
            assert(s[i] == c);
        } else if i > s.len() {
            assert(name[i - s.len() - 1] == c);
        }
    }
}

/// The pieces of a text hold no character that the text does not hold.
proof fn lemma_pieces_chars(s: Seq<char>, c: char)
    requires
        !s.contains(c),
    ensures
        forall|i: int| 0 <= i < pieces(s).len() ==> !(#[trigger] pieces(s)[i]).contains(c),
    decreases s.len(),
{
    if s.len() > 0 {
        let before = s.drop_last();
        let parts = pieces(before);
        assert(!before.contains(c)) by {
            if before.contains(c) {
                let i = choose|i: int| 0 <= i < before.len() && before[i] == c;
                assert(s[i] == c);
            }
        }
        lemma_pieces_chars(before, c);
        lemma_pieces_nonempty(before);
        assert(s[s.len() - 1] != c);
        assert forall|i: int| 0 <= i < pieces(s).len() implies !(#[trigger] pieces(
            s,
        )[i]).contains(c) by {
            if i < parts.len() - 1 || s.last() == '/' {
                if i < parts.len() {
                    assert(pieces(s)[i] == parts[i]);
                }
            } else {
                let longer = pieces(s)[i];
                assert(!parts.last().contains(c));
                if longer.contains(c) {
                    let j = choose|j: int| 0 <= j < longer.len() && longer[j] == c;
                    assert(parts.last()[j] == c);
                }
            }
        }
    }
}

/// A URL path without backslashes and colons has plain pieces.
proof fn lemma_file_pieces_plain(s: Seq<char>)
    requires
        !s.contains('\\'),
        !s.contains(':'),
    ensures
        forall|i: int| 0 <= i < file_pieces(s).len() ==> is_plain(#[trigger] file_pieces(s)[i]),
    decreases s.len(),
{
    if s.len() > 0 && s[0] == '/' {
        let rest = s.drop_first();
        assert forall|c: char| !s.contains(c) implies !(#[trigger] rest.contains(c)) by {
            if rest.contains(c) {
                let i = choose|i: int| 0 <= i < rest.len() && rest[i] == c;
                assert(s[i + 1] == c);
            }
        }
        assert(!rest.contains('\\'));
        assert(!rest.contains(':'));
        lemma_file_pieces_plain(rest);
        assert(file_pieces(s) == file_pieces(rest));
    } else {
        pieces_hold_no_slash(s);
        lemma_pieces_chars(s, '\\');
        lemma_pieces_chars(s, ':');
        assert forall|i: int| 0 <= i < file_pieces(s).len() implies is_plain(
            #[trigger] file_pieces(s)[i],
        ) by {
            assert(file_pieces(s)[i] == pieces(s)[i]);
            plain_pieces(pieces(s)[i]);
        }
    }
}

/// What a slash and a name at the end do to the pieces of the file path, as far as they name
/// something.
proof fn lemma_file_pieces_extend(s: Seq<char>, name: Seq<char>)
    requires
        name.len() > 0,
        !name.contains('/'),
    ensures
        components_of(file_pieces(s.push('/') + name)) == components_of(
            file_pieces(s).push(name),
        ),
    decreases s.len(),
{
    let longer = s.push('/') + name;
    piece_without_slash(name);
    if s.len() == 0 {
        assert(longer.drop_first() =~= name);
        assert(!(name[0] == '/')) by {
            assert(name.contains(name[0]));
        }
        reveal_with_fuel(without_leading_slashes, 2);
        assert(file_pieces(longer) == seq![name]);
        assert(file_pieces(s) =~= seq![Seq::<char>::empty()]);
        assert(file_pieces(s).push(name).drop_last() =~= seq![Seq::<char>::empty()]);
        assert(seq![Seq::<char>::empty()].drop_last() =~= Seq::<Seq<char>>::empty());
        assert(seq![name].drop_last() =~= Seq::<Seq<char>>::empty());
        reveal_with_fuel(components_of, 3);
    } else if s[0] == '/' {
        assert(longer.drop_first() =~= s.drop_first().push('/') + name);
        lemma_file_pieces_extend(s.drop_first(), name);
    } else {
        pieces_of_joined(s, name);
        assert(pieces(s) + seq![name] =~= pieces(s).push(name));
    }
}

} // verus!
