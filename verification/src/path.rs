//! Paths as texts: names, joins, and which ones stand on their own.
use crate::text;
use vstd::prelude::*;

verus! {

/// Whether a path starts at the root.
pub open spec fn absolute(path: Seq<char>) -> bool {
    path.len() > 0 && path[0] == '/'
}

/// Whether a path starts at the root.
pub fn is_absolute(path: &str) -> (yes: bool)
    ensures
        yes == absolute(path@),
{
    let chars = text::chars_of(path);
    chars.len() > 0 && chars[0] == '/'
}

/// `name` below `dir`: a name that starts at the root stands alone, and no separator is
/// doubled.
pub open spec fn joined(dir: Seq<char>, name: Seq<char>) -> Seq<char> {
    if absolute(name) || dir.len() == 0 {
        name
    } else if dir.last() == '/' {
        dir + name
    } else {
        dir + "/"@ + name
    }
}

/// `name` below `dir`.
pub fn join(dir: &str, name: &str) -> (out: String)
    ensures
        out@ == joined(dir@, name@),
{
    let chars = text::chars_of(dir);
    if is_absolute(name) || chars.len() == 0 {
        return name.to_owned();
    }
    if chars[chars.len() - 1] == '/' {
        text::join2(dir, name)
    } else {
        text::join3(dir, "/", name)
    }
}

/// The name that a list of path pieces ends in. Empty pieces and dots at the end name
/// nothing, and a step up has no name.
pub open spec fn last_name(pieces: Seq<Seq<char>>) -> Option<Seq<char>>
    decreases pieces.len(),
{
    if pieces.len() == 0 {
        None
    } else if pieces.last().len() == 0 || pieces.last() == "."@ {
        last_name(pieces.drop_last())
    } else if pieces.last() == ".."@ {
        None
    } else {
        Some(pieces.last())
    }
}

/// The name a path ends in.
pub open spec fn name_of(path: Seq<char>) -> Option<Seq<char>> {
    last_name(text::pieces(path, '/'))
}

/// The name a path ends in.
pub fn file_name(path: &str) -> (out: Option<String>)
    ensures
        text::opt_string(out) == name_of(path@),
{
    let chars = text::chars_of(path);
    let mut pieces = text::split_at_each(chars.as_slice(), '/');
    let ghost all = text::texts(pieces@);
    while pieces.len() > 0
        invariant
            last_name(text::texts(pieces@)) == last_name(all),
            all == text::pieces(path@, '/'),
        decreases pieces@.len(),
    {
        let ghost before = text::texts(pieces@);
        match pieces.pop() {
            None => {},
            Some(last) => {
                assert(text::texts(pieces@) =~= before.drop_last());
                assert(before.last() == last@);
                if !last.as_str().is_empty() && !text::same_text(last.as_str(), ".") {
                    if text::same_text(last.as_str(), "..") {
                        return None;
                    }
                    return Some(last);
                }
            },
        }
    }
    None
}

/// Whether a path ends in this name.
pub fn is_named(path: &str, name: &str) -> (yes: bool)
    ensures
        yes == (name_of(path@) == Some(name@)),
{
    match file_name(path) {
        None => false,
        Some(found) => text::same_text(found.as_str(), name),
    }
}

/// The names along a path, in order. Empty pieces say nothing, and neither does a dot that
/// does not lead.
pub open spec fn names(pieces: Seq<Seq<char>>) -> Seq<Seq<char>>
    decreases pieces.len(),
{
    if pieces.len() == 0 {
        seq![]
    } else {
        let before = names(pieces.drop_last());
        if pieces.last().len() == 0 || (pieces.last() == "."@ && pieces.len() > 1) {
            before
        } else {
            before.push(pieces.last())
        }
    }
}

/// Whether two paths are spelled alike, separators and dots aside.
pub open spec fn alike(a: Seq<char>, b: Seq<char>) -> bool {
    absolute(a) == absolute(b) && names(text::pieces(a, '/')) == names(text::pieces(b, '/'))
}

fn names_of(path: &str) -> (out: Vec<String>)
    ensures
        text::texts(out@) == names(text::pieces(path@, '/')),
{
    let chars = text::chars_of(path);
    let pieces = text::split_at_each(chars.as_slice(), '/');
    let ghost all = text::texts(pieces@);
    let mut out: Vec<String> = Vec::new();
    let mut i: usize = 0;
    assert(all.take(0) =~= seq![]);
    assert(text::texts(out@) =~= seq![]);
    while i < pieces.len()
        invariant
            i <= pieces@.len(),
            all == text::texts(pieces@),
            text::texts(out@) == names(all.take(i as int)),
        decreases pieces@.len() - i,
    {
        let piece = &pieces[i];
        proof {
            assert(all.take(i + 1).drop_last() =~= all.take(i as int));
            assert(all.take(i + 1).last() == piece@);
        }
        let dot: bool = i > 0 && text::same_text(piece.as_str(), ".");
        if !piece.as_str().is_empty() && !dot {
            let ghost before = text::texts(out@);
            out.push(piece.clone());
            assert(text::texts(out@) =~= before.push(piece@));
        }
        i = i + 1;
    }
    assert(all.take(i as int) =~= all);
    out
}

/// Whether two paths are spelled alike.
pub fn same_path(a: &str, b: &str) -> (yes: bool)
    ensures
        yes == alike(a@, b@),
{
    if is_absolute(a) != is_absolute(b) {
        return false;
    }
    let x = names_of(a);
    let y = names_of(b);
    let ghost xs = text::texts(x@);
    let ghost ys = text::texts(y@);
    if x.len() != y.len() {
        assert(xs.len() != ys.len());
        return false;
    }
    let mut i: usize = 0;
    while i < x.len()
        invariant
            i <= x@.len(),
            x@.len() == y@.len(),
            xs == text::texts(x@),
            ys == text::texts(y@),
            xs == names(text::pieces(a@, '/')),
            ys == names(text::pieces(b@, '/')),
            forall|k: int| 0 <= k < i ==> xs[k] == ys[k],
        decreases x@.len() - i,
    {
        if !text::same_text(x[i].as_str(), y[i].as_str()) {
            assert(xs[i as int] != ys[i as int]);
            return false;
        }
        i = i + 1;
    }
    assert(xs =~= ys);
    true
}

/// A path without the separators and dots that it trails. The root itself stays.
pub open spec fn untrailed(path: Seq<char>) -> Seq<char>
    decreases path.len(),
{
    if path.len() > 1 && (path.last() == '/' || (path.last() == '.' && path[path.len() - 2]
        == '/')) {
        untrailed(path.drop_last())
    } else {
        path
    }
}

/// A path up to its last separator.
pub open spec fn up_to_name(path: Seq<char>) -> Seq<char>
    decreases path.len(),
{
    if path.len() == 0 || path.last() == '/' {
        path
    } else {
        up_to_name(path.drop_last())
    }
}

/// The directory that a path's last name lies in. The root lies in none, and neither does an
/// empty path.
pub open spec fn parent_of(path: Seq<char>) -> Option<Seq<char>> {
    let bare = untrailed(path);
    if bare.len() == 0 || bare == seq!['/'] {
        None
    } else {
        Some(untrailed(up_to_name(bare)))
    }
}

/// What lies below a path that starts at the root starts there too.
pub proof fn lemma_joined_absolute(dir: Seq<char>, name: Seq<char>)
    requires
        absolute(dir),
    ensures
        absolute(joined(dir, name)),
{
}

proof fn lemma_untrailed_first(path: Seq<char>)
    requires
        path.len() > 0,
    ensures
        untrailed(path).len() > 0,
        untrailed(path)[0] == path[0],
    decreases path.len(),
{
    if path.len() > 1 && (path.last() == '/' || (path.last() == '.' && path[path.len() - 2]
        == '/')) {
        lemma_untrailed_first(path.drop_last());
    }
}

proof fn lemma_up_to_name_absolute(path: Seq<char>)
    requires
        absolute(path),
    ensures
        absolute(up_to_name(path)),
    decreases path.len(),
{
    if path.last() != '/' {
        lemma_up_to_name_absolute(path.drop_last());
    }
}

/// What a path that starts at the root lies in starts there too.
pub proof fn lemma_parent_absolute(path: Seq<char>)
    requires
        absolute(path),
    ensures
        parent_of(path) matches Some(dir) ==> absolute(dir),
{
    lemma_untrailed_first(path);
    lemma_up_to_name_absolute(untrailed(path));
    lemma_untrailed_first(up_to_name(untrailed(path)));
}

fn untrail(chars: &mut Vec<char>)
    ensures
        final(chars)@ == untrailed(old(chars)@),
{
    while chars.len() > 1 && (chars[chars.len() - 1] == '/' || (chars[chars.len() - 1] == '.'
        && chars[chars.len() - 2] == '/'))
        invariant
            untrailed(chars@) == untrailed(old(chars)@),
        decreases chars@.len(),
    {
        let ghost before = chars@;
        let _last: Option<char> = chars.pop();
        assert(chars@ =~= before.drop_last());
    }
}

/// The directory that a path's last name lies in.
pub fn parent(path: &str) -> (out: Option<String>)
    ensures
        text::opt_string(out) == parent_of(path@),
{
    let mut chars = text::chars_of(path);
    untrail(&mut chars);
    let ghost bare = chars@;
    if chars.len() == 0 {
        return None;
    }
    if chars.len() == 1 && chars[0] == '/' {
        assert(bare =~= seq!['/']);
        return None;
    }
    while chars.len() > 0 && chars[chars.len() - 1] != '/'
        invariant
            up_to_name(chars@) == up_to_name(bare),
        decreases chars@.len(),
    {
        let ghost before = chars@;
        let _last: Option<char> = chars.pop();
        assert(chars@ =~= before.drop_last());
    }
    untrail(&mut chars);
    Some(text::string_of(chars.as_slice()))
}

/// Whether a text is the name of one thing in a directory.
pub open spec fn plain_name(name: Seq<char>) -> bool {
    &&& name.len() > 0
    &&& name != "."@
    &&& name != ".."@
    &&& forall|i: int| 0 <= i < name.len() ==> #[trigger] name[i] != '/'
}

/// What a join makes: a path below the directory with one separator between the two, and the
/// name alone where it starts at the root or there is no directory.
pub proof fn law_a_join_separates_once(dir: Seq<char>, name: Seq<char>)
    requires
        dir.len() > 0 ==> dir.last() != '/',
    ensures
        name.len() > 0 && name[0] == '/' ==> joined(dir, name) == name,
        joined(seq![], name) == name,
        dir.len() > 0 && !(name.len() > 0 && name[0] == '/') ==> joined(dir, name) == dir + seq![
            '/',
        ] + name && joined(dir + seq!['/'], name) == dir + seq!['/'] + name,
{
    reveal_strlit("/");
    assert("/"@ =~= seq!['/']);
}

/// A path ends in the name it was joined with, and lies in the directory it was joined to.
pub proof fn law_a_joined_path_lies_in_its_directory(dir: Seq<char>, name: Seq<char>)
    requires
        plain_name(name),
    ensures
        name_of(dir + seq!['/'] + name) == Some(name),
        name_of(name) == Some(name),
        dir.len() > 0 ==> parent_of(dir + seq!['/'] + name) == Some(untrailed(dir)),
        parent_of(seq!['/'] + name) == Some(seq!['/']),
        parent_of(name) == Some(Seq::<char>::empty()),
        parent_of(seq!['/']) is None,
        parent_of(Seq::<char>::empty()) is None,
{
    let whole = dir + seq!['/'] + name;
    let n = name.len() as int;
    text::law_the_last_piece_follows_the_last_cut(dir, '/', name);
    text::law_a_cut_ends_a_piece(name, '/', seq![]);
    reveal_strlit(".");
    assert("."@ =~= seq!['.']);
    assert(n == 1 ==> name =~= seq![name[0]]);
    assert(n == 1 ==> name[0] != '.');
    assert(name[n - 1] != '/');
    assert(whole.last() == name[n - 1]);
    if n > 1 {
        assert(name[n - 2] != '/');
        assert(whole[whole.len() - 2] == name[n - 2]);
    }
    assert(untrailed(whole) == whole);
    lemma_up_to_its_name(dir + seq!['/'], name);
    let below = dir + seq!['/'];
    assert(below.drop_last() =~= dir);
    if dir.len() > 0 {
        assert(whole[0] == dir[0]);
        assert(whole.len() > 1);
        assert(untrailed(below) == untrailed(dir));
    }
    let rooted = seq!['/'] + name;
    assert(rooted.last() == name[n - 1]);
    if n > 1 {
        assert(rooted[rooted.len() - 2] == name[n - 2]);
    }
    assert(untrailed(rooted) == rooted);
    assert(rooted.len() > 1);
    lemma_up_to_its_name(seq!['/'], name);
    assert(untrailed(seq!['/']) == seq!['/']);
    assert(untrailed(name) == name);
    assert(name != seq!['/']) by {
        assert(name[0] != '/');
    }
    lemma_up_to_its_name(seq![], name);
    assert(Seq::<char>::empty() + name =~= name);
}

proof fn lemma_up_to_its_name(head: Seq<char>, name: Seq<char>)
    requires
        head.len() == 0 || head.last() == '/',
        forall|i: int| 0 <= i < name.len() ==> #[trigger] name[i] != '/',
    ensures
        up_to_name(head + name) == head,
    decreases name.len(),
{
    if name.len() > 0 {
        let fewer = name.drop_last();
        assert((head + name).last() == name[name.len() - 1]);
        assert((head + name).drop_last() =~= head + fewer);
        assert(forall|i: int| 0 <= i < fewer.len() ==> #[trigger] fewer[i] == name[i]);
        lemma_up_to_its_name(head, fewer);
    } else {
        assert(head + name =~= head);
    }
}

/// What a path trails is a separator, or a dot behind one; neither is part of where it leads,
/// and nothing else is taken off.
pub proof fn law_what_trails_leads_nowhere(path: Seq<char>)
    requires
        path.len() > 0,
    ensures
        untrailed(path + seq!['/']) == untrailed(path),
        untrailed(path + seq!['/', '.']) == untrailed(path),
        path.last() != '/' && path.last() != '.' ==> untrailed(path) == path,
        untrailed(seq!['/']) == seq!['/'],
{
    let slashed = path + seq!['/'];
    let dotted = path + seq!['/', '.'];
    assert(slashed.drop_last() =~= path);
    assert(dotted.drop_last() =~= slashed);
    assert(dotted[dotted.len() - 2] == '/');
}

/// Which paths are spelled alike: a separator too many, at the end or elsewhere, and a dot
/// between two make no difference; a name does.
pub proof fn law_only_names_tell_paths_apart(dir: Seq<char>, name: Seq<char>, other: Seq<char>)
    requires
        dir.len() > 0,
        plain_name(name),
        plain_name(other),
    ensures
        alike(dir, dir),
        alike(dir + seq!['/'], dir),
        alike(dir + seq!['/', '.'], dir),
        alike(dir + seq!['/', '/'] + name, dir + seq!['/'] + name),
        alike(dir + seq!['/'] + name, dir + seq!['/'] + other) <==> name == other,
        !alike(dir + seq!['/'] + name, dir),
        !alike(seq!['/'] + name, name),
{
    let nothing = Seq::<char>::empty();
    text::law_the_last_piece_follows_the_last_cut(dir, '/', nothing);
    assert(dir + seq!['/'] + nothing =~= dir + seq!['/']);
    lemma_names_push(text::pieces(dir, '/'), nothing);
    reveal_strlit(".");
    assert("."@ =~= seq!['.']);
    text::law_the_last_piece_follows_the_last_cut(dir, '/', seq!['.']);
    assert(dir + seq!['/'] + seq!['.'] =~= dir + seq!['/', '.']);
    lemma_pieces_some(dir);
    lemma_names_push(text::pieces(dir, '/'), seq!['.']);
    let slashed = dir + seq!['/'];
    text::law_the_last_piece_follows_the_last_cut(slashed, '/', name);
    assert(slashed + seq!['/'] + name =~= dir + seq!['/', '/'] + name);
    text::law_the_last_piece_follows_the_last_cut(dir, '/', name);
    text::law_the_last_piece_follows_the_last_cut(dir, '/', other);
    lemma_names_push(text::pieces(slashed, '/'), name);
    lemma_names_push(text::pieces(dir, '/'), name);
    lemma_names_push(text::pieces(dir, '/'), other);
    let names_in = names(text::pieces(dir, '/'));
    assert(names_in.push(name).last() == name);
    assert(names_in.push(other).last() == other);
    assert(names_in.push(name).len() != names_in.len());
    assert((dir + seq!['/'] + name)[0] == dir[0]);
    assert((dir + seq!['/'] + other)[0] == dir[0]);
    assert((dir + seq!['/', '/'] + name)[0] == dir[0]);
    assert((dir + seq!['/', '.'])[0] == dir[0]);
    assert(slashed[0] == dir[0]);
    assert(name[0] != '/');
}

proof fn lemma_pieces_some(path: Seq<char>)
    ensures
        text::pieces(path, '/').len() > 0,
{
}

proof fn lemma_names_push(pieces: Seq<Seq<char>>, next: Seq<char>)
    ensures
        next.len() == 0 ==> names(pieces.push(next)) == names(pieces),
        next == "."@ && pieces.len() > 0 ==> names(pieces.push(next)) == names(pieces),
        next.len() > 0 && next != "."@ ==> names(pieces.push(next)) == names(pieces).push(next),
{
    assert(pieces.push(next).drop_last() =~= pieces);
}

/// A path that ends in a step up, or in nothing, has no name.
pub proof fn law_a_step_up_has_no_name(dir: Seq<char>)
    ensures
        name_of(dir + seq!['/', '.', '.']) is None,
        name_of(dir + seq!['/']) == name_of(dir),
        name_of(dir + seq!['/', '.']) == name_of(dir),
        name_of(Seq::<char>::empty()) is None,
{
    let nothing = Seq::<char>::empty();
    reveal_strlit(".");
    reveal_strlit("..");
    assert("."@ =~= seq!['.']);
    assert(".."@ =~= seq!['.', '.']);
    text::law_the_last_piece_follows_the_last_cut(dir, '/', seq!['.', '.']);
    assert(dir + seq!['/'] + seq!['.', '.'] =~= dir + seq!['/', '.', '.']);
    text::law_the_last_piece_follows_the_last_cut(dir, '/', nothing);
    assert(dir + seq!['/'] + nothing =~= dir + seq!['/']);
    text::law_the_last_piece_follows_the_last_cut(dir, '/', seq!['.']);
    assert(dir + seq!['/'] + seq!['.'] =~= dir + seq!['/', '.']);
    let before = text::pieces(dir, '/');
    assert(before.push(nothing).drop_last() =~= before);
    assert(before.push(seq!['.']).drop_last() =~= before);
    assert(before.push(seq!['.', '.']).last() == seq!['.', '.']);
    text::law_a_cut_ends_a_piece(nothing, '/', nothing);
    let one = seq![nothing];
    assert(one.drop_last() =~= seq![]);
    assert(last_name(one) == last_name(one.drop_last()));
}

} // verus!
