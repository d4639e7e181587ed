//! Unix paths as `std::path::Path` reads them, for the executable's path.

use vstd::prelude::*;

use crate::text::{
    chars_of, contains, contains_seq, ends_with, ends_with_seq, owned, push_char, string_of_range,
    trim_end_matches, trim_end_matches_seq,
};

verus! {

/// `s.split('/')`: the pieces between separators (at least one).
pub open spec fn split_slash(s: Seq<char>) -> Seq<Seq<char>>
    decreases s.len(),
{
    if s.len() == 0 {
        seq![Seq::empty()]
    } else {
        let p = split_slash(s.drop_last());
        if s.last() == '/' {
            p.push(Seq::empty())
        } else {
            p.update(p.len() - 1, p.last().push(s.last()))
        }
    }
}

/// Whether the piece at index `i` of the split path is a component: empty
/// pieces and `.` are dropped, except a `.` that begins a relative path.
pub open spec fn keeps_piece(piece: Seq<char>, i: int) -> bool {
    piece.len() > 0 && (piece != seq!['.'] || i == 0)
}

/// The components of the pieces `pieces`, root left out.
pub open spec fn kept_pieces(pieces: Seq<Seq<char>>) -> Seq<Seq<char>>
    decreases pieces.len(),
{
    if pieces.len() == 0 {
        Seq::empty()
    } else {
        let rest = kept_pieces(pieces.drop_last());
        if keeps_piece(pieces.last(), pieces.len() - 1) {
            rest.push(pieces.last())
        } else {
            rest
        }
    }
}

/// `Path::components`, without the root directory: each is `.` (a leading
/// current directory), `..` (a parent directory), or a name.
pub open spec fn components(path: Seq<char>) -> Seq<Seq<char>> {
    kept_pieces(split_slash(path))
}

/// Where each piece of `s.split('/')` ends in `s`.
pub open spec fn piece_ends(s: Seq<char>) -> Seq<int>
    decreases s.len(),
{
    if s.len() == 0 {
        seq![0]
    } else {
        let p = piece_ends(s.drop_last());
        if s.last() == '/' {
            p.push(s.len() as int)
        } else {
            p.update(p.len() - 1, s.len() as int)
        }
    }
}

/// The ends of the pieces that are components.
pub open spec fn kept_ends(pieces: Seq<Seq<char>>, ends: Seq<int>) -> Seq<int>
    decreases pieces.len(),
{
    if pieces.len() == 0 {
        Seq::empty()
    } else {
        let rest = kept_ends(pieces.drop_last(), ends.drop_last());
        if keeps_piece(pieces.last(), pieces.len() - 1) {
            rest.push(ends.last())
        } else {
            rest
        }
    }
}

/// Where each component of `path` ends in `path`.
pub open spec fn component_ends(path: Seq<char>) -> Seq<int> {
    kept_ends(split_slash(path), piece_ends(path))
}

/// A component that is a name, neither `.` nor `..`.
pub open spec fn is_normal(c: Seq<char>) -> bool {
    c != seq!['.'] && c != seq!['.', '.']
}

/// `Path::file_name`.
pub open spec fn file_name_of(path: Seq<char>) -> Option<Seq<char>> {
    let c = components(path);
    if c.len() > 0 && is_normal(c.last()) {
        Some(c.last())
    } else {
        None
    }
}

/// `path.parent()?.parent()?.parent()?.file_name()`: the name of the
/// directory three levels above `path`.
pub open spec fn third_ancestor_name(path: Seq<char>) -> Option<Seq<char>> {
    let c = components(path);
    if c.len() >= 4 && is_normal(c[c.len() - 4]) {
        Some(c[c.len() - 4])
    } else {
        None
    }
}

/// The marker of an executable inside a macOS application bundle.
pub const BUNDLE_MARKER: &'static str = ".app/Contents/MacOS/";

/// The suffix of an application bundle's directory.
pub const APP_SUFFIX: &'static str = ".app";

proof fn lemma_piece_ends(s: Seq<char>)
    ensures
        piece_ends(s).len() >= 1,
        split_slash(s).len() >= 1,
        piece_ends(s).len() == split_slash(s).len(),
        piece_ends(s).last() == s.len(),
        forall|j: int| 0 <= j < piece_ends(s).len() ==> 0 <= #[trigger] piece_ends(s)[j] <= s.len(),
    decreases s.len(),
{
    if s.len() > 0 {
        lemma_piece_ends(s.drop_last());
    }
}

proof fn lemma_kept_ends(pieces: Seq<Seq<char>>, ends: Seq<int>, bound: int)
    requires
        pieces.len() == ends.len(),
        forall|j: int| 0 <= j < ends.len() ==> 0 <= #[trigger] ends[j] <= bound,
    ensures
        kept_ends(pieces, ends).len() == kept_pieces(pieces).len(),
        forall|j: int|
            0 <= j < kept_ends(pieces, ends).len() ==> 0 <= #[trigger] kept_ends(pieces, ends)[j]
                <= bound,
    decreases pieces.len(),
{
    if pieces.len() > 0 {
        lemma_kept_ends(pieces.drop_last(), ends.drop_last(), bound);
    }
}

/// The components of `path` and where each ends in it.
pub fn components_with_ends(path: &str) -> (r: (Vec<String>, Vec<usize>))
    ensures
        r.0@.map_values(|c: String| c@) == components(path@),
        r.1@.map_values(|e: usize| e as int) == component_ends(path@),
        r.1@.len() == r.0@.len(),
        forall|j: int| 0 <= j < r.1@.len() ==> #[trigger] r.1@[j] <= path@.len(),
{
    let v = chars_of(path);
    let mut cs: Vec<String> = Vec::new();
    let mut es: Vec<usize> = Vec::new();
    let mut cur = String::new();
    let mut index: usize = 0;
    let mut i: usize = 0;
    assert(split_slash(v@.subrange(0, 0)) =~= seq![Seq::<char>::empty()]);
    assert(kept_pieces(seq![Seq::<char>::empty()].drop_last()) =~= Seq::<Seq<char>>::empty());
    assert(kept_ends(seq![Seq::<char>::empty()].drop_last(), seq![0int].drop_last())
        =~= Seq::<int>::empty());
    assert(piece_ends(v@.subrange(0, 0)) =~= seq![0int]);
    while i < v.len()
        invariant
            v@ == path@,
            i <= v.len(),
            index <= i,
            index + 1 == split_slash(v@.subrange(0, i as int)).len(),
            split_slash(v@.subrange(0, i as int)).last() == cur@,
            cs@.map_values(|c: String| c@) == kept_pieces(
                split_slash(v@.subrange(0, i as int)).drop_last(),
            ),
            es@.map_values(|e: usize| e as int) == kept_ends(
                split_slash(v@.subrange(0, i as int)).drop_last(),
                piece_ends(v@.subrange(0, i as int)).drop_last(),
            ),
            es@.len() == cs@.len(),
            forall|j: int| 0 <= j < es@.len() ==> #[trigger] es@[j] <= i,
            piece_ends(v@.subrange(0, i as int)).last() == i,
            piece_ends(v@.subrange(0, i as int)).len() == index + 1,
        decreases v.len() - i,
    {
        let ghost before = split_slash(v@.subrange(0, i as int));
        let ghost before_ends = piece_ends(v@.subrange(0, i as int));
        let c = v[i];
        assert(v@.subrange(0, i + 1).drop_last() =~= v@.subrange(0, i as int));
        if c == '/' {
            let keep = cur.as_str().unicode_len() > 0 && (!(cur.as_str().unicode_len() == 1
                && cur.as_str().get_char(0) == '.') || index == 0);
            assert(keep == keeps_piece(cur@, index as int)) by {
                if cur@.len() == 1 {
                    if cur@[0] == '.' {
                        assert(cur@ =~= seq!['.']);
                    }
                }
            }
            let ghost after = split_slash(v@.subrange(0, i + 1));
            let ghost after_ends = piece_ends(v@.subrange(0, i + 1));
            assert(after == before.push(Seq::empty()));
            assert(after.drop_last() =~= before);
            assert(after_ends == before_ends.push(i + 1));
            assert(after_ends.drop_last() =~= before_ends);
            if keep {
                let ghost old_cs = cs@;
                let ghost old_es = es@;
                cs.push(cur);
                es.push(i);
                assert(cs@.map_values(|c: String| c@) =~= old_cs.map_values(|c: String| c@).push(
                    before.last(),
                ));
                assert(es@.map_values(|e: usize| e as int) =~= old_es.map_values(
                    |e: usize| e as int,
                ).push(before_ends.last()));
            }
            cur = String::new();
            index = index + 1;
        } else {
            push_char(&mut cur, c);
            let ghost after = split_slash(v@.subrange(0, i + 1));
            let ghost after_ends = piece_ends(v@.subrange(0, i + 1));
            assert(after == before.update(before.len() - 1, before.last().push(c)));
            assert(after.drop_last() =~= before.drop_last());
            assert(after_ends == before_ends.update(before_ends.len() - 1, i + 1));
            assert(after_ends.drop_last() =~= before_ends.drop_last());
        }
        i = i + 1;
    }
    assert(v@.subrange(0, v.len() as int) =~= v@);
    let ghost pieces = split_slash(v@);
    let ghost ends = piece_ends(v@);
    let keep = cur.as_str().unicode_len() > 0 && (!(cur.as_str().unicode_len() == 1
        && cur.as_str().get_char(0) == '.') || index == 0);
    assert(keep == keeps_piece(cur@, index as int)) by {
        if cur@.len() == 1 {
            if cur@[0] == '.' {
                assert(cur@ =~= seq!['.']);
            }
        }
    }
    if keep {
        let ghost old_cs = cs@;
        let ghost old_es = es@;
        cs.push(cur);
        es.push(v.len());
        assert(cs@.map_values(|c: String| c@) =~= old_cs.map_values(|c: String| c@).push(
            pieces.last(),
        ));
        assert(es@.map_values(|e: usize| e as int) =~= old_es.map_values(|e: usize| e as int).push(
            ends.last(),
        ));
    }
    (cs, es)
}

/// The components of `path` (see `components`).
pub fn path_components(path: &str) -> (cs: Vec<String>)
    ensures
        cs@.map_values(|c: String| c@) == components(path@),
{
    components_with_ends(path).0
}

/// Whether `c` is a name component.
fn component_is_normal(c: &String) -> (b: bool)
    ensures
        b == is_normal(c@),
{
    let n = c.as_str().unicode_len();
    if n == 1 && c.as_str().get_char(0) == '.' {
        assert(c@ =~= seq!['.']);
        false
    } else if n == 2 && c.as_str().get_char(0) == '.' && c.as_str().get_char(1) == '.' {
        assert(c@ =~= seq!['.', '.']);
        false
    } else {
        assert(c@ != seq!['.']) by {
            if n == 1 {
                assert(seq!['.'][0] == '.');
            }
        }
        assert(c@ != seq!['.', '.']) by {
            if n == 2 {
                assert(seq!['.', '.'][0] == '.');
                assert(seq!['.', '.'][1] == '.');
            }
        }
        true
    }
}

/// `Path::file_name` of `path`.
pub fn file_name(path: &str) -> (r: Option<String>)
    ensures
        match r {
            Some(n) => file_name_of(path@) == Some(n@),
            None => file_name_of(path@) is None,
        },
{
    let cs = path_components(path);
    let ghost views = cs@.map_values(|c: String| c@);
    if cs.len() > 0 && component_is_normal(&cs[cs.len() - 1]) {
        assert(views.last() == cs@.last()@);
        Some(cs[cs.len() - 1].clone())
    } else {
        proof {
            if cs.len() > 0 {
                assert(views.last() == cs@.last()@);
            }
        }
        None
    }
}

/// `exe.to_string_lossy().contains(".app/Contents/MacOS/")`: the
/// executable runs from inside an application bundle.
pub open spec fn is_bundled_path(exe: Seq<char>) -> bool {
    contains_seq(exe, BUNDLE_MARKER@)
}

/// Whether the executable at `current_exe` runs from inside an application
/// bundle; false where its path is unknown.
pub fn is_bundled_app(current_exe: Option<&str>) -> (b: bool)
    ensures
        b == (current_exe matches Some(p) && is_bundled_path(p@)),
{
    match current_exe {
        Some(p) => contains(p, BUNDLE_MARKER),
        None => false,
    }
}

/// The name of the bundle that holds the executable at `exe`: the
/// directory three levels up, without its `.app` suffix.
pub fn app_bundle_name(exe: &str) -> (r: Option<String>)
    ensures
        match third_ancestor_name(exe@) {
            Some(n) => r matches Some(s) && s@ == trim_end_matches_seq(n, APP_SUFFIX@),
            None => r is None,
        },
{
    let cs = path_components(exe);
    let ghost views = cs@.map_values(|c: String| c@);
    if cs.len() >= 4 && component_is_normal(&cs[cs.len() - 4]) {
        assert(views[cs.len() - 4] == cs@[cs.len() - 4]@);
        Some(trim_end_matches(cs[cs.len() - 4].as_str(), APP_SUFFIX))
    } else {
        proof {
            if cs.len() >= 4 {
                assert(views[cs.len() - 4] == cs@[cs.len() - 4]@);
            }
        }
        None
    }
}

/// The name under which the running program shows up: the bundle's name
/// for a bundled app (`Oto` where it cannot be read), otherwise the
/// executable's file name (`oto` where there is none).
pub open spec fn display_name_of(current_exe: Option<Seq<char>>) -> Seq<char> {
    match current_exe {
        Some(p) => if is_bundled_path(p) {
            match third_ancestor_name(p) {
                Some(n) => trim_end_matches_seq(n, APP_SUFFIX@),
                None => "Oto"@,
            }
        } else {
            match file_name_of(p) {
                Some(n) => n,
                None => "oto"@,
            }
        },
        None => "oto"@,
    }
}

/// The view of an optional string slice.
pub open spec fn opt_str_view(o: Option<&str>) -> Option<Seq<char>> {
    match o {
        Some(s) => Some(s@),
        None => None,
    }
}

/// The name under which the running program shows up (see
/// `display_name_of`), for the executable at `current_exe`.
pub fn display_name(current_exe: Option<&str>) -> (name: String)
    ensures
        name@ == display_name_of(opt_str_view(current_exe)),
{
    match current_exe {
        Some(p) => {
            if is_bundled_app(Some(p)) {
                match app_bundle_name(p) {
                    Some(n) => n,
                    None => owned("Oto"),
                }
            } else {
                match file_name(p) {
                    Some(n) => n,
                    None => owned("oto"),
                }
            }
        },
        None => owned("oto"),
    }
}

/// The number of leading components of the nearest ancestor whose name ends
/// in `.app`, looking at the ancestors with `k` components and fewer; 0
/// where there is none.
pub open spec fn bundle_ancestor(c: Seq<Seq<char>>, k: int) -> int
    decreases k,
{
    if k < 1 {
        0
    } else if is_normal(c[k - 1]) && ends_with_seq(c[k - 1], APP_SUFFIX@) {
        k
    } else {
        bundle_ancestor(c, k - 1)
    }
}

/// What to add to the Accessibility list for the executable at `exe`: the
/// nearest enclosing `.app` bundle, or the executable itself.
pub open spec fn path_to_authorize_of(exe: Seq<char>) -> Seq<char> {
    let c = components(exe);
    let k = bundle_ancestor(c, c.len() - 1);
    if k >= 1 {
        exe.subrange(0, component_ends(exe)[k - 1])
    } else {
        exe
    }
}

/// What to add to the Accessibility list for the executable at `exe` (see
/// `path_to_authorize_of`).
pub fn path_to_authorize(exe: &str) -> (p: String)
    ensures
        p@ == path_to_authorize_of(exe@),
{
    let (cs, es) = components_with_ends(exe);
    let ghost c = components(exe@);
    let ghost views = cs@.map_values(|x: String| x@);
    if cs.len() < 2 {
        return owned(exe);
    }
    let mut k: usize = cs.len() - 1;
    while k >= 1
        invariant
            c == components(exe@),
            views == c,
            views == cs@.map_values(|x: String| x@),
            cs@.len() == es@.len(),
            k < cs@.len(),
            es@.map_values(|e: usize| e as int) == component_ends(exe@),
            forall|j: int| 0 <= j < es@.len() ==> #[trigger] es@[j] <= exe@.len(),
            bundle_ancestor(c, c.len() - 1) == bundle_ancestor(c, k as int),
        decreases k,
    {
        assert(views[k - 1] == cs@[k - 1]@);
        if component_is_normal(&cs[k - 1]) && ends_with(cs[k - 1].as_str(), APP_SUFFIX) {
            let v = chars_of(exe);
            assert(es@.map_values(|e: usize| e as int)[k - 1] == es@[k - 1] as int);
            assert(c[k - 1] == cs@[k - 1]@);
            assert(bundle_ancestor(c, k as int) == k);
            assert(component_ends(exe@)[k - 1] == es@[k - 1] as int);

            return string_of_range(&v, 0, es[k - 1]);
        }
        k = k - 1;
    }
    owned(exe)
}

} // verus!
