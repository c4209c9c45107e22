use vstd::prelude::*;
use crate::errors::PathError;

verus! {

/// Ties a vector's element-wise view to its deep view, so that contracts
/// stated over `deep_view` follow from element-level reasoning.
pub(crate) proof fn lemma_vec_deep_view<T: DeepView>(v: &Vec<T>)
    ensures
        v.deep_view().len() == v@.len(),
        forall|k: int| 0 <= k < v@.len() ==> v.deep_view()[k] == v@[k].deep_view(),
{
}

// ---------------------------------------------------------------------------
// Reserved directory names
// ---------------------------------------------------------------------------

/// The two directory names the gallery reserves in the output tree:
/// `thumbnails` (beside every rendition) and `static` (the mirrored theme
/// assets). They are never albums and never listed as sub-albums.
pub open spec fn spec_is_reserved(name: Seq<char>) -> bool {
    name == "thumbnails"@ || name == "static"@
}

/// True iff `name` is one of the two reserved directory names.
pub fn is_reserved(name: &String) -> (r: bool)
    ensures
        r == spec_is_reserved(name@),
{
    let thumbs = String::from_str("thumbnails");
    let assets = String::from_str("static");
    *name == thumbs || *name == assets
}

// ---------------------------------------------------------------------------
// File-name extensions
// ---------------------------------------------------------------------------

/// The extension of a file name: the text after its last dot, provided that
/// dot is not the name's first character. `photo.jpg` has `jpg`, `a.tar.gz`
/// has `gz`, `.hidden` and `plain` have none, `name.` has the empty one.
pub open spec fn extension_of(name: Seq<char>) -> Option<Seq<char>>
    decreases name.len(),
{
    if name.len() <= 1 {
        None
    } else if name[name.len() - 1] == '.' {
        Some(Seq::empty())
    } else {
        match extension_of(name.drop_last()) {
            Some(e) => Some(e.push(name[name.len() - 1])),
            None => None,
        }
    }
}

proof fn lemma_extension_at_last_dot(name: Seq<char>, i: int)
    requires
        1 <= i < name.len(),
        name[i] == '.',
        forall|j: int| i < j < name.len() ==> name[j] != '.',
    ensures
        extension_of(name) == Some(name.subrange(i + 1, name.len() as int)),
    decreases name.len(),
{
    if i == name.len() - 1 {
        assert(name.subrange(i + 1, name.len() as int) =~= Seq::<char>::empty());
    } else {
        let head = name.drop_last();
        lemma_extension_at_last_dot(head, i);
        assert(head.subrange(i + 1, head.len() as int).push(name[name.len() - 1]) =~= name
            .subrange(i + 1, name.len() as int));
    }
}

proof fn lemma_no_extension(name: Seq<char>)
    requires
        forall|j: int| 1 <= j < name.len() ==> name[j] != '.',
    ensures
        extension_of(name) is None,
    decreases name.len(),
{
    if name.len() > 1 {
        lemma_no_extension(name.drop_last());
    }
}

/// The extension of `name`, if it has one.
pub fn extension(name: &String) -> (r: Option<String>)
    ensures
        match r {
            Some(e) => extension_of(name@) == Some(e@),
            None => extension_of(name@) is None,
        },
{
    let s = name.as_str();
    let n = s.unicode_len();
    let mut i: usize = n;
    while i > 1
        invariant
            i <= n,
            n == s@.len(),
            s@ == name@,
            forall|j: int| i <= j < n ==> name@[j] != '.',
        decreases i,
    {
        if s.get_char(i - 1) == '.' {
            proof {
                lemma_extension_at_last_dot(name@, i - 1);
            }
            let e = s.substring_char(i, n);
            return Some(e.to_owned());
        }
        i = i - 1;
    }
    proof {
        lemma_no_extension(name@);
    }
    None
}

/// True iff some accepted extension equals `e`.
pub open spec fn ext_in(e: Seq<char>, exts: Seq<Seq<char>>) -> bool {
    exists|k: int| 0 <= k < exts.len() && exts[k] == e
}

fn contains_string(v: &Vec<String>, x: &String) -> (r: bool)
    ensures
        r == ext_in(x@, v.deep_view()),
{
    let mut k: usize = 0;
    while k < v.len()
        invariant
            k <= v.len(),
            forall|j: int| 0 <= j < k ==> v.deep_view()[j] != x@,
        decreases v.len() - k,
    {
        proof {
            lemma_vec_deep_view(v);
        }
        if v[k] == *x {
            assert(v.deep_view()[k as int] == x@);
            return true;
        }
        k = k + 1;
    }
    proof {
        lemma_vec_deep_view(v);
    }
    false
}

/// True iff the file name's extension is one of the accepted extensions:
/// the filter that decides which files the gallery treats as images.
pub open spec fn spec_wanted_file(name: Seq<char>, exts: Seq<Seq<char>>) -> bool {
    match extension_of(name) {
        Some(e) => ext_in(e, exts),
        None => false,
    }
}

/// Whether a file belongs to the gallery: its name's extension is in the
/// accepted set. Names without an extension never match.
pub fn wanted_file(name: &String, extensions: &Vec<String>) -> (r: bool)
    ensures
        r == spec_wanted_file(name@, extensions.deep_view()),
{
    match extension(name) {
        Some(e) => contains_string(extensions, &e),
        None => false,
    }
}

// ---------------------------------------------------------------------------
// Mirrored destinations
// ---------------------------------------------------------------------------

/// The mirrored destination of a source path: the source's first component
/// (the input tree's own root) is dropped and the rest is rejoined onto the
/// output root.
pub open spec fn spec_mirror_path(source: Seq<Seq<char>>, output_root: Seq<Seq<char>>) -> Seq<
    Seq<char>,
> {
    output_root + source.skip(1)
}

/// Where a scanned source file lands in the output tree. A path with no
/// leading component to strip cannot be mirrored and fails; the scan skips
/// such an entry rather than aborting.
pub fn mirror_path(source: &Vec<String>, output_root: &Vec<String>) -> (r: Result<
    Vec<String>,
    PathError,
>)
    ensures
        r is Err <==> source.len() == 0,
        r matches Ok(d) ==> d.deep_view() == spec_mirror_path(
            source.deep_view(),
            output_root.deep_view(),
        ),
{
    if source.len() == 0 {
        return Err(PathError);
    }
    let mut dest: Vec<String> = Vec::new();
    let mut i: usize = 0;
    while i < output_root.len()
        invariant
            i <= output_root.len(),
            dest@ =~= output_root@.take(i as int),
        decreases output_root.len() - i,
    {
        dest.push(output_root[i].clone());
        i = i + 1;
        assert(dest@ =~= output_root@.take(i as int));
    }
    let mut j: usize = 1;
    while j < source.len()
        invariant
            1 <= j <= source.len(),
            dest@ =~= output_root@ + source@.subrange(1, j as int),
        decreases source.len() - j,
    {
        dest.push(source[j].clone());
        j = j + 1;
        assert(dest@ =~= output_root@ + source@.subrange(1, j as int));
    }
    proof {
        assert(dest@ =~= output_root@ + source@.skip(1));
        lemma_vec_deep_view(&dest);
        lemma_vec_deep_view(source);
        lemma_vec_deep_view(output_root);
        assert(dest.deep_view() =~= spec_mirror_path(
            source.deep_view(),
            output_root.deep_view(),
        ));
    }
    Ok(dest)
}

/// Where the thumbnail of an output file lives: a `thumbnails` directory
/// beside the file, holding a file of the same name.
pub open spec fn spec_thumbnail_path(dest: Seq<Seq<char>>) -> Seq<Seq<char>>
    recommends
        dest.len() >= 1,
{
    dest.drop_last() + seq!["thumbnails"@, dest.last()]
}

/// The thumbnail location of the rendition at `dest`.
pub fn thumbnail_path(dest: &Vec<String>) -> (r: Vec<String>)
    requires
        dest.len() >= 1,
    ensures
        r.deep_view() == spec_thumbnail_path(dest.deep_view()),
{
    let mut r: Vec<String> = Vec::new();
    let mut i: usize = 0;
    while i < dest.len() - 1
        invariant
            dest.len() >= 1,
            i <= dest.len() - 1,
            r@ =~= dest@.take(i as int),
        decreases dest.len() - 1 - i,
    {
        r.push(dest[i].clone());
        i = i + 1;
        assert(r@ =~= dest@.take(i as int));
    }
    r.push(String::from_str("thumbnails"));
    r.push(dest[dest.len() - 1].clone());
    proof {
        lemma_vec_deep_view(&r);
        lemma_vec_deep_view(dest);
        assert(r.deep_view() =~= spec_thumbnail_path(dest.deep_view()));
    }
    r
}

// ---------------------------------------------------------------------------
// The path back to the static assets
// ---------------------------------------------------------------------------

/// The relative path from an album `depth` levels below the output root back
/// to the mirrored static-asset root: one parent reference per level, then
/// `static`.
pub open spec fn spec_static_rel_path(depth: nat) -> Seq<Seq<char>> {
    Seq::new(depth, |i: int| ".."@).push("static"@)
}

/// The components of the relative path from an album at `depth` back to the
/// static-asset root.
pub fn static_rel_path(depth: usize) -> (r: Vec<String>)
    ensures
        r.deep_view() == spec_static_rel_path(depth as nat),
{
    let mut r: Vec<String> = Vec::new();
    let mut i: usize = 0;
    while i < depth
        invariant
            i <= depth,
            r@.len() == i,
            forall|k: int| 0 <= k < i ==> r@[k]@ == ".."@,
        decreases depth - i,
    {
        r.push(String::from_str(".."));
        i = i + 1;
    }
    r.push(String::from_str("static"));
    proof {
        lemma_vec_deep_view(&r);
        assert(r.deep_view() =~= spec_static_rel_path(depth as nat));
    }
    r
}

// ---------------------------------------------------------------------------
// Rendering components as one path string
// ---------------------------------------------------------------------------

/// Path components joined with `/` separators, the way index pages cite
/// paths.
pub open spec fn spec_joined(parts: Seq<Seq<char>>) -> Seq<char>
    decreases parts.len(),
{
    if parts.len() == 0 {
        Seq::empty()
    } else if parts.len() == 1 {
        parts[0]
    } else {
        spec_joined(parts.drop_last()) + seq!['/'] + parts.last()
    }
}

/// Joins path components with `/` separators.
pub fn join_path(parts: &Vec<String>) -> (r: String)
    ensures
        r@ == spec_joined(parts.deep_view()),
{
    let mut out = String::new();
    let mut i: usize = 0;
    while i < parts.len()
        invariant
            i <= parts.len(),
            out@ == spec_joined(parts.deep_view().take(i as int)),
        decreases parts.len() - i,
    {
        proof {
            reveal_strlit("/");
            lemma_vec_deep_view(parts);
        }
        if i > 0 {
            out.append("/");
        }
        out.append(parts[i].as_str());
        i = i + 1;
        proof {
            let dv = parts.deep_view();
            assert(dv.take(i as int).drop_last() =~= dv.take(i - 1));
            if i == 1 {
                assert(out@ =~= spec_joined(dv.take(i as int)));
            } else {
                assert(spec_joined(dv.take(i as int)) == spec_joined(dv.take(i - 1)) + seq!['/']
                    + dv[i - 1]);
                assert(out@ =~= spec_joined(dv.take(i as int)));
            }
        }
    }
    assert(parts.deep_view().take(parts.len() as int) =~= parts.deep_view());
    out
}

} // verus!
