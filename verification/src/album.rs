use vstd::prelude::*;
use crate::paths::{
    is_reserved, join_path, lemma_vec_deep_view, spec_is_reserved, spec_joined,
    spec_static_rel_path, spec_wanted_file, static_rel_path, wanted_file,
};

verus! {

/// One direct child of an output directory, as a directory listing reports
/// it: its name and whether it is a directory.
pub struct ChildEntry {
    pub name: String,
    pub is_dir: bool,
}

/// The mathematical value of a [`ChildEntry`].
pub struct ChildView {
    pub name: Seq<char>,
    pub is_dir: bool,
}

impl View for ChildEntry {
    type V = ChildView;

    open spec fn view(&self) -> ChildView {
        ChildView { name: self.name@, is_dir: self.is_dir }
    }
}

impl DeepView for ChildEntry {
    type V = ChildView;

    open spec fn deep_view(&self) -> ChildView {
        self.view()
    }
}

/// One image of an album: its file name, and where its thumbnail lives
/// relative to the album's own directory.
pub struct ImageEntry {
    pub image_name: String,
    pub thumbnail_relative_path: String,
}

/// The mathematical value of an [`ImageEntry`].
pub struct ImageView {
    pub image_name: Seq<char>,
    pub thumbnail: Seq<char>,
}

impl View for ImageEntry {
    type V = ImageView;

    open spec fn view(&self) -> ImageView {
        ImageView { image_name: self.image_name@, thumbnail: self.thumbnail_relative_path@ }
    }
}

impl DeepView for ImageEntry {
    type V = ImageView;

    open spec fn deep_view(&self) -> ImageView {
        self.view()
    }
}

/// The view model of one album directory, handed to the page renderer: the
/// directory's own name as title, its images and sub-albums in listing order,
/// the representative thumbnail, and the relative path back to the shared
/// static assets.
pub struct AlbumNode {
    pub title: String,
    pub images: Vec<ImageEntry>,
    pub sub_albums: Vec<String>,
    pub representative_thumbnail: Option<String>,
    pub static_root_relative_path: String,
}

// ---------------------------------------------------------------------------
// What the pieces of an album are
// ---------------------------------------------------------------------------

/// The label of a sub-album in its parent's listing: the directory name with
/// a trailing separator.
pub open spec fn spec_album_label(name: Seq<char>) -> Seq<char> {
    name + "/"@
}

/// Where an album's page finds the thumbnail of one of its images.
pub open spec fn spec_thumb_rel(name: Seq<char>) -> Seq<char> {
    "thumbnails/"@ + name
}

/// The sub-albums of a directory: its child directories in listing order,
/// reserved names excluded, each as a trailing-separator label.
pub open spec fn spec_sub_albums(children: Seq<ChildView>) -> Seq<Seq<char>>
    decreases children.len(),
{
    if children.len() == 0 {
        Seq::empty()
    } else {
        let rest = spec_sub_albums(children.drop_last());
        let c = children.last();
        if c.is_dir && !spec_is_reserved(c.name) {
            rest.push(spec_album_label(c.name))
        } else {
            rest
        }
    }
}

/// The images of a directory: its child files whose extension is accepted,
/// in listing order, each with the thumbnail reference beside it.
pub open spec fn spec_images(children: Seq<ChildView>, exts: Seq<Seq<char>>) -> Seq<ImageView>
    decreases children.len(),
{
    if children.len() == 0 {
        Seq::empty()
    } else {
        let rest = spec_images(children.drop_last(), exts);
        let c = children.last();
        if !c.is_dir && spec_wanted_file(c.name, exts) {
            rest.push(ImageView { image_name: c.name, thumbnail: spec_thumb_rel(c.name) })
        } else {
            rest
        }
    }
}

/// The representative thumbnail of an album: the first listed image's, absent
/// exactly when the album has no image of its own.
pub open spec fn spec_representative(images: Seq<ImageView>) -> Option<Seq<char>> {
    if images.len() == 0 {
        None
    } else {
        Some(images[0].thumbnail)
    }
}

// ---------------------------------------------------------------------------
// Walking the output tree
// ---------------------------------------------------------------------------

/// Whether the album walk enters an output-tree entry: files never, and the
/// reserved directories never, so neither ever becomes an album or gets an
/// index page.
pub open spec fn spec_should_visit(name: Seq<char>, is_file: bool) -> bool {
    !is_file && !spec_is_reserved(name)
}

/// Decides whether the album walk enters an entry named `name`.
pub fn should_visit(name: &String, is_file: bool) -> (r: bool)
    ensures
        r == spec_should_visit(name@, is_file),
{
    !is_file && !is_reserved(name)
}

// ---------------------------------------------------------------------------
// Building one album
// ---------------------------------------------------------------------------

/// Builds the view model of the album at `dir` (a directory under
/// `output_root`, or that root itself) from its direct children.
pub fn build_album(
    dir: &Vec<String>,
    output_root: &Vec<String>,
    children: &Vec<ChildEntry>,
    extensions: &Vec<String>,
) -> (r: AlbumNode)
    requires
        dir.len() >= 1,
        output_root.len() <= dir.len(),
    ensures
        r.title@ == dir.deep_view().last(),
        r.sub_albums.deep_view() == spec_sub_albums(children.deep_view()),
        r.images.deep_view() == spec_images(children.deep_view(), extensions.deep_view()),
        match r.representative_thumbnail {
            Some(t) => spec_representative(
                spec_images(children.deep_view(), extensions.deep_view()),
            ) == Some(t@),
            None => spec_representative(
                spec_images(children.deep_view(), extensions.deep_view()),
            ) is None,
        },
        r.static_root_relative_path@ == spec_joined(
            spec_static_rel_path((dir.len() - output_root.len()) as nat),
        ),
{
    proof {
        lemma_vec_deep_view(dir);
    }
    let title = dir[dir.len() - 1].clone();
    let ghost exts_v = extensions.deep_view();
    let mut sub_albums: Vec<String> = Vec::new();
    let mut images: Vec<ImageEntry> = Vec::new();
    let mut i: usize = 0;
    while i < children.len()
        invariant
            i <= children.len(),
            exts_v == extensions.deep_view(),
            sub_albums.deep_view() =~= spec_sub_albums(children.deep_view().take(i as int)),
            images.deep_view() =~= spec_images(children.deep_view().take(i as int), exts_v),
        decreases children.len() - i,
    {
        proof {
            lemma_vec_deep_view(children);
            lemma_vec_deep_view(&sub_albums);
            lemma_vec_deep_view(&images);
        }
        let c = &children[i];
        if c.is_dir {
            if !is_reserved(&c.name) {
                let label = c.name.clone().concat("/");
                sub_albums.push(label);
            }
        } else {
            if wanted_file(&c.name, extensions) {
                let thumb = String::from_str("thumbnails/").concat(c.name.as_str());
                images.push(
                    ImageEntry { image_name: c.name.clone(), thumbnail_relative_path: thumb },
                );
            }
        }
        i = i + 1;
        proof {
            lemma_vec_deep_view(&sub_albums);
            lemma_vec_deep_view(&images);
            let cv = children.deep_view();
            assert(cv.take(i as int).drop_last() =~= cv.take(i - 1));
            assert(cv.take(i as int).last() == cv[i - 1]);
            assert(sub_albums.deep_view() =~= spec_sub_albums(cv.take(i as int)));
            assert(images.deep_view() =~= spec_images(cv.take(i as int), exts_v));
        }
    }
    proof {
        assert(children.deep_view().take(children.len() as int) =~= children.deep_view());
    }
    let representative_thumbnail: Option<String> = if images.len() > 0 {
        proof {
            lemma_vec_deep_view(&images);
        }
        Some(images[0].thumbnail_relative_path.clone())
    } else {
        None
    };
    let depth = dir.len() - output_root.len();
    let rel = static_rel_path(depth);
    let static_root_relative_path = join_path(&rel);
    AlbumNode { title, images, sub_albums, representative_thumbnail, static_root_relative_path }
}

// ---------------------------------------------------------------------------
// Reserved names never look like albums
// ---------------------------------------------------------------------------

proof fn lemma_label_injective(a: Seq<char>, b: Seq<char>)
    requires
        spec_album_label(a) == spec_album_label(b),
    ensures
        a == b,
{
    reveal_strlit("/");
    assert(spec_album_label(a).len() == a.len() + 1);
    assert(spec_album_label(b).len() == b.len() + 1);
    assert(spec_album_label(a).take(a.len() as int) =~= a);
    assert(spec_album_label(b).take(b.len() as int) =~= b);
}

/// Reserved directory names never appear in a sub-album listing: no element
/// of the listing is the label of `thumbnails` or of `static`.
pub proof fn lemma_reserved_never_listed(children: Seq<ChildView>)
    ensures
        forall|k: int|
            0 <= k < spec_sub_albums(children).len()
                ==> #[trigger] spec_sub_albums(children)[k] != "thumbnails/"@,
        forall|k: int|
            0 <= k < spec_sub_albums(children).len()
                ==> #[trigger] spec_sub_albums(children)[k] != "static/"@,
    decreases children.len(),
{
    reveal_strlit("/");
    reveal_strlit("thumbnails");
    reveal_strlit("thumbnails/");
    reveal_strlit("static");
    reveal_strlit("static/");
    assert("thumbnails/"@ =~= spec_album_label("thumbnails"@));
    assert("static/"@ =~= spec_album_label("static"@));
    if children.len() > 0 {
        lemma_reserved_never_listed(children.drop_last());
        let c = children.last();
        let s = spec_sub_albums(children);
        let rest = spec_sub_albums(children.drop_last());
        if c.is_dir && !spec_is_reserved(c.name) {
            if spec_album_label(c.name) == "thumbnails/"@ {
                lemma_label_injective(c.name, "thumbnails"@);
            }
            if spec_album_label(c.name) == "static/"@ {
                lemma_label_injective(c.name, "static"@);
            }
            assert forall|k: int| 0 <= k < s.len() implies s[k] != "thumbnails/"@ && s[k]
                != "static/"@ by {
                if k < rest.len() {
                    assert(s[k] == rest[k]);
                } else {
                    assert(s[k] == spec_album_label(c.name));
                }
            }
        } else {
            assert(s == rest);
        }
    }
}

} // verus!
