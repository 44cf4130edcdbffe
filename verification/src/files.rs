//! The files a message carries (attachments, embedded images, image links)
//! and the test that decides whether a file is an image worth hashing.

use vstd::prelude::*;

use crate::text::{after_last, before_first, contains_char, piece_after_last, piece_before_first, same_text};

verus! {

/// Matches web links: `http`, then lower-case letters, then at least one
/// non-blank character, as far as the non-blank run goes.
pub const LINK_PATTERN: &'static str = r"(http|https)[a-z]*\S+";

/// The content type given to an image embedded in a message.
pub const EMBED_IMAGE_TYPE: &'static str = "image/webp";

/// A file that a user posted: an attachment, an embedded image or a link.
#[derive(Debug)]
pub struct UserFile {
    pub url: String,
    pub content_type: Option<String>,
}

/// A file as the contracts see it.
pub struct UserFileView {
    pub url: Seq<char>,
    pub content_type: Option<Seq<char>>,
}

impl View for UserFile {
    type V = UserFileView;

    open spec fn view(&self) -> UserFileView {
        UserFileView { url: self.url@, content_type: self.content_type.deep_view() }
    }
}

/// An attachment of a message: where it is stored and the type the sender declared.
pub struct AttachmentInfo {
    pub url: String,
    pub content_type: Option<String>,
}

impl View for AttachmentInfo {
    type V = UserFileView;

    open spec fn view(&self) -> UserFileView {
        UserFileView { url: self.url@, content_type: self.content_type.deep_view() }
    }
}

/// What of a chat message decides which files it carries.
pub struct MessageParts {
    /// The attachments, in order.
    pub attachments: Vec<AttachmentInfo>,
    /// For each embed, in order, the address of its image if it has one.
    pub embed_images: Vec<Option<String>>,
    /// The text of the message.
    pub content: String,
}

/// What `regex` finds, in order, when every non-overlapping match of
/// `pattern` in `text` is taken (the whole match of each); `None` when the
/// pattern does not compile or the search fails.
pub uninterp spec fn regex_matches(pattern: Seq<char>, text: Seq<char>) -> Option<Seq<Seq<char>>>;

/// Calls `fancy_regex::Regex::new` on `pattern` and collects the whole
/// match of each item of `Regex::captures_iter` on `text`. The contract
/// claims only that the result is a function of the pattern and the text.
#[verifier::external_body]
fn find_all_matches(pattern: &str, text: &str) -> (res: Option<Vec<String>>)
    ensures
        res.deep_view() == regex_matches(pattern@, text@),
{
    let re = fancy_regex::Regex::new(pattern).ok()?;
    re.captures_iter(text)
        .map(|c| c.map(|c| c.get(0).map_or(String::new(), |m| m.as_str().to_string())))
        .collect::<Result<Vec<String>, _>>()
        .ok()
}

/// The content types counted as images.
pub open spec fn image_types() -> Seq<Seq<char>> {
    seq!["image/png"@, "image/jpg"@, "image/jpeg"@, "image/webp"@]
}

/// A file is an image when its declared content type is one of `image_types()`.
pub open spec fn is_image_file(f: UserFileView) -> bool {
    match f.content_type {
        Some(t) => image_types().contains(t),
        None => false,
    }
}

/// The extension of a linked file: what lies between the last `.` and the
/// first `?` of its address (the query after a `?` is left out first).
pub open spec fn link_extension(url: Seq<char>) -> Seq<char> {
    after_last(before_first(url, '?'), '.')
}

/// The content type guessed for a linked file: `image/` followed by its extension.
pub open spec fn link_content_type(url: Seq<char>) -> Seq<char> {
    "image/"@ + link_extension(url)
}

/// The files of the embeds with an image, in order.
pub open spec fn embed_files(images: Seq<Option<Seq<char>>>) -> Seq<UserFileView>
    decreases images.len(),
{
    if images.len() == 0 {
        Seq::empty()
    } else {
        let rest = embed_files(images.drop_last());
        match images.last() {
            Some(u) => rest.push(UserFileView { url: u, content_type: Some(EMBED_IMAGE_TYPE@) }),
            None => rest,
        }
    }
}

/// The files of the links that hold a `.`, in order, with their guessed type.
pub open spec fn link_files(links: Seq<Seq<char>>) -> Seq<UserFileView>
    decreases links.len(),
{
    if links.len() == 0 {
        Seq::empty()
    } else {
        let rest = link_files(links.drop_last());
        let u = links.last();
        if u.contains('.') {
            rest.push(UserFileView { url: u, content_type: Some(link_content_type(u)) })
        } else {
            rest
        }
    }
}

/// The files of a message whose text holds the links `links`: first the
/// attachments, then the embedded images, then the links.
pub open spec fn message_files(msg: MessageParts, links: Seq<Seq<char>>) -> Seq<UserFileView> {
    msg.attachments@.map_values(|a: AttachmentInfo| a@) + embed_files(
        msg.embed_images@.map_values(|o: Option<String>| o.deep_view()),
    ) + link_files(links)
}

/// The views of a list of files.
pub open spec fn files_view(files: Seq<UserFile>) -> Seq<UserFileView> {
    files.map_values(|f: UserFile| f@)
}

proof fn lemma_files_view_push(s: Seq<UserFile>, f: UserFile)
    ensures
        files_view(s.push(f)) == files_view(s).push(f@),
{
    assert(files_view(s.push(f)) =~= files_view(s).push(f@));
}

fn copy_text(s: &String) -> (res: String)
    ensures
        res@ == s@,
{
    s.clone()
}

fn copy_opt_text(s: &Option<String>) -> (res: Option<String>)
    ensures
        res.deep_view() == s.deep_view(),
{
    match s {
        Some(t) => Some(t.clone()),
        None => None,
    }
}

/// The content type guessed for a linked file.
pub fn guess_link_type(url: &str) -> (res: String)
    ensures
        res@ == link_content_type(url@),
{
    let path = piece_before_first(url, '?');
    let ext = piece_after_last(path, '.');
    String::from_str("image/").concat(ext)
}

impl UserFile {
    /// Whether the declared content type is one of the image types.
    pub fn is_image(&self) -> (res: bool)
        ensures
            res == is_image_file(self@),
    {
        proof {
            reveal_strlit("image/png");
            reveal_strlit("image/jpg");
            reveal_strlit("image/jpeg");
            reveal_strlit("image/webp");
        }
        match &self.content_type {
            None => false,
            Some(t) => {
                let t = t.as_str();
                let r = same_text(t, "image/png") || same_text(t, "image/jpg") || same_text(
                    t,
                    "image/jpeg",
                ) || same_text(t, "image/webp");
                assert(image_types()[0] == "image/png"@);
                assert(image_types()[1] == "image/jpg"@);
                assert(image_types()[2] == "image/jpeg"@);
                assert(image_types()[3] == "image/webp"@);
                r
            },
        }
    }

    /// The files of a message, given the links found in its text.
    pub fn files_from_parts(msg: &MessageParts, links: &Vec<String>) -> (res: Vec<UserFile>)
        ensures
            files_view(res@) == message_files(*msg, links.deep_view()),
    {
        let mut files: Vec<UserFile> = Vec::new();
        let ghost atts = msg.attachments@.map_values(|a: AttachmentInfo| a@);
        let mut i: usize = 0;
        while i < msg.attachments.len()
            invariant
                i <= msg.attachments@.len(),
                atts == msg.attachments@.map_values(|a: AttachmentInfo| a@),
                files_view(files@) == atts.take(i as int),
            decreases msg.attachments.len() - i,
        {
            let a = &msg.attachments[i];
            let ghost old_files = files@;
            files.push(UserFile { url: copy_text(&a.url), content_type: copy_opt_text(&a.content_type) });
            proof {
                lemma_files_view_push(old_files, files@.last());
                assert(files@ == old_files.push(files@.last()));
            }
            i = i + 1;
            assert(files_view(files@) =~= atts.take(i as int));
        }
        assert(atts.take(i as int) =~= atts);
        let ghost imgs = msg.embed_images@.map_values(|o: Option<String>| o.deep_view());
        let mut k: usize = 0;
        while k < msg.embed_images.len()
            invariant
                k <= msg.embed_images@.len(),
                imgs == msg.embed_images@.map_values(|o: Option<String>| o.deep_view()),
                files_view(files@) == atts + embed_files(imgs.take(k as int)),
            decreases msg.embed_images.len() - k,
        {
            assert(imgs.take(k + 1).drop_last() =~= imgs.take(k as int));
            let ghost old_files = files@;
            match &msg.embed_images[k] {
                Some(u) => {
                    files.push(UserFile {
                        url: copy_text(u),
                        content_type: Some(String::from_str(EMBED_IMAGE_TYPE)),
                    });
                },
                None => {},
            }
            proof {
                if files@.len() > old_files.len() {
                    lemma_files_view_push(old_files, files@.last());
                    assert(files@ == old_files.push(files@.last()));
                }
            }
            k = k + 1;
            assert(files_view(files@) =~= atts + embed_files(imgs.take(k as int)));
        }
        assert(imgs.take(k as int) =~= imgs);
        let ghost before = atts + embed_files(imgs);
        let ghost ls = links.deep_view();
        let mut j: usize = 0;
        while j < links.len()
            invariant
                j <= links@.len(),
                ls == links.deep_view(),
                files_view(files@) == before + link_files(ls.take(j as int)),
            decreases links.len() - j,
        {
            assert(ls.take(j + 1).drop_last() =~= ls.take(j as int));
            let u = links[j].as_str();
            let ghost old_files = files@;
            if contains_char(u, '.') {
                files.push(UserFile { url: String::from_str(u), content_type: Some(guess_link_type(u)) });
            }
            proof {
                if files@.len() > old_files.len() {
                    lemma_files_view_push(old_files, files@.last());
                    assert(files@ == old_files.push(files@.last()));
                }
            }
            j = j + 1;
            assert(files_view(files@) =~= before + link_files(ls.take(j as int)));
        }
        assert(ls.take(j as int) =~= ls);
        files
    }

    /// The files of a message: its attachments, then the images of its
    /// embeds, then each link of its text that holds a `.`; `None` when the
    /// search for links fails.
    pub fn from_message(msg: &MessageParts) -> (res: Option<Vec<UserFile>>)
        ensures
            match regex_matches(LINK_PATTERN@, msg.content@) {
                Some(links) => res is Some && files_view(res->0@) == message_files(*msg, links),
                None => res is None,
            },
    {
        match find_all_matches(LINK_PATTERN, msg.content.as_str()) {
            Some(links) => Some(UserFile::files_from_parts(msg, &links)),
            None => None,
        }
    }
}

/// The extensions of linked files that count as images.
pub open spec fn image_extensions() -> Seq<Seq<char>> {
    seq!["png"@, "jpg"@, "jpeg"@, "webp"@]
}

proof fn lemma_prefix_cancel(p: Seq<char>, x: Seq<char>, y: Seq<char>)
    ensures
        (p + x == p + y) <==> (x == y),
{
    if p + x == p + y {
        assert(x =~= (p + x).skip(p.len() as int));
        assert(y =~= (p + y).skip(p.len() as int));
    }
}

/// Every image embedded in a message counts as an image.
pub proof fn law_embedded_images_are_images(images: Seq<Option<Seq<char>>>, i: int)
    requires
        0 <= i < embed_files(images).len(),
    ensures
        is_image_file(embed_files(images)[i]),
    decreases images.len(),
{
    reveal_strlit("image/webp");
    reveal_strlit("image/png");
    reveal_strlit("image/jpg");
    reveal_strlit("image/jpeg");
    assert(image_types()[3] == EMBED_IMAGE_TYPE@);
    if images.len() > 0 {
        let rest = embed_files(images.drop_last());
        if i < rest.len() {
            law_embedded_images_are_images(images.drop_last(), i);
        }
    }
}

/// A linked file counts as an image exactly when its extension (between the
/// last `.` and the first `?`) is `png`, `jpg`, `jpeg` or `webp`.
pub proof fn law_link_image_by_extension(url: Seq<char>)
    ensures
        is_image_file(UserFileView { url, content_type: Some(link_content_type(url)) })
            <==> image_extensions().contains(link_extension(url)),
{
    let x = link_extension(url);
    let p = "image/"@;
    reveal_strlit("image/");
    reveal_strlit("image/png");
    reveal_strlit("image/jpg");
    reveal_strlit("image/jpeg");
    reveal_strlit("image/webp");
    reveal_strlit("png");
    reveal_strlit("jpg");
    reveal_strlit("jpeg");
    reveal_strlit("webp");
    let exts = image_extensions();
    assert("image/png"@ =~= p + "png"@);
    assert("image/jpg"@ =~= p + "jpg"@);
    assert("image/jpeg"@ =~= p + "jpeg"@);
    assert("image/webp"@ =~= p + "webp"@);
    assert(image_types() =~= seq![p + exts[0], p + exts[1], p + exts[2], p + exts[3]]);
    lemma_prefix_cancel(p, x, exts[0]);
    lemma_prefix_cancel(p, x, exts[1]);
    lemma_prefix_cancel(p, x, exts[2]);
    lemma_prefix_cancel(p, x, exts[3]);
    if image_types().contains(p + x) {
        let k: int = choose|k: int| 0 <= k < 4 && image_types()[k] == p + x;
        assert(exts[k] == x);
    }
    if exts.contains(x) {
        let k: int = choose|k: int| 0 <= k < 4 && exts[k] == x;
        assert(image_types()[k] == p + x);
    }
}

/// Every linked file gets a content type beginning with `image/`.
pub proof fn law_link_types_start_with_image(links: Seq<Seq<char>>, i: int)
    requires
        0 <= i < link_files(links).len(),
    ensures
        link_files(links)[i].content_type matches Some(t) && t.take(6) == "image/"@,
    decreases links.len(),
{
    reveal_strlit("image/");
    if links.len() > 0 {
        let rest = link_files(links.drop_last());
        if i < rest.len() {
            law_link_types_start_with_image(links.drop_last(), i);
        } else {
            let u = links.last();
            assert(link_content_type(u).take(6) =~= "image/"@);
        }
    }
}

/// Each embed adds exactly one file when it has an image (that image, typed
/// `image/webp`, after the files of the embeds before it), and none when it
/// has no image; a message without embeds has no embedded files.
pub proof fn law_each_embedded_image_is_one_file(images: Seq<Option<Seq<char>>>, u: Seq<char>)
    ensures
        embed_files(Seq::empty()) == Seq::<UserFileView>::empty(),
        embed_files(images.push(Some(u))) == embed_files(images).push(
            UserFileView { url: u, content_type: Some("image/webp"@) },
        ),
        embed_files(images.push(None)) == embed_files(images),
{
    assert(images.push(Some(u)).drop_last() =~= images);
    assert(images.push(None::<Seq<char>>).drop_last() =~= images);
    assert(EMBED_IMAGE_TYPE@ == "image/webp"@);
}

/// There are as many embedded files as embeds with an image.
pub proof fn law_embedded_file_count(images: Seq<Option<Seq<char>>>)
    ensures
        embed_files(images).len() == images.filter(|o: Option<Seq<char>>| o is Some).len(),
    decreases images.len(),
{
    reveal(Seq::filter);
    if images.len() > 0 {
        law_embedded_file_count(images.drop_last());
    }
}

/// Each link adds exactly one file when it holds a `.` (the link, typed
/// `image/` followed by its extension, after the files of the links before
/// it), and none otherwise.
pub proof fn law_each_dotted_link_is_one_file(links: Seq<Seq<char>>, u: Seq<char>)
    ensures
        link_files(Seq::empty()) == Seq::<UserFileView>::empty(),
        u.contains('.') ==> link_files(links.push(u)) == link_files(links).push(
            UserFileView { url: u, content_type: Some("image/"@ + link_extension(u)) },
        ),
        !u.contains('.') ==> link_files(links.push(u)) == link_files(links),
{
    assert(links.push(u).drop_last() =~= links);
}

/// The files of a message are its attachments, in order and unchanged, then
/// its embedded images, then its dotted links.
pub proof fn law_message_files_in_order(msg: MessageParts, links: Seq<Seq<char>>, i: int)
    requires
        0 <= i < msg.attachments@.len(),
    ensures
        message_files(msg, links).len() == msg.attachments@.len() + embed_files(
            msg.embed_images@.map_values(|o: Option<String>| o.deep_view()),
        ).len() + link_files(links).len(),
        message_files(msg, links)[i] == msg.attachments@[i]@,
{
}

} // verus!
