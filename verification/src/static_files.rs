//! Which embedded file of the frontend a path stands for.

use vstd::prelude::*;

use crate::text;

verus! {

/// What follows the last dot of `s`; all of it where there is no dot.
pub open spec fn extension_spec(s: Seq<char>) -> Seq<char>
    decreases s.len(),
{
    if s.len() == 0 || s.last() == '.' {
        Seq::empty()
    } else {
        extension_spec(s.drop_last()).push(s.last())
    }
}

/// The MIME type of files with an extension.
pub open spec fn mime_of_extension(ext: Seq<char>) -> Seq<char> {
    if ext == "html"@ || ext == "htm"@ {
        "text/html"@
    } else if ext == "css"@ {
        "text/css"@
    } else if ext == "js"@ {
        "application/javascript"@
    } else if ext == "json"@ {
        "application/json"@
    } else if ext == "svg"@ {
        "image/svg+xml"@
    } else if ext == "woff"@ {
        "font/woff"@
    } else if ext == "woff2"@ {
        "font/woff2"@
    } else if ext == "ttf"@ {
        "font/ttf"@
    } else if ext == "eot"@ {
        "application/vnd.ms-fontobject"@
    } else if ext == "png"@ {
        "image/png"@
    } else if ext == "jpg"@ || ext == "jpeg"@ {
        "image/jpeg"@
    } else if ext == "gif"@ {
        "image/gif"@
    } else if ext == "ico"@ {
        "image/x-icon"@
    } else if ext == "webp"@ {
        "image/webp"@
    } else if ext == "xml"@ {
        "text/xml"@
    } else if ext == "txt"@ {
        "text/plain"@
    } else if ext == "map"@ {
        "application/json"@
    } else {
        "application/octet-stream"@
    }
}

fn extension(path: &str) -> (r: String)
    ensures
        r@ == extension_spec(path@),
{
    let chars = text::chars_of(path);
    let mut from: usize = chars.len();
    assert(path@.take(from as int) == path@);
    assert(extension_spec(path@) =~= extension_spec(path@.take(from as int)) + path@.skip(
        from as int,
    ));
    while from > 0 && chars[from - 1] != '.'
        invariant
            from <= chars.len(),
            chars@ == path@,
            extension_spec(path@) == extension_spec(path@.take(from as int)) + path@.skip(
                from as int,
            ),
        decreases from,
    {
        proof {
            let head = path@.take(from as int);
            assert(head.drop_last() == path@.take(from - 1));
            assert(head.last() == chars@[from - 1]);
            assert(extension_spec(head) + path@.skip(from as int) =~= extension_spec(
                path@.take(from - 1),
            ) + path@.skip(from - 1));
        }
        from = from - 1;
    }
    proof {
        let head = path@.take(from as int);
        if from > 0 {
            assert(head.last() == chars@[from - 1]);
        }
        assert(extension_spec(head) =~= Seq::empty());
        assert(path@.subrange(from as int, path@.len() as int) == path@.skip(from as int));
        assert(extension_spec(path@) =~= path@.skip(from as int));
    }
    path.substring_char(from, chars.len()).to_owned()
}

/// The MIME type of a file, by its extension.
pub fn get_mime_type(path: &str) -> (r: &'static str)
    ensures
        r@ == mime_of_extension(extension_spec(path@)),
{
    let owned = extension(path);
    let ext: &str = owned.as_str();
    if text::same(ext, "html") || text::same(ext, "htm") {
        "text/html"
    } else if text::same(ext, "css") {
        "text/css"
    } else if text::same(ext, "js") {
        "application/javascript"
    } else if text::same(ext, "json") {
        "application/json"
    } else if text::same(ext, "svg") {
        "image/svg+xml"
    } else if text::same(ext, "woff") {
        "font/woff"
    } else if text::same(ext, "woff2") {
        "font/woff2"
    } else if text::same(ext, "ttf") {
        "font/ttf"
    } else if text::same(ext, "eot") {
        "application/vnd.ms-fontobject"
    } else if text::same(ext, "png") {
        "image/png"
    } else if text::same(ext, "jpg") || text::same(ext, "jpeg") {
        "image/jpeg"
    } else if text::same(ext, "gif") {
        "image/gif"
    } else if text::same(ext, "ico") {
        "image/x-icon"
    } else if text::same(ext, "webp") {
        "image/webp"
    } else if text::same(ext, "xml") {
        "text/xml"
    } else if text::same(ext, "txt") {
        "text/plain"
    } else if text::same(ext, "map") {
        "application/json"
    } else {
        "application/octet-stream"
    }
}

/// Whether a path stands for the start page: the root, or anything that ends like a directory.
pub open spec fn is_directory(path: Seq<char>) -> bool {
    path.len() == 0 || path.last() == '/'
}

/// The name under which the file for a path is embedded.
pub open spec fn lookup_spec(path: Seq<char>) -> Seq<char> {
    if is_directory(path) {
        "index.html"@
    } else if path[0] == '/' {
        path.skip(1)
    } else {
        path
    }
}

/// The embedded file that a path stands for, with the type it goes out under.
#[derive(Debug)]
pub struct StaticFile {
    pub lookup: String,
    pub mime: &'static str,
}

/// The type under which the file for a path goes out.
pub open spec fn mime_spec(path: Seq<char>) -> Seq<char> {
    if is_directory(path) {
        "text/html"@
    } else {
        mime_of_extension(extension_spec(lookup_spec(path)))
    }
}

/// What a request for a file is answered.
#[derive(Debug)]
pub struct StaticAnswer {
    pub status: u16,
    /// The type of the body, where there is a file.
    pub mime: Option<&'static str>,
    pub body: Vec<u8>,
}

/// The name to look up for a request for `path`, and the type of the file.
pub fn serve_static(path: &str) -> (r: StaticFile)
    ensures
        r.lookup@ == lookup_spec(path@),
        r.mime@ == mime_spec(path@),
{
    let n: usize = path.unicode_len();
    if n == 0 || path.get_char(n - 1) == '/' {
        return StaticFile { lookup: "index.html".to_owned(), mime: "text/html" };
    }
    let lookup = if path.get_char(0) == '/' {
        assert(path@.subrange(1, n as int) == path@.skip(1));
        path.substring_char(1, n).to_owned()
    } else {
        path.to_owned()
    };
    let mime = get_mime_type(lookup.as_str());
    StaticFile { lookup, mime }
}

/// Answers a request for `path`, where `file` is what is embedded under the name that
/// `serve_static` gives: the bytes as they are, or 404 without a body.
pub fn static_answer(path: &str, file: Option<Vec<u8>>) -> (r: StaticAnswer)
    ensures
        file matches Some(bytes) ==> {
            &&& r.status == 200
            &&& r.body@ == bytes@
            &&& r.mime matches Some(m) && m@ == mime_spec(path@)
        },
        file is None ==> r.status == 404 && r.body@.len() == 0 && r.mime is None,
{
    match file {
        Some(body) => StaticAnswer { status: 200, mime: Some(serve_static(path).mime), body },
        None => StaticAnswer { status: 404, mime: None, body: Vec::new() },
    }
}

/// The type of a file depends on what follows its last dot, and on nothing before it.
pub proof fn law_type_depends_on_extension(stem: Seq<char>, ext: Seq<char>)
    requires
        forall|i: int| 0 <= i < ext.len() ==> #[trigger] ext[i] != '.',
    ensures
        extension_spec(stem + seq!['.'] + ext) == ext,
        extension_spec(ext) == ext,
    decreases ext.len(),
{
    let s = stem + seq!['.'] + ext;
    if ext.len() == 0 {
        assert(s.last() == '.');
        assert(extension_spec(s) =~= ext);
        assert(extension_spec(ext) =~= ext);
    } else {
        let shorter = ext.drop_last();
        assert(ext.last() == ext[ext.len() - 1]);
        assert forall|i: int| 0 <= i < shorter.len() implies #[trigger] shorter[i] != '.' by {
            assert(shorter[i] == ext[i]);
        }
        law_type_depends_on_extension(stem, shorter);
        assert(s.drop_last() == stem + seq!['.'] + shorter);
        assert(s.last() == ext.last());
        assert(shorter.push(ext.last()) == ext);
    }
}

} // verus!
