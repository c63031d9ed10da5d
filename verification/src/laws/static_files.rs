//! Laws of serving files.

use vstd::prelude::*;

use crate::static_files::{
    extension_spec, is_directory, law_type_depends_on_extension, lookup_spec, mime_of_extension,
    mime_spec,
};

verus! {

/// The root and every path that ends like a directory stand for the start page, which is HTML.
pub proof fn law_directories(path: Seq<char>)
    ensures
        lookup_spec(Seq::empty()) == "index.html"@,
        mime_spec(Seq::empty()) == "text/html"@,
        lookup_spec(path.push('/')) == "index.html"@,
        mime_spec(path.push('/')) == "text/html"@,
        is_directory(path) <==> path.len() == 0 || path[path.len() - 1] == '/',
{
}

/// Any other path stands for the file of that name, without the one slash it begins with, and with
/// the type of what follows its last dot.
pub proof fn law_files(path: Seq<char>, stem: Seq<char>, ext: Seq<char>)
    requires
        path.len() > 0,
        path[path.len() - 1] != '/',
        forall|i: int| 0 <= i < ext.len() ==> #[trigger] ext[i] != '.',
    ensures
        lookup_spec(seq!['/'] + path) == path,
        path[0] != '/' ==> lookup_spec(path) == path,
        mime_spec(seq!['/'] + path) == mime_of_extension(extension_spec(path)),
        path[0] != '/' ==> mime_spec(path) == mime_of_extension(extension_spec(path)),
        extension_spec(stem + seq!['.'] + ext) == ext,
        extension_spec(ext) == ext,
{
    let rooted = seq!['/'] + path;
    assert(rooted.last() == path[path.len() - 1]);
    assert(rooted.skip(1) =~= path);
    law_type_depends_on_extension(stem, ext);
}

#[verifier::opaque]
spec fn extension_key(s: Seq<char>) -> int {
    let a = if s.len() > 0 { s[0] as int } else { 0 };
    let b = if s.len() > 1 { s[1] as int } else { 0 };
    let c = if s.len() > 2 { s[2] as int } else { 0 };
    let d = if s.len() > 3 { s[3] as int } else { 0 };
    let e = if s.len() > 4 { s[4] as int } else { 0 };
    a + 128 * b + 16384 * c + 2097152 * d + 268435456 * e
}

proof fn lemma_extension_keys()
    ensures
        extension_key("html"@) == 228293224,
        extension_key("htm"@) == 1800808,
        extension_key("css"@) == 1898979,
        extension_key("js"@) == 14826,
        extension_key("json"@) == 232520170,
        extension_key("svg"@) == 1702771,
        extension_key("woff"@) == 215594999,
        extension_key("woff2"@) == 13637367799,
        extension_key("ttf"@) == 1686132,
        extension_key("eot"@) == 1914853,
        extension_key("png"@) == 1701744,
        extension_key("jpg"@) == 1701994,
        extension_key("jpeg"@) == 217675882,
        extension_key("gif"@) == 1684711,
        extension_key("ico"@) == 1831401,
        extension_key("webp"@) == 236499703,
        extension_key("xml"@) == 1783544,
        extension_key("txt"@) == 1916020,
        extension_key("map"@) == 1847533,
{
    reveal(extension_key);
    reveal_strlit("html");
    reveal_strlit("htm");
    reveal_strlit("css");
    reveal_strlit("js");
    reveal_strlit("json");
    reveal_strlit("svg");
    reveal_strlit("woff");
    reveal_strlit("woff2");
    reveal_strlit("ttf");
    reveal_strlit("eot");
    reveal_strlit("png");
    reveal_strlit("jpg");
    reveal_strlit("jpeg");
    reveal_strlit("gif");
    reveal_strlit("ico");
    reveal_strlit("webp");
    reveal_strlit("xml");
    reveal_strlit("txt");
    reveal_strlit("map");
}

/// The type of each kind of file.
pub proof fn law_types()
    ensures
        mime_of_extension("html"@) == "text/html"@,
        mime_of_extension("htm"@) == "text/html"@,
        mime_of_extension("css"@) == "text/css"@,
        mime_of_extension("js"@) == "application/javascript"@,
        mime_of_extension("json"@) == "application/json"@,
        mime_of_extension("svg"@) == "image/svg+xml"@,
        mime_of_extension("woff"@) == "font/woff"@,
        mime_of_extension("woff2"@) == "font/woff2"@,
        mime_of_extension("ttf"@) == "font/ttf"@,
        mime_of_extension("eot"@) == "application/vnd.ms-fontobject"@,
        mime_of_extension("png"@) == "image/png"@,
        mime_of_extension("jpg"@) == "image/jpeg"@,
        mime_of_extension("jpeg"@) == "image/jpeg"@,
        mime_of_extension("gif"@) == "image/gif"@,
        mime_of_extension("ico"@) == "image/x-icon"@,
        mime_of_extension("webp"@) == "image/webp"@,
        mime_of_extension("xml"@) == "text/xml"@,
        mime_of_extension("txt"@) == "text/plain"@,
        mime_of_extension("map"@) == "application/json"@,
{
    lemma_extension_keys();
}

/// Files of any other kind are bytes.
pub proof fn law_other_types(ext: Seq<char>)
    requires
        ext != "html"@,
        ext != "htm"@,
        ext != "css"@,
        ext != "js"@,
        ext != "json"@,
        ext != "svg"@,
        ext != "woff"@,
        ext != "woff2"@,
        ext != "ttf"@,
        ext != "eot"@,
        ext != "png"@,
        ext != "jpg"@,
        ext != "jpeg"@,
        ext != "gif"@,
        ext != "ico"@,
        ext != "webp"@,
        ext != "xml"@,
        ext != "txt"@,
        ext != "map"@,
    ensures
        mime_of_extension(ext) == "application/octet-stream"@,
{
}

} // verus!
