//! The asset protocol: serves the application's static files.
//!
//! Assets are loaded through a custom URL scheme and not through `file://`: the
//! webview gives the URL of the page as the origin of an IPC message, and in
//! `file:///C:/...` the colon would be taken for the start of a port number.

use crate::text::{
    ascii_lower_text, chars_of, concat2, lemma_split_first, lemma_split_whole, lower_text, opt_text,
    pieces, same_text, split, split_chars, text_between,
};
use vstd::prelude::*;
use vstd::string::StrSliceExecFns;
use vstd::utf8::encode_utf8;

verus! {

/// Custom URL scheme used to serve the application's static assets.
pub const ASSET_SCHEME: &'static str = "rizonet-asset";

/// The host in the URLs of assets.
pub const ASSET_HOST: &'static str = "localhost";

/// The reply to a request for an asset.
#[derive(Debug)]
pub struct AssetResponse {
    pub status: u16,
    pub headers: Vec<(String, String)>,
    pub body: Vec<u8>,
}

/// The texts of a list of headers.
pub open spec fn header_texts(headers: Seq<(String, String)>) -> Seq<(Seq<char>, Seq<char>)> {
    headers.map_values(|h: (String, String)| (h.0@, h.1@))
}

impl AssetResponse {
    /// Whether the reply has this status, these headers in this order, and this body.
    pub open spec fn is(
        self,
        status: u16,
        headers: Seq<(Seq<char>, Seq<char>)>,
        body: Seq<u8>,
    ) -> bool {
        &&& self.status == status
        &&& header_texts(self.headers@) == headers
        &&& self.body@ == body
    }
}

/// The text without the slashes that it starts with.
pub open spec fn without_leading_slashes(s: Seq<char>) -> Seq<char>
    decreases s.len(),
{
    if s.len() > 0 && s[0] == '/' {
        without_leading_slashes(s.drop_first())
    } else {
        s
    }
}

/// The asset that a URL path asks for, relative to the asset root: by default
/// the index page.
pub open spec fn asset_name(path: Seq<char>) -> Seq<char> {
    let rel = without_leading_slashes(path);
    if rel.len() == 0 {
        "index.html"@
    } else {
        rel
    }
}

/// Whether a relative path has a `..` segment.
pub open spec fn climbs(rel: Seq<char>) -> bool {
    exists|i: int| 0 <= i < split(rel, '/').len() && #[trigger] split(rel, '/')[i] == ".."@
}

/// The asset that a URL path asks for. None for one that tries to escape the
/// asset root via `..` segments.
pub open spec fn asset_path_spec(path: Seq<char>) -> Option<Seq<char>> {
    if climbs(asset_name(path)) {
        None
    } else {
        Some(asset_name(path))
    }
}

/// The asset that a URL path asks for, relative to the asset root. None for one
/// that tries to escape the root via `..` segments.
pub fn asset_path(path: &str) -> (r: Option<String>)
    ensures
        match r {
            Some(rel) => asset_path_spec(path@) == Some(rel@),
            None => asset_path_spec(path@) is None,
        },
{
    let chars: Vec<char> = chars_of(path);
    let mut start: usize = 0;
    assert(chars@.skip(0) =~= chars@);
    while start < chars.len() && chars[start] == '/'
        invariant
            start <= chars@.len(),
            without_leading_slashes(chars@.skip(start as int)) == without_leading_slashes(chars@),
        decreases chars@.len() - start,
    {
        proof {
            assert(chars@.skip(start as int).drop_first() =~= chars@.skip(start + 1));
        }
        start = start + 1;
    }
    assert(chars@.skip(start as int) =~= chars@.subrange(start as int, chars@.len() as int));
    let rel: String = if start == chars.len() {
        "index.html".to_owned()
    } else {
        text_between(&chars, start, chars.len())
    };
    assert(rel@ == asset_name(path@));
    // Reject path traversal.
    let rel_chars: Vec<char> = chars_of(rel.as_str());
    let dots: Vec<char> = chars_of("..");
    let segments: Vec<Vec<char>> = split_chars(&rel_chars, '/');
    let mut i: usize = 0;
    while i < segments.len()
        invariant
            i <= segments@.len(),
            pieces(segments@) == split(rel@, '/'),
            dots@ == ".."@,
            rel@ == asset_name(path@),
            forall|j: int| 0 <= j < i ==> #[trigger] split(rel@, '/')[j] != ".."@,
        decreases segments@.len() - i,
    {
        assert(split(rel@, '/')[i as int] == segments@[i as int]@);
        if same_chars(&segments[i], &dots) {
            return None;
        }
        i = i + 1;
    }
    Some(rel)
}

/// Whether two lists of characters are equal.
fn same_chars(a: &Vec<char>, b: &Vec<char>) -> (r: bool)
    ensures
        r == (a@ == b@),
{
    if a.len() != b.len() {
        return false;
    }
    let mut i: usize = 0;
    while i < a.len()
        invariant
            i <= a@.len() == b@.len(),
            forall|j: int| 0 <= j < i ==> a@[j] == b@[j],
        decreases a@.len() - i,
    {
        if a[i] != b[i] {
            return false;
        }
        i = i + 1;
    }
    assert(a@ =~= b@);
    true
}

// ----------------------------------------------------------------- MIME types

/// The place behind the last `c` in `s`, or 0 where there is none.
pub open spec fn behind_last(s: Seq<char>, c: char) -> int
    decreases s.len(),
{
    if s.len() == 0 {
        0
    } else if s.last() == c {
        s.len() as int
    } else {
        behind_last(s.drop_last(), c)
    }
}

/// A path without the slashes that it ends with.
pub open spec fn without_trailing_slashes(s: Seq<char>) -> Seq<char>
    decreases s.len(),
{
    if s.len() > 0 && s.last() == '/' {
        without_trailing_slashes(s.drop_last())
    } else {
        s
    }
}

/// The last segment of a path; slashes at its end do not matter.
pub open spec fn file_part(path: Seq<char>) -> Seq<char> {
    let whole = without_trailing_slashes(path);
    whole.skip(behind_last(whole, '/'))
}

/// What follows the last dot of a file name, where that dot is not its first
/// character.
pub open spec fn extension_of(name: Seq<char>) -> Option<Seq<char>> {
    let at = behind_last(name, '.');
    if at <= 1 {
        None
    } else {
        Some(name.skip(at))
    }
}

/// Whether a character separates the segments of a path on some platform.
pub open spec fn is_separator(c: char) -> bool {
    c == '/' || c == '\\'
}

/// Whether a path is one whose last segment is a file name on every platform. That
/// segment holds no backslash and is not `.` or `..`, and the path does not start as
/// paths with a prefix do on Windows: with two separators, or with a colon behind the
/// first character.
pub open spec fn plain(path: Seq<char>) -> bool {
    &&& !(path.len() >= 2 && is_separator(path[0]) && is_separator(path[1]))
    &&& !(path.len() >= 2 && path[1] == ':')
    &&& file_part(path).len() > 0
    &&& !file_part(path).contains('\\')
    &&& file_part(path) != "."@
    &&& file_part(path) != ".."@
}

/// `std::path::Path::extension` gives what follows the last dot of the file
/// name: nothing where there is no dot, or only one at the start. The claim is
/// made of plain paths only: which segment of any other path is its file name
/// differs between platforms.
#[verifier::external_body]
fn path_extension(path: &str) -> (r: Option<String>)
    ensures
        plain(path@) ==> match r {
            Some(ext) => extension_of(file_part(path@)) == Some(ext@),
            None => extension_of(file_part(path@)) is None,
        },
{
    match std::path::Path::new(path).extension() {
        Some(ext) => match ext.to_str() {
            Some(text) => Some(text.to_owned()),
            None => None,
        },
        None => None,
    }
}

/// The MIME type of files with an extension in lower case.
pub open spec fn mime_of_lower(ext: Seq<char>) -> Seq<char> {
    if ext == "html"@ || ext == "htm"@ {
        "text/html; charset=utf-8"@
    } else if ext == "js"@ || ext == "mjs"@ {
        "application/javascript; charset=utf-8"@
    } else if ext == "css"@ {
        "text/css; charset=utf-8"@
    } else if ext == "json"@ || ext == "map"@ {
        "application/json; charset=utf-8"@
    } else if ext == "png"@ {
        "image/png"@
    } else if ext == "jpg"@ || ext == "jpeg"@ {
        "image/jpeg"@
    } else if ext == "gif"@ {
        "image/gif"@
    } else if ext == "svg"@ {
        "image/svg+xml"@
    } else if ext == "webp"@ {
        "image/webp"@
    } else if ext == "ico"@ {
        "image/x-icon"@
    } else if ext == "wasm"@ {
        "application/wasm"@
    } else if ext == "woff"@ {
        "font/woff"@
    } else if ext == "woff2"@ {
        "font/woff2"@
    } else if ext == "ttf"@ {
        "font/ttf"@
    } else if ext == "otf"@ {
        "font/otf"@
    } else if ext == "txt"@ || ext == "md"@ {
        "text/plain; charset=utf-8"@
    } else {
        "application/octet-stream"@
    }
}

/// The MIME type of files with an extension, whatever its case.
pub open spec fn mime_of(ext: Option<Seq<char>>) -> Seq<char> {
    match ext {
        Some(e) => mime_of_lower(ascii_lower_text(e)),
        None => "application/octet-stream"@,
    }
}

/// The MIME type of files with an extension, whatever its case.
pub fn mime_for_extension(ext: &Option<String>) -> (r: &'static str)
    ensures
        match *ext {
            Some(e) => r@ == mime_of(Some(e@)),
            None => r@ == mime_of(None),
        },
{
    match ext {
        Some(e) => {
            let lower: String = lower_text(e.as_str());
            let x: &str = lower.as_str();
            if same_text(x, "html") || same_text(x, "htm") {
                "text/html; charset=utf-8"
            } else if same_text(x, "js") || same_text(x, "mjs") {
                "application/javascript; charset=utf-8"
            } else if same_text(x, "css") {
                "text/css; charset=utf-8"
            } else if same_text(x, "json") || same_text(x, "map") {
                "application/json; charset=utf-8"
            } else if same_text(x, "png") {
                "image/png"
            } else if same_text(x, "jpg") || same_text(x, "jpeg") {
                "image/jpeg"
            } else if same_text(x, "gif") {
                "image/gif"
            } else if same_text(x, "svg") {
                "image/svg+xml"
            } else if same_text(x, "webp") {
                "image/webp"
            } else if same_text(x, "ico") {
                "image/x-icon"
            } else if same_text(x, "wasm") {
                "application/wasm"
            } else if same_text(x, "woff") {
                "font/woff"
            } else if same_text(x, "woff2") {
                "font/woff2"
            } else if same_text(x, "ttf") {
                "font/ttf"
            } else if same_text(x, "otf") {
                "font/otf"
            } else if same_text(x, "txt") || same_text(x, "md") {
                "text/plain; charset=utf-8"
            } else {
                "application/octet-stream"
            }
        },
        None => "application/octet-stream",
    }
}

/// Whether `ext` can be the extension of a path, as [`path_extension`] tells it.
pub closed spec fn extends(path: &str, ext: Option<String>) -> bool {
    call_ensures(path_extension, (path,), ext)
}

/// Whether `mime` is the MIME type for the file at `path`: the one that belongs to
/// its extension, which for a plain path is that of its last segment.
pub open spec fn mime_fits(path: Seq<char>, mime: Seq<char>) -> bool {
    &&& exists|p: &str, ext: Option<String>| #[trigger]
        extends(p, ext) && p@ == path && mime == mime_of(opt_text(ext))
    &&& plain(path) ==> mime == mime_of(extension_of(file_part(path)))
}

/// The MIME type of the file at `path`.
pub fn mime_for(path: &str) -> (r: &'static str)
    ensures
        mime_fits(path@, r@),
{
    let ext: Option<String> = path_extension(path);
    assert(extends(path, ext));
    mime_for_extension(&ext)
}

// -------------------------------------------------------------------- replies

/// The reply to a request that tries to leave the asset root.
fn forbidden() -> (r: AssetResponse)
    ensures
        r.is(403, Seq::empty(), encode_utf8("forbidden"@)),
{
    let headers: Vec<(String, String)> = Vec::new();
    assert(header_texts(headers@) =~= Seq::empty());
    AssetResponse { status: 403, headers, body: "forbidden".as_bytes_vec() }
}

/// Whether `r` is the reply for the asset `rel`, by what was read of it.
pub open spec fn serves(rel: Seq<char>, contents: Option<Vec<u8>>, r: AssetResponse) -> bool {
    match contents {
        Some(bytes) => exists|mime: Seq<char>| #[trigger]
            mime_fits(rel, mime) && r.is(
                200,
                seq![("Content-Type"@, mime), ("Access-Control-Allow-Origin"@, "*"@)],
                bytes@,
            ),
        None => r.is(
            404,
            seq![("Content-Type"@, "text/plain; charset=utf-8"@)],
            encode_utf8("not found: "@ + rel),
        ),
    }
}

/// The reply for the asset `rel`: its contents with the MIME type of its name, or
/// that it was not found where it could not be read.
pub fn asset_response(rel: &str, contents: Option<Vec<u8>>) -> (r: AssetResponse)
    ensures
        serves(rel@, contents, r),
{
    match contents {
        Some(bytes) => {
            let mime: &'static str = mime_for(rel);
            let mut headers: Vec<(String, String)> = Vec::new();
            headers.push(("Content-Type".to_owned(), mime.to_owned()));
            headers.push(("Access-Control-Allow-Origin".to_owned(), "*".to_owned()));
            proof {
                assert(header_texts(headers@) =~= seq![
                    ("Content-Type"@, mime@),
                    ("Access-Control-Allow-Origin"@, "*"@),
                ]);
            }
            AssetResponse { status: 200, headers, body: bytes }
        },
        None => {
            let mut headers: Vec<(String, String)> = Vec::new();
            headers.push(("Content-Type".to_owned(), "text/plain; charset=utf-8".to_owned()));
            proof {
                assert(header_texts(headers@) =~= seq![
                    ("Content-Type"@, "text/plain; charset=utf-8"@),
                ]);
            }
            let text: String = concat2("not found: ", rel);
            AssetResponse { status: 404, headers, body: text.as_str().as_bytes_vec() }
        },
    }
}

/// Serve the file that a URL path asks for with the right `Content-Type`. `read`
/// reads a file below the asset root. Rejects any request that tries to escape
/// the root via `..` segments: then nothing is read.
pub fn serve_asset<R: Fn(String) -> Option<Vec<u8>>>(path: &str, read: R) -> (r: AssetResponse)
    requires
        forall|rel: String| #[trigger] call_requires(read, (rel,)),
    ensures
        match asset_path_spec(path@) {
            None => r.is(403, Seq::empty(), encode_utf8("forbidden"@)),
            Some(name) => exists|rel: String, contents: Option<Vec<u8>>| #[trigger]
                call_ensures(read, (rel,), contents) && rel@ == name && serves(name, contents, r),
        },
{
    match asset_path(path) {
        None => forbidden(),
        Some(rel) => {
            let copy: String = rel.clone();
            assert(call_requires(read, (copy,)));
            let contents: Option<Vec<u8>> = read(copy);
            let r: AssetResponse = asset_response(rel.as_str(), contents);
            assert(call_ensures(read, (copy,), contents));
            r
        },
    }
}

// ----------------------------------------------------------------------- laws

/// How far below its start a walk along the segments ends.
pub open spec fn depth(segments: Seq<Seq<char>>) -> int
    decreases segments.len(),
{
    if segments.len() == 0 {
        0
    } else {
        let before = depth(segments.drop_last());
        if segments.last() == ".."@ {
            before - 1
        } else if segments.last() == "."@ || segments.last().len() == 0 {
            before
        } else {
            before + 1
        }
    }
}

/// An asset that is served is named by a path that does not start with `/`, and a
/// walk along its segments, as `/` separates them, never leaves the asset root.
pub proof fn law_assets_stay_below_root(path: Seq<char>, steps: int)
    requires
        asset_path_spec(path) is Some,
        0 <= steps <= split(asset_path_spec(path)->0, '/').len(),
    ensures
        asset_path_spec(path)->0.len() > 0,
        asset_path_spec(path)->0[0] != '/',
        depth(split(asset_path_spec(path)->0, '/').take(steps)) >= 0,
{
    reveal_strlit("index.html");
    lemma_no_leading_slash(path);
    lemma_depth(split(asset_path_spec(path)->0, '/').take(steps));
}

proof fn lemma_no_leading_slash(s: Seq<char>)
    ensures
        without_leading_slashes(s).len() > 0 ==> without_leading_slashes(s)[0] != '/',
    decreases s.len(),
{
    if s.len() > 0 && s[0] == '/' {
        lemma_no_leading_slash(s.drop_first());
    }
}

proof fn lemma_depth(segments: Seq<Seq<char>>)
    requires
        forall|i: int| 0 <= i < segments.len() ==> segments[i] != ".."@,
    ensures
        depth(segments) >= 0,
    decreases segments.len(),
{
    if segments.len() > 0 {
        lemma_depth(segments.drop_last());
    }
}

/// A URL path names the same asset however many slashes it starts with.
pub proof fn law_leading_slashes_do_not_matter(path: Seq<char>)
    ensures
        asset_path_spec(seq!['/'] + path) == asset_path_spec(path),
{
    assert((seq!['/'] + path).drop_first() =~= path);
}

/// The case of an extension does not matter for the MIME type.
pub proof fn law_mime_ignores_case(one: Seq<char>, other: Seq<char>)
    requires
        ascii_lower_text(one) == ascii_lower_text(other),
    ensures
        mime_of(Some(one)) == mime_of(Some(other)),
{
}

/// Whether two extensions are the same, up to case.
pub open spec fn same_extension(one: Option<Seq<char>>, other: Option<Seq<char>>) -> bool {
    match (one, other) {
        (Some(a), Some(b)) => ascii_lower_text(a) == ascii_lower_text(b),
        (None, None) => true,
        _ => false,
    }
}

/// Paths whose extensions are the same up to case have the same MIME type:
/// directories and the rest of the name do not matter.
pub proof fn law_extension_decides(
    one: Seq<char>,
    other: Seq<char>,
    mime: Seq<char>,
    other_mime: Seq<char>,
)
    requires
        mime_fits(one, mime),
        mime_fits(other, other_mime),
        forall|p: &str, a: Option<String>, q: &str, b: Option<String>|
            p@ == one && #[trigger] extends(p, a) && q@ == other && #[trigger] extends(q, b)
                ==> same_extension(opt_text(a), opt_text(b)),
    ensures
        mime == other_mime,
{
}

/// Of plain paths, the last segments alone decide whether the extensions are the
/// same.
pub proof fn law_last_segment_decides(
    one: Seq<char>,
    other: Seq<char>,
    mime: Seq<char>,
    other_mime: Seq<char>,
)
    requires
        plain(one),
        plain(other),
        mime_fits(one, mime),
        mime_fits(other, other_mime),
        same_extension(extension_of(file_part(one)), extension_of(file_part(other))),
    ensures
        mime == other_mime,
{
}

/// A run of slashes.
pub open spec fn slashes(n: nat) -> Seq<char> {
    Seq::new(n, |i: int| '/')
}

/// The asset that a URL path asks for is named by what follows the slashes that the
/// path starts with, letter for letter, unless one of its segments is `..`. Where
/// nothing follows, it is the index page.
pub proof fn law_asset_is_named_by_the_path(path: &str, r: Option<String>, n: nat, rel: Seq<char>)
    requires
        call_ensures(asset_path, (path,), r),
        path@ == slashes(n) + rel,
        rel.len() > 0 ==> rel[0] != '/',
    ensures
        rel.len() == 0 ==> (r matches Some(name) && name@ == "index.html"@),
        rel.len() > 0 ==> (r is None <==> exists|i: int|
            0 <= i < split(rel, '/').len() && #[trigger] split(rel, '/')[i] == ".."@),
        rel.len() > 0 ==> (r matches Some(name) ==> name@ == rel),
{
    lemma_slashes(n, rel);
    if rel.len() == 0 {
        assert(!climbs("index.html"@)) by {
            reveal_strlit("index.html");
            reveal_strlit("..");
            assert(!"index.html"@.contains('/'));
            lemma_split_whole("index.html"@, '/');
            assert("index.html"@.len() == 10 && ".."@.len() == 2);
        }
    }
}

/// Slashes in front are taken away, and nothing else.
proof fn lemma_slashes(n: nat, rel: Seq<char>)
    requires
        rel.len() > 0 ==> rel[0] != '/',
    ensures
        without_leading_slashes(slashes(n) + rel) == rel,
    decreases n,
{
    let path = slashes(n) + rel;
    if n == 0 {
        assert(path =~= rel);
        if rel.len() == 0 {
            assert(without_leading_slashes(path) == path);
        }
    } else {
        assert(path[0] == '/');
        assert(path.drop_first() =~= slashes((n - 1) as nat) + rel);
        lemma_slashes((n - 1) as nat, rel);
    }
}

/// A path with a `..` segment anywhere is refused: at its start, at its end, or
/// between other segments.
pub proof fn law_climbing_is_refused(
    path: &str,
    r: Option<String>,
    before: Seq<char>,
    after: Seq<char>,
)
    requires
        call_ensures(asset_path, (path,), r),
        before.len() == 0 || before.last() == '/',
        after.len() == 0 || after[0] == '/',
        path@ == before + ".."@ + after,
    ensures
        r is None,
{
    reveal_strlit("..");
    lemma_segment(before, after);
    lemma_strip_keeps_segment(before, after);
}

/// A segment that stands between slashes is one of the pieces.
proof fn lemma_segment(before: Seq<char>, after: Seq<char>)
    requires
        before.len() == 0 || before.last() == '/',
        after.len() == 0 || after[0] == '/',
    ensures
        climbs(before + ".."@ + after),
    decreases before.len(),
{
    reveal_strlit("..");
    let whole = before + ".."@ + after;
    if before.len() == 0 {
        assert(whole =~= ".."@ + after);
        assert(!".."@.contains('/'));
        if after.len() == 0 {
            assert(whole =~= ".."@);
            lemma_split_whole(".."@, '/');
            assert(split(whole, '/')[0] == ".."@);
        } else {
            assert(whole =~= ".."@ + seq!['/'] + after.drop_first());
            lemma_split_first(".."@, after.drop_first(), '/');
            assert(split(whole, '/')[0] == ".."@);
        }
    } else {
        let rest = before.drop_first();
        let tail = rest + ".."@ + after;
        assert(whole.drop_first() =~= tail);
        if rest.len() > 0 {
            assert(rest.last() == before.last());
        }
        lemma_segment(rest, after);
        let i = choose|i: int|
            0 <= i < split(tail, '/').len() && #[trigger] split(tail, '/')[i] == ".."@;
        if whole[0] == '/' {
            assert(split(whole, '/')[i + 1] == ".."@);
        } else if i > 0 {
            assert(split(whole, '/')[i] == ".."@);
        } else {
            // The first piece goes on to the left, so another one has to be found.
            lemma_segment_behind(rest, after);
            let k = choose|k: int|
                1 <= k < split(tail, '/').len() && #[trigger] split(tail, '/')[k] == ".."@;
            assert(split(whole, '/')[k] == ".."@);
        }
    }
}

/// Behind text that ends in a slash, the segment is not the first piece.
proof fn lemma_segment_behind(before: Seq<char>, after: Seq<char>)
    requires
        before.len() > 0,
        before.last() == '/',
        after.len() == 0 || after[0] == '/',
    ensures
        exists|k: int|
            1 <= k < split(before + ".."@ + after, '/').len() && #[trigger] split(
                before + ".."@ + after,
                '/',
            )[k] == ".."@,
    decreases before.len(),
{
    reveal_strlit("..");
    let whole = before + ".."@ + after;
    let rest = before.drop_first();
    let tail = rest + ".."@ + after;
    assert(whole.drop_first() =~= tail);
    if whole[0] == '/' {
        if rest.len() > 0 {
            assert(rest.last() == before.last());
        }
        lemma_segment(rest, after);
        let i = choose|i: int|
            0 <= i < split(tail, '/').len() && #[trigger] split(tail, '/')[i] == ".."@;
        assert(split(whole, '/')[i + 1] == ".."@);
    } else {
        assert(rest.len() > 0) by {
            if rest.len() == 0 {
                assert(before.last() == before[0]);
            }
        }
        assert(rest.last() == before.last());
        lemma_segment_behind(rest, after);
        let k = choose|k: int|
            1 <= k < split(tail, '/').len() && #[trigger] split(tail, '/')[k] == ".."@;
        assert(split(whole, '/')[k] == ".."@);
    }
}

/// Taking slashes away in front leaves the segment where it is.
proof fn lemma_strip_keeps_segment(before: Seq<char>, after: Seq<char>)
    requires
        before.len() == 0 || before.last() == '/',
        after.len() == 0 || after[0] == '/',
    ensures
        climbs(without_leading_slashes(before + ".."@ + after)),
        without_leading_slashes(before + ".."@ + after).len() > 0,
    decreases before.len(),
{
    reveal_strlit("..");
    let whole = before + ".."@ + after;
    if before.len() > 0 && before[0] == '/' {
        assert(whole.drop_first() =~= before.drop_first() + ".."@ + after);
        if before.len() > 1 {
            assert(before.drop_first().last() == before.last());
        }
        lemma_strip_keeps_segment(before.drop_first(), after);
    } else {
        assert(whole[0] != '/');
        lemma_segment(before, after);
    }
}

/// An extension that is none of the known ones, in whatever case, is that of plain
/// bytes, and so is a missing one.
pub proof fn law_unknown_files_are_bytes(ext: &Option<String>, r: &'static str)
    requires
        call_ensures(mime_for_extension, (ext,), r),
        ext matches Some(e) ==> ({
            let x = ascii_lower_text(e@);
            &&& x != "html"@ && x != "htm"@ && x != "js"@ && x != "mjs"@ && x != "css"@
            &&& x != "json"@ && x != "map"@ && x != "png"@ && x != "jpg"@ && x != "jpeg"@
            &&& x != "gif"@ && x != "svg"@ && x != "webp"@ && x != "ico"@ && x != "wasm"@
            &&& x != "woff"@ && x != "woff2"@ && x != "ttf"@ && x != "otf"@ && x != "txt"@
            &&& x != "md"@
        }),
    ensures
        r@ == "application/octet-stream"@,
{
}

/// The MIME type of a file is that of what follows the last dot of its name, whatever
/// directories are in front and however many slashes follow.
pub proof fn law_mime_type_of_a_file(
    path: &str,
    mime: &'static str,
    dir: Seq<char>,
    stem: Seq<char>,
    ext: Seq<char>,
    n: nat,
)
    requires
        call_ensures(mime_for, (path,), mime),
        plain(path@),
        dir.len() == 0 || dir.last() == '/',
        stem.len() > 0,
        !stem.contains('/'),
        !ext.contains('/'),
        !ext.contains('.'),
        path@ == dir + stem + "."@ + ext + slashes(n),
    ensures
        mime@ == mime_of(Some(ext)),
{
    reveal_strlit(".");
    let name = stem + "."@ + ext;
    let front = stem + "."@;
    assert(name =~= front + ext);
    assert(name.len() > 0);
    assert forall|i: int| 0 <= i < name.len() implies name[i] != '/' by {
        if i < stem.len() {
            assert(name[i] == stem[i]);
            assert(stem.contains(stem[i]));
        } else if i > stem.len() {
            assert(name[i] == ext[i - stem.len() - 1]);
            assert(ext.contains(ext[i - stem.len() - 1]));
        } else {
            assert(name[i] == '.');
        }
    }
    assert(path@ =~= dir + name + slashes(n));
    lemma_file_part(dir, name, n);
    assert forall|i: int| 0 <= i < ext.len() implies ext[i] != '.' by {
        assert(ext.contains(ext[i]));
    }
    assert(front.last() == '.');
    lemma_behind_last(front, ext, '.');
    assert(name.skip(front.len() as int) =~= ext);
    assert(extension_of(name) == Some(ext));
    assert(mime@ == mime_of(extension_of(file_part(path@))));
}

/// The file part of a path is the name behind its directories.
proof fn lemma_file_part(dir: Seq<char>, name: Seq<char>, n: nat)
    requires
        dir.len() == 0 || dir.last() == '/',
        name.len() > 0,
        forall|i: int| 0 <= i < name.len() ==> name[i] != '/',
    ensures
        file_part(dir + name + slashes(n)) == name,
{
    let whole = dir + name;
    assert(whole.last() == name[name.len() - 1]);
    lemma_trailing_slashes(whole, n);
    lemma_behind_last(dir, name, '/');
    assert(whole.skip(dir.len() as int) =~= name);
}

proof fn lemma_trailing_slashes(whole: Seq<char>, n: nat)
    requires
        whole.len() > 0,
        whole.last() != '/',
    ensures
        without_trailing_slashes(whole + slashes(n)) == whole,
    decreases n,
{
    let path = whole + slashes(n);
    if n == 0 {
        assert(path =~= whole);
    } else {
        assert(path.last() == '/');
        assert(path.drop_last() =~= whole + slashes((n - 1) as nat));
        lemma_trailing_slashes(whole, (n - 1) as nat);
    }
}

proof fn lemma_behind_last(front: Seq<char>, back: Seq<char>, c: char)
    requires
        front.len() == 0 || front.last() == c,
        forall|i: int| 0 <= i < back.len() ==> back[i] != c,
    ensures
        behind_last(front + back, c) == front.len(),
    decreases back.len(),
{
    let s = front + back;
    if back.len() == 0 {
        assert(s =~= front);
    } else {
        assert(s.last() == back.last());
        assert(s.drop_last() =~= front + back.drop_last());
        assert(back[back.len() - 1] != c);
        lemma_behind_last(front, back.drop_last(), c);
    }
}

/// A name without a dot, or with its only dot at the start, is that of plain bytes.
pub proof fn law_files_without_extension_are_bytes(
    path: &str,
    mime: &'static str,
    dir: Seq<char>,
    name: Seq<char>,
)
    requires
        call_ensures(mime_for, (path,), mime),
        plain(path@),
        dir.len() == 0 || dir.last() == '/',
        name.len() > 0,
        !name.contains('/'),
        forall|i: int| 1 <= i < name.len() ==> #[trigger] name[i] != '.',
        path@ == dir + name,
    ensures
        mime@ == "application/octet-stream"@,
{
    assert forall|i: int| 0 <= i < name.len() implies name[i] != '/' by {
        assert(name.contains(name[i]));
    }
    assert(dir + name + slashes(0) =~= dir + name);
    lemma_file_part(dir, name, 0);
    assert(file_part(path@) == name);
    if name[0] == '.' {
        assert(name =~= name.take(1) + name.skip(1));
        lemma_behind_last(name.take(1), name.skip(1), '.');
    } else {
        assert(Seq::<char>::empty() + name =~= name);
        lemma_behind_last(Seq::empty(), name, '.');
    }
}

/// An asset that can be read is served whole and unchanged, with the MIME type of its
/// name and for every origin.
pub proof fn law_contents_are_served(
    rel: &str,
    bytes: Vec<u8>,
    mime: &'static str,
    r: AssetResponse,
)
    requires
        call_ensures(asset_response, (rel, Some(bytes)), r),
        call_ensures(mime_for, (rel,), mime),
    ensures
        r.status == 200,
        r.body@ == bytes@,
        r.headers@.len() == 2,
        r.headers@[0].0@ == "Content-Type"@,
        mime_fits(rel@, r.headers@[0].1@),
        plain(rel@) ==> r.headers@[0].1@ == mime@,
        r.headers@[1].0@ == "Access-Control-Allow-Origin"@,
        r.headers@[1].1@ == "*"@,
{
    let told = choose|m: Seq<char>| #[trigger]
        mime_fits(rel@, m) && r.is(
            200,
            seq![("Content-Type"@, m), ("Access-Control-Allow-Origin"@, "*"@)],
            bytes@,
        );
    let texts = header_texts(r.headers@);
    assert(texts.len() == r.headers@.len());
    assert(texts[0] == (r.headers@[0].0@, r.headers@[0].1@));
    assert(texts[1] == (r.headers@[1].0@, r.headers@[1].1@));
}

/// The extension that counts is the one that the outside call tells of the whole path.
proof fn law_outside_call_tells_the_extension(path: &str, ext: Option<String>, mime: Seq<char>)
    ensures
        extends(path, ext) <==> call_ensures(path_extension, (path,), ext),
        mime_fits(path@, mime) ==> exists|p: &str, e: Option<String>| #[trigger]
            extends(p, e) && p@ == path@ && match e {
                Some(known) => mime == mime_of(Some(known@)),
                None => mime == "application/octet-stream"@,
            },
{
}

/// An asset that cannot be read is not found, by name.
pub proof fn law_missing_assets_are_not_found(rel: &str, r: AssetResponse)
    requires
        call_ensures(asset_response, (rel, None), r),
    ensures
        r.status == 404,
        r.body@ == encode_utf8("not found: "@ + rel@),
        r.headers@.len() == 1,
        r.headers@[0].0@ == "Content-Type"@,
        r.headers@[0].1@ == "text/plain; charset=utf-8"@,
{
    let texts = header_texts(r.headers@);
    assert(texts.len() == r.headers@.len());
    assert(texts[0] == (r.headers@[0].0@, r.headers@[0].1@));
}

/// What is served for a URL path is what is read of the asset that it names: 403 where
/// it names none, 200 with the contents, or 404 where they cannot be read.
pub proof fn law_requests_are_served_from_the_root<R: Fn(String) -> Option<Vec<u8>>>(
    path: &str,
    read: R,
    name: Option<String>,
    files: spec_fn(Seq<char>) -> Option<Seq<u8>>,
    r: AssetResponse,
)
    requires
        forall|rel: String, contents: Option<Vec<u8>>| #[trigger]
            call_ensures(read, (rel,), contents) ==> match contents {
                Some(bytes) => files(rel@) == Some(bytes@),
                None => files(rel@) is None,
            },
        call_ensures(asset_path, (path,), name),
        call_ensures(serve_asset::<R>, (path, read), r),
    ensures
        match name {
            None => r.status == 403 && r.headers@.len() == 0 && r.body@ == encode_utf8("forbidden"@),
            Some(rel) => match files(rel@) {
                Some(bytes) => {
                    &&& r.status == 200 && r.body@ == bytes
                    &&& r.headers@.len() == 2
                    &&& r.headers@[0].0@ == "Content-Type"@
                    &&& mime_fits(rel@, r.headers@[0].1@)
                    &&& r.headers@[1].0@ == "Access-Control-Allow-Origin"@
                    &&& r.headers@[1].1@ == "*"@
                },
                None => {
                    &&& r.status == 404 && r.body@ == encode_utf8("not found: "@ + rel@)
                    &&& r.headers@.len() == 1
                    &&& r.headers@[0].0@ == "Content-Type"@
                    &&& r.headers@[0].1@ == "text/plain; charset=utf-8"@
                },
            },
        },
{
    let texts = header_texts(r.headers@);
    assert(texts.len() == r.headers@.len());
    assert(texts.len() > 0 ==> texts[0] == (r.headers@[0].0@, r.headers@[0].1@));
    assert(texts.len() > 1 ==> texts[1] == (r.headers@[1].0@, r.headers@[1].1@));
}

} // verus!
