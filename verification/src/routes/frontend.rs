//! The files of the web interface.

use crate::paths::{extension_of, path_extension};
use crate::text::{chars_of, is_text, skip_char, slice_of, string_of};
use vstd::prelude::*;

verus! {

/// A file of the web interface with its media type.
#[derive(Debug, Clone)]
pub struct BundledContent {
    pub data: Vec<u8>,
    pub mime_type: String,
}

/// What a request for a path asks for.
#[derive(Debug, PartialEq, Eq)]
pub enum AssetRequest {
    /// The page itself.
    Index,
    /// The icon of the program.
    Favicon,
    /// The file with this name.
    File(String),
}

/// A path without the slashes at its front.
pub open spec fn without_leading_slashes(path: Seq<char>) -> Seq<char> {
    path.subrange(skip_char(path, '/', 0), path.len() as int)
}

/// What a request for `path` asks for: the page for the empty path, the
/// icon for `favicon.ico`, and the file of that name otherwise. Slashes at
/// the front do not count.
pub fn asset_for(path: &str) -> (r: AssetRequest)
    ensures
        r matches AssetRequest::Index ==> without_leading_slashes(path@).len() == 0,
        r matches AssetRequest::Favicon ==> without_leading_slashes(path@) == "favicon.ico"@,
        r matches AssetRequest::File(name) ==> name@ == without_leading_slashes(path@) && name@.len()
            > 0 && name@ != "favicon.ico"@,
{
    let chars = chars_of(path);
    let mut from: usize = 0;
    while from < chars.len() && chars[from] == '/'
        invariant
            from <= chars.len(),
            skip_char(chars@, '/', from as int) == skip_char(chars@, '/', 0),
        decreases chars.len() - from,
    {
        from = from + 1;
    }
    let name = slice_of(&chars, from, chars.len());
    if name.len() == 0 {
        AssetRequest::Index
    } else if is_text(&name, "favicon.ico") {
        AssetRequest::Favicon
    } else {
        AssetRequest::File(string_of(&name))
    }
}

/// The media type of a file with the extension `extension`.
pub open spec fn mime_type_of(extension: Option<Seq<char>>) -> Seq<char> {
    if extension == Some("html"@) {
        "text/html"@
    } else if extension == Some("js"@) {
        "application/javascript"@
    } else if extension == Some("css"@) {
        "text/css"@
    } else if extension == Some("json"@) {
        "application/json"@
    } else if extension == Some("png"@) {
        "image/png"@
    } else if extension == Some("jpg"@) || extension == Some("jpeg"@) {
        "image/jpeg"@
    } else if extension == Some("gif"@) {
        "image/gif"@
    } else if extension == Some("svg"@) {
        "image/svg+xml"@
    } else if extension == Some("ico"@) {
        "image/x-icon"@
    } else if extension == Some("woff"@) {
        "font/woff"@
    } else if extension == Some("woff2"@) {
        "font/woff2"@
    } else if extension == Some("ttf"@) {
        "font/ttf"@
    } else if extension == Some("otf"@) {
        "font/otf"@
    } else if extension == Some("eot"@) {
        "application/vnd.ms-fontobject"@
    } else if extension == Some("txt"@) {
        "text/plain"@
    } else if extension == Some("xml"@) {
        "application/xml"@
    } else if extension == Some("webp"@) {
        "image/webp"@
    } else if extension == Some("avif"@) {
        "image/avif"@
    } else if extension == Some("wasm"@) {
        "application/wasm"@
    } else {
        "application/octet-stream"@
    }
}

/// The media type of a file with the extension `extension`.
pub fn mime_type_for(extension: Option<&str>) -> (r: String)
    ensures
        r@ == mime_type_of(
            match extension {
                Some(e) => Some(e@),
                None => None,
            },
        ),
{
    let e = match extension {
        Some(e) => chars_of(e),
        None => {
            return "application/octet-stream".to_owned();
        },
    };
    if is_text(&e, "html") {
        "text/html".to_owned()
    } else if is_text(&e, "js") {
        "application/javascript".to_owned()
    } else if is_text(&e, "css") {
        "text/css".to_owned()
    } else if is_text(&e, "json") {
        "application/json".to_owned()
    } else if is_text(&e, "png") {
        "image/png".to_owned()
    } else if is_text(&e, "jpg") || is_text(&e, "jpeg") {
        "image/jpeg".to_owned()
    } else if is_text(&e, "gif") {
        "image/gif".to_owned()
    } else if is_text(&e, "svg") {
        "image/svg+xml".to_owned()
    } else if is_text(&e, "ico") {
        "image/x-icon".to_owned()
    } else if is_text(&e, "woff") {
        "font/woff".to_owned()
    } else if is_text(&e, "woff2") {
        "font/woff2".to_owned()
    } else if is_text(&e, "ttf") {
        "font/ttf".to_owned()
    } else if is_text(&e, "otf") {
        "font/otf".to_owned()
    } else if is_text(&e, "eot") {
        "application/vnd.ms-fontobject".to_owned()
    } else if is_text(&e, "txt") {
        "text/plain".to_owned()
    } else if is_text(&e, "xml") {
        "application/xml".to_owned()
    } else if is_text(&e, "webp") {
        "image/webp".to_owned()
    } else if is_text(&e, "avif") {
        "image/avif".to_owned()
    } else if is_text(&e, "wasm") {
        "application/wasm".to_owned()
    } else {
        "application/octet-stream".to_owned()
    }
}

/// The media type of the file at `path`, by the extension of its name.
pub fn get_mime_type(path: &str) -> (r: String)
    ensures
        r@ == mime_type_of(path_extension(path@)),
{
    match extension_of(path) {
        Some(e) => mime_type_for(Some(e.as_str())),
        None => mime_type_for(None),
    }
}

/// A file of the web interface, with the media type of its name.
pub fn get_asset(path: &str, data: Vec<u8>) -> (r: BundledContent)
    ensures
        r.data == data,
        r.mime_type@ == mime_type_of(path_extension(path@)),
{
    BundledContent { data, mime_type: get_mime_type(path) }
}

/// The icon of the program as a file of the web interface. `icon` holds
/// the bytes of the icon, a PNG image.
pub fn get_favicon(icon: Vec<u8>) -> (r: Option<BundledContent>)
    ensures
        r matches Some(content) && content.data == icon && content.mime_type@ == "image/png"@,
{
    Some(BundledContent { data: icon, mime_type: "image/png".to_owned() })
}

} // verus!
