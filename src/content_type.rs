use vstd::prelude::*;

use crate::text::{str_eq, substring};

verus! {

/// The content types that a served file may carry.
#[derive(Clone, Copy, Debug, PartialEq, Eq, Structural)]
pub enum WebContentType {
    Html,
    Css,
    JavaScript,
    Json,
    Png,
    Jpeg,
    Svg,
    Icon,
    Text,
    Wasm,
}

pub open spec fn mime_of(t: WebContentType) -> Seq<char> {
    match t {
        WebContentType::Html => "text/html"@,
        WebContentType::Css => "text/css"@,
        WebContentType::JavaScript => "text/javascript"@,
        WebContentType::Json => "application/json"@,
        WebContentType::Png => "image/png"@,
        WebContentType::Jpeg => "image/jpeg"@,
        WebContentType::Svg => "image/svg+xml"@,
        WebContentType::Icon => "image/x-icon"@,
        WebContentType::Text => "text/plain"@,
        WebContentType::Wasm => "application/wasm"@,
    }
}

impl WebContentType {
    /// The value of the `Content-Type` header.
    pub fn as_str(&self) -> (r: &'static str)
        ensures
            r@ == mime_of(*self),
    {
        match self {
            WebContentType::Html => "text/html",
            WebContentType::Css => "text/css",
            WebContentType::JavaScript => "text/javascript",
            WebContentType::Json => "application/json",
            WebContentType::Png => "image/png",
            WebContentType::Jpeg => "image/jpeg",
            WebContentType::Svg => "image/svg+xml",
            WebContentType::Icon => "image/x-icon",
            WebContentType::Text => "text/plain",
            WebContentType::Wasm => "application/wasm",
        }
    }
}

/// `i` is the position of the dot that starts the final extension of `path`:
/// no dot and no slash follow it.
pub open spec fn is_extension_dot(path: Seq<char>, i: int) -> bool {
    &&& 0 <= i < path.len()
    &&& path[i] == '.'
    &&& forall|j: int| i < j < path.len() ==> path[j] != '.' && path[j] != '/'
}

pub open spec fn has_extension(path: Seq<char>) -> bool {
    exists|i: int| is_extension_dot(path, i)
}

/// The final extension of `path`, without its dot.
pub open spec fn extension_of(path: Seq<char>) -> Seq<char> {
    let i = choose|i: int| is_extension_dot(path, i);
    path.subrange(i + 1, path.len() as int)
}

/// The content type named by an extension.
pub open spec fn content_type_of_extension(e: Seq<char>) -> Option<WebContentType> {
    if e == "html"@ || e == "htm"@ {
        Some(WebContentType::Html)
    } else if e == "css"@ {
        Some(WebContentType::Css)
    } else if e == "js"@ {
        Some(WebContentType::JavaScript)
    } else if e == "json"@ {
        Some(WebContentType::Json)
    } else if e == "png"@ {
        Some(WebContentType::Png)
    } else if e == "jpg"@ || e == "jpeg"@ {
        Some(WebContentType::Jpeg)
    } else if e == "svg"@ {
        Some(WebContentType::Svg)
    } else if e == "ico"@ {
        Some(WebContentType::Icon)
    } else if e == "txt"@ {
        Some(WebContentType::Text)
    } else if e == "wasm"@ {
        Some(WebContentType::Wasm)
    } else {
        None
    }
}

/// The content type of a file, by its final extension.
pub open spec fn content_type_of_path(path: Seq<char>) -> Option<WebContentType> {
    if has_extension(path) {
        content_type_of_extension(extension_of(path))
    } else {
        None
    }
}

fn content_type_by_extension(e: &str) -> (r: Option<WebContentType>)
    ensures
        r == content_type_of_extension(e@),
{
    if str_eq(e, "html") || str_eq(e, "htm") {
        Some(WebContentType::Html)
    } else if str_eq(e, "css") {
        Some(WebContentType::Css)
    } else if str_eq(e, "js") {
        Some(WebContentType::JavaScript)
    } else if str_eq(e, "json") {
        Some(WebContentType::Json)
    } else if str_eq(e, "png") {
        Some(WebContentType::Png)
    } else if str_eq(e, "jpg") || str_eq(e, "jpeg") {
        Some(WebContentType::Jpeg)
    } else if str_eq(e, "svg") {
        Some(WebContentType::Svg)
    } else if str_eq(e, "ico") {
        Some(WebContentType::Icon)
    } else if str_eq(e, "txt") {
        Some(WebContentType::Text)
    } else if str_eq(e, "wasm") {
        Some(WebContentType::Wasm)
    } else {
        None
    }
}

/// Infers the content type of a file from its final extension.
pub fn detect_by_extension(path: &str) -> (r: Option<WebContentType>)
    ensures
        r == content_type_of_path(path@),
{
    let n = path.unicode_len();
    let mut i: usize = n;
    while i > 0
        invariant
            n == path@.len(),
            i <= n,
            forall|j: int| i <= j < n ==> path@[j] != '.' && path@[j] != '/',
        ensures
            i <= n,
            forall|j: int| i <= j < n ==> path@[j] != '.' && path@[j] != '/',
            i == 0 || path@[i - 1] == '/',
        decreases i,
    {
        let c = path.get_char(i - 1);
        if c == '/' {
            break;
        }
        if c == '.' {
            let dot = i - 1;
            assert(is_extension_dot(path@, dot as int));
            proof {
                let k = choose|k: int| is_extension_dot(path@, k);
                if k < dot {
                    assert(path@[dot as int] == '.');
                } else if k > dot {
                    assert(path@[k] == '.');
                }
            }
            let e = substring(path, dot + 1, n);
            return content_type_by_extension(e.as_str());
        }
        i = i - 1;
    }
    assert(!has_extension(path@)) by {
        if exists|k: int| is_extension_dot(path@, k) {
            let k = choose|k: int| is_extension_dot(path@, k);
            if k >= i {
                assert(path@[k] != '.');
            } else {
                assert(path@[i - 1] == '/' || i == 0);
            }
        }
    }
    None
}

} // verus!
