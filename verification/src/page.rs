//! Page-level decisions of the HTML handlers: normalising the requested
//! route for the title table, choosing title and meta description, deriving
//! asset paths from the build manifest's entry, and the greeting body of the
//! name API route. The manifest itself is parsed by an external collaborator;
//! this module works on its already-extracted plain values.

use vstd::prelude::*;
use vstd::string::*;

verus! {

/// What the build manifest records for the application's entry: the hashed
/// output file name, when present, and the stylesheet file names emitted
/// beside it.
pub struct ManifestEntry {
    pub file: Option<String>,
    pub css: Vec<String>,
}

/// The title used when the title table has none for the requested path.
pub const DEFAULT_TITLE: &'static str = "React Manifest Askama";

/// The script path used when the manifest entry names no output file.
pub const DEFAULT_SCRIPT_PATH: &'static str = "/assets/main.js";

/// The error body returned when the build manifest lacks the application's
/// entry.
pub const MISSING_ENTRY_MESSAGE: &'static str = "Manifest missing 'src/main.jsx' entry. Check vite.config.js input path.";

/// Normalises the captured route to the path looked up in the title table:
/// an empty capture is the root path, anything else gets the leading slash
/// back.
pub fn lookup_path(route: &str) -> (r: String)
    ensures
        route@.len() == 0 ==> r@ == "/"@,
        route@.len() > 0 ==> r@ == "/"@ + route@,
{
    if route.is_empty() {
        String::from_str("/")
    } else {
        String::from_str("/").concat(route)
    }
}

/// The page's title: the title table's entry for the path when one was
/// found, else the fixed default.
pub fn page_title(found: Option<&str>) -> (r: String)
    ensures
        found matches Some(t) ==> r@ == t@,
        found is None ==> r@ == DEFAULT_TITLE@,
{
    match found {
        Some(t) => t.to_owned(),
        None => String::from_str(DEFAULT_TITLE),
    }
}

/// The page's meta description, decided by the normalised path: fixed texts
/// for the root and the about page, a generic one for every other path.
pub fn meta_description(path: &str) -> (r: &'static str)
    ensures
        path@ == "/"@ ==> r@ == "Welcome to the home page"@,
        path@ == "/about"@ ==> r@ == "Learn more about this project"@,
        path@ != "/"@ && path@ != "/about"@ ==> r@ == "A Vite + React + Axum + Askama app"@,
{
    proof {
        reveal_strlit("/");
        reveal_strlit("/about");
        assert("/"@.len() == 1 && "/about"@.len() == 6);
    }
    let p = path.to_owned();
    if p == String::from_str("/") {
        "Welcome to the home page"
    } else if p == String::from_str("/about") {
        "Learn more about this project"
    } else {
        "A Vite + React + Axum + Askama app"
    }
}

/// The page's script path: the manifest entry's output file behind a leading
/// slash, else the fixed default path.
pub fn script_path(entry: &ManifestEntry) -> (r: String)
    ensures
        entry.file matches Some(f) ==> r@ == "/"@ + f@,
        entry.file is None ==> r@ == DEFAULT_SCRIPT_PATH@,
{
    match &entry.file {
        Some(f) => String::from_str("/").concat(f.as_str()),
        None => String::from_str(DEFAULT_SCRIPT_PATH),
    }
}

/// The page's stylesheet path: the first stylesheet the manifest entry
/// names, behind a leading slash; none when it names none.
pub fn stylesheet_path(entry: &ManifestEntry) -> (r: Option<String>)
    ensures
        entry.css@.len() > 0 ==> (r matches Some(p) && p@ == "/"@ + entry.css@[0]@),
        entry.css@.len() == 0 ==> r is None,
{
    if entry.css.len() > 0 {
        Some(String::from_str("/").concat(entry.css[0].as_str()))
    } else {
        None
    }
}

/// The greeting body of the name API route.
pub fn greeting(name: &str) -> (r: String)
    ensures
        r@ == "Hello, "@ + name@ + "!"@,
{
    let mut out = String::from_str("Hello, ");
    out.append(name);
    out.append("!");
    proof {
        assert(out@ =~= "Hello, "@ + name@ + "!"@);
    }
    out
}

} // verus!
