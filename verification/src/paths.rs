//! Destination paths and source URLs for downloaded files.
//!
//! Paths are plain strings with `/` separators, rooted at the per-company
//! download directory. Setting the `.pdf` extension follows the usual path
//! convention: the extension of a file name is what follows its last dot,
//! except that a dot opening the last path component (a hidden-file name)
//! starts no extension.

use vstd::prelude::*;
use vstd::string::*;

verus! {

/// `p` is the position of the dot that starts the extension of `name`: the
/// last dot, inside the last path component, not at that component's start.
pub open spec fn is_ext_dot(name: Seq<char>, p: int) -> bool {
    &&& 1 <= p < name.len()
    &&& name[p] == '.'
    &&& name[p - 1] != '/'
    &&& forall|k: int| p < k < name.len() ==> name[k] != '.' && name[k] != '/'
}

pub proof fn lemma_ext_dot_unique(name: Seq<char>, p1: int, p2: int)
    requires
        is_ext_dot(name, p1),
        is_ext_dot(name, p2),
    ensures
        p1 == p2,
{
    if p1 < p2 {
        assert(name[p2] == '.');
    }
    if p2 < p1 {
        assert(name[p1] == '.');
    }
}

/// The name with its extension replaced by (or, when it has none, extended
/// with) `.pdf`.
pub open spec fn spec_pdf_name(name: Seq<char>) -> Seq<char> {
    if exists|p: int| is_ext_dot(name, p) {
        name.subrange(0, choose|p: int| is_ext_dot(name, p)) + ".pdf"@
    } else {
        name + ".pdf"@
    }
}

/// Replaces or appends the extension, yielding `<stem>.pdf`.
pub fn pdf_file_name(name: &str) -> (r: String)
    ensures
        r@ == spec_pdf_name(name@),
{
    let n = name.unicode_len();
    let mut i = n;
    while i > 0 && name.get_char(i - 1) != '.' && name.get_char(i - 1) != '/'
        invariant
            n == name@.len(),
            i <= n,
            forall|k: int| i <= k < n ==> name@[k] != '.' && name@[k] != '/',
        decreases i,
    {
        i = i - 1;
    }
    if i > 0 && name.get_char(i - 1) == '.' && i >= 2 && name.get_char(i - 2) != '/' {
        proof {
            assert(is_ext_dot(name@, i - 1));
            let p = choose|p: int| is_ext_dot(name@, p);
            lemma_ext_dot_unique(name@, p, i - 1);
        }
        let stem = name.substring_char(0, i - 1);
        let mut r = stem.to_owned();
        r.append(".pdf");
        r
    } else {
        proof {
            assert(forall|p: int| !is_ext_dot(name@, p)) by {
                assert forall|p: int| is_ext_dot(name@, p) implies false by {
                    if i == 0 {
                        assert(name@[p] != '.');
                    } else if name@[i - 1] == '/' {
                        if p < i - 1 {
                            assert(name@[i - 1] != '/');
                        } else {
                            assert(name@[p] != '.');
                        }
                    } else {
                        // the dot at i - 1 opens the last path component
                        if p < i - 1 {
                            assert(name@[i - 1] != '.');
                        } else if p > i - 1 {
                            assert(name@[p] != '.');
                        }
                    }
                }
            }
        }
        let mut r = name.to_owned();
        r.append(".pdf");
        r
    }
}

/// `Download/<company>/<sub>/<file>.pdf`.
pub open spec fn spec_dest_path(company: Seq<char>, sub: Seq<char>, file: Seq<char>) -> Seq<char> {
    "Download/"@ + company + "/"@ + sub + "/"@ + spec_pdf_name(file)
}

pub fn dest_path(company: &str, sub: &str, file: &str) -> (r: String)
    ensures
        r@ == spec_dest_path(company@, sub@, file@),
{
    let mut r = String::from_str("Download/");
    r.append(company);
    r.append("/");
    r.append(sub);
    r.append("/");
    let f = pdf_file_name(file);
    r.append(f.as_str());
    r
}

/// `Download/<company>/<sub>`, the folder a category's files land in.
pub open spec fn spec_folder_path(company: Seq<char>, sub: Seq<char>) -> Seq<char> {
    "Download/"@ + company + "/"@ + sub
}

pub fn folder_path(company: &str, sub: &str) -> (r: String)
    ensures
        r@ == spec_folder_path(company@, sub@),
{
    let mut r = String::from_str("Download/");
    r.append(company);
    r.append("/");
    r.append(sub);
    r
}

/// The absolute source URL of a file: the exchange's static-asset base
/// joined with the descriptor's relative path.
pub open spec fn spec_file_url(file_path: Seq<char>) -> Seq<char> {
    "http://static.sse.com.cn/stock"@ + file_path
}

pub fn file_url(file_path: &str) -> (r: String)
    ensures
        r@ == spec_file_url(file_path@),
{
    let mut r = String::from_str("http://static.sse.com.cn/stock");
    r.append(file_path);
    r
}

} // verus!
