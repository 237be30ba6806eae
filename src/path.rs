//! Paths as text, joined the way `PathBuf::push` joins them on Unix.

use vstd::prelude::*;
use vstd::string::*;
use crate::text::opt_view;

verus! {

/// `base` with `comp` pushed onto it: an absolute `comp` replaces `base`;
/// otherwise a `/` separates the two unless `base` is empty or already ends
/// with one.
pub open spec fn joined(base: Seq<char>, comp: Seq<char>) -> Seq<char> {
    if comp.len() > 0 && comp[0] == '/' {
        comp
    } else if base.len() == 0 || base.last() == '/' {
        base + comp
    } else {
        base + seq!['/'] + comp
    }
}

/// `comp` pushed onto the path `base`.
pub fn join(base: &str, comp: &str) -> (r: String)
    ensures
        r@ == joined(base@, comp@),
{
    let n = base.unicode_len();
    let m = comp.unicode_len();
    if m > 0 && comp.get_char(0) == '/' {
        return String::from_str(comp);
    }
    let mut out = String::from_str(base);
    if n > 0 && base.get_char(n - 1) != '/' {
        proof {
            reveal_strlit("/");
        }
        out.append("/");
    }
    out.append(comp);
    out
}

/// What `Path::parent` gives for a path: the path without its final
/// component, if it has one.
pub uninterp spec fn parent_of(p: Seq<char>) -> Option<Seq<char>>;

/// Whether `Path`'s `==` holds of two paths (it compares their components).
pub uninterp spec fn same_path(a: Seq<char>, b: Seq<char>) -> bool;

/// Relies on `Path::parent`: the result depends on the text alone, and is a
/// proper prefix of it (the path with its final component taken off).
#[verifier::external_body]
fn parent_dir(p: &str) -> (r: Option<String>)
    ensures
        opt_view(r) == parent_of(p@),
        r matches Some(q) ==> q@.len() < p@.len(),
{
    match std::path::Path::new(p).parent() {
        Some(q) => q.to_str().map(String::from),
        None => None,
    }
}

/// Relies on `PartialEq for Path`: equal when the components are equal.
#[verifier::external_body]
fn paths_equal(a: &str, b: &str) -> (r: bool)
    ensures
        r == same_path(a@, b@),
{
    std::path::Path::new(a) == std::path::Path::new(b)
}

/// The directories searched for `.cargo/config.toml`, nearest first: the
/// working directory, then each parent in turn, stopping before the home
/// directory, at the root, or after the first when no home is known.
pub fn config_dirs(cwd: &str, home: &Option<String>) -> (r: Vec<String>)
    ensures
        r@.len() >= 1,
        r@[0]@ == cwd@,
        forall|i: int|
            0 <= i < r@.len() - 1 ==> parent_of(#[trigger] r@[i]@) == Some(r@[i + 1]@)
                && home is Some && !same_path(home->0@, r@[i + 1]@),
        match parent_of(r@.last()@) {
            None => true,
            Some(q) => home is None || same_path(home->0@, q),
        },
{
    let mut dirs: Vec<String> = Vec::new();
    let mut cur = String::from_str(cwd);
    loop
        invariant
            dirs@.len() >= 1 ==> dirs@[0]@ == cwd@,
            dirs@.len() == 0 ==> cur@ == cwd@,
            forall|i: int|
                0 <= i < dirs@.len() - 1 ==> parent_of(#[trigger] dirs@[i]@) == Some(dirs@[i + 1]@)
                    && home is Some && !same_path(home->0@, dirs@[i + 1]@),
            dirs@.len() >= 1 ==> parent_of(dirs@.last()@) == Some(cur@) && home is Some
                && !same_path(home->0@, cur@),
        decreases cur@.len(),
    {
        let parent = parent_dir(cur.as_str());
        let ghost prev = dirs@;
        dirs.push(cur);
        assert(dirs@.drop_last() == prev);
        match parent {
            None => {
                return dirs;
            },
            Some(q) => match home {
                None => {
                    return dirs;
                },
                Some(h) => {
                    if paths_equal(h.as_str(), q.as_str()) {
                        return dirs;
                    }
                    cur = q;
                },
            },
        }
    }
}

/// The Cargo configuration file of a directory: `.cargo/config.toml`.
pub fn config_file_of(dir: &str) -> (r: String)
    ensures
        r@ == joined(joined(dir@, ".cargo"@), "config.toml"@),
{
    let d = join(dir, ".cargo");
    join(d.as_str(), "config.toml")
}

} // verus!
