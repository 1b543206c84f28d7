//! The name of the file that holds an item.

use sanitize_filename::Options;
use vstd::prelude::*;

verus! {

/// What `sanitize_filename::sanitize_with_options` makes of `name`, for a
/// Windows target or another, truncating and with nothing put in place of
/// what it removes.
pub uninterp spec fn sanitized(name: Seq<char>, windows: bool) -> Seq<char>;

/// `sanitize_filename::sanitize_with_options`, with the options that
/// `sanitize` takes by default but for `windows`, which the caller gives.
#[verifier::external_body]
fn sanitize_name(name: &str, windows: bool) -> (r: String)
    ensures
        r@ == sanitized(name@, windows),
{
    sanitize_filename::sanitize_with_options(name, Options { windows, truncate: true, replacement: "" })
}

/// The names joined by a comma and a space.
pub open spec fn joined(names: Seq<String>) -> Seq<char>
    decreases names.len(),
{
    if names.len() == 0 {
        Seq::empty()
    } else if names.len() == 1 {
        names[0]@
    } else {
        joined(names.drop_last()) + ", "@ + names.last()@
    }
}

/// The name of an item's file before it is made safe: the origins, a
/// dash, the title and the extension.
pub open spec fn raw_name(origins: Seq<String>, title: Seq<char>) -> Seq<char> {
    joined(origins) + " - "@ + title + ".ogg"@
}

/// The name of an item's file.
pub open spec fn output_name_of(origins: Seq<String>, title: Seq<char>, windows: bool) -> Seq<char> {
    sanitized(raw_name(origins, title), windows)
}

/// Joins the names with a comma and a space between them.
pub fn join_names(names: &Vec<String>) -> (r: String)
    ensures
        r@ == joined(names@),
{
    let mut out = String::new();
    let mut i: usize = 0;
    while i < names.len()
        invariant
            0 <= i <= names@.len(),
            out@ == joined(names@.take(i as int)),
        decreases names@.len() - i,
    {
        proof {
            assert(names@.take(i + 1).drop_last() =~= names@.take(i as int));
            assert(names@.take(i + 1).last() == names@[i as int]);
        }
        if i > 0 {
            out.append(", ");
        }
        out.append(names[i].as_str());
        proof {
            if i == 0 {
                assert(out@ =~= names@[0]@);
            }
        }
        i += 1;
    }
    proof {
        assert(names@.take(i as int) =~= names@);
    }
    out
}

/// Derives the name of the file that holds an item: origins and title are
/// composed, and the whole is made safe for a file system.
pub fn output_name(origins: &Vec<String>, title: &str, windows: bool) -> (r: String)
    ensures
        r@ == output_name_of(origins@, title@, windows),
{
    let mut raw = join_names(origins);
    raw.append(" - ");
    raw.append(title);
    raw.append(".ogg");
    sanitize_name(raw.as_str(), windows)
}

} // verus!
