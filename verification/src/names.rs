//! Cleaning of the names that cargo reports: package identifiers and test
//! paths.

use crate::text::{chars_of, replace_all, replace_text, replaced, string_of};
use vstd::prelude::*;

verus! {

/// Package identifier without the two registry decorations, the plain one
/// removed first and the one that ends in `.git` second.
pub open spec fn tidied(package_id: Seq<char>) -> Seq<char> {
    replaced(
        replaced(
            package_id,
            "(registry+https://github.com/rust-lang/crates.io-index)"@,
            ""@,
        ),
        "(registry+https://github.com/rust-lang/crates.io-index.git)"@,
        ""@,
    )
}

/// Removes the registry decorations from a package identifier.
pub fn tidy_package_id(package_id: &str) -> (r: String)
    ensures
        r@ == tidied(package_id@),
{
    let s0 = chars_of(package_id);
    let none = chars_of("");
    let s1 = replace_all(
        &s0,
        &chars_of("(registry+https://github.com/rust-lang/crates.io-index)"),
        &none,
    );
    let s2 = replace_all(
        &s1,
        &chars_of("(registry+https://github.com/rust-lang/crates.io-index.git)"),
        &none,
    );
    string_of(&s2)
}

/// Test path with every `::` turned into a dot.
pub open spec fn dotted(name: Seq<char>) -> Seq<char> {
    replaced(name, "::"@, "."@)
}

/// Turns the `::` separators of a test path into dots.
pub fn dotted_name(name: &str) -> (r: String)
    ensures
        r@ == dotted(name@),
{
    replace_text(name, "::", ".")
}

} // verus!
