//! Import specifiers: how the text of one is told apart.

use vstd::prelude::*;
use crate::text::has_prefix;

verus! {

/// What an import specifier refers to, judged by how its text begins.
#[derive(Debug, Clone, Copy, PartialEq, Eq, Structural)]
pub enum SpecifierKind {
    /// A path to be joined to the location of the importing module: the text
    /// begins with `./`, `../` or `/`.
    Relative,
    /// A location in the filesystem: the text begins with `file:`.
    File,
    /// A location on the network: the text begins with `http:` or `https:`.
    Network,
    /// Anything else: the name of a module that must already be registered.
    Bare,
}

/// Whether `s` begins like a path: with `./`, `../` or `/`.
pub open spec fn begins_like_path(s: Seq<char>) -> bool {
    seq!['.', '/'].is_prefix_of(s) || seq!['.', '.', '/'].is_prefix_of(s) || seq!['/'].is_prefix_of(
        s,
    )
}

/// Whether `s` begins with the scheme of the filesystem, `file:`.
pub open spec fn begins_with_file_scheme(s: Seq<char>) -> bool {
    seq!['f', 'i', 'l', 'e', ':'].is_prefix_of(s)
}

/// Whether `s` begins with a scheme of the network, `http:` or `https:`.
pub open spec fn begins_with_network_scheme(s: Seq<char>) -> bool {
    seq!['h', 't', 't', 'p', ':'].is_prefix_of(s) || seq!['h', 't', 't', 'p', 's', ':'].is_prefix_of(
        s,
    )
}

/// The kind of the specifier whose characters are `s`.
pub open spec fn kind_of(s: Seq<char>) -> SpecifierKind {
    if begins_like_path(s) {
        SpecifierKind::Relative
    } else if begins_with_file_scheme(s) {
        SpecifierKind::File
    } else if begins_with_network_scheme(s) {
        SpecifierKind::Network
    } else {
        SpecifierKind::Bare
    }
}

/// Tells what `specifier` refers to. Schemes are matched in lower case, as a
/// canonical location writes them.
pub fn classify(specifier: &str) -> (r: SpecifierKind)
    ensures
        r == kind_of(specifier@),
{
    proof {
        reveal_strlit("./");
        reveal_strlit("../");
        reveal_strlit("/");
        reveal_strlit("file:");
        reveal_strlit("http:");
        reveal_strlit("https:");
        assert("./"@ =~= seq!['.', '/']);
        assert("../"@ =~= seq!['.', '.', '/']);
        assert("/"@ =~= seq!['/']);
        assert("file:"@ =~= seq!['f', 'i', 'l', 'e', ':']);
        assert("http:"@ =~= seq!['h', 't', 't', 'p', ':']);
        assert("https:"@ =~= seq!['h', 't', 't', 'p', 's', ':']);
    }
    if has_prefix(specifier, "./") || has_prefix(specifier, "../") || has_prefix(specifier, "/") {
        SpecifierKind::Relative
    } else if has_prefix(specifier, "file:") {
        SpecifierKind::File
    } else if has_prefix(specifier, "http:") || has_prefix(specifier, "https:") {
        SpecifierKind::Network
    } else {
        SpecifierKind::Bare
    }
}

} // verus!
