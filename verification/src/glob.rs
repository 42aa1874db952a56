//! Glob patterns, matched by the `globset` crate.

use vstd::prelude::*;

verus! {

#[verifier::external_type_specification]
#[verifier::external_body]
pub struct ExGlob(globset::Glob);

#[verifier::external_type_specification]
#[verifier::external_body]
pub struct ExGlobSetBuilder(globset::GlobSetBuilder);

#[verifier::external_type_specification]
#[verifier::external_body]
pub struct ExGlobSet(globset::GlobSet);

/// Whether `globset::Glob::new` accepts a pattern.
pub uninterp spec fn glob_syntax_ok(pattern: Seq<char>) -> bool;

/// The pattern a glob was made from.
pub uninterp spec fn glob_text(g: globset::Glob) -> Seq<char>;

/// The patterns added to a set builder, in order.
pub uninterp spec fn builder_patterns(b: globset::GlobSetBuilder) -> Seq<Seq<char>>;

/// Whether `GlobSetBuilder::build` succeeds on the given patterns.
pub uninterp spec fn glob_set_builds(patterns: Seq<Seq<char>>) -> bool;

/// The message of the error that `GlobSetBuilder::build` gives on the given patterns.
pub uninterp spec fn glob_set_build_failure(patterns: Seq<Seq<char>>) -> Seq<char>;

/// The patterns a glob set was built from.
pub uninterp spec fn set_patterns(s: globset::GlobSet) -> Seq<Seq<char>>;

/// Whether some of the patterns matches the path (`GlobSet::is_match`).
pub uninterp spec fn globs_match(patterns: Seq<Seq<char>>, path: Seq<char>) -> bool;

/// `globset::Glob::new`: a glob for a valid pattern, nothing for an invalid
/// one (the error itself is dropped). Claims that validity depends on the
/// pattern alone and that the glob remembers its pattern.
#[verifier::external_body]
pub(crate) fn glob_new(pattern: &str) -> (r: Option<globset::Glob>)
    ensures
        r is Some == glob_syntax_ok(pattern@),
        r matches Some(g) ==> glob_text(g) == pattern@,
{
    globset::Glob::new(pattern).ok()
}

/// `globset::GlobSetBuilder::new`: a builder holding no pattern.
#[verifier::external_body]
pub(crate) fn glob_set_builder() -> (b: globset::GlobSetBuilder)
    ensures
        builder_patterns(b) == Seq::<Seq<char>>::empty(),
{
    globset::GlobSetBuilder::new()
}

/// `globset::GlobSetBuilder::add`: appends the glob's pattern (the builder
/// keeps its globs in a vector and pushes each one).
#[verifier::external_body]
pub(crate) fn builder_add(b: &mut globset::GlobSetBuilder, g: globset::Glob)
    ensures
        builder_patterns(*final(b)) == builder_patterns(*old(b)).push(glob_text(g)),
{
    b.add(g);
}

/// `globset::GlobSetBuilder::build`: a set of the added patterns, or the
/// error's message. Claims that success and the message depend on the
/// patterns alone.
#[verifier::external_body]
pub(crate) fn builder_build(b: &globset::GlobSetBuilder) -> (r: Result<globset::GlobSet, String>)
    ensures
        r is Ok == glob_set_builds(builder_patterns(*b)),
        r matches Ok(s) ==> set_patterns(s) == builder_patterns(*b),
        r matches Err(m) ==> m@ == glob_set_build_failure(builder_patterns(*b)),
{
    b.build().map_err(|e| e.to_string())
}

/// `globset::GlobSet::is_match` on a path: whether any pattern of the set
/// matches it. Claims that the answer depends on the patterns and the path alone.
#[verifier::external_body]
pub(crate) fn set_is_match(s: &globset::GlobSet, path: &str) -> (r: bool)
    ensures
        r == globs_match(set_patterns(*s), path@),
{
    s.is_match(std::path::Path::new(path))
}

} // verus!
