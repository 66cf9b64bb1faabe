//! Shell quoting of a command line, done by the `shell_words` crate.

use vstd::prelude::*;

verus! {

/// The command line that `shell_words::join` builds from a sequence of words.
pub uninterp spec fn shell_join(words: Seq<Seq<char>>) -> Seq<char>;

/// The words that `shell_words::split` reads from a command line, or `None`
/// where it reports a quote that is never closed.
pub uninterp spec fn shell_split(line: Seq<char>) -> Option<Seq<Seq<char>>>;

/// The words of a vector of strings, each as a sequence of characters.
pub open spec fn word_views(words: Seq<String>) -> Seq<Seq<char>> {
    words.map_values(|w: String| w@)
}

/// Calls `shell_words::join`, which quotes each word and puts single spaces
/// between the quoted words.
///
/// Nothing here is proved; the contract is taken from the crate. It gives
/// the line a name, since the line depends on the words alone, and it states
/// the one thing that the crate promises of the quoting, whose style it
/// leaves open: `join` is documented as the inverse of `split`, so that
/// `shell_words::split` reads the same words back from the line. In the
/// crate's source a word without special characters is left as it is, and
/// any other word is put between single quotes with each single quote of its
/// own written as `'\''`; `split` takes everything between single quotes
/// literally and a backslash outside them as an escape.
#[verifier::external_body]
pub(crate) fn join_words(words: &Vec<String>) -> (line: String)
    ensures
        line@ == shell_join(word_views(words@)),
        shell_split(line@) == Some(word_views(words@)),
{
    shell_words::join(words)
}

} // verus!
