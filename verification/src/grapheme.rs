//! The units that the lexer reads: grapheme clusters, each with the three
//! properties that scanning tests.

use vstd::prelude::*;
use regex::Regex;
use unicode_segmentation::UnicodeSegmentation;

verus! {

/// The extended grapheme clusters of `text`, in order, as the Unicode text
/// segmentation rules cut them.
pub uninterp spec fn grapheme_clusters(text: Seq<char>) -> Seq<Seq<char>>;

/// Whether the regular expression written as `pattern` matches somewhere in
/// `haystack`.
pub uninterp spec fn regex_is_match(pattern: Seq<char>, haystack: Seq<char>) -> bool;

/// The pattern of a cluster that begins with a decimal digit.
pub open spec fn numeric_pattern() -> Seq<char> {
    "^\\d"@
}

/// The pattern of a cluster that begins with an unaccented Latin letter.
pub open spec fn alphabetic_pattern() -> Seq<char> {
    "^[a-zA-Z]"@
}

/// The pattern of a cluster that begins with a word character.
pub open spec fn word_pattern() -> Seq<char> {
    "^\\w+"@
}

/// The patterns that the lexer uses.
pub open spec fn is_pattern(pattern: Seq<char>) -> bool {
    pattern == numeric_pattern() || pattern == alphabetic_pattern() || pattern == word_pattern()
}

/// `text` begins with one of the letters `a` to `z` or `A` to `Z`.
pub open spec fn starts_with_letter(text: Seq<char>) -> bool {
    text.len() > 0 && (('a' <= text[0] && text[0] <= 'z') || ('A' <= text[0] && text[0] <= 'Z'))
}

/// The texts of a list of strings, in order.
pub open spec fn texts(strings: Seq<String>) -> Seq<Seq<char>> {
    strings.map_values(|s: String| s@)
}

/// `UnicodeSegmentation::graphemes` with extended clusters: the result is
/// the list of clusters that the iterator yields, each copied into a string
/// of its own.
#[verifier::external_body]
fn graphemes(input: &str) -> (r: Vec<String>)
    ensures
        texts(r@) == grapheme_clusters(input@),
{
    UnicodeSegmentation::graphemes(input, true).map(String::from).collect()
}

/// `Regex::new` on one of the lexer's patterns, then `Regex::is_match`: the
/// result is whether the compiled pattern matches in `haystack`. For the
/// alphabetic pattern that is the case exactly when the haystack begins
/// with an unaccented Latin letter.
#[verifier::external_body]
fn is_match(pattern: &str, haystack: &str) -> (r: bool)
    requires
        is_pattern(pattern@),
    ensures
        r == regex_is_match(pattern@, haystack@),
        pattern@ == alphabetic_pattern() ==> r == starts_with_letter(haystack@),
{
    Regex::new(pattern).unwrap().is_match(haystack)
}

/// One grapheme cluster of the source text.
#[derive(Debug, PartialEq)]
pub struct Grapheme {
    pub text: String,
    /// It begins with a decimal digit.
    pub digit: bool,
    /// It begins with an unaccented Latin letter.
    pub letter: bool,
    /// It begins with a word character.
    pub word: bool,
}

/// A grapheme cluster as contracts see it.
pub struct GraphemeView {
    pub text: Seq<char>,
    pub digit: bool,
    pub letter: bool,
    pub word: bool,
}

impl View for Grapheme {
    type V = GraphemeView;

    open spec fn view(&self) -> GraphemeView {
        GraphemeView { text: self.text@, digit: self.digit, letter: self.letter, word: self.word }
    }
}

/// The views of a list of clusters, in order.
pub open spec fn grapheme_views(clusters: Seq<Grapheme>) -> Seq<GraphemeView> {
    clusters.map_values(|g: Grapheme| g@)
}

/// The cluster `text` with its three properties.
pub open spec fn classified(text: Seq<char>) -> GraphemeView {
    GraphemeView {
        text,
        digit: regex_is_match(numeric_pattern(), text),
        letter: starts_with_letter(text),
        word: regex_is_match(word_pattern(), text),
    }
}

/// The clusters of a source text, each with its properties.
pub open spec fn source_graphemes(input: Seq<char>) -> Seq<GraphemeView> {
    grapheme_clusters(input).map_values(|text: Seq<char>| classified(text))
}

impl Grapheme {
    /// Tests the cluster `text` for the three properties.
    pub fn classify(text: String) -> (r: Grapheme)
        ensures
            r@ == classified(text@),
    {
        let digit = is_match("^\\d", text.as_str());
        let letter = is_match("^[a-zA-Z]", text.as_str());
        let word = is_match("^\\w+", text.as_str());
        Grapheme { text, digit, letter, word }
    }
}

/// Cuts `input` into grapheme clusters and tests each for the properties
/// that scanning needs.
pub fn segment(input: &str) -> (r: Vec<Grapheme>)
    ensures
        grapheme_views(r@) == source_graphemes(input@),
{
    let clusters = graphemes(input);
    let mut r: Vec<Grapheme> = Vec::new();
    let mut i: usize = 0;
    while i < clusters.len()
        invariant
            i <= clusters.len(),
            r.len() == i,
            forall|j: int| 0 <= j < i ==> r@[j]@ == classified(#[trigger] clusters@[j]@),
        decreases clusters.len() - i,
    {
        r.push(Grapheme::classify(clusters[i].clone()));
        i += 1;
    }
    proof {
        assert(grapheme_views(r@) =~= texts(clusters@).map_values(
            |text: Seq<char>| classified(text),
        ));
    }
    r
}

} // verus!
