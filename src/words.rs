use vstd::prelude::*;

verus! {

/// The words of `s`: its maximal runs of non-whitespace characters, in order.
pub uninterp spec fn words_of(s: Seq<char>) -> Seq<Seq<char>>;

/// The lowercase form of `s`, character by character as Unicode defines it.
pub uninterp spec fn lower_of(s: Seq<char>) -> Seq<char>;

/// Relies on `str::split_whitespace`: the pieces of `s` between runs of
/// Unicode whitespace, in order, with no empty pieces.
#[verifier::external_body]
fn whitespace_split<'a>(s: &'a str) -> (r: Vec<&'a str>)
    ensures
        r@.len() == words_of(s@).len(),
        forall|i: int| 0 <= i < r@.len() ==> (#[trigger] r@[i])@ == words_of(s@)[i],
        s@.len() == 0 ==> r@.len() == 0,
{
    s.split_whitespace().collect()
}

/// Relies on `str::to_lowercase`: the result depends on the characters alone,
/// and an empty string stays empty.
#[verifier::external_body]
fn lowercase(s: &str) -> (r: String)
    ensures
        r@ == lower_of(s@),
        s@.len() == 0 ==> r@.len() == 0,
{
    s.to_lowercase()
}

/// Lowercases each of `words`, keeping their order.
pub fn lowercase_all(words: &Vec<&str>) -> (r: Vec<String>)
    ensures
        r@.len() == words@.len(),
        forall|i: int| 0 <= i < r@.len() ==> (#[trigger] r@[i])@ == lower_of(words@[i]@),
{
    let mut r: Vec<String> = Vec::new();
    let mut i: usize = 0;
    while i < words.len()
        invariant
            i <= words@.len(),
            r@.len() == i,
            forall|j: int| 0 <= j < i ==> (#[trigger] r@[j])@ == lower_of(words@[j]@),
        decreases words@.len() - i,
    {
        r.push(lowercase(words[i]));
        i = i + 1;
    }
    r
}

/// Splits `s` at whitespace and lowercases each word; punctuation stays
/// attached to the word it touches.
pub fn split_words(s: &str) -> (r: Vec<String>)
    ensures
        r@.len() == words_of(s@).len(),
        forall|i: int| 0 <= i < r@.len() ==> (#[trigger] r@[i])@ == lower_of(words_of(s@)[i]),
        s@.len() == 0 ==> r@.len() == 0,
{
    let pieces = whitespace_split(s);
    lowercase_all(&pieces)
}

} // verus!
