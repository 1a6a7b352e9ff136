use vstd::prelude::*;

use crate::text::{join_range, join_with, occurs_in, str_contains, strings_view};

verus! {

/// Unicode's `White_Space` property, which `str::split_whitespace` splits on.
pub open spec fn is_whitespace_char(c: char) -> bool {
    let u = c as u32;
    (0x9 <= u && u <= 0xD) || u == 0x20 || u == 0x85 || u == 0xA0 || u == 0x1680 || (0x2000
        <= u && u <= 0x200A) || u == 0x2028 || u == 0x2029 || u == 0x202F || u == 0x205F || u
        == 0x3000
}

/// Unicode's `Uppercase` property.
pub uninterp spec fn is_uppercase_char(c: char) -> bool;

/// Unicode's `Alphabetic` property.
pub uninterp spec fn is_alphabetic_char(c: char) -> bool;

fn char_is_whitespace(c: char) -> (r: bool)
    ensures
        r == is_whitespace_char(c),
{
    let u = c as u32;
    (0x9 <= u && u <= 0xD) || u == 0x20 || u == 0x85 || u == 0xA0 || u == 0x1680 || (0x2000 <= u
        && u <= 0x200A) || u == 0x2028 || u == 0x2029 || u == 0x202F || u == 0x205F || u == 0x3000
}

/// Relies on `char::is_uppercase`.
#[verifier::external_body]
fn char_is_uppercase(c: char) -> (r: bool)
    ensures
        r == is_uppercase_char(c),
{
    c.is_uppercase()
}

/// Relies on `char::is_alphabetic`.
#[verifier::external_body]
fn char_is_alphabetic(c: char) -> (r: bool)
    ensures
        r == is_alphabetic_char(c),
{
    c.is_alphabetic()
}

/// A word (a maximal run of non-whitespace characters) starts at `i`.
pub open spec fn word_start(s: Seq<char>, i: int) -> bool {
    0 <= i < s.len() && !is_whitespace_char(s[i]) && (i == 0 || is_whitespace_char(s[i - 1]))
}

/// A word that starts at `i` with an uppercase character.
pub open spec fn capitalized_start(s: Seq<char>, i: int) -> bool {
    word_start(s, i) && is_uppercase_char(s[i])
}

/// The first capitalized word that starts at `i` or later.
pub open spec fn first_capitalized_from(s: Seq<char>, i: int) -> Option<int>
    decreases s.len() - i,
{
    if i < 0 || i >= s.len() {
        None
    } else if capitalized_start(s, i) {
        Some(i)
    } else {
        first_capitalized_from(s, i + 1)
    }
}

/// Where the word that holds position `j` ends.
pub open spec fn word_end(s: Seq<char>, j: int) -> int
    decreases s.len() - j,
{
    if j < 0 || j >= s.len() || is_whitespace_char(s[j]) {
        j
    } else {
        word_end(s, j + 1)
    }
}

/// The end of `s[b..e]` once the non-alphabetic characters at its end are dropped.
pub open spec fn trimmed_end(s: Seq<char>, b: int, e: int) -> int
    decreases e - b,
{
    if e > b && !is_alphabetic_char(s[e - 1]) {
        trimmed_end(s, b, e - 1)
    } else {
        e
    }
}

/// The first word that starts with an uppercase character, without the non-alphabetic
/// characters at its end.
pub open spec fn capitalized_word(s: Seq<char>) -> Option<Seq<char>> {
    match first_capitalized_from(s, 0) {
        Some(b) => Some(s.subrange(b, trimmed_end(s, b, word_end(s, b)))),
        None => None,
    }
}

/// Finds the first capitalized word of `line`, as a name to look for.
pub fn find_capitalized_word(line: &str) -> (r: Option<&str>)
    ensures
        r matches Some(w) ==> capitalized_word(line@) == Some(w@),
        r is None ==> capitalized_word(line@) is None,
{
    let ghost s = line@;
    let n = line.unicode_len();
    let mut i: usize = 0;
    while i < n
        invariant
            n == s.len(),
            s == line@,
            0 <= i <= n,
            first_capitalized_from(s, 0) == first_capitalized_from(s, i as int),
        decreases n - i,
    {
        let c = line.get_char(i);
        let starts = if i == 0 {
            true
        } else {
            char_is_whitespace(line.get_char(i - 1))
        };
        if starts && !char_is_whitespace(c) && char_is_uppercase(c) {
            let mut e: usize = i;
            while e < n && !char_is_whitespace(line.get_char(e))
                invariant
                    n == s.len(),
                    s == line@,
                    i <= e <= n,
                    word_end(s, i as int) == word_end(s, e as int),
                decreases n - e,
            {
                e = e + 1;
            }
            let mut t: usize = e;
            while t > i && !char_is_alphabetic(line.get_char(t - 1))
                invariant
                    n == s.len(),
                    s == line@,
                    i <= t <= e <= n,
                    trimmed_end(s, i as int, e as int) == trimmed_end(s, i as int, t as int),
                decreases t,
            {
                t = t - 1;
            }
            return Some(line.substring_char(i, t));
        }
        i = i + 1;
    }
    None
}

/// Why no name could be taken from a question.
#[derive(Clone, Copy, Debug, PartialEq, Eq, Structural)]
pub enum QuestionError {
    /// Fewer than two capitalized words.
    FullnameNotFound,
}

/// The texts of the successive non-overlapping matches of `pattern` in `text`.
pub uninterp spec fn regex_matches_of(pattern: Seq<char>, text: Seq<char>) -> Seq<Seq<char>>;

/// Relies on `regex::Regex::new` to compile `pattern` and on `Regex::find_iter` to list
/// its matches in `text`, leftmost first and not overlapping. `Regex::new` fails only on an
/// invalid pattern or one over the size limit; the two patterns of this library are valid
/// and small.
#[verifier::external_body]
fn regex_find_all(pattern: &str, text: &str) -> (r: Option<Vec<String>>)
    ensures
        r matches Some(w) ==> strings_view(w@) == regex_matches_of(pattern@, text@),
        (pattern@ == uppercase_word_pattern() || pattern@ == url_pattern()) ==> r is Some,
{
    match regex::Regex::new(pattern) {
        Ok(re) => Some(re.find_iter(text).map(|m| m.as_str().to_string()).collect()),
        Err(_) => None,
    }
}

/// A word that starts with an ASCII capital letter.
pub open spec fn uppercase_word_pattern() -> Seq<char> {
    "(?m)\\b[A-Z]\\w*\\b"@
}

/// The words of `input` that start with an ASCII capital letter, in order.
pub fn find_uppercase_words(input: &str) -> (r: Vec<String>)
    ensures
        strings_view(r@) == regex_matches_of(uppercase_word_pattern(), input@),
{
    match regex_find_all("(?m)\\b[A-Z]\\w*\\b", input) {
        Some(w) => w,
        None => Vec::new(),
    }
}

/// A web address: `http://` or `https://` and what follows up to a whitespace.
pub open spec fn url_pattern() -> Seq<char> {
    "http://[^\\s]+|https://[^\\s]+"@
}

/// The first web address in `text`, if there is one.
pub fn find_first_url(text: &str) -> (r: Option<String>)
    ensures
        regex_matches_of(url_pattern(), text@).len() == 0 <==> r is None,
        r matches Some(u) ==> u@ == regex_matches_of(url_pattern(), text@)[0],
{
    match regex_find_all("http://[^\\s]+|https://[^\\s]+", text) {
        Some(found) => {
            let mut found = found;
            if found.len() == 0 {
                None
            } else {
                Some(found.swap_remove(0))
            }
        },
        None => None,
    }
}

/// The last two of the given words, joined by a space.
pub open spec fn spec_fullname(words: Seq<Seq<char>>) -> Option<Seq<char>> {
    if words.len() < 2 {
        None
    } else {
        Some(words[words.len() - 2] + " "@ + words[words.len() - 1])
    }
}

/// A full name from the capitalized words of a question: the last two of them.
pub fn fullname_from_words(words: &Vec<String>) -> (r: Option<String>)
    ensures
        r matches Some(n) ==> spec_fullname(strings_view(words@)) == Some(n@),
        r is None ==> spec_fullname(strings_view(words@)) is None,
{
    let n = words.len();
    if n < 2 {
        None
    } else {
        Some(words[n - 2].clone().concat(" ").concat(words[n - 1].as_str()))
    }
}

/// The full name a question asks about: its last two capitalized words.
pub fn find_fullname_in_question(question: &str) -> (r: Result<String, QuestionError>)
    ensures
        spec_fullname(regex_matches_of(uppercase_word_pattern(), question@)) matches Some(n)
            ==> (r matches Ok(s) && s@ == n),
        spec_fullname(regex_matches_of(uppercase_word_pattern(), question@)) is None ==> r
            == Err::<String, QuestionError>(QuestionError::FullnameNotFound),
{
    let words = find_uppercase_words(question);
    match fullname_from_words(&words) {
        Some(n) => Ok(n),
        None => Err(QuestionError::FullnameNotFound),
    }
}

/// The lines that open the context of the filtered-input task.
pub open spec fn inprompt_header() -> Seq<Seq<char>> {
    seq![
        "Answer on my question only using data prowided after ### markers."@,
        "Answers concisely as possible"@,
        "###"@,
    ]
}

/// The sentences that mention `name`, in order.
pub open spec fn mentioning(sentences: Seq<Seq<char>>, name: Seq<char>) -> Seq<Seq<char>>
    decreases sentences.len(),
{
    if sentences.len() == 0 {
        Seq::empty()
    } else if occurs_in(name, sentences.last()) {
        mentioning(sentences.drop_last(), name).push(sentences.last())
    } else {
        mentioning(sentences.drop_last(), name)
    }
}

/// The context for a question about `name`: the fixed header, then the sentences that
/// mention `name`, one per line.
pub fn inprompt_context(sentences: &Vec<String>, name: &str) -> (r: String)
    ensures
        r@ == join_with(inprompt_header() + mentioning(strings_view(sentences@), name@), "\n"@),
{
    let ghost all = strings_view(sentences@);
    let mut lines: Vec<String> = Vec::new();
    lines.push(String::from_str("Answer on my question only using data prowided after ### markers."));
    lines.push(String::from_str("Answers concisely as possible"));
    lines.push(String::from_str("###"));
    let mut i: usize = 0;
    assert(all.take(0) =~= Seq::<Seq<char>>::empty());
    assert(strings_view(lines@) =~= inprompt_header() + mentioning(all.take(0), name@));
    while i < sentences.len()
        invariant
            0 <= i <= sentences@.len(),
            all == strings_view(sentences@),
            strings_view(lines@) == inprompt_header() + mentioning(all.take(i as int), name@),
        decreases sentences@.len() - i,
    {
        assert(all.take(i + 1).drop_last() =~= all.take(i as int));
        assert(all.take(i + 1).last() == sentences@[i as int]@);
        let ghost before = lines@;
        if str_contains(sentences[i].as_str(), name) {
            lines.push(sentences[i].clone());
            assert(strings_view(lines@) =~= strings_view(before).push(all[i as int]));
        } else {
            assert(lines@ == before);
        }
        i = i + 1;
        assert(strings_view(lines@) =~= inprompt_header() + mentioning(all.take(i as int), name@));
    }
    assert(all.take(i as int) =~= all);
    assert(strings_view(lines@).subrange(0, lines@.len() as int) =~= strings_view(lines@));
    join_range(&lines, 0, lines.len(), "\n")
}

} // verus!
