use vstd::prelude::*;

use crate::text::{occurs_in, str_contains, utf8_len};

verus! {

/// The longest answer, in bytes, that the article task may post.
pub const MAX_ANSWER_LENGTH: usize = 200;

/// The user agents tried in turn when an article server refuses a download.
pub open spec fn user_agents() -> Seq<Seq<char>> {
    seq![
        "Chrome/123.0.0.0"@,
        "Safari/537.36"@,
        "Mozilla/5.0 (X11; Linux x86_64)"@,
        "AppleWebKit/537.36 (KHTML, like Gecko)"@,
    ]
}

/// The user agent of download attempt `attempt`, or `None` once all have been tried.
pub fn user_agent(attempt: usize) -> (r: Option<&'static str>)
    ensures
        attempt < user_agents().len() ==> (r matches Some(a) && a@ == user_agents()[attempt as int]),
        attempt >= user_agents().len() ==> r is None,
{
    match attempt {
        0 => Some("Chrome/123.0.0.0"),
        1 => Some("Safari/537.36"),
        2 => Some("Mozilla/5.0 (X11; Linux x86_64)"),
        3 => Some("AppleWebKit/537.36 (KHTML, like Gecko)"),
        _ => None,
    }
}

/// Whether a downloaded page is the article rather than the server's bot trap.
pub fn usable_page(body: &str) -> (r: bool)
    ensures
        r == !occurs_in("bot detected"@, body@),
{
    !str_contains(body, "bot detected")
}

/// An answer longer than the task accepts.
#[derive(Clone, Copy, Debug, PartialEq, Eq, Structural)]
pub struct AnswerTooLong {
    pub bytes: usize,
}

/// Accepts an answer of at most `MAX_ANSWER_LENGTH` bytes.
pub fn check_answer_length(answer: String) -> (r: Result<String, AnswerTooLong>)
    requires
        utf8_len(answer@) <= usize::MAX,
    ensures
        utf8_len(answer@) <= MAX_ANSWER_LENGTH <==> r is Ok,
        r matches Ok(a) ==> a@ == answer@,
        r matches Err(e) ==> e.bytes == utf8_len(answer@),
{
    let bytes = answer.as_str().len();
    if bytes > MAX_ANSWER_LENGTH {
        Err(AnswerTooLong { bytes })
    } else {
        Ok(answer)
    }
}

/// The context for a question about an article: the fixed instructions, then the article.
pub fn article_context(article: &str) -> (r: String)
    ensures
        r@ == "Answer on my question only using data prowided after ### markers.\n"@
            + "Answers concisely as possible\n"@ + "###\n"@ + article@,
{
    let mut out = String::from_str("Answer on my question only using data prowided after ### markers.\n");
    out.append("Answers concisely as possible\n");
    out.append("###\n");
    out.append(article);
    out
}

} // verus!
