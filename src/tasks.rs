use vstd::prelude::*;

use crate::text::{join_range, join_with, occurs_in, same_text, str_contains, strings_view};

verus! {

/// The challenge tasks this program can run.
#[derive(Clone, Copy, Debug, PartialEq, Eq, Structural)]
pub enum Task {
    Helloapi,
    Moderation,
    Blogger,
    Liar,
    Inprompt,
    Embedding,
    Whisper,
    Functions,
    Rodo,
    Scraper,
    Whoami,
    Search,
    People,
    Knowledge,
    Tools,
    Gnome,
    Ownapi,
    Ownapipro,
    Meme,
}

/// The name of a task in the challenge API.
pub open spec fn task_name(t: Task) -> Seq<char> {
    match t {
        Task::Helloapi => "helloapi"@,
        Task::Moderation => "moderation"@,
        Task::Blogger => "blogger"@,
        Task::Liar => "liar"@,
        Task::Inprompt => "inprompt"@,
        Task::Embedding => "embedding"@,
        Task::Whisper => "whisper"@,
        Task::Functions => "functions"@,
        Task::Rodo => "rodo"@,
        Task::Scraper => "scraper"@,
        Task::Whoami => "whoami"@,
        Task::Search => "search"@,
        Task::People => "people"@,
        Task::Knowledge => "knowledge"@,
        Task::Tools => "tools"@,
        Task::Gnome => "gnome"@,
        Task::Ownapi => "ownapi"@,
        Task::Ownapipro => "ownapipro"@,
        Task::Meme => "meme"@,
    }
}

impl Task {
    /// The task's name in the challenge API, which is also its name on the command line.
    pub fn name(&self) -> (r: &'static str)
        ensures
            r@ == task_name(*self),
    {
        match self {
            Task::Helloapi => "helloapi",
            Task::Moderation => "moderation",
            Task::Blogger => "blogger",
            Task::Liar => "liar",
            Task::Inprompt => "inprompt",
            Task::Embedding => "embedding",
            Task::Whisper => "whisper",
            Task::Functions => "functions",
            Task::Rodo => "rodo",
            Task::Scraper => "scraper",
            Task::Whoami => "whoami",
            Task::Search => "search",
            Task::People => "people",
            Task::Knowledge => "knowledge",
            Task::Tools => "tools",
            Task::Gnome => "gnome",
            Task::Ownapi => "ownapi",
            Task::Ownapipro => "ownapipro",
            Task::Meme => "meme",
        }
    }

    /// Whether the task answers through a server of its own instead of posting an answer.
    pub fn serves_answer(&self) -> (r: bool)
        ensures
            r <==> (*self == Task::Ownapi || *self == Task::Ownapipro),
    {
        match self {
            Task::Ownapi | Task::Ownapipro => true,
            _ => false,
        }
    }
}

/// An error reported by the challenge API.
#[derive(Clone, Copy, Debug, PartialEq, Eq, Structural)]
pub enum ApiError {
    /// The response carried this non-zero code.
    NonZeroCode(i32),
}

/// Any non-zero code in a challenge API response ends the run.
pub fn check_code(code: i32) -> (r: Result<(), ApiError>)
    ensures
        code == 0 <==> r is Ok,
        code != 0 ==> r == Err::<(), ApiError>(ApiError::NonZeroCode(code)),
{
    if code == 0 {
        Ok(())
    } else {
        Err(ApiError::NonZeroCode(code))
    }
}

/// A function name from the chat provider that no tool has.
#[derive(Clone, Debug)]
pub struct UnknownTool {
    pub name: String,
}

/// The tools of the question-answering task.
#[derive(Clone, Copy, Debug, PartialEq, Eq, Structural)]
pub enum KnowledgeTool {
    Population,
    CurrencyRate,
    AskLlm,
}

pub open spec fn knowledge_tool_name(t: KnowledgeTool) -> Seq<char> {
    match t {
        KnowledgeTool::Population => "get_population_api_call"@,
        KnowledgeTool::CurrencyRate => "get_currency_rate_api_call"@,
        KnowledgeTool::AskLlm => "ask_llm"@,
    }
}

/// The tool whose name is `name`.
pub open spec fn knowledge_tool_of(name: Seq<char>) -> Option<KnowledgeTool> {
    if name == knowledge_tool_name(KnowledgeTool::Population) {
        Some(KnowledgeTool::Population)
    } else if name == knowledge_tool_name(KnowledgeTool::CurrencyRate) {
        Some(KnowledgeTool::CurrencyRate)
    } else if name == knowledge_tool_name(KnowledgeTool::AskLlm) {
        Some(KnowledgeTool::AskLlm)
    } else {
        None
    }
}

/// The tools of the assistant task.
#[derive(Clone, Copy, Debug, PartialEq, Eq, Structural)]
pub enum AssistantTool {
    Remember,
    Answer,
}

pub open spec fn assistant_tool_name(t: AssistantTool) -> Seq<char> {
    match t {
        AssistantTool::Remember => "remember"@,
        AssistantTool::Answer => "answer"@,
    }
}

impl KnowledgeTool {
    pub fn name(&self) -> (r: &'static str)
        ensures
            r@ == knowledge_tool_name(*self),
    {
        match self {
            KnowledgeTool::Population => "get_population_api_call",
            KnowledgeTool::CurrencyRate => "get_currency_rate_api_call",
            KnowledgeTool::AskLlm => "ask_llm",
        }
    }

    /// The tool a function call names, or `UnknownTool`.
    pub fn parse(name: &str) -> (r: Result<KnowledgeTool, UnknownTool>)
        ensures
            knowledge_tool_of(name@) matches Some(t) ==> (r matches Ok(u) && u == t),
            knowledge_tool_of(name@) is None ==> (r matches Err(e) && e.name@ == name@),
    {
        if same_text(name, "get_population_api_call") {
            Ok(KnowledgeTool::Population)
        } else if same_text(name, "get_currency_rate_api_call") {
            Ok(KnowledgeTool::CurrencyRate)
        } else if same_text(name, "ask_llm") {
            Ok(KnowledgeTool::AskLlm)
        } else {
            Err(UnknownTool { name: String::from_str(name) })
        }
    }
}

impl AssistantTool {
    pub fn name(&self) -> (r: &'static str)
        ensures
            r@ == assistant_tool_name(*self),
    {
        match self {
            AssistantTool::Remember => "remember",
            AssistantTool::Answer => "answer",
        }
    }

    /// The tool a function call names, or `UnknownTool`.
    pub fn parse(name: &str) -> (r: Result<AssistantTool, UnknownTool>)
        ensures
            assistant_tool_of(name@) matches Some(t) ==> (r matches Ok(u) && u == t),
            assistant_tool_of(name@) is None ==> (r matches Err(e) && e.name@ == name@),
    {
        if same_text(name, "remember") {
            Ok(AssistantTool::Remember)
        } else if same_text(name, "answer") {
            Ok(AssistantTool::Answer)
        } else {
            Err(UnknownTool { name: String::from_str(name) })
        }
    }
}

/// The opening lines of the assistant's context on the day `today`.
pub open spec fn assistant_lines(today: Seq<char>) -> Seq<Seq<char>> {
    seq![
        "Answer concisely as possible"@,
        "If you do not know answer for the question say 'I do not know'"@,
        "Today is: "@ + today,
    ]
}

/// The context the assistant answers in, before any fact is remembered.
pub fn assistant_context(today: &str) -> (r: String)
    ensures
        r@ == join_with(assistant_lines(today@), "\n"@),
{
    let mut lines: Vec<String> = Vec::new();
    lines.push(String::from_str("Answer concisely as possible"));
    lines.push(String::from_str("If you do not know answer for the question say 'I do not know'"));
    lines.push(String::from_str("Today is: ").concat(today));
    assert(strings_view(lines@).subrange(0, 3) =~= assistant_lines(today@));
    join_range(&lines, 0, 3, "\n")
}

/// The tool whose name is `name`.
pub open spec fn assistant_tool_of(name: Seq<char>) -> Option<AssistantTool> {
    if name == assistant_tool_name(AssistantTool::Remember) {
        Some(AssistantTool::Remember)
    } else if name == assistant_tool_name(AssistantTool::Answer) {
        Some(AssistantTool::Answer)
    } else {
        None
    }
}

/// Adds a remembered fact to the assistant's context.
pub fn remember_fact(context: &mut String, category: &str, data: &str)
    ensures
        final(context)@ == old(context)@ + "\n Fact about me: "@ + category@ + " "@ + data@,
{
    context.append("\n Fact about me: ");
    context.append(category);
    context.append(" ");
    context.append(data);
}

/// Why a verifier reply was refused.
#[derive(Clone, Copy, Debug, PartialEq, Eq, Structural)]
pub enum VerdictError {
    /// No choice carried any content.
    NoVerdict,
    /// The reply was neither `YES` nor `NO`.
    NotYesOrNo,
}

/// The content of the last choice that has one.
pub open spec fn last_present(contents: Seq<Option<String>>) -> Option<Seq<char>>
    decreases contents.len(),
{
    if contents.len() == 0 {
        None
    } else {
        match contents.last() {
            Some(c) => Some(c@),
            None => last_present(contents.drop_last()),
        }
    }
}

/// The verdict of a truthfulness check: the last reply given, which must be `YES` or `NO`.
pub fn pick_verdict(choices: Vec<Option<String>>) -> (r: Result<String, VerdictError>)
    ensures
        last_present(choices@) is None ==> r == Err::<String, VerdictError>(
            VerdictError::NoVerdict,
        ),
        last_present(choices@) matches Some(v) ==> if v == "YES"@ || v == "NO"@ {
            r matches Ok(s) && s@ == v
        } else {
            r == Err::<String, VerdictError>(VerdictError::NotYesOrNo)
        },
{
    let mut rest = choices;
    while rest.len() > 0
        invariant
            last_present(rest@) == last_present(choices@),
        decreases rest@.len(),
    {
        let ghost before = rest@;
        match rest.pop() {
            Some(Some(v)) => {
                assert(before.last() == Some(v));
                assert(last_present(before) == Some(v@));
                if same_text(v.as_str(), "YES") || same_text(v.as_str(), "NO") {
                    return Ok(v);
                } else {
                    return Err(VerdictError::NotYesOrNo);
                }
            },
            _ => {
                assert(rest@ == before.drop_last());
            },
        }
    }
    Err(VerdictError::NoVerdict)
}

/// The opening lines of the identification context.
pub open spec fn whoami_header() -> Seq<Seq<char>> {
    seq![
        "Answer on my question using data prowided after ### markers and your base knowledge"@,
        "Answer concisely as possible"@,
        "If you do not know the persons name and surname reply only with 'Not enough data'"@,
        ""@,
        "###"@,
    ]
}

/// The identification task: hints about a person gather in a context until the model
/// can name them.
pub struct WhoAmI {
    context: String,
}

impl View for WhoAmI {
    type V = Seq<char>;

    closed spec fn view(&self) -> Seq<char> {
        self.context@
    }
}

impl WhoAmI {
    /// A context that holds only the instructions.
    pub fn new() -> (r: Self)
        ensures
            r@ == join_with(whoami_header(), "\n"@),
    {
        let mut lines: Vec<String> = Vec::new();
        lines.push(
            String::from_str(
                "Answer on my question using data prowided after ### markers and your base knowledge",
            ),
        );
        lines.push(String::from_str("Answer concisely as possible"));
        lines.push(
            String::from_str(
                "If you do not know the persons name and surname reply only with 'Not enough data'",
            ),
        );
        lines.push(String::from_str(""));
        lines.push(String::from_str("###"));
        assert(strings_view(lines@).subrange(0, 5) =~= whoami_header());
        WhoAmI { context: join_range(&lines, 0, 5, "\n") }
    }

    /// The context to send with the question.
    pub fn context(&self) -> (r: &str)
        ensures
            r@ == self@,
    {
        self.context.as_str()
    }

    /// Adds a hint that the context does not hold yet; tells whether it was new, so
    /// that the model is asked again only then.
    pub fn add_hint(&mut self, hint: &str) -> (r: bool)
        ensures
            r == !occurs_in(hint@, old(self)@),
            r ==> final(self)@ == old(self)@ + hint@,
            !r ==> final(self)@ == old(self)@,
    {
        if str_contains(self.context.as_str(), hint) {
            false
        } else {
            self.context.append(hint);
            true
        }
    }

    /// Whether the model's reply names the person, rather than asking for more data.
    pub fn accepts(answer: &str) -> (r: bool)
        ensures
            r == !occurs_in("Not enough data"@, answer@),
    {
        !str_contains(answer, "Not enough data")
    }
}

} // verus!
