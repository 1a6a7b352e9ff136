use aidevs::friends::{chunk_records, FriendsDatabase, OptimizeError, DATABASE_SIZE_LIMIT};
use aidevs::question::{
    find_capitalized_word, find_fullname_in_question, find_uppercase_words, fullname_from_words,
    inprompt_context, QuestionError,
};
use aidevs::record::{get_attribute, AttrValue, Attribute, NewsItem, PersonInfo};
use aidevs::render::build_context_from_payload;
use aidevs::search_api::{web_search_endpoint, BraveSearchHeader};
use aidevs::tasks::{
    check_code, pick_verdict, remember_fact, ApiError, AssistantTool, KnowledgeTool, Task,
    VerdictError, WhoAmI,
};

#[test]
fn test_find_capitalized_word() {
    assert_eq!(find_capitalized_word("siema Michał!"), Some("Michał"));
    assert_eq!(find_capitalized_word("no body is here!"), None);
    assert_eq!(find_capitalized_word("my name is James."), Some("James"));
}

#[test]
fn capitalized_word_edges() {
    assert_eq!(find_capitalized_word(""), None);
    assert_eq!(find_capitalized_word("  Ala,  ma kota"), Some("Ala"));
    assert_eq!(find_capitalized_word("x?Bob Zed"), Some("Zed"));
    assert_eq!(find_capitalized_word("Łukasz..."), Some("Łukasz"));
    assert_eq!(find_capitalized_word("pan\u{00A0}Adam\u{3000}tu"), Some("Adam"));
}

fn person() -> PersonInfo {
    PersonInfo {
        name: "Jan".to_string(),
        surname: "Kowalski".to_string(),
        age: 30,
        about: "lubie rower".to_string(),
        favourite_bomba_character: "Kapitan".to_string(),
        favourite_series: "Ranczo".to_string(),
        favourite_movie: "Mis".to_string(),
        favourite_color: "zielony".to_string(),
    }
}

fn attr(key: &str, value: AttrValue) -> Attribute {
    Attribute { key: key.to_string(), value }
}

#[test]
fn person_attributes_keep_declared_keys() {
    let p = person();
    assert_eq!(p.carrier_text(), "Jan Kowalski");
    let attrs = p.into_attributes();
    let keys: Vec<&str> = attrs.iter().map(|a| a.key.as_str()).collect();
    assert_eq!(
        keys,
        vec![
            "name",
            "surname",
            "age",
            "about",
            "favourite_bomba_character",
            "favourite_series",
            "favourite_movie",
            "favourite_color"
        ]
    );
    assert!(matches!(get_attribute(&attrs, "age"), Some(AttrValue::Int(30))));
    assert!(get_attribute(&attrs, "missing").is_none());
}

#[test]
fn news_attributes_and_carrier() {
    let n = NewsItem {
        title: "T".to_string(),
        url: "http://a".to_string(),
        info: "Alpha text".to_string(),
        date: "2023-11-01".to_string(),
    };
    assert_eq!(n.carrier_text(), "Alpha text");
    let attrs = n.into_attributes();
    assert_eq!(attrs.len(), 4);
    assert!(matches!(get_attribute(&attrs, "date"), Some(AttrValue::Str(d)) if d == "2023-11-01"));
}

#[test]
fn render_full_person() {
    let ctx = build_context_from_payload(&person().into_attributes());
    assert_eq!(
        ctx,
        "Nazywam sie \"Kowalski\" \"Jan\"\n\
         Mam 30 lat\n\
         O mnie: \"lubie rower\"\n\
         Moja ulubiona postac z Kapitana Bomby: \"Kapitan\"\n\
         Mój ulubiony serial: \"Ranczo\"\n\
         Mój ulubiony film: \"Mis\"\n\
         Mój ulubiony color: \"zielony\"\n"
    );
}

#[test]
fn render_skips_absent_keys_and_keeps_order() {
    let attrs = vec![
        attr("favourite_color", AttrValue::Str("red".to_string())),
        attr("age", AttrValue::Int(-4)),
        attr("unknown", AttrValue::Str("x".to_string())),
        attr("name", AttrValue::Str("Ewa".to_string())),
    ];
    assert_eq!(
        build_context_from_payload(&attrs),
        "Nazywam sie \"Ewa\"\nMam -4 lat\nMój ulubiony color: \"red\"\n"
    );
    let only_surname = vec![attr("surname", AttrValue::Str("Nowak".to_string()))];
    assert_eq!(build_context_from_payload(&only_surname), "Nazywam sie \"Nowak\"\n");
    assert_eq!(build_context_from_payload(&vec![]), "");
}

#[test]
fn render_quotes_and_escapes_text() {
    let attrs = vec![attr("about", AttrValue::Str("say \"hi\"".to_string()))];
    assert_eq!(build_context_from_payload(&attrs), "O mnie: \"say \\\"hi\\\"\"\n");
}

#[test]
fn fullname_is_last_two_capitalized_words() {
    assert_eq!(
        find_fullname_in_question("Jaki kolor lubi Krzysztof Gwiazda?").unwrap(),
        "Krzysztof Gwiazda"
    );
    assert_eq!(find_fullname_in_question("Ulubiony kolor Ani Nowak").unwrap(), "Ani Nowak");
    assert_eq!(
        find_fullname_in_question("gdzie mieszka Tomek?").unwrap_err(),
        QuestionError::FullnameNotFound
    );
    assert_eq!(find_uppercase_words("a Bc d Ef"), vec!["Bc", "Ef"]);
    assert!(find_uppercase_words("nic tu nie ma").is_empty());
    assert_eq!(fullname_from_words(&vec!["A".to_string()]), None);
    assert_eq!(
        fullname_from_words(&vec!["A".to_string(), "B".to_string(), "C".to_string()]),
        Some("B C".to_string())
    );
}

fn database() -> FriendsDatabase {
    let mut db = FriendsDatabase::new();
    db.insert("zygfryd".to_string(), vec!["lubi koty".to_string(), "ma 3 psy".to_string()]);
    db.insert("ania".to_string(), vec!["żółw".to_string()]);
    db
}

#[test]
fn database_size_counts_utf8_bytes() {
    let db = database();
    assert_eq!(db.database_size(), 9 + 8 + 7);
    assert_eq!(db.check_size(), Ok(24));
    assert_eq!(FriendsDatabase::new().database_size(), 0);
}

#[test]
fn database_insert_replaces_same_person() {
    let mut db = database();
    db.insert("ania".to_string(), vec!["kot".to_string()]);
    assert_eq!(db.len(), 2);
    assert_eq!(db.records(1), &vec!["kot".to_string()]);
    db.set_records(0, vec![]);
    assert_eq!(db.database_size(), 3);
}

#[test]
fn oversized_database_is_refused() {
    let mut db = FriendsDatabase::new();
    db.insert("big".to_string(), vec!["x".repeat(DATABASE_SIZE_LIMIT + 1)]);
    assert_eq!(db.check_size(), Err(OptimizeError::TooBig(8961)));
    let mut fits = FriendsDatabase::new();
    fits.insert("big".to_string(), vec!["x".repeat(DATABASE_SIZE_LIMIT)]);
    assert_eq!(fits.check_size(), Ok(8960));
}

#[test]
fn database_context_lists_each_person() {
    assert_eq!(
        database().generate_llm_context(),
        "# zygfryd\nzygfrydlubi koty\nma 3 psy\n# ania\naniażółw\n"
    );
}

#[test]
fn records_are_chunked_by_fifteen() {
    let recs: Vec<String> = (0..31).map(|i| format!("r{i}")).collect();
    let chunks = chunk_records(&recs);
    assert_eq!(chunks.len(), 3);
    assert_eq!(chunks[0], (0..15).map(|i| format!("r{i}")).collect::<Vec<_>>().join(" "));
    assert_eq!(chunks[2], "r30");
    assert!(chunk_records(&vec![]).is_empty());
    assert_eq!(chunk_records(&recs[..15].to_vec()).len(), 1);
}

#[test]
fn inprompt_context_keeps_sentences_with_name() {
    let input = vec![
        "Michał lubi koty".to_string(),
        "Ala ma psa".to_string(),
        "Kot Michała".to_string(),
    ];
    assert_eq!(
        inprompt_context(&input, "Michał"),
        "Answer on my question only using data prowided after ### markers.\n\
         Answers concisely as possible\n###\nMichał lubi koty\nKot Michała"
    );
}

#[test]
fn task_names_match_cli() {
    assert_eq!(Task::Helloapi.name(), "helloapi");
    assert_eq!(Task::Ownapipro.name(), "ownapipro");
    assert_eq!(Task::People.name(), "people");
    assert!(Task::Ownapi.serves_answer());
    assert!(!Task::Search.serves_answer());
}

#[test]
fn response_code_must_be_zero() {
    assert_eq!(check_code(0), Ok(()));
    assert_eq!(check_code(-3), Err(ApiError::NonZeroCode(-3)));
}

#[test]
fn tool_names_dispatch_to_variants() {
    assert_eq!(KnowledgeTool::parse("ask_llm").unwrap(), KnowledgeTool::AskLlm);
    assert_eq!(
        KnowledgeTool::parse("get_currency_rate_api_call").unwrap(),
        KnowledgeTool::CurrencyRate
    );
    assert_eq!(KnowledgeTool::parse("nope").unwrap_err().name, "nope");
    assert_eq!(AssistantTool::parse("remember").unwrap(), AssistantTool::Remember);
    assert!(AssistantTool::parse("Answer").is_err());
    assert_eq!(KnowledgeTool::Population.name(), "get_population_api_call");
    assert_eq!(AssistantTool::Answer.name(), "answer");
}

#[test]
fn remembered_fact_is_appended() {
    let mut ctx = "ctx".to_string();
    remember_fact(&mut ctx, "kolor", "zielony");
    assert_eq!(ctx, "ctx\n Fact about me: kolor zielony");
}

#[test]
fn search_headers_and_endpoint() {
    assert_eq!(BraveSearchHeader::SubscriptionToken.as_str(), "X-Subscription-Token");
    assert_eq!(BraveSearchHeader::LocCountry.as_str(), "X-Loc-Country");
    assert_eq!(web_search_endpoint(), "https://api.search.brave.com/res/v1/web/search");
}

#[test]
fn verdict_is_last_reply_and_must_be_yes_or_no() {
    assert_eq!(pick_verdict(vec![]).unwrap_err(), VerdictError::NoVerdict);
    assert_eq!(pick_verdict(vec![None, None]).unwrap_err(), VerdictError::NoVerdict);
    assert_eq!(
        pick_verdict(vec![Some("NO".to_string()), Some("YES".to_string()), None]).unwrap(),
        "YES"
    );
    assert_eq!(
        pick_verdict(vec![Some("YES".to_string()), Some("Maybe".to_string())]).unwrap_err(),
        VerdictError::NotYesOrNo
    );
    assert_eq!(pick_verdict(vec![Some("yes".to_string())]).unwrap_err(), VerdictError::NotYesOrNo);
}

#[test]
fn whoami_gathers_new_hints_only() {
    let mut who = WhoAmI::new();
    let header = "Answer on my question using data prowided after ### markers and your base knowledge\n\
        Answer concisely as possible\n\
        If you do not know the persons name and surname reply only with 'Not enough data'\n\
        \n\
        ###";
    assert_eq!(who.context(), header);
    assert!(who.add_hint("Urodził się w Krakowie."));
    assert!(!who.add_hint("Krakowie"));
    assert!(who.add_hint("Był papieżem."));
    assert_eq!(who.context(), format!("{header}Urodził się w Krakowie.Był papieżem."));
    assert!(!WhoAmI::accepts("Not enough data"));
    assert!(WhoAmI::accepts("Jan Paweł II"));
}
