use vstd::prelude::*;

use crate::record::{attrs_view, get_attribute, lookup, AttrValue, Attribute, ValueView};

verus! {

/// A string as the vector store writes it out: between double quotes, escaped as by `{:?}`.
pub uninterp spec fn quoted_text_of(s: Seq<char>) -> Seq<char>;

pub open spec fn digit_char(d: int) -> char {
    seq!['0', '1', '2', '3', '4', '5', '6', '7', '8', '9'][d]
}

/// The decimal digits of `n`, without leading zeros.
pub open spec fn digits_of(n: nat) -> Seq<char>
    decreases n,
{
    if n < 10 {
        seq![digit_char(n as int)]
    } else {
        digits_of(n / 10).push(digit_char((n % 10) as int))
    }
}

/// An integer in decimal, with a leading `-` where it is negative.
pub open spec fn decimal_text(i: int) -> Seq<char> {
    if i < 0 {
        seq!['-'] + digits_of((-i) as nat)
    } else {
        digits_of(i as nat)
    }
}

/// An attribute value as the vector store writes it out.
pub open spec fn value_text(v: ValueView) -> Seq<char> {
    match v {
        ValueView::Str(s) => quoted_text_of(s),
        ValueView::Int(i) => decimal_text(i as int),
    }
}

/// Relies on the `Display` impl of `qdrant_client::qdrant::Value`, which writes an integer
/// value with `{}` and a string value with `{:?}`.
#[verifier::external_body]
fn store_value_text(v: &AttrValue) -> (r: String)
    ensures
        match v {
            AttrValue::Str(s) => r@ == quoted_text_of(s@),
            AttrValue::Int(i) => r@ == decimal_text(*i as int),
        },
{
    match v {
        AttrValue::Str(s) => qdrant_client::qdrant::Value::from(s.clone()).to_string(),
        AttrValue::Int(i) => qdrant_client::qdrant::Value::from(*i).to_string(),
    }
}

/// The line that introduces a person: the surname before the name where both are known.
pub open spec fn name_line(name: Option<ValueView>, surname: Option<ValueView>) -> Option<
    Seq<char>,
> {
    match (name, surname) {
        (None, None) => None,
        (None, Some(s)) => Some("Nazywam sie "@ + value_text(s) + "\n"@),
        (Some(n), None) => Some("Nazywam sie "@ + value_text(n) + "\n"@),
        (Some(n), Some(s)) => Some("Nazywam sie "@ + value_text(s) + " "@ + value_text(n) + "\n"@),
    }
}

/// A line that shows one attribute between two fixed texts, where the attribute is present.
pub open spec fn labelled_line(
    a: Seq<(Seq<char>, ValueView)>,
    key: Seq<char>,
    before: Seq<char>,
    after: Seq<char>,
) -> Option<Seq<char>> {
    match lookup(a, key) {
        Some(v) => Some(before + value_text(v) + after),
        None => None,
    }
}

/// The key of each line of a person's grounding context, in the order the lines are
/// written; the first line shows the name and the surname.
pub open spec fn person_line_key(i: int) -> Seq<char> {
    if i == 0 {
        "name"@
    } else if i == 1 {
        "age"@
    } else if i == 2 {
        "about"@
    } else if i == 3 {
        "favourite_bomba_character"@
    } else if i == 4 {
        "favourite_series"@
    } else if i == 5 {
        "favourite_movie"@
    } else {
        "favourite_color"@
    }
}

/// The number of lines a person's grounding context can have.
pub open spec fn person_line_count() -> int {
    7
}

/// Line `i` of a person's grounding context, `None` where its attribute is absent.
pub open spec fn person_line(a: Seq<(Seq<char>, ValueView)>, i: int) -> Option<Seq<char>> {
    if i == 0 {
        name_line(lookup(a, "name"@), lookup(a, "surname"@))
    } else if i == 1 {
        labelled_line(a, person_line_key(i), "Mam "@, " lat\n"@)
    } else if i == 2 {
        labelled_line(a, person_line_key(i), "O mnie: "@, "\n"@)
    } else if i == 3 {
        labelled_line(a, person_line_key(i), "Moja ulubiona postac z Kapitana Bomby: "@, "\n"@)
    } else if i == 4 {
        labelled_line(a, person_line_key(i), "Mój ulubiony serial: "@, "\n"@)
    } else if i == 5 {
        labelled_line(a, person_line_key(i), "Mój ulubiony film: "@, "\n"@)
    } else {
        labelled_line(a, person_line_key(i), "Mój ulubiony color: "@, "\n"@)
    }
}

pub open spec fn line_text(l: Option<Seq<char>>) -> Seq<char> {
    match l {
        Some(t) => t,
        None => Seq::empty(),
    }
}

/// The first `n` lines of a person's grounding context that are present, in order.
pub open spec fn context_prefix(a: Seq<(Seq<char>, ValueView)>, n: int) -> Seq<char>
    decreases n,
{
    if n <= 0 {
        Seq::empty()
    } else {
        context_prefix(a, n - 1) + line_text(person_line(a, n - 1))
    }
}

/// A person's grounding context.
pub open spec fn person_context(a: Seq<(Seq<char>, ValueView)>) -> Seq<char> {
    context_prefix(a, person_line_count())
}

fn append_value(out: &mut String, v: &AttrValue)
    ensures
        final(out)@ == old(out)@ + value_text(v@),
{
    let t = store_value_text(v);
    out.append(t.as_str());
}

fn append_labelled(out: &mut String, attrs: &Vec<Attribute>, key: &str, before: &str, after: &str)
    ensures
        final(out)@ == old(out)@ + line_text(labelled_line(attrs_view(attrs@), key@, before@, after@)),
{
    match get_attribute(attrs, key) {
        Some(v) => {
            out.append(before);
            append_value(out, v);
            out.append(after);
        },
        None => {
            assert(old(out)@ + Seq::<char>::empty() =~= old(out)@);
        },
    }
}

/// The grounding context for a retrieved person: one line per known attribute that is
/// present, in the declared order.
pub fn build_context_from_payload(payload: &Vec<Attribute>) -> (r: String)
    ensures
        r@ == person_context(attrs_view(payload@)),
{
    let ghost a = attrs_view(payload@);
    let mut out = String::new();
    match (get_attribute(payload, "name"), get_attribute(payload, "surname")) {
        (None, None) => {},
        (None, Some(s)) => {
            out.append("Nazywam sie ");
            append_value(&mut out, s);
            out.append("\n");
        },
        (Some(n), None) => {
            out.append("Nazywam sie ");
            append_value(&mut out, n);
            out.append("\n");
        },
        (Some(n), Some(s)) => {
            out.append("Nazywam sie ");
            append_value(&mut out, s);
            out.append(" ");
            append_value(&mut out, n);
            out.append("\n");
        },
    }
    assert(context_prefix(a, 0) =~= Seq::<char>::empty());
    assert(out@ =~= context_prefix(a, 1));
    append_labelled(&mut out, payload, "age", "Mam ", " lat\n");
    assert(out@ == context_prefix(a, 2));
    append_labelled(&mut out, payload, "about", "O mnie: ", "\n");
    assert(out@ == context_prefix(a, 3));
    append_labelled(
        &mut out,
        payload,
        "favourite_bomba_character",
        "Moja ulubiona postac z Kapitana Bomby: ",
        "\n",
    );
    assert(out@ == context_prefix(a, 4));
    append_labelled(&mut out, payload, "favourite_series", "Mój ulubiony serial: ", "\n");
    assert(out@ == context_prefix(a, 5));
    append_labelled(&mut out, payload, "favourite_movie", "Mój ulubiony film: ", "\n");
    assert(out@ == context_prefix(a, 6));
    append_labelled(&mut out, payload, "favourite_color", "Mój ulubiony color: ", "\n");
    assert(out@ == context_prefix(a, 7));
    out
}

/// The renderer writes the line of a declared key exactly when that key is present (the
/// first line where the name or the surname is), and writes the present lines in the
/// declared order.
pub proof fn lemma_render_omits_absent_keys(a: Seq<(Seq<char>, ValueView)>)
    ensures
        person_line(a, 0) is None <==> (lookup(a, "name"@) is None && lookup(a, "surname"@) is None),
        forall|i: int|
            1 <= i < person_line_count() ==> (#[trigger] person_line(a, i) is None <==> lookup(
                a,
                person_line_key(i),
            ) is None),
        forall|n: int|
            1 <= n <= person_line_count() ==> #[trigger] context_prefix(a, n) == context_prefix(
                a,
                n - 1,
            ) + line_text(person_line(a, n - 1)),
{
}

} // verus!
