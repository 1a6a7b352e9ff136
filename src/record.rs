use vstd::prelude::*;

verus! {

/// A scalar held in a point's attributes.
#[derive(Clone, Debug)]
pub enum AttrValue {
    Str(String),
    Int(i64),
}

/// What an attribute value holds.
pub enum ValueView {
    Str(Seq<char>),
    Int(i64),
}

impl View for AttrValue {
    type V = ValueView;

    open spec fn view(&self) -> ValueView {
        match self {
            AttrValue::Str(s) => ValueView::Str(s@),
            AttrValue::Int(i) => ValueView::Int(*i),
        }
    }
}

/// One named attribute of a point.
#[derive(Clone, Debug)]
pub struct Attribute {
    pub key: String,
    pub value: AttrValue,
}

impl View for Attribute {
    type V = (Seq<char>, ValueView);

    open spec fn view(&self) -> (Seq<char>, ValueView) {
        (self.key@, self.value@)
    }
}

/// The attributes of a point, in the order they were given.
pub open spec fn attrs_view(a: Seq<Attribute>) -> Seq<(Seq<char>, ValueView)> {
    a.map_values(|x: Attribute| x@)
}

/// The value of the first attribute named `key`.
pub open spec fn lookup(a: Seq<(Seq<char>, ValueView)>, key: Seq<char>) -> Option<ValueView>
    decreases a.len(),
{
    if a.len() == 0 {
        None
    } else if a[0].0 == key {
        Some(a[0].1)
    } else {
        lookup(a.drop_first(), key)
    }
}

/// Finds the value of the first attribute named `key`.
pub fn get_attribute<'a>(attrs: &'a Vec<Attribute>, key: &str) -> (r: Option<&'a AttrValue>)
    ensures
        r matches Some(v) ==> lookup(attrs_view(attrs@), key@) == Some(v@),
        r is None ==> lookup(attrs_view(attrs@), key@) is None,
{
    let wanted = String::from_str(key);
    let mut i: usize = 0;
    assert(attrs_view(attrs@).skip(0) =~= attrs_view(attrs@));
    while i < attrs.len()
        invariant
            0 <= i <= attrs@.len(),
            wanted@ == key@,
            lookup(attrs_view(attrs@), key@) == lookup(attrs_view(attrs@).skip(i as int), key@),
        decreases attrs@.len() - i,
    {
        let ghost rest = attrs_view(attrs@).skip(i as int);
        assert(rest.drop_first() =~= attrs_view(attrs@).skip(i + 1));
        if attrs[i].key == wanted {
            return Some(&attrs[i].value);
        }
        i = i + 1;
    }
    None
}

fn str_attr(key: &str, value: String) -> (r: Attribute)
    ensures
        r@ == (key@, ValueView::Str(value@)),
{
    Attribute { key: String::from_str(key), value: AttrValue::Str(value) }
}

/// A person profile of the people dataset.
#[derive(Clone, Debug)]
pub struct PersonInfo {
    pub name: String,
    pub surname: String,
    pub age: u16,
    pub about: String,
    pub favourite_bomba_character: String,
    pub favourite_series: String,
    pub favourite_movie: String,
    pub favourite_color: String,
}

/// The attributes stored with a person's point.
pub open spec fn person_attrs(p: PersonInfo) -> Seq<(Seq<char>, ValueView)> {
    seq![
        ("name"@, ValueView::Str(p.name@)),
        ("surname"@, ValueView::Str(p.surname@)),
        ("age"@, ValueView::Int(p.age as i64)),
        ("about"@, ValueView::Str(p.about@)),
        ("favourite_bomba_character"@, ValueView::Str(p.favourite_bomba_character@)),
        ("favourite_series"@, ValueView::Str(p.favourite_series@)),
        ("favourite_movie"@, ValueView::Str(p.favourite_movie@)),
        ("favourite_color"@, ValueView::Str(p.favourite_color@)),
    ]
}

impl PersonInfo {
    /// The text embedded for a person: the name, a space and the surname.
    pub fn carrier_text(&self) -> (r: String)
        ensures
            r@ == self.name@ + " "@ + self.surname@,
    {
        self.name.clone().concat(" ").concat(self.surname.as_str())
    }

    /// All fields as point attributes; the age becomes a 64-bit integer.
    pub fn into_attributes(self) -> (r: Vec<Attribute>)
        ensures
            attrs_view(r@) == person_attrs(self),
    {
        let ghost p = self;
        let mut r: Vec<Attribute> = Vec::new();
        r.push(str_attr("name", self.name));
        r.push(str_attr("surname", self.surname));
        r.push(Attribute { key: String::from_str("age"), value: AttrValue::Int(self.age as i64) });
        r.push(str_attr("about", self.about));
        r.push(str_attr("favourite_bomba_character", self.favourite_bomba_character));
        r.push(str_attr("favourite_series", self.favourite_series));
        r.push(str_attr("favourite_movie", self.favourite_movie));
        r.push(str_attr("favourite_color", self.favourite_color));
        assert(attrs_view(r@) =~= person_attrs(p));
        r
    }
}

/// An entry of the news archive.
#[derive(Clone, Debug)]
pub struct NewsItem {
    pub title: String,
    pub url: String,
    pub info: String,
    /// The publication date as `YYYY-MM-DD`.
    pub date: String,
}

/// The attributes stored with a news entry's point.
pub open spec fn news_attrs(n: NewsItem) -> Seq<(Seq<char>, ValueView)> {
    seq![
        ("title"@, ValueView::Str(n.title@)),
        ("url"@, ValueView::Str(n.url@)),
        ("info"@, ValueView::Str(n.info@)),
        ("date"@, ValueView::Str(n.date@)),
    ]
}

impl NewsItem {
    /// The text embedded for a news entry: its description.
    pub fn carrier_text(&self) -> (r: String)
        ensures
            r@ == self.info@,
    {
        self.info.clone()
    }

    /// All fields as point attributes.
    pub fn into_attributes(self) -> (r: Vec<Attribute>)
        ensures
            attrs_view(r@) == news_attrs(self),
    {
        let ghost n = self;
        let mut r: Vec<Attribute> = Vec::new();
        r.push(str_attr("title", self.title));
        r.push(str_attr("url", self.url));
        r.push(str_attr("info", self.info));
        r.push(str_attr("date", self.date));
        assert(attrs_view(r@) =~= news_attrs(n));
        r
    }
}

} // verus!
