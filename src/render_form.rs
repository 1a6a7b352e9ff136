use vstd::prelude::*;

verus! {

/// A value for one component of an image template.
#[derive(Clone, Debug)]
pub enum RenderFormRenderDataField {
    /// The text the component shows.
    Text(String),
    /// The address of the image the component shows.
    Source(String),
}

/// The property of a component that a field sets, joined to the component's name.
pub open spec fn field_key(component: Seq<char>, field: RenderFormRenderDataField) -> Seq<char> {
    match field {
        RenderFormRenderDataField::Text(_) => component + ".text"@,
        RenderFormRenderDataField::Source(_) => component + ".src"@,
    }
}

pub open spec fn field_value(field: RenderFormRenderDataField) -> Seq<char> {
    match field {
        RenderFormRenderDataField::Text(t) => t@,
        RenderFormRenderDataField::Source(s) => s@,
    }
}

/// The values of a rendering request, each key once, in the order the keys were first set.
#[derive(Clone, Debug)]
pub struct RenderFormRenderDataBuilder {
    entries: Vec<(String, String)>,
}

/// The data of a rendering request: component properties and their values.
#[derive(Clone, Debug)]
pub struct RenderFormRenderData {
    pub entries: Vec<(String, String)>,
}

pub open spec fn entries_view(e: Seq<(String, String)>) -> Seq<(Seq<char>, Seq<char>)> {
    e.map_values(|p: (String, String)| (p.0@, p.1@))
}

/// Sets `key` to `value`: in place where the key is there, else at the end.
pub open spec fn set_entry(e: Seq<(Seq<char>, Seq<char>)>, key: Seq<char>, value: Seq<char>) -> Seq<
    (Seq<char>, Seq<char>),
> {
    if exists|i: int| 0 <= i < e.len() && e[i].0 == key {
        let i = choose|i: int| 0 <= i < e.len() && e[i].0 == key;
        e.update(i, (key, value))
    } else {
        e.push((key, value))
    }
}

pub open spec fn keys_unique(e: Seq<(Seq<char>, Seq<char>)>) -> bool {
    forall|i: int, j: int| 0 <= i < j < e.len() ==> e[i].0 != e[j].0
}

impl View for RenderFormRenderDataBuilder {
    type V = Seq<(Seq<char>, Seq<char>)>;

    closed spec fn view(&self) -> Seq<(Seq<char>, Seq<char>)> {
        entries_view(self.entries@)
    }
}

impl RenderFormRenderDataBuilder {
    pub closed spec fn wf(&self) -> bool {
        keys_unique(self@)
    }

    pub fn new() -> (r: Self)
        ensures
            r.wf(),
            r@ == Seq::<(Seq<char>, Seq<char>)>::empty(),
    {
        RenderFormRenderDataBuilder { entries: Vec::new() }
    }

    /// Sets the property of `component` that `field` names.
    pub fn set(self, component: &str, field: RenderFormRenderDataField) -> (r: Self)
        requires
            self.wf(),
        ensures
            r.wf(),
            r@ == set_entry(self@, field_key(component@, field), field_value(field)),
    {
        let ghost f = field;
        let ghost sv = self@;
        let (key, value) = match field {
            RenderFormRenderDataField::Text(text) => (String::from_str(component).concat(".text"), text),
            RenderFormRenderDataField::Source(src) => (String::from_str(component).concat(".src"), src),
        };
        assert(key@ == field_key(component@, f) && value@ == field_value(f));
        let mut entries = self.entries;
        let ghost old_view = entries_view(entries@);
        let mut i: usize = 0;
        while i < entries.len()
            invariant
                0 <= i <= entries@.len(),
                entries_view(entries@) == old_view,
                old_view == sv,
                sv == self@,
                f == field,
                key@ == field_key(component@, f),
                value@ == field_value(f),
                keys_unique(old_view),
                forall|j: int| 0 <= j < i ==> old_view[j].0 != key@,
            decreases entries@.len() - i,
        {
            if entries[i].0 == key {
                let ghost k = key@;
                let ghost v = value@;
                entries.set(i, (key, value));
                proof {
                    assert(old_view[i as int].0 == k);
                    assert(exists|c: int| 0 <= c < old_view.len() && old_view[c].0 == k);
                    let c = choose|c: int| 0 <= c < old_view.len() && old_view[c].0 == k;
                    if c < i {
                        assert(old_view[c].0 != old_view[i as int].0);
                    } else if c > i {
                        assert(old_view[i as int].0 != old_view[c].0);
                    }
                    assert(c == i as int);
                    assert(set_entry(old_view, k, v) == old_view.update(i as int, (k, v)));
                    assert(entries_view(entries@) =~= old_view.update(i as int, (k, v)));
                }
                return RenderFormRenderDataBuilder { entries };
            }
            i = i + 1;
        }
        let ghost k = key@;
        let ghost v = value@;
        entries.push((key, value));
        assert(entries_view(entries@) =~= old_view.push((k, v)));
        RenderFormRenderDataBuilder { entries }
    }

    pub fn build(self) -> (r: RenderFormRenderData)
        ensures
            entries_view(r.entries@) == self@,
    {
        RenderFormRenderData { entries: self.entries }
    }
}

} // verus!
