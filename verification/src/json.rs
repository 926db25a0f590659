//! A small document tree: the shape in which manifests are handed out.
//!
//! [`Doc`] is the mathematical value, [`Json`] the executable one. Contracts
//! speak of documents through the view `@`; the builders below grow a document
//! field by field so that its view is known at every step.

use vstd::prelude::*;

verus! {

/// The mathematical value of a document.
pub enum Doc {
    Bool(bool),
    Num(int),
    Text(Seq<char>),
    List(Seq<Doc>),
    Object(Seq<(Seq<char>, Doc)>),
}

/// An executable document. Numbers are unsigned: no manifest holds another kind.
#[derive(Debug, PartialEq, Eq)]
pub enum Json {
    Bool(bool),
    Num(u64),
    Text(String),
    List(Vec<Json>),
    Object(Vec<(String, Json)>),
}

impl View for Json {
    type V = Doc;

    // Inside the two closures the index is tested against the length, which
    // is what shows that the inner documents are smaller than `self`.
    open spec fn view(&self) -> Doc
        decreases self,
    {
        match self {
            Json::Bool(b) => Doc::Bool(*b),
            Json::Num(n) => Doc::Num(*n as int),
            Json::Text(s) => Doc::Text(s@),
            Json::List(items) => Doc::List(
                Seq::new(
                    items@.len(),
                    |i: int|
                        if 0 <= i < items@.len() {
                            items@[i].view()
                        } else {
                            Doc::Bool(false)
                        },
                ),
            ),
            Json::Object(fields) => Doc::Object(
                Seq::new(
                    fields@.len(),
                    |i: int|
                        (
                            fields@[i].0@,
                            if 0 <= i < fields@.len() {
                                fields@[i].1.view()
                            } else {
                                Doc::Bool(false)
                            },
                        ),
                ),
            ),
        }
    }
}

/// The documents that a list of executable documents stands for.
pub open spec fn items_view(items: Seq<Json>) -> Seq<Doc> {
    Seq::new(items.len(), |i: int| items[i]@)
}

/// The keyed documents that a list of executable fields stands for.
pub open spec fn fields_view(fields: Seq<(String, Json)>) -> Seq<(Seq<char>, Doc)> {
    Seq::new(fields.len(), |i: int| (fields[i].0@, fields[i].1@))
}

/// The value under the last field of `fields` named `key`, if there is one.
/// A later field supersedes an earlier one of the same name.
pub open spec fn lookup(fields: Seq<(Seq<char>, Doc)>, key: Seq<char>) -> Option<Doc>
    decreases fields.len(),
{
    if fields.len() == 0 {
        None
    } else if fields.last().0 == key {
        Some(fields.last().1)
    } else {
        lookup(fields.drop_last(), key)
    }
}

impl Doc {
    /// The object without fields.
    pub open spec fn object() -> Doc {
        Doc::Object(Seq::empty())
    }

    /// `self` with the field `key: value` after its other fields. Anything
    /// but an object is left as it is.
    pub open spec fn with(self, key: Seq<char>, value: Doc) -> Doc {
        match self {
            Doc::Object(fields) => Doc::Object(fields.push((key, value))),
            _ => self,
        }
    }

    /// The list without items.
    pub open spec fn list() -> Doc {
        Doc::List(Seq::empty())
    }

    /// `self` with `value` after its other items. Anything but a list is left
    /// as it is.
    pub open spec fn item(self, value: Doc) -> Doc {
        match self {
            Doc::List(items) => Doc::List(items.push(value)),
            _ => self,
        }
    }

    /// The value under `key`, where `self` is an object that has such a field.
    /// Where it has several, the last one counts.
    pub open spec fn field(self, key: Seq<char>) -> Option<Doc> {
        match self {
            Doc::Object(fields) => lookup(fields, key),
            _ => None,
        }
    }
}

/// What a field added by [`Doc::with`] does to a lookup: it answers for its
/// own key and lets every other key through.
pub proof fn lemma_field_of_with(doc: Doc, key: Seq<char>, value: Doc, wanted: Seq<char>)
    requires
        doc is Object,
    ensures
        doc.with(key, value).field(wanted) == if key == wanted {
            Some(value)
        } else {
            doc.field(wanted)
        },
{
    let fields = doc->Object_0;
    assert(fields.push((key, value)).drop_last() =~= fields);
}

/// A text leaf.
pub fn text(s: &str) -> (j: Json)
    ensures
        j@ == Doc::Text(s@),
{
    Json::Text(s.to_owned())
}

/// A text leaf that takes over `s`.
pub fn owned_text(s: String) -> (j: Json)
    ensures
        j@ == Doc::Text(s@),
{
    Json::Text(s)
}

/// A number leaf.
pub fn number(n: u64) -> (j: Json)
    ensures
        j@ == Doc::Num(n as int),
{
    Json::Num(n)
}

/// A boolean leaf.
pub fn flag(b: bool) -> (j: Json)
    ensures
        j@ == Doc::Bool(b),
{
    Json::Bool(b)
}

/// An empty run of documents.
pub fn no_docs() -> (docs: Vec<Json>)
    ensures
        items_view(docs@) == Seq::<Doc>::empty(),
{
    let docs: Vec<Json> = Vec::new();
    assert(items_view(docs@) =~= Seq::<Doc>::empty());
    docs
}

/// Puts `doc` after the documents of `docs`.
pub fn push_doc(docs: &mut Vec<Json>, doc: Json)
    ensures
        items_view(final(docs)@) == items_view(old(docs)@).push(doc@),
{
    docs.push(doc);
    assert(items_view(docs@) =~= items_view(old(docs)@).push(doc@));
}

/// Moves the documents of `more` behind those of `docs`.
pub fn append_docs(docs: &mut Vec<Json>, more: Vec<Json>)
    ensures
        items_view(final(docs)@) == items_view(old(docs)@) + items_view(more@),
{
    let mut more = more;
    let ghost moved = more@;
    docs.append(&mut more);
    assert(items_view(docs@) =~= items_view(old(docs)@) + items_view(moved));
}

impl Json {
    /// The object without fields.
    pub fn object() -> (j: Json)
        ensures
            j@ == Doc::object(),
    {
        let j = Json::Object(Vec::new());
        assert(j@->Object_0 =~= Seq::empty());
        j
    }

    /// Adds the field `key: value` after the fields that an object has.
    pub fn with(self, key: &str, value: Json) -> (j: Json)
        ensures
            j@ == self@.with(key@, value@),
    {
        match self {
            Json::Object(mut fields) => {
                let ghost before = fields_view(fields@);
                assert(self@->Object_0 =~= before);
                fields.push((key.to_owned(), value));
                let j = Json::Object(fields);
                assert(j@->Object_0 =~= before.push((key@, value@)));
                j
            },
            other => other,
        }
    }

    /// The list without items.
    pub fn list() -> (j: Json)
        ensures
            j@ == Doc::list(),
    {
        let j = Json::List(Vec::new());
        assert(j@->List_0 =~= Seq::empty());
        j
    }

    /// Adds `value` after the items that a list has.
    pub fn item(self, value: Json) -> (j: Json)
        ensures
            j@ == self@.item(value@),
    {
        match self {
            Json::List(mut items) => {
                let ghost before = items_view(items@);
                assert(self@->List_0 =~= before);
                items.push(value);
                let j = Json::List(items);
                assert(j@->List_0 =~= before.push(value@));
                j
            },
            other => other,
        }
    }

    /// The value under the last field named `key`, where `self` is an object
    /// that has one.
    pub fn get(&self, key: &str) -> (found: Option<&Json>)
        ensures
            match found {
                Some(j) => self@.field(key@) == Some(j@),
                None => self@.field(key@).is_none(),
            },
    {
        match self {
            Json::Object(fields) => {
                let wanted = key.to_owned();
                let mut i: usize = fields.len();
                proof {
                    assert(self@->Object_0 =~= fields_view(fields@));
                    assert(fields_view(fields@).take(i as int) =~= fields_view(fields@));
                }
                while i > 0
                    invariant
                        i <= fields@.len(),
                        wanted@ == key@,
                        self@ == Doc::Object(fields_view(fields@)),
                        lookup(fields_view(fields@), key@) == lookup(
                            fields_view(fields@).take(i as int),
                            key@,
                        ),
                    decreases i,
                {
                    let ghost head = fields_view(fields@).take(i as int);
                    assert(head.last() == fields_view(fields@)[i - 1]);
                    assert(head.drop_last() =~= fields_view(fields@).take(i - 1));
                    i = i - 1;
                    if fields[i].0 == wanted {
                        return Some(&fields[i].1);
                    }
                }
                None
            },
            _ => None,
        }
    }

    /// The text of a text leaf.
    pub fn as_text(&self) -> (found: Option<&String>)
        ensures
            match found {
                Some(s) => self@ == Doc::Text(s@),
                None => !(self@ is Text),
            },
    {
        match self {
            Json::Text(s) => Some(s),
            _ => None,
        }
    }

    /// The number of a number leaf.
    pub fn as_number(&self) -> (found: Option<u64>)
        ensures
            match found {
                Some(n) => self@ == Doc::Num(n as int),
                None => !(self@ is Num),
            },
    {
        match self {
            Json::Num(n) => Some(*n),
            _ => None,
        }
    }
}

} // verus!
