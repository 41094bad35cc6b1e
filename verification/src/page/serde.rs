//! The keyed-content extractor.
//!
//! A success payload is shaped `{ <root>: { "@attr": {...}, <content>:
//! [...] } }`, where the root and content key names are chosen per endpoint
//! at call time. The seeds here carry those two names and extract a typed
//! page from a document.

use core::marker::PhantomData;

use vstd::prelude::*;

use crate::error::Error;
use crate::json::{decode_items_spec, items_from_json, obj_lookup, views_of, FromJson, Json};
use crate::page::attributes::Attributes;
use crate::page::Page;

verus! {

/// The decode strategy for the inner object of a success payload: holds the
/// content key name under which the item array is expected.
pub struct ContentSeed<T> {
    pub content: String,
    pub _marker: PhantomData<T>,
}

/// The decode strategy for a whole success payload: holds the root key name
/// and the content seed used inside it.
pub struct PageSeed<T> {
    pub root: String,
    pub content: ContentSeed<T>,
}

impl<T> PageSeed<T> {
    /// A seed for the given root and content key names.
    pub fn new(root: &str, content: &str) -> (r: Self)
        ensures
            r.root@ == root@,
            r.content.content@ == content@,
    {
        Self {
            root: String::from_str(root),
            content: ContentSeed { content: String::from_str(content), _marker: PhantomData },
        }
    }
}

/// What the inner object of a success payload decodes to: its `@attr` block
/// and its item array under `content`, with unmatched keys ignored. The
/// error side carries the diagnostic message.
pub open spec fn content_decode_spec<T: FromJson>(inner: Json, content: Seq<char>) -> Result<
    (Attributes, Seq<T::V>),
    Seq<char>,
> {
    match inner {
        Json::Obj(entries) => match obj_lookup(entries@, "@attr"@) {
            None => Err("missing @attr"@),
            Some(av) => match Attributes::from_json_spec(av) {
                None => Err("invalid @attr"@),
                Some(attr) => match obj_lookup(entries@, content) {
                    None => Err("missing content key"@),
                    Some(Json::Arr(items)) => match decode_items_spec::<T>(items@) {
                        Some(ts) => Ok((attr, ts)),
                        None => Err("invalid content"@),
                    },
                    Some(_) => Err("invalid content"@),
                },
            },
        },
        _ => Err("expected a map"@),
    }
}

/// What a whole document decodes to as a success payload: the inner object
/// under `root`, extracted as [`content_decode_spec`] says; entries under
/// other keys are ignored.
pub open spec fn page_decode_spec<T: FromJson>(doc: Json, root: Seq<char>, content: Seq<char>) -> Result<
    (Attributes, Seq<T::V>),
    Seq<char>,
> {
    match doc {
        Json::Obj(entries) => match obj_lookup(entries@, root) {
            None => Err("missing root"@),
            Some(inner) => content_decode_spec::<T>(inner, content),
        },
        _ => Err("expected a map"@),
    }
}

impl<T: FromJson> ContentSeed<T> {
    /// Decodes the inner object of a success payload, exactly as
    /// [`content_decode_spec`] says.
    pub fn decode(&self, inner: &Json) -> (r: Result<Page<T>, Error>)
        ensures
            ({
                let s = content_decode_spec::<T>(*inner, self.content@);
                match r {
                    Ok(p) => s is Ok && p.attr == s->Ok_0.0 && views_of(p.items@) =~= s->Ok_0.1,
                    Err(e) => s is Err && (e matches Error::ParseError(m) && m@ == s->Err_0),
                }
            }),
    {
        match inner {
            Json::Obj(entries) => {
                let attr = match crate::json::obj_get(entries, &String::from_str("@attr")) {
                    None => {
                        return Err(Error::ParseError(String::from_str("missing @attr")));
                    },
                    Some(av) => match Attributes::from_json(av) {
                        None => {
                            return Err(Error::ParseError(String::from_str("invalid @attr")));
                        },
                        Some(attr) => attr,
                    },
                };
                match crate::json::obj_get(entries, &self.content) {
                    None => Err(Error::ParseError(String::from_str("missing content key"))),
                    Some(Json::Arr(items)) => match items_from_json::<T>(items) {
                        Some(ts) => Ok(Page { attr, items: ts }),
                        None => Err(Error::ParseError(String::from_str("invalid content"))),
                    },
                    Some(_) => Err(Error::ParseError(String::from_str("invalid content"))),
                }
            },
            _ => Err(Error::ParseError(String::from_str("expected a map"))),
        }
    }
}

impl<T: FromJson> PageSeed<T> {
    /// Decodes a whole document as a success payload, exactly as
    /// [`page_decode_spec`] says.
    pub fn decode(&self, doc: &Json) -> (r: Result<Page<T>, Error>)
        ensures
            ({
                let s = page_decode_spec::<T>(*doc, self.root@, self.content.content@);
                match r {
                    Ok(p) => s is Ok && p.attr == s->Ok_0.0 && views_of(p.items@) =~= s->Ok_0.1,
                    Err(e) => s is Err && (e matches Error::ParseError(m) && m@ == s->Err_0),
                }
            }),
    {
        match doc {
            Json::Obj(entries) => match crate::json::obj_get(entries, &self.root) {
                None => Err(Error::ParseError(String::from_str("missing root"))),
                Some(inner) => self.content.decode(inner),
            },
            _ => Err(Error::ParseError(String::from_str("expected a map"))),
        }
    }
}

/// The entries of the object under the root key of `doc`.
pub open spec fn root_entries_of(doc: Json, root: Seq<char>) -> Seq<(String, Json)> {
    obj_lookup(doc->Obj_0@, root)->Some_0->Obj_0@
}

/// The `@attr` block inside the root object of `doc`.
pub open spec fn attr_block_of(doc: Json, root: Seq<char>) -> Json {
    obj_lookup(root_entries_of(doc, root), "@attr"@)->Some_0
}

/// The content array inside the root object of `doc`.
pub open spec fn content_array_of(doc: Json, root: Seq<char>, content: Seq<char>) -> Seq<Json> {
    obj_lookup(root_entries_of(doc, root), content)->Some_0->Arr_0@
}

/// A valid success payload for the given key names: the root key holds an
/// object whose `@attr` block decodes as attributes and whose content key
/// holds an array in which every element decodes as a `T`.
pub open spec fn is_success_payload<T: FromJson>(doc: Json, root: Seq<char>, content: Seq<char>) -> bool {
    &&& doc is Obj
    &&& obj_lookup(doc->Obj_0@, root) matches Some(inner) && inner is Obj
    &&& obj_lookup(root_entries_of(doc, root), "@attr"@) is Some
    &&& Attributes::from_json_spec(attr_block_of(doc, root)) is Some
    &&& obj_lookup(root_entries_of(doc, root), content) matches Some(cv) && cv is Arr
    &&& forall|j: int| 0 <= j < content_array_of(doc, root, content).len()
        ==> T::from_json_spec(#[trigger] content_array_of(doc, root, content)[j]) is Some
}

/// Every valid success payload decodes: the attributes are the `@attr`
/// block's numeric fields, and the items are the decodes of the content
/// array's elements, one for one and in order.
pub proof fn lemma_success_payload_decodes<T: FromJson>(doc: Json, root: Seq<char>, content: Seq<char>)
    requires
        is_success_payload::<T>(doc, root, content),
    ensures
        page_decode_spec::<T>(doc, root, content) is Ok,
        page_decode_spec::<T>(doc, root, content)->Ok_0.0 == Attributes::from_json_spec(
            attr_block_of(doc, root),
        )->Some_0,
        page_decode_spec::<T>(doc, root, content)->Ok_0.1.len() == content_array_of(
            doc,
            root,
            content,
        ).len(),
        forall|j: int| 0 <= j < content_array_of(doc, root, content).len()
            ==> page_decode_spec::<T>(doc, root, content)->Ok_0.1[j] == T::from_json_spec(
            #[trigger] content_array_of(doc, root, content)[j],
        )->Some_0,
{
    crate::json::lemma_decode_items_all::<T>(content_array_of(doc, root, content));
}

/// A success-shaped document that lacks the requested root key does not
/// decode: it fails with the missing-root diagnostic, whatever else it
/// holds.
pub proof fn lemma_missing_root<T: FromJson>(doc: Json, root: Seq<char>, content: Seq<char>)
    requires
        doc is Obj,
        obj_lookup(doc->Obj_0@, root) is None,
    ensures
        page_decode_spec::<T>(doc, root, content) == Err::<(Attributes, Seq<T::V>), Seq<char>>(
            "missing root"@,
        ),
{
}

} // verus!
