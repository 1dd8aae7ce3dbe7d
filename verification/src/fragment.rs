//! The document that responses are emitted as: a list of responses by
//! status, each with its description, the content of its body and its
//! headers.

use vstd::prelude::*;
use vstd::string::StringExecFns;
use crate::decimal::decimal_string;
use crate::decimal::decimal_text;
use crate::error::ParseError;
use crate::error::ParseErrorView;
use crate::header::Header;
use crate::header::HeaderView;
use crate::resolver::class_of;
use crate::resolver::TypeClass;
use crate::resolver::TypeResolver;
use crate::response::response_views;
use crate::response::spec_parse_response;
use crate::response::Response;
use crate::response::ResponseView;
use crate::token::text_view;
use crate::token::views;
use crate::token::Token;
use crate::token::TokenView;
use crate::type_ref::TypeReference;
use crate::type_ref::TypeReferenceView;

verus! {

/// The content type of a primitive body for which the entry asks for none.
pub const TEXT_PLAIN: &'static str = "text/plain";

/// The content type of a composite body for which the entry asks for none.
pub const APPLICATION_JSON: &'static str = "application/json";

/// A type in the document: its name, whether it is an array of that type,
/// and the class that the resolver gave the name.
#[derive(Clone, Debug, PartialEq, Eq)]
pub struct Schema {
    pub name: String,
    pub is_array: bool,
    pub class: TypeClass,
}

/// The mathematical value of a [`Schema`].
pub struct SchemaView {
    pub name: Seq<char>,
    pub is_array: bool,
    pub class: TypeClass,
}

impl View for Schema {
    type V = SchemaView;

    open spec fn view(&self) -> SchemaView {
        SchemaView { name: self.name@, is_array: self.is_array, class: self.class }
    }
}

/// The body of a response in the document: its content type and its type.
#[derive(Clone, Debug, PartialEq, Eq)]
pub struct Content {
    pub content_type: String,
    pub schema: Schema,
}

/// The mathematical value of a [`Content`].
pub struct ContentView {
    pub content_type: Seq<char>,
    pub schema: SchemaView,
}

impl View for Content {
    type V = ContentView;

    open spec fn view(&self) -> ContentView {
        ContentView { content_type: self.content_type@, schema: self.schema@ }
    }
}

/// A header in the document, under its name.
#[derive(Clone, Debug, PartialEq, Eq)]
pub struct HeaderFragment {
    pub name: String,
    /// The type of the header's value; `None` for the default, a plain
    /// string.
    pub schema: Option<Schema>,
    pub description: Option<String>,
}

/// The mathematical value of a [`HeaderFragment`].
pub struct HeaderFragmentView {
    pub name: Seq<char>,
    pub schema: Option<SchemaView>,
    pub description: Option<Seq<char>>,
}

impl View for HeaderFragment {
    type V = HeaderFragmentView;

    open spec fn view(&self) -> HeaderFragmentView {
        HeaderFragmentView {
            name: self.name@,
            schema: match self.schema {
                Some(schema) => Some(schema@),
                None => None,
            },
            description: text_view(self.description),
        }
    }
}

/// A response in the document, under its status.
#[derive(Clone, Debug, PartialEq, Eq)]
pub struct ResponseFragment {
    /// The status code in base ten: the key of the response.
    pub status: String,
    pub description: String,
    /// The body; `None` for a response without one.
    pub content: Option<Content>,
    /// The headers, in the order of the entry.
    pub headers: Vec<HeaderFragment>,
}

/// The mathematical value of a [`ResponseFragment`].
pub struct ResponseFragmentView {
    pub status: Seq<char>,
    pub description: Seq<char>,
    pub content: Option<ContentView>,
    pub headers: Seq<HeaderFragmentView>,
}

impl View for ResponseFragment {
    type V = ResponseFragmentView;

    open spec fn view(&self) -> ResponseFragmentView {
        ResponseFragmentView {
            status: self.status@,
            description: self.description@,
            content: match self.content {
                Some(content) => Some(content@),
                None => None,
            },
            headers: self.headers@.map_values(|h: HeaderFragment| h@),
        }
    }
}

/// The document: the responses of one operation, in the order of their
/// entries.
#[derive(Clone, Debug, PartialEq, Eq)]
pub struct ResponsesFragment {
    pub responses: Vec<ResponseFragment>,
}

impl View for ResponsesFragment {
    type V = Seq<ResponseFragmentView>;

    open spec fn view(&self) -> Seq<ResponseFragmentView> {
        self.responses@.map_values(|r: ResponseFragment| r@)
    }
}

/// The type `t` in the document, where `primitives` are the primitive
/// types.
pub open spec fn spec_schema(t: TypeReferenceView, primitives: Set<Seq<char>>) -> SchemaView {
    SchemaView { name: t.name, is_array: t.is_array, class: class_of(primitives, t.name) }
}

/// The content type of a body of class `class`: the one that the entry asks
/// for, if any; else `text/plain` for a primitive type and
/// `application/json` for a composite one.
pub open spec fn spec_content_type(explicit: Option<Seq<char>>, class: TypeClass) -> Seq<char> {
    match explicit {
        Some(content_type) => content_type,
        None => match class {
            TypeClass::Primitive => TEXT_PLAIN@,
            TypeClass::Composite => APPLICATION_JSON@,
        },
    }
}

/// The body of `response` in the document.
pub open spec fn spec_content(response: ResponseView, primitives: Set<Seq<char>>) -> Option<
    ContentView,
> {
    match response.body {
        Some(t) => Some(
            ContentView {
                content_type: spec_content_type(
                    response.content_type,
                    class_of(primitives, t.name),
                ),
                schema: spec_schema(t, primitives),
            },
        ),
        None => None,
    }
}

/// The header `header` in the document.
pub open spec fn spec_header_fragment(
    header: HeaderView,
    primitives: Set<Seq<char>>,
) -> HeaderFragmentView {
    HeaderFragmentView {
        name: header.name,
        schema: match header.value_type {
            Some(t) => Some(spec_schema(t, primitives)),
            None => None,
        },
        description: header.description,
    }
}

/// The response `response` in the document.
pub open spec fn spec_response_fragment(
    response: ResponseView,
    primitives: Set<Seq<char>>,
) -> ResponseFragmentView {
    ResponseFragmentView {
        status: decimal_text(response.status_code),
        description: response.description,
        content: spec_content(response, primitives),
        headers: response.headers.map_values(
            |h: HeaderView| spec_header_fragment(h, primitives),
        ),
    }
}

/// The document for `responses`: one fragment for each, in their order.
pub open spec fn spec_responses_fragment(
    responses: Seq<ResponseView>,
    primitives: Set<Seq<char>>,
) -> Seq<ResponseFragmentView> {
    responses.map_values(|r: ResponseView| spec_response_fragment(r, primitives))
}

/// The responses of one operation, to be emitted together.
#[derive(Clone, Copy, Debug)]
pub struct Responses<'a>(pub &'a [Response]);

impl Schema {
    /// The type `t` in the document.
    pub fn new(t: &TypeReference, resolver: &TypeResolver) -> (schema: Schema)
        ensures
            schema@ == spec_schema(t@, resolver@),
    {
        Schema {
            name: t.name.clone(),
            is_array: t.is_array,
            class: resolver.classify(t.name.as_str()),
        }
    }
}

/// The content type of a body of class `class` for which the entry asks for
/// `explicit`.
pub fn content_type_for(explicit: &Option<String>, class: TypeClass) -> (content_type: String)
    ensures
        content_type@ == spec_content_type(text_view(*explicit), class),
{
    match explicit {
        Some(content_type) => content_type.clone(),
        None => match class {
            TypeClass::Primitive => String::from_str(TEXT_PLAIN),
            TypeClass::Composite => String::from_str(APPLICATION_JSON),
        },
    }
}

/// The header `header` in the document: with its own type or, without one,
/// with the default; with its description, if it has one.
pub fn new_header_fragment(header: &Header, resolver: &TypeResolver) -> (fragment: HeaderFragment)
    ensures
        fragment@ == spec_header_fragment(header@, resolver@),
{
    let schema = match &header.value_type {
        Some(t) => Some(Schema::new(t, resolver)),
        None => None,
    };
    let description = match &header.description {
        Some(description) => Some(description.clone()),
        None => None,
    };
    HeaderFragment { name: header.name.clone(), schema, description }
}

impl Response {
    /// This response in the document.
    pub fn to_fragment(&self, resolver: &TypeResolver) -> (fragment: ResponseFragment)
        ensures
            fragment@ == spec_response_fragment(self@, resolver@),
    {
        let content = match &self.body {
            Some(t) => {
                let schema = Schema::new(t, resolver);
                let content_type = content_type_for(&self.content_type, schema.class);
                Some(Content { content_type, schema })
            },
            None => None,
        };
        let mut headers: Vec<HeaderFragment> = Vec::new();
        let mut i: usize = 0;
        while i < self.headers.len()
            invariant
                i <= self.headers.len(),
                headers@.len() == i,
                forall|j: int|
                    0 <= j < i ==> (#[trigger] headers@[j])@ == spec_header_fragment(
                        self.headers@[j]@,
                        resolver@,
                    ),
            decreases self.headers.len() - i,
        {
            let fragment = new_header_fragment(&self.headers[i], resolver);
            headers.push(fragment);
            i += 1;
        }
        assert(headers@.map_values(|h: HeaderFragment| h@) =~= self@.headers.map_values(
            |h: HeaderView| spec_header_fragment(h, resolver@),
        ));
        ResponseFragment {
            status: decimal_string(self.status_code),
            description: self.description.clone(),
            content,
            headers,
        }
    }
}

impl<'a> Responses<'a> {
    /// The document for these responses: for each, in order, its status in
    /// base ten as the key, its description, the content of its body and its
    /// headers in their order.
    pub fn to_fragment(&self, resolver: &TypeResolver) -> (fragment: ResponsesFragment)
        ensures
            fragment@ == spec_responses_fragment(response_views(self.0@), resolver@),
    {
        let mut responses: Vec<ResponseFragment> = Vec::new();
        let mut i: usize = 0;
        while i < self.0.len()
            invariant
                i <= self.0.len(),
                responses@.len() == i,
                forall|j: int|
                    0 <= j < i ==> (#[trigger] responses@[j])@ == spec_response_fragment(
                        self.0@[j]@,
                        resolver@,
                    ),
            decreases self.0.len() - i,
        {
            let fragment = self.0[i].to_fragment(resolver);
            responses.push(fragment);
            i += 1;
        }
        assert(responses@.map_values(|r: ResponseFragment| r@) =~= spec_responses_fragment(
            response_views(self.0@),
            resolver@,
        ));
        ResponsesFragment { responses }
    }
}

/// What parsing an entry and then emitting its response comes to: the
/// fragment of the response, or the error of the entry.
pub open spec fn spec_entry_fragment(ts: Seq<TokenView>, primitives: Set<Seq<char>>) -> Result<
    ResponseFragmentView,
    ParseErrorView,
> {
    match spec_parse_response(ts) {
        Ok(response) => Ok(spec_response_fragment(response, primitives)),
        Err(e) => Err(e),
    }
}

/// Parses `tokens` as one response and emits it. The outcome depends on the
/// tokens and on the primitive types alone.
pub fn entry_fragment(tokens: &[Token], resolver: &TypeResolver) -> (r: Result<
    ResponseFragment,
    ParseError,
>)
    ensures
        match r {
            Ok(fragment) => spec_entry_fragment(views(tokens@), resolver@) == Ok::<
                ResponseFragmentView,
                ParseErrorView,
            >(fragment@),
            Err(e) => spec_entry_fragment(views(tokens@), resolver@) == Err::<
                ResponseFragmentView,
                ParseErrorView,
            >(e@),
        },
{
    match Response::parse(tokens) {
        Ok(response) => Ok(response.to_fragment(resolver)),
        Err(e) => Err(e),
    }
}

} // verus!
