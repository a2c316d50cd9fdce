//! How the search tool presents itself.

use crate::json::{
    lemma_array_tree, lemma_object_tree, the_first_member_counts, Json, JsonView,
};
use crate::search::AgenticSearchServer;
use vstd::prelude::*;

verus! {

/// The texts that the search tool is described with, once they are set.
#[derive(Debug, Clone, PartialEq, Eq)]
pub struct ToolTexts {
    pub description: Option<String>,
    pub param_description: Option<String>,
}

/// The mathematical model of a `ToolTexts`.
pub struct ToolTextsView {
    pub description: Option<Seq<char>>,
    pub param_description: Option<Seq<char>>,
}

impl View for ToolTexts {
    type V = ToolTextsView;

    open spec fn view(&self) -> ToolTextsView {
        ToolTextsView {
            description: self.description.deep_view(),
            param_description: self.param_description.deep_view(),
        }
    }
}

impl ToolTexts {
    /// No text is set yet.
    pub fn new() -> (r: ToolTexts)
        ensures
            r@ == (ToolTextsView { description: None, param_description: None }),
    {
        ToolTexts { description: None, param_description: None }
    }
}

/// What a text that is set once is after an attempt to set it.
pub open spec fn set_once(current: Option<Seq<char>>, text: Seq<char>) -> Option<Seq<char>> {
    match current {
        Some(first) => Some(first),
        None => Some(text),
    }
}

/// Sets the description of the search tool, unless it is set already.
pub fn set_search_tool_description(texts: &mut ToolTexts, description: String)
    ensures
        final(texts)@ == (ToolTextsView {
            description: set_once(old(texts)@.description, description@),
            ..old(texts)@
        }),
{
    if texts.description.is_none() {
        texts.description = Some(description);
    }
}

/// Sets the description of the search tool's parameter, unless it is set already.
pub fn set_search_tool_param_description(texts: &mut ToolTexts, description: String)
    ensures
        final(texts)@ == (ToolTextsView {
            param_description: set_once(old(texts)@.param_description, description@),
            ..old(texts)@
        }),
{
    if texts.param_description.is_none() {
        texts.param_description = Some(description);
    }
}

/// A tool as its callers see it.
#[derive(Debug, PartialEq, Eq)]
pub struct ToolAttr {
    pub name: String,
    pub description: String,
    /// The JSON schema of the parameters.
    pub input_schema: Json,
}

/// The mathematical model of a `ToolAttr`.
pub struct ToolAttrView {
    pub name: Seq<char>,
    pub description: Seq<char>,
    pub input_schema: JsonView,
}

impl View for ToolAttr {
    type V = ToolAttrView;

    open spec fn view(&self) -> ToolAttrView {
        ToolAttrView {
            name: self.name@,
            description: self.description@,
            input_schema: self.input_schema@,
        }
    }
}

/// The text where it is set, else the default.
pub open spec fn text_or(text: Option<Seq<char>>, default_text: Seq<char>) -> Seq<char> {
    match text {
        Some(set) => set,
        None => default_text,
    }
}

/// The schema of the search tool's parameters: one text, the query.
pub open spec fn search_schema(query_description: Seq<char>) -> JsonView {
    JsonView::Object(
        seq![
            ("type"@, JsonView::Text("object"@)),
            (
                "properties"@,
                JsonView::Object(
                    seq![
                        (
                            "query"@,
                            JsonView::Object(
                                seq![
                                    ("type"@, JsonView::Text("string"@)),
                                    ("description"@, JsonView::Text(query_description)),
                                ],
                            ),
                        ),
                    ],
                ),
            ),
            ("required"@, JsonView::Array(seq![JsonView::Text("query"@)])),
            ("title"@, JsonView::Text("SearchRequest"@)),
        ],
    )
}

/// The search tool.
pub open spec fn search_tool(texts: ToolTextsView) -> ToolAttrView {
    ToolAttrView {
        name: "search"@,
        description: text_or(texts.description, "Perform a search for the given query"@),
        input_schema: search_schema(text_or(texts.param_description, "The query to search for"@)),
    }
}

fn choose_text(text: &Option<String>, default_text: &str) -> (r: String)
    ensures
        r@ == text_or(text.deep_view(), default_text@),
{
    match text {
        Some(set) => set.clone(),
        None => default_text.to_owned(),
    }
}

fn make_search_schema(query_description: String) -> (r: Json)
    ensures
        r@ == search_schema(query_description@),
{
    let mut query: Vec<(String, Json)> = Vec::new();
    query.push(("type".to_owned(), Json::Text("string".to_owned())));
    query.push(("description".to_owned(), Json::Text(query_description)));
    proof {
        lemma_object_tree(query);
        assert(query.deep_view() =~= seq![
            ("type"@, JsonView::Text("string"@)),
            ("description"@, JsonView::Text(query_description@)),
        ]);
    }
    let mut properties: Vec<(String, Json)> = Vec::new();
    properties.push(("query".to_owned(), Json::Object(query)));
    proof {
        lemma_object_tree(properties);
        assert(properties.deep_view() =~= seq![("query"@, Json::Object(query)@)]);
    }
    let mut required: Vec<Json> = Vec::new();
    required.push(Json::Text("query".to_owned()));
    proof {
        lemma_array_tree(required);
        assert(required.deep_view() =~= seq![JsonView::Text("query"@)]);
    }
    let mut schema: Vec<(String, Json)> = Vec::new();
    schema.push(("type".to_owned(), Json::Text("object".to_owned())));
    schema.push(("properties".to_owned(), Json::Object(properties)));
    schema.push(("required".to_owned(), Json::Array(required)));
    schema.push(("title".to_owned(), Json::Text("SearchRequest".to_owned())));
    proof {
        lemma_object_tree(schema);
        assert(schema.deep_view() =~= search_schema(query_description@)->Object_0);
    }
    Json::Object(schema)
}

impl AgenticSearchServer {
    /// The search tool with the texts that are set.
    pub fn search_tool_attr(texts: &ToolTexts) -> (r: ToolAttr)
        ensures
            r@ == search_tool(texts@),
    {
        ToolAttr {
            name: "search".to_owned(),
            description: choose_text(&texts.description, "Perform a search for the given query"),
            input_schema: make_search_schema(
                choose_text(&texts.param_description, "The query to search for"),
            ),
        }
    }
}

/// Of the descriptions that are set one after the other the tool shows the first,
/// and a default before any is set; the same holds of its parameter.
pub proof fn the_tool_shows_the_first_text(texts: ToolTextsView, first: Seq<char>, second: Seq<char>)
    requires
        texts.description is None,
        texts.param_description is None,
    ensures
        search_tool(texts).description == "Perform a search for the given query"@,
        search_tool(texts).input_schema == search_schema("The query to search for"@),
        ({
            let twice = set_once(set_once(texts.description, first), second);
            let after = ToolTextsView { description: twice, ..texts };
            search_tool(after) == (ToolAttrView { description: first, ..search_tool(texts) })
        }),
        ({
            let twice = set_once(set_once(texts.param_description, first), second);
            let after = ToolTextsView { param_description: twice, ..texts };
            search_tool(after) == (ToolAttrView {
                input_schema: search_schema(first),
                ..search_tool(texts)
            })
        }),
{
}

/// The tool is called by its name, and takes one parameter, a text that must be
/// given; its description and that of the parameter are those that are set.
pub proof fn the_tool_takes_a_query(texts: ToolTextsView)
    ensures
        search_tool(texts).name == "search"@,
        texts.description matches Some(text) ==> search_tool(texts).description == text,
        ({
            let schema = search_tool(texts).input_schema;
            &&& schema matches JsonView::Object(members) && members.len() == 4
            &&& schema.get("type"@) == Some(JsonView::Text("object"@))
            &&& schema.get("title"@) == Some(JsonView::Text("SearchRequest"@))
            &&& schema.get("required"@) == Some(JsonView::Array(seq![JsonView::Text("query"@)]))
            &&& schema.get("properties"@) matches Some(JsonView::Object(properties))
            &&& properties.len() == 1 && properties[0].0 == "query"@
            &&& properties[0].1 matches JsonView::Object(query) && query.len() == 2
            &&& properties[0].1.get("type"@) == Some(JsonView::Text("string"@))
            &&& properties[0].1.get("description"@) == Some(
                JsonView::Text(
                    match texts.param_description {
                        Some(text) => text,
                        None => "The query to search for"@,
                    },
                ),
            )
        }),
{
    reveal_strlit("type");
    reveal_strlit("properties");
    reveal_strlit("required");
    reveal_strlit("title");
    reveal_strlit("description");
    let members = search_tool(texts).input_schema->Object_0;
    assert(members[0].0.len() == 4 && members[1].0.len() == 10 && members[2].0.len() == 8);
    the_first_member_counts(members, "type"@, 0);
    the_first_member_counts(members, "properties"@, 1);
    the_first_member_counts(members, "required"@, 2);
    the_first_member_counts(members, "title"@, 3);
    let query = members[1].1->Object_0[0].1->Object_0;
    assert(query[0].0.len() == 4);
    the_first_member_counts(query, "type"@, 0);
    the_first_member_counts(query, "description"@, 1);
}

/// A text is set by the first attempt, and kept by every later one.
pub proof fn the_first_text_stays(first: Seq<char>, second: Seq<char>)
    ensures
        set_once(None, first) == Some(first),
        set_once(Some(first), second) == Some(first),
{
}

/// The models of the texts and of the tool show every text as it is.
pub proof fn the_tool_shows_its_texts(texts: ToolTexts, tool: ToolAttr)
    ensures
        match texts.description {
            Some(text) => texts@.description == Some(text@),
            None => texts@.description is None,
        },
        match texts.param_description {
            Some(text) => texts@.param_description == Some(text@),
            None => texts@.param_description is None,
        },
        tool@.name == tool.name@,
        tool@.description == tool.description@,
        tool@.input_schema == tool.input_schema@,
{
}

} // verus!
