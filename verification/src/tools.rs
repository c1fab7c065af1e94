//! The agents' tools: web search, the knowledge base, file reading, and the
//! registry that finds a tool by name.
use vstd::prelude::*;

use crate::evidence::{Evidence, SourceAuthority};
use crate::text::{chars_of, concat2, concat3, contains_chars, has_substring, lowercase_of, to_lowercase};

verus! {

/// Why a tool could not run.
pub enum ToolError {
    Failed(String),
}

/// The name a tool is registered under.
pub open spec fn web_search_name() -> Seq<char> {
    "web_search"@
}

/// The name a tool is registered under.
pub open spec fn knowledge_base_name() -> Seq<char> {
    "knowledge_base"@
}

/// The name a tool is registered under.
pub open spec fn read_file_name() -> Seq<char> {
    "read_file"@
}

// ---------------------------------------------------------------------------
// Web search
// ---------------------------------------------------------------------------

/// Searches the web for high-authority sources on a topic (a fixed pair of
/// sources here).
pub struct WebSearchTool;

/// The topic searched when none is given.
pub open spec fn default_search_topic() -> Seq<char> {
    "operational intelligence"@
}

impl WebSearchTool {
    /// The sources found for `query` (or for the default topic): an
    /// industry-trends source of high authority that mentions the query,
    /// and a primary ROI source.
    pub fn search(&self, query: Option<&str>) -> (res: Vec<Evidence>)
        ensures
            ({
                let q = match query {
                    Some(q) => q@,
                    None => default_search_topic(),
                };
                &&& res@.len() == 2
                &&& res@[0].source_uri@ == "https://example.com/oi-trends-2026"@
                &&& res@[0].source_title@ == "Operational Intelligence Trends 2026"@
                &&& res@[0].authority == SourceAuthority::High
                &&& res@[0].content@ == "Latest trends on "@ + q
                    + ": real-time BI, agentic analytics, evidence-traced AI."@
                &&& res@[0].span is None
                &&& res@[1].source_uri@ == "https://example.com/enterprise-ai-roi"@
                &&& res@[1].source_title@ == "Enterprise AI ROI Framework"@
                &&& res@[1].authority == SourceAuthority::Primary
                &&& res@[1].content@
                    == "Organizations linking live data models to strategic initiatives see 23% faster decision cycles."@
                &&& res@[1].span is None
            }),
    {
        let q = match query {
            Some(q) => q,
            None => "operational intelligence",
        };
        let mut res: Vec<Evidence> = Vec::new();
        res.push(
            Evidence::new(
                String::from_str("https://example.com/oi-trends-2026"),
                String::from_str("Operational Intelligence Trends 2026"),
                SourceAuthority::High,
                concat3(
                    "Latest trends on ",
                    q,
                    ": real-time BI, agentic analytics, evidence-traced AI.",
                ),
            ),
        );
        res.push(
            Evidence::new(
                String::from_str("https://example.com/enterprise-ai-roi"),
                String::from_str("Enterprise AI ROI Framework"),
                SourceAuthority::Primary,
                String::from_str(
                    "Organizations linking live data models to strategic initiatives see 23% faster decision cycles.",
                ),
            ),
        );
        res
    }
}

// ---------------------------------------------------------------------------
// Knowledge base
// ---------------------------------------------------------------------------

/// Retrieval over named documents: brand voice and domain knowledge.
pub struct KnowledgeBaseTool {
    documents: Vec<(String, String)>,
}

/// A document as a pair of name and content.
pub open spec fn doc_view(d: (String, String)) -> (Seq<char>, Seq<char>) {
    (d.0@, d.1@)
}

/// The documents the knowledge base holds when it is given none.
pub open spec fn default_documents() -> Seq<(Seq<char>, Seq<char>)> {
    seq![
        ("brand_voice.md"@, "Tone: precise, evidence-first, no hype. Always cite sources. Avoid speculative claims."@),
        ("hiring_rubric.md"@, "Assess: evidence vs impression, depth vs fluency, pattern consistency across answers."@),
    ]
}

/// A document matches a lower-cased query when its lower-cased name or
/// content contains it; every document matches the empty query.
pub open spec fn doc_matches(q: Seq<char>) -> spec_fn((Seq<char>, Seq<char>)) -> bool {
    |d: (Seq<char>, Seq<char>)|
        has_substring(lowercase_of(d.0), q) || has_substring(lowercase_of(d.1), q) || q.len() == 0
}

/// Whether a document matches a query, all three already lower-cased: the
/// name or the content contains the query, or the query is empty.
pub fn document_matches(name: &str, content: &str, query: &str) -> (b: bool)
    ensures
        b == (has_substring(name@, query@) || has_substring(content@, query@) || query@.len() == 0),
{
    let q = chars_of(query);
    contains_chars(&chars_of(name), &q) || contains_chars(&chars_of(content), &q) || q.len() == 0
}

/// The hit for a document: primary evidence at `kb://<name>`, titled by the
/// name, holding the content.
pub open spec fn is_hit_for(e: Evidence, d: (Seq<char>, Seq<char>)) -> bool {
    &&& e.source_uri@ == "kb://"@ + d.0
    &&& e.source_title@ == d.0
    &&& e.authority == SourceAuthority::Primary
    &&& e.content@ == d.1
    &&& e.span is None
}

proof fn lemma_filter_all(
    s: Seq<(Seq<char>, Seq<char>)>,
    p: spec_fn((Seq<char>, Seq<char>)) -> bool,
)
    requires
        forall|i: int| 0 <= i < s.len() ==> p(#[trigger] s[i]),
    ensures
        s.filter(p) == s,
    decreases s.len(),
{
    reveal_with_fuel(Seq::filter, 1);
    if s.len() > 0 {
        let t = s.drop_last();
        assert forall|i: int| 0 <= i < t.len() implies p(#[trigger] t[i]) by {
            assert(t[i] == s[i]);
        }
        lemma_filter_all(t, p);
        assert(p(s[s.len() - 1]));
        assert(t.push(s.last()) =~= s);
    } else {
        assert(s =~= Seq::<(Seq<char>, Seq<char>)>::empty());
    }
}

impl View for KnowledgeBaseTool {
    type V = Seq<(Seq<char>, Seq<char>)>;

    closed spec fn view(&self) -> Seq<(Seq<char>, Seq<char>)> {
        self.documents@.map_values(|d: (String, String)| doc_view(d))
    }
}

impl KnowledgeBaseTool {
    /// The knowledge base with the brand-voice guide and the hiring rubric.
    pub fn with_defaults() -> (kb: Self)
        ensures
            kb@ == default_documents(),
    {
        let mut documents: Vec<(String, String)> = Vec::new();
        documents.push(
            (
                String::from_str("brand_voice.md"),
                String::from_str(
                    "Tone: precise, evidence-first, no hype. Always cite sources. Avoid speculative claims.",
                ),
            ),
        );
        documents.push(
            (
                String::from_str("hiring_rubric.md"),
                String::from_str(
                    "Assess: evidence vs impression, depth vs fluency, pattern consistency across answers.",
                ),
            ),
        );
        let kb = KnowledgeBaseTool { documents };
        assert(kb@ =~= default_documents());
        kb
    }

    /// A knowledge base over `documents` (name, content), or the default one
    /// when there are none.
    pub fn from_documents(documents: Vec<(String, String)>) -> (kb: Self)
        ensures
            documents@.len() == 0 ==> kb@ == default_documents(),
            documents@.len() > 0 ==> kb@ == documents@.map_values(|d: (String, String)| doc_view(d)),
    {
        if documents.len() == 0 {
            Self::with_defaults()
        } else {
            KnowledgeBaseTool { documents }
        }
    }

    /// The documents that match the lower-cased query (every document when
    /// no query is given), as evidence, in order.
    pub fn search(&self, query: Option<&str>) -> (res: Vec<Evidence>)
        ensures
            ({
                let q = match query {
                    Some(q) => lowercase_of(q@),
                    None => lowercase_of(Seq::empty()),
                };
                let hits = self@.filter(doc_matches(q));
                &&& res@.len() == hits.len()
                &&& forall|i: int| 0 <= i < hits.len() ==> is_hit_for(#[trigger] res@[i], hits[i])
            }),
            (query is None || query->0@.len() == 0) ==> res@.len() == self@.len() && forall|i: int|
                0 <= i < self@.len() ==> is_hit_for(#[trigger] res@[i], self@[i]),
    {
        let raw = match query {
            Some(q) => q,
            None => "",
        };
        let q_s = to_lowercase(raw);
        let q = chars_of(q_s.as_str());
        let ghost docs = self@;
        let mut res: Vec<Evidence> = Vec::new();
        let mut i: usize = 0;
        proof {
            assert(docs.take(0) =~= Seq::<(Seq<char>, Seq<char>)>::empty());
            reveal_with_fuel(Seq::filter, 1);
        }
        while i < self.documents.len()
            invariant
                i <= self.documents@.len(),
                docs == self@,
                docs.len() == self.documents@.len(),
                q@ == lowercase_of(raw@),
                q_s@ == q@,
                res@.len() == docs.take(i as int).filter(doc_matches(q@)).len(),
                forall|k: int|
                    0 <= k < res@.len() ==> is_hit_for(
                        #[trigger] res@[k],
                        docs.take(i as int).filter(doc_matches(q@))[k],
                    ),
            decreases self.documents@.len() - i,
        {
            let (name, content) = &self.documents[i];
            let ghost d = doc_view(self.documents@[i as int]);
            proof {
                assert(docs[i as int] == d);
                assert(docs.take(i + 1) =~= docs.take(i as int).push(d));
                assert(docs.take(i + 1).drop_last() =~= docs.take(i as int));
                reveal_with_fuel(Seq::filter, 1);
            }
            let name_low = to_lowercase(name.as_str());
            let content_low = to_lowercase(content.as_str());
            let matches = document_matches(name_low.as_str(), content_low.as_str(), q_s.as_str());
            assert(d.0 == name@ && d.1 == content@);
            assert(matches == doc_matches(q@)(d));
            if matches {
                let uri = concat2("kb://", name.as_str());
                res.push(Evidence::new(uri, name.clone(), SourceAuthority::Primary, content.clone()));
            }
            i += 1;
        }
        proof {
            assert(docs.take(self.documents@.len() as int) =~= docs);
            if q@.len() == 0 {
                lemma_filter_all(docs, doc_matches(q@));
            }
            assert(raw@ == match query {
                Some(q) => q@,
                None => Seq::<char>::empty(),
            }) by {
                if query is None {
                    reveal_strlit("");
                }
            }
        }
        res
    }
}

// ---------------------------------------------------------------------------
// Files
// ---------------------------------------------------------------------------

/// Reads a local file for agent context (the reading itself is I/O and
/// happens outside the library).
pub struct FileTool;

impl FileTool {
    /// The error for a request without a path.
    pub fn missing_path() -> (e: ToolError)
        ensures
            e matches ToolError::Failed(m) && m@ == "missing path"@,
    {
        ToolError::Failed(String::from_str("missing path"))
    }
}

// ---------------------------------------------------------------------------
// Registry
// ---------------------------------------------------------------------------

/// A registered tool.
pub enum RegisteredTool {
    WebSearch(WebSearchTool),
    KnowledgeBase(KnowledgeBaseTool),
    File(FileTool),
}

/// The name a tool is registered under.
pub open spec fn registered_name(t: RegisteredTool) -> Seq<char> {
    match t {
        RegisteredTool::WebSearch(_) => web_search_name(),
        RegisteredTool::KnowledgeBase(_) => knowledge_base_name(),
        RegisteredTool::File(_) => read_file_name(),
    }
}

impl RegisteredTool {
    /// The name the tool is registered under.
    pub fn name(&self) -> (s: &'static str)
        ensures
            s@ == registered_name(*self),
    {
        match self {
            RegisteredTool::WebSearch(_) => "web_search",
            RegisteredTool::KnowledgeBase(_) => "knowledge_base",
            RegisteredTool::File(_) => "read_file",
        }
    }
}

/// What a tool does, as its descriptor tells a model.
pub open spec fn registered_description(t: RegisteredTool) -> Seq<char> {
    match t {
        RegisteredTool::WebSearch(_) => "Search the web for high-authority sources on a topic"@,
        RegisteredTool::KnowledgeBase(_) => "RAG retrieval against brand voice and domain knowledge"@,
        RegisteredTool::File(_) => "Read a local file for agent context"@,
    }
}

impl RegisteredTool {
    /// What the tool does, as its descriptor tells a model.
    pub fn description(&self) -> (s: &'static str)
        ensures
            s@ == registered_description(*self),
    {
        match self {
            RegisteredTool::WebSearch(_) => "Search the web for high-authority sources on a topic",
            RegisteredTool::KnowledgeBase(_) => "RAG retrieval against brand voice and domain knowledge",
            RegisteredTool::File(_) => "Read a local file for agent context",
        }
    }
}

// ---------------------------------------------------------------------------
// Descriptors: what a model is told about each tool
// ---------------------------------------------------------------------------

/// The JSON Schema of a tool's input, an object: its properties with their
/// JSON types, in order, and the names of the required ones.
pub struct InputSchema {
    pub properties: Vec<(String, String)>,
    pub required: Vec<String>,
}

/// The views of a list of (property, type) pairs.
pub open spec fn pairs_view(v: Seq<(String, String)>) -> Seq<(Seq<char>, Seq<char>)> {
    v.map_values(|p: (String, String)| (p.0@, p.1@))
}

/// The views of a list of strings.
pub open spec fn names_view(v: Seq<String>) -> Seq<Seq<char>> {
    v.map_values(|s: String| s@)
}

/// The properties of the input of the tool named `name`: a string `query`
/// and an integer `max_results` for web search, a string `query` for the
/// knowledge base, a string `path` for file reading.
pub open spec fn schema_properties(name: Seq<char>) -> Seq<(Seq<char>, Seq<char>)> {
    if name == web_search_name() {
        seq![("query"@, "string"@), ("max_results"@, "integer"@)]
    } else if name == knowledge_base_name() {
        seq![("query"@, "string"@)]
    } else if name == read_file_name() {
        seq![("path"@, "string"@)]
    } else {
        Seq::empty()
    }
}

/// The required properties of the input of the tool named `name`: `query`
/// for web search and the knowledge base, `path` for file reading.
pub open spec fn schema_required(name: Seq<char>) -> Seq<Seq<char>> {
    if name == web_search_name() || name == knowledge_base_name() {
        seq!["query"@]
    } else if name == read_file_name() {
        seq!["path"@]
    } else {
        Seq::empty()
    }
}

/// What a model is told about a tool: its name, what it does, and the
/// schema of its input.
pub struct ToolDescriptor {
    pub name: String,
    pub description: String,
    pub input_schema: InputSchema,
}

/// `d` describes the tool `t`.
pub open spec fn describes(d: ToolDescriptor, t: RegisteredTool) -> bool {
    &&& d.name@ == registered_name(t)
    &&& d.description@ == registered_description(t)
    &&& pairs_view(d.input_schema.properties@) == schema_properties(registered_name(t))
    &&& names_view(d.input_schema.required@) == schema_required(registered_name(t))
}

fn property(name: &str, kind: &str) -> (p: (String, String))
    ensures
        p.0@ == name@,
        p.1@ == kind@,
{
    (String::from_str(name), String::from_str(kind))
}

impl RegisteredTool {
    /// The schema of the tool's input.
    pub fn input_schema(&self) -> (s: InputSchema)
        ensures
            pairs_view(s.properties@) == schema_properties(registered_name(*self)),
            names_view(s.required@) == schema_required(registered_name(*self)),
    {
        proof {
            reveal_strlit("web_search");
            reveal_strlit("knowledge_base");
            reveal_strlit("read_file");
            assert(web_search_name().len() == 10);
            assert(knowledge_base_name().len() == 14);
            assert(read_file_name().len() == 9);
        }
        let mut properties: Vec<(String, String)> = Vec::new();
        let mut required: Vec<String> = Vec::new();
        match self {
            RegisteredTool::WebSearch(_) => {
                properties.push(property("query", "string"));
                properties.push(property("max_results", "integer"));
                required.push(String::from_str("query"));
                assert(pairs_view(properties@) =~= seq![("query"@, "string"@), ("max_results"@, "integer"@)]);
                assert(names_view(required@) =~= seq!["query"@]);
            },
            RegisteredTool::KnowledgeBase(_) => {
                properties.push(property("query", "string"));
                required.push(String::from_str("query"));
                assert(pairs_view(properties@) =~= seq![("query"@, "string"@)]);
                assert(names_view(required@) =~= seq!["query"@]);
            },
            RegisteredTool::File(_) => {
                properties.push(property("path", "string"));
                required.push(String::from_str("path"));
                assert(pairs_view(properties@) =~= seq![("path"@, "string"@)]);
                assert(names_view(required@) =~= seq!["path"@]);
            },
        }
        InputSchema { properties, required }
    }

    /// The tool's descriptor.
    pub fn descriptor(&self) -> (d: ToolDescriptor)
        ensures
            describes(d, *self),
    {
        ToolDescriptor {
            name: String::from_str(self.name()),
            description: String::from_str(self.description()),
            input_schema: self.input_schema(),
        }
    }
}

impl KnowledgeBaseTool {
    /// The knowledge base's descriptor.
    pub fn descriptor(&self) -> (d: ToolDescriptor)
        ensures
            describes(d, RegisteredTool::KnowledgeBase(*self)),
    {
        let t = RegisteredTool::KnowledgeBase(KnowledgeBaseTool { documents: Vec::new() });
        t.descriptor()
    }
}

/// The tools the agents can call, found by name.
pub struct ToolRegistry {
    tools: Vec<RegisteredTool>,
}

impl View for ToolRegistry {
    type V = Seq<Seq<char>>;

    /// The names of the registered tools, in order.
    closed spec fn view(&self) -> Seq<Seq<char>> {
        self.tools@.map_values(|t: RegisteredTool| registered_name(t))
    }
}

/// The message of the error for a name that no tool has.
pub open spec fn unknown_tool_message(name: Seq<char>) -> Seq<char> {
    "unknown tool: "@ + name
}

impl ToolRegistry {
    /// The registered tools, in order.
    pub closed spec fn registered(&self) -> Seq<RegisteredTool> {
        self.tools@
    }

    /// The names of the crew's tools.
    pub open spec fn default_crew_view() -> Seq<Seq<char>> {
        seq![web_search_name(), knowledge_base_name(), read_file_name()]
    }

    /// Web search, the default knowledge base, and file reading.
    pub fn default_crew() -> (r: Self)
        ensures
            r@ == Self::default_crew_view(),
            r.registered().len() == 3,
            r.registered()[0] is WebSearch,
            r.registered()[1] matches RegisteredTool::KnowledgeBase(kb) && kb@ == default_documents(),
            r.registered()[2] is File,
    {
        let mut tools: Vec<RegisteredTool> = Vec::new();
        tools.push(RegisteredTool::WebSearch(WebSearchTool));
        tools.push(RegisteredTool::KnowledgeBase(KnowledgeBaseTool::with_defaults()));
        tools.push(RegisteredTool::File(FileTool));
        let r = ToolRegistry { tools };
        assert(r@ =~= Self::default_crew_view());
        r
    }

    /// The registered tools, in order.
    pub fn tools(&self) -> (res: &Vec<RegisteredTool>)
        ensures
            res@ == self.registered(),
            res@.map_values(|t: RegisteredTool| registered_name(t)) == self@,
    {
        &self.tools
    }

    /// The names of the registered tools, in order.
    pub fn names(&self) -> (res: Vec<&'static str>)
        ensures
            res@.map_values(|s: &str| s@) == self@,
    {
        let mut res: Vec<&'static str> = Vec::new();
        let mut i: usize = 0;
        while i < self.tools.len()
            invariant
                i <= self.tools@.len(),
                res@.len() == i,
                forall|k: int|
                    0 <= k < i ==> #[trigger] res@[k]@ == registered_name(self.tools@[k]),
            decreases self.tools@.len() - i,
        {
            res.push(self.tools[i].name());
            i += 1;
        }
        assert(res@.map_values(|s: &str| s@) =~= self@);
        res
    }

    /// One descriptor per registered tool, in order.
    pub fn descriptors(&self) -> (res: Vec<ToolDescriptor>)
        ensures
            res@.len() == self.registered().len(),
            forall|i: int| 0 <= i < res@.len() ==> describes(#[trigger] res@[i], self.registered()[i]),
            forall|i: int| 0 <= i < res@.len() ==> #[trigger] res@[i].name@ == self@[i],
    {
        let mut res: Vec<ToolDescriptor> = Vec::new();
        let mut i: usize = 0;
        while i < self.tools.len()
            invariant
                i <= self.tools@.len(),
                res@.len() == i,
                forall|k: int| 0 <= k < i ==> describes(#[trigger] res@[k], self.tools@[k]),
            decreases self.tools@.len() - i,
        {
            res.push(self.tools[i].descriptor());
            i += 1;
        }
        assert forall|k: int| 0 <= k < res@.len() implies #[trigger] res@[k].name@ == self@[k] by {
            assert(describes(res@[k], self.tools@[k]));
        }
        res
    }

    /// The first tool registered under `name`, or the error naming the
    /// unknown tool.
    pub fn resolve(&self, name: &str) -> (res: Result<&RegisteredTool, ToolError>)
        ensures
            match res {
                Ok(t) => exists|i: int|
                    0 <= i < self@.len() && self@[i] == name@ && *t == self.registered()[i]
                        && registered_name(*t) == name@
                        && forall|j: int| 0 <= j < i ==> self@[j] != name@,
                Err(ToolError::Failed(m)) => m@ == unknown_tool_message(name@) && forall|i: int|
                    0 <= i < self@.len() ==> self@[i] != name@,
            },
    {
        let mut i: usize = 0;
        while i < self.tools.len()
            invariant
                i <= self.tools@.len(),
                forall|j: int| 0 <= j < i ==> self@[j] != name@,
            decreases self.tools@.len() - i,
        {
            let t = &self.tools[i];
            let n = t.name();
            let same = crate::text::str_eq(n, name);
            if same {
                assert(self@[i as int] == registered_name(*t));
                return Ok(t);
            }
            i += 1;
        }
        Err(ToolError::Failed(concat2("unknown tool: ", name)))
    }
}

} // verus!
