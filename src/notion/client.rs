//! The content appended to a page for one entry, and the reading of page
//! references out of search results.
use vstd::prelude::*;
use crate::app::{has_text, PageInfo, PageView};
use crate::text::{str_eq, trim};

pub use crate::app::FaultLogEntry;

verus! {

/// A block of page content.
#[derive(Debug)]
pub enum Block {
    /// A paragraph that opens with a bold, coloured label.
    Paragraph { label: String, color: String, text: String },
    /// A code listing.
    Code { text: String, language: String },
    /// A level-3 heading, optionally folding its children away.
    Heading { text: String, color: String, toggleable: bool, children: Vec<Block> },
}

/// `b` is a paragraph with this label, label colour and text.
pub open spec fn is_paragraph(b: Block, label: Seq<char>, color: Seq<char>, text: Seq<char>) -> bool {
    b matches Block::Paragraph { label: l, color: c, text: t } && l@ == label && c@ == color && t@
        == text
}

/// `b` is a code listing with this text and language.
pub open spec fn is_code(b: Block, text: Seq<char>, language: Seq<char>) -> bool {
    b matches Block::Code { text: t, language: l } && t@ == text && l@ == language
}

/// Title of the heading that holds an entry.
pub open spec fn entry_heading_text() -> Seq<char> {
    "📋 Error Log Entry"@
}

/// A code listing is added only for code that holds more than whitespace.
pub open spec fn code_shown(code: Option<&str>) -> bool {
    code matches Some(c) && has_text(c@)
}

/// Language of the code listing: the one given, else plain text.
pub open spec fn language_or_plain(language: Option<&str>) -> Seq<char> {
    match language {
        Some(l) => l@,
        None => "plain text"@,
    }
}

impl Block {
    /// The block's type name on the wire.
    pub fn block_type(&self) -> (r: &'static str)
        ensures
            self is Paragraph ==> r@ == "paragraph"@,
            self is Code ==> r@ == "code"@,
            self is Heading ==> r@ == "heading_3"@,
    {
        match self {
            Block::Paragraph { .. } => "paragraph",
            Block::Code { .. } => "code",
            Block::Heading { .. } => "heading_3",
        }
    }

    /// The nested blocks of a heading.
    pub fn children(&self) -> (r: Option<&Vec<Block>>)
        ensures
            self is Heading <==> r is Some,
            self matches Block::Heading { children, .. } ==> *r->0 == children,
    {
        match self {
            Block::Heading { children, .. } => Some(children),
            _ => None,
        }
    }

    /// The language of a code listing.
    pub fn language(&self) -> (r: Option<&str>)
        ensures
            self is Code <==> r is Some,
            self matches Block::Code { language, .. } ==> r->0@ == language@,
    {
        match self {
            Block::Code { language, .. } => Some(language.as_str()),
            _ => None,
        }
    }
}

/// The content appended for one entry: a single red, toggleable heading that
/// holds a red "Error" paragraph, a yellow "Problem" paragraph, a green
/// "Solution" paragraph and, when `code` holds more than whitespace, a code
/// listing in `language` (plain text by default).
pub fn create_error_block(
    error: &str,
    problem: &str,
    solution: &str,
    code: Option<&str>,
    language: Option<&str>,
) -> (r: Vec<Block>)
    ensures
        r@.len() == 1,
        r@[0] matches Block::Heading { text, color, toggleable, children } && text@
            == entry_heading_text() && color@ == "red"@ && toggleable && children@.len() == (if code_shown(
            code,
        ) {
            4int
        } else {
            3int
        }) && is_paragraph(children@[0], "🔴 Error: "@, "red"@, error@) && is_paragraph(
            children@[1],
            "🟡 Problem: "@,
            "yellow"@,
            problem@,
        ) && is_paragraph(children@[2], "🟢 Solution: "@, "green"@, solution@) && (code_shown(code)
            ==> is_code(children@[3], code->0@, language_or_plain(language))),
{
    let mut children: Vec<Block> = Vec::new();
    children.push(
        Block::Paragraph {
            label: "🔴 Error: ".to_string(),
            color: "red".to_string(),
            text: error.to_string(),
        },
    );
    children.push(
        Block::Paragraph {
            label: "🟡 Problem: ".to_string(),
            color: "yellow".to_string(),
            text: problem.to_string(),
        },
    );
    children.push(
        Block::Paragraph {
            label: "🟢 Solution: ".to_string(),
            color: "green".to_string(),
            text: solution.to_string(),
        },
    );
    if let Some(code_content) = code {
        if !trim(code_content).is_empty() {
            let lang = match language {
                Some(l) => l.to_string(),
                None => "plain text".to_string(),
            };
            children.push(Block::Code { text: code_content.to_string(), language: lang });
        }
    }
    let mut blocks: Vec<Block> = Vec::new();
    blocks.push(
        Block::Heading {
            text: "📋 Error Log Entry".to_string(),
            color: "red".to_string(),
            toggleable: true,
            children,
        },
    );
    blocks
}

/// A JSON document as read from the remote service. Numbers keep their
/// textual form.
#[derive(Debug)]
pub enum JsonValue {
    Null,
    Bool(bool),
    Number(String),
    Str(String),
    Array(Vec<JsonValue>),
    /// Members in document order; keys are unique.
    Object(Vec<(String, JsonValue)>),
}

/// The value of the first member named `key`.
pub open spec fn lookup_member(members: Seq<(String, JsonValue)>, key: Seq<char>) -> Option<JsonValue>
    decreases members.len(),
{
    if members.len() == 0 {
        None
    } else if members[0].0@ == key {
        Some(members[0].1)
    } else {
        lookup_member(members.drop_first(), key)
    }
}

/// Member `key` of an object; nothing for any other value.
pub open spec fn json_get(v: JsonValue, key: Seq<char>) -> Option<JsonValue> {
    match v {
        JsonValue::Object(members) => lookup_member(members@, key),
        _ => None,
    }
}

/// Member `key` of an optional value.
pub open spec fn json_get_opt(v: Option<JsonValue>, key: Seq<char>) -> Option<JsonValue> {
    match v {
        Some(x) => json_get(x, key),
        None => None,
    }
}

/// The text of an optional string value.
pub open spec fn json_str_opt(v: Option<JsonValue>) -> Option<Seq<char>> {
    match v {
        Some(JsonValue::Str(s)) => Some(s@),
        _ => None,
    }
}

/// The first element of an optional non-empty array.
pub open spec fn json_first_opt(v: Option<JsonValue>) -> Option<JsonValue> {
    match v {
        Some(JsonValue::Array(items)) => if items@.len() > 0 {
            Some(items@[0])
        } else {
            None
        },
        _ => None,
    }
}

/// The title property of a page's properties: `title`, else `Name`, else
/// `Title`.
pub open spec fn title_property(props: Option<JsonValue>) -> Option<JsonValue> {
    if json_get_opt(props, "title"@) is Some {
        json_get_opt(props, "title"@)
    } else if json_get_opt(props, "Name"@) is Some {
        json_get_opt(props, "Name"@)
    } else {
        json_get_opt(props, "Title"@)
    }
}

/// The plain text of the first title fragment of a search result.
pub open spec fn page_title_of(result: JsonValue) -> Option<Seq<char>> {
    let prop = title_property(json_get(result, "properties"@));
    json_str_opt(json_get_opt(json_first_opt(json_get_opt(prop, "title"@)), "plain_text"@))
}

/// The page reference in a search result: present exactly when the result
/// has a string `id`; titled "Untitled" when no title text is found.
pub open spec fn page_of(result: JsonValue) -> Option<PageView> {
    match json_str_opt(json_get(result, "id"@)) {
        Some(id) => Some(
            PageView {
                id,
                title: match page_title_of(result) {
                    Some(t) => t,
                    None => "Untitled"@,
                },
            },
        ),
        None => None,
    }
}

/// The page references in a list of search results, in order, skipping
/// results without one.
pub open spec fn pages_of(results: Seq<JsonValue>) -> Seq<PageView>
    decreases results.len(),
{
    if results.len() == 0 {
        Seq::empty()
    } else {
        match page_of(results.last()) {
            Some(p) => pages_of(results.drop_last()).push(p),
            None => pages_of(results.drop_last()),
        }
    }
}

impl JsonValue {
    /// Member `key` of an object; `None` for a missing key or a non-object.
    pub fn get(&self, key: &str) -> (r: Option<&JsonValue>)
        ensures
            opt_ref(r) == json_get(*self, key@),
    {
        match self {
            JsonValue::Object(members) => {
                let n = members.len();
                let mut i: usize = 0;
                assert(members@.subrange(0, n as int) =~= members@);
                while i < n
                    invariant
                        *self == JsonValue::Object(*members),
                        n == members@.len(),
                        i <= n,
                        lookup_member(members@, key@) == lookup_member(
                            members@.subrange(i as int, n as int),
                            key@,
                        ),
                    decreases n - i,
                {
                    let ghost rest = members@.subrange(i as int, n as int);
                    assert(rest[0] == members@[i as int]);
                    assert(rest.len() > 0);
                    if str_eq(members[i].0.as_str(), key) {
                        assert(lookup_member(rest, key@) == Some(rest[0].1));
                        let found = &members[i].1;
                        return Some(found);
                    }
                    assert(rest.drop_first() =~= members@.subrange(i + 1, n as int));
                    i = i + 1;
                }
                None
            },
            _ => None,
        }
    }

    /// The text of a string value.
    pub fn as_str(&self) -> (r: Option<&str>)
        ensures
            match *self {
                JsonValue::Str(s) => r is Some && r->0@ == s@,
                _ => r is None,
            },
    {
        match self {
            JsonValue::Str(s) => Some(s.as_str()),
            _ => None,
        }
    }

    /// The elements of an array value.
    pub fn as_array(&self) -> (r: Option<&Vec<JsonValue>>)
        ensures
            match *self {
                JsonValue::Array(items) => r is Some && *r->0 == items,
                _ => r is None,
            },
    {
        match self {
            JsonValue::Array(items) => Some(items),
            _ => None,
        }
    }
}

/// The value behind an optional reference.
pub open spec fn opt_ref(r: Option<&JsonValue>) -> Option<JsonValue> {
    match r {
        Some(v) => Some(*v),
        None => None,
    }
}

fn opt_get<'a>(v: Option<&'a JsonValue>, key: &str) -> (r: Option<&'a JsonValue>)
    ensures
        opt_ref(r) == json_get_opt(opt_ref(v), key@),
{
    match v {
        Some(x) => x.get(key),
        None => None,
    }
}

/// Read a page reference out of one search result.
pub fn extract_page_info(result: &JsonValue) -> (r: Option<PageInfo>)
    ensures
        r is Some <==> page_of(*result) is Some,
        r is Some ==> r->0@ == page_of(*result)->0,
{
    let id = match result.get("id") {
        Some(v) => match v.as_str() {
            Some(s) => s.to_string(),
            None => return None,
        },
        None => return None,
    };
    let props = result.get("properties");
    let mut prop = opt_get(props, "title");
    if prop.is_none() {
        prop = opt_get(props, "Name");
    }
    if prop.is_none() {
        prop = opt_get(props, "Title");
    }
    let fragments = opt_get(prop, "title");
    let first = match fragments {
        Some(f) => match f.as_array() {
            Some(items) => if items.len() > 0 {
                Some(&items[0])
            } else {
                None
            },
            None => None,
        },
        None => None,
    };
    let text = opt_get(first, "plain_text");
    let title = match text {
        Some(t) => match t.as_str() {
            Some(s) => s.to_string(),
            None => "Untitled".to_string(),
        },
        None => "Untitled".to_string(),
    };
    Some(PageInfo { id, title })
}

/// One page of search results.
#[derive(Debug)]
pub struct SearchResponse {
    pub object: String,
    pub results: Vec<JsonValue>,
    pub next_cursor: Option<String>,
    pub has_more: bool,
}

/// How a paginated search goes on after one response.
#[derive(Debug)]
pub enum SearchProgress {
    /// The last page of results has been read.
    Finished,
    /// Ask again, from `cursor` when there is one.
    More { cursor: Option<String> },
}

/// The abstract values of a list of pages.
pub open spec fn page_views(pages: Seq<PageInfo>) -> Seq<PageView> {
    pages.map_values(|p: PageInfo| p@)
}

/// Append the page references found in one search response to `pages`,
/// and say whether to ask for more.
pub fn absorb_search_response(pages: &mut Vec<PageInfo>, response: SearchResponse) -> (r:
    SearchProgress)
    ensures
        page_views(final(pages)@) == page_views(old(pages)@) + pages_of(response.results@),
        response.has_more ==> r == (SearchProgress::More { cursor: response.next_cursor }),
        !response.has_more ==> r is Finished,
{
    let results = &response.results;
    let n = results.len();
    let mut i: usize = 0;
    assert(results@.subrange(0, 0) =~= Seq::<JsonValue>::empty());
    assert(page_views(pages@) + pages_of(Seq::empty()) =~= page_views(pages@));
    while i < n
        invariant
            n == results@.len(),
            i <= n,
            page_views(pages@) == page_views(old(pages)@) + pages_of(
                results@.subrange(0, i as int),
            ),
        decreases n - i,
    {
        let ghost before = pages@;
        let ghost done = results@.subrange(0, i as int);
        let ghost next = results@.subrange(0, i + 1);
        assert(next.drop_last() =~= done);
        assert(next.last() == results@[i as int]);
        match extract_page_info(&results[i]) {
            Some(p) => {
                pages.push(p);
                assert(page_views(pages@) =~= page_views(before).push(p@));
                assert(page_views(pages@) =~= page_views(old(pages)@) + pages_of(next));
            },
            None => {},
        }
        i = i + 1;
    }
    assert(results@.subrange(0, n as int) =~= results@);
    if response.has_more {
        SearchProgress::More { cursor: response.next_cursor }
    } else {
        SearchProgress::Finished
    }
}

} // verus!
