//! The page that shows the preview.

use handlebars::{to_json, Handlebars};
use std::collections::BTreeMap;
use vstd::prelude::*;

verus! {

/// The template of the page. It holds the HTML of the preview, and a script that opens a WebSocket
/// back to the server and puts the HTML that arrives there in its place.
pub const MARKDOWN_VIEW: &'static str = "<!DOCTYPE html>
<html>
<head>
<meta charset=\"utf-8\">
<title>Markdown Preview</title>
<link rel=\"stylesheet\" href=\"https://cdnjs.cloudflare.com/ajax/libs/highlight.js/11.9.0/styles/{{highlight_theme}}.min.css\">
{{#each remote_custom_css}}
<link rel=\"stylesheet\" href=\"{{this}}\">
{{/each}}
{{#each local_custom_css}}
<link rel=\"stylesheet\" href=\"{{this}}\">
{{/each}}
</head>
<body>
<article id=\"markdown-preview\">{{{markdown_html}}}</article>
<script>
var preview = document.getElementById('markdown-preview');
var socket = new WebSocket('ws://' + window.location.host);
socket.onmessage = function (event) {
    preview.innerHTML = event.data;
};
</script>
</body>
</html>
";

/// What the template of the page is filled in with.
#[derive(Debug)]
pub struct TemplateData {
    /// The URLs of style sheets that other servers have.
    pub remote_custom_css: Vec<String>,
    /// The paths of style sheets in the file system.
    pub local_custom_css: Vec<String>,
    /// The name of the theme for code.
    pub highlight_theme: String,
    /// The HTML of the preview.
    pub markdown_html: String,
}

/// The texts of a vector of strings.
pub open spec fn strings_view(strings: Seq<String>) -> Seq<Seq<char>> {
    strings.map_values(|string: String| string@)
}

/// The names and values of fields that hold lists.
pub open spec fn lists_view(fields: Seq<(String, Vec<String>)>) -> Seq<(Seq<char>, Seq<Seq<char>>)> {
    fields.map_values(|field: (String, Vec<String>)| (field.0@, strings_view(field.1@)))
}

/// The names and values of fields that hold text.
pub open spec fn texts_view(fields: Seq<(String, String)>) -> Seq<(Seq<char>, Seq<char>)> {
    fields.map_values(|field: (String, String)| (field.0@, field.1@))
}

/// The fields of `data` that hold lists, under the names that the template has for them.
pub open spec fn list_fields(data: TemplateData) -> Seq<(Seq<char>, Seq<Seq<char>>)> {
    seq![
        ("remote_custom_css"@, strings_view(data.remote_custom_css@)),
        ("local_custom_css"@, strings_view(data.local_custom_css@)),
    ]
}

/// The fields of `data` that hold text, under the names that the template has for them.
pub open spec fn text_fields(data: TemplateData) -> Seq<(Seq<char>, Seq<char>)> {
    seq![
        ("highlight_theme"@, data.highlight_theme@),
        ("markdown_html"@, data.markdown_html@),
    ]
}

/// Whether `part` stands somewhere in `text`.
pub open spec fn contains_text(text: Seq<char>, part: Seq<char>) -> bool {
    exists|i: int|
        0 <= i <= text.len() - part.len() && #[trigger] text.subrange(i, i + part.len()) == part
}

/// Whether the fields are those of the page: two lists and two texts, under the names that the
/// template has for them.
pub open spec fn has_page_fields(
    lists: Seq<(Seq<char>, Seq<Seq<char>>)>,
    texts: Seq<(Seq<char>, Seq<char>)>,
) -> bool {
    &&& lists.len() == 2
    &&& lists[0].0 == "remote_custom_css"@
    &&& lists[1].0 == "local_custom_css"@
    &&& texts.len() == 2
    &&& texts[0].0 == "highlight_theme"@
    &&& texts[1].0 == "markdown_html"@
}

/// The page for `data`.
pub open spec fn page_html(data: TemplateData) -> Seq<char> {
    template_rendering(MARKDOWN_VIEW@, list_fields(data), text_fields(data))
}

/// What handlebars makes of the template of the page and the fields of an object: lists of
/// strings, and strings.
pub uninterp spec fn template_rendering(
    template: Seq<char>,
    lists: Seq<(Seq<char>, Seq<Seq<char>>)>,
    texts: Seq<(Seq<char>, Seq<char>)>,
) -> Seq<char>;

/// `Handlebars::render_template`, of a registry as `Handlebars::new` makes it: what comes of a
/// template is a function of the template and of the fields of the object that it is filled in
/// with.
///
/// Only the template of the page is rendered, and only with the fields that it asks for. That
/// template parses, it names no partial and no helper but `each`, and it has `each` go over lists,
/// so filling it in does not fail. What stands between its tags is written as it stands, so that
/// the page contains `<html>`. And it has the field `markdown_html` in triple braces, which write
/// the text of a field as it is, so that the page contains that text.
#[verifier::external_body]
fn render_template(
    template: &str,
    lists: Vec<(String, Vec<String>)>,
    texts: Vec<(String, String)>,
) -> (html: String)
    requires
        template@ == MARKDOWN_VIEW@,
        has_page_fields(lists_view(lists@), texts_view(texts@)),
    ensures
        html@ == template_rendering(template@, lists_view(lists@), texts_view(texts@)),
        contains_text(html@, "<html>"@),
        contains_text(html@, texts@[1].1@),
{
    let lists = lists.into_iter().map(|(name, list)| (name, to_json(list)));
    let texts = texts.into_iter().map(|(name, text)| (name, to_json(text)));
    let object: BTreeMap<_, _> = lists.chain(texts).collect();
    Handlebars::new().render_template(template, &object).unwrap()
}

impl Default for TemplateData {
    /// No style sheets of the user's, the theme of GitHub, and nothing to show.
    fn default() -> (data: Self)
        ensures
            data.remote_custom_css@.len() == 0,
            data.local_custom_css@.len() == 0,
            data.highlight_theme@ == "github"@,
            data.markdown_html@.len() == 0,
    {
        TemplateData {
            remote_custom_css: Vec::new(),
            local_custom_css: Vec::new(),
            highlight_theme: "github".to_owned(),
            markdown_html: String::new(),
        }
    }
}

/// Fills in the template of the page. The HTML of the preview stands in it as it is.
pub fn page(data: TemplateData) -> (html: String)
    ensures
        html@ == page_html(data),
        contains_text(html@, "<html>"@),
        contains_text(html@, data.markdown_html@),
{
    let mut lists: Vec<(String, Vec<String>)> = Vec::new();
    lists.push(("remote_custom_css".to_owned(), data.remote_custom_css));
    lists.push(("local_custom_css".to_owned(), data.local_custom_css));
    let mut texts: Vec<(String, String)> = Vec::new();
    texts.push(("highlight_theme".to_owned(), data.highlight_theme));
    texts.push(("markdown_html".to_owned(), data.markdown_html));
    assert(lists_view(lists@) =~= list_fields(data));
    assert(texts_view(texts@) =~= text_fields(data));
    render_template(MARKDOWN_VIEW, lists, texts)
}

/// The data that are there before anything is set.
pub proof fn nothing_is_shown_at_first(data: TemplateData)
    requires
        call_ensures(<TemplateData as Default>::default, (), data),
    ensures
        data.remote_custom_css@.len() == 0,
        data.local_custom_css@.len() == 0,
        data.highlight_theme@ == "github"@,
        data.markdown_html@.len() == 0,
{
}

/// The page is the template filled in with the data as they are: each list with its entries in
/// order, each text word for word, and each under its own name.
pub proof fn page_is_filled_in_with_the_data(data: TemplateData, html: String)
    requires
        call_ensures(page, (data,), html),
    ensures
        html@ == template_rendering(
            MARKDOWN_VIEW@,
            seq![
                (
                    "remote_custom_css"@,
                    Seq::new(
                        data.remote_custom_css@.len(),
                        |i: int| data.remote_custom_css@[i]@,
                    ),
                ),
                (
                    "local_custom_css"@,
                    Seq::new(data.local_custom_css@.len(), |i: int| data.local_custom_css@[i]@),
                ),
            ],
            seq![
                ("highlight_theme"@, data.highlight_theme@),
                ("markdown_html"@, data.markdown_html@),
            ],
        ),
        exists|i: int|
            0 <= i <= html@.len() - data.markdown_html@.len() && #[trigger] html@.subrange(
                i,
                i + data.markdown_html@.len(),
            ) == data.markdown_html@,
        exists|i: int|
            0 <= i <= html@.len() - 6 && #[trigger] html@.subrange(i, i + 6) == "<html>"@,
{
    reveal_strlit("<html>");
    assert(contains_text(html@, "<html>"@));
    let at = choose|i: int|
        0 <= i <= html@.len() - "<html>"@.len() && #[trigger] html@.subrange(
            i,
            i + "<html>"@.len(),
        ) == "<html>"@;
    assert(html@.subrange(at, at + 6) == "<html>"@);
    assert(Seq::new(data.remote_custom_css@.len(), |i: int| data.remote_custom_css@[i]@)
        =~= strings_view(data.remote_custom_css@));
    assert(Seq::new(data.local_custom_css@.len(), |i: int| data.local_custom_css@[i]@)
        =~= strings_view(data.local_custom_css@));
    assert(contains_text(html@, data.markdown_html@));
}

/// A text stands in whatever is written around it.
pub proof fn texts_that_stand_in_others(before: Seq<char>, part: Seq<char>, behind: Seq<char>)
    ensures
        contains_text(before + part + behind, part),
{
    lemma_contains_at(before + part + behind, part, before.len() as int);
}

/// A text stands in another where one has found it.
proof fn lemma_contains_at(text: Seq<char>, part: Seq<char>, at: int)
    requires
        0 <= at <= text.len() - part.len(),
        forall|i: int| 0 <= i < part.len() ==> text[at + i] == #[trigger] part[i],
    ensures
        contains_text(text, part),
{
    assert(text.subrange(at, at + part.len()) =~= part);
}

/// The template is one of HTML, it has one place for the HTML of the preview, where it is not
/// escaped, and a script that opens a WebSocket back to the server and puts what arrives there in
/// that place.
pub proof fn template_follows_the_server()
    ensures
        contains_text(
            MARKDOWN_VIEW@,
            "<html>"@,
        ),
        contains_text(
            MARKDOWN_VIEW@,
            "<article id=\"markdown-preview\">{{{markdown_html}}}</article>"@,
        ),
        contains_text(
            MARKDOWN_VIEW@,
            "var preview = document.getElementById('markdown-preview');"@,
        ),
        contains_text(
            MARKDOWN_VIEW@,
            "var socket = new WebSocket('ws://' + window.location.host);"@,
        ),
        contains_text(
            MARKDOWN_VIEW@,
            "socket.onmessage = function (event) {
    preview.innerHTML = event.data;
};"@,
        ),
        forall|i: int, j: int|
            0 <= i <= j <= MARKDOWN_VIEW@.len() - 13 && #[trigger] MARKDOWN_VIEW@.subrange(i, i + 13)
                == "markdown_html"@ && #[trigger] MARKDOWN_VIEW@.subrange(j, j + 13)
                == "markdown_html"@ ==> i == j,
{
    reveal_strlit(
        "<!DOCTYPE html>
<html>
<head>
<meta charset=\"utf-8\">
<title>Markdown Preview</title>
<link rel=\"stylesheet\" href=\"https://cdnjs.cloudflare.com/ajax/libs/highlight.js/11.9.0/styles/{{highlight_theme}}.min.css\">
{{#each remote_custom_css}}
<link rel=\"stylesheet\" href=\"{{this}}\">
{{/each}}
{{#each local_custom_css}}
<link rel=\"stylesheet\" href=\"{{this}}\">
{{/each}}
</head>
<body>
<article id=\"markdown-preview\">{{{markdown_html}}}</article>
<script>
var preview = document.getElementById('markdown-preview');
var socket = new WebSocket('ws://' + window.location.host);
socket.onmessage = function (event) {
    preview.innerHTML = event.data;
};
</script>
</body>
</html>
",
    );
    reveal_strlit("<html>");
    lemma_contains_at(
        MARKDOWN_VIEW@,
        "<html>"@,
        16,
    );
    reveal_strlit("<article id=\"markdown-preview\">{{{markdown_html}}}</article>");
    lemma_contains_at(
        MARKDOWN_VIEW@,
        "<article id=\"markdown-preview\">{{{markdown_html}}}</article>"@,
        380,
    );
    reveal_strlit("var preview = document.getElementById('markdown-preview');");
    lemma_contains_at(
        MARKDOWN_VIEW@,
        "var preview = document.getElementById('markdown-preview');"@,
        450,
    );
    reveal_strlit("var socket = new WebSocket('ws://' + window.location.host);");
    lemma_contains_at(
        MARKDOWN_VIEW@,
        "var socket = new WebSocket('ws://' + window.location.host);"@,
        509,
    );
    reveal_strlit("socket.onmessage = function (event) {
    preview.innerHTML = event.data;
};");
    lemma_contains_at(
        MARKDOWN_VIEW@,
        "socket.onmessage = function (event) {
    preview.innerHTML = event.data;
};"@,
        569,
    );
    reveal_strlit("markdown_html");
    let name = "markdown_html"@;
    assert forall|i: int|
        0 <= i <= MARKDOWN_VIEW@.len() - 13 && #[trigger] MARKDOWN_VIEW@.subrange(i, i + 13)
            == name implies i == 414 by {
        assert(MARKDOWN_VIEW@.subrange(i, i + 13)[7] == name[7]);
        assert(MARKDOWN_VIEW@.subrange(i, i + 13)[8] == name[8]);
        assert(MARKDOWN_VIEW@.subrange(i, i + 13)[9] == name[9]);
        assert(MARKDOWN_VIEW@[i + 7] == 'n' && MARKDOWN_VIEW@[i + 8] == '_' && MARKDOWN_VIEW@[i + 9]
            == 'h');
    }
}

/// The texts of strings are those of each, in order.
pub proof fn texts_of_strings(strings: Seq<String>)
    ensures
        strings_view(strings).len() == strings.len(),
        forall|i: int|
            0 <= i < strings.len() ==> #[trigger] strings_view(strings)[i] == strings[i]@,
{
}

} // verus!
