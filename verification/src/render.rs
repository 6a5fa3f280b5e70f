//! The page as text: the layout with its markers, and what takes their place.

use vstd::prelude::*;
use vstd::string::StringExecFns;
use crate::scripts::{scripts_html, PageScripts};
use crate::text::{join_lines, joined_lines, names_view, to_chars};

verus! {

/// Where the `<meta>` elements go in a layout.
pub const HASHIRA_META_MARKER: &'static str = "__hashira__meta__";

/// Where the page content goes in a layout.
pub const HASHIRA_CONTENT_MARKER: &'static str = "__hashira__content__";

/// Where the `<link>` elements go in a layout.
pub const HASHIRA_LINKS_MARKER: &'static str = "__hashira__links__";

/// Where the `<script>` elements go in a layout.
pub const HASHIRA_SCRIPTS_MARKER: &'static str = "__hashira__scripts__";

/// The id of the element that holds the page.
pub const HASHIRA_ROOT: &'static str = "__hashira__root__";

/// Whether `s` begins with `pat`.
pub open spec fn starts_with(s: Seq<char>, pat: Seq<char>) -> bool {
    s.len() >= pat.len() && s.take(pat.len() as int) == pat
}

/// Whether `pat` occurs in `s`.
pub open spec fn contains_text(s: Seq<char>, pat: Seq<char>) -> bool {
    exists|i: int| 0 <= i <= s.len() && starts_with(#[trigger] s.skip(i), pat)
}

/// `s` with `to` in the place of every occurrence of `pat`, found from the
/// left, none overlapping another. With an empty `pat` it is `s`.
pub open spec fn replaced(s: Seq<char>, pat: Seq<char>, to: Seq<char>) -> Seq<char>
    decreases s.len(),
{
    if pat.len() == 0 || s.len() < pat.len() {
        s
    } else if starts_with(s, pat) {
        to + replaced(s.skip(pat.len() as int), pat, to)
    } else {
        seq![s[0]] + replaced(s.skip(1), pat, to)
    }
}

/// Whether `pat` stands in `text` at place `at`.
fn matches_at(text: &Vec<char>, at: usize, pat: &Vec<char>) -> (r: bool)
    requires
        at <= text.len(),
    ensures
        r == starts_with(text@.skip(at as int), pat@),
{
    if text.len() - at < pat.len() {
        return false;
    }
    let ghost rest = text@.skip(at as int);
    let mut i: usize = 0;
    while i < pat.len()
        invariant
            i <= pat.len(),
            at + pat.len() <= text.len(),
            rest == text@.skip(at as int),
            forall|j: int| 0 <= j < i ==> rest[j] == pat@[j],
        decreases pat.len() - i,
    {
        if text[at + i] != pat[i] {
            assert(rest.take(pat@.len() as int)[i as int] != pat@[i as int]);
            return false;
        }
        i += 1;
    }
    assert(rest.take(pat@.len() as int) =~= pat@);
    true
}

/// Whether `pat` occurs in `s`.
pub fn str_contains_text(s: &str, pat: &str) -> (r: bool)
    ensures
        r == contains_text(s@, pat@),
{
    let text = to_chars(s);
    let p = to_chars(pat);
    let mut i: usize = 0;
    while i < text.len()
        invariant
            i <= text.len(),
            text@ == s@,
            p@ == pat@,
            forall|j: int| 0 <= j < i ==> !starts_with(#[trigger] s@.skip(j), pat@),
        decreases text.len() - i,
    {
        if matches_at(&text, i, &p) {
            return true;
        }
        i += 1;
    }
    matches_at(&text, i, &p)
}

/// `s` with `to` in the place of every occurrence of `pat`.
pub fn replace_all(s: &str, pat: &str, to: &str) -> (r: String)
    ensures
        r@ == replaced(s@, pat@, to@),
{
    let text = to_chars(s);
    let p = to_chars(pat);
    if p.len() == 0 {
        return s.to_owned();
    }
    let mut out = String::new();
    let mut i: usize = 0;
    proof {
        assert(text@.skip(0) =~= text@);
        assert(out@ + replaced(text@, pat@, to@) =~= replaced(s@, pat@, to@));
    }
    while i < text.len()
        invariant
            i <= text.len(),
            text@ == s@,
            p@ == pat@,
            p@.len() > 0,
            out@ + replaced(text@.skip(i as int), pat@, to@) == replaced(s@, pat@, to@),
        decreases text.len() - i,
    {
        let ghost rest = text@.skip(i as int);
        let ghost before = out@;
        if matches_at(&text, i, &p) {
            out.append(to);
            proof {
                assert(rest.skip(p@.len() as int) =~= text@.skip(i + p@.len()));
                assert(out@ + replaced(text@.skip(i + p@.len()), pat@, to@) =~= before + replaced(
                    rest,
                    pat@,
                    to@,
                ));
            }
            i += p.len();
        } else {
            out.push(text[i]);
            proof {
                assert(rest[0] == text@[i as int]);
                assert(rest.skip(1) =~= text@.skip(i + 1));
                if rest.len() < p@.len() {
                    assert(replaced(rest, pat@, to@) == rest);
                    assert(replaced(rest.skip(1), pat@, to@) == rest.skip(1));
                    assert(rest =~= seq![rest[0]] + rest.skip(1));
                }
                assert(out@ + replaced(text@.skip(i + 1), pat@, to@) =~= before + replaced(
                    rest,
                    pat@,
                    to@,
                ));
            }
            i += 1;
        }
    }
    proof {
        assert(text@.skip(text@.len() as int) =~= Seq::<char>::empty());
        assert(out@ + Seq::<char>::empty() =~= out@);
    }
    out
}

/// A `<meta>` element: a name and its content.
#[derive(Debug)]
pub struct MetaTag {
    pub name: String,
    pub content: String,
}

impl MetaTag {
    /// The element in writing.
    pub open spec fn html(self) -> Seq<char> {
        "<meta name=\""@ + self.name@ + "\" content=\""@ + self.content@ + "\">"@
    }

    /// A `<meta>` element with the given name and content.
    pub fn new(name: &str, content: &str) -> (tag: MetaTag)
        ensures
            tag.name@ == name@,
            tag.content@ == content@,
    {
        MetaTag { name: name.to_owned(), content: content.to_owned() }
    }

    /// The element in writing.
    pub fn to_string(&self) -> (s: String)
        ensures
            s@ == self.html(),
    {
        let mut s = "<meta name=\"".to_owned();
        s.append(self.name.as_str());
        s.append("\" content=\"");
        s.append(self.content.as_str());
        s.append("\">");
        s
    }
}

/// The `<meta>` elements of a page.
#[derive(Debug)]
pub struct Metadata {
    pub tags: Vec<MetaTag>,
}

/// A `<link>` element: its target and what the target is to the page.
#[derive(Debug)]
pub struct LinkTag {
    pub rel: String,
    pub href: String,
}

impl LinkTag {
    /// The element in writing.
    pub open spec fn html(self) -> Seq<char> {
        "<link rel=\""@ + self.rel@ + "\" href=\""@ + self.href@ + "\">"@
    }

    /// A `<link>` element with the given relation and target.
    pub fn new(rel: &str, href: &str) -> (tag: LinkTag)
        ensures
            tag.rel@ == rel@,
            tag.href@ == href@,
    {
        LinkTag { rel: rel.to_owned(), href: href.to_owned() }
    }

    /// The link to a stylesheet.
    pub fn stylesheet(href: &str) -> (tag: LinkTag)
        ensures
            tag.rel@ == "stylesheet"@,
            tag.href@ == href@,
    {
        LinkTag { rel: "stylesheet".to_owned(), href: href.to_owned() }
    }

    /// The element in writing.
    pub fn to_string(&self) -> (s: String)
        ensures
            s@ == self.html(),
    {
        let mut s = "<link rel=\"".to_owned();
        s.append(self.rel.as_str());
        s.append("\" href=\"");
        s.append(self.href.as_str());
        s.append("\">");
        s
    }
}

/// The `<link>` elements of a page.
#[derive(Debug)]
pub struct PageLinks {
    pub tags: Vec<LinkTag>,
}

/// The `<meta>` elements in writing.
pub open spec fn metas_html(tags: Seq<MetaTag>) -> Seq<Seq<char>> {
    tags.map_values(|t: MetaTag| t.html())
}

/// The `<link>` elements in writing.
pub open spec fn links_html(tags: Seq<LinkTag>) -> Seq<Seq<char>> {
    tags.map_values(|t: LinkTag| t.html())
}

/// The place of the first element of `tags` that is named `title`, or the
/// length of `tags` where there is none.
pub open spec fn title_index(tags: Seq<MetaTag>) -> int
    decreases tags.len(),
{
    if tags.len() == 0 {
        0
    } else if tags[0].name@ == "title"@ {
        0
    } else {
        1 + title_index(tags.skip(1))
    }
}

/// The lines that stand for the metadata: each element in writing, and a
/// `<title>` element with the content of the first one named `title`, where
/// there is one.
pub open spec fn metadata_lines(tags: Seq<MetaTag>) -> Seq<Seq<char>> {
    let at = title_index(tags);
    if 0 <= at < tags.len() {
        metas_html(tags).push("<title>"@ + tags[at].content@ + "</title>"@)
    } else {
        metas_html(tags)
    }
}

impl Metadata {
    /// No metadata.
    pub fn new() -> (m: Metadata)
        ensures
            m.tags@ == Seq::<MetaTag>::empty(),
    {
        Metadata { tags: Vec::new() }
    }

    /// The metadata with `tag` after those it holds.
    pub fn insert(self, tag: MetaTag) -> (m: Metadata)
        ensures
            m.tags@ == self.tags@.push(tag),
    {
        let mut tags = self.tags;
        tags.push(tag);
        Metadata { tags }
    }

    /// Moves the elements of `other` behind those of this metadata.
    pub fn extend(&mut self, other: Metadata)
        ensures
            final(self).tags@ == old(self).tags@ + other.tags@,
    {
        let mut rest = other.tags;
        self.tags.append(&mut rest);
    }

    /// The first element that is named `title`.
    pub fn title(&self) -> (r: Option<&MetaTag>)
        ensures
            match r {
                Some(tag) => 0 <= title_index(self.tags@) < self.tags@.len() && *tag
                    == self.tags@[title_index(self.tags@)],
                None => title_index(self.tags@) == self.tags@.len(),
            },
    {
        let key = "title".to_owned();
        let mut i: usize = 0;
        assert(self.tags@.skip(0) =~= self.tags@);
        while i < self.tags.len()
            invariant
                i <= self.tags.len(),
                key@ == "title"@,
                title_index(self.tags@) == i + title_index(self.tags@.skip(i as int)),
            decreases self.tags.len() - i,
        {
            assert(self.tags@.skip(i as int)[0] == self.tags@[i as int]);
            if self.tags[i].name == key {
                return Some(&self.tags[i]);
            }
            assert(self.tags@.skip(i as int).skip(1) =~= self.tags@.skip(i as int + 1));
            i += 1;
        }
        None
    }
}

impl PageLinks {
    /// No links.
    pub fn new() -> (p: PageLinks)
        ensures
            p.tags@ == Seq::<LinkTag>::empty(),
    {
        PageLinks { tags: Vec::new() }
    }

    /// The links with `tag` after those it holds.
    pub fn insert(self, tag: LinkTag) -> (p: PageLinks)
        ensures
            p.tags@ == self.tags@.push(tag),
    {
        let mut tags = self.tags;
        tags.push(tag);
        PageLinks { tags }
    }

    /// Moves the links of `other` behind those of this collection.
    pub fn extend(&mut self, other: PageLinks)
        ensures
            final(self).tags@ == old(self).tags@ + other.tags@,
    {
        let mut rest = other.tags;
        self.tags.append(&mut rest);
    }
}

/// Puts the `<meta>` elements, one on each line, where the layout has its
/// marker for them, and after them the `<title>` that the element named
/// `title` asks for.
pub fn insert_metadata(html: &mut String, metadata: &Metadata)
    ensures
        final(html)@ == replaced(
            old(html)@,
            HASHIRA_META_MARKER@,
            joined_lines(metadata_lines(metadata.tags@)),
        ),
{
    let mut lines: Vec<String> = Vec::new();
    let mut i: usize = 0;
    while i < metadata.tags.len()
        invariant
            i <= metadata.tags.len(),
            names_view(lines@) == metas_html(metadata.tags@).take(i as int),
        decreases metadata.tags.len() - i,
    {
        let ghost before = names_view(lines@);
        lines.push(metadata.tags[i].to_string());
        assert(names_view(lines@) =~= before.push(metadata.tags@[i as int].html()));
        i += 1;
        assert(names_view(lines@) =~= metas_html(metadata.tags@).take(i as int));
    }
    assert(metas_html(metadata.tags@).take(metadata.tags@.len() as int) =~= metas_html(
        metadata.tags@,
    ));
    match metadata.title() {
        Some(tag) => {
            let ghost before = names_view(lines@);
            let mut title = "<title>".to_owned();
            title.append(tag.content.as_str());
            title.append("</title>");
            lines.push(title);
            assert(names_view(lines@) =~= before.push("<title>"@ + tag.content@ + "</title>"@));
        },
        None => {},
    }
    let tags = join_lines(&lines);
    *html = replace_all(html.as_str(), HASHIRA_META_MARKER, tags.as_str());
}

/// Puts the `<link>` elements, one on each line, where the layout has its
/// marker for them.
pub fn insert_links(html: &mut String, links: &PageLinks)
    ensures
        final(html)@ == replaced(
            old(html)@,
            HASHIRA_LINKS_MARKER@,
            joined_lines(links_html(links.tags@)),
        ),
{
    let mut lines: Vec<String> = Vec::new();
    let mut i: usize = 0;
    while i < links.tags.len()
        invariant
            i <= links.tags.len(),
            names_view(lines@) == links_html(links.tags@).take(i as int),
        decreases links.tags.len() - i,
    {
        let ghost before = names_view(lines@);
        lines.push(links.tags[i].to_string());
        assert(names_view(lines@) =~= before.push(links.tags@[i as int].html()));
        i += 1;
        assert(names_view(lines@) =~= links_html(links.tags@).take(i as int));
    }
    assert(links_html(links.tags@).take(links.tags@.len() as int) =~= links_html(links.tags@));
    let tags = join_lines(&lines);
    *html = replace_all(html.as_str(), HASHIRA_LINKS_MARKER, tags.as_str());
}

/// Puts the `<script>` elements, one on each line, where the layout has its
/// marker for them.
pub fn insert_scripts(html: &mut String, scripts: &PageScripts)
    ensures
        final(html)@ == replaced(
            old(html)@,
            HASHIRA_SCRIPTS_MARKER@,
            joined_lines(scripts_html(scripts.tags@)),
        ),
{
    let tags = scripts.to_string();
    *html = replace_all(html.as_str(), HASHIRA_SCRIPTS_MARKER, tags.as_str());
}

/// The layout of a page that brings none of its own: a document in English
/// with the metadata and the links in its head, and in its body, which is the
/// element for the page, the content and after it the scripts.
pub open spec fn default_layout_html() -> Seq<char> {
    "<html lang=\"en\"><head>"@ + HASHIRA_META_MARKER@ + HASHIRA_LINKS_MARKER@
        + "</head><body id=\""@ + HASHIRA_ROOT@ + "\">"@ + HASHIRA_CONTENT_MARKER@
        + HASHIRA_SCRIPTS_MARKER@ + "</body></html>"@
}

/// The layout of a page that brings none of its own.
pub fn default_layout() -> (layout: String)
    ensures
        layout@ == default_layout_html(),
{
    let mut layout = "<html lang=\"en\"><head>".to_owned();
    layout.append(HASHIRA_META_MARKER);
    layout.append(HASHIRA_LINKS_MARKER);
    layout.append("</head><body id=\"");
    layout.append(HASHIRA_ROOT);
    layout.append("\">");
    layout.append(HASHIRA_CONTENT_MARKER);
    layout.append(HASHIRA_SCRIPTS_MARKER);
    layout.append("</body></html>");
    layout
}

/// Why a page cannot be rendered.
#[derive(Debug, Clone, Copy, PartialEq, Eq, Structural)]
pub enum RenderError {
    /// The layout has no element for the page.
    NoRoot,
}

/// What goes into a page beside its content.
#[derive(Debug)]
pub struct RenderPageOptions {
    /// Represents the shell where the page will be rendered.
    pub layout: String,
    /// The `<meta>` tags of the page to render.
    pub metadata: Metadata,
    /// The `<link>` tags of the page to render.
    pub links: PageLinks,
    /// The `<script>` tags of the page to render.
    pub scripts: PageScripts,
}

/// The page in writing: `layout` with the content, the metadata, the links
/// and the scripts in the place of their markers, one after the other.
pub open spec fn page_html(
    layout: Seq<char>,
    content: Seq<char>,
    metadata: Seq<MetaTag>,
    links: Seq<LinkTag>,
    scripts: Seq<crate::scripts::ScriptTag>,
) -> Seq<char> {
    let with_content = replaced(layout, HASHIRA_CONTENT_MARKER@, content);
    let with_meta = replaced(
        with_content,
        HASHIRA_META_MARKER@,
        joined_lines(metadata_lines(metadata)),
    );
    let with_links = replaced(with_meta, HASHIRA_LINKS_MARKER@, joined_lines(links_html(links)));
    replaced(with_links, HASHIRA_SCRIPTS_MARKER@, joined_lines(scripts_html(scripts)))
}

/// Puts the rendered page `content` into its layout. A layout without the
/// element for the page is refused.
pub fn render_page_to_html(content: &str, options: RenderPageOptions) -> (r: Result<
    String,
    RenderError,
>)
    ensures
        match r {
            Ok(html) => contains_text(options.layout@, HASHIRA_ROOT@) && html@ == page_html(
                options.layout@,
                content@,
                options.metadata.tags@,
                options.links.tags@,
                options.scripts.tags@,
            ),
            Err(e) => !contains_text(options.layout@, HASHIRA_ROOT@) && e == RenderError::NoRoot,
        },
{
    let RenderPageOptions { layout, metadata, links, scripts } = options;
    if !str_contains_text(layout.as_str(), HASHIRA_ROOT) {
        return Err(RenderError::NoRoot);
    }
    let mut result_html = replace_all(layout.as_str(), HASHIRA_CONTENT_MARKER, content);
    insert_metadata(&mut result_html, &metadata);
    insert_links(&mut result_html, &links);
    insert_scripts(&mut result_html, &scripts);
    Ok(result_html)
}

} // verus!
