//! The `<script>` elements of a page.

use indexmap::IndexMap;
use vstd::prelude::*;
use vstd::string::StringExecFns;
use crate::params::pairs_view;
use crate::text::{joined_lines, names_view};

verus! {

/// `indexmap::IndexMap`, a hash map that keeps its entries in the order in
/// which their keys were first inserted.
#[verifier::external_type_specification]
#[verifier::external_body]
#[verifier::reject_recursive_types(K)]
#[verifier::reject_recursive_types(V)]
#[verifier::reject_recursive_types(S)]
pub struct ExIndexMap<K, V, S>(IndexMap<K, V, S>);

/// The entries of a map of attributes, key and value, in the order of the map.
pub uninterp spec fn attr_entries(map: IndexMap<String, String>) -> Seq<(Seq<char>, Seq<char>)>;

/// `entries` with `value` for `key`: in the place of the entry that has the
/// key, where there is one, else after the others.
pub open spec fn upserted(
    entries: Seq<(Seq<char>, Seq<char>)>,
    key: Seq<char>,
    value: Seq<char>,
) -> Seq<(Seq<char>, Seq<char>)>
    decreases entries.len(),
{
    if entries.len() == 0 {
        seq![(key, value)]
    } else if entries[0].0 == key {
        seq![(key, value)] + entries.skip(1)
    } else {
        seq![entries[0]] + upserted(entries.skip(1), key, value)
    }
}

/// `IndexMap::new`: a map without entries.
#[verifier::external_body]
fn attrs_new() -> (map: IndexMap<String, String>)
    ensures
        attr_entries(map) == Seq::<(Seq<char>, Seq<char>)>::empty(),
{
    IndexMap::new()
}

/// `IndexMap::insert`: a key that the map holds keeps its place and gets the
/// new value; a new key goes last with its value.
#[verifier::external_body]
fn attrs_insert(map: &mut IndexMap<String, String>, key: String, value: String)
    ensures
        attr_entries(*final(map)) == upserted(attr_entries(*old(map)), key@, value@),
{
    map.insert(key, value);
}

/// `IndexMap::iter`: the entries in the order of the map, each copied.
#[verifier::external_body]
fn attrs_to_vec(map: &IndexMap<String, String>) -> (entries: Vec<(String, String)>)
    ensures
        pairs_view(entries@) == attr_entries(*map),
{
    map.iter().map(|(k, v)| (k.clone(), v.clone())).collect()
}

/// One attribute in writing: the key, and the value between double quotes.
pub open spec fn attr_html(key: Seq<char>, value: Seq<char>) -> Seq<char> {
    key + seq!['=', '"'] + value + seq!['"']
}

/// The attributes in writing, one after the other with nothing between them.
pub open spec fn attrs_html(attrs: Seq<(Seq<char>, Seq<char>)>) -> Seq<char>
    decreases attrs.len(),
{
    if attrs.len() == 0 {
        Seq::empty()
    } else {
        attrs_html(attrs.drop_last()) + attr_html(attrs.last().0, attrs.last().1)
    }
}

/// A `<script>` element in writing: with its content between the tags where it
/// has one, closed in itself where it has none.
pub open spec fn script_html(attrs: Seq<(Seq<char>, Seq<char>)>, content: Option<Seq<char>>) -> Seq<
    char,
> {
    match content {
        Some(text) => "<script "@ + attrs_html(attrs) + seq!['>'] + text + "</script>"@,
        None => "<script "@ + attrs_html(attrs) + "/>"@,
    }
}

/// Represents a `<script>` element to insert on the `<body>`.
#[derive(Debug)]
pub struct ScriptTag {
    attrs: IndexMap<String, String>,
    content: Option<String>,
}

impl ScriptTag {
    /// The attributes of the element, in the order in which they were first
    /// set.
    pub closed spec fn attrs(self) -> Seq<(Seq<char>, Seq<char>)> {
        attr_entries(self.attrs)
    }

    /// The inner content of the element.
    pub closed spec fn inner(self) -> Option<Seq<char>> {
        match self.content {
            Some(text) => Some(text@),
            None => None,
        }
    }

    /// The element in writing.
    pub open spec fn html(self) -> Seq<char> {
        script_html(self.attrs(), self.inner())
    }

    /// Constructs an empty `<script>` element.
    pub fn new() -> (tag: ScriptTag)
        ensures
            tag.attrs() == Seq::<(Seq<char>, Seq<char>)>::empty(),
            tag.inner() is None,
    {
        ScriptTag { attrs: attrs_new(), content: None }
    }

    /// Sets an attribute on the `<script>` element.
    pub fn attr(self, key: &str, value: &str) -> (tag: ScriptTag)
        ensures
            tag.attrs() == upserted(self.attrs(), key@, value@),
            tag.inner() == self.inner(),
    {
        let ScriptTag { mut attrs, content } = self;
        attrs_insert(&mut attrs, key.to_owned(), value.to_owned());
        ScriptTag { attrs, content }
    }

    /// Sets the inner content of the `<script>` element.
    pub fn content(self, content: &str) -> (tag: ScriptTag)
        ensures
            tag.attrs() == self.attrs(),
            tag.inner() == Some(content@),
    {
        let ScriptTag { attrs, content: _ } = self;
        ScriptTag { attrs, content: Some(content.to_owned()) }
    }

    /// The element in writing.
    pub fn to_string(&self) -> (s: String)
        ensures
            s@ == self.html(),
    {
        let attrs = attrs_to_vec(&self.attrs);
        let mut s = "<script ".to_owned();
        let ghost head = s@;
        let mut i: usize = 0;
        proof {
            assert(pairs_view(attrs@).take(0) =~= Seq::empty());
            assert(head + Seq::<char>::empty() =~= head);
        }
        while i < attrs.len()
            invariant
                i <= attrs.len(),
                s@ == head + attrs_html(pairs_view(attrs@).take(i as int)),
            decreases attrs.len() - i,
        {
            let ghost before = s@;
            s.append(attrs[i].0.as_str());
            s.push('=');
            s.push('"');
            s.append(attrs[i].1.as_str());
            s.push('"');
            proof {
                let all = pairs_view(attrs@);
                assert(all.take(i as int + 1).drop_last() =~= all.take(i as int));
                assert(all.take(i as int + 1).last() == all[i as int]);
                assert(s@ =~= before + attr_html(all[i as int].0, all[i as int].1));
                assert(s@ =~= head + attrs_html(all.take(i as int + 1)));
            }
            i += 1;
        }
        proof {
            assert(pairs_view(attrs@).take(attrs@.len() as int) =~= pairs_view(attrs@));
        }
        let ghost open = s@;
        match &self.content {
            Some(text) => {
                s.push('>');
                s.append(text.as_str());
                s.append("</script>");
                assert(s@ =~= open + seq!['>'] + text@ + "</script>"@);
            },
            None => {
                s.append("/>");
            },
        }
        s
    }
}

/// The views of a list of script elements: each in writing.
pub open spec fn scripts_html(tags: Seq<ScriptTag>) -> Seq<Seq<char>> {
    tags.map_values(|t: ScriptTag| t.html())
}

/// Represents a collection of `<script>` elements to include on the page.
#[derive(Debug)]
pub struct PageScripts {
    pub tags: Vec<ScriptTag>,
}

impl PageScripts {
    /// No scripts.
    pub fn new() -> (p: PageScripts)
        ensures
            p.tags@ == Seq::<ScriptTag>::empty(),
    {
        PageScripts { tags: Vec::new() }
    }

    /// The scripts, in their order.
    pub fn tags(&self) -> (t: &Vec<ScriptTag>)
        ensures
            *t == self.tags,
    {
        &self.tags
    }

    /// The collection with `script` after those it holds.
    pub fn insert(self, script: ScriptTag) -> (p: PageScripts)
        ensures
            p.tags@ == self.tags@.push(script),
    {
        let mut tags = self.tags;
        tags.push(script);
        PageScripts { tags }
    }

    /// Moves the scripts of `other` behind those of this collection.
    pub fn extend(&mut self, other: PageScripts)
        ensures
            final(self).tags@ == old(self).tags@ + other.tags@,
    {
        let mut rest = other.tags;
        self.tags.append(&mut rest);
    }

    /// The scripts in writing, one on each line.
    pub fn to_string(&self) -> (s: String)
        ensures
            s@ == joined_lines(scripts_html(self.tags@)),
    {
        let mut lines: Vec<String> = Vec::new();
        let mut i: usize = 0;
        while i < self.tags.len()
            invariant
                i <= self.tags.len(),
                names_view(lines@) == scripts_html(self.tags@).take(i as int),
            decreases self.tags.len() - i,
        {
            let ghost before = names_view(lines@);
            lines.push(self.tags[i].to_string());
            assert(names_view(lines@) =~= before.push(self.tags@[i as int].html()));
            i += 1;
            assert(names_view(lines@) =~= scripts_html(self.tags@).take(i as int));
        }
        assert(scripts_html(self.tags@).take(self.tags@.len() as int) =~= scripts_html(self.tags@));
        crate::text::join_lines(&lines)
    }
}

} // verus!
