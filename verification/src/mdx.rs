//! The table of contents of a Markdown document.
//!
//! The document hands the library the headings it contains, in document
//! order, each with its depth and its flattened title text; [`toc`] nests
//! them into a tree, a deeper heading becoming a child of the nearest
//! shallower one before it. URL-bearing JSX attributes are classified by
//! [`is_url`].

use vstd::prelude::*;

use crate::strutil;

verus! {

/// One heading of a document, as the table-of-contents pass reads it.
#[derive(PartialEq, Eq, Debug)]
pub struct MdHeading {
    /// The heading depth: `#` is 1, `##` is 2, and so on.
    pub level: u8,
    /// The heading's flattened text.
    pub title: String,
}

/// One node of a table of contents.
#[derive(PartialEq, Eq, Debug)]
pub struct TocNode {
    pub title: String,
    pub level: u8,
    pub children: Vec<TocNode>,
}

/// Inserts `item` into a table-of-contents forest: while the last root's
/// level is shallower than the item's, the walk descends into that root's
/// last child, and the item becomes a sibling where the chain ends; `fuel`
/// bounds the descent (heading levels are a `u8`, so any real chain is far
/// shorter). A sibling insertion leaves the forest's roots untouched and
/// appends the item; a descent changes only the last root's subtree, never
/// its title or level.
pub fn insert_toc(results: &mut Vec<TocNode>, item: TocNode, fuel: u32)
    ensures
        (if old(results)@.len() > 0 && item.level > old(results)@.last().level && fuel > 0 {
            &&& final(results)@.len() == old(results)@.len()
            &&& forall|j: int|
                0 <= j < old(results)@.len() - 1 ==> final(results)@[j] == old(results)@[j]
            &&& final(results)@.last().title == old(results)@.last().title
            &&& final(results)@.last().level == old(results)@.last().level
        } else {
            final(results)@ == old(results)@.push(item)
        }),
    decreases fuel,
{
    let n = results.len();
    if n > 0 && fuel > 0 {
        let last = &results[n - 1];
        if item.level > last.level {
            let mut last = results.pop().unwrap();
            insert_toc(&mut last.children, item, fuel - 1);
            results.push(last);
            return ;
        }
    }
    results.push(item);
}

/// Builds the table of contents of the given headings, in order: there is
/// at most one root per heading, the first heading anchors the tree, and
/// every root keeps its title and level once placed.
pub fn toc(headings: &Vec<MdHeading>) -> (r: Vec<TocNode>)
    ensures
        r@.len() <= headings@.len(),
        headings@.len() > 0 ==> r@.len() >= 1 && r@[0].title == headings@[0].title && r@[0].level
            == headings@[0].level,
{
    let mut r: Vec<TocNode> = Vec::new();
    let mut i: usize = 0;
    while i < headings.len()
        invariant
            i <= headings@.len(),
            r@.len() <= i,
            i > 0 ==> r@.len() >= 1 && r@[0].title == headings@[0].title && r@[0].level
                == headings@[0].level,
        decreases headings@.len() - i,
    {
        let node = TocNode {
            title: headings[i].title.clone(),
            level: headings[i].level,
            children: Vec::new(),
        };
        let ghost pre = r@;
        insert_toc(&mut r, node, 64);
        proof {
            assert(r@.len() <= pre.len() + 1);
        }
        i += 1;
    }
    r
}

/// Whether the given JSX attribute of the given element names a URL that is
/// a dependency of the document.
pub open spec fn spec_is_url(el: Seq<char>, prop: Seq<char>) -> bool {
    ||| (el == "img"@ && prop == "src"@)
    ||| (el == "audio"@ && prop == "src"@)
    ||| (el == "video"@ && (prop == "src"@ || prop == "poster"@))
    ||| (el == "source"@ && prop == "src"@)
    ||| (el == "track"@ && prop == "src"@)
    ||| (el == "iframe"@ && prop == "src"@)
    ||| (el == "script"@ && (prop == "src"@ || prop == "href"@ || prop == "xlink:href"@))
    ||| (el == "embed"@ && prop == "src"@)
    ||| (el == "a"@ && prop == "href"@)
    ||| (el == "link"@ && prop == "href"@)
    ||| (el == "use"@ && (prop == "href"@ || prop == "xlink:href"@))
    ||| (el == "image"@ && (prop == "href"@ || prop == "xlink:href"@))
}

/// Tests an element/attribute pair against the URL-bearing set.
pub fn is_url(el: &str, prop: &str) -> (r: bool)
    ensures
        r == spec_is_url(el@, prop@),
{
    proof {
        reveal_strlit("img");
        reveal_strlit("audio");
        reveal_strlit("video");
        reveal_strlit("source");
        reveal_strlit("track");
        reveal_strlit("iframe");
        reveal_strlit("script");
        reveal_strlit("embed");
        reveal_strlit("a");
        reveal_strlit("link");
        reveal_strlit("use");
        reveal_strlit("image");
        reveal_strlit("src");
        reveal_strlit("href");
        reveal_strlit("xlink:href");
        reveal_strlit("poster");
        assert("img"@.len() == 3 && "img"@[0] == 'i');
        assert("audio"@.len() == 5 && "audio"@[0] == 'a');
        assert("video"@.len() == 5 && "video"@[0] == 'v');
        assert("source"@.len() == 6 && "source"@[1] == 'o');
        assert("track"@.len() == 5 && "track"@[0] == 't');
        assert("iframe"@.len() == 6 && "iframe"@[0] == 'i');
        assert("script"@.len() == 6 && "script"@[1] == 'c');
        assert("embed"@.len() == 5 && "embed"@[0] == 'e');
        assert("a"@.len() == 1);
        assert("link"@.len() == 4);
        assert("use"@.len() == 3 && "use"@[0] == 'u');
        assert("image"@.len() == 5 && "image"@[0] == 'i');
        assert("src"@.len() == 3);
        assert("href"@.len() == 4);
        assert("xlink:href"@.len() == 10);
        assert("poster"@.len() == 6);
    }
    let src = strutil::str_eq(prop, "src");
    let href = strutil::str_eq(prop, "href");
    let xlink = strutil::str_eq(prop, "xlink:href");
    let poster = strutil::str_eq(prop, "poster");
    if strutil::str_eq(el, "img") || strutil::str_eq(el, "audio") || strutil::str_eq(el, "source")
        || strutil::str_eq(el, "track") || strutil::str_eq(el, "iframe") || strutil::str_eq(
        el,
        "embed",
    ) {
        src
    } else if strutil::str_eq(el, "video") {
        src || poster
    } else if strutil::str_eq(el, "a") || strutil::str_eq(el, "link") {
        href
    } else if strutil::str_eq(el, "use") || strutil::str_eq(el, "image") {
        href || xlink
    } else if strutil::str_eq(el, "script") {
        src || href || xlink
    } else {
        false
    }
}

} // verus!
