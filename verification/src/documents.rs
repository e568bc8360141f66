//! Documents read from files: one per page, with the file and page number
//! as metadata, and the merging of several into one.

use vstd::prelude::*;
use crate::string_map::StringMap;
use crate::text::{decimal, join, join_spec, usize_to_string, views};

verus! {

/// A piece of text with its metadata.
#[derive(Debug)]
pub struct Document {
    pub content: String,
    pub metadata: StringMap,
}

/// The metadata of page `page` of `file_path`.
pub open spec fn page_metadata(file_path: Seq<char>, page: nat) -> Map<Seq<char>, Seq<char>> {
    Map::empty().insert("source"@, file_path).insert("page"@, decimal(page))
}

/// One document per page of `file_path`, numbering pages from 1.
pub fn page_documents(file_path: &str, pages: &Vec<String>) -> (r: Vec<Document>)
    requires
        pages@.len() < usize::MAX,
    ensures
        r@.len() == pages@.len(),
        forall|i: int| 0 <= i < pages@.len() ==> (#[trigger] r@[i]).content@ == pages@[i]@ && r@[i].metadata@
            == page_metadata(file_path@, (i + 1) as nat),
{
    let mut r: Vec<Document> = Vec::new();
    let mut i: usize = 0;
    while i < pages.len()
        invariant
            i <= pages@.len(),
            pages@.len() < usize::MAX,
            r@.len() == i,
            forall|j: int| 0 <= j < i ==> (#[trigger] r@[j]).content@ == pages@[j]@ && r@[j].metadata@ == page_metadata(
                file_path@,
                (j + 1) as nat,
            ),
        decreases pages@.len() - i,
    {
        let mut metadata = StringMap::new();
        metadata.insert(String::from_str("source"), String::from_str(file_path));
        metadata.insert(String::from_str("page"), usize_to_string(i + 1));
        r.push(Document { content: pages[i].clone(), metadata });
        i = i + 1;
    }
    r
}

/// The metadata of several documents together: a later document's value
/// wins for a key they share.
pub open spec fn merged_metadata(docs: Seq<Document>) -> Map<Seq<char>, Seq<char>>
    decreases docs.len(),
{
    if docs.len() == 0 {
        Map::empty()
    } else {
        merged_metadata(docs.drop_last()).union_prefer_right(docs.last().metadata@)
    }
}

/// The contents of documents, in order.
pub open spec fn contents(docs: Seq<Document>) -> Seq<Seq<char>> {
    docs.map_values(|d: Document| d.content@)
}

/// One document holding the contents of all, separated by blank lines, and
/// their metadata together (see `merged_metadata`).
pub fn merge_documents(documents: &[Document]) -> (r: Document)
    ensures
        r.content@ == join_spec(contents(documents@), "\n\n"@),
        r.metadata@ == merged_metadata(documents@),
{
    let mut texts: Vec<String> = Vec::new();
    let mut metadata = StringMap::new();
    let mut i: usize = 0;
    while i < documents.len()
        invariant
            i <= documents@.len(),
            views(texts@) == contents(documents@.subrange(0, i as int)),
            metadata@ == merged_metadata(documents@.subrange(0, i as int)),
        decreases documents@.len() - i,
    {
        proof {
            assert(documents@.subrange(0, i + 1).drop_last() =~= documents@.subrange(0, i as int));
        }
        let ghost prev = texts@;
        let t = documents[i].content.clone();
        texts.push(t);
        metadata.extend(&documents[i].metadata);
        assert(views(texts@) =~= views(prev).push(documents@[i as int].content@));
        assert(contents(documents@.subrange(0, i + 1)) =~= contents(documents@.subrange(0, i as int)).push(
            documents@[i as int].content@,
        ));
        i = i + 1;
    }
    assert(documents@.subrange(0, documents@.len() as int) =~= documents@);
    let content = join(&texts, "\n\n");
    Document { content, metadata }
}

} // verus!
