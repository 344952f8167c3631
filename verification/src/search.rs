//! Case-insensitive substring search over the static page index.
//!
//! Matching works on UTF-8 bytes with ASCII case folding: the query and
//! the indexed texts are lowered byte by byte (only `A` to `Z` change)
//! and the query must occur as a contiguous byte run. Queries shorter
//! than two characters return no hits.

use vstd::prelude::*;
use vstd::string::StringSliceAdditionalSpecFns;
use vstd::utf8::encode_utf8;
use crate::catalog::{PageId, page_marker, page_title, spec_page_marker, spec_page_title};
use crate::seqext::lemma_filter_push;

verus! {

/// ASCII case folding of one byte.
pub open spec fn spec_lower_byte(b: u8) -> u8 {
    if 65 <= b <= 90 {
        (b + 32) as u8
    } else {
        b
    }
}

/// ASCII case folding of a byte sequence.
pub open spec fn spec_lower(s: Seq<u8>) -> Seq<u8> {
    Seq::new(s.len(), |i: int| spec_lower_byte(s[i]))
}

/// Folds the case of every byte of `v`.
pub fn lower_bytes(v: &Vec<u8>) -> (r: Vec<u8>)
    ensures
        r@ == spec_lower(v@),
{
    let mut r: Vec<u8> = Vec::new();
    let mut i: usize = 0;
    while i < v.len()
        invariant
            0 <= i <= v@.len(),
            r@.len() == i,
            forall|j: int| 0 <= j < i ==> r@[j] == spec_lower_byte(v@[j]),
        decreases v@.len() - i,
    {
        let b = v[i];
        if 65 <= b && b <= 90 {
            r.push(b + 32);
        } else {
            r.push(b);
        }
        i += 1;
    }
    proof {
        assert(r@ =~= spec_lower(v@));
    }
    r
}

/// Whether `needle` occurs in `hay` as a contiguous run.
pub open spec fn spec_contains_sub(hay: Seq<u8>, needle: Seq<u8>) -> bool {
    exists|i: int|
        0 <= i <= hay.len() - needle.len() && #[trigger] hay.subrange(i, i + needle.len())
            =~= needle
}

/// Tells whether `needle` occurs in `hay` as a contiguous run.
pub fn contains_sub(hay: &Vec<u8>, needle: &Vec<u8>) -> (r: bool)
    ensures
        r == spec_contains_sub(hay@, needle@),
{
    let n = needle.len();
    let h = hay.len();
    if n > h {
        return false;
    }
    let mut i: usize = 0;
    while i <= h - n
        invariant
            n == needle@.len(),
            h == hay@.len(),
            n <= h,
            0 <= i <= h - n + 1,
            forall|ii: int|
                0 <= ii < i ==> !(#[trigger] hay@.subrange(ii, ii + needle@.len()) =~= needle@),
        decreases h - i,
    {
        let mut j: usize = 0;
        let mut hit = true;
        while j < n
            invariant
                n == needle@.len(),
                h == hay@.len(),
                n <= h,
                0 <= i <= h - n,
                0 <= j <= n,
                hit ==> forall|jj: int| 0 <= jj < j ==> hay@[i + jj] == needle@[jj],
                !hit ==> !(hay@.subrange(i as int, i + needle@.len()) =~= needle@),
            decreases n - j,
        {
            if hay[i + j] != needle[j] {
                proof {
                    assert(hay@.subrange(i as int, i + needle@.len())[j as int] == hay@[i + j]);
                }
                hit = false;
                j = n;
            } else {
                j += 1;
            }
        }
        if hit {
            proof {
                assert(hay@.subrange(i as int, i + needle@.len()) =~= needle@);
            }
            return true;
        }
        i += 1;
    }
    proof {
        assert forall|ii: int|
            0 <= ii <= hay@.len() - needle@.len() implies !(#[trigger] hay@.subrange(
            ii,
            ii + needle@.len(),
        ) =~= needle@) by {
            assert(ii < i);
        }
    }
    false
}

/// All pages, in site order.
pub open spec fn spec_pages() -> Seq<PageId> {
    seq![
        PageId::Home,
        PageId::Foundations,
        PageId::Learning,
        PageId::Neural,
        PageId::Deep,
        PageId::Modern,
        PageId::Ethics,
        PageId::Glossary,
        PageId::Mission,
    ]
}

/// Returns all pages in site order.
pub fn all_pages() -> (r: Vec<PageId>)
    ensures
        r@ == spec_pages(),
{
    let mut v: Vec<PageId> = Vec::new();
    v.push(PageId::Home);
    v.push(PageId::Foundations);
    v.push(PageId::Learning);
    v.push(PageId::Neural);
    v.push(PageId::Deep);
    v.push(PageId::Modern);
    v.push(PageId::Ethics);
    v.push(PageId::Glossary);
    v.push(PageId::Mission);
    proof {
        assert(v@ =~= spec_pages());
    }
    v
}

/// The path a page is served under.
pub open spec fn spec_page_url(p: PageId) -> Seq<char> {
    match p {
        PageId::Home => "/"@,
        PageId::Foundations => "/foundations"@,
        PageId::Learning => "/learning"@,
        PageId::Neural => "/neural"@,
        PageId::Deep => "/deep"@,
        PageId::Modern => "/modern"@,
        PageId::Ethics => "/ethics"@,
        PageId::Glossary => "/glossary"@,
        PageId::Mission => "/mission"@,
    }
}

/// Returns the path a page is served under.
pub fn page_url(p: PageId) -> (r: &'static str)
    ensures
        r@ == spec_page_url(p),
{
    match p {
        PageId::Home => "/",
        PageId::Foundations => "/foundations",
        PageId::Learning => "/learning",
        PageId::Neural => "/neural",
        PageId::Deep => "/deep",
        PageId::Modern => "/modern",
        PageId::Ethics => "/ethics",
        PageId::Glossary => "/glossary",
        PageId::Mission => "/mission",
    }
}

/// The search keywords indexed for a page.
pub open spec fn spec_page_keywords(p: PageId) -> Seq<char> {
    match p {
        PageId::Home => "ai artificial intelligence learn start overview"@,
        PageId::Foundations => "basics history turing logic symbolic"@,
        PageId::Learning => "machine learning data training models supervised"@,
        PageId::Neural => "neurons layers weights activation perceptron"@,
        PageId::Deep => "deep networks backpropagation gradients representation"@,
        PageId::Modern => "transformers language models generative scale"@,
        PageId::Ethics => "ethics society bias fairness safety impact"@,
        PageId::Glossary => "glossary terms definitions vocabulary reference"@,
        PageId::Mission => "mission about goals education accessibility"@,
    }
}

/// Returns the search keywords indexed for a page.
pub fn page_keywords(p: PageId) -> (r: &'static str)
    ensures
        r@ == spec_page_keywords(p),
{
    match p {
        PageId::Home => "ai artificial intelligence learn start overview",
        PageId::Foundations => "basics history turing logic symbolic",
        PageId::Learning => "machine learning data training models supervised",
        PageId::Neural => "neurons layers weights activation perceptron",
        PageId::Deep => "deep networks backpropagation gradients representation",
        PageId::Modern => "transformers language models generative scale",
        PageId::Ethics => "ethics society bias fairness safety impact",
        PageId::Glossary => "glossary terms definitions vocabulary reference",
        PageId::Mission => "mission about goals education accessibility",
    }
}

/// Whether a page matches a lowered query: the query occurs in the
/// lowered bytes of its title, its page marker, or its keywords.
pub open spec fn spec_page_matches(p: PageId, query_lower: Seq<u8>) -> bool {
    ||| spec_contains_sub(spec_lower(encode_utf8(spec_page_title(p))), query_lower)
    ||| spec_contains_sub(spec_lower(encode_utf8(spec_page_marker(p))), query_lower)
    ||| spec_contains_sub(spec_lower(encode_utf8(spec_page_keywords(p))), query_lower)
}

/// The pages a query hits, in site order.
pub open spec fn spec_hits(query_lower: Seq<u8>) -> Seq<PageId> {
    spec_pages().filter(|p: PageId| spec_page_matches(p, query_lower))
}

/// Tells whether one page matches a lowered query.
fn page_matches(p: PageId, query_lower: &Vec<u8>) -> (r: bool)
    ensures
        r == spec_page_matches(p, query_lower@),
{
    let title_bytes = page_title(p).as_bytes_vec();
    let title_lower = lower_bytes(&title_bytes);
    if contains_sub(&title_lower, query_lower) {
        return true;
    }
    let marker_bytes = page_marker(p).as_bytes_vec();
    let marker_lower = lower_bytes(&marker_bytes);
    if contains_sub(&marker_lower, query_lower) {
        return true;
    }
    let kw_bytes = page_keywords(p).as_bytes_vec();
    let kw_lower = lower_bytes(&kw_bytes);
    contains_sub(&kw_lower, query_lower)
}

/// Finds the pages a query hits, in site order. Queries shorter than
/// two characters hit nothing.
pub fn search_hits(query: &str) -> (r: Vec<PageId>)
    ensures
        query@.len() < 2 ==> r@ == Seq::<PageId>::empty(),
        query@.len() >= 2 ==> r@ == spec_hits(spec_lower(query.spec_bytes())),
{
    if query.unicode_len() < 2 {
        return Vec::new();
    }
    let query_bytes = query.as_bytes_vec();
    let query_lower = lower_bytes(&query_bytes);
    let ghost pred = |p: PageId| spec_page_matches(p, query_lower@);
    let pages = all_pages();
    let mut hits: Vec<PageId> = Vec::new();
    let mut k: usize = 0;
    while k < pages.len()
        invariant
            pages@ == spec_pages(),
            query_lower@ == spec_lower(query.spec_bytes()),
            0 <= k <= pages@.len(),
            hits@ == spec_pages().subrange(0, k as int).filter(pred),
            pred == (|p: PageId| spec_page_matches(p, query_lower@)),
        decreases pages@.len() - k,
    {
        let p = pages[k];
        proof {
            assert(spec_pages().subrange(0, k + 1) =~= spec_pages().subrange(0, k as int).push(
                pages@[k as int],
            ));
            lemma_filter_push(spec_pages().subrange(0, k as int), pred, pages@[k as int]);
        }
        if page_matches(p, &query_lower) {
            hits.push(p);
        }
        k += 1;
    }
    proof {
        assert(spec_pages().subrange(0, spec_pages().len() as int) =~= spec_pages());
    }
    hits
}

/// One row of the search index, as the endpoint reports it.
#[derive(Clone, Debug)]
pub struct SearchEntry {
    /// The page title.
    pub title: String,
    /// The page marker (also the section key for section pages).
    pub section: String,
    /// The path the page is served under.
    pub url: String,
    /// The indexed keywords.
    pub keywords: String,
}

/// Builds the index row of one page.
pub fn entry_for(p: PageId) -> (r: SearchEntry)
    ensures
        r.title@ == spec_page_title(p),
        r.section@ == spec_page_marker(p),
        r.url@ == spec_page_url(p),
        r.keywords@ == spec_page_keywords(p),
{
    SearchEntry {
        title: String::from_str(page_title(p)),
        section: String::from_str(page_marker(p)),
        url: String::from_str(page_url(p)),
        keywords: String::from_str(page_keywords(p)),
    }
}

/// Runs a search and reports the matching index rows, in site order.
pub fn search(query: &str) -> (r: Vec<SearchEntry>)
    ensures
        query@.len() < 2 ==> r@.len() == 0,
        query@.len() >= 2 ==> {
            let hits = spec_hits(spec_lower(query.spec_bytes()));
            &&& r@.len() == hits.len()
            &&& forall|i: int|
                0 <= i < hits.len() ==> {
                    &&& (#[trigger] r@[i]).title@ == spec_page_title(hits[i])
                    &&& r@[i].section@ == spec_page_marker(hits[i])
                    &&& r@[i].url@ == spec_page_url(hits[i])
                    &&& r@[i].keywords@ == spec_page_keywords(hits[i])
                }
        },
{
    let hits = search_hits(query);
    let mut r: Vec<SearchEntry> = Vec::new();
    let mut k: usize = 0;
    while k < hits.len()
        invariant
            query@.len() < 2 ==> hits@ == Seq::<PageId>::empty(),
            query@.len() >= 2 ==> hits@ == spec_hits(spec_lower(query.spec_bytes())),
            0 <= k <= hits@.len(),
            r@.len() == k,
            forall|i: int|
                0 <= i < k ==> {
                    &&& (#[trigger] r@[i]).title@ == spec_page_title(hits@[i])
                    &&& r@[i].section@ == spec_page_marker(hits@[i])
                    &&& r@[i].url@ == spec_page_url(hits@[i])
                    &&& r@[i].keywords@ == spec_page_keywords(hits@[i])
                },
        decreases hits@.len() - k,
    {
        r.push(entry_for(hits[k]));
        k += 1;
    }
    r
}

} // verus!
