//! The static curriculum catalog: the eight sections with their keys,
//! display titles and completion XP values, the six core sections that
//! gate the certificate, and the site's pages with their titles and
//! template names.

use vstd::prelude::*;
use crate::text::str_eq;

verus! {

/// How many sections the curriculum has.
pub const SECTION_COUNT: usize = 8;

/// One of the eight fixed curriculum sections.
#[derive(Clone, Copy, PartialEq, Eq, Structural, Debug)]
pub enum SectionId {
    Foundations,
    Learning,
    Neural,
    Deep,
    Modern,
    Ethics,
    Sequential,
    Glossary,
}

/// The position of a section in the catalog order (0 to 7).
pub open spec fn spec_section_rank(s: SectionId) -> int {
    match s {
        SectionId::Foundations => 0,
        SectionId::Learning => 1,
        SectionId::Neural => 2,
        SectionId::Deep => 3,
        SectionId::Modern => 4,
        SectionId::Ethics => 5,
        SectionId::Sequential => 6,
        SectionId::Glossary => 7,
    }
}

/// The catalog order of the sections.
pub open spec fn spec_sections() -> Seq<SectionId> {
    seq![
        SectionId::Foundations,
        SectionId::Learning,
        SectionId::Neural,
        SectionId::Deep,
        SectionId::Modern,
        SectionId::Ethics,
        SectionId::Sequential,
        SectionId::Glossary,
    ]
}

/// Every rank below `SECTION_COUNT` names exactly the section stored at
/// that position of the catalog order.
pub proof fn lemma_section_rank(s: SectionId)
    ensures
        0 <= spec_section_rank(s) < SECTION_COUNT,
        spec_sections()[spec_section_rank(s)] == s,
{
}

/// Returns the position of `s` in the catalog order.
pub fn section_rank(s: SectionId) -> (r: usize)
    ensures
        r == spec_section_rank(s),
        r < SECTION_COUNT,
{
    match s {
        SectionId::Foundations => 0,
        SectionId::Learning => 1,
        SectionId::Neural => 2,
        SectionId::Deep => 3,
        SectionId::Modern => 4,
        SectionId::Ethics => 5,
        SectionId::Sequential => 6,
        SectionId::Glossary => 7,
    }
}

/// Returns all sections in catalog order.
pub fn all_sections() -> (r: Vec<SectionId>)
    ensures
        r@ == spec_sections(),
{
    let mut v: Vec<SectionId> = Vec::new();
    v.push(SectionId::Foundations);
    v.push(SectionId::Learning);
    v.push(SectionId::Neural);
    v.push(SectionId::Deep);
    v.push(SectionId::Modern);
    v.push(SectionId::Ethics);
    v.push(SectionId::Sequential);
    v.push(SectionId::Glossary);
    proof {
        assert(v@ =~= spec_sections());
    }
    v
}

/// The request-level key of a section.
pub open spec fn spec_section_key(s: SectionId) -> Seq<char> {
    match s {
        SectionId::Foundations => "foundations"@,
        SectionId::Learning => "learning"@,
        SectionId::Neural => "neural"@,
        SectionId::Deep => "deep"@,
        SectionId::Modern => "modern"@,
        SectionId::Ethics => "ethics"@,
        SectionId::Sequential => "sequential"@,
        SectionId::Glossary => "glossary"@,
    }
}

/// Returns the request-level key of `s`.
pub fn section_key(s: SectionId) -> (r: &'static str)
    ensures
        r@ == spec_section_key(s),
{
    match s {
        SectionId::Foundations => "foundations",
        SectionId::Learning => "learning",
        SectionId::Neural => "neural",
        SectionId::Deep => "deep",
        SectionId::Modern => "modern",
        SectionId::Ethics => "ethics",
        SectionId::Sequential => "sequential",
        SectionId::Glossary => "glossary",
    }
}

/// The display title of a section.
pub open spec fn spec_section_title(s: SectionId) -> Seq<char> {
    match s {
        SectionId::Foundations => "Foundations"@,
        SectionId::Learning => "Machine Learning"@,
        SectionId::Neural => "Neural Networks"@,
        SectionId::Deep => "Deep Learning"@,
        SectionId::Modern => "Modern AI"@,
        SectionId::Ethics => "Ethics & Society"@,
        SectionId::Sequential => "Sequential Models"@,
        SectionId::Glossary => "Glossary"@,
    }
}

/// Returns the display title of `s`.
pub fn section_title(s: SectionId) -> (r: &'static str)
    ensures
        r@ == spec_section_title(s),
{
    match s {
        SectionId::Foundations => "Foundations",
        SectionId::Learning => "Machine Learning",
        SectionId::Neural => "Neural Networks",
        SectionId::Deep => "Deep Learning",
        SectionId::Modern => "Modern AI",
        SectionId::Ethics => "Ethics & Society",
        SectionId::Sequential => "Sequential Models",
        SectionId::Glossary => "Glossary",
    }
}

/// The XP awarded for the first completion of a section.
pub open spec fn spec_section_xp(s: SectionId) -> u64 {
    match s {
        SectionId::Foundations => 100,
        SectionId::Learning => 120,
        SectionId::Neural => 140,
        SectionId::Deep => 160,
        SectionId::Modern => 140,
        SectionId::Ethics => 120,
        SectionId::Sequential => 80,
        SectionId::Glossary => 60,
    }
}

/// Returns the XP awarded for the first completion of `s`.
pub fn section_xp(s: SectionId) -> (r: u64)
    ensures
        r == spec_section_xp(s),
{
    match s {
        SectionId::Foundations => 100,
        SectionId::Learning => 120,
        SectionId::Neural => 140,
        SectionId::Deep => 160,
        SectionId::Modern => 140,
        SectionId::Ethics => 120,
        SectionId::Sequential => 80,
        SectionId::Glossary => 60,
    }
}

/// Whether `s` belongs to the six core sections that the certificate
/// requires (all but `Sequential` and `Glossary`).
pub open spec fn spec_is_core(s: SectionId) -> bool {
    s != SectionId::Sequential && s != SectionId::Glossary
}

/// Tells whether `s` is one of the six core sections.
pub fn is_core(s: SectionId) -> (r: bool)
    ensures
        r == spec_is_core(s),
{
    match s {
        SectionId::Sequential => false,
        SectionId::Glossary => false,
        _ => true,
    }
}

/// The section named by a request-level key, scanning the catalog order.
pub open spec fn spec_section_from(key: Seq<char>) -> Option<SectionId> {
    if key == spec_section_key(SectionId::Foundations) {
        Some(SectionId::Foundations)
    } else if key == spec_section_key(SectionId::Learning) {
        Some(SectionId::Learning)
    } else if key == spec_section_key(SectionId::Neural) {
        Some(SectionId::Neural)
    } else if key == spec_section_key(SectionId::Deep) {
        Some(SectionId::Deep)
    } else if key == spec_section_key(SectionId::Modern) {
        Some(SectionId::Modern)
    } else if key == spec_section_key(SectionId::Ethics) {
        Some(SectionId::Ethics)
    } else if key == spec_section_key(SectionId::Sequential) {
        Some(SectionId::Sequential)
    } else if key == spec_section_key(SectionId::Glossary) {
        Some(SectionId::Glossary)
    } else {
        None
    }
}

/// Parses a request-level section key; unknown keys give `None`.
pub fn section_from_str(key: &str) -> (r: Option<SectionId>)
    ensures
        r == spec_section_from(key@),
{
    if str_eq(key, "foundations") {
        Some(SectionId::Foundations)
    } else if str_eq(key, "learning") {
        Some(SectionId::Learning)
    } else if str_eq(key, "neural") {
        Some(SectionId::Neural)
    } else if str_eq(key, "deep") {
        Some(SectionId::Deep)
    } else if str_eq(key, "modern") {
        Some(SectionId::Modern)
    } else if str_eq(key, "ethics") {
        Some(SectionId::Ethics)
    } else if str_eq(key, "sequential") {
        Some(SectionId::Sequential)
    } else if str_eq(key, "glossary") {
        Some(SectionId::Glossary)
    } else {
        None
    }
}

/// One of the site's server-rendered pages.
#[derive(Clone, Copy, PartialEq, Eq, Structural, Debug)]
pub enum PageId {
    Home,
    Foundations,
    Learning,
    Neural,
    Deep,
    Modern,
    Ethics,
    Glossary,
    Mission,
}

/// The title handed to the renderer for a page.
pub open spec fn spec_page_title(p: PageId) -> Seq<char> {
    match p {
        PageId::Home => "Yavin – Understanding Artificial Intelligence"@,
        PageId::Foundations => "Foundations – Yavin"@,
        PageId::Learning => "Machine Learning – Yavin"@,
        PageId::Neural => "Neural Networks – Yavin"@,
        PageId::Deep => "Deep Learning – Yavin"@,
        PageId::Modern => "Modern AI – Yavin"@,
        PageId::Ethics => "Ethics & Society – Yavin"@,
        PageId::Glossary => "Glossary – Yavin"@,
        PageId::Mission => "Our Mission – Yavin"@,
    }
}

/// Returns the title handed to the renderer for `p`.
pub fn page_title(p: PageId) -> (r: &'static str)
    ensures
        r@ == spec_page_title(p),
{
    match p {
        PageId::Home => "Yavin – Understanding Artificial Intelligence",
        PageId::Foundations => "Foundations – Yavin",
        PageId::Learning => "Machine Learning – Yavin",
        PageId::Neural => "Neural Networks – Yavin",
        PageId::Deep => "Deep Learning – Yavin",
        PageId::Modern => "Modern AI – Yavin",
        PageId::Ethics => "Ethics & Society – Yavin",
        PageId::Glossary => "Glossary – Yavin",
        PageId::Mission => "Our Mission – Yavin",
    }
}

/// The identifier the renderer uses to mark the active page.
pub open spec fn spec_page_marker(p: PageId) -> Seq<char> {
    match p {
        PageId::Home => "home"@,
        PageId::Foundations => "foundations"@,
        PageId::Learning => "learning"@,
        PageId::Neural => "neural"@,
        PageId::Deep => "deep"@,
        PageId::Modern => "modern"@,
        PageId::Ethics => "ethics"@,
        PageId::Glossary => "glossary"@,
        PageId::Mission => "mission"@,
    }
}

/// Returns the identifier the renderer uses to mark the active page.
pub fn page_marker(p: PageId) -> (r: &'static str)
    ensures
        r@ == spec_page_marker(p),
{
    match p {
        PageId::Home => "home",
        PageId::Foundations => "foundations",
        PageId::Learning => "learning",
        PageId::Neural => "neural",
        PageId::Deep => "deep",
        PageId::Modern => "modern",
        PageId::Ethics => "ethics",
        PageId::Glossary => "glossary",
        PageId::Mission => "mission",
    }
}

/// The template file a page is rendered from.
pub open spec fn spec_page_template(p: PageId) -> Seq<char> {
    match p {
        PageId::Home => "index.html"@,
        PageId::Foundations => "foundations.html"@,
        PageId::Learning => "learning.html"@,
        PageId::Neural => "neural.html"@,
        PageId::Deep => "deep.html"@,
        PageId::Modern => "modern.html"@,
        PageId::Ethics => "ethics.html"@,
        PageId::Glossary => "glossary.html"@,
        PageId::Mission => "mission.html"@,
    }
}

/// Returns the template file `p` is rendered from.
pub fn page_template(p: PageId) -> (r: &'static str)
    ensures
        r@ == spec_page_template(p),
{
    match p {
        PageId::Home => "index.html",
        PageId::Foundations => "foundations.html",
        PageId::Learning => "learning.html",
        PageId::Neural => "neural.html",
        PageId::Deep => "deep.html",
        PageId::Modern => "modern.html",
        PageId::Ethics => "ethics.html",
        PageId::Glossary => "glossary.html",
        PageId::Mission => "mission.html",
    }
}

} // verus!
