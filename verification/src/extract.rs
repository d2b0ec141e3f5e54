//! The field-extraction logic: which `meta` element a lookup selects, what
//! each field of the record must equal, and the executable functions that
//! realize it.

use vstd::prelude::*;

use crate::model::ExtractionError;
use crate::model::ExtractionErrorView;
use crate::model::MetaTag;
use crate::model::MetaTagView;
use crate::model::Record;
use crate::model::RecordView;
use crate::model::metas_view;
use crate::model::opt_string_view;
use crate::model::result_view;
use crate::scrape::h1_text_of;
use crate::scrape::metas_of;
use crate::scrape::scrape_h1_text;
use crate::scrape::scrape_metas;

verus! {

/// The identifier whose lookup fills the `name` field.
pub open spec fn key_name() -> Seq<char> {
    "og:title"@
}

/// The identifier whose lookup fills the `description` field.
pub open spec fn key_description() -> Seq<char> {
    "og:description"@
}

/// The identifier whose lookup fills the `faculty` field.
pub open spec fn key_faculty() -> Seq<char> {
    "faculty_metatag"@
}

/// The identifier whose lookup fills the `school` field.
pub open spec fn key_school() -> Seq<char> {
    "school_metatag"@
}

/// Whether a `meta` element matches an identifier: its `property` attribute
/// equals the identifier, or its `name` attribute does. The two spellings
/// are alternatives of equal standing.
pub open spec fn meta_matches(m: MetaTagView, id: Seq<char>) -> bool {
    m.property == Some(id) || m.name == Some(id)
}

/// The value a lookup selects: the `content` attribute of the first element
/// in document order that matches the identifier. `None` when no element
/// matches, and also when the first matching element carries no `content`
/// attribute — later matches are never consulted.
pub open spec fn meta_lookup(metas: Seq<MetaTagView>, id: Seq<char>) -> Option<Seq<char>>
    decreases metas.len(),
{
    if metas.len() == 0 {
        None
    } else if meta_matches(metas[0], id) {
        metas[0].content
    } else {
        meta_lookup(metas.drop_first(), id)
    }
}

/// The `title` field: the first heading's text when there is one, the empty
/// string otherwise. This is the one field with a non-failing fallback.
pub open spec fn title_spec(h1_text: Option<Seq<char>>) -> Seq<char> {
    match h1_text {
        Some(t) => t,
        None => Seq::empty(),
    }
}

/// The outcome of an extraction, as a function of the `meta` elements in
/// document order and the first heading's text. The four required lookups
/// are checked in a fixed order — name, description, faculty, school — and
/// the first one without a value fails the whole extraction.
pub open spec fn extract_spec(metas: Seq<MetaTagView>, h1_text: Option<Seq<char>>) -> Result<
    RecordView,
    ExtractionErrorView,
> {
    if meta_lookup(metas, key_name()) is None {
        Err(ExtractionErrorView::MissingField { identifier: key_name() })
    } else if meta_lookup(metas, key_description()) is None {
        Err(ExtractionErrorView::MissingField { identifier: key_description() })
    } else if meta_lookup(metas, key_faculty()) is None {
        Err(ExtractionErrorView::MissingField { identifier: key_faculty() })
    } else if meta_lookup(metas, key_school()) is None {
        Err(ExtractionErrorView::MissingField { identifier: key_school() })
    } else {
        Ok(
            RecordView {
                name: meta_lookup(metas, key_name())->0,
                title: title_spec(h1_text),
                description: meta_lookup(metas, key_description())->0,
                faculty: meta_lookup(metas, key_faculty())->0,
                school: meta_lookup(metas, key_school())->0,
            },
        )
    }
}

/// The lookup selects the content of the element at `i` when that element
/// matches the identifier and no earlier element does.
pub proof fn lemma_lookup_first_match(metas: Seq<MetaTagView>, id: Seq<char>, i: int)
    requires
        0 <= i < metas.len(),
        meta_matches(metas[i], id),
        forall|j: int| 0 <= j < i ==> !meta_matches(metas[j], id),
    ensures
        meta_lookup(metas, id) == metas[i].content,
    decreases i,
{
    if i > 0 {
        lemma_lookup_first_match(metas.drop_first(), id, i - 1);
    }
}

/// The lookup selects nothing when no element matches the identifier.
pub proof fn lemma_lookup_no_match(metas: Seq<MetaTagView>, id: Seq<char>)
    requires
        forall|j: int| 0 <= j < metas.len() ==> !meta_matches(metas[j], id),
    ensures
        meta_lookup(metas, id) is None,
    decreases metas.len(),
{
    if metas.len() > 0 {
        lemma_lookup_no_match(metas.drop_first(), id);
    }
}

/// Searches the `meta` elements, in document order, for the first one whose
/// `property` or `name` attribute equals the identifier, and returns its
/// `content` attribute value; fails with `MissingField` naming the
/// identifier when no element matches or the first match has no `content`.
pub fn extract_meta_content(metas: &Vec<MetaTag>, identifier: &str) -> (r: Result<
    String,
    ExtractionError,
>)
    ensures
        match r {
            Ok(content) => meta_lookup(metas_view(metas@), identifier@) == Some(content@),
            Err(e) => meta_lookup(metas_view(metas@), identifier@) is None && e@
                == (ExtractionErrorView::MissingField { identifier: identifier@ }),
        },
{
    let id: String = identifier.to_owned();
    let ghost ms = metas_view(metas@);
    let mut i: usize = 0;
    while i < metas.len()
        invariant
            0 <= i <= metas@.len(),
            ms == metas_view(metas@),
            ms.len() == metas@.len(),
            id@ == identifier@,
            forall|j: int| 0 <= j < i ==> !meta_matches(ms[j], identifier@),
        decreases metas@.len() - i,
    {
        let m = &metas[i];
        let property_matches = match &m.property {
            Some(p) => *p == id,
            None => false,
        };
        let name_matches = match &m.name {
            Some(n) => *n == id,
            None => false,
        };
        if property_matches || name_matches {
            proof {
                lemma_lookup_first_match(ms, identifier@, i as int);
            }
            return match &m.content {
                Some(c) => Ok(c.clone()),
                None => Err(ExtractionError::MissingField { identifier: id }),
            };
        }
        i = i + 1;
    }
    proof {
        lemma_lookup_no_match(ms, identifier@);
    }
    Err(ExtractionError::MissingField { identifier: id })
}

/// Assembles a record from the plain values of a parsed document: the four
/// required lookups in their fixed checking order, then the heading text
/// with its empty-string fallback. Fails with the first missing identifier;
/// no partial record is ever produced.
pub fn extract_from_parts(metas: &Vec<MetaTag>, h1_text: &Option<String>) -> (r: Result<
    Record,
    ExtractionError,
>)
    ensures
        result_view(r) == extract_spec(metas_view(metas@), opt_string_view(*h1_text)),
{
    let name = match extract_meta_content(metas, "og:title") {
        Ok(v) => v,
        Err(e) => {
            return Err(e);
        },
    };
    let description = match extract_meta_content(metas, "og:description") {
        Ok(v) => v,
        Err(e) => {
            return Err(e);
        },
    };
    let faculty = match extract_meta_content(metas, "faculty_metatag") {
        Ok(v) => v,
        Err(e) => {
            return Err(e);
        },
    };
    let school = match extract_meta_content(metas, "school_metatag") {
        Ok(v) => v,
        Err(e) => {
            return Err(e);
        },
    };
    let title = match h1_text {
        Some(t) => t.clone(),
        None => String::new(),
    };
    Ok(Record { name, title, description, faculty, school })
}

/// Extracts the five metadata fields from raw HTML text: the parser recovers
/// a document, the four required `meta` lookups fill `name`, `description`,
/// `faculty` and `school`, and the first heading's text fills `title`. A
/// pure function of the text: the outcome is exactly
/// `extract_spec(metas_of(html@), h1_text_of(html@))`.
pub fn extract(html: &str) -> (r: Result<Record, ExtractionError>)
    ensures
        result_view(r) == extract_spec(metas_of(html@), h1_text_of(html@)),
{
    let metas = scrape_metas(html);
    let h1_text = scrape_h1_text(html);
    extract_from_parts(&metas, &h1_text)
}

} // verus!
