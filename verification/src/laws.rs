//! The laws of the extractor, stated over the document model and proved:
//! purity, the equal standing of the two attribute spellings, the
//! first-match tie-break, and the two faces of the all-or-nothing outcome.

use vstd::prelude::*;

use crate::extract::extract_spec;
use crate::extract::key_description;
use crate::extract::key_faculty;
use crate::extract::key_name;
use crate::extract::key_school;
use crate::extract::meta_lookup;
use crate::extract::meta_matches;
use crate::extract::title_spec;
use crate::model::ExtractionErrorView;
use crate::model::MetaTagView;
use crate::model::RecordView;
use crate::scrape::h1_text_of;
use crate::scrape::metas_of;

verus! {

/// Extraction is a pure function of the text: any two outcomes obtained
/// from the same HTML text are equal. Combined with the postcondition of
/// `extract`, running extraction twice on one text yields equal results.
pub proof fn lemma_extract_pure(
    html: Seq<char>,
    r1: Result<RecordView, ExtractionErrorView>,
    r2: Result<RecordView, ExtractionErrorView>,
)
    requires
        r1 == extract_spec(metas_of(html), h1_text_of(html)),
        r2 == extract_spec(metas_of(html), h1_text_of(html)),
    ensures
        r1 == r2,
{
}

/// Two `meta` elements are equal up to spelling when they carry the same
/// `content` and the same pair of identifying attributes, with `property`
/// and `name` possibly exchanged.
pub open spec fn same_up_to_spelling(m1: MetaTagView, m2: MetaTagView) -> bool {
    m1.content == m2.content && ((m1.property == m2.property && m1.name == m2.name) || (m1.property
        == m2.name && m1.name == m2.property))
}

/// An element matches an identifier independently of which of the two
/// spellings carries it.
pub proof fn lemma_spelling_matches(m1: MetaTagView, m2: MetaTagView, id: Seq<char>)
    requires
        same_up_to_spelling(m1, m2),
    ensures
        meta_matches(m1, id) == meta_matches(m2, id),
{
}

/// A lookup cannot tell two documents apart whose elements are pairwise
/// equal up to spelling.
pub proof fn lemma_lookup_spelling(m1: Seq<MetaTagView>, m2: Seq<MetaTagView>, id: Seq<char>)
    requires
        m1.len() == m2.len(),
        forall|i: int| 0 <= i < m1.len() ==> same_up_to_spelling(m1[i], m2[i]),
    ensures
        meta_lookup(m1, id) == meta_lookup(m2, id),
    decreases m1.len(),
{
    if m1.len() > 0 {
        assert(same_up_to_spelling(m1[0], m2[0]));
        if !meta_matches(m1[0], id) {
            assert forall|i: int| 0 <= i < m1.drop_first().len() implies same_up_to_spelling(
                m1.drop_first()[i],
                m2.drop_first()[i],
            ) by {
                assert(same_up_to_spelling(m1[i + 1], m2[i + 1]));
            }
            lemma_lookup_spelling(m1.drop_first(), m2.drop_first(), id);
        }
    }
}

/// Attribute-alternative equivalence: a document that names an identifier
/// in a `name` attribute is treated identically to one that names it in
/// `property` — exchanging the spellings of any elements changes the
/// extraction outcome not at all.
pub proof fn lemma_attribute_alternative(
    m1: Seq<MetaTagView>,
    m2: Seq<MetaTagView>,
    h1_text: Option<Seq<char>>,
)
    requires
        m1.len() == m2.len(),
        forall|i: int| 0 <= i < m1.len() ==> same_up_to_spelling(m1[i], m2[i]),
    ensures
        extract_spec(m1, h1_text) == extract_spec(m2, h1_text),
{
    lemma_lookup_spelling(m1, m2, key_name());
    lemma_lookup_spelling(m1, m2, key_description());
    lemma_lookup_spelling(m1, m2, key_faculty());
    lemma_lookup_spelling(m1, m2, key_school());
}

/// First match wins: once some element of the document matches an
/// identifier, appending a further element — whatever it carries — leaves
/// the lookup unchanged; duplicates later in document order are ignored.
pub proof fn lemma_first_match_wins(metas: Seq<MetaTagView>, extra: MetaTagView, id: Seq<char>)
    requires
        exists|i: int| 0 <= i < metas.len() && meta_matches(metas[i], id),
    ensures
        meta_lookup(metas.push(extra), id) == meta_lookup(metas, id),
    decreases metas.len(),
{
    assert(metas.push(extra)[0] == metas[0]);
    if !meta_matches(metas[0], id) {
        let i = choose|i: int| 0 <= i < metas.len() && meta_matches(metas[i], id);
        assert(meta_matches(metas.drop_first()[i - 1], id));
        lemma_first_match_wins(metas.drop_first(), extra, id);
        assert(metas.push(extra).drop_first() =~= metas.drop_first().push(extra));
    }
}

/// The success face of the all-or-nothing outcome: when each of the four
/// required lookups yields a value, extraction succeeds, each meta-derived
/// field equals the value its lookup selected, and the title equals the
/// first heading's text, or the empty string when there is none.
pub proof fn lemma_extract_success(metas: Seq<MetaTagView>, h1_text: Option<Seq<char>>)
    requires
        meta_lookup(metas, key_name()) is Some,
        meta_lookup(metas, key_description()) is Some,
        meta_lookup(metas, key_faculty()) is Some,
        meta_lookup(metas, key_school()) is Some,
    ensures
        extract_spec(metas, h1_text) == Ok::<RecordView, ExtractionErrorView>(
            RecordView {
                name: meta_lookup(metas, key_name())->0,
                title: title_spec(h1_text),
                description: meta_lookup(metas, key_description())->0,
                faculty: meta_lookup(metas, key_faculty())->0,
                school: meta_lookup(metas, key_school())->0,
            },
        ),
{
}

/// The failure face: when some required lookup yields no value, extraction
/// produces no record and fails with the first value-less identifier in the
/// fixed checking order — name, description, faculty, school.
pub proof fn lemma_extract_missing(metas: Seq<MetaTagView>, h1_text: Option<Seq<char>>)
    requires
        meta_lookup(metas, key_name()) is None || meta_lookup(metas, key_description()) is None
            || meta_lookup(metas, key_faculty()) is None || meta_lookup(metas, key_school())
            is None,
    ensures
        extract_spec(metas, h1_text) == Err::<RecordView, ExtractionErrorView>(
            ExtractionErrorView::MissingField {
                identifier: if meta_lookup(metas, key_name()) is None {
                    key_name()
                } else if meta_lookup(metas, key_description()) is None {
                    key_description()
                } else if meta_lookup(metas, key_faculty()) is None {
                    key_faculty()
                } else {
                    key_school()
                },
            },
        ),
{
}

} // verus!
