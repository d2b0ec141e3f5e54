//! The data model: a parsed document reduced to the plain values the
//! extraction logic reads, the extracted record, and the extraction error.

use vstd::prelude::*;

verus! {

/// One `meta` element of a document: the values of its `property`, `name`
/// and `content` attributes, each absent when the element does not carry
/// that attribute.
pub struct MetaTag {
    pub property: Option<String>,
    pub name: Option<String>,
    pub content: Option<String>,
}

/// The mathematical view of a `MetaTag`: the same three attribute values as
/// character sequences.
pub ghost struct MetaTagView {
    pub property: Option<Seq<char>>,
    pub name: Option<Seq<char>>,
    pub content: Option<Seq<char>>,
}

impl View for MetaTag {
    type V = MetaTagView;

    open spec fn view(&self) -> MetaTagView {
        MetaTagView {
            property: match self.property {
                Some(p) => Some(p@),
                None => None,
            },
            name: match self.name {
                Some(n) => Some(n@),
                None => None,
            },
            content: match self.content {
                Some(c) => Some(c@),
                None => None,
            },
        }
    }
}

/// The view of a whole sequence of `meta` elements.
pub open spec fn metas_view(metas: Seq<MetaTag>) -> Seq<MetaTagView> {
    metas.map_values(|m: MetaTag| m@)
}

/// The view of an optional string.
pub open spec fn opt_string_view(o: Option<String>) -> Option<Seq<char>> {
    match o {
        Some(s) => Some(s@),
        None => None,
    }
}

/// The record produced by a successful extraction: always fully populated,
/// never partial.
#[derive(Debug, Clone, PartialEq, Eq)]
pub struct Record {
    pub name: String,
    pub title: String,
    pub description: String,
    pub faculty: String,
    pub school: String,
}

/// The mathematical view of a `Record`.
pub ghost struct RecordView {
    pub name: Seq<char>,
    pub title: Seq<char>,
    pub description: Seq<char>,
    pub faculty: Seq<char>,
    pub school: Seq<char>,
}

impl View for Record {
    type V = RecordView;

    open spec fn view(&self) -> RecordView {
        RecordView {
            name: self.name@,
            title: self.title@,
            description: self.description@,
            faculty: self.faculty@,
            school: self.school@,
        }
    }
}

/// Why an extraction failed: one of the required `meta` lookups found no
/// value. The identifier names the lookup that failed.
#[derive(Debug, Clone, PartialEq, Eq)]
pub enum ExtractionError {
    MissingField { identifier: String },
}

/// The mathematical view of an `ExtractionError`.
pub ghost enum ExtractionErrorView {
    MissingField { identifier: Seq<char> },
}

impl View for ExtractionError {
    type V = ExtractionErrorView;

    open spec fn view(&self) -> ExtractionErrorView {
        match self {
            ExtractionError::MissingField { identifier } => ExtractionErrorView::MissingField {
                identifier: identifier@,
            },
        }
    }
}

impl ExtractionError {
    /// The identifier of the lookup that found no value.
    pub fn missing_identifier(&self) -> (r: &String)
        ensures
            self@ == (ExtractionErrorView::MissingField { identifier: r@ }),
    {
        match self {
            ExtractionError::MissingField { identifier } => identifier,
        }
    }
}

/// The view of an extraction outcome.
pub open spec fn result_view(r: Result<Record, ExtractionError>) -> Result<
    RecordView,
    ExtractionErrorView,
> {
    match r {
        Ok(record) => Ok(record@),
        Err(e) => Err(e@),
    }
}

} // verus!
