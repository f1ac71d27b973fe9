//! Data model: the schemaless source document (restricted to the fields the
//! migration projects), the normalized output record, and their mathematical
//! views.
use vstd::prelude::*;

verus! {

/// One entry of a source document's `sources` array; only its optional
/// `url` field is ever consulted.
#[derive(Clone, Debug)]
pub struct SourceEntry {
    pub url: Option<String>,
}

/// A source document, after projection to the fields the migration reads.
/// Every field is optional: the source collection enforces no schema.
#[derive(Clone, Debug)]
pub struct SourceDoc {
    pub id: Option<String>,
    pub creator: Option<String>,
    pub product_name: Option<String>,
    pub sources: Option<Vec<SourceEntry>>,
}

/// The normalized record written to the target collection.
#[derive(Clone, Debug)]
pub struct Usda {
    pub id: String,
    pub product_name: String,
    pub url: String,
}

/// Mathematical view of a `SourceEntry`.
pub struct EntryView {
    pub url: Option<Seq<char>>,
}

/// Mathematical view of a `SourceDoc`.
pub struct DocView {
    pub id: Option<Seq<char>>,
    pub creator: Option<Seq<char>>,
    pub product_name: Option<Seq<char>>,
    pub sources: Option<Seq<EntryView>>,
}

/// Mathematical view of a `Usda` record: its three fields as character
/// sequences.
pub struct RecordView {
    pub id: Seq<char>,
    pub product_name: Seq<char>,
    pub url: Seq<char>,
}

impl View for SourceEntry {
    type V = EntryView;

    open spec fn view(&self) -> EntryView {
        EntryView {
            url: match self.url {
                Some(u) => Some(u@),
                None => None,
            },
        }
    }
}

impl View for SourceDoc {
    type V = DocView;

    open spec fn view(&self) -> DocView {
        DocView {
            id: match self.id {
                Some(s) => Some(s@),
                None => None,
            },
            creator: match self.creator {
                Some(s) => Some(s@),
                None => None,
            },
            product_name: match self.product_name {
                Some(s) => Some(s@),
                None => None,
            },
            sources: match self.sources {
                Some(v) => Some(v@.map_values(|e: SourceEntry| e@)),
                None => None,
            },
        }
    }
}

impl View for Usda {
    type V = RecordView;

    open spec fn view(&self) -> RecordView {
        RecordView { id: self.id@, product_name: self.product_name@, url: self.url@ }
    }
}

impl DocView {
    /// The output identifier is required: a document without `_id` yields no
    /// record.
    pub open spec fn has_id(self) -> bool {
        self.id is Some
    }

    /// The product name the record carries: the source's `product_name`, or
    /// empty when absent.
    pub open spec fn product_name_or_default(self) -> Seq<char> {
        match self.product_name {
            Some(p) => p,
            None => Seq::empty(),
        }
    }

    /// The url the extractor strategy takes: the `url` of the first element
    /// of `sources`, or empty when `sources` is absent, empty, or its first
    /// element has no `url`.
    pub open spec fn first_url_or_default(self) -> Seq<char> {
        match self.sources {
            Some(entries) => if entries.len() > 0 {
                match entries[0].url {
                    Some(u) => u,
                    None => Seq::empty(),
                }
            } else {
                Seq::empty()
            },
            None => Seq::empty(),
        }
    }

    /// The record the extractor produces for a document that has an `_id`.
    pub open spec fn extracted_record(self) -> RecordView {
        RecordView {
            id: self.id->0,
            product_name: self.product_name_or_default(),
            url: self.first_url_or_default(),
        }
    }
}

} // verus!
