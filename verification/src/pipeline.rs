//! The migration pipeline: per-document stepping with run accounting, the
//! whole-run extractor strategy, the server-side aggregation strategy
//! modeled client-side, and the laws relating them.
use vstd::prelude::*;

use crate::extract::transform;
use crate::filter::{matches_filter, spec_matches_filter};
use crate::model::{DocView, EntryView, RecordView, SourceDoc, SourceEntry, Usda};

verus! {

/// The views of a sequence of source documents.
pub open spec fn docs_views(docs: Seq<SourceDoc>) -> Seq<DocView> {
    docs.map_values(|d: SourceDoc| d@)
}

/// A document yields a record exactly when it matches the filter and
/// carries the required `_id`.
pub open spec fn qualifies(d: DocView, token: Seq<char>) -> bool {
    spec_matches_filter(d, token) && d.has_id()
}

/// The records the extractor strategy produces for a source collection, in
/// the store's presentation order.
pub open spec fn extracted_records(docs: Seq<DocView>, token: Seq<char>) -> Seq<RecordView>
    decreases docs.len(),
{
    if docs.len() == 0 {
        Seq::empty()
    } else {
        let rest = extracted_records(docs.drop_last(), token);
        if qualifies(docs.last(), token) {
            rest.push(docs.last().extracted_record())
        } else {
            rest
        }
    }
}

/// The subsequence of documents that yield a record.
pub open spec fn qualifying_docs(docs: Seq<DocView>, token: Seq<char>) -> Seq<DocView>
    decreases docs.len(),
{
    if docs.len() == 0 {
        Seq::empty()
    } else {
        let rest = qualifying_docs(docs.drop_last(), token);
        if qualifies(docs.last(), token) {
            rest.push(docs.last())
        } else {
            rest
        }
    }
}

/// How many documents of the collection match the filter (and so are read
/// by the client after server-side filtering).
pub open spec fn count_matching(docs: Seq<DocView>, token: Seq<char>) -> nat
    decreases docs.len(),
{
    if docs.len() == 0 {
        0
    } else {
        count_matching(docs.drop_last(), token) + if spec_matches_filter(docs.last(), token) {
            1nat
        } else {
            0nat
        }
    }
}

/// The url of the first element of `sources` that carries one, or empty
/// when none does. This is what the store's `unwind`-then-first-index
/// selection yields, since path projection over an array keeps only the
/// elements where the field is present.
pub open spec fn first_present_url(entries: Seq<EntryView>) -> Seq<char>
    decreases entries.len(),
{
    if entries.len() == 0 {
        Seq::empty()
    } else {
        match entries[0].url {
            Some(u) => u,
            None => first_present_url(entries.drop_first()),
        }
    }
}

/// The record the aggregation strategy produces for a matching document
/// that has an `_id`.
pub open spec fn aggregated_record(d: DocView) -> RecordView {
    RecordView {
        id: d.id->0,
        product_name: d.product_name_or_default(),
        url: first_present_url(d.sources->0),
    }
}

/// The records the aggregation strategy produces for a source collection.
pub open spec fn aggregated_records(docs: Seq<DocView>, token: Seq<char>) -> Seq<RecordView>
    decreases docs.len(),
{
    if docs.len() == 0 {
        Seq::empty()
    } else {
        let rest = aggregated_records(docs.drop_last(), token);
        if qualifies(docs.last(), token) {
            rest.push(aggregated_record(docs.last()))
        } else {
            rest
        }
    }
}

/// No more documents match than there are.
pub proof fn lemma_count_matching_le_len(docs: Seq<DocView>, token: Seq<char>)
    ensures
        count_matching(docs, token) <= docs.len(),
    decreases docs.len(),
{
    if docs.len() > 0 {
        lemma_count_matching_le_len(docs.drop_last(), token);
    }
}

/// The run summary: documents read from the filtered cursor, records
/// transformed, documents skipped per-record (missing `_id` or a row-level
/// decode failure), and the outcome of the writes.
#[derive(Clone, Copy, PartialEq, Eq, Structural, Debug)]
pub struct RunCounts {
    pub read: usize,
    pub transformed: usize,
    pub skipped: usize,
    pub written: usize,
    pub write_failed: usize,
}

impl RunCounts {
    /// A summary with nothing counted yet.
    pub fn new() -> (c: RunCounts)
        ensures
            c == (RunCounts { read: 0, transformed: 0, skipped: 0, written: 0, write_failed: 0 }),
    {
        RunCounts { read: 0, transformed: 0, skipped: 0, written: 0, write_failed: 0 }
    }
}

/// Per-document stepping of the migration, for a shell that drains the
/// store's cursor one document at a time. Per-record failures are counted,
/// never propagated: the pipeline always continues with the next document.
pub struct Pipeline {
    pub counts: RunCounts,
}

impl Pipeline {
    /// A pipeline with nothing processed yet.
    pub fn new() -> (p: Pipeline)
        ensures
            p.counts == (RunCounts {
                read: 0,
                transformed: 0,
                skipped: 0,
                written: 0,
                write_failed: 0,
            }),
    {
        Pipeline { counts: RunCounts::new() }
    }

    /// One document arrived from the filtered cursor: transform it.
    /// A document with an `_id` yields exactly one record, with that `_id`;
    /// one without yields none and raises the skip count by one.
    pub fn on_document(&mut self, d: &SourceDoc) -> (r: Option<Usda>)
        requires
            old(self).counts.read < usize::MAX,
            old(self).counts.transformed < usize::MAX,
            old(self).counts.skipped < usize::MAX,
        ensures
            final(self).counts.read == old(self).counts.read + 1,
            final(self).counts.written == old(self).counts.written,
            final(self).counts.write_failed == old(self).counts.write_failed,
            r is Some <==> d@.has_id(),
            d@.has_id() ==> r->0@ == d@.extracted_record(),
            d@.has_id() ==> final(self).counts.transformed == old(self).counts.transformed + 1,
            d@.has_id() ==> final(self).counts.skipped == old(self).counts.skipped,
            !d@.has_id() ==> final(self).counts.skipped == old(self).counts.skipped + 1,
            !d@.has_id() ==> final(self).counts.transformed == old(self).counts.transformed,
    {
        self.counts.read = self.counts.read + 1;
        match transform(d) {
            Ok(record) => {
                self.counts.transformed = self.counts.transformed + 1;
                Some(record)
            },
            Err(_) => {
                self.counts.skipped = self.counts.skipped + 1;
                None
            },
        }
    }

    /// One cursor item failed to decode as a document: skip it and
    /// continue; row-level decode failures never end the run.
    pub fn on_decode_error(&mut self)
        requires
            old(self).counts.skipped < usize::MAX,
        ensures
            final(self).counts == (RunCounts {
                skipped: (old(self).counts.skipped + 1) as usize,
                ..old(self).counts
            }),
    {
        self.counts.skipped = self.counts.skipped + 1;
    }

    /// One write resolved: count its success or failure. A failed write is
    /// isolated to its record and never halts sibling writes or the read.
    pub fn on_write_result(&mut self, ok: bool)
        requires
            old(self).counts.written < usize::MAX,
            old(self).counts.write_failed < usize::MAX,
        ensures
            ok ==> final(self).counts == (RunCounts {
                written: (old(self).counts.written + 1) as usize,
                ..old(self).counts
            }),
            !ok ==> final(self).counts == (RunCounts {
                write_failed: (old(self).counts.write_failed + 1) as usize,
                ..old(self).counts
            }),
    {
        if ok {
            self.counts.written = self.counts.written + 1;
        } else {
            self.counts.write_failed = self.counts.write_failed + 1;
        }
    }
}

/// The extractor strategy over a whole source collection: server-side
/// filtering, then per-document extraction with explicit defaults. Returns
/// the records to write and the run summary (writes not yet attempted).
pub fn run_extraction(docs: &Vec<SourceDoc>, token: &str) -> (out: (Vec<Usda>, RunCounts))
    requires
        token@.len() >= 1,
    ensures
        out.0@.map_values(|u: Usda| u@) == extracted_records(docs_views(docs@), token@),
        out.1.read == count_matching(docs_views(docs@), token@),
        out.1.transformed == out.0@.len(),
        out.1.read == out.1.transformed + out.1.skipped,
        out.1.written == 0,
        out.1.write_failed == 0,
{
    let ghost dv = docs_views(docs@);
    let mut recs: Vec<Usda> = Vec::new();
    let mut counts = RunCounts::new();
    let n = docs.len();
    let mut i: usize = 0;
    while i < n
        invariant
            token@.len() >= 1,
            n == docs@.len(),
            dv == docs_views(docs@),
            dv.len() == n,
            i <= n,
            recs@.map_values(|u: Usda| u@) == extracted_records(dv.take(i as int), token@),
            counts.read == count_matching(dv.take(i as int), token@),
            counts.transformed == recs@.len(),
            counts.read == counts.transformed + counts.skipped,
            counts.written == 0,
            counts.write_failed == 0,
        decreases n - i,
    {
        proof {
            assert(dv.take(i + 1).drop_last() =~= dv.take(i as int));
            assert(dv.take(i + 1).last() == dv[i as int]);
            lemma_count_matching_le_len(dv.take(i as int), token@);
        }
        let d = &docs[i];
        assert(d@ == dv[i as int]);
        if matches_filter(d, token) {
            counts.read = counts.read + 1;
            match transform(d) {
                Ok(record) => {
                    counts.transformed = counts.transformed + 1;
                    let ghost prev = recs@.map_values(|u: Usda| u@);
                    let ghost rv = record@;
                    recs.push(record);
                    proof {
                        assert(recs@.map_values(|u: Usda| u@) =~= prev.push(rv));
                    }
                },
                Err(_) => {
                    counts.skipped = counts.skipped + 1;
                },
            }
        }
        i += 1;
    }
    proof {
        assert(dv.take(n as int) =~= dv);
    }
    (recs, counts)
}

/// The url the store's aggregation yields for one `sources` array: the
/// `url` of its first element that carries one, or empty when none does.
fn first_present_url_exec(entries: &Vec<SourceEntry>) -> (u: String)
    ensures
        u@ == first_present_url(entries@.map_values(|e: SourceEntry| e@)),
{
    let ghost ev = entries@.map_values(|e: SourceEntry| e@);
    proof {
        assert(ev.skip(0) =~= ev);
    }
    let n = entries.len();
    let mut i: usize = 0;
    while i < n
        invariant
            n == entries@.len(),
            ev == entries@.map_values(|e: SourceEntry| e@),
            ev.len() == n,
            i <= n,
            first_present_url(ev) == first_present_url(ev.skip(i as int)),
        decreases n - i,
    {
        proof {
            assert(ev.skip(i as int)[0] == ev[i as int]);
            assert(ev.skip(i as int).drop_first() =~= ev.skip(i + 1));
        }
        match &entries[i].url {
            Some(u) => {
                return u.clone();
            },
            None => {
            },
        }
        i += 1;
    }
    String::new()
}

/// The aggregation strategy over a whole source collection, modeled with
/// the store's stage semantics: match the filter, project `_id`,
/// `product_name` and the urls present under `sources`, unwind with the
/// array index, and keep index zero. The resulting documents still pass
/// through the `_id`-required and defaulting rules.
pub fn run_aggregation(docs: &Vec<SourceDoc>, token: &str) -> (out: (Vec<Usda>, RunCounts))
    requires
        token@.len() >= 1,
    ensures
        out.0@.map_values(|u: Usda| u@) == aggregated_records(docs_views(docs@), token@),
        out.1.read == count_matching(docs_views(docs@), token@),
        out.1.transformed == out.0@.len(),
        out.1.read == out.1.transformed + out.1.skipped,
        out.1.written == 0,
        out.1.write_failed == 0,
{
    let ghost dv = docs_views(docs@);
    let mut recs: Vec<Usda> = Vec::new();
    let mut counts = RunCounts::new();
    let n = docs.len();
    let mut i: usize = 0;
    while i < n
        invariant
            token@.len() >= 1,
            n == docs@.len(),
            dv == docs_views(docs@),
            dv.len() == n,
            i <= n,
            recs@.map_values(|u: Usda| u@) == aggregated_records(dv.take(i as int), token@),
            counts.read == count_matching(dv.take(i as int), token@),
            counts.transformed == recs@.len(),
            counts.read == counts.transformed + counts.skipped,
            counts.written == 0,
            counts.write_failed == 0,
        decreases n - i,
    {
        proof {
            assert(dv.take(i + 1).drop_last() =~= dv.take(i as int));
            assert(dv.take(i + 1).last() == dv[i as int]);
            lemma_count_matching_le_len(dv.take(i as int), token@);
        }
        let d = &docs[i];
        assert(d@ == dv[i as int]);
        if matches_filter(d, token) {
            counts.read = counts.read + 1;
            match &d.id {
                Some(id) => {
                    let product_name = match &d.product_name {
                        Some(p) => p.clone(),
                        None => String::new(),
                    };
                    let url = match &d.sources {
                        Some(entries) => first_present_url_exec(entries),
                        None => {
                            // The filter admits only documents with a
                            // `sources` array.
                            assert(false);
                            String::new()
                        },
                    };
                    let record = Usda { id: id.clone(), product_name, url };
                    assert(record@ == aggregated_record(dv[i as int]));
                    counts.transformed = counts.transformed + 1;
                    let ghost prev = recs@.map_values(|u: Usda| u@);
                    let ghost rv = record@;
                    recs.push(record);
                    proof {
                        assert(recs@.map_values(|u: Usda| u@) =~= prev.push(rv));
                    }
                },
                None => {
                    counts.skipped = counts.skipped + 1;
                },
            }
        }
        i += 1;
    }
    proof {
        assert(dv.take(n as int) =~= dv);
    }
    (recs, counts)
}

/// For every document that matches the filter and carries an `_id`, the run
/// produces exactly one record, in order, whose `id` is that `_id`; a
/// document without `_id` contributes no record.
pub proof fn lemma_one_record_per_qualifying_doc(docs: Seq<DocView>, token: Seq<char>)
    ensures
        extracted_records(docs, token).len() == qualifying_docs(docs, token).len(),
        forall|k: int|
            0 <= k < qualifying_docs(docs, token).len() ==> #[trigger] extracted_records(
                docs,
                token,
            )[k] == qualifying_docs(docs, token)[k].extracted_record(),
        forall|k: int|
            0 <= k < qualifying_docs(docs, token).len() ==> (#[trigger] extracted_records(
                docs,
                token,
            )[k]).id == qualifying_docs(docs, token)[k].id->0,
    decreases docs.len(),
{
    if docs.len() > 0 {
        lemma_one_record_per_qualifying_doc(docs.drop_last(), token);
    }
}

/// Idempotence is not offered: a second run over an unchanged source
/// appends a second, field-identical copy of every record. Only the
/// identifiers the store assigns at insertion differ, and those lie outside
/// this model.
pub proof fn lemma_rerun_duplicates(docs: Seq<DocView>, token: Seq<char>)
    ensures
        ({
            let once = extracted_records(docs, token);
            let twice = once + once;
            &&& twice.len() == 2 * once.len()
            &&& (forall|k: int| 0 <= k < once.len() ==> #[trigger] twice[k] == twice[k + once.len()])
        }),
{
    let once = extracted_records(docs, token);
    let twice = once + once;
    assert forall|k: int| 0 <= k < once.len() implies #[trigger] twice[k] == twice[k + once.len()] by {
        assert(twice[k] == once[k]);
        assert(twice[k + once.len()] == once[k]);
    }
}

/// The first element of the document's `sources` array carries a `url`.
pub open spec fn first_source_has_url(d: DocView) -> bool {
    &&& d.sources is Some
    &&& d.sources->0.len() > 0
    &&& d.sources->0[0].url is Some
}

/// Cross-strategy equivalence: on documents whose first `sources` element
/// carries a `url` (whenever they match the filter), the aggregation
/// strategy and the extractor strategy produce the same records. On a
/// matching document whose first element lacks `url` the two differ: the
/// extractor defaults to the empty url, while unwinding skips the
/// url-less element.
pub proof fn lemma_strategies_agree(docs: Seq<DocView>, token: Seq<char>)
    requires
        forall|i: int|
            0 <= i < docs.len() && #[trigger] spec_matches_filter(docs[i], token)
                ==> first_source_has_url(docs[i]),
    ensures
        aggregated_records(docs, token) == extracted_records(docs, token),
    decreases docs.len(),
{
    if docs.len() > 0 {
        assert(forall|i: int|
            0 <= i < docs.drop_last().len() ==> docs.drop_last()[i] == docs[i]);
        lemma_strategies_agree(docs.drop_last(), token);
        if qualifies(docs.last(), token) {
            let d = docs.last();
            assert(d == docs[docs.len() - 1]);
            assert(first_source_has_url(d));
            assert(first_present_url(d.sources->0) == d.sources->0[0].url->0);
            assert(aggregated_record(d) == d.extracted_record());
        }
    }
}

} // verus!
