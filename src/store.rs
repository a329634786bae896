use vstd::prelude::*;

verus! {

/// Why a record could not be written.
#[derive(Debug, PartialEq, Eq, Structural, Clone, Copy)]
pub enum StoreError {
    /// The URL was already recorded; nothing was written.
    DuplicateKey,
    /// The storage layer failed.
    IoFailure,
}

/// One notified article: the title of its site and its URL.
#[derive(Debug)]
pub struct SeenRecord {
    pub site: String,
    pub url: String,
}

/// The set of articles already notified, kept in memory. No two of its
/// records share a URL.
pub struct SeenStore {
    records: Vec<SeenRecord>,
}

/// No two entries of `recs` carry the same URL (the second component).
pub open spec fn urls_unique(recs: Seq<(Seq<char>, Seq<char>)>) -> bool {
    forall|i: int, j: int|
        0 <= i < recs.len() && 0 <= j < recs.len() && i != j ==> recs[i].1 != recs[j].1
}

/// Whether some entry of `recs` carries the URL `url`.
pub open spec fn has_url(recs: Seq<(Seq<char>, Seq<char>)>, url: Seq<char>) -> bool {
    exists|i: int| 0 <= i < recs.len() && recs[i].1 == url
}

impl SeenStore {
    /// The records, oldest first, each as (site title, URL).
    pub closed spec fn records(&self) -> Seq<(Seq<char>, Seq<char>)> {
        self.records@.map_values(|r: SeenRecord| (r.site@, r.url@))
    }

    /// The store's invariant: URLs are unique.
    pub open spec fn wf(&self) -> bool {
        urls_unique(self.records())
    }

    /// An empty store.
    pub fn new() -> (r: SeenStore)
        ensures
            r.wf(),
            r.records() == Seq::<(Seq<char>, Seq<char>)>::empty(),
    {
        let r = SeenStore { records: Vec::new() };
        assert(r.records() =~= Seq::<(Seq<char>, Seq<char>)>::empty());
        r
    }

    /// Number of records.
    pub fn len(&self) -> (r: usize)
        ensures
            r == self.records().len(),
    {
        self.records.len()
    }

    /// Whether `url` has been recorded.
    pub fn is_recorded(&self, url: &str) -> (r: bool)
        ensures
            r == has_url(self.records(), url@),
    {
        let key = url.to_owned();
        let mut i: usize = 0;
        while i < self.records.len()
            invariant
                i <= self.records@.len(),
                key@ == url@,
                forall|k: int| 0 <= k < i ==> self.records()[k].1 != url@,
            decreases self.records@.len() - i,
        {
            if self.records[i].url == key {
                assert(self.records()[i as int].1 == url@);
                return true;
            }
            i = i + 1;
        }
        false
    }

    /// Records that an article of the site titled `site_title` was notified.
    /// Fails with `DuplicateKey`, leaving the store as it was, when `url` is
    /// already recorded; otherwise appends the record.
    pub fn record(&mut self, site_title: &str, url: &str) -> (r: Result<(), StoreError>)
        requires
            old(self).wf(),
        ensures
            final(self).wf(),
            has_url(old(self).records(), url@) ==> r == Err::<(), StoreError>(
                StoreError::DuplicateKey,
            ) && final(self).records() == old(self).records(),
            !has_url(old(self).records(), url@) ==> r is Ok && final(self).records()
                == old(self).records().push((site_title@, url@)),
    {
        if self.is_recorded(url) {
            return Err(StoreError::DuplicateKey);
        }
        let ghost before = self.records();
        self.records.push(SeenRecord { site: site_title.to_owned(), url: url.to_owned() });
        assert(self.records() =~= before.push((site_title@, url@)));
        assert forall|i: int, j: int|
            0 <= i < self.records().len() && 0 <= j < self.records().len() && i != j implies
                self.records()[i].1 != self.records()[j].1 by {
            if i == before.len() as int {
                assert(before[j].1 == self.records()[j].1);
            } else if j == before.len() as int {
                assert(before[i].1 == self.records()[i].1);
            }
        }
        Ok(())
    }
}

} // verus!
