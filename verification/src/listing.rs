//! Paginated enumeration of the keys under a bucket and prefix.
//!
//! The driver issues one listing call per page and feeds each page in; the
//! enumerator carries the continuation token forward, filters out directory
//! markers, and is done when a page reports no further truncation.  A page
//! with no contents at all is a hard error: nothing to rename is a failure,
//! not an empty result.

use vstd::prelude::*;
use crate::errors::S3Error;
use crate::strutil::clone_opt_string;

verus! {

/// One listed object: its key name and its storage class.
#[derive(Debug, PartialEq, Eq)]
pub struct ObjectKey {
    pub name: String,
    pub storage_class: Option<String>,
}

impl ObjectKey {
    /// An exact copy of this key.
    pub fn duplicate(&self) -> (r: ObjectKey)
        ensures
            r == *self,
    {
        ObjectKey { name: self.name.clone(), storage_class: clone_opt_string(&self.storage_class) }
    }
}

/// One entry of a listing page, as the store reports it.
#[derive(Debug)]
pub struct ListEntry {
    pub key: Option<String>,
    pub storage_class: Option<String>,
}

/// One page of a paginated listing response.
#[derive(Debug)]
pub struct ListPage {
    pub contents: Option<Vec<ListEntry>>,
    pub is_truncated: Option<bool>,
    pub continuation: Option<String>,
}

/// Whether a key names an empty directory marker: nonempty, ending in the
/// path delimiter.
pub open spec fn is_directory_key(name: Seq<char>) -> bool {
    name.len() > 0 && name[name.len() - 1] == '/'
}

/// Whether a listing entry survives the filter: it has a key, and that key is
/// no directory marker.
pub open spec fn entry_kept(e: ListEntry) -> bool {
    e.key is Some && !is_directory_key(e.key->0@)
}

/// The object keys one page contributes, in page order.
pub open spec fn kept_keys(entries: Seq<ListEntry>) -> Seq<ObjectKey>
    decreases entries.len(),
{
    if entries.len() == 0 {
        Seq::empty()
    } else {
        let rest = kept_keys(entries.drop_last());
        let last = entries.last();
        if entry_kept(last) {
            rest.push(ObjectKey { name: last.key->0, storage_class: last.storage_class })
        } else {
            rest
        }
    }
}

/// The keys of a whole run of pages, in page order.
pub open spec fn concat_kept_keys(pages: Seq<Seq<ListEntry>>) -> Seq<ObjectKey>
    decreases pages.len(),
{
    if pages.len() == 0 {
        Seq::empty()
    } else {
        concat_kept_keys(pages.drop_last()) + kept_keys(pages.last())
    }
}

/// The paginated enumerator: absorbs one page at a time, in order.
pub struct Enumerator {
    bucket: String,
    prefix: Option<String>,
    collected: Vec<ObjectKey>,
    token: Option<String>,
    done: bool,
}

impl Enumerator {
    /// No collected key names a directory marker.
    #[verifier::type_invariant]
    spec fn wf(self) -> bool {
        forall|i: int|
            0 <= i < self.collected@.len() ==> !is_directory_key(
                (#[trigger] self.collected@[i]).name@,
            )
    }

    /// The keys collected so far, in page order.
    pub closed spec fn keys(&self) -> Seq<ObjectKey> {
        self.collected@
    }

    /// Whether a page has reported no further truncation.
    pub closed spec fn spec_done(&self) -> bool {
        self.done
    }

    /// The continuation token of the last absorbed page.
    pub closed spec fn spec_token(&self) -> Option<String> {
        self.token
    }

    /// The bucket being enumerated.
    pub closed spec fn spec_bucket(&self) -> Seq<char> {
        self.bucket@
    }

    /// The prefix being enumerated, if any.
    pub closed spec fn spec_prefix(&self) -> Option<String> {
        self.prefix
    }

    /// A fresh enumerator for a bucket and optional prefix.
    pub fn new(bucket: String, prefix: Option<String>) -> (r: Enumerator)
        ensures
            r.keys() == Seq::<ObjectKey>::empty(),
            !r.spec_done(),
            r.spec_token() is None,
            r.spec_bucket() == bucket@,
            r.spec_prefix() == prefix,
    {
        let r = Enumerator { bucket, prefix, collected: Vec::new(), token: None, done: false };
        proof {
            assert(r.collected@ =~= Seq::<ObjectKey>::empty());
        }
        r
    }

    /// Whether enumeration has ended.
    pub fn is_done(&self) -> (r: bool)
        ensures
            r == self.spec_done(),
    {
        self.done
    }

    /// The continuation token to hand to the next listing call.
    pub fn continuation_token(&self) -> (r: &Option<String>)
        ensures
            *r == self.spec_token(),
    {
        &self.token
    }

    /// Absorbs one page: a page without contents is the hard empty-bucket
    /// error; otherwise the page's kept keys are appended in order, the token
    /// is carried forward, and enumeration ends unless the page reports
    /// truncation.
    pub fn absorb_page(&mut self, page: ListPage) -> (r: Result<(), S3Error>)
        requires
            !old(self).spec_done(),
        ensures
            final(self).spec_bucket() == old(self).spec_bucket(),
            final(self).spec_prefix() == old(self).spec_prefix(),
            match page.contents {
                None => {
                    &&& r matches Err(S3Error::EmptyBucket { bucket, prefix }) && bucket@ == old(
                        self,
                    ).spec_bucket() && prefix@ == (match old(self).spec_prefix() {
                        Some(p) => p@,
                        None => Seq::<char>::empty(),
                    })
                    &&& final(self).keys() == old(self).keys()
                    &&& final(self).spec_done()
                },
                Some(entries) => {
                    &&& r is Ok
                    &&& final(self).keys() == old(self).keys() + kept_keys(entries@)
                    &&& final(self).spec_done() == !(page.is_truncated == Some(true))
                    &&& final(self).spec_token() == page.continuation
                },
            },
    {
        proof {
            use_type_invariant(&*self);
        }
        match page.contents {
            None => {
                self.done = true;
                let prefix = match &self.prefix {
                    Some(p) => p.clone(),
                    None => String::new(),
                };
                Err(S3Error::EmptyBucket { bucket: self.bucket.clone(), prefix })
            },
            Some(entries) => {
                let ghost entries_v = entries@;
                let ghost start = self.collected@;
                let mut collected: Vec<ObjectKey> = Vec::new();
                std::mem::swap(&mut collected, &mut self.collected);
                let mut j: usize = 0;
                proof {
                    assert(entries_v.subrange(0, 0) =~= Seq::<ListEntry>::empty());
                    assert(start + kept_keys(entries_v.subrange(0, 0)) =~= start);
                }
                while j < entries.len()
                    invariant
                        j <= entries_v.len(),
                        entries@ == entries_v,
                        collected@ == start + kept_keys(entries_v.subrange(0, j as int)),
                        forall|q: int|
                            0 <= q < collected@.len() ==> !is_directory_key(
                                (#[trigger] collected@[q]).name@,
                            ),
                        self.bucket == old(self).bucket,
                        self.prefix == old(self).prefix,
                        self.token == old(self).token,
                        self.done == old(self).done,
                    decreases entries_v.len() - j,
                {
                    let ghost prefix0 = entries_v.subrange(0, j as int);
                    let ghost prefix1 = entries_v.subrange(0, j + 1);
                    proof {
                        assert(prefix1.drop_last() =~= prefix0);
                        assert(prefix1.last() == entries_v[j as int]);
                    }
                    let e = &entries[j];
                    match &e.key {
                        Some(k) => {
                            let ks = k.as_str();
                            let kn = ks.unicode_len();
                            let keep = kn == 0 || ks.get_char(kn - 1) != '/';
                            if keep {
                                let item = ObjectKey {
                                    name: k.clone(),
                                    storage_class: clone_opt_string(&e.storage_class),
                                };
                                collected.push(item);
                                proof {
                                    assert(collected@ =~= start + kept_keys(prefix1));
                                }
                            } else {
                                proof {
                                    assert(kept_keys(prefix1) =~= kept_keys(prefix0));
                                }
                            }
                        },
                        None => {
                            proof {
                                assert(kept_keys(prefix1) =~= kept_keys(prefix0));
                            }
                        },
                    }
                    j = j + 1;
                }
                proof {
                    assert(entries_v.subrange(0, entries_v.len() as int) =~= entries_v);
                }
                std::mem::swap(&mut collected, &mut self.collected);
                let trunc = match page.is_truncated {
                    Some(t) => t,
                    None => false,
                };
                self.done = !trunc;
                self.token = page.continuation;
                Ok(())
            },
        }
    }

    /// Hands out the full candidate set once enumeration is done; no key of
    /// it names a directory marker.
    pub fn into_keys(self) -> (r: Vec<ObjectKey>)
        ensures
            r@ == self.keys(),
            forall|i: int|
                0 <= i < r@.len() ==> !is_directory_key((#[trigger] r@[i]).name@),
    {
        proof {
            use_type_invariant(&self);
        }
        self.collected
    }
}

/// No kept key names a directory marker: a key ending in the path delimiter
/// never enters the candidate set.
pub proof fn lemma_no_directory_markers(entries: Seq<ListEntry>)
    ensures
        forall|i: int|
            0 <= i < kept_keys(entries).len() ==> !is_directory_key(
                (#[trigger] kept_keys(entries)[i]).name@,
            ),
    decreases entries.len(),
{
    if entries.len() > 0 {
        lemma_no_directory_markers(entries.drop_last());
    }
}

/// Pagination yields every page's kept keys exactly once, in page order: a
/// run of absorptions, each appending one page's kept keys, ends with the
/// concatenation of all of them.
pub proof fn lemma_enumeration_is_concatenation(
    pages: Seq<Seq<ListEntry>>,
    states: Seq<Seq<ObjectKey>>,
)
    requires
        states.len() == pages.len() + 1,
        forall|i: int|
            0 <= i < pages.len() ==> states[i + 1] == states[i] + kept_keys(#[trigger] pages[i]),
    ensures
        states.last() == states[0] + concat_kept_keys(pages),
    decreases pages.len(),
{
    if pages.len() == 0 {
        assert(states[0] + concat_kept_keys(pages) =~= states[0]);
    } else {
        lemma_enumeration_is_concatenation(pages.drop_last(), states.drop_last());
        assert(states.drop_last().last() == states[states.len() - 2]);
        assert(states.drop_last()[0] == states[0]);
        assert(states.last() == states[states.len() - 2] + kept_keys(pages.last())) by {
            assert(states[pages.len() - 1 + 1] == states[pages.len() - 1] + kept_keys(
                pages[pages.len() - 1],
            ));
        }
        assert(states[0] + concat_kept_keys(pages.drop_last()) + kept_keys(pages.last()) =~= states[0]
            + concat_kept_keys(pages));
    }
}

} // verus!
