//! The shape of a yearly NVD feed file, and the rule that incomplete
//! records (those without configuration roots) are discarded on ingest.

use vstd::prelude::*;

use crate::record::CveRecord;

verus! {

/// The predicate that keeps a record on ingest.
pub open spec fn spec_complete(c: CveRecord) -> bool {
    c.configurations.nodes@.len() > 0
}

/// The top level of a yearly feed file.
#[derive(Debug)]
#[allow(non_snake_case)]
pub struct CVEContainer {
    pub CVE_data_type: String,
    pub CVE_data_format: String,
    pub CVE_data_version: String,
    pub CVE_data_numberOfCVEs: String,
    pub CVE_data_timestamp: String,
    pub CVE_Items: Vec<CveRecord>,
}

/// A loaded feed: its records, in feed order.
#[derive(Debug)]
pub struct List {
    pub items: Vec<CveRecord>,
}

impl List {
    /// How many records the feed holds.
    pub fn len(&self) -> (r: usize)
        ensures
            r == self.items@.len(),
    {
        self.items.len()
    }
}

/// Keep exactly the complete records, in order: records without
/// configuration roots are still being processed upstream and are dropped.
pub fn filter_complete(items: Vec<CveRecord>) -> (r: Vec<CveRecord>)
    ensures
        r@ == items@.filter(|c: CveRecord| spec_complete(c)),
{
    let ghost orig = items@;
    let mut items = items;
    let mut out: Vec<CveRecord> = Vec::new();
    proof {
        reveal(Seq::filter);
        assert(orig.subrange(0, 0) =~= Seq::<CveRecord>::empty());
        assert(out@ =~= orig.subrange(0, 0).filter(|c: CveRecord| spec_complete(c)));
    }
    let ghost mut k: int = 0;
    while items.len() > 0
        invariant
            0 <= k <= orig.len(),
            items@ == orig.subrange(k, orig.len() as int),
            out@ == orig.subrange(0, k).filter(|c: CveRecord| spec_complete(c)),
        decreases items@.len(),
    {
        let x = items.remove(0);
        proof {
            assert(x == orig[k]);
            assert(items@ =~= orig.subrange(k + 1, orig.len() as int));
        }
        let complete = x.is_complete();
        proof {
            reveal(Seq::filter);
            let p1 = orig.subrange(0, k);
            let p2 = orig.subrange(0, k + 1);
            assert(p2.drop_last() =~= p1);
            assert(p2.last() == orig[k]);
            assert(p2.filter(|c: CveRecord| spec_complete(c)) == if spec_complete(orig[k]) {
                p1.filter(|c: CveRecord| spec_complete(c)).push(orig[k])
            } else {
                p1.filter(|c: CveRecord| spec_complete(c))
            });
        }
        if complete {
            out.push(x);
        }
        proof {
            k = k + 1;
        }
    }
    proof {
        assert(orig.subrange(0, orig.len() as int) =~= orig);
    }
    out
}

} // verus!
