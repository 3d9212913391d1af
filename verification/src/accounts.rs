//! The list of member accounts: ordered, each account once.

use vstd::prelude::*;
use crate::text::{texts, contains_text};

verus! {

/// `s` with every repeated entry removed: each value stays where it first
/// occurs.
pub open spec fn dedup(s: Seq<Seq<char>>) -> Seq<Seq<char>>
    decreases s.len(),
{
    if s.len() == 0 {
        Seq::empty()
    } else {
        let before = dedup(s.drop_last());
        if before.contains(s.last()) {
            before
        } else {
            before.push(s.last())
        }
    }
}

/// Removes repeated account identifiers, keeping first occurrences in order.
pub fn dedup_accounts(ids: &Vec<String>) -> (out: Vec<String>)
    ensures
        texts(out@) == dedup(texts(ids@)),
{
    let mut out: Vec<String> = Vec::new();
    let mut i: usize = 0;
    proof {
        assert(texts(ids@).take(0) =~= Seq::<Seq<char>>::empty());
        assert(texts(out@) =~= Seq::<Seq<char>>::empty());
    }
    while i < ids.len()
        invariant
            i <= ids.len(),
            texts(out@) == dedup(texts(ids@).take(i as int)),
        decreases ids.len() - i,
    {
        let ghost all = texts(ids@);
        let ghost prev = texts(out@);
        let seen = contains_text(&out, &ids[i]);
        proof {
            assert(all.take(i + 1).drop_last() =~= all.take(i as int));
            assert(all.take(i + 1).last() == ids@[i as int]@);
        }
        if !seen {
            out.push(ids[i].clone());
            proof {
                assert(texts(out@) =~= prev.push(ids@[i as int]@));
            }
        }
        i += 1;
    }
    proof {
        assert(texts(ids@).take(ids.len() as int) =~= texts(ids@));
    }
    out
}

/// What the listing of the organization's accounts came to.
#[derive(Debug, Clone)]
pub enum Discovery {
    /// Every page was read; these are the account identifiers, in order.
    Accounts(Vec<String>),
    /// A page could not be read.
    Failed,
}

/// What a request for a page of accounts came to.
#[derive(Debug, Clone)]
pub enum PageEvent {
    /// The identifiers of the accounts on the page, in order, and whether
    /// another page follows.
    Page { ids: Vec<String>, more: bool },
    /// The page could not be read.
    Failed,
}

/// What the discoverer does next.
#[derive(Debug, Clone)]
pub enum DiscoverStep {
    /// Ask for the next page; these identifiers were found so far.
    FetchNext(Vec<String>),
    /// The listing is over.
    Done(Discovery),
}

/// Takes in one page of the listing. The page's accounts are appended in
/// order to those found so far. After the last page the list is complete, and
/// repeated identifiers are removed from it. A page that cannot be read fails
/// the discovery as a whole, whatever was found before.
pub fn discover_step(found: Vec<String>, event: PageEvent) -> (next: DiscoverStep)
    ensures
        match event {
            PageEvent::Failed => next is Done && next->Done_0 is Failed,
            PageEvent::Page { ids, more } => if more {
                next is FetchNext && texts(next->FetchNext_0@) == texts(found@) + texts(ids@)
            } else {
                next is Done && next->Done_0 is Accounts && texts(next->Done_0->Accounts_0@)
                    == dedup(texts(found@) + texts(ids@))
            },
        },
{
    match event {
        PageEvent::Failed => DiscoverStep::Done(Discovery::Failed),
        PageEvent::Page { ids, more } => {
            let mut all = found;
            let mut page = ids;
            all.append(&mut page);
            proof {
                assert(texts(all@) =~= texts(found@) + texts(ids@));
            }
            if more {
                DiscoverStep::FetchNext(all)
            } else {
                DiscoverStep::Done(Discovery::Accounts(dedup_accounts(&all)))
            }
        },
    }
}

/// An entry is in `dedup(s)` exactly when it is in `s`, and no entry of
/// `dedup(s)` occurs twice.
pub proof fn lemma_dedup_keeps_each_once(s: Seq<Seq<char>>)
    ensures
        dedup(s).no_duplicates(),
        forall|a: Seq<char>| dedup(s).contains(a) <==> s.contains(a),
        dedup(s).len() <= s.len(),
    decreases s.len(),
{
    if s.len() > 0 {
        let init = s.drop_last();
        let before = dedup(init);
        lemma_dedup_keeps_each_once(init);
        assert forall|a: Seq<char>| dedup(s).contains(a) <==> s.contains(a) by {
            if s.contains(a) {
                let k = choose|k: int| 0 <= k < s.len() && s[k] == a;
                if k < s.len() - 1 {
                    assert(init[k] == a);
                    assert(init.contains(a));
                    assert(before.contains(a));
                }
                if before.contains(a) {
                    let m = choose|m: int| 0 <= m < before.len() && before[m] == a;
                    if !before.contains(s.last()) {
                        assert(before.push(s.last())[m] == a);
                    }
                } else {
                    assert(a == s.last());
                    assert(before.push(a)[before.len() as int] == a);
                }
            }
            if dedup(s).contains(a) {
                let m = choose|m: int| 0 <= m < dedup(s).len() && dedup(s)[m] == a;
                if m < before.len() {
                    assert(before[m] == a);
                    assert(init.contains(a));
                    let k = choose|k: int| 0 <= k < init.len() && init[k] == a;
                    assert(s[k] == a);
                } else {
                    assert(a == s.last());
                    assert(s[s.len() - 1] == a);
                }
            }
        }
    }
}

/// A list without repeats is left as it is.
pub proof fn lemma_dedup_of_distinct(s: Seq<Seq<char>>)
    requires
        s.no_duplicates(),
    ensures
        dedup(s) == s,
    decreases s.len(),
{
    if s.len() > 0 {
        let init = s.drop_last();
        lemma_dedup_of_distinct(init);
        lemma_dedup_keeps_each_once(init);
        if init.contains(s.last()) {
            let k = choose|k: int| 0 <= k < init.len() && init[k] == s.last();
            assert(s[k] == s[s.len() - 1]);
        }
        assert(init.push(s.last()) =~= s);
    } else {
        assert(s =~= Seq::<Seq<char>>::empty());
    }
}

/// Removing repeats twice is the same as removing them once.
pub proof fn lemma_dedup_idempotent(s: Seq<Seq<char>>)
    ensures
        dedup(dedup(s)) == dedup(s),
{
    lemma_dedup_keeps_each_once(s);
    lemma_dedup_of_distinct(dedup(s));
}

} // verus!
