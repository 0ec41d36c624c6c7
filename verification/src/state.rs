//! The module's state: the configuration singleton, the escrow ledger, and
//! the per-seller creator index.

use vstd::prelude::*;

use crate::msg::EscrowInfo;

verus! {

/// The module-wide settings. `escrow_id` is the identifier the next created
/// escrow receives; it starts at 0 and only ever grows.
#[derive(Debug, PartialEq)]
pub struct Config {
    pub owner: String,
    pub escrow_id: u64,
    pub denom: String,
    pub enabled: bool,
}

/// One seller's entry in the creator index: every escrow they created, in
/// creation order, as the record stood when it was created. The list is only
/// ever appended to.
#[derive(Debug, PartialEq)]
pub struct CreatorEntry {
    pub seller: String,
    pub escrows: Vec<EscrowInfo>,
}

/// The whole persistent state. The ledger is a vector indexed by escrow
/// identifier: identifiers are assigned sequentially from 0 and records are
/// never removed, so the escrow with identifier `i` sits at position `i`.
#[derive(Debug, PartialEq)]
pub struct State {
    pub config: Option<Config>,
    pub escrows: Vec<EscrowInfo>,
    pub creators: Vec<CreatorEntry>,
}

/// The position of the first entry for `seller` in the creator index, or -1
/// if the seller has no entry.
pub open spec fn find_creator(creators: Seq<CreatorEntry>, seller: Seq<char>) -> int
    decreases creators.len(),
{
    if creators.len() == 0 {
        -1
    } else if creators[0].seller@ == seller {
        0
    } else if find_creator(creators.drop_first(), seller) == -1 {
        -1
    } else {
        find_creator(creators.drop_first(), seller) + 1
    }
}

/// `find_creator` returns -1 exactly when no entry matches, and otherwise
/// the first matching position.
pub proof fn lemma_find_creator(creators: Seq<CreatorEntry>, seller: Seq<char>)
    ensures
        find_creator(creators, seller) == -1 <==> (forall|i: int|
            0 <= i < creators.len() ==> creators[i].seller@ != seller),
        find_creator(creators, seller) != -1 ==> {
            let k = find_creator(creators, seller);
            &&& 0 <= k < creators.len()
            &&& creators[k].seller@ == seller
            &&& forall|i: int| 0 <= i < k ==> creators[i].seller@ != seller
        },
    decreases creators.len(),
{
    if creators.len() > 0 && creators[0].seller@ != seller {
        lemma_find_creator(creators.drop_first(), seller);
        assert(forall|i: int|
            1 <= i < creators.len() ==> creators[i] == creators.drop_first()[i - 1]);
    }
}

/// Two indexes with the same sellers at the same positions agree on where a
/// seller's entry sits.
pub proof fn lemma_find_creator_same_sellers(
    pre: Seq<CreatorEntry>,
    post: Seq<CreatorEntry>,
    s: Seq<char>,
)
    requires
        pre.len() == post.len(),
        forall|i: int| 0 <= i < pre.len() ==> pre[i].seller@ == post[i].seller@,
    ensures
        find_creator(pre, s) == find_creator(post, s),
    decreases pre.len(),
{
    if pre.len() > 0 {
        assert(pre[0].seller@ == post[0].seller@);
        lemma_find_creator_same_sellers(pre.drop_first(), post.drop_first(), s);
        assert(forall|i: int|
            0 <= i < pre.len() - 1 ==> pre.drop_first()[i] == pre[i + 1]
                && post.drop_first()[i] == post[i + 1]);
    }
}

/// Appending an entry leaves every present seller where it was, and places
/// an absent one at the end.
pub proof fn lemma_find_creator_push(pre: Seq<CreatorEntry>, e: CreatorEntry, s: Seq<char>)
    ensures
        find_creator(pre.push(e), s) == (if find_creator(pre, s) != -1 {
            find_creator(pre, s)
        } else if e.seller@ == s {
            pre.len() as int
        } else {
            -1
        }),
    decreases pre.len(),
{
    if pre.len() == 0 {
        assert(pre.push(e)[0] == e);
        assert(pre.push(e).drop_first() =~= Seq::<CreatorEntry>::empty());
        assert(find_creator(pre, s) == -1);
        if e.seller@ != s {
            assert(find_creator(Seq::<CreatorEntry>::empty(), s) == -1);
            assert(find_creator(pre.push(e), s) == -1);
        } else {
            assert(find_creator(pre.push(e), s) == 0);
        }
    } else {
        let t = pre.drop_first();
        assert(pre.push(e)[0] == pre[0]);
        lemma_find_creator(t, s);
        lemma_find_creator_push(t, e, s);
        assert(pre.push(e).drop_first() =~= t.push(e));
        if pre[0].seller@ == s {
            assert(find_creator(pre.push(e), s) == 0);
            assert(find_creator(pre, s) == 0);
        } else {
            assert(find_creator(pre.push(e), s) == (if find_creator(t.push(e), s) == -1 {
                -1
            } else {
                find_creator(t.push(e), s) + 1
            }));
            assert(find_creator(pre, s) == (if find_creator(t, s) == -1 {
                -1
            } else {
                find_creator(t, s) + 1
            }));
        }
    }
}

impl State {
    /// Well-formed state: the next-identifier counter agrees with the ledger
    /// length, an uninitialized module has an empty ledger, and no seller has
    /// two entries in the creator index.
    pub open spec fn wf(self) -> bool {
        &&& (self.config matches Some(c) ==> c.escrow_id as int == self.escrows@.len())
        &&& (self.config is None ==> self.escrows@.len() == 0)
        &&& (forall|i: int, j: int|
            0 <= i < j < self.creators@.len()
                ==> self.creators@[i].seller@ != self.creators@[j].seller@)
    }

    /// The configuration exists and its enabled flag is on.
    pub open spec fn is_enabled(self) -> bool {
        self.config matches Some(c) && c.enabled
    }

    /// An escrow with this identifier exists.
    pub open spec fn spec_has_escrow(self, id: u64) -> bool {
        (id as int) < self.escrows@.len()
    }

    /// The ledger record with this identifier.
    pub open spec fn spec_escrow(self, id: u64) -> EscrowInfo {
        self.escrows@[id as int]
    }

    /// The escrows this seller has created, in creation order; empty if the
    /// seller never created one.
    pub open spec fn creator_escrows(self, seller: Seq<char>) -> Seq<EscrowInfo> {
        if find_creator(self.creators@, seller) == -1 {
            Seq::empty()
        } else {
            self.creators@[find_creator(self.creators@, seller)].escrows@
        }
    }

    /// A fresh, uninitialized state.
    pub fn new() -> (s: State)
        ensures
            s.config is None,
            s.escrows@.len() == 0,
            s.creators@.len() == 0,
            s.wf(),
    {
        State { config: None, escrows: Vec::new(), creators: Vec::new() }
    }
}

} // verus!
