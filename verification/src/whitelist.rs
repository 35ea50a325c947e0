use vstd::prelude::*;

verus! {

/// The owner-managed set of accounts permitted to move the derivative
/// token while the deployment is gated.  The owner is an implicit member
/// and is never stored; membership of everyone else is explicit.
pub struct Whitelist {
    /// The explicitly admitted accounts, each listed once.
    pub members: Vec<u64>,
}

impl Whitelist {
    /// Every admitted account is listed at most once.
    pub open spec fn wf(self) -> bool {
        forall|i: int, j: int|
            0 <= i < j < self.members@.len() ==> #[trigger] self.members@[i] != #[trigger] self.members@[j]
    }

    /// Whether the account was explicitly admitted.
    pub open spec fn is_member(self, account_id: u64) -> bool {
        exists|i: int| 0 <= i < self.members@.len() && #[trigger] self.members@[i] == account_id
    }

    /// An empty whitelist.
    pub fn new() -> (r: Whitelist)
        ensures
            r.wf(),
            forall|a: u64| !r.is_member(a),
    {
        Whitelist { members: Vec::new() }
    }

    /// The index at which the account is listed, if it is.
    fn find(&self, account_id: u64) -> (r: Option<usize>)
        ensures
            match r {
                Some(i) => i < self.members@.len() && self.members@[i as int] == account_id,
                None => !self.is_member(account_id),
            },
    {
        let mut i: usize = 0;
        while i < self.members.len()
            invariant
                i <= self.members@.len(),
                forall|j: int| 0 <= j < i ==> #[trigger] self.members@[j] != account_id,
            decreases self.members@.len() - i,
        {
            if self.members[i] == account_id {
                return Some(i);
            }
            i = i + 1;
        }
        None
    }

    /// Whether the account was explicitly admitted.
    pub fn contains(&self, account_id: u64) -> (r: bool)
        ensures
            r == self.is_member(account_id),
    {
        self.find(account_id).is_some()
    }

    /// Admits the account; admitting a member again changes nothing.
    pub fn add(&mut self, account_id: u64)
        requires
            old(self).wf(),
        ensures
            final(self).wf(),
            final(self).is_member(account_id),
            forall|a: u64|
                a != account_id ==> final(self).is_member(a) == old(self).is_member(a),
    {
        match self.find(account_id) {
            Some(_) => {},
            None => {
                self.members.push(account_id);
                proof {
                    let pre = *old(self);
                    let post = *self;
                    assert(post.members@[pre.members@.len() as int] == account_id);
                    assert forall|a: u64|
                        a != account_id implies post.is_member(a) == pre.is_member(a) by {
                        if pre.is_member(a) {
                            let i = choose|i: int|
                                0 <= i < pre.members@.len() && #[trigger] pre.members@[i] == a;
                            assert(post.members@[i] == a);
                        }
                        if post.is_member(a) {
                            let i = choose|i: int|
                                0 <= i < post.members@.len() && #[trigger] post.members@[i] == a;
                            assert(i < pre.members@.len());
                            assert(pre.members@[i] == a);
                        }
                    }
                }
            },
        }
    }

    /// Expels the account; expelling a non-member changes nothing.
    pub fn remove(&mut self, account_id: u64)
        requires
            old(self).wf(),
        ensures
            final(self).wf(),
            !final(self).is_member(account_id),
            forall|a: u64|
                a != account_id ==> final(self).is_member(a) == old(self).is_member(a),
    {
        match self.find(account_id) {
            None => {},
            Some(i) => {
                self.members.remove(i);
                proof {
                    let pre = *old(self);
                    let post = *self;
                    assert forall|k: int|
                        0 <= k < post.members@.len() implies #[trigger] post.members@[k] == (
                    if k < i {
                        pre.members@[k]
                    } else {
                        pre.members@[k + 1]
                    }) by {}
                    assert(post.wf()) by {
                        assert forall|x: int, y: int|
                            0 <= x < y < post.members@.len() implies #[trigger] post.members@[x]
                            != #[trigger] post.members@[y] by {
                            let ox: int = if x < i {
                                x
                            } else {
                                x + 1
                            };
                            let oy: int = if y < i {
                                y
                            } else {
                                y + 1
                            };
                            assert(pre.members@[ox] != pre.members@[oy]);
                        }
                    }
                    assert(!post.is_member(account_id)) by {
                        if post.is_member(account_id) {
                            let k = choose|k: int|
                                0 <= k < post.members@.len() && #[trigger] post.members@[k]
                                    == account_id;
                            if k < i {
                                assert(pre.members@[k] == account_id);
                                assert(pre.members@[i as int] == account_id);
                                assert(false);
                            } else {
                                assert(pre.members@[k + 1] == account_id);
                                assert(false);
                            }
                        }
                    }
                    assert forall|a: u64|
                        a != account_id implies post.is_member(a) == pre.is_member(a) by {
                        if pre.is_member(a) {
                            let k = choose|k: int|
                                0 <= k < pre.members@.len() && #[trigger] pre.members@[k] == a;
                            assert(k != i);
                            if k < i {
                                assert(post.members@[k] == a);
                            } else {
                                assert(post.members@[k - 1] == a);
                            }
                        }
                        if post.is_member(a) {
                            let k = choose|k: int|
                                0 <= k < post.members@.len() && #[trigger] post.members@[k] == a;
                            if k < i {
                                assert(pre.members@[k] == a);
                            } else {
                                assert(pre.members@[k + 1] == a);
                            }
                        }
                    }
                }
            },
        }
    }
}

} // verus!
