//! The set of artifact identifiers with an installation under way: at most
//! one installation per identifier at a time.
use vstd::prelude::*;

verus! {

pub struct Registry {
    active: Vec<String>,
}

impl View for Registry {
    type V = Seq<Seq<char>>;

    closed spec fn view(&self) -> Seq<Seq<char>> {
        self.active@.map_values(|s: String| s@)
    }
}

impl Registry {
    /// No identifier is listed twice.
    pub closed spec fn wf(&self) -> bool {
        self@.no_duplicates()
    }

    pub fn new() -> (r: Registry)
        ensures
            r.wf(),
            r@ == Seq::<Seq<char>>::empty(),
    {
        let r = Registry { active: Vec::new() };
        assert(r@ =~= Seq::<Seq<char>>::empty());
        r
    }

    fn position(&self, id: &String) -> (r: Option<usize>)
        ensures
            r matches Some(i) ==> i < self@.len() && self@[i as int] == id@,
            r is None ==> !self@.contains(id@),
    {
        let mut i: usize = 0;
        while i < self.active.len()
            invariant
                i <= self.active@.len(),
                self@.len() == self.active@.len(),
                forall|j: int| 0 <= j < i ==> self@[j] != id@,
            decreases self.active@.len() - i,
        {
            if self.active[i] == *id {
                return Some(i);
            }
            i = i + 1;
        }
        None
    }

    /// Whether an installation of `id` is under way.
    pub fn is_active(&self, id: &String) -> (r: bool)
        ensures
            r == self@.contains(id@),
    {
        self.position(id).is_some()
    }

    /// Admits an installation of `id` unless one is already under way.
    pub fn try_begin(&mut self, id: String) -> (r: bool)
        requires
            old(self).wf(),
        ensures
            final(self).wf(),
            r == !old(self)@.contains(id@),
            r ==> final(self)@ == old(self)@.push(id@),
            !r ==> final(self)@ == old(self)@,
    {
        if self.is_active(&id) {
            false
        } else {
            let ghost before = self@;
            let ghost v = id@;
            self.active.push(id);
            assert(self@ =~= before.push(v));
            true
        }
    }

    /// Ends the installation of `id`, whatever its outcome.
    pub fn finish(&mut self, id: &String)
        requires
            old(self).wf(),
        ensures
            final(self).wf(),
            !final(self)@.contains(id@),
            forall|x: Seq<char>| x != id@ ==> (final(self)@.contains(x) <==> old(self)@.contains(x)),
    {
        match self.position(id) {
            Some(i) => {
                let ghost before = self@;
                self.active.remove(i);
                assert(self@ =~= before.remove(i as int));
                assert forall|x: Seq<char>| x != id@ implies (self@.contains(x) <==> before.contains(x)) by {
                    if before.contains(x) {
                        let k = choose|k: int| 0 <= k < before.len() && before[k] == x;
                        if k < i {
                            assert(self@[k] == x);
                        } else {
                            assert(k != i);
                            assert(self@[k - 1] == x);
                        }
                    }
                }
                assert(!self@.contains(id@)) by {
                    if self@.contains(id@) {
                        let k = choose|k: int| 0 <= k < self@.len() && self@[k] == id@;
                        if k < i {
                            assert(before[k] == id@);
                        } else {
                            assert(before[k + 1] == id@);
                        }
                    }
                }
            },
            None => {},
        }
    }
}

/// At most one installation per identifier: once `id` is admitted, it is
/// listed, so a second request for it is refused until it finishes.
pub proof fn lemma_second_request_refused(active: Seq<Seq<char>>, id: Seq<char>)
    requires
        active.no_duplicates(),
        !active.contains(id),
    ensures
        active.push(id).contains(id),
        active.push(id).no_duplicates(),
{
    assert(active.push(id)[active.len() as int] == id);
}

} // verus!
