//! Namespaces: the path of scopes from the root to a declaration.
use vstd::prelude::*;

verus! {

/// The ordered scope names from the compilation root to a lexical scope.
#[derive(Clone, Debug)]
pub struct Namespace {
    pub paths: Vec<String>,
}

impl View for Namespace {
    type V = Seq<Seq<char>>;

    open spec fn view(&self) -> Seq<Seq<char>> {
        self.paths@.map_values(|p: String| p@)
    }
}

/// `a` is `b` or one of its ancestors.
pub open spec fn is_prefix(a: Seq<Seq<char>>, b: Seq<Seq<char>>) -> bool {
    a.len() <= b.len() && b.take(a.len() as int) == a
}

impl Namespace {
    /// The root namespace.
    pub fn new() -> (r: Namespace)
        ensures
            r@ == Seq::<Seq<char>>::empty(),
    {
        let r = Namespace { paths: Vec::new() };
        proof { assert(r@ =~= Seq::<Seq<char>>::empty()); }
        r
    }

    /// Enters the scope `name`.
    pub fn push(&mut self, name: &str)
        ensures
            final(self)@ == old(self)@.push(name@),
    {
        self.paths.push(name.to_owned());
        proof { assert(self@ =~= old(self)@.push(name@)); }
    }

    /// Leaves the innermost scope; the root stays the root.
    pub fn pop(&mut self)
        ensures
            old(self)@.len() > 0 ==> final(self)@ == old(self)@.drop_last(),
            old(self)@.len() == 0 ==> final(self)@ == old(self)@,
    {
        if self.paths.len() > 0 {
            self.paths.pop();
            proof { assert(self@ =~= old(self)@.drop_last()); }
        }
    }

    /// A copy of this namespace.
    pub fn duplicate(&self) -> (r: Namespace)
        ensures
            r@ == self@,
    {
        let mut paths: Vec<String> = Vec::new();
        let mut i: usize = 0;
        while i < self.paths.len()
            invariant
                0 <= i <= self.paths.len(),
                paths@.len() == i,
                forall|j: int| 0 <= j < i ==> #[trigger] paths@[j]@ == self.paths@[j]@,
            decreases self.paths.len() - i,
        {
            paths.push(self.paths[i].clone());
            i = i + 1;
        }
        let r = Namespace { paths };
        proof { assert(r@ =~= self@); }
        r
    }

    /// The first `k` scopes of this namespace are exactly `other`.
    pub fn prefix_equals(&self, k: usize, other: &Namespace) -> (r: bool)
        requires
            k <= self@.len(),
        ensures
            r == (self@.take(k as int) == other@),
    {
        if other.paths.len() != k {
            proof { assert(self@.take(k as int).len() != other@.len()); }
            return false;
        }
        let mut i: usize = 0;
        while i < k
            invariant
                0 <= i <= k,
                k <= self@.len(),
                other@.len() == k,
                forall|j: int| 0 <= j < i ==> self@[j] == other@[j],
            decreases k - i,
        {
            if self.paths[i] != other.paths[i] {
                proof { assert(self@.take(k as int)[i as int] != other@[i as int]); }
                return false;
            }
            i = i + 1;
        }
        proof { assert(self@.take(k as int) =~= other@); }
        true
    }

    /// This namespace is `other` or one of its ancestors.
    pub fn included(&self, other: &Namespace) -> (r: bool)
        ensures
            r == is_prefix(self@, other@),
    {
        if self.paths.len() > other.paths.len() {
            return false;
        }
        other.prefix_equals(self.paths.len(), self)
    }
}

} // verus!
