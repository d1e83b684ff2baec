//! The symbol table: declarations keyed by name and namespace, with lookup
//! that walks outward through enclosing namespaces.
use vstd::prelude::*;
use crate::analyzer_error::AnalyzerError;
use crate::evaluator::Evaluated;
use crate::namespace::{Namespace, is_prefix};
use crate::symbol::{Symbol, evaluate_step};
use crate::token::Token;

verus! {

/// Symbol `i` declares `name` in exactly the namespace `ns`.
pub open spec fn declared_at(syms: Seq<Symbol>, name: Seq<char>, ns: Seq<Seq<char>>, i: int) -> bool {
    0 <= i < syms.len() && syms[i].token.text@ == name && syms[i].namespace@ == ns
}

/// Some symbol declares `name` in exactly the namespace `ns`.
pub open spec fn declares(syms: Seq<Symbol>, name: Seq<char>, ns: Seq<Seq<char>>) -> bool {
    exists|i: int| declared_at(syms, name, ns, i)
}

/// No two symbols share a name and a namespace.
pub open spec fn unique_declarations(syms: Seq<Symbol>) -> bool {
    forall|i: int, j: int|
        #![trigger syms[i], syms[j]]
        0 <= i < syms.len() && 0 <= j < syms.len() && i != j ==> !(syms[i].token.text@
            == syms[j].token.text@ && syms[i].namespace@ == syms[j].namespace@)
}

/// The symbol that `name` denotes from namespace `ns`: the one declared in
/// `ns` itself, else the one it denotes from the enclosing namespace.
pub open spec fn resolve(syms: Seq<Symbol>, name: Seq<char>, ns: Seq<Seq<char>>) -> Option<int>
    decreases ns.len(),
{
    if declares(syms, name, ns) {
        Some(choose|i: int| declared_at(syms, name, ns, i))
    } else if ns.len() == 0 {
        None
    } else {
        resolve(syms, name, ns.drop_last())
    }
}

/// One call of `SymbolTable::insert` with `s` took the symbols `before` to
/// `after` and returned `r`.
pub open spec fn insert_step(
    before: Seq<Symbol>,
    s: Symbol,
    after: Seq<Symbol>,
    r: Result<usize, AnalyzerError>,
) -> bool {
    if declares(before, s.token.text@, s.namespace@) {
        &&& after == before
        &&& r is Err
        &&& r->Err_0 is DuplicatedIdentifier
        &&& r->Err_0->DuplicatedIdentifier_identifier@ == s.token.text@
        &&& r->Err_0->DuplicatedIdentifier_token == s.token
    } else {
        &&& after == before.push(s)
        &&& r == Ok::<usize, AnalyzerError>(before.len() as usize)
    }
}

/// Every declaration of a compilation unit.
pub struct SymbolTable {
    symbols: Vec<Symbol>,
}

impl View for SymbolTable {
    type V = Seq<Symbol>;

    closed spec fn view(&self) -> Seq<Symbol> {
        self.symbols@
    }
}

impl SymbolTable {
    pub open spec fn wf(&self) -> bool {
        unique_declarations(self@)
    }

    pub fn new() -> (r: SymbolTable)
        ensures
            r@.len() == 0,
            r.wf(),
    {
        SymbolTable { symbols: Vec::new() }
    }

    pub fn len(&self) -> (r: usize)
        ensures
            r == self@.len(),
    {
        self.symbols.len()
    }

    pub fn get(&self, id: usize) -> (r: &Symbol)
        requires
            id < self@.len(),
        ensures
            *r == self@[id as int],
    {
        &self.symbols[id]
    }

    /// The index of a symbol declaring `name` in exactly `ns`, if any.
    fn find_in(&self, name: &String, ns: &Namespace, k: usize) -> (r: Option<usize>)
        requires
            k <= ns@.len(),
        ensures
            match r {
                Some(i) => declared_at(self@, name@, ns@.take(k as int), i as int),
                None => !declares(self@, name@, ns@.take(k as int)),
            },
    {
        let mut i: usize = 0;
        while i < self.symbols.len()
            invariant
                0 <= i <= self.symbols.len(),
                k <= ns@.len(),
                forall|j: int| 0 <= j < i ==> !declared_at(self@, name@, ns@.take(k as int), j),
            decreases self.symbols.len() - i,
        {
            if self.symbols[i].token.text == *name && ns.prefix_equals(
                k,
                &self.symbols[i].namespace,
            ) {
                return Some(i);
            }
            i = i + 1;
        }
        None
    }

    /// Declares `symbol`. A symbol of the same name in the same namespace
    /// is an error, and the table is left as it was.
    pub fn insert(&mut self, symbol: Symbol) -> (r: Result<usize, AnalyzerError>)
        requires
            old(self).wf(),
        ensures
            final(self).wf(),
            insert_step(old(self)@, symbol, final(self)@, r),
    {
        let n = symbol.namespace.paths.len();
        match self.find_in(&symbol.token.text, &symbol.namespace, n) {
            Some(_) => {
                proof {
                    assert(symbol.namespace@.take(n as int) =~= symbol.namespace@);
                }
                Err(
                    AnalyzerError::duplicated_identifier(
                        symbol.token.text.as_str(),
                        &symbol.token,
                    ),
                )
            },
            None => {
                proof {
                    assert(symbol.namespace@.take(n as int) =~= symbol.namespace@);
                }
                let id = self.symbols.len();
                self.symbols.push(symbol);
                proof {
                    assert forall|i: int, j: int|
                        0 <= i < self@.len() && 0 <= j < self@.len() && i != j implies !(
                        #[trigger] self@[i].token.text@ == #[trigger] self@[j].token.text@
                            && self@[i].namespace@ == self@[j].namespace@) by {
                        if i == id as int {
                            assert(!declared_at(old(self)@, symbol.token.text@, symbol.namespace@, j));
                        } else if j == id as int {
                            assert(!declared_at(old(self)@, symbol.token.text@, symbol.namespace@, i));
                        } else {
                            assert(old(self)@[i] == self@[i] && old(self)@[j] == self@[j]);
                        }
                    }
                }
                Ok(id)
            },
        }
    }

    /// The symbol that `name` denotes from `namespace`: the declaration in
    /// the innermost of `namespace` and its enclosing namespaces that has one.
    pub fn lookup(&self, name: &str, namespace: &Namespace) -> (r: Option<usize>)
        requires
            self.wf(),
        ensures
            r matches Some(i) ==> i < self@.len(),
            resolve(self@, name@, namespace@) == match r {
                Some(i) => Some(i as int),
                None => None::<int>,
            },
    {
        let key = name.to_owned();
        let mut k: usize = namespace.paths.len();
        proof {
            assert(namespace@.take(k as int) =~= namespace@);
        }
        loop
            invariant
                k <= namespace@.len(),
                key@ == name@,
                self.wf(),
                resolve(self@, name@, namespace@) == resolve(self@, name@, namespace@.take(k as int)),
            decreases k,
        {
            match self.find_in(&key, namespace, k) {
                Some(i) => {
                    proof {
                        let ns = namespace@.take(k as int);
                        assert forall|j: int| declared_at(self@, name@, ns, j) implies j == i by {
                            if j != i {
                                assert(self@[j as int].token.text@ == self@[i as int].token.text@);
                            }
                        }
                    }
                    return Some(i);
                },
                None => {
                    if k == 0 {
                        return None;
                    }
                    proof {
                        assert(namespace@.take(k as int).drop_last() =~= namespace@.take(k - 1));
                    }
                    k = k - 1;
                },
            }
        }
    }

    /// Records a use of symbol `id` at `token`.
    pub fn add_reference(&mut self, id: usize, token: Token)
        requires
            old(self).wf(),
            id < old(self)@.len(),
        ensures
            final(self).wf(),
            final(self)@ == old(self)@.update(
                id as int,
                Symbol { references: final(self)@[id as int].references, ..old(self)@[id as int] },
            ),
            final(self)@[id as int].references@ == old(self)@[id as int].references@.push(token),
    {
        let mut s = self.symbols.remove(id);
        s.references.push(token);
        self.symbols.insert(id, s);
        proof {
            assert(self@ =~= old(self)@.update(id as int, s));
            assert forall|i: int, j: int|
                0 <= i < self@.len() && 0 <= j < self@.len() && i != j implies !(
                #[trigger] self@[i].token.text@ == #[trigger] self@[j].token.text@
                    && self@[i].namespace@ == self@[j].namespace@) by {
                assert(old(self)@[i].token == self@[i].token);
                assert(old(self)@[j].token == self@[j].token);
                assert(old(self)@[i].namespace == self@[i].namespace);
                assert(old(self)@[j].namespace == self@[j].namespace);
            }
        }
    }

    /// Evaluates symbol `id`, through its cache.
    pub fn evaluate(&mut self, id: usize) -> (r: Evaluated)
        requires
            old(self).wf(),
            id < old(self)@.len(),
        ensures
            final(self).wf(),
            final(self)@.len() == old(self)@.len(),
            forall|j: int| 0 <= j < old(self)@.len() && j != id ==> final(self)@[j] == old(self)@[j],
            evaluate_step(old(self)@[id as int], final(self)@[id as int], r),
    {
        let mut s = self.symbols.remove(id);
        let r = s.evaluate();
        self.symbols.insert(id, s);
        proof {
            assert(self@ =~= old(self)@.update(id as int, s));
            assert forall|i: int, j: int|
                0 <= i < self@.len() && 0 <= j < self@.len() && i != j implies !(
                #[trigger] self@[i].token.text@ == #[trigger] self@[j].token.text@
                    && self@[i].namespace@ == self@[j].namespace@) by {
                assert(old(self)@[i].token == self@[i].token);
                assert(old(self)@[j].token == self@[j].token);
                assert(old(self)@[i].namespace == self@[i].namespace);
                assert(old(self)@[j].namespace == self@[j].namespace);
            }
        }
        r
    }
}

/// Declaring one name twice, starting from a table that has neither
/// declaration: in the same namespace the second declaration is refused as
/// a duplicate; in two different namespaces both are accepted.
pub proof fn lemma_declare_twice(
    before: Seq<Symbol>,
    a: Symbol,
    mid: Seq<Symbol>,
    ra: Result<usize, AnalyzerError>,
    b: Symbol,
    after: Seq<Symbol>,
    rb: Result<usize, AnalyzerError>,
)
    requires
        insert_step(before, a, mid, ra),
        insert_step(mid, b, after, rb),
        !declares(before, a.token.text@, a.namespace@),
        !declares(before, b.token.text@, b.namespace@),
        a.token.text@ == b.token.text@,
    ensures
        ra is Ok,
        a.namespace@ == b.namespace@ ==> rb is Err && rb->Err_0 is DuplicatedIdentifier && after
            == mid,
        a.namespace@ != b.namespace@ ==> rb is Ok && after == before.push(a).push(b),
{
    let n = before.len() as int;
    if a.namespace@ == b.namespace@ {
        assert(declared_at(mid, b.token.text@, b.namespace@, n));
    } else {
        assert forall|i: int| !declared_at(mid, b.token.text@, b.namespace@, i) by {
            assert(mid == before.push(a));
            if 0 <= i < n {
                assert(mid[i] == before[i]);
                assert(!declared_at(before, b.token.text@, b.namespace@, i));
            } else if i == n {
                assert(mid[i] == a);
            }
        }
    }
}

/// Lookup from `from` finds the declaration in the innermost enclosing
/// namespace that declares the name: when `outer` encloses `from`, declares
/// the name as symbol `j`, and no namespace between them declares it, the
/// lookup gives `j`. With `outer` equal to `from`, an inner declaration
/// shadows every outer one.
pub proof fn lemma_lookup_innermost(
    syms: Seq<Symbol>,
    name: Seq<char>,
    from: Seq<Seq<char>>,
    outer: Seq<Seq<char>>,
    j: int,
)
    requires
        unique_declarations(syms),
        is_prefix(outer, from),
        declared_at(syms, name, outer, j),
        forall|k: int| outer.len() < k <= from.len() ==> !declares(syms, name, #[trigger] from.take(k)),
    ensures
        resolve(syms, name, from) == Some(j),
    decreases from.len(),
{
    if from.len() == outer.len() {
        assert(from.take(outer.len() as int) =~= from);
        let i = choose|i: int| declared_at(syms, name, from, i);
        if i != j {
            assert(syms[i].token.text@ == syms[j].token.text@);
        }
    } else {
        assert(from.take(from.len() as int) =~= from);
        let up = from.drop_last();
        assert(up.take(outer.len() as int) =~= from.take(outer.len() as int));
        assert forall|k: int| outer.len() < k <= up.len() implies !declares(
            syms,
            name,
            #[trigger] up.take(k),
        ) by {
            assert(up.take(k) =~= from.take(k));
        }
        lemma_lookup_innermost(syms, name, up, outer, j);
    }
}

} // verus!
