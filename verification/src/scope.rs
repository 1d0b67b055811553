//! The scope and reference tracker: a concrete visitor built purely on the
//! traversal engine. It records every scope it enters, tags every use and
//! declaration with the depth active at that moment, and keeps the running
//! and maximum nesting depth.
//!
//! Each recorded field is pinned to the visitor's event history by a type
//! invariant: the depth is [`scope_depth`] of the history, the scope log is
//! [`scopes_of`], and the tagged identifier lists are [`uses_of`] and
//! [`declarations_of`]. Depth arithmetic saturates instead of wrapping, so
//! the callbacks are total; on any balanced history the saturation never
//! takes effect.

use vstd::prelude::*;
use crate::visit::ScopeEvent;
use crate::visit::ScopeKind;
use crate::visit::ScopeVisitor;

verus! {

/// Nesting depth after a history of events: zero at the module root, one
/// more inside each entered scope, one less after each leave. A leave at
/// depth zero and an enter at the integer limit leave the depth unchanged.
pub open spec fn scope_depth(es: Seq<ScopeEvent>) -> u64
    decreases es.len(),
{
    if es.len() == 0 {
        0
    } else {
        let d = scope_depth(es.drop_last());
        match es.last() {
            ScopeEvent::EnterScope(_) => if d < u64::MAX {
                (d + 1) as u64
            } else {
                d
            },
            ScopeEvent::LeaveScope => if d > 0 {
                (d - 1) as u64
            } else {
                0
            },
            _ => d,
        }
    }
}

/// The greatest depth reached at any point of the history.
pub open spec fn max_scope_depth(es: Seq<ScopeEvent>) -> u64
    decreases es.len(),
{
    if es.len() == 0 {
        0
    } else {
        let m = max_scope_depth(es.drop_last());
        let d = scope_depth(es);
        if d > m {
            d
        } else {
            m
        }
    }
}

/// The kinds of all scopes entered, in order.
pub open spec fn scopes_of(es: Seq<ScopeEvent>) -> Seq<ScopeKind>
    decreases es.len(),
{
    if es.len() == 0 {
        Seq::empty()
    } else {
        scopes_of(es.drop_last()) + match es.last() {
            ScopeEvent::EnterScope(kind) => seq![kind],
            _ => Seq::empty(),
        }
    }
}

/// Every identifier used, in order, tagged with the depth at the moment of
/// the use.
pub open spec fn uses_of(es: Seq<ScopeEvent>) -> Seq<(Seq<char>, u64)>
    decreases es.len(),
{
    if es.len() == 0 {
        Seq::empty()
    } else {
        uses_of(es.drop_last()) + match es.last() {
            ScopeEvent::Use(name) => seq![(name, scope_depth(es.drop_last()))],
            _ => Seq::empty(),
        }
    }
}

/// Every identifier declared, in order, tagged with the depth at the
/// moment of the declaration.
pub open spec fn declarations_of(es: Seq<ScopeEvent>) -> Seq<(Seq<char>, u64)>
    decreases es.len(),
{
    if es.len() == 0 {
        Seq::empty()
    } else {
        declarations_of(es.drop_last()) + match es.last() {
            ScopeEvent::Declare(name) => seq![(name, scope_depth(es.drop_last()))],
            _ => Seq::empty(),
        }
    }
}

/// Mathematical view of a recorded identifier list.
pub open spec fn tagged_names(s: Seq<(String, u64)>) -> Seq<(Seq<char>, u64)> {
    s.map_values(|p: (String, u64)| (p.0@, p.1))
}

/// The visitor itself: one mutable accumulator owned by a single
/// traversal, never shared.
pub struct ScopeAnalyzer {
    depth: u64,
    max_depth: u64,
    scopes: Vec<ScopeKind>,
    used_vars: Vec<(String, u64)>,
    declared_vars: Vec<(String, u64)>,
    log: Ghost<Seq<ScopeEvent>>,
}

impl ScopeAnalyzer {
    #[verifier::type_invariant]
    spec fn inv(self) -> bool {
        &&& self.depth == scope_depth(self.log@)
        &&& self.max_depth == max_scope_depth(self.log@)
        &&& self.scopes@ == scopes_of(self.log@)
        &&& tagged_names(self.used_vars@) == uses_of(self.log@)
        &&& tagged_names(self.declared_vars@) == declarations_of(self.log@)
    }

    /// A fresh tracker: depth zero, nothing recorded.
    pub fn new() -> (s: ScopeAnalyzer)
        ensures
            s.events() == Seq::<ScopeEvent>::empty(),
    {
        let ghost es: Seq<ScopeEvent> = Seq::empty();
        proof {
            assert(scopes_of(es) =~= Seq::<ScopeKind>::empty());
            assert(uses_of(es) =~= Seq::<(Seq<char>, u64)>::empty());
            assert(declarations_of(es) =~= Seq::<(Seq<char>, u64)>::empty());
            assert(tagged_names(Seq::<(String, u64)>::empty()) =~= Seq::<(Seq<char>, u64)>::empty());
        }
        ScopeAnalyzer {
            depth: 0,
            max_depth: 0,
            scopes: Vec::new(),
            used_vars: Vec::new(),
            declared_vars: Vec::new(),
            log: Ghost(es),
        }
    }

    /// The depth active now.
    pub fn depth(&self) -> (d: u64)
        ensures
            d == scope_depth(self.events()),
    {
        proof {
            use_type_invariant(&*self);
        }
        self.depth
    }

    /// The greatest depth reached so far.
    pub fn max_depth(&self) -> (d: u64)
        ensures
            d == max_scope_depth(self.events()),
    {
        proof {
            use_type_invariant(&*self);
        }
        self.max_depth
    }

    /// The kinds of all scopes entered, in order.
    pub fn scopes(&self) -> (r: &Vec<ScopeKind>)
        ensures
            r@ == scopes_of(self.events()),
    {
        proof {
            use_type_invariant(&*self);
        }
        &self.scopes
    }

    /// Every use recorded, with its depth, in order.
    pub fn used_vars(&self) -> (r: &Vec<(String, u64)>)
        ensures
            tagged_names(r@) == uses_of(self.events()),
    {
        proof {
            use_type_invariant(&*self);
        }
        &self.used_vars
    }

    /// Every declaration recorded, with its depth, in order.
    pub fn declared_vars(&self) -> (r: &Vec<(String, u64)>)
        ensures
            tagged_names(r@) == declarations_of(self.events()),
    {
        proof {
            use_type_invariant(&*self);
        }
        &self.declared_vars
    }
}

impl ScopeVisitor for ScopeAnalyzer {
    closed spec fn events(&self) -> Seq<ScopeEvent> {
        self.log@
    }

    fn on_statement_list(&mut self) {
        proof {
            use_type_invariant(&*self);
        }
        let mut taken = ScopeAnalyzer::new();
        core::mem::swap(self, &mut taken);
        let ScopeAnalyzer { depth, max_depth, scopes, used_vars, declared_vars, log } = taken;
        let ghost pre = log@;
        let ghost es = pre.push(ScopeEvent::StatementList);
        proof {
            assert(es.drop_last() =~= pre);
            assert(scopes@ =~= scopes_of(es));
            assert(tagged_names(used_vars@) =~= uses_of(es));
            assert(tagged_names(declared_vars@) =~= declarations_of(es));
        }
        *self = ScopeAnalyzer { depth, max_depth, scopes, used_vars, declared_vars, log: Ghost(es) };
    }

    fn on_enter_scope(&mut self, kind: ScopeKind) {
        proof {
            use_type_invariant(&*self);
        }
        let mut taken = ScopeAnalyzer::new();
        core::mem::swap(self, &mut taken);
        let ScopeAnalyzer {
            mut depth,
            mut max_depth,
            mut scopes,
            used_vars,
            declared_vars,
            log,
        } = taken;
        let ghost pre = log@;
        if depth < u64::MAX {
            depth = depth + 1;
        }
        if depth > max_depth {
            max_depth = depth;
        }
        scopes.push(kind);
        let ghost es = pre.push(ScopeEvent::EnterScope(kind));
        proof {
            assert(es.drop_last() =~= pre);
            assert(scopes@ =~= scopes_of(es));
            assert(tagged_names(used_vars@) =~= uses_of(es));
            assert(tagged_names(declared_vars@) =~= declarations_of(es));
        }
        *self = ScopeAnalyzer { depth, max_depth, scopes, used_vars, declared_vars, log: Ghost(es) };
    }

    fn on_leave_scope(&mut self) {
        proof {
            use_type_invariant(&*self);
        }
        let mut taken = ScopeAnalyzer::new();
        core::mem::swap(self, &mut taken);
        let ScopeAnalyzer { mut depth, max_depth, scopes, used_vars, declared_vars, log } = taken;
        let ghost pre = log@;
        if depth > 0 {
            depth = depth - 1;
        }
        let ghost es = pre.push(ScopeEvent::LeaveScope);
        proof {
            assert(es.drop_last() =~= pre);
            assert(scopes@ =~= scopes_of(es));
            assert(tagged_names(used_vars@) =~= uses_of(es));
            assert(tagged_names(declared_vars@) =~= declarations_of(es));
        }
        *self = ScopeAnalyzer { depth, max_depth, scopes, used_vars, declared_vars, log: Ghost(es) };
    }

    fn on_reference_use(&mut self, ident: &str) {
        proof {
            use_type_invariant(&*self);
        }
        let mut taken = ScopeAnalyzer::new();
        core::mem::swap(self, &mut taken);
        let ScopeAnalyzer { depth, max_depth, scopes, mut used_vars, declared_vars, log } = taken;
        let ghost pre = log@;
        used_vars.push((ident.to_owned(), depth));
        let ghost es = pre.push(ScopeEvent::Use(ident@));
        proof {
            assert(es.drop_last() =~= pre);
            assert(scopes@ =~= scopes_of(es));
            assert(tagged_names(used_vars@) =~= uses_of(es));
            assert(tagged_names(declared_vars@) =~= declarations_of(es));
        }
        *self = ScopeAnalyzer { depth, max_depth, scopes, used_vars, declared_vars, log: Ghost(es) };
    }

    fn on_reference_declaration(&mut self, ident: &str) {
        proof {
            use_type_invariant(&*self);
        }
        let mut taken = ScopeAnalyzer::new();
        core::mem::swap(self, &mut taken);
        let ScopeAnalyzer { depth, max_depth, scopes, used_vars, mut declared_vars, log } = taken;
        let ghost pre = log@;
        declared_vars.push((ident.to_owned(), depth));
        let ghost es = pre.push(ScopeEvent::Declare(ident@));
        proof {
            assert(es.drop_last() =~= pre);
            assert(scopes@ =~= scopes_of(es));
            assert(tagged_names(used_vars@) =~= uses_of(es));
            assert(tagged_names(declared_vars@) =~= declarations_of(es));
        }
        *self = ScopeAnalyzer { depth, max_depth, scopes, used_vars, declared_vars, log: Ghost(es) };
    }
}

/// Run the tracker over a whole module: the result's recorded state is
/// exactly the analysis of the module's event sequence.
pub fn analyze_module(a: &crate::ast::Arena, m: &crate::ast::Module) -> (s: ScopeAnalyzer)
    requires
        crate::ast::wf(a@),
        crate::ast::module_wf(*m, a@),
    ensures
        s.events() == crate::visit::module_events(a@, *m),
{
    let mut tracker = ScopeAnalyzer::new();
    crate::visit::traverse_module(a, m, &mut tracker);
    proof {
        assert(tracker.events() =~= crate::visit::module_events(a@, *m));
    }
    tracker
}

} // verus!
