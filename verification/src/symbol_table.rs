//! Declared symbols, their usages and the import registry.
//!
//! Symbols and references live in arenas and are addressed by index. The
//! lookups from a span to its symbol or reference, and from a symbol to its
//! usages, are views computed from the arenas.
use crate::span::Span;
use vstd::prelude::*;

verus! {

/// The index of a symbol in `SymbolTable::symbol_id_to_span`.
#[derive(Clone, Copy, Debug, PartialEq, Eq, Hash, Structural)]
pub struct SymbolId(pub usize);

/// The index of a reference in `SymbolTable::reference_id_to_reference`.
#[derive(Clone, Copy, Debug, PartialEq, Eq, Hash, Structural)]
pub struct ReferenceId(pub usize);

/// A single usage of a symbol. A usage that resolved to no declaration
/// carries no symbol.
#[derive(Clone, Copy, Debug, PartialEq, Eq, Structural)]
pub struct Reference {
    pub span: Span,
    pub symbol_id: Option<SymbolId>,
}

/// The kind of item an import brings in.
#[derive(Clone, Copy, Debug, PartialEq, Eq, Structural)]
pub enum ImportKind {
    Type,
    Service,
}

/// An import directive and the symbol declared for it.
#[derive(Clone, Debug)]
pub struct ImportEntry {
    pub kind: ImportKind,
    pub path: String,
    pub span: Span,
    pub symbol_id: SymbolId,
}

pub struct ImportEntryView {
    pub kind: ImportKind,
    pub path: Seq<char>,
    pub span: Span,
    pub symbol_id: SymbolId,
}

impl DeepView for ImportEntry {
    type V = ImportEntryView;

    open spec fn deep_view(&self) -> ImportEntryView {
        ImportEntryView {
            kind: self.kind,
            path: self.path@,
            span: self.span,
            symbol_id: self.symbol_id,
        }
    }
}

/// The last symbol declared with `span`, if any: a later declaration with the
/// same span replaces an earlier one.
pub open spec fn symbol_for_span(symbols: Seq<Span>, span: Span) -> Option<SymbolId>
    decreases symbols.len(),
{
    if symbols.len() == 0 {
        None
    } else if symbols.last() == span {
        Some(SymbolId((symbols.len() - 1) as usize))
    } else {
        symbol_for_span(symbols.drop_last(), span)
    }
}

/// The last reference recorded with `span`, if any.
pub open spec fn reference_for_span(references: Seq<Reference>, span: Span) -> Option<ReferenceId>
    decreases references.len(),
{
    if references.len() == 0 {
        None
    } else if references.last().span == span {
        Some(ReferenceId((references.len() - 1) as usize))
    } else {
        reference_for_span(references.drop_last(), span)
    }
}

/// The references among the first `n` that are bound to `symbol`, in the
/// order in which they were recorded.
pub open spec fn references_to(references: Seq<Reference>, symbol: SymbolId, n: nat) -> Seq<
    ReferenceId,
>
    decreases n,
{
    if n == 0 {
        Seq::empty()
    } else {
        let before = references_to(references, symbol, (n - 1) as nat);
        if n <= references.len() && references[n - 1].symbol_id == Some(symbol) {
            before.push(ReferenceId((n - 1) as usize))
        } else {
            before
        }
    }
}

/// A symbol found for a span is a declared symbol with that span; where none
/// is found, no symbol has the span.
pub proof fn lemma_symbol_for_span_in_range(symbols: Seq<Span>, span: Span)
    requires
        symbols.len() <= usize::MAX,
    ensures
        symbol_for_span(symbols, span) matches Some(id) ==> id.0 < symbols.len() && symbols[id.0 as int]
            == span,
        symbol_for_span(symbols, span) is None ==> forall|i: int|
            0 <= i < symbols.len() ==> symbols[i] != span,
    decreases symbols.len(),
{
    if symbols.len() > 0 && symbols.last() != span {
        lemma_symbol_for_span_in_range(symbols.drop_last(), span);
        if let Some(id) = symbol_for_span(symbols.drop_last(), span) {
            assert(symbols.drop_last()[id.0 as int] == symbols[id.0 as int]);
        }
        assert forall|i: int| 0 <= i < symbols.len() && symbol_for_span(symbols, span) is None
            implies symbols[i] != span by {
            if i < symbols.len() - 1 {
                assert(symbols.drop_last()[i] == symbols[i]);
            }
        }
    }
}

/// Every reference counted for a symbol is one of the first `n` references
/// and is bound to that symbol.
pub proof fn lemma_references_to_members(references: Seq<Reference>, symbol: SymbolId, n: nat)
    requires
        n <= references.len() <= usize::MAX,
    ensures
        forall|k: int|
            0 <= k < references_to(references, symbol, n).len() ==> {
                let id = #[trigger] references_to(references, symbol, n)[k];
                id.0 < n && references[id.0 as int].symbol_id == Some(symbol)
            },
    decreases n,
{
    if n > 0 {
        lemma_references_to_members(references, symbol, (n - 1) as nat);
    }
}

/// Symbols, references and imports of one document.
#[derive(Debug)]
pub struct SymbolTable {
    /// The declaration span of each symbol, in declaration order.
    pub symbol_id_to_span: Vec<Span>,
    /// Every usage, in the order recorded.
    pub reference_id_to_reference: Vec<Reference>,
    /// Imported paths with the symbols declared for them.
    pub imports: Vec<ImportEntry>,
}

pub struct SymbolTableView {
    pub symbols: Seq<Span>,
    pub references: Seq<Reference>,
    pub imports: Seq<ImportEntryView>,
}

impl SymbolTableView {
    pub open spec fn empty() -> SymbolTableView {
        SymbolTableView { symbols: Seq::empty(), references: Seq::empty(), imports: Seq::empty() }
    }

    /// Every reference that names a symbol names a declared one, and so does
    /// every import.
    pub open spec fn wf(self) -> bool {
        &&& forall|i: int|
            0 <= i < self.references.len() ==> ((#[trigger] self.references[i]).symbol_id matches Some(
                id,
            ) ==> id.0 < self.symbols.len())
        &&& forall|i: int|
            0 <= i < self.imports.len() ==> (#[trigger] self.imports[i]).symbol_id.0
                < self.symbols.len()
    }

    /// Declaration span to symbol.
    pub open spec fn span_to_symbol_id(self) -> Map<Span, SymbolId> {
        Map::new(
            |span: Span| symbol_for_span(self.symbols, span) is Some,
            |span: Span| symbol_for_span(self.symbols, span)->0,
        )
    }

    /// Referential integrity: every symbol that has usages is a declared
    /// symbol.
    pub open spec fn has_referential_integrity(self) -> bool {
        forall|symbol: SymbolId| #[trigger]
            self.symbol_id_to_references().dom().contains(symbol) ==> self.span_of(symbol) is Some
    }

    /// The declaration span of a symbol, where the symbol is a declared one.
    pub open spec fn span_of(self, symbol: SymbolId) -> Option<Span> {
        if symbol.0 < self.symbols.len() {
            Some(self.symbols[symbol.0 as int])
        } else {
            None
        }
    }

    /// Usage span to reference.
    pub open spec fn span_to_reference_id(self) -> Map<Span, ReferenceId> {
        Map::new(
            |span: Span| reference_for_span(self.references, span) is Some,
            |span: Span| reference_for_span(self.references, span)->0,
        )
    }

    /// Symbol to its usages: the symbols that have at least one usage, each
    /// with all of them.
    pub open spec fn symbol_id_to_references(self) -> Map<SymbolId, Seq<ReferenceId>> {
        Map::new(
            |symbol: SymbolId| references_to(self.references, symbol, self.references.len()).len() > 0,
            |symbol: SymbolId| references_to(self.references, symbol, self.references.len()),
        )
    }

    pub open spec fn with_symbol(self, span: Span) -> SymbolTableView {
        SymbolTableView { symbols: self.symbols.push(span), ..self }
    }

    pub open spec fn with_reference(self, span: Span, symbol_id: Option<SymbolId>) -> SymbolTableView {
        SymbolTableView { references: self.references.push(Reference { span, symbol_id }), ..self }
    }

    pub open spec fn with_import(self, span: Span, path: Seq<char>, kind: ImportKind) -> SymbolTableView {
        SymbolTableView {
            symbols: self.symbols.push(span),
            imports: self.imports.push(
                ImportEntryView { kind, path, span, symbol_id: SymbolId(self.symbols.len() as usize) },
            ),
            ..self
        }
    }
}

impl DeepView for SymbolTable {
    type V = SymbolTableView;

    open spec fn deep_view(&self) -> SymbolTableView {
        SymbolTableView {
            symbols: self.symbol_id_to_span@,
            references: self.reference_id_to_reference@,
            imports: self.imports.deep_view(),
        }
    }
}

impl SymbolTable {
    /// A table without symbols, references or imports.
    pub fn new() -> (table: SymbolTable)
        ensures
            table.deep_view() == SymbolTableView::empty(),
            table.deep_view().wf(),
    {
        let table = SymbolTable {
            symbol_id_to_span: Vec::new(),
            reference_id_to_reference: Vec::new(),
            imports: Vec::new(),
        };
        assert(table.imports.deep_view() =~= Seq::empty());
        table
    }

    /// Register a symbol definition and return its identifier.
    pub fn add_symbol(&mut self, span: Span) -> (symbol_id: SymbolId)
        ensures
            final(self).deep_view() == old(self).deep_view().with_symbol(span),
            symbol_id.0 == old(self).symbol_id_to_span@.len(),
            old(self).deep_view().wf() ==> final(self).deep_view().wf(),
            final(self).deep_view().span_to_symbol_id() == old(self).deep_view().span_to_symbol_id().insert(
                span,
                symbol_id,
            ),
    {
        let symbol_id = SymbolId(self.symbol_id_to_span.len());
        self.symbol_id_to_span.push(span);
        proof {
            let before = old(self).deep_view();
            let after = self.deep_view();
            assert(after.symbols.drop_last() =~= before.symbols);
            assert forall|s: Span|
                symbol_for_span(after.symbols, s) == (if s == span {
                    Some(symbol_id)
                } else {
                    symbol_for_span(before.symbols, s)
                }) by {}
            assert(after.span_to_symbol_id() =~= before.span_to_symbol_id().insert(span, symbol_id));
        }
        symbol_id
    }

    /// Record a usage and bind it to a symbol, if it has one. The table stays
    /// consistent where the symbol is a declared one.
    pub fn add_reference(&mut self, span: Span, symbol_id: Option<SymbolId>) -> (reference_id:
        ReferenceId)
        ensures
            final(self).deep_view() == old(self).deep_view().with_reference(span, symbol_id),
            reference_id.0 == old(self).reference_id_to_reference@.len(),
            old(self).deep_view().wf() && (symbol_id matches Some(id) ==> id.0 < old(
                self,
            ).symbol_id_to_span@.len()) ==> final(self).deep_view().wf(),
    {
        let reference_id = ReferenceId(self.reference_id_to_reference.len());
        self.reference_id_to_reference.push(Reference { span, symbol_id });
        reference_id
    }

    /// Register an import statement: declares a symbol for it and records its
    /// path and kind.
    pub fn add_import(&mut self, span: Span, path: String, kind: ImportKind) -> (symbol_id: SymbolId)
        ensures
            final(self).deep_view() == old(self).deep_view().with_import(span, path@, kind),
            symbol_id.0 == old(self).symbol_id_to_span@.len(),
            old(self).deep_view().wf() ==> final(self).deep_view().wf(),
    {
        let symbol_id = self.add_symbol(span);
        self.imports.push(ImportEntry { kind, path, span, symbol_id });
        proof {
            assert(self.imports.deep_view() =~= old(self).imports.deep_view().push(
                ImportEntryView { kind, path: path@, span, symbol_id },
            ));
        }
        symbol_id
    }

    /// The symbol declared with `span`; the latest one where several were.
    pub fn symbol_at(&self, span: Span) -> (symbol_id: Option<SymbolId>)
        ensures
            symbol_id == symbol_for_span(self.symbol_id_to_span@, span),
            symbol_id matches Some(id) ==> id.0 < self.symbol_id_to_span@.len(),
    {
        let mut i: usize = self.symbol_id_to_span.len();
        assert(self.symbol_id_to_span@.take(i as int) =~= self.symbol_id_to_span@);
        while i > 0
            invariant
                i <= self.symbol_id_to_span.len(),
                symbol_for_span(self.symbol_id_to_span@, span) == symbol_for_span(
                    self.symbol_id_to_span@.take(i as int),
                    span,
                ),
            decreases i,
        {
            i -= 1;
            proof {
                let prefix = self.symbol_id_to_span@.take(i + 1);
                assert(prefix.drop_last() =~= self.symbol_id_to_span@.take(i as int));
                assert(prefix.last() == self.symbol_id_to_span@[i as int]);
            }
            if self.symbol_id_to_span[i] == span {
                return Some(SymbolId(i));
            }
        }
        None
    }

    /// Every usage bound to `symbol`, in the order recorded.
    pub fn usages_of(&self, symbol: SymbolId) -> (usages: Vec<ReferenceId>)
        ensures
            usages@ == references_to(
                self.reference_id_to_reference@,
                symbol,
                self.reference_id_to_reference@.len(),
            ),
    {
        let mut usages: Vec<ReferenceId> = Vec::new();
        let mut i: usize = 0;
        while i < self.reference_id_to_reference.len()
            invariant
                i <= self.reference_id_to_reference.len(),
                usages@ == references_to(self.reference_id_to_reference@, symbol, i as nat),
            decreases self.reference_id_to_reference.len() - i,
        {
            let bound = match self.reference_id_to_reference[i].symbol_id {
                Some(id) => id.0 == symbol.0,
                None => false,
            };
            if bound {
                usages.push(ReferenceId(i));
            }
            i += 1;
        }
        usages
    }
}

/// Referential integrity: in a well-formed table, every symbol that has usages
/// is a declared symbol, and each of its usages is a recorded reference bound
/// to it.
pub proof fn lemma_referential_integrity(table: SymbolTableView)
    requires
        table.wf(),
        table.references.len() <= usize::MAX,
    ensures
        table.has_referential_integrity(),
        forall|symbol: SymbolId| #[trigger]
            table.symbol_id_to_references().dom().contains(symbol) ==> symbol.0
                < table.symbols.len(),
        forall|symbol: SymbolId, k: int|
            table.symbol_id_to_references().dom().contains(symbol) && 0 <= k
                < table.symbol_id_to_references()[symbol].len() ==> {
                let id = #[trigger] table.symbol_id_to_references()[symbol][k];
                id.0 < table.references.len() && table.references[id.0 as int].symbol_id == Some(
                    symbol,
                )
            },
{
    assert forall|symbol: SymbolId| #[trigger]
        table.symbol_id_to_references().dom().contains(symbol) implies symbol.0
        < table.symbols.len() by {
        lemma_references_to_members(table.references, symbol, table.references.len());
        let usages = references_to(table.references, symbol, table.references.len());
        let id = usages[0];
        assert(table.references[id.0 as int].symbol_id == Some(symbol));
    }
    assert forall|symbol: SymbolId, k: int|
        table.symbol_id_to_references().dom().contains(symbol) && 0 <= k
            < table.symbol_id_to_references()[symbol].len() implies {
        let id = #[trigger] table.symbol_id_to_references()[symbol][k];
        id.0 < table.references.len() && table.references[id.0 as int].symbol_id == Some(symbol)
    } by {
        lemma_references_to_members(table.references, symbol, table.references.len());
    }
}

} // verus!
