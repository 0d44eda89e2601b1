//! Identifier lookup: which identifier lies at an offset, and what is known of it.
use crate::ident_index::{index_find, index_intervals, IdentInterval};
use crate::semantic_analyze::{
    FieldId, FieldPart, IdentType, MethodId, ParamId, ParamRole, PrimitiveHover, Semantic, SemanticView,
};
use crate::span::Span;
use crate::symbol_table::{ImportEntry, ImportEntryView, ReferenceId, SymbolId};
use crate::type_docs::KeywordDoc;
use vstd::multiset::Multiset;
use vstd::prelude::*;

verus! {

/// Which part of a field an identifier is.
#[derive(Clone, Copy, Debug, PartialEq, Eq, Structural)]
pub enum FieldRole {
    Label,
    Type,
}

/// The field that an identifier belongs to.
#[derive(Clone, Debug)]
pub struct FieldIdentifier {
    pub id: FieldId,
    pub span: Span,
    pub label_span: Option<Span>,
    pub type_span: Option<Span>,
    pub role: FieldRole,
    pub docs: Option<String>,
    pub parent_name: Option<String>,
}

pub struct FieldIdentifierView {
    pub id: FieldId,
    pub span: Span,
    pub label_span: Option<Span>,
    pub type_span: Option<Span>,
    pub role: FieldRole,
    pub docs: Option<Seq<char>>,
    pub parent_name: Option<Seq<char>>,
}

impl DeepView for FieldIdentifier {
    type V = FieldIdentifierView;

    open spec fn deep_view(&self) -> FieldIdentifierView {
        FieldIdentifierView {
            id: self.id,
            span: self.span,
            label_span: self.label_span,
            type_span: self.type_span,
            role: self.role,
            docs: self.docs.deep_view(),
            parent_name: self.parent_name.deep_view(),
        }
    }
}

/// The service method that an identifier names.
#[derive(Clone, Debug)]
pub struct MethodIdentifier {
    pub id: MethodId,
    pub span: Span,
    pub type_span: Option<Span>,
    pub docs: Option<String>,
    pub parent_name: Option<String>,
}

pub struct MethodIdentifierView {
    pub id: MethodId,
    pub span: Span,
    pub type_span: Option<Span>,
    pub docs: Option<Seq<char>>,
    pub parent_name: Option<Seq<char>>,
}

impl DeepView for MethodIdentifier {
    type V = MethodIdentifierView;

    open spec fn deep_view(&self) -> MethodIdentifierView {
        MethodIdentifierView {
            id: self.id,
            span: self.span,
            type_span: self.type_span,
            docs: self.docs.deep_view(),
            parent_name: self.parent_name.deep_view(),
        }
    }
}

/// The function parameter that an identifier names.
#[derive(Clone, Copy, Debug, PartialEq, Eq, Structural)]
pub struct ParamIdentifier {
    pub id: ParamId,
    pub span: Span,
    pub type_span: Span,
    pub role: ParamRole,
}

/// The top-level service that an identifier names.
#[derive(Clone, Debug)]
pub struct ActorIdentifier {
    pub span: Span,
    pub docs: Option<String>,
    pub definition: Option<String>,
}

pub struct ActorIdentifierView {
    pub span: Span,
    pub docs: Option<Seq<char>>,
    pub definition: Option<Seq<char>>,
}

impl DeepView for ActorIdentifier {
    type V = ActorIdentifierView;

    open spec fn deep_view(&self) -> ActorIdentifierView {
        ActorIdentifierView {
            span: self.span,
            docs: self.docs.deep_view(),
            definition: self.definition.deep_view(),
        }
    }
}

/// What is known of the identifier at a position.
#[derive(Clone, Debug)]
pub struct IdentifierInfo {
    pub ident_span: Span,
    pub definition_span: Option<Span>,
    pub symbol_id: Option<SymbolId>,
    pub reference_id: Option<ReferenceId>,
    pub import: Option<ImportEntry>,
    pub field: Option<FieldIdentifier>,
    pub service_method: Option<MethodIdentifier>,
    pub param: Option<ParamIdentifier>,
    pub primitive: Option<PrimitiveHover>,
    pub keyword: Option<KeywordDoc>,
    pub actor: Option<ActorIdentifier>,
}

pub struct IdentifierInfoView {
    pub ident_span: Span,
    pub definition_span: Option<Span>,
    pub symbol_id: Option<SymbolId>,
    pub reference_id: Option<ReferenceId>,
    pub import: Option<ImportEntryView>,
    pub field: Option<FieldIdentifierView>,
    pub service_method: Option<MethodIdentifierView>,
    pub param: Option<ParamIdentifier>,
    pub primitive: Option<PrimitiveHover>,
    pub keyword: Option<KeywordDoc>,
    pub actor: Option<ActorIdentifierView>,
}

impl DeepView for IdentifierInfo {
    type V = IdentifierInfoView;

    open spec fn deep_view(&self) -> IdentifierInfoView {
        IdentifierInfoView {
            ident_span: self.ident_span,
            definition_span: self.definition_span,
            symbol_id: self.symbol_id,
            reference_id: self.reference_id,
            import: self.import.deep_view(),
            field: self.field.deep_view(),
            service_method: self.service_method.deep_view(),
            param: self.param,
            primitive: self.primitive,
            keyword: self.keyword,
            actor: self.actor.deep_view(),
        }
    }
}

impl IdentifierInfoView {
    /// An identifier of which only its span is known.
    pub open spec fn bare(ident_span: Span) -> IdentifierInfoView {
        IdentifierInfoView {
            ident_span,
            definition_span: None,
            symbol_id: None,
            reference_id: None,
            import: None,
            field: None,
            service_method: None,
            param: None,
            primitive: None,
            keyword: None,
            actor: None,
        }
    }
}

impl IdentifierInfo {
    pub fn bare(ident_span: Span) -> (info: IdentifierInfo)
        ensures
            info.deep_view() == IdentifierInfoView::bare(ident_span),
    {
        IdentifierInfo {
            ident_span,
            definition_span: None,
            symbol_id: None,
            reference_id: None,
            import: None,
            field: None,
            service_method: None,
            param: None,
            primitive: None,
            keyword: None,
            actor: None,
        }
    }
}

/// The rank of an identifier kind where intervals overlap: a reference
/// outranks a primitive or keyword, which outranks an actor, field label,
/// service method or parameter, which outranks a field type, which outranks
/// a binding.
pub open spec fn priority_of(ident: IdentType) -> int {
    match ident {
        IdentType::Reference(_) => 5,
        IdentType::Primitive(_) => 4,
        IdentType::Keyword(_) => 4,
        IdentType::Actor => 3,
        IdentType::Field(_, FieldPart::Label) => 3,
        IdentType::ServiceMethod(_) => 3,
        IdentType::FuncParam(_) => 3,
        IdentType::Field(_, FieldPart::Type) => 2,
        IdentType::Binding(_) => 1,
    }
}

pub fn ident_priority(ident: &IdentType) -> (priority: u8)
    ensures
        priority == priority_of(*ident),
{
    match ident {
        IdentType::Reference(_) => 5,
        IdentType::Primitive(_) => 4,
        IdentType::Keyword(_) => 4,
        IdentType::Actor => 3,
        IdentType::Field(_, FieldPart::Label) => 3,
        IdentType::ServiceMethod(_) => 3,
        IdentType::FuncParam(_) => 3,
        IdentType::Field(_, FieldPart::Type) => 2,
        IdentType::Binding(_) => 1,
    }
}

/// The number of offsets an interval covers.
pub open spec fn interval_len(interval: IdentInterval) -> int {
    if interval.stop >= interval.start {
        interval.stop - interval.start
    } else {
        0
    }
}

/// Whether `a` is to be preferred to `b`: it has the higher priority, or the
/// same priority and the shorter interval.
pub open spec fn better(a: IdentInterval, b: IdentInterval) -> bool {
    priority_of(a.val) > priority_of(b.val) || (priority_of(a.val) == priority_of(b.val)
        && interval_len(a) < interval_len(b))
}

/// The first interval of a list to which no interval of the list is
/// preferred.
pub fn select_best(found: &Vec<IdentInterval>) -> (best: Option<usize>)
    ensures
        best is None <==> found@.len() == 0,
        best matches Some(k) ==> k < found@.len() && (forall|j: int|
            0 <= j < found@.len() ==> !better(#[trigger] found@[j], found@[k as int])) && (forall|j: int|
            0 <= j < k ==> better(found@[k as int], #[trigger] found@[j])),
{
    if found.len() == 0 {
        return None;
    }
    let mut best: usize = 0;
    let mut i: usize = 1;
    while i < found.len()
        invariant
            1 <= i <= found.len(),
            best < i,
            forall|j: int| 0 <= j < i ==> !better(#[trigger] found@[j], found@[best as int]),
            forall|j: int| 0 <= j < best ==> better(found@[best as int], #[trigger] found@[j]),
        decreases found.len() - i,
    {
        let priority = ident_priority(&found[i].val);
        let best_priority = ident_priority(&found[best].val);
        let span_len = if found[i].stop >= found[i].start {
            found[i].stop - found[i].start
        } else {
            0
        };
        let best_len = if found[best].stop >= found[best].start {
            found[best].stop - found[best].start
        } else {
            0
        };
        if priority > best_priority || (priority == best_priority && span_len < best_len) {
            best = i;
        }
        i += 1;
    }
    Some(best)
}

/// The first `n` imports searched for the one that declares `symbol`.
pub open spec fn import_among(imports: Seq<ImportEntryView>, symbol: SymbolId, n: nat) -> Option<
    ImportEntryView,
>
    decreases n,
{
    if n == 0 || n > imports.len() {
        None
    } else {
        match import_among(imports, symbol, (n - 1) as nat) {
            Some(entry) => Some(entry),
            None => if imports[n - 1].symbol_id == symbol {
                Some(imports[n - 1])
            } else {
                None
            },
        }
    }
}

/// The first import that declares `symbol`.
pub open spec fn import_of(imports: Seq<ImportEntryView>, symbol: SymbolId) -> Option<ImportEntryView> {
    import_among(imports, symbol, imports.len())
}

proof fn lemma_import_found_stays(imports: Seq<ImportEntryView>, symbol: SymbolId, n: nat, m: nat)
    requires
        n <= m <= imports.len(),
        import_among(imports, symbol, n) is Some,
    ensures
        import_among(imports, symbol, m) == import_among(imports, symbol, n),
    decreases m,
{
    if m > n {
        lemma_import_found_stays(imports, symbol, n, (m - 1) as nat);
    }
}

pub fn find_import(imports: &Vec<ImportEntry>, symbol: SymbolId) -> (found: Option<ImportEntry>)
    ensures
        found.deep_view() == import_of(imports.deep_view(), symbol),
{
    let mut i: usize = 0;
    while i < imports.len()
        invariant
            i <= imports.len(),
            import_among(imports.deep_view(), symbol, i as nat) is None,
        decreases imports.len() - i,
    {
        if imports[i].symbol_id.0 == symbol.0 {
            proof {
                assert(imports.deep_view()[i as int] == imports@[i as int].deep_view());
                lemma_import_found_stays(
                    imports.deep_view(),
                    symbol,
                    (i + 1) as nat,
                    imports.deep_view().len(),
                );
            }
            return Some(imports[i].clone_entry());
        }
        proof {
            assert(imports.deep_view()[i as int] == imports@[i as int].deep_view());
        }
        i += 1;
    }
    None
}

impl ImportEntry {
    /// A copy of the entry.
    pub fn clone_entry(&self) -> (copy: ImportEntry)
        ensures
            copy.deep_view() == self.deep_view(),
    {
        ImportEntry {
            kind: self.kind,
            path: self.path.clone(),
            span: self.span,
            symbol_id: self.symbol_id,
        }
    }
}

/// How an interval of the index is turned into what is known of its
/// identifier. An interval that addresses nothing in the arenas gives nothing.
pub open spec fn resolve(sem: SemanticView, interval: IdentInterval) -> Option<IdentifierInfoView> {
    let span = Span { start: interval.start, end: interval.stop };
    match interval.val {
        IdentType::Binding(symbol) => if symbol.0 < sem.table.symbols.len() {
            Some(
                IdentifierInfoView {
                    ident_span: sem.binding_span(symbol.0 as int),
                    definition_span: Some(sem.table.symbols[symbol.0 as int]),
                    symbol_id: Some(symbol),
                    import: import_of(sem.table.imports, symbol),
                    ..IdentifierInfoView::bare(span)
                },
            )
        } else {
            None
        },
        IdentType::Reference(reference) => if reference.0 < sem.table.references.len() {
            let usage = sem.table.references[reference.0 as int];
            Some(
                IdentifierInfoView {
                    ident_span: usage.span,
                    definition_span: match usage.symbol_id {
                        Some(symbol) => if symbol.0 < sem.table.symbols.len() {
                            Some(sem.table.symbols[symbol.0 as int])
                        } else {
                            None
                        },
                        None => None,
                    },
                    symbol_id: usage.symbol_id,
                    reference_id: Some(reference),
                    import: match usage.symbol_id {
                        Some(symbol) => import_of(sem.table.imports, symbol),
                        None => None,
                    },
                    ..IdentifierInfoView::bare(span)
                },
            )
        } else {
            None
        },
        IdentType::Field(field, part) => if field.0 < sem.fields.len() {
            let metadata = sem.fields[field.0 as int];
            let ident_span = match part {
                FieldPart::Label => metadata.label_span,
                FieldPart::Type => metadata.type_span,
            };
            match ident_span {
                None => None,
                Some(ident_span) => Some(
                    IdentifierInfoView {
                        ident_span,
                        definition_span: Some(metadata.span),
                        field: Some(
                            FieldIdentifierView {
                                id: field,
                                span: metadata.span,
                                label_span: metadata.label_span,
                                type_span: metadata.type_span,
                                role: match part {
                                    FieldPart::Label => FieldRole::Label,
                                    FieldPart::Type => FieldRole::Type,
                                },
                                docs: metadata.docs,
                                parent_name: metadata.parent_name,
                            },
                        ),
                        ..IdentifierInfoView::bare(span)
                    },
                ),
            }
        } else {
            None
        },
        IdentType::ServiceMethod(method) => if method.0 < sem.service_methods.len() {
            let metadata = sem.service_methods[method.0 as int];
            match metadata.name_span {
                None => None,
                Some(ident_span) => Some(
                    IdentifierInfoView {
                        ident_span,
                        definition_span: Some(metadata.span),
                        service_method: Some(
                            MethodIdentifierView {
                                id: method,
                                span: metadata.span,
                                type_span: metadata.type_span,
                                docs: metadata.docs,
                                parent_name: metadata.parent_name,
                            },
                        ),
                        ..IdentifierInfoView::bare(span)
                    },
                ),
            }
        } else {
            None
        },
        IdentType::FuncParam(param) => if param.0 < sem.params.len() {
            let metadata = sem.params[param.0 as int];
            match metadata.name_span {
                None => None,
                Some(ident_span) => Some(
                    IdentifierInfoView {
                        ident_span,
                        definition_span: Some(metadata.span),
                        param: Some(
                            ParamIdentifier {
                                id: param,
                                span: metadata.span,
                                type_span: metadata.type_span,
                                role: metadata.role,
                            },
                        ),
                        ..IdentifierInfoView::bare(span)
                    },
                ),
            }
        } else {
            None
        },
        IdentType::Primitive(kind) => Some(
            IdentifierInfoView { primitive: Some(kind), ..IdentifierInfoView::bare(span) },
        ),
        IdentType::Keyword(keyword) => Some(
            IdentifierInfoView { keyword: Some(keyword), ..IdentifierInfoView::bare(span) },
        ),
        IdentType::Actor => match sem.actor {
            None => None,
            Some(actor) => match actor.name_span {
                None => None,
                Some(name_span) => Some(
                    IdentifierInfoView {
                        ident_span: name_span,
                        definition_span: Some(actor.span),
                        actor: Some(
                            ActorIdentifierView {
                                span: actor.span,
                                docs: actor.docs,
                                definition: actor.definition,
                            },
                        ),
                        ..IdentifierInfoView::bare(span)
                    },
                ),
            },
        },
    }
}

fn clone_text(text: &Option<String>) -> (copy: Option<String>)
    ensures
        copy.deep_view() == text.deep_view(),
{
    match text {
        Some(s) => Some(s.clone()),
        None => None,
    }
}

/// Reconstitute what is known of the identifier that an interval addresses.
pub fn resolve_identifier(semantic: &Semantic, interval: IdentInterval) -> (info: Option<
    IdentifierInfo,
>)
    ensures
        info.deep_view() == resolve(semantic.deep_view(), interval),
{
    let span = Span { start: interval.start, end: interval.stop };
    let mut info = IdentifierInfo::bare(span);
    match interval.val {
        IdentType::Binding(symbol_id) => {
            if symbol_id.0 >= semantic.table.symbol_id_to_span.len() {
                return None;
            }
            let fallback_span = semantic.table.symbol_id_to_span[symbol_id.0];
            let overlay = if symbol_id.0 < semantic.symbol_ident_spans.len() {
                semantic.symbol_ident_spans[symbol_id.0]
            } else {
                None
            };
            info.ident_span = match overlay {
                Some(span) => span,
                None => fallback_span,
            };
            info.definition_span = Some(fallback_span);
            info.symbol_id = Some(symbol_id);
            info.import = find_import(&semantic.table.imports, symbol_id);
            Some(info)
        },
        IdentType::Reference(reference_id) => {
            if reference_id.0 >= semantic.table.reference_id_to_reference.len() {
                return None;
            }
            let reference = semantic.table.reference_id_to_reference[reference_id.0];
            info.ident_span = reference.span;
            info.symbol_id = reference.symbol_id;
            info.reference_id = Some(reference_id);
            match reference.symbol_id {
                Some(symbol_id) => {
                    if symbol_id.0 < semantic.table.symbol_id_to_span.len() {
                        info.definition_span = Some(semantic.table.symbol_id_to_span[symbol_id.0]);
                    }
                    info.import = find_import(&semantic.table.imports, symbol_id);
                },
                None => {},
            }
            Some(info)
        },
        IdentType::Field(field_id, part) => {
            if field_id.0 >= semantic.fields.len() {
                return None;
            }
            let metadata = &semantic.fields[field_id.0];
            assert(semantic.deep_view().fields[field_id.0 as int] == metadata.deep_view());
            let ident_span = match part {
                FieldPart::Label => metadata.label_span,
                FieldPart::Type => metadata.type_span,
            };
            match ident_span {
                None => None,
                Some(ident_span) => {
                    info.ident_span = ident_span;
                    info.definition_span = Some(metadata.span);
                    info.field = Some(
                        FieldIdentifier {
                            id: field_id,
                            span: metadata.span,
                            label_span: metadata.label_span,
                            type_span: metadata.type_span,
                            role: match part {
                                FieldPart::Label => FieldRole::Label,
                                FieldPart::Type => FieldRole::Type,
                            },
                            docs: clone_text(&metadata.docs),
                            parent_name: clone_text(&metadata.parent_name),
                        },
                    );
                    Some(info)
                },
            }
        },
        IdentType::ServiceMethod(method_id) => {
            if method_id.0 >= semantic.service_methods.len() {
                return None;
            }
            let metadata = &semantic.service_methods[method_id.0];
            assert(semantic.deep_view().service_methods[method_id.0 as int] == metadata.deep_view());
            match metadata.name_span {
                None => None,
                Some(ident_span) => {
                    info.ident_span = ident_span;
                    info.definition_span = Some(metadata.span);
                    info.service_method = Some(
                        MethodIdentifier {
                            id: method_id,
                            span: metadata.span,
                            type_span: metadata.type_span,
                            docs: clone_text(&metadata.docs),
                            parent_name: clone_text(&metadata.parent_name),
                        },
                    );
                    Some(info)
                },
            }
        },
        IdentType::FuncParam(param_id) => {
            if param_id.0 >= semantic.params.len() {
                return None;
            }
            let metadata = semantic.params[param_id.0];
            match metadata.name_span {
                None => None,
                Some(ident_span) => {
                    info.ident_span = ident_span;
                    info.definition_span = Some(metadata.span);
                    info.param = Some(
                        ParamIdentifier {
                            id: param_id,
                            span: metadata.span,
                            type_span: metadata.type_span,
                            role: metadata.role,
                        },
                    );
                    Some(info)
                },
            }
        },
        IdentType::Primitive(kind) => {
            info.primitive = Some(kind);
            Some(info)
        },
        IdentType::Keyword(keyword) => {
            info.keyword = Some(keyword);
            Some(info)
        },
        IdentType::Actor => {
            match &semantic.actor {
                None => None,
                Some(actor) => match actor.name_span {
                    None => None,
                    Some(name_span) => {
                        info.ident_span = name_span;
                        info.definition_span = Some(actor.span);
                        info.actor = Some(
                            ActorIdentifier {
                                span: actor.span,
                                docs: clone_text(&actor.docs),
                                definition: clone_text(&actor.definition),
                            },
                        );
                        Some(info)
                    },
                },
            }
        },
    }
}

/// Whether the index holds `interval` and `interval` contains `offset`.
pub open spec fn is_candidate(items: Multiset<IdentInterval>, offset: usize, interval: IdentInterval) -> bool {
    items.count(interval) > 0 && interval.start <= offset && offset < interval.stop
}

/// Whether `result` is an answer to a lookup at `offset`. Where no interval
/// of the index contains the offset there is no answer. Otherwise the answer
/// is what is known of an interval that contains the offset and to which no
/// other such interval is preferred.
pub open spec fn is_lookup_result(
    sem: SemanticView,
    items: Multiset<IdentInterval>,
    offset: usize,
    result: Option<IdentifierInfoView>,
) -> bool {
    if forall|interval: IdentInterval| !is_candidate(items, offset, interval) {
        result is None
    } else {
        exists|chosen: IdentInterval|
            #![trigger is_candidate(items, offset, chosen)]
            is_candidate(items, offset, chosen) && (forall|other: IdentInterval|
                is_candidate(items, offset, other) ==> !better(other, chosen)) && result == resolve(
                sem,
                chosen,
            )
    }
}

/// Locate the identifier overlapping the provided offset.
pub fn lookup_identifier(semantic: &Semantic, offset: usize) -> (result: Option<IdentifierInfo>)
    ensures
        is_lookup_result(
            semantic.deep_view(),
            index_intervals(semantic.ident_range),
            offset,
            result.deep_view(),
        ),
{
    let ghost items = index_intervals(semantic.ident_range);
    if offset == usize::MAX {
        return None;
    }
    let found = index_find(&semantic.ident_range, offset, offset + 1);
    proof {
        found@.to_multiset_ensures();
        assert forall|interval: IdentInterval|
            found@.contains(interval) <==> is_candidate(items, offset, interval) by {
            assert(interval.overlaps(offset, (offset + 1) as usize) <==> (interval.start <= offset
                && offset < interval.stop));
            assert(found@.contains(interval) <==> found@.to_multiset().count(interval) > 0);
        }
    }
    match select_best(&found) {
        None => {
            proof {
                assert forall|interval: IdentInterval| !is_candidate(items, offset, interval) by {
                    assert(!found@.contains(interval));
                }
            }
            None
        },
        Some(k) => {
            let chosen = found[k];
            let result = resolve_identifier(semantic, chosen);
            proof {
                assert(found@.contains(chosen));
                assert(is_candidate(items, offset, chosen));
                assert forall|other: IdentInterval| is_candidate(items, offset, other) implies !better(
                    other,
                    chosen,
                ) by {
                    assert(found@.contains(other));
                    let j = choose|j: int| 0 <= j < found@.len() && found@[j] == other;
                    assert(!better(found@[j], found@[k as int]));
                }
            }
            result
        },
    }
}

/// Reflexivity for bindings: where the only interval of the index that
/// contains an offset is the one of a declared symbol, a lookup at the offset
/// answers with that symbol and gives the symbol's own declaration as the
/// definition.
pub proof fn lemma_lookup_binding_reflexive(
    sem: SemanticView,
    items: Multiset<IdentInterval>,
    offset: usize,
    symbol: SymbolId,
    binding: IdentInterval,
    result: Option<IdentifierInfoView>,
)
    requires
        symbol.0 < sem.table.symbols.len(),
        binding.val == IdentType::Binding(symbol),
        is_candidate(items, offset, binding),
        forall|other: IdentInterval| is_candidate(items, offset, other) ==> other == binding,
        is_lookup_result(sem, items, offset, result),
    ensures
        result is Some,
        result->0.symbol_id == Some(symbol),
        result->0.definition_span == Some(sem.table.symbols[symbol.0 as int]),
        result->0.ident_span == sem.binding_span(symbol.0 as int),
{
}

} // verus!
