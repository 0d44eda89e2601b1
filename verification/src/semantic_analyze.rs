//! The semantic index of a document and the analysis that builds it.
use crate::analysis::{
    analyze_actor, analyze_dec, analyze_decs_upto, analyze_program_state, hoist_declaration, hoist_upto,
    lemma_decs_error_stays, AnalysisState, Ctx,
};
use crate::ident_index::{index_insert, index_intervals, index_new, IdentIndex, IdentInterval};
use crate::rope::rope_text;
use crate::syntax::IDLProg;
use ropey::Rope;
use crate::span::Span;
use crate::symbol_table::{
    lemma_referential_integrity, ReferenceId, SymbolId, SymbolTable, SymbolTableView,
};
use crate::syntax::{FuncMode, PrimType};
use crate::text::{push_str_chars, string_of};
use crate::type_docs::{KeywordDoc, TypeDoc, TypeDocView};
use vstd::prelude::*;

verus! {

/// The index of a field in `Semantic::fields`.
#[derive(Clone, Copy, Debug, PartialEq, Eq, Hash, Structural)]
pub struct FieldId(pub usize);

/// The index of a service method in `Semantic::service_methods`.
#[derive(Clone, Copy, Debug, PartialEq, Eq, Hash, Structural)]
pub struct MethodId(pub usize);

/// The index of a function parameter in `Semantic::params`.
#[derive(Clone, Copy, Debug, PartialEq, Eq, Hash, Structural)]
pub struct ParamId(pub usize);

/// The part of a field that an interval addresses.
#[derive(Clone, Copy, Debug, PartialEq, Eq, Structural)]
pub enum FieldPart {
    Label,
    Type,
}

/// Whether a parameter is an argument or a result.
#[derive(Clone, Copy, Debug, PartialEq, Eq, Structural)]
pub enum ParamRole {
    Argument,
    Result,
}

/// A built-in type name: a primitive type or the `blob` alias.
#[derive(Clone, Copy, Debug, PartialEq, Eq, Structural)]
pub enum PrimitiveHover {
    Prim(PrimType),
    Blob,
}

/// What an interval of the identifier index addresses.
#[derive(Clone, Copy, Debug, PartialEq, Eq, Structural)]
pub enum IdentType {
    Binding(SymbolId),
    Reference(ReferenceId),
    Field(FieldId, FieldPart),
    ServiceMethod(MethodId),
    FuncParam(ParamId),
    Primitive(PrimitiveHover),
    Keyword(KeywordDoc),
    Actor,
}

/// A field of a record or variant.
#[derive(Clone, Debug)]
pub struct FieldMetadata {
    pub span: Span,
    pub label_span: Option<Span>,
    pub type_span: Option<Span>,
    pub docs: Option<String>,
    pub parent_name: Option<String>,
    pub label: Option<String>,
}

pub struct FieldMetadataView {
    pub span: Span,
    pub label_span: Option<Span>,
    pub type_span: Option<Span>,
    pub docs: Option<Seq<char>>,
    pub parent_name: Option<Seq<char>>,
    pub label: Option<Seq<char>>,
}

impl DeepView for FieldMetadata {
    type V = FieldMetadataView;

    open spec fn deep_view(&self) -> FieldMetadataView {
        FieldMetadataView {
            span: self.span,
            label_span: self.label_span,
            type_span: self.type_span,
            docs: self.docs.deep_view(),
            parent_name: self.parent_name.deep_view(),
            label: self.label.deep_view(),
        }
    }
}

/// The argument types, result types and annotations of a service method,
/// each type on a single line.
#[derive(Clone, Debug)]
pub struct MethodSignature {
    pub args: Vec<String>,
    pub rets: Vec<String>,
    pub modes: Vec<FuncMode>,
}

pub struct MethodSignatureView {
    pub args: Seq<Seq<char>>,
    pub rets: Seq<Seq<char>>,
    pub modes: Seq<FuncMode>,
}

impl DeepView for MethodSignature {
    type V = MethodSignatureView;

    open spec fn deep_view(&self) -> MethodSignatureView {
        MethodSignatureView {
            args: self.args.deep_view(),
            rets: self.rets.deep_view(),
            modes: self.modes@,
        }
    }
}

/// A method of a service.
#[derive(Clone, Debug)]
pub struct MethodMetadata {
    pub span: Span,
    pub name_span: Option<Span>,
    pub type_span: Option<Span>,
    pub docs: Option<String>,
    pub parent_name: Option<String>,
    pub signature: Option<MethodSignature>,
}

pub struct MethodMetadataView {
    pub span: Span,
    pub name_span: Option<Span>,
    pub type_span: Option<Span>,
    pub docs: Option<Seq<char>>,
    pub parent_name: Option<Seq<char>>,
    pub signature: Option<MethodSignatureView>,
}

impl DeepView for MethodMetadata {
    type V = MethodMetadataView;

    open spec fn deep_view(&self) -> MethodMetadataView {
        MethodMetadataView {
            span: self.span,
            name_span: self.name_span,
            type_span: self.type_span,
            docs: self.docs.deep_view(),
            parent_name: self.parent_name.deep_view(),
            signature: self.signature.deep_view(),
        }
    }
}

/// A parameter of a function type.
#[derive(Clone, Copy, Debug, PartialEq, Eq, Structural)]
pub struct ParamMetadata {
    pub span: Span,
    pub name_span: Option<Span>,
    pub type_span: Span,
    pub role: ParamRole,
}

/// A name bound inside a block, with the span of the block that encloses it.
#[derive(Clone, Debug)]
pub struct LocalBinding {
    pub name: String,
    pub span: Span,
    pub scope: Span,
    pub is_definition: bool,
}

pub struct LocalBindingView {
    pub name: Seq<char>,
    pub span: Span,
    pub scope: Span,
    pub is_definition: bool,
}

impl DeepView for LocalBinding {
    type V = LocalBindingView;

    open spec fn deep_view(&self) -> LocalBindingView {
        LocalBindingView {
            name: self.name@,
            span: self.span,
            scope: self.scope,
            is_definition: self.is_definition,
        }
    }
}

/// The document's top-level service declaration.
#[derive(Clone, Debug)]
pub struct ActorMetadata {
    pub span: Span,
    pub name_span: Option<Span>,
    pub docs: Option<String>,
    pub definition: Option<String>,
}

pub struct ActorMetadataView {
    pub span: Span,
    pub name_span: Option<Span>,
    pub docs: Option<Seq<char>>,
    pub definition: Option<Seq<char>>,
}

impl DeepView for ActorMetadata {
    type V = ActorMetadataView;

    open spec fn deep_view(&self) -> ActorMetadataView {
        ActorMetadataView {
            span: self.span,
            name_span: self.name_span,
            docs: self.docs.deep_view(),
            definition: self.definition.deep_view(),
        }
    }
}

/// What stops the analysis of a document.
#[derive(Clone, Debug)]
pub enum SemanticError {
    UndefinedVariable { name: String, span: Span },
    ImConsistentArrayType { expect_ty: String, actual_ty: String, span: Span },
}

pub enum SemanticErrorView {
    UndefinedVariable { name: Seq<char>, span: Span },
    ImConsistentArrayType { expect_ty: Seq<char>, actual_ty: Seq<char>, span: Span },
}

impl DeepView for SemanticError {
    type V = SemanticErrorView;

    open spec fn deep_view(&self) -> SemanticErrorView {
        match self {
            SemanticError::UndefinedVariable { name, span } => SemanticErrorView::UndefinedVariable {
                name: name@,
                span: *span,
            },
            SemanticError::ImConsistentArrayType {
                expect_ty,
                actual_ty,
                span,
            } => SemanticErrorView::ImConsistentArrayType {
                expect_ty: expect_ty@,
                actual_ty: actual_ty@,
                span: *span,
            },
        }
    }
}

impl SemanticErrorView {
    pub open spec fn span(self) -> Span {
        match self {
            SemanticErrorView::UndefinedVariable { span, .. } => span,
            SemanticErrorView::ImConsistentArrayType { span, .. } => span,
        }
    }

    /// The text shown to the user for the error.
    pub open spec fn message(self) -> Seq<char> {
        match self {
            SemanticErrorView::UndefinedVariable { name, .. } => "Undefined variable "@ + name,
            SemanticErrorView::ImConsistentArrayType { expect_ty, actual_ty, .. } =>
                "Expect element type: "@ + expect_ty + ", but got "@ + actual_ty,
        }
    }
}

impl SemanticError {
    /// The span of source text that the error is about.
    pub fn span(&self) -> (span: Span)
        ensures
            span == self.deep_view().span(),
    {
        match self {
            SemanticError::UndefinedVariable { span, .. } => *span,
            SemanticError::ImConsistentArrayType { span, .. } => *span,
        }
    }

    /// The text shown to the user for the error.
    pub fn message(&self) -> (message: String)
        ensures
            message@ == self.deep_view().message(),
    {
        let mut buf: Vec<char> = Vec::new();
        match self {
            SemanticError::UndefinedVariable { name, .. } => {
                push_str_chars(&mut buf, "Undefined variable ");
                push_str_chars(&mut buf, name.as_str());
                assert(buf@ =~= self.deep_view().message());
            },
            SemanticError::ImConsistentArrayType { expect_ty, actual_ty, .. } => {
                push_str_chars(&mut buf, "Expect element type: ");
                push_str_chars(&mut buf, expect_ty.as_str());
                push_str_chars(&mut buf, ", but got ");
                push_str_chars(&mut buf, actual_ty.as_str());
                assert(buf@ =~= self.deep_view().message());
            },
        }
        string_of(&buf)
    }
}

/// The semantic index of one document, built in full by one analysis pass.
pub struct Semantic {
    pub table: SymbolTable,
    pub ident_range: IdentIndex,
    pub fields: Vec<FieldMetadata>,
    pub service_methods: Vec<MethodMetadata>,
    pub params: Vec<ParamMetadata>,
    pub locals: Vec<LocalBinding>,
    pub symbol_ident_spans: Vec<Option<Span>>,
    pub symbol_ident_names: Vec<Option<String>>,
    pub type_docs: Vec<Option<TypeDoc>>,
    pub primitive_spans: Vec<(Span, PrimitiveHover)>,
    pub keyword_spans: Vec<(Span, KeywordDoc)>,
    pub actor: Option<ActorMetadata>,
}

/// The arenas of a semantic index as mathematical sequences.
pub struct SemanticView {
    pub table: SymbolTableView,
    pub fields: Seq<FieldMetadataView>,
    pub service_methods: Seq<MethodMetadataView>,
    pub params: Seq<ParamMetadata>,
    pub locals: Seq<LocalBindingView>,
    pub symbol_ident_spans: Seq<Option<Span>>,
    pub symbol_ident_names: Seq<Option<Seq<char>>>,
    pub type_docs: Seq<Option<TypeDocView>>,
    pub primitive_spans: Seq<(Span, PrimitiveHover)>,
    pub keyword_spans: Seq<(Span, KeywordDoc)>,
    pub actor: Option<ActorMetadataView>,
}

impl DeepView for Semantic {
    type V = SemanticView;

    open spec fn deep_view(&self) -> SemanticView {
        SemanticView {
            table: self.table.deep_view(),
            fields: self.fields.deep_view(),
            service_methods: self.service_methods.deep_view(),
            params: self.params@,
            locals: self.locals.deep_view(),
            symbol_ident_spans: self.symbol_ident_spans@,
            symbol_ident_names: self.symbol_ident_names.deep_view(),
            type_docs: self.type_docs.deep_view(),
            primitive_spans: self.primitive_spans@,
            keyword_spans: self.keyword_spans@,
            actor: self.actor.deep_view(),
        }
    }
}


pub open spec fn interval_of(span: Span, val: IdentType) -> IdentInterval {
    IdentInterval { start: span.start, stop: span.end, val }
}

impl SemanticView {
    /// The span under which a symbol is indexed: its identifier where that
    /// was found in the text, its whole declaration otherwise.
    pub open spec fn binding_span(self, i: int) -> Span {
        if i < self.symbol_ident_spans.len() && self.symbol_ident_spans[i] is Some {
            self.symbol_ident_spans[i]->0
        } else {
            self.table.symbols[i]
        }
    }

    /// `acc` followed by the intervals of the first `n` symbols.
    pub open spec fn with_bindings(self, acc: Seq<IdentInterval>, n: nat) -> Seq<IdentInterval>
        decreases n,
    {
        if n == 0 || n > self.table.symbols.len() {
            acc
        } else {
            self.with_bindings(acc, (n - 1) as nat).push(
                interval_of(self.binding_span(n - 1), IdentType::Binding(SymbolId((n - 1) as usize))),
            )
        }
    }

    /// `acc` followed by the intervals of the first `n` references.
    pub open spec fn with_references(self, acc: Seq<IdentInterval>, n: nat) -> Seq<IdentInterval>
        decreases n,
    {
        if n == 0 || n > self.table.references.len() {
            acc
        } else {
            self.with_references(acc, (n - 1) as nat).push(
                interval_of(
                    self.table.references[n - 1].span,
                    IdentType::Reference(ReferenceId((n - 1) as usize)),
                ),
            )
        }
    }

    /// Whether a field is indexed by its type as well: the type has a
    /// non-empty span that is not also the span of the label.
    pub open spec fn field_type_indexed(field: FieldMetadataView) -> bool {
        field.type_span matches Some(span) && span.start < span.end && field.label_span != Some(span)
    }

    /// `acc` followed by the intervals of the first `n` fields: the label of
    /// each where it has one, then its type where that is indexed.
    pub open spec fn with_fields(self, acc: Seq<IdentInterval>, n: nat) -> Seq<IdentInterval>
        decreases n,
    {
        if n == 0 || n > self.fields.len() {
            acc
        } else {
            let before = self.with_fields(acc, (n - 1) as nat);
            let field = self.fields[n - 1];
            let labelled = match field.label_span {
                Some(span) => before.push(
                    interval_of(span, IdentType::Field(FieldId((n - 1) as usize), FieldPart::Label)),
                ),
                None => before,
            };
            if Self::field_type_indexed(field) {
                labelled.push(
                    interval_of(
                        field.type_span->0,
                        IdentType::Field(FieldId((n - 1) as usize), FieldPart::Type),
                    ),
                )
            } else {
                labelled
            }
        }
    }

    /// `acc` followed by the name intervals of the first `n` service methods.
    pub open spec fn with_methods(self, acc: Seq<IdentInterval>, n: nat) -> Seq<IdentInterval>
        decreases n,
    {
        if n == 0 || n > self.service_methods.len() {
            acc
        } else {
            let before = self.with_methods(acc, (n - 1) as nat);
            match self.service_methods[n - 1].name_span {
                Some(span) => before.push(
                    interval_of(span, IdentType::ServiceMethod(MethodId((n - 1) as usize))),
                ),
                None => before,
            }
        }
    }

    /// `acc` followed by the name intervals of the first `n` parameters.
    pub open spec fn with_params(self, acc: Seq<IdentInterval>, n: nat) -> Seq<IdentInterval>
        decreases n,
    {
        if n == 0 || n > self.params.len() {
            acc
        } else {
            let before = self.with_params(acc, (n - 1) as nat);
            match self.params[n - 1].name_span {
                Some(span) => before.push(
                    interval_of(span, IdentType::FuncParam(ParamId((n - 1) as usize))),
                ),
                None => before,
            }
        }
    }

    /// `acc` followed by the non-empty intervals of the first `n` primitive occurrences.
    pub open spec fn with_primitives(self, acc: Seq<IdentInterval>, n: nat) -> Seq<IdentInterval>
        decreases n,
    {
        if n == 0 || n > self.primitive_spans.len() {
            acc
        } else {
            let before = self.with_primitives(acc, (n - 1) as nat);
            let entry = self.primitive_spans[n - 1];
            if entry.0.start < entry.0.end {
                before.push(interval_of(entry.0, IdentType::Primitive(entry.1)))
            } else {
                before
            }
        }
    }

    /// `acc` followed by the non-empty intervals of the first `n` keyword occurrences.
    pub open spec fn with_keywords(self, acc: Seq<IdentInterval>, n: nat) -> Seq<IdentInterval>
        decreases n,
    {
        if n == 0 || n > self.keyword_spans.len() {
            acc
        } else {
            let before = self.with_keywords(acc, (n - 1) as nat);
            let entry = self.keyword_spans[n - 1];
            if entry.0.start < entry.0.end {
                before.push(interval_of(entry.0, IdentType::Keyword(entry.1)))
            } else {
                before
            }
        }
    }

    /// `acc` followed by the interval of the actor's name, where it has a
    /// non-empty one.
    pub open spec fn with_actor(self, acc: Seq<IdentInterval>) -> Seq<IdentInterval> {
        match self.actor {
            Some(actor) => match actor.name_span {
                Some(span) => if span.start < span.end {
                    acc.push(interval_of(span, IdentType::Actor))
                } else {
                    acc
                },
                None => acc,
            },
            None => acc,
        }
    }

    /// Every interval of the identifier index: one for each addressable item
    /// of each arena.
    pub open spec fn ident_entries(self) -> Seq<IdentInterval> {
        let bindings = self.with_bindings(Seq::empty(), self.table.symbols.len());
        let references = self.with_references(bindings, self.table.references.len());
        let fields = self.with_fields(references, self.fields.len());
        let methods = self.with_methods(fields, self.service_methods.len());
        let params = self.with_params(methods, self.params.len());
        let primitives = self.with_primitives(params, self.primitive_spans.len());
        let keywords = self.with_keywords(primitives, self.keyword_spans.len());
        self.with_actor(keywords)
    }
}

impl Semantic {
    /// The index holds exactly the intervals of the arenas, and the symbol
    /// table is consistent.
    pub open spec fn wf(&self) -> bool {
        &&& index_intervals(self.ident_range) == self.deep_view().ident_entries().to_multiset()
        &&& self.deep_view().table.wf()
    }

    /// The semantic index of a document that declares nothing.
    pub fn empty() -> (semantic: Semantic)
        ensures
            semantic.deep_view() == AnalysisState::empty().sem,
            index_intervals(semantic.ident_range) == vstd::multiset::Multiset::<IdentInterval>::empty(),
    {
        let semantic = Semantic {
            table: SymbolTable::new(),
            ident_range: index_new(),
            fields: Vec::new(),
            service_methods: Vec::new(),
            params: Vec::new(),
            locals: Vec::new(),
            symbol_ident_spans: Vec::new(),
            symbol_ident_names: Vec::new(),
            type_docs: Vec::new(),
            primitive_spans: Vec::new(),
            keyword_spans: Vec::new(),
            actor: None,
        };
        proof {
            assert(semantic.fields.deep_view() =~= Seq::empty());
            assert(semantic.service_methods.deep_view() =~= Seq::empty());
            assert(semantic.locals.deep_view() =~= Seq::empty());
            assert(semantic.symbol_ident_names.deep_view() =~= Seq::empty());
            assert(semantic.type_docs.deep_view() =~= Seq::empty());
        }
        semantic
    }
}

/// `seq` with `x` at its end holds, as a multiset, `x` once more than `seq`.
pub proof fn lemma_push_to_multiset(seq: Seq<IdentInterval>, x: IdentInterval)
    ensures
        seq.push(x).to_multiset() == seq.to_multiset().insert(x),
{
    seq.to_multiset_ensures();
}

/// Build the identifier index over the arenas of a finished analysis.
fn build_ident_index(ctx: &Ctx) -> (index: IdentIndex)
    ensures
        index_intervals(index) == ctx@.sem.ident_entries().to_multiset(),
{
    let ghost sem = ctx@.sem;
    let mut index = index_new();
    proof {
        assert(Seq::<IdentInterval>::empty().to_multiset() =~= vstd::multiset::Multiset::empty()) by {
            Seq::<IdentInterval>::empty().to_multiset_ensures();
        }
    }
    let mut i: usize = 0;
    while i < ctx.table.symbol_id_to_span.len()
        invariant
            i <= ctx.table.symbol_id_to_span.len(),
            sem == ctx@.sem,
            index_intervals(index) == sem.with_bindings(Seq::empty(), i as nat).to_multiset(),
        decreases ctx.table.symbol_id_to_span.len() - i,
    {
        let overlay = if i < ctx.symbol_ident_spans.len() {
            ctx.symbol_ident_spans[i]
        } else {
            None
        };
        let span = match overlay {
            Some(span) => span,
            None => ctx.table.symbol_id_to_span[i],
        };
        proof {
            lemma_push_to_multiset(
                sem.with_bindings(Seq::empty(), i as nat),
                interval_of(span, IdentType::Binding(SymbolId(i))),
            );
        }
        index_insert(
            &mut index,
            IdentInterval { start: span.start, stop: span.end, val: IdentType::Binding(SymbolId(i)) },
        );
        i += 1;
    }
    let ghost bindings = sem.with_bindings(Seq::empty(), sem.table.symbols.len());
    let mut i: usize = 0;
    while i < ctx.table.reference_id_to_reference.len()
        invariant
            i <= ctx.table.reference_id_to_reference.len(),
            sem == ctx@.sem,
            index_intervals(index) == sem.with_references(bindings, i as nat).to_multiset(),
        decreases ctx.table.reference_id_to_reference.len() - i,
    {
        let span = ctx.table.reference_id_to_reference[i].span;
        proof {
            lemma_push_to_multiset(
                sem.with_references(bindings, i as nat),
                interval_of(span, IdentType::Reference(ReferenceId(i))),
            );
        }
        index_insert(
            &mut index,
            IdentInterval { start: span.start, stop: span.end, val: IdentType::Reference(ReferenceId(i)) },
        );
        i += 1;
    }
    let ghost references = sem.with_references(bindings, sem.table.references.len());
    let mut i: usize = 0;
    while i < ctx.fields.len()
        invariant
            i <= ctx.fields.len(),
            sem == ctx@.sem,
            index_intervals(index) == sem.with_fields(references, i as nat).to_multiset(),
        decreases ctx.fields.len() - i,
    {
        let ghost before = sem.with_fields(references, i as nat);
        assert(sem.fields[i as int] == ctx.fields@[i as int].deep_view());
        let label_span = ctx.fields[i].label_span;
        match label_span {
            Some(span) => {
                proof {
                    lemma_push_to_multiset(
                        before,
                        interval_of(span, IdentType::Field(FieldId(i), FieldPart::Label)),
                    );
                }
                index_insert(
                    &mut index,
                    IdentInterval {
                        start: span.start,
                        stop: span.end,
                        val: IdentType::Field(FieldId(i), FieldPart::Label),
                    },
                );
            },
            None => {},
        }
        let ghost labelled = match label_span {
            Some(span) => before.push(
                interval_of(span, IdentType::Field(FieldId(i), FieldPart::Label)),
            ),
            None => before,
        };
        match ctx.fields[i].type_span {
            Some(span) => {
                let same = match label_span {
                    Some(label) => label.start == span.start && label.end == span.end,
                    None => false,
                };
                if span.start < span.end && !same {
                    proof {
                        lemma_push_to_multiset(
                            labelled,
                            interval_of(span, IdentType::Field(FieldId(i), FieldPart::Type)),
                        );
                    }
                    index_insert(
                        &mut index,
                        IdentInterval {
                            start: span.start,
                            stop: span.end,
                            val: IdentType::Field(FieldId(i), FieldPart::Type),
                        },
                    );
                }
            },
            None => {},
        }
        i += 1;
    }
    let ghost fields = sem.with_fields(references, sem.fields.len());
    let mut i: usize = 0;
    while i < ctx.service_methods.len()
        invariant
            i <= ctx.service_methods.len(),
            sem == ctx@.sem,
            index_intervals(index) == sem.with_methods(fields, i as nat).to_multiset(),
        decreases ctx.service_methods.len() - i,
    {
        assert(sem.service_methods[i as int] == ctx.service_methods@[i as int].deep_view());
        match ctx.service_methods[i].name_span {
            Some(span) => {
                proof {
                    lemma_push_to_multiset(
                        sem.with_methods(fields, i as nat),
                        interval_of(span, IdentType::ServiceMethod(MethodId(i))),
                    );
                }
                index_insert(
                    &mut index,
                    IdentInterval {
                        start: span.start,
                        stop: span.end,
                        val: IdentType::ServiceMethod(MethodId(i)),
                    },
                );
            },
            None => {},
        }
        i += 1;
    }
    let ghost methods = sem.with_methods(fields, sem.service_methods.len());
    let mut i: usize = 0;
    while i < ctx.params.len()
        invariant
            i <= ctx.params.len(),
            sem == ctx@.sem,
            index_intervals(index) == sem.with_params(methods, i as nat).to_multiset(),
        decreases ctx.params.len() - i,
    {
        match ctx.params[i].name_span {
            Some(span) => {
                proof {
                    lemma_push_to_multiset(
                        sem.with_params(methods, i as nat),
                        interval_of(span, IdentType::FuncParam(ParamId(i))),
                    );
                }
                index_insert(
                    &mut index,
                    IdentInterval { start: span.start, stop: span.end, val: IdentType::FuncParam(ParamId(i)) },
                );
            },
            None => {},
        }
        i += 1;
    }
    let ghost params = sem.with_params(methods, sem.params.len());
    let mut i: usize = 0;
    while i < ctx.primitive_spans.len()
        invariant
            i <= ctx.primitive_spans.len(),
            sem == ctx@.sem,
            index_intervals(index) == sem.with_primitives(params, i as nat).to_multiset(),
        decreases ctx.primitive_spans.len() - i,
    {
        let span = ctx.primitive_spans[i].0;
        let kind = ctx.primitive_spans[i].1;
        if span.start < span.end {
            proof {
                lemma_push_to_multiset(
                    sem.with_primitives(params, i as nat),
                    interval_of(span, IdentType::Primitive(kind)),
                );
            }
            index_insert(
                &mut index,
                IdentInterval { start: span.start, stop: span.end, val: IdentType::Primitive(kind) },
            );
        }
        i += 1;
    }
    let ghost primitives = sem.with_primitives(params, sem.primitive_spans.len());
    let mut i: usize = 0;
    while i < ctx.keyword_spans.len()
        invariant
            i <= ctx.keyword_spans.len(),
            sem == ctx@.sem,
            index_intervals(index) == sem.with_keywords(primitives, i as nat).to_multiset(),
        decreases ctx.keyword_spans.len() - i,
    {
        let span = ctx.keyword_spans[i].0;
        let keyword = ctx.keyword_spans[i].1;
        if span.start < span.end {
            proof {
                lemma_push_to_multiset(
                    sem.with_keywords(primitives, i as nat),
                    interval_of(span, IdentType::Keyword(keyword)),
                );
            }
            index_insert(
                &mut index,
                IdentInterval { start: span.start, stop: span.end, val: IdentType::Keyword(keyword) },
            );
        }
        i += 1;
    }
    let ghost keywords = sem.with_keywords(primitives, sem.keyword_spans.len());
    match &ctx.actor {
        Some(actor) => {
            match actor.name_span {
                Some(span) => {
                    if span.start < span.end {
                        proof {
                            lemma_push_to_multiset(keywords, interval_of(span, IdentType::Actor));
                        }
                        index_insert(
                            &mut index,
                            IdentInterval { start: span.start, stop: span.end, val: IdentType::Actor },
                        );
                    }
                },
                None => {},
            }
        },
        None => {},
    }
    index
}

/// What the analysis of a document yields: the arenas of its semantic
/// index, or the error that stopped the pass.
pub open spec fn analyze_program_spec(ast: IDLProg, text: Seq<char>) -> Result<
    SemanticView,
    SemanticErrorView,
> {
    match analyze_program_state(ast, text) {
        Ok(state) => Ok(state.sem),
        Err(e) => Err(e),
    }
}

/// Analyse a parsed document against its text. The pass is all or nothing:
/// it yields the full semantic index, or the first name that no top-level
/// declaration defines. In the index that it yields, every symbol that has
/// usages is a declared symbol.
pub fn analyze_program(ast: &IDLProg, rope: &Rope) -> (result: Result<Semantic, SemanticError>)
    ensures
        match result {
            Ok(semantic) => analyze_program_spec(*ast, rope_text(*rope)) == Ok::<
                SemanticView,
                SemanticErrorView,
            >(semantic.deep_view()) && semantic.wf()
                && semantic.deep_view().table.has_referential_integrity(),
            Err(e) => analyze_program_spec(*ast, rope_text(*rope)) == Err::<
                SemanticView,
                SemanticErrorView,
            >(e.deep_view()),
        },
{
    let mut ctx = Ctx::new();
    let mut i: usize = 0;
    while i < ast.decs.len()
        invariant
            i <= ast.decs.len(),
            ctx@ == hoist_upto(AnalysisState::empty(), rope_text(*rope), ast.decs@, i as nat),
            ctx@.sem.table.wf(),
        decreases ast.decs.len() - i,
    {
        hoist_declaration(&ast.decs[i], &mut ctx, rope);
        i += 1;
    }
    let ghost hoisted = ctx@;
    let mut i: usize = 0;
    while i < ast.decs.len()
        invariant
            i <= ast.decs.len(),
            analyze_decs_upto(hoisted, rope_text(*rope), ast.decs@, i as nat) == Ok::<
                AnalysisState,
                SemanticErrorView,
            >(ctx@),
            ctx@.sem.table.wf(),
            hoisted == hoist_upto(
                AnalysisState::empty(),
                rope_text(*rope),
                ast.decs@,
                ast.decs@.len(),
            ),
        decreases ast.decs.len() - i,
    {
        match analyze_dec(&ast.decs[i], &mut ctx, rope) {
            Ok(()) => {},
            Err(e) => {
                proof {
                    lemma_decs_error_stays(
                        hoisted,
                        rope_text(*rope),
                        ast.decs@,
                        (i + 1) as nat,
                        ast.decs@.len(),
                    );
                }
                return Err(e);
            },
        }
        i += 1;
    }
    match &ast.actor {
        Some(actor) => {
            match analyze_actor(actor, &mut ctx, rope) {
                Ok(()) => {},
                Err(e) => {
                    return Err(e);
                },
            }
        },
        None => {},
    }
    ctx.register_import_keywords_from_text(rope);
    let ident_range = build_ident_index(&ctx);
    proof {
        assert(ctx.table.reference_id_to_reference.len() <= usize::MAX);
        lemma_referential_integrity(ctx@.sem.table);
    }
    Ok(
        Semantic {
            table: ctx.table,
            ident_range,
            fields: ctx.fields,
            service_methods: ctx.service_methods,
            params: ctx.params,
            locals: ctx.locals,
            symbol_ident_spans: ctx.symbol_ident_spans,
            symbol_ident_names: ctx.symbol_ident_names,
            type_docs: ctx.type_docs,
            primitive_spans: ctx.primitive_spans,
            keyword_spans: ctx.keyword_spans,
            actor: ctx.actor,
        },
    )
}

/// Determinism: two analyses of the same syntax tree and the same text have
/// the same arenas and the same index content.
pub proof fn lemma_analysis_deterministic(ast: IDLProg, text: Seq<char>, first: Semantic, second: Semantic)
    requires
        analyze_program_spec(ast, text) == Ok::<SemanticView, SemanticErrorView>(first.deep_view()),
        analyze_program_spec(ast, text) == Ok::<SemanticView, SemanticErrorView>(second.deep_view()),
        first.wf(),
        second.wf(),
    ensures
        first.deep_view() == second.deep_view(),
        index_intervals(first.ident_range) == index_intervals(second.ident_range),
{
}

} // verus!
