//! Classification of an offset by the spans of the syntax tree and the
//! semantic index that contain it.
use crate::rope::rope_text;
use crate::semantic_analyze::{Semantic, SemanticView};
use crate::span::Span;
use crate::span_search::{
    binding_ident_span, compute_binding_ident_span, compute_field_label_span, field_label_span,
};
use crate::syntax::{Binding, Dec, IDLProg, IDLType, IDLTypeWithSpan, TypeField};
use ropey::Rope;
use vstd::prelude::*;

verus! {

/// What kind of completion is appropriate at a position.
#[derive(Clone, Copy, Debug, PartialEq, Eq, Structural)]
pub enum CompletionContext {
    Unknown,
    Type,
    Value,
    Definition,
    TopLevel,
    Comment,
}

/// The spans of a document in which a type, a value name or a definition is written.
#[derive(Clone, Debug)]
pub struct ContextSpans {
    pub type_spans: Vec<Span>,
    pub value_spans: Vec<Span>,
    pub definition_spans: Vec<Span>,
}

pub struct ContextSpansView {
    pub type_spans: Seq<Span>,
    pub value_spans: Seq<Span>,
    pub definition_spans: Seq<Span>,
}

/// Whether one of the spans contains the offset.
pub open spec fn spans_contain_offset(spans: Seq<Span>, offset: usize) -> bool {
    exists|i: int| 0 <= i < spans.len() && (#[trigger] spans[i]).spec_contains(offset)
}

pub fn span_contains(span: &Span, offset: usize) -> (inside: bool)
    ensures
        inside == span.spec_contains(offset),
{
    span.start <= offset && offset < span.end
}

pub fn span_len(span: &Span) -> (len: usize)
    ensures
        len == span.spec_len(),
{
    if span.end >= span.start {
        span.end - span.start
    } else {
        0
    }
}

pub fn spans_contain(spans: &Vec<Span>, offset: usize) -> (inside: bool)
    ensures
        inside == spans_contain_offset(spans@, offset),
{
    let mut i: usize = 0;
    while i < spans.len()
        invariant
            i <= spans.len(),
            forall|k: int| 0 <= k < i ==> !(#[trigger] spans@[k]).spec_contains(offset),
        decreases spans.len() - i,
    {
        if span_contains(&spans[i], offset) {
            return true;
        }
        i += 1;
    }
    false
}

pub open spec fn push_nonempty(spans: Seq<Span>, span: Span) -> Seq<Span> {
    if span.start < span.end {
        spans.push(span)
    } else {
        spans
    }
}

pub open spec fn push_some(spans: Seq<Span>, span: Option<Span>) -> Seq<Span> {
    match span {
        Some(span) => push_nonempty(spans, span),
        None => spans,
    }
}

impl ContextSpansView {
    pub open spec fn empty() -> ContextSpansView {
        ContextSpansView {
            type_spans: Seq::empty(),
            value_spans: Seq::empty(),
            definition_spans: Seq::empty(),
        }
    }

    pub open spec fn is_empty(self) -> bool {
        self.type_spans.len() == 0 && self.value_spans.len() == 0 && self.definition_spans.len() == 0
    }

    /// A definition span wins over a value span, which wins over a type span.
    pub open spec fn classify(self, offset: usize) -> CompletionContext {
        if spans_contain_offset(self.definition_spans, offset) {
            CompletionContext::Definition
        } else if spans_contain_offset(self.value_spans, offset) {
            CompletionContext::Value
        } else if spans_contain_offset(self.type_spans, offset) {
            CompletionContext::Type
        } else {
            CompletionContext::Unknown
        }
    }

    pub open spec fn add_type(self, span: Span) -> ContextSpansView {
        ContextSpansView { type_spans: push_nonempty(self.type_spans, span), ..self }
    }

    pub open spec fn add_type_opt(self, span: Option<Span>) -> ContextSpansView {
        ContextSpansView { type_spans: push_some(self.type_spans, span), ..self }
    }

    pub open spec fn add_value(self, span: Span) -> ContextSpansView {
        ContextSpansView { value_spans: push_nonempty(self.value_spans, span), ..self }
    }

    pub open spec fn add_value_opt(self, span: Option<Span>) -> ContextSpansView {
        ContextSpansView { value_spans: push_some(self.value_spans, span), ..self }
    }

    pub open spec fn add_definition(self, span: Span) -> ContextSpansView {
        ContextSpansView { definition_spans: push_nonempty(self.definition_spans, span), ..self }
    }

    pub open spec fn add_definition_opt(self, span: Option<Span>) -> ContextSpansView {
        ContextSpansView { definition_spans: push_some(self.definition_spans, span), ..self }
    }

    /// The first `n` fields: the type of each is a type span, its label a value span.
    pub open spec fn with_fields(self, sem: SemanticView, n: nat) -> ContextSpansView
        decreases n,
    {
        if n == 0 || n > sem.fields.len() {
            self
        } else {
            self.with_fields(sem, (n - 1) as nat).add_type_opt(
                sem.fields[n - 1].type_span,
            ).add_value_opt(sem.fields[n - 1].label_span)
        }
    }

    /// The first `n` service methods: the type of each is a type span, its name a value span.
    pub open spec fn with_methods(self, sem: SemanticView, n: nat) -> ContextSpansView
        decreases n,
    {
        if n == 0 || n > sem.service_methods.len() {
            self
        } else {
            self.with_methods(sem, (n - 1) as nat).add_type_opt(
                sem.service_methods[n - 1].type_span,
            ).add_value_opt(sem.service_methods[n - 1].name_span)
        }
    }

    /// The first `n` parameters: the type of each is a type span, its name a value span.
    pub open spec fn with_params(self, sem: SemanticView, n: nat) -> ContextSpansView
        decreases n,
    {
        if n == 0 || n > sem.params.len() {
            self
        } else {
            self.with_params(sem, (n - 1) as nat).add_type(sem.params[n - 1].type_span).add_value_opt(
                sem.params[n - 1].name_span,
            )
        }
    }

    /// The identifiers of the first `n` symbols are definition spans.
    pub open spec fn with_symbols(self, sem: SemanticView, n: nat) -> ContextSpansView
        decreases n,
    {
        if n == 0 || n > sem.symbol_ident_spans.len() {
            self
        } else {
            self.with_symbols(sem, (n - 1) as nat).add_definition_opt(sem.symbol_ident_spans[n - 1])
        }
    }

    /// The first `n` references are type spans.
    pub open spec fn with_references(self, sem: SemanticView, n: nat) -> ContextSpansView
        decreases n,
    {
        if n == 0 || n > sem.table.references.len() {
            self
        } else {
            self.with_references(sem, (n - 1) as nat).add_type(sem.table.references[n - 1].span)
        }
    }

    /// The first `n` imports are definition spans.
    pub open spec fn with_imports(self, sem: SemanticView, n: nat) -> ContextSpansView
        decreases n,
    {
        if n == 0 || n > sem.table.imports.len() {
            self
        } else {
            self.with_imports(sem, (n - 1) as nat).add_definition(sem.table.imports[n - 1].span)
        }
    }

    /// Among the first `n` local bindings, the definitions are definition spans.
    pub open spec fn with_locals(self, sem: SemanticView, n: nat) -> ContextSpansView
        decreases n,
    {
        if n == 0 || n > sem.locals.len() {
            self
        } else {
            let before = self.with_locals(sem, (n - 1) as nat);
            if sem.locals[n - 1].is_definition {
                before.add_definition(sem.locals[n - 1].span)
            } else {
                before
            }
        }
    }

    /// The first `n` primitive occurrences are type spans.
    pub open spec fn with_primitives(self, sem: SemanticView, n: nat) -> ContextSpansView
        decreases n,
    {
        if n == 0 || n > sem.primitive_spans.len() {
            self
        } else {
            self.with_primitives(sem, (n - 1) as nat).add_type(sem.primitive_spans[n - 1].0)
        }
    }

    /// The first `n` keyword occurrences are type spans.
    pub open spec fn with_keywords(self, sem: SemanticView, n: nat) -> ContextSpansView
        decreases n,
    {
        if n == 0 || n > sem.keyword_spans.len() {
            self
        } else {
            self.with_keywords(sem, (n - 1) as nat).add_type(sem.keyword_spans[n - 1].0)
        }
    }

    /// The actor is a type span; its name is both a definition and a value span.
    pub open spec fn with_actor(self, sem: SemanticView) -> ContextSpansView {
        match sem.actor {
            Some(actor) => self.add_type(actor.span).add_definition_opt(actor.name_span).add_value_opt(
                actor.name_span,
            ),
            None => self,
        }
    }

    /// The spans that a semantic index contributes.
    pub open spec fn collect_from_semantic(self, sem: SemanticView) -> ContextSpansView {
        self.with_fields(sem, sem.fields.len()).with_methods(
            sem,
            sem.service_methods.len(),
        ).with_params(sem, sem.params.len()).with_symbols(
            sem,
            sem.symbol_ident_spans.len(),
        ).with_references(sem, sem.table.references.len()).with_imports(
            sem,
            sem.table.imports.len(),
        ).with_locals(sem, sem.locals.len()).with_primitives(
            sem,
            sem.primitive_spans.len(),
        ).with_keywords(sem, sem.keyword_spans.len()).with_actor(sem)
    }

    /// The spans that a type expression contributes: its own span is a type
    /// span, the names of its fields and methods are value spans, and so on
    /// for the types nested in it. Names are only looked for where the text
    /// is at hand.
    pub open spec fn collect_type(self, text: Option<Seq<char>>, ty: IDLTypeWithSpan) -> ContextSpansView
        decreases ty, 0nat,
    {
        let own = self.add_type(ty.span);
        match ty.kind {
            IDLType::OptT(inner) => own.collect_type(text, *inner),
            IDLType::VecT(inner) => own.collect_type(text, *inner),
            IDLType::RecordT(fields) => own.collect_fields(text, fields@, fields@.len()),
            IDLType::VariantT(fields) => own.collect_fields(text, fields@, fields@.len()),
            IDLType::ServT(bindings) => own.collect_methods(text, bindings@, bindings@.len()),
            IDLType::FuncT(func) => own.collect_types(text, func.args@, func.args@.len()).collect_types(
                text,
                func.rets@,
                func.rets@.len(),
            ),
            IDLType::ClassT(args, ret) => own.collect_types(text, args@, args@.len()).collect_type(
                text,
                *ret,
            ),
            IDLType::PrimT(_) => own,
            IDLType::VarT(_) => own,
            IDLType::PrincipalT => own,
        }
    }

    pub open spec fn collect_types(self, text: Option<Seq<char>>, types: Seq<IDLTypeWithSpan>, n: nat) -> ContextSpansView
        decreases types, n,
    {
        if n == 0 || n > types.len() {
            self
        } else {
            self.collect_types(text, types, (n - 1) as nat).collect_type(text, types[n - 1])
        }
    }

    pub open spec fn collect_fields(self, text: Option<Seq<char>>, fields: Seq<TypeField>, n: nat) -> ContextSpansView
        decreases fields, n,
    {
        if n == 0 || n > fields.len() {
            self
        } else {
            let before = self.collect_fields(text, fields, (n - 1) as nat);
            let labelled = match text {
                Some(text) => before.add_value_opt(field_label_span(text, fields[n - 1])),
                None => before,
            };
            labelled.collect_type(text, fields[n - 1].typ)
        }
    }

    pub open spec fn collect_methods(self, text: Option<Seq<char>>, bindings: Seq<Binding>, n: nat) -> ContextSpansView
        decreases bindings, n,
    {
        if n == 0 || n > bindings.len() {
            self
        } else {
            let before = self.collect_methods(text, bindings, (n - 1) as nat);
            let named = match text {
                Some(text) => before.add_value_opt(binding_ident_span(text, bindings[n - 1])),
                None => before,
            };
            named.collect_type(text, bindings[n - 1].typ)
        }
    }

    /// The spans that a declaration contributes.
    pub open spec fn collect_dec(self, text: Option<Seq<char>>, dec: Dec) -> ContextSpansView {
        match dec {
            Dec::TypD(binding) => (match text {
                Some(text) => self.add_definition_opt(binding_ident_span(text, binding)),
                None => self,
            }).collect_type(text, binding.typ),
            Dec::ImportType { span, .. } => self.add_definition(span),
            Dec::ImportServ { span, .. } => self.add_definition(span),
        }
    }

    pub open spec fn collect_decs(self, text: Option<Seq<char>>, decs: Seq<Dec>, n: nat) -> ContextSpansView
        decreases n,
    {
        if n == 0 || n > decs.len() {
            self
        } else {
            self.collect_decs(text, decs, (n - 1) as nat).collect_dec(text, decs[n - 1])
        }
    }

    /// The spans that a syntax tree contributes.
    pub open spec fn collect_from_ast(self, text: Option<Seq<char>>, ast: IDLProg) -> ContextSpansView {
        let decs = self.collect_decs(text, ast.decs@, ast.decs@.len());
        match ast.actor {
            Some(actor) => decs.collect_type(text, actor.typ).add_type(actor.span),
            None => decs,
        }
    }
}

/// The spans collected from whichever of the semantic index and the syntax
/// tree are at hand; nothing where no span was collected.
pub open spec fn spans_from_sources(ast: Option<IDLProg>, sem: Option<SemanticView>, text: Option<Seq<char>>) -> Option<
    ContextSpansView,
> {
    let from_semantic = match sem {
        Some(sem) => ContextSpansView::empty().collect_from_semantic(sem),
        None => ContextSpansView::empty(),
    };
    let all = match ast {
        Some(ast) => from_semantic.collect_from_ast(text, ast),
        None => from_semantic,
    };
    if all.is_empty() {
        None
    } else {
        Some(all)
    }
}

pub open spec fn rope_text_opt(rope: Option<&Rope>) -> Option<Seq<char>> {
    match rope {
        Some(rope) => Some(rope_text(*rope)),
        None => None,
    }
}

impl View for ContextSpans {
    type V = ContextSpansView;

    open spec fn view(&self) -> ContextSpansView {
        ContextSpansView {
            type_spans: self.type_spans@,
            value_spans: self.value_spans@,
            definition_spans: self.definition_spans@,
        }
    }
}

impl ContextSpans {
    /// No spans.
    pub fn new() -> (spans: ContextSpans)
        ensures
            spans@ == ContextSpansView::empty(),
    {
        ContextSpans { type_spans: Vec::new(), value_spans: Vec::new(), definition_spans: Vec::new() }
    }

    /// Collect the spans of whichever sources are at hand.
    pub fn from_sources(ast: Option<&IDLProg>, semantic: Option<&Semantic>, rope: Option<&Rope>) -> (spans:
        Option<ContextSpans>)
        ensures
            match spans {
                Some(spans) => spans_from_sources(
                    match ast {
                        Some(ast) => Some(*ast),
                        None => None,
                    },
                    match semantic {
                        Some(semantic) => Some(semantic.deep_view()),
                        None => None,
                    },
                    rope_text_opt(rope),
                ) == Some(spans@),
                None => spans_from_sources(
                    match ast {
                        Some(ast) => Some(*ast),
                        None => None,
                    },
                    match semantic {
                        Some(semantic) => Some(semantic.deep_view()),
                        None => None,
                    },
                    rope_text_opt(rope),
                ) is None,
            },
    {
        let mut spans = ContextSpans::new();
        match semantic {
            Some(semantic) => {
                spans.collect_from_semantic(semantic);
            },
            None => {},
        }
        match ast {
            Some(ast) => {
                spans.collect_from_ast(ast, rope);
            },
            None => {},
        }
        if spans.is_empty() {
            None
        } else {
            Some(spans)
        }
    }

    /// Classify an offset by the spans that contain it.
    pub fn classify(&self, offset: usize) -> (context: CompletionContext)
        ensures
            context == self@.classify(offset),
    {
        if spans_contain(&self.definition_spans, offset) {
            CompletionContext::Definition
        } else if spans_contain(&self.value_spans, offset) {
            CompletionContext::Value
        } else if spans_contain(&self.type_spans, offset) {
            CompletionContext::Type
        } else {
            CompletionContext::Unknown
        }
    }

    pub fn add_type_span(&mut self, span: &Span)
        ensures
            final(self)@ == old(self)@.add_type(*span),
    {
        if span.start < span.end {
            self.type_spans.push(*span);
        }
    }

    pub fn add_value_span(&mut self, span: &Span)
        ensures
            final(self)@ == old(self)@.add_value(*span),
    {
        if span.start < span.end {
            self.value_spans.push(*span);
        }
    }

    pub fn add_definition_span(&mut self, span: &Span)
        ensures
            final(self)@ == old(self)@.add_definition(*span),
    {
        if span.start < span.end {
            self.definition_spans.push(*span);
        }
    }

    fn add_type_opt(&mut self, span: &Option<Span>)
        ensures
            final(self)@ == old(self)@.add_type_opt(*span),
    {
        match span {
            Some(span) => self.add_type_span(span),
            None => {},
        }
    }

    fn add_value_opt(&mut self, span: &Option<Span>)
        ensures
            final(self)@ == old(self)@.add_value_opt(*span),
    {
        match span {
            Some(span) => self.add_value_span(span),
            None => {},
        }
    }

    fn add_definition_opt(&mut self, span: &Option<Span>)
        ensures
            final(self)@ == old(self)@.add_definition_opt(*span),
    {
        match span {
            Some(span) => self.add_definition_span(span),
            None => {},
        }
    }

    /// Whether there is no span of any kind.
    pub fn is_empty(&self) -> (empty: bool)
        ensures
            empty == self@.is_empty(),
    {
        self.type_spans.len() == 0 && self.value_spans.len() == 0 && self.definition_spans.len() == 0
    }

    pub fn collect_from_semantic(&mut self, semantic: &Semantic)
        ensures
            final(self)@ == old(self)@.collect_from_semantic(semantic.deep_view()),
    {
        let ghost sem = semantic.deep_view();
        let ghost start = self@;
        let mut i: usize = 0;
        while i < semantic.fields.len()
            invariant
                i <= semantic.fields.len(),
                sem == semantic.deep_view(),
                self@ == start.with_fields(sem, i as nat),
            decreases semantic.fields.len() - i,
        {
            assert(sem.fields[i as int] == semantic.fields@[i as int].deep_view());
            self.add_type_opt(&semantic.fields[i].type_span);
            self.add_value_opt(&semantic.fields[i].label_span);
            i += 1;
        }
        let ghost start = self@;
        let mut i: usize = 0;
        while i < semantic.service_methods.len()
            invariant
                i <= semantic.service_methods.len(),
                sem == semantic.deep_view(),
                self@ == start.with_methods(sem, i as nat),
            decreases semantic.service_methods.len() - i,
        {
            assert(sem.service_methods[i as int] == semantic.service_methods@[i as int].deep_view());
            self.add_type_opt(&semantic.service_methods[i].type_span);
            self.add_value_opt(&semantic.service_methods[i].name_span);
            i += 1;
        }
        let ghost start = self@;
        let mut i: usize = 0;
        while i < semantic.params.len()
            invariant
                i <= semantic.params.len(),
                sem == semantic.deep_view(),
                self@ == start.with_params(sem, i as nat),
            decreases semantic.params.len() - i,
        {
            self.add_type_span(&semantic.params[i].type_span);
            self.add_value_opt(&semantic.params[i].name_span);
            i += 1;
        }
        let ghost start = self@;
        let mut i: usize = 0;
        while i < semantic.symbol_ident_spans.len()
            invariant
                i <= semantic.symbol_ident_spans.len(),
                sem == semantic.deep_view(),
                self@ == start.with_symbols(sem, i as nat),
            decreases semantic.symbol_ident_spans.len() - i,
        {
            self.add_definition_opt(&semantic.symbol_ident_spans[i]);
            i += 1;
        }
        let ghost start = self@;
        let mut i: usize = 0;
        while i < semantic.table.reference_id_to_reference.len()
            invariant
                i <= semantic.table.reference_id_to_reference.len(),
                sem == semantic.deep_view(),
                self@ == start.with_references(sem, i as nat),
            decreases semantic.table.reference_id_to_reference.len() - i,
        {
            self.add_type_span(&semantic.table.reference_id_to_reference[i].span);
            i += 1;
        }
        let ghost start = self@;
        let mut i: usize = 0;
        while i < semantic.table.imports.len()
            invariant
                i <= semantic.table.imports.len(),
                sem == semantic.deep_view(),
                self@ == start.with_imports(sem, i as nat),
            decreases semantic.table.imports.len() - i,
        {
            assert(sem.table.imports[i as int] == semantic.table.imports@[i as int].deep_view());
            self.add_definition_span(&semantic.table.imports[i].span);
            i += 1;
        }
        let ghost start = self@;
        let mut i: usize = 0;
        while i < semantic.locals.len()
            invariant
                i <= semantic.locals.len(),
                sem == semantic.deep_view(),
                self@ == start.with_locals(sem, i as nat),
            decreases semantic.locals.len() - i,
        {
            assert(sem.locals[i as int] == semantic.locals@[i as int].deep_view());
            if semantic.locals[i].is_definition {
                self.add_definition_span(&semantic.locals[i].span);
            }
            i += 1;
        }
        let ghost start = self@;
        let mut i: usize = 0;
        while i < semantic.primitive_spans.len()
            invariant
                i <= semantic.primitive_spans.len(),
                sem == semantic.deep_view(),
                self@ == start.with_primitives(sem, i as nat),
            decreases semantic.primitive_spans.len() - i,
        {
            self.add_type_span(&semantic.primitive_spans[i].0);
            i += 1;
        }
        let ghost start = self@;
        let mut i: usize = 0;
        while i < semantic.keyword_spans.len()
            invariant
                i <= semantic.keyword_spans.len(),
                sem == semantic.deep_view(),
                self@ == start.with_keywords(sem, i as nat),
            decreases semantic.keyword_spans.len() - i,
        {
            self.add_type_span(&semantic.keyword_spans[i].0);
            i += 1;
        }
        match &semantic.actor {
            Some(actor) => {
                self.add_type_span(&actor.span);
                self.add_definition_opt(&actor.name_span);
                self.add_value_opt(&actor.name_span);
            },
            None => {},
        }
    }

    pub fn collect_from_ast(&mut self, ast: &IDLProg, rope: Option<&Rope>)
        ensures
            final(self)@ == old(self)@.collect_from_ast(rope_text_opt(rope), *ast),
    {
        let mut i: usize = 0;
        while i < ast.decs.len()
            invariant
                i <= ast.decs.len(),
                self@ == old(self)@.collect_decs(rope_text_opt(rope), ast.decs@, i as nat),
            decreases ast.decs.len() - i,
        {
            match &ast.decs[i] {
                Dec::TypD(binding) => {
                    match rope {
                        Some(rope) => {
                            let span = compute_binding_ident_span(binding, rope);
                            self.add_definition_opt(&span);
                        },
                        None => {},
                    }
                    self.collect_type_from(&binding.typ, rope);
                },
                Dec::ImportType { span, .. } => {
                    self.add_definition_span(span);
                },
                Dec::ImportServ { span, .. } => {
                    self.add_definition_span(span);
                },
            }
            i += 1;
        }
        match &ast.actor {
            Some(actor) => {
                self.collect_type_from(&actor.typ, rope);
                self.add_type_span(&actor.span);
            },
            None => {},
        }
    }

    pub fn collect_type_from(&mut self, idl_type: &IDLTypeWithSpan, rope: Option<&Rope>)
        ensures
            final(self)@ == old(self)@.collect_type(rope_text_opt(rope), *idl_type),
        decreases idl_type, 0nat,
    {
        self.add_type_span(&idl_type.span);
        match &idl_type.kind {
            IDLType::OptT(inner) => {
                self.collect_type_from(inner, rope);
            },
            IDLType::VecT(inner) => {
                self.collect_type_from(inner, rope);
            },
            IDLType::RecordT(fields) => {
                self.collect_fields_from(fields, rope);
            },
            IDLType::VariantT(fields) => {
                self.collect_fields_from(fields, rope);
            },
            IDLType::ServT(bindings) => {
                self.collect_methods_from(bindings, rope);
            },
            IDLType::FuncT(func) => {
                self.collect_types_from(&func.args, rope);
                self.collect_types_from(&func.rets, rope);
            },
            IDLType::ClassT(args, ret) => {
                self.collect_types_from(args, rope);
                self.collect_type_from(ret, rope);
            },
            IDLType::PrimT(_) => {},
            IDLType::VarT(_) => {},
            IDLType::PrincipalT => {},
        }
    }

    #[verifier::loop_isolation(false)]
    fn collect_types_from(&mut self, types: &Vec<IDLTypeWithSpan>, rope: Option<&Rope>)
        ensures
            final(self)@ == old(self)@.collect_types(rope_text_opt(rope), types@, types@.len()),
        decreases types, 1nat,
    {
        let mut i: usize = 0;
        while i < types.len()
            invariant
                i <= types.len(),
                self@ == old(self)@.collect_types(rope_text_opt(rope), types@, i as nat),
            decreases types.len() - i,
        {
            self.collect_type_from(&types[i], rope);
            i += 1;
        }
    }

    #[verifier::loop_isolation(false)]
    fn collect_fields_from(&mut self, fields: &Vec<TypeField>, rope: Option<&Rope>)
        ensures
            final(self)@ == old(self)@.collect_fields(rope_text_opt(rope), fields@, fields@.len()),
        decreases fields, 1nat,
    {
        let mut i: usize = 0;
        while i < fields.len()
            invariant
                i <= fields.len(),
                self@ == old(self)@.collect_fields(rope_text_opt(rope), fields@, i as nat),
            decreases fields.len() - i,
        {
            match rope {
                Some(rope) => {
                    let span = compute_field_label_span(&fields[i], rope);
                    self.add_value_opt(&span);
                },
                None => {},
            }
            self.collect_type_from(&fields[i].typ, rope);
            i += 1;
        }
    }

    #[verifier::loop_isolation(false)]
    fn collect_methods_from(&mut self, bindings: &Vec<Binding>, rope: Option<&Rope>)
        ensures
            final(self)@ == old(self)@.collect_methods(rope_text_opt(rope), bindings@, bindings@.len()),
        decreases bindings, 1nat,
    {
        let mut i: usize = 0;
        while i < bindings.len()
            invariant
                i <= bindings.len(),
                self@ == old(self)@.collect_methods(rope_text_opt(rope), bindings@, i as nat),
            decreases bindings.len() - i,
        {
            match rope {
                Some(rope) => {
                    let span = compute_binding_ident_span(&bindings[i], rope);
                    self.add_value_opt(&span);
                },
                None => {},
            }
            self.collect_type_from(&bindings[i].typ, rope);
            i += 1;
        }
    }
}

} // verus!
