//! The state of one analysis pass and the steps that extend it.
//!
//! Every step is given twice: as a function on the mathematical state, which
//! says what the step records, and as executable code proved to do just that.
use crate::docs::{format_docs, formatted_docs};
use crate::rope::{
    rope_len_lines, rope_line_len, rope_line_to_char, rope_slice, rope_char_to_line, rope_text,
    text_line_count, text_line_len, text_line_of_char, text_line_start,
};
use crate::scope_env::{env_entries, env_get, env_len, env_new, env_push};
use crate::semantic_analyze::{
    ActorMetadata, ActorMetadataView, FieldMetadata, FieldMetadataView, LocalBinding,
    LocalBindingView, MethodMetadata, MethodMetadataView, MethodSignature, MethodSignatureView,
    ParamMetadata, ParamRole, PrimitiveHover, SemanticView,
};
use crate::span::Span;
use crate::span_search::{
    args_region_start, args_region_start_of, binding_ident_span, compute_binding_ident_span,
    compute_field_label_span, compute_param_name_span, field_label_chars, field_label_name,
    field_label_span, find_identifier_span, identifier_span, lemma_identifier_span_within,
    param_name_span, slice_span, slice_text, span_text_eq, span_text_is,
};
use crate::semantic_analyze::{SemanticError, SemanticErrorView};
use crate::span_search::{actor_name_span, compute_actor_name_span};
use crate::symbol_table::{
    symbol_for_span, ImportKind, SymbolId, SymbolTable, SymbolTableView,
};
use crate::span_search::{char_in_span, first_word};
use crate::syntax::{Dec, FuncMode, IDLActorType, IDLProg};
use crate::text::push_chars;
use crate::type_display::{actor_declaration_text, render_actor_declaration};
use crate::syntax::{Binding, FuncType, IDLType, IDLTypeWithSpan, PrimType, TypeField};
use crate::text::{
    chars_of, contains, contains_seq, count_leading_ws, find_first, first_match, is_whitespace,
    char_is_whitespace, leading_ws, push_str_chars, starts_with, starts_with_seq, str_eq,
    string_of, subvec, trim_start_seq, matches_at,
};
use crate::type_display::{binding_text, render_binding, render_inline_type, type_text};
use crate::type_docs::{keyword_text, primitive_name, primitive_text, KeywordDoc, TypeDoc, TypeDocView};
use im_rc::Vector;
use ropey::Rope;
use vstd::prelude::*;

verus! {

/// Everything an analysis pass has recorded so far.
pub struct AnalysisState {
    /// The arenas of the index under construction.
    pub sem: SemanticView,
    /// The declared names, oldest first, each with its declaration span.
    pub env: Seq<(Seq<char>, Span)>,
    /// The names of the enclosing declarations, outermost first.
    pub type_names: Seq<Option<Seq<char>>>,
    /// The spans of the enclosing blocks, outermost first.
    pub scopes: Seq<Span>,
}

/// The declaration span of the most recent declaration of `name`.
pub open spec fn env_lookup(env: Seq<(Seq<char>, Span)>, name: Seq<char>) -> Option<Span>
    decreases env.len(),
{
    if env.len() == 0 {
        None
    } else if env.last().0 == name {
        Some(env.last().1)
    } else {
        env_lookup(env.drop_last(), name)
    }
}

/// The name of the innermost enclosing declaration that has one.
pub open spec fn innermost_name(stack: Seq<Option<Seq<char>>>) -> Option<Seq<char>>
    decreases stack.len(),
{
    if stack.len() == 0 {
        None
    } else if stack.last() is Some {
        stack.last()
    } else {
        innermost_name(stack.drop_last())
    }
}

impl AnalysisState {
    pub open spec fn empty() -> AnalysisState {
        AnalysisState {
            sem: SemanticView {
                table: SymbolTableView::empty(),
                fields: Seq::empty(),
                service_methods: Seq::empty(),
                params: Seq::empty(),
                locals: Seq::empty(),
                symbol_ident_spans: Seq::empty(),
                symbol_ident_names: Seq::empty(),
                type_docs: Seq::empty(),
                primitive_spans: Seq::empty(),
                keyword_spans: Seq::empty(),
                actor: None,
            },
            env: Seq::empty(),
            type_names: Seq::empty(),
            scopes: Seq::empty(),
        }
    }

    pub open spec fn current_type_name(self) -> Option<Seq<char>> {
        innermost_name(self.type_names)
    }

    pub open spec fn current_scope(self) -> Option<Span> {
        if self.scopes.len() > 0 {
            Some(self.scopes.last())
        } else {
            None
        }
    }

    pub open spec fn push_type_name(self, name: Option<Seq<char>>) -> AnalysisState {
        AnalysisState { type_names: self.type_names.push(name), ..self }
    }

    pub open spec fn pop_type_name(self) -> AnalysisState {
        AnalysisState {
            type_names: if self.type_names.len() > 0 {
                self.type_names.drop_last()
            } else {
                self.type_names
            },
            ..self
        }
    }

    pub open spec fn push_scope(self, span: Span) -> AnalysisState {
        AnalysisState { scopes: self.scopes.push(span), ..self }
    }

    pub open spec fn pop_scope(self) -> AnalysisState {
        AnalysisState {
            scopes: if self.scopes.len() > 0 {
                self.scopes.drop_last()
            } else {
                self.scopes
            },
            ..self
        }
    }

    pub open spec fn with_keyword_span(self, span: Span, keyword: KeywordDoc) -> AnalysisState {
        AnalysisState {
            sem: SemanticView { keyword_spans: self.sem.keyword_spans.push((span, keyword)), ..self.sem },
            ..self
        }
    }

    pub open spec fn with_primitive_span(self, span: Span, kind: PrimitiveHover) -> AnalysisState {
        AnalysisState {
            sem: SemanticView {
                primitive_spans: self.sem.primitive_spans.push((span, kind)),
                ..self.sem
            },
            ..self
        }
    }

    /// Records the occurrence of a keyword: the first one inside `span`, or
    /// the last one where `from_end` is set. A keyword that does not occur in
    /// the span is not recorded.
    pub open spec fn register_keyword(self, text: Seq<char>, span: Span, keyword: KeywordDoc, from_end: bool) -> AnalysisState {
        match identifier_span(text, span, keyword_text(keyword), from_end) {
            Some(found) => self.with_keyword_span(found, keyword),
            None => self,
        }
    }

    /// Records the occurrence of a primitive type's name inside `span`.
    pub open spec fn register_primitive(self, text: Seq<char>, span: Span, kind: PrimType) -> AnalysisState {
        match identifier_span(text, span, primitive_text(kind), false) {
            Some(found) => self.with_primitive_span(found, PrimitiveHover::Prim(kind)),
            None => self,
        }
    }

    /// Records the occurrence of `blob` inside `span`.
    pub open spec fn register_blob(self, text: Seq<char>, span: Span) -> AnalysisState {
        match identifier_span(text, span, "blob"@, false) {
            Some(found) => self.with_primitive_span(found, PrimitiveHover::Blob),
            None => self,
        }
    }

    /// Declares a top-level type: a symbol for its span, its overlays, and an
    /// entry in the chain of declared names.
    pub open spec fn declare_type(self, text: Seq<char>, binding: Binding) -> AnalysisState {
        AnalysisState {
            sem: SemanticView {
                table: self.sem.table.with_symbol(binding.span),
                symbol_ident_spans: self.sem.symbol_ident_spans.push(
                    binding_ident_span(text, binding),
                ),
                symbol_ident_names: self.sem.symbol_ident_names.push(Some(binding.id@)),
                type_docs: self.sem.type_docs.push(
                    Some(
                        TypeDocView {
                            definition: binding_text(binding),
                            docs: formatted_docs(binding.docs.deep_view()),
                        },
                    ),
                ),
                ..self.sem
            },
            env: self.env.push((binding.id@, binding.span)),
            ..self
        }
    }

    /// Declares the symbol of an import. It has no overlays and no entry in
    /// the chain of declared names.
    pub open spec fn declare_import(self, span: Span, path: Seq<char>, kind: ImportKind) -> AnalysisState {
        AnalysisState {
            sem: SemanticView {
                table: self.sem.table.with_import(span, path, kind),
                symbol_ident_spans: self.sem.symbol_ident_spans.push(None),
                symbol_ident_names: self.sem.symbol_ident_names.push(None),
                type_docs: self.sem.type_docs.push(None),
                ..self.sem
            },
            ..self
        }
    }

    /// Records a field of a record or variant, and binds its label in the
    /// enclosing block where the label was found in the text.
    pub open spec fn register_field(self, text: Seq<char>, field: TypeField) -> AnalysisState {
        let label_span = field_label_span(text, field);
        let metadata = FieldMetadataView {
            span: field.span,
            label_span,
            type_span: if field.typ.span.start < field.typ.span.end {
                Some(field.typ.span)
            } else {
                None
            },
            docs: formatted_docs(field.docs.deep_view()),
            parent_name: self.current_type_name(),
            label: Some(field_label_name(field.label)),
        };
        let locals = match (self.current_scope(), label_span) {
            (Some(scope), Some(label_span)) => self.sem.locals.push(
                LocalBindingView {
                    name: field_label_name(field.label),
                    span: label_span,
                    scope,
                    is_definition: false,
                },
            ),
            _ => self.sem.locals,
        };
        AnalysisState {
            sem: SemanticView { fields: self.sem.fields.push(metadata), locals, ..self.sem },
            ..self
        }
    }
}

/// A type expression on a single line: its rendering with every run of
/// whitespace replaced by one space, and none at either end.
pub open spec fn collapse_from(text: Seq<char>, i: int, started: bool, in_word: bool) -> Seq<char>
    decreases text.len() - i,
{
    if i < 0 || i >= text.len() {
        Seq::empty()
    } else if is_whitespace(text[i]) {
        collapse_from(text, i + 1, started, false)
    } else {
        (if started && !in_word {
            seq![' ']
        } else {
            Seq::empty()
        }) + seq![text[i]] + collapse_from(text, i + 1, true, true)
    }
}

pub open spec fn collapsed(text: Seq<char>) -> Seq<char> {
    collapse_from(text, 0, false, false)
}

pub fn collapse_whitespace(text: &Vec<char>) -> (result: Vec<char>)
    ensures
        result@ == collapsed(text@),
{
    let mut result: Vec<char> = Vec::new();
    let mut started = false;
    let mut in_word = false;
    let mut i: usize = 0;
    while i < text.len()
        invariant
            i <= text.len(),
            result@ + collapse_from(text@, i as int, started, in_word) == collapsed(text@),
        decreases text.len() - i,
    {
        let ghost before = result@;
        let c = text[i];
        if char_is_whitespace(c) {
            in_word = false;
        } else {
            if started && !in_word {
                result.push(' ');
            }
            result.push(c);
            assert(result@ + collapse_from(text@, i + 1, true, true) =~= before + collapse_from(
                text@,
                i as int,
                started,
                in_word,
            ));
            started = true;
            in_word = true;
        }
        i += 1;
    }
    assert(result@ =~= result@ + collapse_from(text@, i as int, started, in_word));
    result
}

/// The single-line rendering of a type.
pub open spec fn flat_type_text(ty: IDLTypeWithSpan) -> Seq<char> {
    collapsed(type_text(ty, 0))
}

pub fn flatten_type_text(ty: &IDLTypeWithSpan) -> (flat: String)
    ensures
        flat@ == flat_type_text(*ty),
{
    let rendered = render_inline_type(ty);
    let chars = chars_of(rendered.as_str());
    let compact = collapse_whitespace(&chars);
    string_of(&compact)
}

/// The single-line renderings of a list of types.
pub open spec fn flat_types_text(types: Seq<IDLTypeWithSpan>) -> Seq<Seq<char>> {
    Seq::new(types.len(), |i: int| flat_type_text(types[i]))
}

pub fn flatten_types(types: &Vec<IDLTypeWithSpan>) -> (flat: Vec<String>)
    ensures
        flat.deep_view() == flat_types_text(types@),
{
    let mut flat: Vec<String> = Vec::new();
    let mut i: usize = 0;
    while i < types.len()
        invariant
            i <= types.len(),
            flat@.len() == i,
            forall|k: int| 0 <= k < i ==> (#[trigger] flat@[k])@ == flat_type_text(types@[k]),
        decreases types.len() - i,
    {
        flat.push(flatten_type_text(&types[i]));
        i += 1;
    }
    assert(flat.deep_view() =~= flat_types_text(types@));
    flat
}

/// The signature of a function type.
pub open spec fn signature_of(func: FuncType) -> MethodSignatureView {
    MethodSignatureView {
        args: flat_types_text(func.args@),
        rets: flat_types_text(func.rets@),
        modes: func.modes@,
    }
}

impl MethodSignature {
    /// The signature of a function type: its modes, arguments and results as text.
    pub fn from_func(func: &FuncType) -> (signature: MethodSignature)
        ensures
            signature.deep_view() == signature_of(*func),
    {
        let args = flatten_types(&func.args);
        let rets = flatten_types(&func.rets);
        let mut modes = Vec::new();
        let mut i: usize = 0;
        while i < func.modes.len()
            invariant
                i <= func.modes.len(),
                modes@ == func.modes@.take(i as int),
            decreases func.modes.len() - i,
        {
            modes.push(func.modes[i]);
            i += 1;
        }
        assert(modes@ =~= func.modes@);
        MethodSignature { args, rets, modes }
    }
}

/// The text of a line of the document, its line break included.
pub open spec fn line_text(text: Seq<char>, line: int) -> Seq<char> {
    text.subrange(text_line_start(text, line), text_line_start(text, line) + text_line_len(text, line))
}

/// The span that a line of the document occupies.
pub open spec fn line_span(text: Seq<char>, line: int) -> Span {
    Span {
        start: text_line_start(text, line) as usize,
        end: (text_line_start(text, line) + text_line_len(text, line)) as usize,
    }
}

/// A line of the document: where it starts, and its characters.
pub fn rope_line(rope: &Rope, line: usize) -> (result: Option<(usize, Vec<char>)>)
    ensures
        result is Some <==> line < text_line_count(rope_text(*rope)),
        result matches Some((start, chars)) ==> start == text_line_start(rope_text(*rope), line as int)
            && chars@ == line_text(rope_text(*rope), line as int) && start + chars@.len()
            <= rope_text(*rope).len() && line_span(rope_text(*rope), line as int) == (Span {
            start,
            end: (start + chars@.len()) as usize,
        }) && rope_text(*rope).len() <= usize::MAX,
{
    let len = match rope_line_len(rope, line) {
        Some(len) => len,
        None => {
            return None;
        },
    };
    let start = match rope_line_to_char(rope, line) {
        Some(start) => start,
        None => {
            return None;
        },
    };
    match rope_slice(rope, start, start + len) {
        Some(chars) => Some((start, chars)),
        None => None,
    }
}

/// Whether a line names both the `import` keyword and the imported path.
pub open spec fn line_mentions_import(text: Seq<char>, path: Seq<char>, line: int) -> bool {
    let l = line_text(text, line);
    contains_seq(l, "import"@) && (contains_seq(l, path) || contains_seq(l, "\""@ + path + "\""@))
}

/// The span of the `import` keyword on the first line, from line `from` on,
/// that mentions the import of `path`.
pub open spec fn import_keyword_in_lines(text: Seq<char>, path: Seq<char>, from: int) -> Option<Span>
    decreases text_line_count(text) - from,
{
    if from < 0 || from >= text_line_count(text) {
        None
    } else if line_mentions_import(text, path, from) {
        let start = text_line_start(text, from) + first_match(line_text(text, from), "import"@)->0;
        Some(Span { start: start as usize, end: (start + "import"@.len()) as usize })
    } else {
        import_keyword_in_lines(text, path, from + 1)
    }
}

/// The span of an `import` keyword that begins a line: the line starts with
/// the keyword after optional whitespace, and the keyword is followed by
/// whitespace, a quote or nothing.
pub open spec fn import_line_keyword(text: Seq<char>, line: int) -> Option<Span> {
    let l = line_text(text, line);
    let trimmed = trim_start_seq(l);
    if !starts_with_seq(trimmed, "import"@) {
        None
    } else if trimmed.len() > "import"@.len() && !(is_whitespace(trimmed["import"@.len() as int])
        || trimmed["import"@.len() as int] == '"') {
        None
    } else {
        let start = text_line_start(text, line) + leading_ws(l);
        Some(Span { start: start as usize, end: (start + "import"@.len()) as usize })
    }
}

/// One parameter of a function type: its metadata, and its name as a
/// definition local to the function where the name was found. Returns the
/// state and the offset at which the search for the next name begins.
pub open spec fn register_param(
    st: AnalysisState,
    text: Seq<char>,
    func_span: Span,
    cursor: usize,
    arg: IDLTypeWithSpan,
) -> (AnalysisState, usize) {
    let from = if cursor > arg.span.start {
        arg.span.start
    } else {
        cursor
    };
    let name_span = param_name_span(text, Span { start: from, end: arg.span.start });
    let metadata = ParamMetadata {
        span: Span {
            start: match name_span {
                Some(found) => found.start,
                None => arg.span.start,
            },
            end: arg.span.end,
        },
        name_span,
        type_span: arg.span,
        role: ParamRole::Argument,
    };
    let locals = match name_span {
        Some(found) => st.sem.locals.push(
            LocalBindingView {
                name: text.subrange(found.start as int, found.end as int),
                span: found,
                scope: func_span,
                is_definition: true,
            },
        ),
        None => st.sem.locals,
    };
    (
        AnalysisState {
            sem: SemanticView { params: st.sem.params.push(metadata), locals, ..st.sem },
            ..st
        },
        arg.span.end,
    )
}

/// The first `n` parameters of a function type, in order.
pub open spec fn register_params_upto(
    st: AnalysisState,
    text: Seq<char>,
    func_span: Span,
    args: Seq<IDLTypeWithSpan>,
    n: nat,
) -> (AnalysisState, usize)
    decreases n,
{
    if n == 0 || n > args.len() {
        (st, args_region_start_of(text, func_span) as usize)
    } else {
        let before = register_params_upto(st, text, func_span, args, (n - 1) as nat);
        register_param(before.0, text, func_span, before.1, args[n - 1])
    }
}

/// The `import` keywords that begin one of the first `n` lines, each
/// recorded once.
pub open spec fn register_import_lines_upto(st: AnalysisState, text: Seq<char>, n: nat) -> AnalysisState
    decreases n,
{
    if n == 0 {
        st
    } else {
        let before = register_import_lines_upto(st, text, (n - 1) as nat);
        match import_line_keyword(text, n - 1) {
            Some(span) => if before.sem.keyword_spans.contains((span, KeywordDoc::Import)) {
                before
            } else {
                before.with_keyword_span(span, KeywordDoc::Import)
            },
            None => before,
        }
    }
}

impl AnalysisState {
    /// Records a method of a service.
    pub open spec fn register_service_method(
        self,
        text: Seq<char>,
        binding: Binding,
        parent_name: Option<Seq<char>>,
    ) -> AnalysisState {
        let metadata = MethodMetadataView {
            span: binding.span,
            name_span: binding_ident_span(text, binding),
            type_span: if binding.typ.span.start < binding.typ.span.end {
                Some(binding.typ.span)
            } else {
                None
            },
            docs: formatted_docs(binding.docs.deep_view()),
            parent_name,
            signature: match binding.typ.kind {
                IDLType::FuncT(func) => Some(signature_of(func)),
                _ => None,
            },
        };
        AnalysisState {
            sem: SemanticView {
                service_methods: self.sem.service_methods.push(metadata),
                ..self.sem
            },
            ..self
        }
    }

    /// Records the parameters of a function type.
    pub open spec fn register_function_params(self, text: Seq<char>, func: FuncType, func_span: Span) -> AnalysisState {
        register_params_upto(self, text, func_span, func.args@, func.args@.len()).0
    }

    /// Records the `import` keyword of an import declaration: the one on the
    /// line where the declaration starts, or else the one on the first line
    /// of the document that mentions the imported path.
    pub open spec fn register_import_keyword(self, text: Seq<char>, span: Span, path: Seq<char>) -> AnalysisState {
        let on_line = if span.start < span.end && span.start <= text.len() {
            identifier_span(
                text,
                line_span(text, text_line_of_char(text, span.start as int)),
                "import"@,
                false,
            )
        } else {
            None
        };
        match on_line {
            Some(found) => self.with_keyword_span(found, KeywordDoc::Import),
            None => match import_keyword_in_lines(text, path, 0) {
                Some(found) => self.with_keyword_span(found, KeywordDoc::Import),
                None => self,
            },
        }
    }

    /// Records every `import` keyword that begins a line and is not recorded yet.
    pub open spec fn register_import_keywords_from_text(self, text: Seq<char>) -> AnalysisState {
        register_import_lines_upto(self, text, text_line_count(text))
    }
}

/// A vector with one more element at its end views as its view before with
/// the view of that element at its end.
pub proof fn lemma_deep_view_push<T: DeepView>(before: Vec<T>, after: Vec<T>, x: T)
    requires
        after@ == before@.push(x),
    ensures
        after.deep_view() == before.deep_view().push(x.deep_view()),
{
    assert(after.deep_view() =~= before.deep_view().push(x.deep_view()));
}

/// A vector without its last element views as its view before without its
/// last element.
pub proof fn lemma_deep_view_drop_last<T: DeepView>(before: Vec<T>, after: Vec<T>)
    requires
        before@.len() > 0,
        after@ == before@.drop_last(),
    ensures
        after.deep_view() == before.deep_view().drop_last(),
{
    assert(after.deep_view() =~= before.deep_view().drop_last());
}

/// The working state of an analysis pass.
pub struct Ctx {
    pub env: Vector<(String, Span)>,
    pub table: SymbolTable,
    pub fields: Vec<FieldMetadata>,
    pub service_methods: Vec<MethodMetadata>,
    pub params: Vec<ParamMetadata>,
    pub locals: Vec<LocalBinding>,
    pub symbol_ident_spans: Vec<Option<Span>>,
    pub symbol_ident_names: Vec<Option<String>>,
    pub type_docs: Vec<Option<TypeDoc>>,
    pub primitive_spans: Vec<(Span, PrimitiveHover)>,
    pub keyword_spans: Vec<(Span, KeywordDoc)>,
    pub actor: Option<ActorMetadata>,
    pub type_name_stack: Vec<Option<String>>,
    pub scope_stack: Vec<Span>,
}

impl View for Ctx {
    type V = AnalysisState;

    open spec fn view(&self) -> AnalysisState {
        AnalysisState {
            sem: SemanticView {
                table: self.table.deep_view(),
                fields: self.fields.deep_view(),
                service_methods: self.service_methods.deep_view(),
                params: self.params@,
                locals: self.locals.deep_view(),
                symbol_ident_spans: self.symbol_ident_spans@,
                symbol_ident_names: self.symbol_ident_names.deep_view(),
                type_docs: self.type_docs.deep_view(),
                primitive_spans: self.primitive_spans@,
                keyword_spans: self.keyword_spans@,
                actor: self.actor.deep_view(),
            },
            env: env_entries(self.env),
            type_names: self.type_name_stack.deep_view(),
            scopes: self.scope_stack@,
        }
    }
}

impl Ctx {
    /// The state before anything is declared.
    pub fn new() -> (ctx: Ctx)
        ensures
            ctx@ == AnalysisState::empty(),
    {
        let ctx = Ctx {
            env: env_new(),
            table: SymbolTable::new(),
            fields: Vec::new(),
            service_methods: Vec::new(),
            params: Vec::new(),
            locals: Vec::new(),
            symbol_ident_spans: Vec::new(),
            symbol_ident_names: Vec::new(),
            type_docs: Vec::new(),
            primitive_spans: Vec::new(),
            keyword_spans: Vec::new(),
            actor: None,
            type_name_stack: Vec::new(),
            scope_stack: Vec::new(),
        };
        proof {
            assert(ctx.fields.deep_view() =~= Seq::empty());
            assert(ctx.service_methods.deep_view() =~= Seq::empty());
            assert(ctx.locals.deep_view() =~= Seq::empty());
            assert(ctx.symbol_ident_names.deep_view() =~= Seq::empty());
            assert(ctx.type_docs.deep_view() =~= Seq::empty());
            assert(ctx.type_name_stack.deep_view() =~= Seq::empty());
        }
        ctx
    }

    /// The declaration span of the most recent declaration of `name`.
    pub fn find_symbol(&self, name: &str) -> (found: Option<Span>)
        ensures
            found == env_lookup(self@.env, name@),
    {
        let mut i: usize = env_len(&self.env);
        assert(env_entries(self.env).take(i as int) =~= env_entries(self.env));
        while i > 0
            invariant
                i <= env_entries(self.env).len(),
                env_lookup(env_entries(self.env), name@) == env_lookup(
                    env_entries(self.env).take(i as int),
                    name@,
                ),
            decreases i,
        {
            i -= 1;
            proof {
                let prefix = env_entries(self.env).take(i + 1);
                assert(prefix.drop_last() =~= env_entries(self.env).take(i as int));
                assert(prefix.last() == env_entries(self.env)[i as int]);
            }
            let entry = env_get(&self.env, i);
            if str_eq(entry.0.as_str(), name) {
                return Some(entry.1);
            }
        }
        None
    }

    pub fn push_type_name(&mut self, name: Option<String>)
        ensures
            final(self)@ == old(self)@.push_type_name(name.deep_view()),
    {
        self.type_name_stack.push(name);
        proof {
            lemma_deep_view_push(old(self).type_name_stack, self.type_name_stack, name);
        }
    }

    pub fn pop_type_name(&mut self)
        ensures
            final(self)@ == old(self)@.pop_type_name(),
    {
        self.type_name_stack.pop();
        proof {
            if old(self).type_name_stack@.len() > 0 {
                lemma_deep_view_drop_last(old(self).type_name_stack, self.type_name_stack);
            }
            assert(old(self).type_name_stack.deep_view().len() == old(self).type_name_stack@.len());
        }
    }

    /// The name of the innermost enclosing declaration that has one.
    pub fn current_type_name(&self) -> (name: Option<String>)
        ensures
            name.deep_view() == self@.current_type_name(),
    {
        let mut i: usize = self.type_name_stack.len();
        let ghost names = self.type_name_stack.deep_view();
        assert(names.take(i as int) =~= names);
        while i > 0
            invariant
                i <= self.type_name_stack.len(),
                names == self.type_name_stack.deep_view(),
                innermost_name(names) == innermost_name(names.take(i as int)),
            decreases i,
        {
            i -= 1;
            proof {
                let prefix = names.take(i + 1);
                assert(prefix.drop_last() =~= names.take(i as int));
                assert(prefix.last() == names[i as int]);
                assert(names[i as int] == self.type_name_stack@[i as int].deep_view());
            }
            match &self.type_name_stack[i] {
                Some(name) => {
                    return Some(name.clone());
                },
                None => {},
            }
        }
        None
    }

    pub fn push_scope(&mut self, span: Span)
        ensures
            final(self)@ == old(self)@.push_scope(span),
    {
        self.scope_stack.push(span);
    }

    pub fn pop_scope(&mut self)
        ensures
            final(self)@ == old(self)@.pop_scope(),
    {
        self.scope_stack.pop();
    }

    pub fn current_scope(&self) -> (scope: Option<Span>)
        ensures
            scope == self@.current_scope(),
    {
        if self.scope_stack.len() > 0 {
            Some(self.scope_stack[self.scope_stack.len() - 1])
        } else {
            None
        }
    }

    pub fn register_keyword_within(&mut self, rope: &Rope, span: Span, keyword: KeywordDoc, from_end: bool)
        ensures
            final(self)@ == old(self)@.register_keyword(rope_text(*rope), span, keyword, from_end),
    {
        let needle = chars_of(keyword.keyword());
        match find_identifier_span(rope, span, &needle, from_end) {
            Some(found) => {
                self.keyword_spans.push((found, keyword));
            },
            None => {},
        }
    }

    pub fn register_keyword(&mut self, rope: &Rope, span: Span, keyword: KeywordDoc)
        ensures
            final(self)@ == old(self)@.register_keyword(rope_text(*rope), span, keyword, false),
    {
        self.register_keyword_within(rope, span, keyword, false);
    }

    pub fn register_keyword_from_end(&mut self, rope: &Rope, span: Span, keyword: KeywordDoc)
        ensures
            final(self)@ == old(self)@.register_keyword(rope_text(*rope), span, keyword, true),
    {
        self.register_keyword_within(rope, span, keyword, true);
    }

    pub fn register_primitive(&mut self, rope: &Rope, span: Span, kind: &PrimType)
        ensures
            final(self)@ == old(self)@.register_primitive(rope_text(*rope), span, *kind),
    {
        let needle = chars_of(primitive_name(kind));
        match find_identifier_span(rope, span, &needle, false) {
            Some(found) => {
                self.primitive_spans.push((found, PrimitiveHover::Prim(*kind)));
            },
            None => {},
        }
    }

    pub fn register_blob(&mut self, rope: &Rope, span: Span)
        ensures
            final(self)@ == old(self)@.register_blob(rope_text(*rope), span),
    {
        let needle = chars_of("blob");
        match find_identifier_span(rope, span, &needle, false) {
            Some(found) => {
                self.primitive_spans.push((found, PrimitiveHover::Blob));
            },
            None => {},
        }
    }

    /// Declares a top-level type and returns its symbol.
    pub fn declare_type(&mut self, rope: &Rope, binding: &Binding) -> (symbol_id: SymbolId)
        ensures
            final(self)@ == old(self)@.declare_type(rope_text(*rope), *binding),
            symbol_id.0 == old(self)@.sem.table.symbols.len(),
    {
        let symbol_id = self.table.add_symbol(binding.span);
        let ident_span = compute_binding_ident_span(binding, rope);
        self.symbol_ident_spans.push(ident_span);
        let name = Some(binding.id.clone());
        self.symbol_ident_names.push(name);
        let doc = Some(TypeDoc { definition: render_binding(binding), docs: format_docs(&binding.docs) });
        self.type_docs.push(doc);
        env_push(&mut self.env, binding.id.clone(), binding.span);
        proof {
            lemma_deep_view_push(old(self).symbol_ident_names, self.symbol_ident_names, name);
            lemma_deep_view_push(old(self).type_docs, self.type_docs, doc);
        }
        symbol_id
    }

    /// Declares the symbol of an import.
    pub fn declare_import(&mut self, span: Span, path: &String, kind: ImportKind) -> (symbol_id: SymbolId)
        ensures
            final(self)@ == old(self)@.declare_import(span, path@, kind),
            symbol_id.0 == old(self)@.sem.table.symbols.len(),
    {
        let symbol_id = self.table.add_import(span, path.clone(), kind);
        self.symbol_ident_spans.push(None);
        self.symbol_ident_names.push(None);
        self.type_docs.push(None);
        proof {
            lemma_deep_view_push(old(self).symbol_ident_names, self.symbol_ident_names, None);
            lemma_deep_view_push(old(self).type_docs, self.type_docs, None);
        }
        symbol_id
    }

    pub fn register_field(&mut self, rope: &Rope, field: &TypeField)
        ensures
            final(self)@ == old(self)@.register_field(rope_text(*rope), *field),
    {
        let label_span = compute_field_label_span(field, rope);
        let type_span = if field.typ.span.start < field.typ.span.end {
            Some(field.typ.span)
        } else {
            None
        };
        let label_name = field_label_chars(&field.label);
        let metadata = FieldMetadata {
            span: field.span,
            label_span,
            type_span,
            docs: format_docs(&field.docs),
            parent_name: self.current_type_name(),
            label: Some(string_of(&label_name)),
        };
        let scope = self.current_scope();
        self.fields.push(metadata);
        proof {
            lemma_deep_view_push(old(self).fields, self.fields, metadata);
        }
        match (scope, label_span) {
            (Some(scope), Some(label_span)) => {
                let local = LocalBinding {
                    name: string_of(&label_name),
                    span: label_span,
                    scope,
                    is_definition: false,
                };
                self.locals.push(local);
                proof {
                    lemma_deep_view_push(old(self).locals, self.locals, local);
                }
            },
            _ => {},
        }
    }

    pub fn register_service_method(&mut self, rope: &Rope, binding: &Binding, parent_name: Option<String>)
        ensures
            final(self)@ == old(self)@.register_service_method(
                rope_text(*rope),
                *binding,
                parent_name.deep_view(),
            ),
    {
        let name_span = compute_binding_ident_span(binding, rope);
        let type_span = if binding.typ.span.start < binding.typ.span.end {
            Some(binding.typ.span)
        } else {
            None
        };
        let signature = match &binding.typ.kind {
            IDLType::FuncT(func) => Some(MethodSignature::from_func(func)),
            _ => None,
        };
        let metadata = MethodMetadata {
            span: binding.span,
            name_span,
            type_span,
            docs: format_docs(&binding.docs),
            parent_name,
            signature,
        };
        self.service_methods.push(metadata);
        proof {
            lemma_deep_view_push(old(self).service_methods, self.service_methods, metadata);
        }
    }

    pub fn register_function_params(&mut self, rope: &Rope, func_type: &FuncType, func_span: Span)
        ensures
            final(self)@ == old(self)@.register_function_params(rope_text(*rope), *func_type, func_span),
            final(self)@.sem.table == old(self)@.sem.table,
    {
        let mut cursor = args_region_start(rope, func_span);
        let mut i: usize = 0;
        while i < func_type.args.len()
            invariant
                i <= func_type.args.len(),
                (self@, cursor) == register_params_upto(
                    old(self)@,
                    rope_text(*rope),
                    func_span,
                    func_type.args@,
                    i as nat,
                ),
                self@.sem.table == old(self)@.sem.table,
            decreases func_type.args.len() - i,
        {
            let ghost before = self@;
            let ghost locals_before = self.locals;
            let arg = &func_type.args[i];
            if cursor > arg.span.start {
                cursor = arg.span.start;
            }
            let search = Span { start: cursor, end: arg.span.start };
            let name_span = compute_param_name_span(rope, search);
            let span_start = match name_span {
                Some(found) => found.start,
                None => arg.span.start,
            };
            let metadata = ParamMetadata {
                span: Span { start: span_start, end: arg.span.end },
                name_span,
                type_span: arg.span,
                role: ParamRole::Argument,
            };
            match name_span {
                Some(found) => {
                    proof {
                        let text = rope_text(*rope);
                        let slice = slice_text(text, search)->0;
                        let colon = crate::text::last_index_of(slice, ':')->0;
                        let head = slice.subrange(0, colon);
                        let candidate = head.subrange(
                            crate::span_search::after_last_delimiter(head),
                            head.len() as int,
                        );
                        let name = crate::text::trim_seq(candidate);
                        lemma_identifier_span_within(text, search, name, true);
                    }
                    match slice_span(rope, found) {
                        Some(name) => {
                            let local = LocalBinding {
                                name: string_of(&name),
                                span: found,
                                scope: func_span,
                                is_definition: true,
                            };
                            self.locals.push(local);
                            proof {
                                lemma_deep_view_push(locals_before, self.locals, local);
                            }
                        },
                        None => {
                            assert(false);
                        },
                    }
                },
                None => {},
            }
            self.params.push(metadata);
            cursor = arg.span.end;
            i += 1;
            assert((self@, cursor) == register_param(
                before,
                rope_text(*rope),
                func_span,
                register_params_upto(
                    old(self)@,
                    rope_text(*rope),
                    func_span,
                    func_type.args@,
                    (i - 1) as nat,
                ).1,
                func_type.args@[i - 1],
            ));
        }
    }
}

pub fn keyword_spans_contain(spans: &Vec<(Span, KeywordDoc)>, span: Span, keyword: KeywordDoc) -> (found:
    bool)
    ensures
        found == spans@.contains((span, keyword)),
{
    let mut i: usize = 0;
    while i < spans.len()
        invariant
            i <= spans.len(),
            forall|k: int| 0 <= k < i ==> spans@[k] != (span, keyword),
        decreases spans.len() - i,
    {
        if spans[i].0 == span && spans[i].1 == keyword {
            return true;
        }
        i += 1;
    }
    false
}

impl Ctx {
    pub fn register_import_keyword(&mut self, rope: &Rope, span: Span, path: &str)
        ensures
            final(self)@ == old(self)@.register_import_keyword(rope_text(*rope), span, path@),
    {
        let keyword = chars_of("import");
        if span.start < span.end {
            match rope_char_to_line(rope, span.start) {
                Some(line_idx) => {
                    match rope_line(rope, line_idx) {
                        Some((line_start, chars)) => {
                            let region = Span { start: line_start, end: line_start + chars.len() };
                            match find_identifier_span(rope, region, &keyword, false) {
                                Some(found) => {
                                    self.keyword_spans.push((found, KeywordDoc::Import));
                                    return ;
                                },
                                None => {},
                            }
                        },
                        None => {
                            assert(false);
                        },
                    }
                },
                None => {},
            }
        }
        let ghost on_line = if span.start < span.end && span.start <= rope_text(*rope).len() {
            identifier_span(
                rope_text(*rope),
                line_span(rope_text(*rope), text_line_of_char(rope_text(*rope), span.start as int)),
                "import"@,
                false,
            )
        } else {
            None
        };
        assert(on_line is None);
        let needle = chars_of(path);
        let mut quoted: Vec<char> = Vec::new();
        push_str_chars(&mut quoted, "\"");
        push_chars(&mut quoted, &needle);
        push_str_chars(&mut quoted, "\"");
        let lines = rope_len_lines(rope);
        let mut i: usize = 0;
        while i < lines
            invariant
                i <= lines,
                lines == text_line_count(rope_text(*rope)),
                keyword@ == "import"@,
                needle@ == path@,
                quoted@ == "\""@ + path@ + "\""@,
                *self == *old(self),
                on_line is None,
                on_line == (if span.start < span.end && span.start <= rope_text(*rope).len() {
                    identifier_span(
                        rope_text(*rope),
                        line_span(
                            rope_text(*rope),
                            text_line_of_char(rope_text(*rope), span.start as int),
                        ),
                        "import"@,
                        false,
                    )
                } else {
                    None
                }),
                import_keyword_in_lines(rope_text(*rope), path@, 0) == import_keyword_in_lines(
                    rope_text(*rope),
                    path@,
                    i as int,
                ),
            decreases lines - i,
        {
            match rope_line(rope, i) {
                Some((line_start, line)) => {
                    if contains(&line, &keyword) && (contains(&line, &needle) || contains(
                        &line,
                        &quoted,
                    )) {
                        match find_first(&line, &keyword) {
                            Some(idx) => {
                                assert(matches_at(line@, keyword@, idx as int));
                                let start = line_start + idx;
                                self.keyword_spans.push(
                                    (Span { start, end: start + keyword.len() }, KeywordDoc::Import),
                                );
                                return ;
                            },
                            None => {
                                assert(false);
                            },
                        }
                    }
                },
                None => {
                    assert(false);
                },
            }
            i += 1;
        }
    }

    pub fn register_import_keywords_from_text(&mut self, rope: &Rope)
        ensures
            final(self)@ == old(self)@.register_import_keywords_from_text(rope_text(*rope)),
            final(self)@.sem.table == old(self)@.sem.table,
    {
        let keyword = chars_of("import");
        let lines = rope_len_lines(rope);
        let mut i: usize = 0;
        while i < lines
            invariant
                i <= lines,
                lines == text_line_count(rope_text(*rope)),
                keyword@ == "import"@,
                self@ == register_import_lines_upto(old(self)@, rope_text(*rope), i as nat),
                self@.sem.table == old(self)@.sem.table,
            decreases lines - i,
        {
            match rope_line(rope, i) {
                Some((line_start, line)) => {
                    let leading = count_leading_ws(&line);
                    let trimmed = subvec(&line, leading, line.len());
                    if starts_with(&trimmed, &keyword) {
                        let follows = if trimmed.len() > keyword.len() {
                            let next = trimmed[keyword.len()];
                            char_is_whitespace(next) || next == '"'
                        } else {
                            true
                        };
                        if follows {
                            assert(matches_at(trimmed@, keyword@, 0));
                            let start = line_start + leading;
                            let span = Span { start, end: start + keyword.len() };
                            if !keyword_spans_contain(&self.keyword_spans, span, KeywordDoc::Import) {
                                self.keyword_spans.push((span, KeywordDoc::Import));
                            }
                        }
                    }
                },
                None => {
                    assert(false);
                },
            }
            i += 1;
        }
    }
}

/// The keyword of a function annotation.
pub open spec fn mode_keyword(mode: FuncMode) -> KeywordDoc {
    match mode {
        FuncMode::Query => KeywordDoc::Query,
        FuncMode::CompositeQuery => KeywordDoc::CompositeQuery,
        FuncMode::Oneway => KeywordDoc::Oneway,
    }
}

/// The keywords of the first `n` annotations of a function type, each the
/// last occurrence of its keyword inside the function type.
pub open spec fn register_modes_upto(st: AnalysisState, text: Seq<char>, span: Span, modes: Seq<FuncMode>, n: nat) -> AnalysisState
    decreases n,
{
    if n == 0 || n > modes.len() {
        st
    } else {
        register_modes_upto(st, text, span, modes, (n - 1) as nat).register_keyword(
            text,
            span,
            mode_keyword(modes[n - 1]),
            true,
        )
    }
}

impl AnalysisState {
    pub open spec fn with_reference(self, span: Span, symbol_id: Option<SymbolId>) -> AnalysisState {
        AnalysisState {
            sem: SemanticView { table: self.sem.table.with_reference(span, symbol_id), ..self.sem },
            ..self
        }
    }

    pub open spec fn with_actor(self, actor: ActorMetadataView) -> AnalysisState {
        AnalysisState { sem: SemanticView { actor: Some(actor), ..self.sem }, ..self }
    }
}

/// What the analysis of a type expression records, or the first name in it
/// that no top-level declaration defines.
pub open spec fn analyze_type_spec(st: AnalysisState, text: Seq<char>, ty: IDLTypeWithSpan) -> Result<
    AnalysisState,
    SemanticErrorView,
>
    decreases ty, 0nat,
{
    match ty.kind {
        IDLType::PrimT(kind) => Ok(st.register_primitive(text, ty.span, kind)),
        IDLType::PrincipalT => Ok(st.register_keyword(text, ty.span, KeywordDoc::Principal, false)),
        IDLType::VarT(name) => match env_lookup(st.env, name@) {
            None => Err(SemanticErrorView::UndefinedVariable { name: name@, span: ty.span }),
            Some(span) => match symbol_for_span(st.sem.table.symbols, span) {
                Some(id) => Ok(st.with_reference(ty.span, Some(id))),
                None => Ok(st),
            },
        },
        IDLType::FuncT(func) => analyze_func_spec(st, text, func, ty.span),
        IDLType::OptT(inner) => analyze_type_spec(
            st.register_keyword(text, ty.span, KeywordDoc::Opt, false),
            text,
            *inner,
        ),
        IDLType::VecT(inner) => analyze_type_spec(
            if span_text_is(text, ty.span, "blob"@) {
                st.register_blob(text, ty.span)
            } else {
                st.register_keyword(text, ty.span, KeywordDoc::Vec, false)
            },
            text,
            *inner,
        ),
        IDLType::RecordT(fields) => match analyze_fields_upto(
            st.register_keyword(text, ty.span, KeywordDoc::Record, false).push_scope(ty.span),
            text,
            fields@,
            fields@.len(),
        ) {
            Err(e) => Err(e),
            Ok(st1) => Ok(st1.pop_scope()),
        },
        IDLType::VariantT(fields) => match analyze_fields_upto(
            st.register_keyword(text, ty.span, KeywordDoc::Variant, false).push_scope(ty.span),
            text,
            fields@,
            fields@.len(),
        ) {
            Err(e) => Err(e),
            Ok(st1) => Ok(st1.pop_scope()),
        },
        IDLType::ServT(bindings) => {
            let st1 = st.register_keyword(text, ty.span, KeywordDoc::Service, false);
            analyze_methods_upto(st1, text, st1.current_type_name(), bindings@, bindings@.len())
        },
        IDLType::ClassT(args, ret) => match analyze_types_upto(st, text, args@, args@.len()) {
            Err(e) => Err(e),
            Ok(st1) => analyze_type_spec(st1, text, *ret),
        },
    }
}

/// The analysis of the first `n` types of a list, in order, stopping at the
/// first error.
pub open spec fn analyze_types_upto(st: AnalysisState, text: Seq<char>, types: Seq<IDLTypeWithSpan>, n: nat) -> Result<
    AnalysisState,
    SemanticErrorView,
>
    decreases types, n,
{
    if n == 0 || n > types.len() {
        Ok(st)
    } else {
        match analyze_types_upto(st, text, types, (n - 1) as nat) {
            Err(e) => Err(e),
            Ok(before) => analyze_type_spec(before, text, types[n - 1]),
        }
    }
}

/// The first `n` fields of a record or variant: each is recorded, then its
/// type is analysed.
pub open spec fn analyze_fields_upto(st: AnalysisState, text: Seq<char>, fields: Seq<TypeField>, n: nat) -> Result<
    AnalysisState,
    SemanticErrorView,
>
    decreases fields, n,
{
    if n == 0 || n > fields.len() {
        Ok(st)
    } else {
        match analyze_fields_upto(st, text, fields, (n - 1) as nat) {
            Err(e) => Err(e),
            Ok(before) => analyze_type_spec(
                before.register_field(text, fields[n - 1]),
                text,
                fields[n - 1].typ,
            ),
        }
    }
}

/// The first `n` methods of a service: each is recorded, then its type is analysed.
pub open spec fn analyze_methods_upto(
    st: AnalysisState,
    text: Seq<char>,
    parent_name: Option<Seq<char>>,
    bindings: Seq<Binding>,
    n: nat,
) -> Result<AnalysisState, SemanticErrorView>
    decreases bindings, n,
{
    if n == 0 || n > bindings.len() {
        Ok(st)
    } else {
        match analyze_methods_upto(st, text, parent_name, bindings, (n - 1) as nat) {
            Err(e) => Err(e),
            Ok(before) => analyze_type_spec(
                before.register_service_method(text, bindings[n - 1], parent_name),
                text,
                bindings[n - 1].typ,
            ),
        }
    }
}

/// Whether what an analysis step returned, and the state it left, are what
/// the specification of the step gives.
pub open spec fn step_matches(
    result: Result<(), SemanticError>,
    state: AnalysisState,
    expected: Result<AnalysisState, SemanticErrorView>,
) -> bool {
    match result {
        Ok(_) => expected == Ok::<AnalysisState, SemanticErrorView>(state),
        Err(e) => expected == Err::<AnalysisState, SemanticErrorView>(e.deep_view()),
    }
}

/// Once a type of a list is refused, the types after it change nothing.
pub proof fn lemma_types_error_stays(st: AnalysisState, text: Seq<char>, types: Seq<IDLTypeWithSpan>, n: nat, m: nat)
    requires
        n <= m <= types.len(),
        analyze_types_upto(st, text, types, n) is Err,
    ensures
        analyze_types_upto(st, text, types, m) == analyze_types_upto(st, text, types, n),
    decreases m,
{
    if m > n {
        lemma_types_error_stays(st, text, types, n, (m - 1) as nat);
    }
}

/// Once a field of a list is refused, the fields after it change nothing.
pub proof fn lemma_fields_error_stays(st: AnalysisState, text: Seq<char>, fields: Seq<TypeField>, n: nat, m: nat)
    requires
        n <= m <= fields.len(),
        analyze_fields_upto(st, text, fields, n) is Err,
    ensures
        analyze_fields_upto(st, text, fields, m) == analyze_fields_upto(st, text, fields, n),
    decreases m,
{
    if m > n {
        lemma_fields_error_stays(st, text, fields, n, (m - 1) as nat);
    }
}

/// Once a method of a service is refused, the methods after it change nothing.
pub proof fn lemma_methods_error_stays(
    st: AnalysisState,
    text: Seq<char>,
    parent_name: Option<Seq<char>>,
    bindings: Seq<Binding>,
    n: nat,
    m: nat,
)
    requires
        n <= m <= bindings.len(),
        analyze_methods_upto(st, text, parent_name, bindings, n) is Err,
    ensures
        analyze_methods_upto(st, text, parent_name, bindings, m) == analyze_methods_upto(
            st,
            text,
            parent_name,
            bindings,
            n,
        ),
    decreases m,
{
    if m > n {
        lemma_methods_error_stays(st, text, parent_name, bindings, n, (m - 1) as nat);
    }
}

/// Analyse a type expression: record what it declares and resolve the names
/// it uses.
pub fn analyze_type(idl_type: &IDLTypeWithSpan, ctx: &mut Ctx, rope: &Rope) -> (result: Result<
    (),
    SemanticError,
>)
    ensures
        step_matches(result, final(ctx)@, analyze_type_spec(old(ctx)@, rope_text(*rope), *idl_type)),
        old(ctx)@.sem.table.wf() && result is Ok ==> final(ctx)@.sem.table.wf(),
    decreases idl_type, 0nat,
{
    match &idl_type.kind {
        IDLType::PrimT(kind) => {
            ctx.register_primitive(rope, idl_type.span, kind);
            Ok(())
        },
        IDLType::PrincipalT => {
            ctx.register_keyword(rope, idl_type.span, KeywordDoc::Principal);
            Ok(())
        },
        IDLType::VarT(name) => {
            let span = match ctx.find_symbol(name.as_str()) {
                Some(span) => span,
                None => {
                    return Err(
                        SemanticError::UndefinedVariable { name: name.clone(), span: idl_type.span },
                    );
                },
            };
            match ctx.table.symbol_at(span) {
                Some(symbol_id) => {
                    ctx.table.add_reference(idl_type.span, Some(symbol_id));
                },
                None => {},
            }
            Ok(())
        },
        IDLType::FuncT(func_type) => analyze_func(func_type, idl_type.span, ctx, rope),
        IDLType::OptT(inner) => {
            ctx.register_keyword(rope, idl_type.span, KeywordDoc::Opt);
            analyze_type(inner, ctx, rope)
        },
        IDLType::VecT(inner) => {
            let blob = chars_of("blob");
            if span_text_eq(rope, idl_type.span, &blob) {
                ctx.register_blob(rope, idl_type.span);
            } else {
                ctx.register_keyword(rope, idl_type.span, KeywordDoc::Vec);
            }
            analyze_type(inner, ctx, rope)
        },
        IDLType::RecordT(type_fields) => {
            ctx.register_keyword(rope, idl_type.span, KeywordDoc::Record);
            ctx.push_scope(idl_type.span);
            match analyze_type_fields(type_fields, ctx, rope) {
                Ok(()) => {
                    ctx.pop_scope();
                    Ok(())
                },
                Err(e) => Err(e),
            }
        },
        IDLType::VariantT(type_fields) => {
            ctx.register_keyword(rope, idl_type.span, KeywordDoc::Variant);
            ctx.push_scope(idl_type.span);
            match analyze_type_fields(type_fields, ctx, rope) {
                Ok(()) => {
                    ctx.pop_scope();
                    Ok(())
                },
                Err(e) => Err(e),
            }
        },
        IDLType::ServT(bindings) => {
            ctx.register_keyword(rope, idl_type.span, KeywordDoc::Service);
            analyze_service_methods(bindings, ctx, rope)
        },
        IDLType::ClassT(args, ret) => {
            match analyze_types(args, ctx, rope) {
                Ok(()) => analyze_type(ret, ctx, rope),
                Err(e) => Err(e),
            }
        },
    }
}

/// What the analysis of a function type records.
pub open spec fn analyze_func_spec(st: AnalysisState, text: Seq<char>, func: FuncType, span: Span) -> Result<
    AnalysisState,
    SemanticErrorView,
>
    decreases func, 1nat,
{
    let st1 = st.register_keyword(text, span, KeywordDoc::Func, false).register_function_params(
        text,
        func,
        span,
    );
    let st2 = register_modes_upto(st1, text, span, func.modes@, func.modes@.len());
    match analyze_types_upto(st2, text, func.args@, func.args@.len()) {
        Err(e) => Err(e),
        Ok(st3) => analyze_types_upto(st3, text, func.rets@, func.rets@.len()),
    }
}

pub fn analyze_func(func_type: &FuncType, span: Span, ctx: &mut Ctx, rope: &Rope) -> (result: Result<
    (),
    SemanticError,
>)
    ensures
        step_matches(result, final(ctx)@, analyze_func_spec(old(ctx)@, rope_text(*rope), *func_type, span)),
        old(ctx)@.sem.table.wf() && result is Ok ==> final(ctx)@.sem.table.wf(),
    decreases func_type, 1nat,
{
    ctx.register_keyword(rope, span, KeywordDoc::Func);
    ctx.register_function_params(rope, func_type, span);
    let ghost st1 = ctx@;
    let mut i: usize = 0;
    while i < func_type.modes.len()
        invariant
            i <= func_type.modes.len(),
            ctx@ == register_modes_upto(st1, rope_text(*rope), span, func_type.modes@, i as nat),
            ctx@.sem.table == st1.sem.table,
        decreases func_type.modes.len() - i,
    {
        match func_type.modes[i] {
            FuncMode::Query => {
                ctx.register_keyword_from_end(rope, span, KeywordDoc::Query);
            },
            FuncMode::CompositeQuery => {
                ctx.register_keyword_from_end(rope, span, KeywordDoc::CompositeQuery);
            },
            FuncMode::Oneway => {
                ctx.register_keyword_from_end(rope, span, KeywordDoc::Oneway);
            },
        }
        i += 1;
    }
    match analyze_types(&func_type.args, ctx, rope) {
        Ok(()) => analyze_types(&func_type.rets, ctx, rope),
        Err(e) => Err(e),
    }
}

#[verifier::loop_isolation(false)]
pub fn analyze_types(types: &Vec<IDLTypeWithSpan>, ctx: &mut Ctx, rope: &Rope) -> (result: Result<
    (),
    SemanticError,
>)
    ensures
        step_matches(
            result,
            final(ctx)@,
            analyze_types_upto(old(ctx)@, rope_text(*rope), types@, types@.len()),
        ),
        old(ctx)@.sem.table.wf() && result is Ok ==> final(ctx)@.sem.table.wf(),
    decreases types, 1nat,
{
    let mut i: usize = 0;
    while i < types.len()
        invariant
            i <= types.len(),
            analyze_types_upto(old(ctx)@, rope_text(*rope), types@, i as nat) == Ok::<
                AnalysisState,
                SemanticErrorView,
            >(ctx@),
            old(ctx)@.sem.table.wf() ==> ctx@.sem.table.wf(),
        decreases types.len() - i,
    {
        match analyze_type(&types[i], ctx, rope) {
            Ok(()) => {},
            Err(e) => {
                proof {
                    lemma_types_error_stays(
                        old(ctx)@,
                        rope_text(*rope),
                        types@,
                        (i + 1) as nat,
                        types@.len(),
                    );
                }
                return Err(e);
            },
        }
        i += 1;
    }
    Ok(())
}

#[verifier::loop_isolation(false)]
pub fn analyze_type_fields(fields: &Vec<TypeField>, ctx: &mut Ctx, rope: &Rope) -> (result: Result<
    (),
    SemanticError,
>)
    ensures
        step_matches(
            result,
            final(ctx)@,
            analyze_fields_upto(old(ctx)@, rope_text(*rope), fields@, fields@.len()),
        ),
        old(ctx)@.sem.table.wf() && result is Ok ==> final(ctx)@.sem.table.wf(),
    decreases fields, 1nat,
{
    let mut i: usize = 0;
    while i < fields.len()
        invariant
            i <= fields.len(),
            analyze_fields_upto(old(ctx)@, rope_text(*rope), fields@, i as nat) == Ok::<
                AnalysisState,
                SemanticErrorView,
            >(ctx@),
            old(ctx)@.sem.table.wf() ==> ctx@.sem.table.wf(),
        decreases fields.len() - i,
    {
        ctx.register_field(rope, &fields[i]);
        match analyze_type(&fields[i].typ, ctx, rope) {
            Ok(()) => {},
            Err(e) => {
                proof {
                    lemma_fields_error_stays(
                        old(ctx)@,
                        rope_text(*rope),
                        fields@,
                        (i + 1) as nat,
                        fields@.len(),
                    );
                }
                return Err(e);
            },
        }
        i += 1;
    }
    Ok(())
}

#[verifier::loop_isolation(false)]
pub fn analyze_service_methods(bindings: &Vec<Binding>, ctx: &mut Ctx, rope: &Rope) -> (result: Result<
    (),
    SemanticError,
>)
    ensures
        step_matches(
            result,
            final(ctx)@,
            analyze_methods_upto(
                old(ctx)@,
                rope_text(*rope),
                old(ctx)@.current_type_name(),
                bindings@,
                bindings@.len(),
            ),
        ),
        old(ctx)@.sem.table.wf() && result is Ok ==> final(ctx)@.sem.table.wf(),
    decreases bindings, 1nat,
{
    let parent_name = ctx.current_type_name();
    let mut i: usize = 0;
    while i < bindings.len()
        invariant
            i <= bindings.len(),
            parent_name.deep_view() == old(ctx)@.current_type_name(),
            analyze_methods_upto(
                old(ctx)@,
                rope_text(*rope),
                old(ctx)@.current_type_name(),
                bindings@,
                i as nat,
            ) == Ok::<AnalysisState, SemanticErrorView>(ctx@),
            old(ctx)@.sem.table.wf() ==> ctx@.sem.table.wf(),
        decreases bindings.len() - i,
    {
        ctx.register_service_method(rope, &bindings[i], parent_name.clone());
        match analyze_type(&bindings[i].typ, ctx, rope) {
            Ok(()) => {},
            Err(e) => {
                proof {
                    lemma_methods_error_stays(
                        old(ctx)@,
                        rope_text(*rope),
                        old(ctx)@.current_type_name(),
                        bindings@,
                        (i + 1) as nat,
                        bindings@.len(),
                    );
                }
                return Err(e);
            },
        }
        i += 1;
    }
    Ok(())
}

/// The first phase of a pass over a declaration: a type is declared under
/// its name, an import gets its symbol, and the keyword that introduces the
/// declaration is recorded.
pub open spec fn hoist_dec(st: AnalysisState, text: Seq<char>, dec: Dec) -> AnalysisState {
    match dec {
        Dec::TypD(binding) => st.register_keyword(text, binding.span, KeywordDoc::Type, false).declare_type(
            text,
            binding,
        ),
        Dec::ImportType { path, span } => st.declare_import(
            span,
            path@,
            ImportKind::Type,
        ).register_import_keyword(text, span, path@),
        Dec::ImportServ { path, span } => st.declare_import(
            span,
            path@,
            ImportKind::Service,
        ).register_import_keyword(text, span, path@),
    }
}

/// The first phase over the first `n` declarations.
pub open spec fn hoist_upto(st: AnalysisState, text: Seq<char>, decs: Seq<Dec>, n: nat) -> AnalysisState
    decreases n,
{
    if n == 0 || n > decs.len() {
        st
    } else {
        hoist_dec(hoist_upto(st, text, decs, (n - 1) as nat), text, decs[n - 1])
    }
}

/// The second phase of a pass over a declaration: the body of a type is
/// analysed under the type's name. An import has no body.
pub open spec fn analyze_dec_spec(st: AnalysisState, text: Seq<char>, dec: Dec) -> Result<
    AnalysisState,
    SemanticErrorView,
> {
    match dec {
        Dec::TypD(binding) => match analyze_type_spec(
            st.push_type_name(Some(binding.id@)),
            text,
            binding.typ,
        ) {
            Err(e) => Err(e),
            Ok(st1) => Ok(st1.pop_type_name()),
        },
        _ => Ok(st),
    }
}

/// The second phase over the first `n` declarations, stopping at the first error.
pub open spec fn analyze_decs_upto(st: AnalysisState, text: Seq<char>, decs: Seq<Dec>, n: nat) -> Result<
    AnalysisState,
    SemanticErrorView,
>
    decreases n,
{
    if n == 0 || n > decs.len() {
        Ok(st)
    } else {
        match analyze_decs_upto(st, text, decs, (n - 1) as nat) {
            Err(e) => Err(e),
            Ok(before) => analyze_dec_spec(before, text, decs[n - 1]),
        }
    }
}

/// Once a declaration is refused, the declarations after it change nothing.
pub proof fn lemma_decs_error_stays(st: AnalysisState, text: Seq<char>, decs: Seq<Dec>, n: nat, m: nat)
    requires
        n <= m <= decs.len(),
        analyze_decs_upto(st, text, decs, n) is Err,
    ensures
        analyze_decs_upto(st, text, decs, m) == analyze_decs_upto(st, text, decs, n),
    decreases m,
{
    if m > n {
        lemma_decs_error_stays(st, text, decs, n, (m - 1) as nat);
    }
}

/// The name of the top-level service as written in the text.
pub open spec fn actor_name_text(text: Seq<char>, actor_span: Span) -> Option<Seq<char>> {
    match actor_name_span(text, actor_span) {
        Some(found) => Some(text.subrange(found.start as int, found.end as int)),
        None => None,
    }
}

/// The analysis of the top-level service: its metadata is recorded and its
/// type is analysed under its name.
pub open spec fn analyze_actor_spec(st: AnalysisState, text: Seq<char>, actor: IDLActorType) -> Result<
    AnalysisState,
    SemanticErrorView,
> {
    let metadata = ActorMetadataView {
        span: actor.span,
        name_span: actor_name_span(text, actor.span),
        docs: formatted_docs(actor.docs.deep_view()),
        definition: actor_declaration_text(actor_name_text(text, actor.span), actor.typ),
    };
    match analyze_type_spec(
        st.register_keyword(text, actor.span, KeywordDoc::Service, false).with_actor(
            metadata,
        ).push_type_name(actor_name_text(text, actor.span)),
        text,
        actor.typ,
    ) {
        Err(e) => Err(e),
        Ok(st1) => Ok(st1.pop_type_name()),
    }
}

/// The state at the end of a whole pass: every declaration is hoisted, then
/// every body is analysed, then the actor, and last the `import` keywords
/// that begin a line are recorded.
pub open spec fn analyze_program_state(ast: IDLProg, text: Seq<char>) -> Result<
    AnalysisState,
    SemanticErrorView,
> {
    let hoisted = hoist_upto(AnalysisState::empty(), text, ast.decs@, ast.decs@.len());
    match analyze_decs_upto(hoisted, text, ast.decs@, ast.decs@.len()) {
        Err(e) => Err(e),
        Ok(st1) => {
            let with_actor = match ast.actor {
                Some(actor) => analyze_actor_spec(st1, text, actor),
                None => Ok(st1),
            };
            match with_actor {
                Err(e) => Err(e),
                Ok(st2) => Ok(st2.register_import_keywords_from_text(text)),
            }
        },
    }
}

/// The span of the service's name is not empty and lies in the text.
pub proof fn lemma_actor_name_span_within(text: Seq<char>, actor_span: Span)
    ensures
        actor_name_span(text, actor_span) matches Some(found) ==> found.start < found.end && found.end
            <= text.len(),
{
    if let Some(colon) = char_in_span(text, actor_span, ':') {
        let search = Span { start: actor_span.start, end: colon as usize };
        let head = trim_start_seq(text.subrange(actor_span.start as int, colon));
        if starts_with_seq(head, "service"@) {
            let rest = trim_start_seq(head.subrange("service"@.len() as int, head.len() as int));
            if rest.len() != 0 {
                lemma_identifier_span_within(text, search, first_word(rest), false);
            }
        }
    }
}

pub fn hoist_declaration(dec: &Dec, ctx: &mut Ctx, rope: &Rope)
    ensures
        final(ctx)@ == hoist_dec(old(ctx)@, rope_text(*rope), *dec),
        old(ctx)@.sem.table.wf() ==> final(ctx)@.sem.table.wf(),
{
    match dec {
        Dec::TypD(binding) => {
            ctx.register_keyword(rope, binding.span, KeywordDoc::Type);
            ctx.declare_type(rope, binding);
        },
        Dec::ImportType { path, span } => {
            ctx.declare_import(*span, path, ImportKind::Type);
            ctx.register_import_keyword(rope, *span, path.as_str());
        },
        Dec::ImportServ { path, span } => {
            ctx.declare_import(*span, path, ImportKind::Service);
            ctx.register_import_keyword(rope, *span, path.as_str());
        },
    }
}

pub fn analyze_dec(dec: &Dec, ctx: &mut Ctx, rope: &Rope) -> (result: Result<(), SemanticError>)
    ensures
        step_matches(result, final(ctx)@, analyze_dec_spec(old(ctx)@, rope_text(*rope), *dec)),
        old(ctx)@.sem.table.wf() && result is Ok ==> final(ctx)@.sem.table.wf(),
{
    match dec {
        Dec::TypD(binding) => {
            ctx.push_type_name(Some(binding.id.clone()));
            let result = analyze_type(&binding.typ, ctx, rope);
            ctx.pop_type_name();
            result
        },
        Dec::ImportType { .. } => Ok(()),
        Dec::ImportServ { .. } => Ok(()),
    }
}

pub fn analyze_actor(actor: &IDLActorType, ctx: &mut Ctx, rope: &Rope) -> (result: Result<
    (),
    SemanticError,
>)
    ensures
        step_matches(result, final(ctx)@, analyze_actor_spec(old(ctx)@, rope_text(*rope), *actor)),
        old(ctx)@.sem.table.wf() && result is Ok ==> final(ctx)@.sem.table.wf(),
{
    ctx.register_keyword(rope, actor.span, KeywordDoc::Service);
    let docs = format_docs(&actor.docs);
    let name_span = compute_actor_name_span(rope, actor.span);
    proof {
        lemma_actor_name_span_within(rope_text(*rope), actor.span);
    }
    let name_text: Option<String> = match name_span {
        Some(found) => match slice_span(rope, found) {
            Some(chars) => Some(string_of(&chars)),
            None => None,
        },
        None => None,
    };
    assert(name_text.deep_view() == actor_name_text(rope_text(*rope), actor.span));
    let definition = match &name_text {
        Some(name) => render_actor_declaration(Some(name.as_str()), &actor.typ),
        None => render_actor_declaration(None, &actor.typ),
    };
    ctx.actor = Some(ActorMetadata { span: actor.span, name_span, docs, definition });
    ctx.push_type_name(name_text);
    let result = analyze_type(&actor.typ, ctx, rope);
    ctx.pop_type_name();
    result
}

} // verus!
