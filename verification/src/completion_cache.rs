//! The per-document completion cache and the choice of a completion context.
//!
//! The cache is stamped with the version of the document it was built for.
//! Its two parts, the classification spans and the scope index, are computed
//! on first use and kept.
use crate::context_spans::{
    rope_text_opt, spans_from_sources, CompletionContext, ContextSpans, ContextSpansView,
};
use crate::cursor_context::{
    cursor_context_of, heuristic_context, heuristic_context_from_cursor, CursorContext,
    CursorContextView,
};
use crate::rope::rope_text;
use crate::scope_index::{is_scope_index, ScopeBindingIndex, ScopeBindingsView};
use crate::semantic_analyze::{Semantic, SemanticView};
use crate::syntax::IDLProg;
use ropey::Rope;
use vstd::prelude::*;

verus! {

/// What a completion request may reuse from the analysis of a document: the
/// context spans and the scope index, each computed when first asked for,
/// and the version of the document that they were computed for.
pub struct CompletionDocumentCache {
    /// The classification spans, once they have been computed.
    pub spans: Option<Option<ContextSpans>>,
    /// The scope index, once it has been computed.
    pub scope_index: Option<Option<ScopeBindingIndex>>,
    pub has_ast: bool,
    pub has_semantic: bool,
    pub version: Option<i32>,
}

pub struct CompletionDocumentCacheView {
    pub spans: Option<Option<ContextSpansView>>,
    pub scope_index: Option<Option<Seq<ScopeBindingsView>>>,
    pub has_ast: bool,
    pub has_semantic: bool,
    pub version: Option<i32>,
}

/// Freshness: a cache stamped with a version is fresh for the requests that
/// name that version and for those that name none, and stale for the
/// requests that name another version. A cache without a version is fresh
/// for every request.
pub open spec fn fresh_for(stamped: Option<i32>, requested: Option<i32>) -> bool {
    match (stamped, requested) {
        (Some(expected), Some(actual)) => expected == actual,
        _ => true,
    }
}

pub open spec fn ast_opt(ast: Option<&IDLProg>) -> Option<IDLProg> {
    match ast {
        Some(ast) => Some(*ast),
        None => None,
    }
}

pub open spec fn semantic_opt(semantic: Option<&Semantic>) -> Option<SemanticView> {
    match semantic {
        Some(semantic) => Some(semantic.deep_view()),
        None => None,
    }
}

impl CompletionDocumentCacheView {
    pub open spec fn serves_spans(self, version: Option<i32>) -> bool {
        (self.has_ast || self.has_semantic) && fresh_for(self.version, version)
    }

    pub open spec fn serves_scope_index(self, version: Option<i32>) -> bool {
        self.has_semantic && fresh_for(self.version, version)
    }

    /// The cache after its spans have been asked for: a cache that serves
    /// the request and has not computed them yet computes them now.
    pub open spec fn with_spans(
        self,
        version: Option<i32>,
        ast: Option<IDLProg>,
        sem: Option<SemanticView>,
        text: Option<Seq<char>>,
    ) -> CompletionDocumentCacheView {
        if self.serves_spans(version) && self.spans is None {
            CompletionDocumentCacheView { spans: Some(spans_from_sources(ast, sem, text)), ..self }
        } else {
            self
        }
    }

    /// The spans that the cache hands out for a request.
    pub open spec fn readable_spans(self, version: Option<i32>) -> Option<ContextSpansView> {
        if self.serves_spans(version) {
            match self.spans {
                Some(Some(spans)) => Some(spans),
                _ => None,
            }
        } else {
            None
        }
    }

    /// The scope index that the cache hands out for a request.
    pub open spec fn readable_scope_index(self, version: Option<i32>) -> Option<Seq<ScopeBindingsView>> {
        if self.serves_scope_index(version) {
            match self.scope_index {
                Some(Some(index)) => Some(index),
                _ => None,
            }
        } else {
            None
        }
    }
}

/// Whether `index` is the scope index of the semantic index at hand.
pub open spec fn is_scope_index_of(sem: Option<SemanticView>, index: Option<Seq<ScopeBindingsView>>) -> bool {
    match sem {
        None => index is None,
        Some(sem) => match index {
            None => sem.locals.len() == 0,
            Some(scopes) => sem.locals.len() > 0 && is_scope_index(sem.locals, scopes),
        },
    }
}

impl View for CompletionDocumentCache {
    type V = CompletionDocumentCacheView;

    open spec fn view(&self) -> CompletionDocumentCacheView {
        CompletionDocumentCacheView {
            spans: match self.spans {
                Some(Some(spans)) => Some(Some(spans@)),
                Some(None) => Some(None),
                None => None,
            },
            scope_index: match self.scope_index {
                Some(Some(index)) => Some(Some(index.scopes.deep_view())),
                Some(None) => Some(None),
                None => None,
            },
            has_ast: self.has_ast,
            has_semantic: self.has_semantic,
            version: self.version,
        }
    }
}

impl CompletionDocumentCache {
    /// A cache for a document of which a syntax tree or a semantic index is
    /// at hand; no cache where neither is.
    pub fn build(ast: Option<&IDLProg>, semantic: Option<&Semantic>, version: Option<i32>) -> (cache:
        Option<CompletionDocumentCache>)
        ensures
            cache is None <==> (ast is None && semantic is None),
            cache matches Some(built) ==> built@ == (CompletionDocumentCacheView {
                spans: None,
                scope_index: None,
                has_ast: ast is Some,
                has_semantic: semantic is Some,
                version,
            }),
    {
        let has_ast = ast.is_some();
        let has_semantic = semantic.is_some();
        if !has_ast && !has_semantic {
            None
        } else {
            Some(
                CompletionDocumentCache {
                    spans: None,
                    scope_index: None,
                    has_ast,
                    has_semantic,
                    version,
                },
            )
        }
    }

    /// Whether the cache may serve a request for the given version.
    pub fn is_fresh(&self, version: Option<i32>) -> (fresh: bool)
        ensures
            fresh == fresh_for(self.version, version),
    {
        match (self.version, version) {
            (Some(expected), Some(actual)) => expected == actual,
            _ => true,
        }
    }

    /// Compute the classification spans unless the cache has them already
    /// or does not serve the request.
    pub fn fill_spans(
        &mut self,
        version: Option<i32>,
        ast: Option<&IDLProg>,
        semantic: Option<&Semantic>,
        rope: Option<&Rope>,
    )
        ensures
            final(self)@ == old(self)@.with_spans(
                version,
                ast_opt(ast),
                semantic_opt(semantic),
                rope_text_opt(rope),
            ),
    {
        if !self.has_ast && !self.has_semantic {
            return ;
        }
        if !self.is_fresh(version) {
            return ;
        }
        if self.spans.is_none() {
            self.spans = Some(ContextSpans::from_sources(ast, semantic, rope));
        }
    }

    /// The classification spans, where the cache serves the request and
    /// has them.
    pub fn spans(&self, version: Option<i32>) -> (spans: Option<&ContextSpans>)
        ensures
            match spans {
                Some(found) => self@.readable_spans(version) == Some(found@),
                None => self@.readable_spans(version) is None,
            },
    {
        if !self.has_ast && !self.has_semantic {
            return None;
        }
        if !self.is_fresh(version) {
            return None;
        }
        match &self.spans {
            Some(Some(spans)) => Some(spans),
            _ => None,
        }
    }

    /// Compute the scope index unless the cache has it already or does not
    /// serve the request.
    pub fn fill_scope_index(&mut self, semantic: Option<&Semantic>, version: Option<i32>)
        ensures
            final(self)@.spans == old(self)@.spans,
            final(self)@.has_ast == old(self)@.has_ast,
            final(self)@.has_semantic == old(self)@.has_semantic,
            final(self)@.version == old(self)@.version,
            !(old(self)@.serves_scope_index(version) && old(self)@.scope_index is None) ==> final(self)@
                == old(self)@,
            old(self)@.serves_scope_index(version) && old(self)@.scope_index is None ==> (final(self)@.scope_index is Some)
                && is_scope_index_of(semantic_opt(semantic), final(self)@.scope_index->0),
    {
        if !self.has_semantic {
            return ;
        }
        if !self.is_fresh(version) {
            return ;
        }
        if self.scope_index.is_none() {
            self.scope_index = Some(
                match semantic {
                    Some(semantic) => ScopeBindingIndex::from_semantic(semantic),
                    None => None,
                },
            );
        }
    }

    /// The scope index, where the cache serves the request and has it.
    pub fn scope_index(&self, version: Option<i32>) -> (index: Option<&ScopeBindingIndex>)
        ensures
            match index {
                Some(found) => self@.readable_scope_index(version) == Some(found.scopes.deep_view()),
                None => self@.readable_scope_index(version) is None,
            },
    {
        if !self.has_semantic {
            return None;
        }
        if !self.is_fresh(version) {
            return None;
        }
        match &self.scope_index {
            Some(Some(index)) => Some(index),
            _ => None,
        }
    }
}

/// Whether the heuristic's answer is taken as it is.
pub open spec fn is_unambiguous(context: CompletionContext) -> bool {
    context == CompletionContext::Value || context == CompletionContext::TopLevel || context
        == CompletionContext::Definition || context == CompletionContext::Comment
}

/// The classification of `offset` by spans that may be missing.
pub open spec fn classified_by(spans: Option<ContextSpansView>, offset: usize) -> CompletionContext {
    match spans {
        Some(spans) => spans.classify(offset),
        None => CompletionContext::Unknown,
    }
}

/// The order in which the signals decide: an unambiguous heuristic answer
/// first, then a definite classification by the cached spans, then one by
/// freshly collected spans, and the heuristic's answer last.
pub open spec fn resolve_context(
    heuristic: CompletionContext,
    cached: CompletionContext,
    computed: CompletionContext,
) -> CompletionContext {
    if is_unambiguous(heuristic) {
        heuristic
    } else if cached != CompletionContext::Unknown {
        cached
    } else if computed != CompletionContext::Unknown {
        computed
    } else {
        heuristic
    }
}

pub open spec fn cursor_view(cursor_context: Option<&CursorContext>, text: Seq<char>, offset: usize) -> CursorContextView {
    match cursor_context {
        Some(context) => context@,
        None => cursor_context_of(text, offset),
    }
}

pub open spec fn cache_after(
    cached: Option<CompletionDocumentCache>,
    version: Option<i32>,
    ast: Option<IDLProg>,
    sem: Option<SemanticView>,
    text: Seq<char>,
) -> Option<CompletionDocumentCacheView> {
    match cached {
        Some(cache) => Some(cache@.with_spans(version, ast, sem, Some(text))),
        None => None,
    }
}

pub open spec fn cache_view(cached: Option<CompletionDocumentCache>) -> Option<CompletionDocumentCacheView> {
    match cached {
        Some(cache) => Some(cache@),
        None => None,
    }
}

/// The spans that a cache, if there is one, hands out after it was asked.
pub open spec fn cached_spans_after(
    cached: Option<CompletionDocumentCache>,
    version: Option<i32>,
    ast: Option<IDLProg>,
    sem: Option<SemanticView>,
    text: Seq<char>,
) -> Option<ContextSpansView> {
    match cached {
        Some(cache) => cache@.with_spans(version, ast, sem, Some(text)).readable_spans(version),
        None => None,
    }
}

/// Decide what kind of completion is appropriate at `offset`. A request
/// without an offset has no context. The cache is asked only where the
/// heuristic does not decide.
pub fn determine_context(
    offset: Option<usize>,
    cached: &mut Option<CompletionDocumentCache>,
    semantic: Option<&Semantic>,
    ast: Option<&IDLProg>,
    rope: &Rope,
    cursor_context: Option<&CursorContext>,
    version: Option<i32>,
) -> (context: CompletionContext)
    ensures
        offset is None ==> context == CompletionContext::Unknown && cache_view(*final(cached))
            == cache_view(*old(cached)),
        offset matches Some(at) ==> {
            let heuristic = heuristic_context(cursor_view(cursor_context, rope_text(*rope), at));
            &&& context == resolve_context(
                heuristic,
                classified_by(
                    cached_spans_after(
                        *old(cached),
                        version,
                        ast_opt(ast),
                        semantic_opt(semantic),
                        rope_text(*rope),
                    ),
                    at,
                ),
                classified_by(
                    spans_from_sources(ast_opt(ast), semantic_opt(semantic), Some(rope_text(*rope))),
                    at,
                ),
            )
            &&& cache_view(*final(cached)) == (if is_unambiguous(heuristic) {
                cache_view(*old(cached))
            } else {
                cache_after(
                    *old(cached),
                    version,
                    ast_opt(ast),
                    semantic_opt(semantic),
                    rope_text(*rope),
                )
            })
        },
{
    let offset = match offset {
        Some(offset) => offset,
        None => {
            return CompletionContext::Unknown;
        },
    };
    let heuristic = match cursor_context {
        Some(cursor_context) => heuristic_context_from_cursor(cursor_context),
        None => {
            let derived = CursorContext::new(rope, offset);
            heuristic_context_from_cursor(&derived)
        },
    };
    match heuristic {
        CompletionContext::Value => {
            return heuristic;
        },
        CompletionContext::TopLevel => {
            return heuristic;
        },
        CompletionContext::Definition => {
            return heuristic;
        },
        CompletionContext::Comment => {
            return heuristic;
        },
        _ => {},
    }
    match cached {
        Some(cache) => {
            cache.fill_spans(version, ast, semantic, Some(rope));
            match cache.spans(version) {
                Some(spans) => {
                    let context = spans.classify(offset);
                    match context {
                        CompletionContext::Unknown => {},
                        _ => {
                            return context;
                        },
                    }
                },
                None => {},
            }
        },
        None => {},
    }
    match ContextSpans::from_sources(ast, semantic, Some(rope)) {
        Some(spans) => {
            let context = spans.classify(offset);
            match context {
                CompletionContext::Unknown => {},
                _ => {
                    return context;
                },
            }
        },
        None => {},
    }
    heuristic
}

/// The freshness rule: a cache stamped with a version is fresh for a request
/// for that version and stale for a request for another version. Only a
/// request that names a version can find a cache stale.
pub proof fn lemma_freshness_rule(stamped: i32, other: i32)
    requires
        other != stamped,
    ensures
        fresh_for(Some(stamped), Some(stamped)),
        !fresh_for(Some(stamped), Some(other)),
        forall|cache: Option<i32>, requested: Option<i32>|
            !fresh_for(cache, requested) ==> cache is Some && requested is Some && cache != requested,
{
}

} // verus!
