//! Snapshots of a document and of its analysis, and the edits that
//! replace them.
use crate::completion_cache::{CompletionDocumentCache, CompletionDocumentCacheView};
use crate::offset_cache::{has_key, inserted, is_first_hit, HoverCacheEntryView, HoverOffsetCache};
use crate::position::{position_in_text, position_to_offset, Position};
use crate::rope::{
    rope_from_str, rope_insert, rope_len_chars, rope_remove, rope_text, text_line_start,
};
use crate::semantic_analyze::{analyze_program, analyze_program_spec, Semantic, SemanticError};
use crate::syntax::IDLProg;
use ropey::Rope;
use vstd::prelude::*;

verus! {

/// The text of an open document and the version the client gave it.
pub struct DocumentSnapshot {
    pub rope: Rope,
    pub version: Option<i32>,
}

impl DocumentSnapshot {
    /// A snapshot of a text at a version.
    pub fn new(rope: Rope, version: Option<i32>) -> (snapshot: DocumentSnapshot)
        ensures
            snapshot.rope == rope,
            snapshot.version == version,
    {
        DocumentSnapshot { rope, version }
    }

    pub fn rope(&self) -> (rope: &Rope)
        ensures
            *rope == self.rope,
    {
        &self.rope
    }

    pub fn version(&self) -> (version: Option<i32>)
        ensures
            version == self.version,
    {
        self.version
    }
}

/// What is known of a document after its text was parsed and analysed.
pub struct AnalysisSnapshot {
    pub ast: Option<IDLProg>,
    /// The semantic index; absent where the analysis failed.
    pub semantic: Option<Semantic>,
    pub completion_cache: Option<CompletionDocumentCache>,
    pub parse_errors: usize,
    pub version: Option<i32>,
}

impl AnalysisSnapshot {
    /// A snapshot of an analysis.
    pub fn new(
        ast: Option<IDLProg>,
        semantic: Option<Semantic>,
        completion_cache: Option<CompletionDocumentCache>,
        parse_errors: usize,
        version: Option<i32>,
    ) -> (snapshot: AnalysisSnapshot)
        ensures
            snapshot.ast == ast,
            snapshot.semantic == semantic,
            snapshot.completion_cache == completion_cache,
            snapshot.parse_errors == parse_errors,
            snapshot.version == version,
    {
        AnalysisSnapshot { ast, semantic, completion_cache, parse_errors, version }
    }

    pub fn ast(&self) -> (ast: Option<&IDLProg>)
        ensures
            ast is Some <==> self.ast is Some,
            ast matches Some(found) ==> *found == self.ast->0,
    {
        self.ast.as_ref()
    }

    pub fn semantic(&self) -> (semantic: Option<&Semantic>)
        ensures
            semantic is Some <==> self.semantic is Some,
            semantic matches Some(found) ==> *found == self.semantic->0,
    {
        self.semantic.as_ref()
    }

    pub fn completion_cache(&self) -> (cache: Option<&CompletionDocumentCache>)
        ensures
            cache is Some <==> self.completion_cache is Some,
            cache matches Some(found) ==> *found == self.completion_cache->0,
    {
        self.completion_cache.as_ref()
    }

    pub fn has_parse_errors(&self) -> (has: bool)
        ensures
            has == (self.parse_errors > 0),
    {
        self.parse_errors > 0
    }

    pub fn version(&self) -> (version: Option<i32>)
        ensures
            version == self.version,
    {
        self.version
    }
}

/// Analyse a freshly parsed document. A document without a syntax tree has
/// no snapshot. Otherwise the snapshot holds the tree, the parse error
/// count and the version. Where the analysis succeeds it also holds the
/// semantic index and an unused completion cache stamped with the version;
/// where it fails it holds neither, and the error is handed back.
pub fn analyze_document(ast: Option<IDLProg>, rope: &Rope, parse_errors: usize, version: Option<i32>) -> (result:
    (Option<AnalysisSnapshot>, Option<SemanticError>))
    ensures
        ast is None ==> result.0 is None && result.1 is None,
        ast matches Some(tree) ==> {
            &&& result.0 matches Some(snapshot)
            &&& snapshot.ast == Some(tree)
            &&& snapshot.parse_errors == parse_errors
            &&& snapshot.version == version
            &&& match analyze_program_spec(tree, rope_text(*rope)) {
                Ok(sem) => {
                    &&& result.1 is None
                    &&& snapshot.semantic matches Some(semantic)
                    &&& semantic.deep_view() == sem
                    &&& semantic.wf()
                    &&& snapshot.completion_cache matches Some(cache)
                    &&& cache@ == (CompletionDocumentCacheView {
                        spans: None,
                        scope_index: None,
                        has_ast: true,
                        has_semantic: true,
                        version,
                    })
                },
                Err(e) => {
                    &&& snapshot.semantic is None
                    &&& snapshot.completion_cache is None
                    &&& result.1 matches Some(err)
                    &&& err.deep_view() == e
                },
            }
        },
{
    let ast = match ast {
        Some(ast) => ast,
        None => {
            return (None, None);
        },
    };
    match analyze_program(&ast, rope) {
        Ok(semantic) => {
            let completion_cache = CompletionDocumentCache::build(Some(&ast), Some(&semantic), version);
            (
                Some(
                    AnalysisSnapshot::new(
                        Some(ast),
                        Some(semantic),
                        completion_cache,
                        parse_errors,
                        version,
                    ),
                ),
                None,
            )
        },
        Err(err) => (
            Some(AnalysisSnapshot::new(Some(ast), None, None, parse_errors, version)),
            Some(err),
        ),
    }
}

/// The offset of a position, from the cache where the cache knows it.
/// A position that the cache does not know is converted and remembered.
pub fn cached_position_to_offset(
    cache: &mut HoverOffsetCache,
    uri: &str,
    position: Position,
    rope: &Rope,
    version: Option<i32>,
) -> (offset: Option<usize>)
    requires
        old(cache).wf(),
    ensures
        final(cache).wf(),
        final(cache).capacity == old(cache).capacity,
        has_key(old(cache).entries.deep_view(), uri@, version, position) ==> exists|i: int|
            is_first_hit(old(cache).entries.deep_view(), uri@, version, position, i) && offset == Some(
                (#[trigger] old(cache).entries.deep_view()[i]).offset,
            ) && final(cache).entries.deep_view() == old(cache).entries.deep_view().remove(i).push(
                old(cache).entries.deep_view()[i],
            ),
        !has_key(old(cache).entries.deep_view(), uri@, version, position) ==> {
            &&& offset is Some <==> position_in_text(rope_text(*rope), position)
            &&& offset matches Some(found) ==> found == text_line_start(
                rope_text(*rope),
                position.line as int,
            ) + position.character && final(cache).entries.deep_view() == inserted(
                old(cache).entries.deep_view(),
                old(cache).capacity,
                HoverCacheEntryView {
                    uri: uri@,
                    version,
                    line: position.line,
                    column: position.character,
                    offset: found,
                },
            )
            &&& offset is None ==> final(cache).entries.deep_view() == old(cache).entries.deep_view()
        },
{
    match cache.lookup(uri, version, &position) {
        Some(offset) => {
            return Some(offset);
        },
        None => {},
    }
    let offset = match position_to_offset(position, rope) {
        Some(offset) => offset,
        None => {
            return None;
        },
    };
    cache.insert(uri.to_owned(), version, position, offset);
    Some(offset)
}

/// The text after a range of it has been replaced.
pub open spec fn replaced(text: Seq<char>, start: int, end: int, with: Seq<char>) -> Seq<char> {
    text.subrange(0, start) + with + text.subrange(end, text.len() as int)
}

/// Where an end of an edited range lies in the text: at its offset cut to
/// the length of the text, or at the fallback where it has no offset.
pub open spec fn edit_offset(offset: Option<usize>, fallback: int, len: int) -> int {
    let raw = match offset {
        Some(offset) => offset as int,
        None => fallback,
    };
    if raw <= len {
        raw
    } else {
        len
    }
}

/// Apply one content change to the text. A change without a range replaces
/// the whole text. The start of a range that has no offset is the end of
/// the text, and an end that has none is the start; both are cut to the
/// length of the text. A range that ends before it starts changes nothing.
pub fn apply_content_change(rope: &mut Rope, start: Option<usize>, end: Option<usize>, ranged: bool, text: &str)
    ensures
        !ranged ==> rope_text(*final(rope)) == text@,
        ranged ==> {
            let len = rope_text(*old(rope)).len() as int;
            let from = edit_offset(start, len, len);
            let to = edit_offset(
                end,
                match start {
                    Some(offset) => offset as int,
                    None => len,
                },
                len,
            );
            rope_text(*final(rope)) == (if to < from {
                rope_text(*old(rope))
            } else {
                replaced(rope_text(*old(rope)), from, to, text@)
            })
        },
{
    if !ranged {
        *rope = rope_from_str(text);
        return ;
    }
    let doc_len = rope_len_chars(rope);
    let raw_start = match start {
        Some(offset) => offset,
        None => doc_len,
    };
    let raw_end = match end {
        Some(offset) => offset,
        None => raw_start,
    };
    let start_offset = if raw_start <= doc_len {
        raw_start
    } else {
        doc_len
    };
    let end_offset = if raw_end <= doc_len {
        raw_end
    } else {
        doc_len
    };
    if end_offset < start_offset {
        return ;
    }
    rope_remove(rope, start_offset, end_offset);
    proof {
        assert(rope_text(*rope).len() == doc_len - (end_offset - start_offset));
    }
    rope_insert(rope, start_offset, text);
    proof {
        let before = rope_text(*old(rope));
        let removed = before.subrange(0, start_offset as int) + before.subrange(
            end_offset as int,
            before.len() as int,
        );
        assert(removed.subrange(0, start_offset as int) =~= before.subrange(0, start_offset as int));
        assert(removed.subrange(start_offset as int, removed.len() as int) =~= before.subrange(
            end_offset as int,
            before.len() as int,
        ));
    }
}

} // verus!
