//! Cooperative cancellation of document tasks.
//!
//! Each document has one generation counter per kind of task. A request
//! takes a token, which advances the counter of its kind and remembers the
//! new value; the token is cancelled as soon as the counter has moved on.
//! The counters are plain values: whoever shares them between tasks guards
//! them with a lock.
use crate::text::{push_str_chars, string_of};
use vstd::prelude::*;

verus! {

/// The kinds of work that a newer request of the same kind supersedes.
#[derive(Clone, Copy, Debug, PartialEq, Eq, Hash, Structural)]
pub enum DocumentTaskKind {
    Completion,
    Hover,
    Analysis,
}

/// The generation after `generation`. Generations wrap around at the
/// largest `u64`.
pub open spec fn next_generation(generation: u64) -> u64 {
    if generation == u64::MAX {
        0
    } else {
        (generation + 1) as u64
    }
}

/// The generation counter of one kind of task.
#[derive(Clone, Copy, Debug, PartialEq, Eq, Structural)]
pub struct TaskGeneration {
    pub generation: u64,
}

impl TaskGeneration {
    /// Advance the counter and return its new value.
    pub fn next_token(&mut self) -> (generation: u64)
        ensures
            generation == next_generation(old(self).generation),
            final(self).generation == generation,
    {
        self.generation = if self.generation == u64::MAX {
            0
        } else {
            self.generation + 1
        };
        self.generation
    }

    /// Whether a token of the expected generation has been superseded.
    pub fn is_cancelled(&self, expected: u64) -> (cancelled: bool)
        ensures
            cancelled == (self.generation != expected),
    {
        self.generation != expected
    }

    /// Supersede every token issued so far.
    pub fn cancel(&mut self)
        ensures
            final(self).generation == next_generation(old(self).generation),
    {
        let _ = self.next_token();
    }
}

/// The generation counters of one document.
#[derive(Clone, Copy, Debug, PartialEq, Eq, Structural)]
pub struct DocumentTaskState {
    pub completion: TaskGeneration,
    pub hover: TaskGeneration,
    pub analysis: TaskGeneration,
}

/// What lets a task find out whether a later request has replaced it.
#[derive(Clone, Copy, Debug, PartialEq, Eq, Structural)]
pub struct DocumentTaskToken {
    pub kind: DocumentTaskKind,
    pub generation: u64,
}

/// The signal that a task's result is to be discarded.
#[derive(Clone, Copy, Debug, PartialEq, Eq, Structural)]
pub struct DocumentTaskCancelled {
    pub kind: DocumentTaskKind,
}

impl DocumentTaskState {
    /// The current generation of a kind of task.
    pub open spec fn generation(self, kind: DocumentTaskKind) -> u64 {
        match kind {
            DocumentTaskKind::Completion => self.completion.generation,
            DocumentTaskKind::Hover => self.hover.generation,
            DocumentTaskKind::Analysis => self.analysis.generation,
        }
    }

    /// The state after the counter of `kind` has advanced by one.
    pub open spec fn advanced(self, kind: DocumentTaskKind) -> DocumentTaskState {
        match kind {
            DocumentTaskKind::Completion => DocumentTaskState {
                completion: TaskGeneration { generation: next_generation(self.completion.generation) },
                ..self
            },
            DocumentTaskKind::Hover => DocumentTaskState {
                hover: TaskGeneration { generation: next_generation(self.hover.generation) },
                ..self
            },
            DocumentTaskKind::Analysis => DocumentTaskState {
                analysis: TaskGeneration { generation: next_generation(self.analysis.generation) },
                ..self
            },
        }
    }

    /// The state of a document for which nothing was requested yet.
    pub fn new() -> (state: DocumentTaskState)
        ensures
            state.generation(DocumentTaskKind::Completion) == 0,
            state.generation(DocumentTaskKind::Hover) == 0,
            state.generation(DocumentTaskKind::Analysis) == 0,
    {
        DocumentTaskState {
            completion: TaskGeneration { generation: 0 },
            hover: TaskGeneration { generation: 0 },
            analysis: TaskGeneration { generation: 0 },
        }
    }

    /// Issue a token for a new task of `kind`. Every earlier token of that
    /// kind is cancelled by it.
    pub fn token(&mut self, kind: DocumentTaskKind) -> (token: DocumentTaskToken)
        ensures
            *final(self) == old(self).advanced(kind),
            token.kind == kind,
            token.generation == final(self).generation(kind),
    {
        let generation = match kind {
            DocumentTaskKind::Completion => self.completion.next_token(),
            DocumentTaskKind::Hover => self.hover.next_token(),
            DocumentTaskKind::Analysis => self.analysis.next_token(),
        };
        DocumentTaskToken::new(kind, generation)
    }

    fn slot(&self, kind: DocumentTaskKind) -> (slot: &TaskGeneration)
        ensures
            slot.generation == self.generation(kind),
    {
        match kind {
            DocumentTaskKind::Completion => &self.completion,
            DocumentTaskKind::Hover => &self.hover,
            DocumentTaskKind::Analysis => &self.analysis,
        }
    }
}

impl DocumentTaskToken {
    /// Whether the token is cancelled in `state`: the counter of its kind
    /// is no longer at the token's generation.
    pub open spec fn cancelled_in(self, state: DocumentTaskState) -> bool {
        state.generation(self.kind) != self.generation
    }

    fn new(kind: DocumentTaskKind, generation: u64) -> (token: DocumentTaskToken)
        ensures
            token.kind == kind,
            token.generation == generation,
    {
        DocumentTaskToken { kind, generation }
    }

    /// The kind of work that the token was issued for.
    pub fn kind(&self) -> (kind: DocumentTaskKind)
        ensures
            kind == self.kind,
    {
        self.kind
    }

    /// A checkpoint: an error exactly when the token is cancelled.
    pub fn ensure_active(&self, state: &DocumentTaskState) -> (result: Result<
        (),
        DocumentTaskCancelled,
    >)
        ensures
            result is Err <==> self.cancelled_in(*state),
            result matches Err(cancelled) ==> cancelled.kind == self.kind,
    {
        if self.is_cancelled(state) {
            Err(DocumentTaskCancelled { kind: self.kind })
        } else {
            Ok(())
        }
    }

    /// Whether a newer token of the same kind was issued.
    pub fn is_cancelled(&self, state: &DocumentTaskState) -> (cancelled: bool)
        ensures
            cancelled == self.cancelled_in(*state),
    {
        state.slot(self.kind).is_cancelled(self.generation)
    }

    /// Cancel every token of this token's kind, this one included.
    pub fn cancel(&self, state: &mut DocumentTaskState)
        ensures
            *final(state) == old(state).advanced(self.kind),
    {
        match self.kind {
            DocumentTaskKind::Completion => state.completion.cancel(),
            DocumentTaskKind::Hover => state.hover.cancel(),
            DocumentTaskKind::Analysis => state.analysis.cancel(),
        }
    }
}

/// The name of a kind of task.
pub open spec fn kind_text(kind: DocumentTaskKind) -> Seq<char> {
    match kind {
        DocumentTaskKind::Completion => "Completion"@,
        DocumentTaskKind::Hover => "Hover"@,
        DocumentTaskKind::Analysis => "Analysis"@,
    }
}

impl DocumentTaskCancelled {
    /// The text shown for the signal.
    pub fn message(&self) -> (message: String)
        ensures
            message@ == kind_text(self.kind) + " task cancelled"@,
    {
        let mut buf: Vec<char> = Vec::new();
        match self.kind {
            DocumentTaskKind::Completion => push_str_chars(&mut buf, "Completion"),
            DocumentTaskKind::Hover => push_str_chars(&mut buf, "Hover"),
            DocumentTaskKind::Analysis => push_str_chars(&mut buf, "Analysis"),
        }
        push_str_chars(&mut buf, " task cancelled");
        assert(buf@ =~= kind_text(self.kind) + " task cancelled"@);
        string_of(&buf)
    }
}

/// A token is active where it was issued.
pub proof fn lemma_issued_token_is_active(state: DocumentTaskState, kind: DocumentTaskKind)
    ensures
        !(DocumentTaskToken {
            kind,
            generation: state.advanced(kind).generation(kind),
        }).cancelled_in(state.advanced(kind)),
{
}

/// A second request of the same kind cancels the first: the token issued
/// first is cancelled once the second token has been issued.
pub proof fn lemma_second_request_cancels_first(state: DocumentTaskState, kind: DocumentTaskKind)
    ensures
        (DocumentTaskToken {
            kind,
            generation: state.advanced(kind).generation(kind),
        }).cancelled_in(state.advanced(kind).advanced(kind)),
{
}

/// A request of one kind leaves the tokens of the other kinds as they were.
pub proof fn lemma_other_kinds_unaffected(
    state: DocumentTaskState,
    token: DocumentTaskToken,
    kind: DocumentTaskKind,
)
    requires
        token.kind != kind,
    ensures
        token.cancelled_in(state.advanced(kind)) == token.cancelled_in(state),
{
}

} // verus!
