//! Markdown sections shared by hover responses and completion documentation.
use vstd::prelude::*;

verus! {

/// Incrementally builds Markdown sections. Sections are separated by a
/// blank line.
pub struct MarkdownWriter {
    pub buffer: String,
    pub sections: usize,
}

pub struct MarkdownWriterView {
    pub buffer: Seq<char>,
    pub sections: usize,
}

/// A snippet inside a code fence tagged with the language name. The snippet
/// ends with a line feed of its own or is given one.
pub open spec fn code_block(snippet: Seq<char>) -> Seq<char> {
    "```candid\n"@ + snippet + (if snippet.len() > 0 && snippet.last() == '\n' {
        Seq::empty()
    } else {
        "\n"@
    }) + "```"@
}

impl MarkdownWriterView {
    pub open spec fn empty() -> MarkdownWriterView {
        MarkdownWriterView { buffer: Seq::empty(), sections: 0 }
    }

    /// The writer with a new section opened: a blank line where sections
    /// were written before. The count of sections stops at the largest `usize`.
    pub open spec fn start_section(self) -> MarkdownWriterView {
        MarkdownWriterView {
            buffer: if self.sections > 0 {
                self.buffer + "\n\n"@
            } else {
                self.buffer
            },
            sections: if self.sections < usize::MAX {
                (self.sections + 1) as usize
            } else {
                self.sections
            },
        }
    }

    pub open spec fn append(self, text: Seq<char>) -> MarkdownWriterView {
        MarkdownWriterView { buffer: self.buffer + text, ..self }
    }

    pub open spec fn push_text(self, text: Seq<char>) -> MarkdownWriterView {
        self.start_section().append(text)
    }

    pub open spec fn push_rule(self) -> MarkdownWriterView {
        self.start_section().append("---"@)
    }

    pub open spec fn push_code_block(self, snippet: Seq<char>) -> MarkdownWriterView {
        self.start_section().append(code_block(snippet))
    }

    /// A rule and the documentation, where there is documentation.
    pub open spec fn push_docs_section(self, docs: Option<Seq<char>>) -> MarkdownWriterView {
        match docs {
            Some(doc) => self.push_rule().push_text(doc),
            None => self,
        }
    }

    pub open spec fn push_snippet_with_docs(self, snippet: Seq<char>, docs: Option<Seq<char>>) -> MarkdownWriterView {
        self.push_code_block(snippet).push_docs_section(docs)
    }

    /// What was written, if anything was.
    pub open spec fn finish(self) -> Option<Seq<char>> {
        if self.sections == 0 {
            None
        } else {
            Some(self.buffer)
        }
    }
}

pub open spec fn text_opt(text: Option<&str>) -> Option<Seq<char>> {
    match text {
        Some(text) => Some(text@),
        None => None,
    }
}

impl View for MarkdownWriter {
    type V = MarkdownWriterView;

    open spec fn view(&self) -> MarkdownWriterView {
        MarkdownWriterView { buffer: self.buffer@, sections: self.sections }
    }
}

impl MarkdownWriter {
    /// A writer without sections.
    pub fn new() -> (writer: MarkdownWriter)
        ensures
            writer@ == MarkdownWriterView::empty(),
    {
        MarkdownWriter { buffer: String::new(), sections: 0 }
    }

    /// Whether no section was written.
    pub fn is_empty(&self) -> (empty: bool)
        ensures
            empty == (self@.sections == 0),
    {
        self.sections == 0
    }

    /// A section of plain text.
    pub fn push_text(&mut self, text: &str)
        ensures
            final(self)@ == old(self)@.push_text(text@),
    {
        self.start_section();
        self.buffer.push_str(text);
    }

    /// A section that is a horizontal rule.
    pub fn push_rule(&mut self)
        ensures
            final(self)@ == old(self)@.push_rule(),
    {
        self.start_section();
        self.buffer.push_str("---");
    }

    /// A section that is a fenced code block.
    pub fn push_code_block(&mut self, snippet: &str)
        ensures
            final(self)@ == old(self)@.push_code_block(snippet@),
    {
        self.start_section();
        let ghost opened = self.buffer@;
        self.buffer.push_str("```candid\n");
        self.buffer.push_str(snippet);
        if !ends_with_newline(snippet) {
            self.buffer.push('\n');
        }
        self.buffer.push_str("```");
        proof {
            reveal_strlit("\n");
            assert(self.buffer@ =~= opened + code_block(snippet@));
        }
    }

    /// What was written: none where there is no section.
    pub fn finish(self) -> (text: Option<String>)
        ensures
            text.deep_view() == self@.finish(),
    {
        if self.sections == 0 {
            None
        } else {
            Some(self.buffer)
        }
    }

    fn start_section(&mut self)
        ensures
            final(self)@ == old(self)@.start_section(),
    {
        if self.sections > 0 {
            self.buffer.push_str("\n\n");
        }
        if self.sections < usize::MAX {
            self.sections += 1;
        }
    }
}

fn ends_with_newline(text: &str) -> (ends: bool)
    ensures
        ends == (text@.len() > 0 && text@.last() == '\n'),
{
    let chars = crate::text::chars_of(text);
    chars.len() > 0 && chars[chars.len() - 1] == '\n'
}

/// A code block, and the documentation under a rule where there is any.
pub fn push_snippet_with_docs(writer: &mut MarkdownWriter, snippet: &str, docs: Option<&str>)
    ensures
        final(writer)@ == old(writer)@.push_snippet_with_docs(snippet@, text_opt(docs)),
{
    writer.push_code_block(snippet);
    push_docs_section(writer, docs);
}

/// The documentation under a rule, where there is any.
pub fn push_docs_section(writer: &mut MarkdownWriter, docs: Option<&str>)
    ensures
        final(writer)@ == old(writer)@.push_docs_section(text_opt(docs)),
{
    match docs {
        Some(doc) => {
            writer.push_rule();
            writer.push_text(doc);
        },
        None => {},
    }
}

/// A snippet in a code block, followed by its documentation where it has some.
pub fn snippet_with_docs_markdown(snippet: &str, docs: Option<&str>) -> (text: Option<String>)
    ensures
        text.deep_view() == MarkdownWriterView::empty().push_snippet_with_docs(
            snippet@,
            text_opt(docs),
        ).finish(),
        text is Some,
{
    let mut writer = MarkdownWriter::new();
    push_snippet_with_docs(&mut writer, snippet, docs);
    writer.finish()
}

/// A plain text as a Markdown document of one section.
pub fn text_markdown(text: &str) -> (markdown: Option<String>)
    ensures
        markdown.deep_view() == Some(text@),
{
    let mut writer = MarkdownWriter::new();
    writer.push_text(text);
    proof {
        assert(Seq::<char>::empty() + text@ =~= text@);
    }
    writer.finish()
}

} // verus!
