//! A document: line-indexed text loaded for a path, with its language tag.

use crate::language::{
    derive_file_str, derive_file_type, label_of, language_of, path_kind, Language,
};
use crate::text::{lines_of, rope_from_str, rope_len_lines, rope_new, rope_text};
use ropey::Rope;
use vstd::prelude::*;

verus! {

/// The vi editing modes; exactly one is active at a time.
#[derive(Clone, Copy, Debug, PartialEq, Eq, Structural)]
pub enum Mode {
    Insert,
    Visual,
    Normal,
}

/// A document. `line_count` always equals the number of lines of `rope`.
pub struct Buffer {
    pub p: Option<String>,
    pub lang: Language,
    pub lang_str: &'static str,
    pub line_count: usize,
    pub rope: Rope,
    pub mode: Mode,
}

impl Buffer {
    /// The lines of the document's text.
    pub open spec fn lines(&self) -> Seq<Seq<char>> {
        lines_of(rope_text(self.rope))
    }

    pub open spec fn wf(&self) -> bool {
        self.line_count == self.lines().len()
    }

    /// An anonymous, empty document in Normal mode; it has one empty line.
    pub fn new() -> (b: Buffer)
        ensures
            b.wf(),
            b.p is None,
            b.lang == Language::Txt,
            b.lang_str@ == ""@,
            rope_text(b.rope) == Seq::<char>::empty(),
            b.line_count == 1,
            b.mode == Mode::Normal,
    {
        let rope = rope_new();
        let line_count = rope_len_lines(&rope);
        proof {
            assert(lines_of(Seq::<char>::empty()).len() == 1);
        }
        Buffer { p: None, lang: Language::Txt, lang_str: "", line_count, rope, mode: Mode::Normal }
    }

    /// Switches the editing mode; nothing else changes.
    pub fn set_mode(&mut self, m: Mode)
        ensures
            *final(self) == (Buffer { mode: m, ..*old(self) }),
    {
        self.mode = m;
    }

    /// Loads `contents`, the text read from the file at `p`: the path is
    /// recorded, the language and label follow its extension, and the line
    /// count is recomputed. The mode is kept.
    pub fn set_path(&mut self, p: &str, contents: &str)
        ensures
            final(self).wf(),
            final(self).p is Some && final(self).p->0@ == p@,
            final(self).lang == language_of(path_kind(p@)),
            final(self).lang_str@ == label_of(path_kind(p@)),
            rope_text(final(self).rope) == contents@,
            final(self).line_count == lines_of(contents@).len(),
            final(self).mode == old(self).mode,
    {
        self.lang = derive_file_type(p);
        self.lang_str = derive_file_str(p);
        self.rope = rope_from_str(contents);
        self.line_count = rope_len_lines(&self.rope);
        self.p = Some(p.to_owned());
    }
}

} // verus!
