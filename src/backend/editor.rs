//! An arena of open documents with one active index.

use super::buffer::{Buffer, Mode};
use vstd::prelude::*;

verus! {

/// The open documents, held by value, and the index of the active one.
pub struct Editor {
    pub dir: Option<String>,
    pub anon: bool,
    pub num_buf: usize,
    pub cur_buf: Option<usize>,
    pub buffers: Vec<Buffer>,
}

impl Editor {
    /// `num_buf` counts the documents, the active index is in range and every
    /// document is well formed.
    pub open spec fn wf(&self) -> bool {
        &&& self.num_buf == self.buffers.len()
        &&& (self.cur_buf matches Some(i) ==> i < self.buffers.len())
        &&& forall|i: int| 0 <= i < self.buffers.len() ==> (#[trigger] self.buffers[i]).wf()
    }

    /// The active document, if any.
    pub open spec fn active(&self) -> Option<Buffer> {
        match self.cur_buf {
            Some(i) => Some(self.buffers[i as int]),
            None => None,
        }
    }

    /// An editor with no document and no directory.
    pub fn new() -> (e: Editor)
        ensures
            e.wf(),
            e.dir is None,
            !e.anon,
            e.cur_buf is None,
            e.buffers@ == Seq::<Buffer>::empty(),
    {
        Editor { dir: None, anon: false, num_buf: 0, cur_buf: None, buffers: Vec::new() }
    }

    /// Records the working directory.
    pub fn set_dir(&mut self, dir: String)
        ensures
            *final(self) == (Editor { dir: Some(dir), ..*old(self) }),
    {
        self.dir = Some(dir);
    }

    /// Marks the editor as editing an unnamed document.
    pub fn set_anon(&mut self)
        ensures
            *final(self) == (Editor { anon: true, ..*old(self) }),
    {
        self.anon = true;
    }

    /// Adds a document and makes it the active one.
    pub fn push_buf(&mut self, buf: Buffer)
        requires
            old(self).wf(),
            buf.wf(),
            old(self).buffers.len() < usize::MAX,
        ensures
            final(self).wf(),
            final(self).buffers@ == old(self).buffers@.push(buf),
            final(self).cur_buf == Some(old(self).buffers.len()),
            final(self).dir == old(self).dir,
            final(self).anon == old(self).anon,
    {
        self.buffers.push(buf);
        self.num_buf = self.buffers.len();
        self.cur_buf = Some(self.buffers.len() - 1);
        assert(forall|i: int| 0 <= i < self.buffers.len() ==> (#[trigger] self.buffers[i]).wf()) by {
            assert(forall|i: int| 0 <= i < old(self).buffers.len() ==> self.buffers[i] == old(self).buffers[i]);
        }
    }

    /// The active document, if any.
    pub fn current(&self) -> (r: Option<&Buffer>)
        requires
            self.wf(),
        ensures
            r matches Some(b) ==> self.active() == Some(*b),
            r is None <==> self.active() is None,
    {
        match self.cur_buf {
            Some(i) => Some(&self.buffers[i]),
            None => None,
        }
    }

    /// Sets the mode of the active document; the other documents, the order
    /// and the active index stay as they were. Without an active document
    /// nothing changes.
    pub fn set_current_mode(&mut self, m: Mode)
        requires
            old(self).wf(),
        ensures
            final(self).wf(),
            final(self).cur_buf == old(self).cur_buf,
            final(self).dir == old(self).dir,
            final(self).anon == old(self).anon,
            match old(self).cur_buf {
                Some(i) => final(self).buffers@ == old(self).buffers@.update(
                    i as int,
                    Buffer { mode: m, ..old(self).buffers[i as int] },
                ),
                None => final(self).buffers@ == old(self).buffers@,
            },
    {
        if let Some(i) = self.cur_buf {
            let mut b = self.buffers.remove(i);
            b.set_mode(m);
            self.buffers.insert(i, b);
            assert(self.buffers@ =~= old(self).buffers@.update(
                i as int,
                Buffer { mode: m, ..old(self).buffers[i as int] },
            ));
            assert(forall|k: int| 0 <= k < self.buffers.len() ==> (#[trigger] self.buffers[k]).wf()) by {
                assert(forall|k: int| 0 <= k < self.buffers.len() && k != i ==> self.buffers[k] == old(self).buffers[k]);
            }
        }
    }
}

} // verus!
