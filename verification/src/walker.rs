//! The discovery walker: a full enumeration of every leaf secret under the
//! configured mounts, as an explicit-stack depth-first machine. The caller
//! supplies each directory listing (or reports its failure) and drives the
//! machine step by step; the machine emits one creation event per leaf and
//! one cycle-end sentinel after the last mount is drained.
use vstd::prelude::*;
use vstd::string::StringExecFns;

use crate::sync::SecretOp;
use crate::sync::SecretPath;
use crate::sync::normalize_prefix;
use crate::sync::spec_normalize_prefix;
use crate::text::str_concat;
use crate::text::str_ends_with_char;

verus! {

/// One frame of the traversal: the namespace being listed, its child names
/// once fetched, and how many of them were consumed.
pub struct WalkFrame {
    pub parent: String,
    pub children: Option<Vec<String>>,
    pub index: usize,
}

/// The mathematical image of a frame.
pub ghost struct FrameView {
    pub parent: Seq<char>,
    pub children: Option<Seq<Seq<char>>>,
    pub index: int,
}

impl View for WalkFrame {
    type V = FrameView;

    open spec fn view(&self) -> FrameView {
        FrameView {
            parent: self.parent@,
            children: match self.children {
                Option::Some(c) => Option::Some(c.deep_view()),
                Option::None => Option::None,
            },
            index: self.index as int,
        }
    }
}

/// The mathematical image of the walker.
pub ghost struct WalkerView {
    pub prefix: Seq<char>,
    pub mounts: Seq<Seq<char>>,
    pub mount_idx: int,
    pub stack: Seq<FrameView>,
    pub finished: bool,
}

/// The walker's state over one discovery pass: the normalized starting
/// prefix, the mounts still to walk, and the explicit traversal stack of
/// the mount currently being walked.
pub struct Walker {
    prefix: String,
    mounts: Vec<String>,
    mount_idx: usize,
    stack: Vec<WalkFrame>,
    finished: bool,
}

impl View for Walker {
    type V = WalkerView;

    closed spec fn view(&self) -> WalkerView {
        WalkerView {
            prefix: self.prefix@,
            mounts: self.mounts.deep_view(),
            mount_idx: self.mount_idx as int,
            stack: self.stack@.map_values(|f: WalkFrame| f@),
            finished: self.finished,
        }
    }
}

impl Walker {
    /// The stack is non-empty exactly while a mount is being walked; an
    /// empty stack means every mount is drained and only the sentinel is
    /// left, and a finished walker emits nothing more. Every namespace on
    /// the stack lies below the configured prefix, so every emitted path
    /// starts with it.
    pub open spec fn wf(&self) -> bool {
        &&& self@.mount_idx <= self@.mounts.len()
        &&& (self@.stack.len() == 0 ==> self@.mount_idx == self@.mounts.len())
        &&& (self@.stack.len() > 0 ==> self@.mount_idx < self@.mounts.len())
        &&& (self@.finished ==> self@.stack.len() == 0)
        &&& (forall|i: int|
            0 <= i < self@.stack.len() ==> self@.prefix.is_prefix_of(
                #[trigger] self@.stack[i].parent,
            ))
    }

    /// A fresh pass over `mounts`, starting below `prefix` (normalized
    /// here), positioned at the root namespace of the first mount.
    pub fn new(prefix: &str, mounts: Vec<String>) -> (w: Walker)
        ensures
            w.wf(),
            w@.prefix == spec_normalize_prefix(prefix@),
            w@.mounts == mounts.deep_view(),
            !w@.finished,
            w@.mount_idx == 0,
            mounts@.len() == 0 ==> w@.stack.len() == 0,
            mounts@.len() > 0 ==> w@.stack.len() == 1 && w@.stack[0].parent
                == spec_normalize_prefix(prefix@) && w@.stack[0].children is None && w@.stack[0].index
                == 0,
    {
        let p = normalize_prefix(prefix);
        let nonempty = mounts.len() > 0;
        let mut w = Walker {
            prefix: p,
            mounts,
            mount_idx: 0,
            stack: Vec::new(),
            finished: false,
        };
        if nonempty {
            let root = WalkFrame {
                parent: String::from_str(w.prefix.as_str()),
                children: None,
                index: 0,
            };
            w.stack.push(root);
        }
        w
    }

    /// Whether the pass is over: the sentinel has been emitted.
    pub fn done(&self) -> (r: bool)
        ensures
            r == self@.finished,
    {
        self.finished
    }

    /// The (mount, namespace) whose listing the machine waits for, if the
    /// top frame has not been fetched yet.
    pub fn pending_list(&self) -> (r: Option<(String, String)>)
        requires
            self.wf(),
        ensures
            match r {
                Option::Some(p) => !self@.finished && self@.stack.len() > 0
                    && self@.stack.last().children is None && p.0@
                    == self@.mounts[self@.mount_idx] && p.1@ == self@.stack.last().parent,
                Option::None => self@.finished || self@.stack.len() == 0
                    || self@.stack.last().children is Some,
            },
    {
        if self.finished || self.stack.len() == 0 {
            return None;
        }
        let fr = &self.stack[self.stack.len() - 1];
        match &fr.children {
            Option::Some(_) => None,
            Option::None => Some(
                (
                    String::from_str(self.mounts[self.mount_idx].as_str()),
                    String::from_str(fr.parent.as_str()),
                ),
            ),
        }
    }

    /// Hand the machine the listing of the namespace it waits for.
    pub fn set_listing(&mut self, children: Vec<String>)
        requires
            old(self).wf(),
            !old(self)@.finished,
            old(self)@.stack.len() > 0,
            old(self)@.stack.last().children is None,
        ensures
            final(self).wf(),
            final(self)@.prefix == old(self)@.prefix,
            final(self)@.mounts == old(self)@.mounts,
            final(self)@.mount_idx == old(self)@.mount_idx,
            final(self)@.finished == old(self)@.finished,
            final(self)@.stack =~= old(self)@.stack.update(
                old(self)@.stack.len() - 1,
                (FrameView {
                    parent: old(self)@.stack.last().parent,
                    children: Option::Some(children.deep_view()),
                    index: old(self)@.stack.last().index,
                }),
            ),
    {
        let mut fr = match self.stack.pop() {
            Option::Some(f) => f,
            Option::None => vstd::pervasive::unreached(),
        };
        fr.children = Some(children);
        self.stack.push(fr);
        proof {
            assert(self@.stack =~= old(self)@.stack.update(
                old(self)@.stack.len() - 1,
                (FrameView {
                    parent: old(self)@.stack.last().parent,
                    children: Option::Some(children.deep_view()),
                    index: old(self)@.stack.last().index,
                }),
            ));
        }
    }

    /// Drop the top frame and, when that drains the current mount, move to
    /// the next mount's root namespace. After the last mount the stack
    /// stays empty and only the sentinel is left.
    fn pop_frame(&mut self)
        requires
            old(self).wf(),
            !old(self)@.finished,
            old(self)@.stack.len() > 0,
        ensures
            final(self).wf(),
            final(self)@.prefix == old(self)@.prefix,
            final(self)@.mounts == old(self)@.mounts,
            !final(self)@.finished,
            (if old(self)@.stack.len() > 1 {
                final(self)@.stack =~= old(self)@.stack.drop_last() && final(self)@.mount_idx
                    == old(self)@.mount_idx
            } else if old(self)@.mount_idx + 1 < old(self)@.mounts.len() {
                final(self)@.mount_idx == old(self)@.mount_idx + 1 && final(self)@.stack.len() == 1
                    && final(self)@.stack[0].parent == old(self)@.prefix
                    && final(self)@.stack[0].children is None && final(self)@.stack[0].index == 0
            } else {
                final(self)@.mount_idx == old(self)@.mounts.len() && final(self)@.stack.len() == 0
            }),
    {
        let _ = self.stack.pop();
        proof {
            assert(self@.stack =~= old(self)@.stack.drop_last());
        }
        if self.stack.len() == 0 {
            let n = self.mounts.len();
            proof {
                assert(old(self)@.mount_idx < n);
            }
            self.mount_idx = self.mount_idx + 1;
            if self.mount_idx < self.mounts.len() {
                let root = WalkFrame {
                    parent: String::from_str(self.prefix.as_str()),
                    children: None,
                    index: 0,
                };
                self.stack.push(root);
            }
        }
    }

    /// Abandon the namespace whose listing failed: its subtree is skipped
    /// for this pass only.
    pub fn fail_listing(&mut self)
        requires
            old(self).wf(),
            !old(self)@.finished,
            old(self)@.stack.len() > 0,
            old(self)@.stack.last().children is None,
        ensures
            final(self).wf(),
            final(self)@.prefix == old(self)@.prefix,
            final(self)@.mounts == old(self)@.mounts,
            !final(self)@.finished,
            (if old(self)@.stack.len() > 1 {
                final(self)@.stack =~= old(self)@.stack.drop_last() && final(self)@.mount_idx
                    == old(self)@.mount_idx
            } else if old(self)@.mount_idx + 1 < old(self)@.mounts.len() {
                final(self)@.mount_idx == old(self)@.mount_idx + 1 && final(self)@.stack.len() == 1
                    && final(self)@.stack[0].parent == old(self)@.prefix
                    && final(self)@.stack[0].children is None && final(self)@.stack[0].index == 0
            } else {
                final(self)@.mount_idx == old(self)@.mounts.len() && final(self)@.stack.len() == 0
            }),
    {
        self.pop_frame();
    }

    /// One step of the pass. With an empty stack every mount is drained and
    /// the sentinel closes the pass. Otherwise the top frame's next child
    /// either opens a sub-namespace (a name ending in the separator), or is
    /// a leaf and yields one creation event with its fully qualified path;
    /// an exhausted frame is popped.
    pub fn step(&mut self) -> (r: Option<SecretOp>)
        requires
            old(self).wf(),
            !old(self)@.finished,
            old(self)@.stack.len() > 0 ==> old(self)@.stack.last().children is Some,
        ensures
            final(self).wf(),
            final(self)@.prefix == old(self)@.prefix,
            final(self)@.mounts == old(self)@.mounts,
            ({
                let v = old(self)@;
                let w = final(self)@;
                if v.stack.len() == 0 {
                    &&& w.finished
                    &&& w.stack.len() == 0
                    &&& w.mount_idx == v.mount_idx
                    &&& r matches Option::Some(op) && op matches SecretOp::FullSyncFinished
                } else {
                    let fr = v.stack.last();
                    fr.children matches Option::Some(cs) && {
                        if fr.index < cs.len() {
                            let name = cs[fr.index];
                            if name.len() > 0 && name.last() == '/' {
                                &&& w.stack =~= v.stack.update(
                                    v.stack.len() - 1,
                                    (FrameView { parent: fr.parent, children: fr.children, index: fr.index + 1 }),
                                ).push(
                                    (FrameView {
                                        parent: fr.parent + name,
                                        children: Option::None,
                                        index: 0,
                                    }),
                                )
                                &&& w.mount_idx == v.mount_idx
                                &&& !w.finished
                                &&& r is None
                            } else {
                                &&& w.stack =~= v.stack.update(
                                    v.stack.len() - 1,
                                    (FrameView { parent: fr.parent, children: fr.children, index: fr.index + 1 }),
                                )
                                &&& w.mount_idx == v.mount_idx
                                &&& !w.finished
                                &&& (r matches Option::Some(op) && op matches SecretOp::Create(sp)
                                    && sp.mount@ == v.mounts[v.mount_idx] && sp.path@ == fr.parent
                                    + name && v.prefix.is_prefix_of(sp.path@))
                            }
                        } else {
                            &&& r is None
                            &&& !w.finished
                            &&& (if v.stack.len() > 1 {
                                w.stack =~= v.stack.drop_last() && w.mount_idx == v.mount_idx
                            } else if v.mount_idx + 1 < v.mounts.len() {
                                w.mount_idx == v.mount_idx + 1 && w.stack.len() == 1
                                    && w.stack[0].parent == v.prefix && w.stack[0].children is None
                                    && w.stack[0].index == 0
                            } else {
                                w.mount_idx == v.mounts.len() && w.stack.len() == 0
                            })
                        }
                    }
                }
            }),
    {
        if self.stack.len() == 0 {
            self.finished = true;
            return Some(SecretOp::FullSyncFinished);
        }
        let mut fr = match self.stack.pop() {
            Option::Some(f) => f,
            Option::None => vstd::pervasive::unreached(),
        };
        proof {
            assert(fr@ == old(self)@.stack.last());
        }
        let cs_len = match &fr.children {
            Option::Some(c) => c.len(),
            Option::None => vstd::pervasive::unreached(),
        };
        if fr.index < cs_len {
            let (is_dir, full) = match &fr.children {
                Option::Some(c) => (
                    str_ends_with_char(c[fr.index].as_str(), '/'),
                    str_concat(fr.parent.as_str(), c[fr.index].as_str()),
                ),
                Option::None => vstd::pervasive::unreached(),
            };
            proof {
                let p = old(self)@.prefix;
                assert(p.is_prefix_of(old(self)@.stack.last().parent));
                assert(p =~= full@.subrange(0, p.len() as int));
                assert(p.is_prefix_of(full@));
            }
            fr.index = fr.index + 1;
            if is_dir {
                let child = WalkFrame { parent: full, children: None, index: 0 };
                self.stack.push(fr);
                self.stack.push(child);
                proof {
                    let v = old(self)@;
                    assert forall|i: int|
                        0 <= i < self@.stack.len() implies self@.prefix.is_prefix_of(
                        #[trigger] self@.stack[i].parent,
                    ) by {
                        if i < v.stack.len() {
                            assert(self@.stack[i].parent == v.stack[i].parent);
                        }
                    }
                }
                None
            } else {
                let mount = String::from_str(self.mounts[self.mount_idx].as_str());
                self.stack.push(fr);
                proof {
                    let v = old(self)@;
                    assert forall|i: int|
                        0 <= i < self@.stack.len() implies self@.prefix.is_prefix_of(
                        #[trigger] self@.stack[i].parent,
                    ) by {
                        assert(self@.stack[i].parent == v.stack[i].parent);
                    }
                }
                Some(SecretOp::Create(SecretPath { mount, path: full }))
            }
        } else {
            self.stack.push(fr);
            proof {
                assert(self@.stack =~= old(self)@.stack);
            }
            self.pop_frame();
            None
        }
    }
}

} // verus!
