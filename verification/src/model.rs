//! The window state machine as mathematics: what a context is worth, and what
//! each operation makes of it.
//!
//! Where an operation asks the host for memory, its outcome depends on the
//! answer. The functions here take that answer as the argument `mem`; 0 means
//! that the host had none to give.
use crate::abi::dng_str_view_v1;
use crate::abi::dng_window_desc_v1;
use crate::abi::dng_window_handle_v1;
use crate::abi::dng_window_size_v1;
use crate::abi::dng_status_v1;
use crate::abi::DNG_STATUS_FAIL;
use crate::abi::DNG_STATUS_INVALID_ARG;
use crate::abi::DNG_STATUS_OK;
use crate::abi::DNG_STATUS_OUT_OF_MEMORY;
use crate::host::lemma_outstanding_push;
use crate::host::outstanding;
use crate::host::paired;
use crate::host::HostBlock;
use crate::host::HostCall;
use vstd::multiset::Multiset;
use vstd::prelude::*;

verus! {

/// The handle of the one window that a context can hold.
pub const WINDOW_HANDLE: dng_window_handle_v1 = 1;

/// A title buffer: where the host put it, and the bytes it holds.
pub struct TitleModel {
    pub mem: usize,
    pub bytes: Seq<u8>,
}

/// What a module context is worth.
pub struct WindowModel {
    /// The block of host memory that the context itself lives in.
    pub block: HostBlock,
    /// 0 while there is no window.
    pub handle: dng_window_handle_v1,
    pub size: dng_window_size_v1,
    pub title: Option<TitleModel>,
    /// Every request made of the host's allocator on behalf of this context,
    /// oldest first, starting with the one for `block`.
    pub calls: Seq<HostCall>,
}

/// A state together with the status that led to it.
pub struct Outcome {
    pub state: WindowModel,
    pub status: dng_status_v1,
}

impl TitleModel {
    /// Title buffers are byte-aligned and exactly as long as their text.
    pub open spec fn block(self) -> HostBlock {
        HostBlock { mem: self.mem, size: self.bytes.len() as u64, align: 1 }
    }
}

impl WindowModel {
    /// The state of a context that was just placed in `block`.
    pub open spec fn fresh(block: HostBlock) -> WindowModel {
        WindowModel {
            block,
            handle: 0,
            size: dng_window_size_v1 { width: 0, height: 0 },
            title: None,
            calls: seq![HostCall::Alloc { size: block.size, align: block.align, mem: block.mem }],
        }
    }

    /// The blocks that the context refers to: its own, and its title's.
    pub open spec fn owned(self) -> Multiset<HostBlock> {
        match self.title {
            Some(t) => Multiset::singleton(self.block).insert(t.block()),
            None => Multiset::singleton(self.block),
        }
    }

    /// The context refers to exactly the blocks that its requests have left
    /// with the module, and none of its releases was unpaired: nothing has
    /// leaked and nothing was released twice.
    pub open spec fn accounted(self) -> bool {
        &&& paired(self.calls)
        &&& outstanding(self.calls) == self.owned()
    }

    /// The shape of a live context.
    pub open spec fn sound(self) -> bool {
        &&& self.block.mem != 0
        &&& self.title is Some ==> self.title->0.mem != 0 && 0 < self.title->0.bytes.len()
            <= u32::MAX
        &&& self.accounted()
    }

    /// Gives the title buffer back, if there is one.
    pub open spec fn drop_title(self) -> WindowModel {
        match self.title {
            Some(t) => WindowModel {
                title: None,
                calls: self.calls.push(
                    HostCall::Free { mem: t.mem, size: t.bytes.len() as u64, align: 1 },
                ),
                ..self
            },
            None => self,
        }
    }

    /// Records that a block for `bytes` was asked for and that the host answered
    /// `mem`; takes the block as the title buffer unless `mem` is 0.
    pub open spec fn adopt_title(self, bytes: Seq<u8>, mem: usize) -> WindowModel {
        WindowModel {
            title: if mem == 0 {
                self.title
            } else {
                Some(TitleModel { mem, bytes })
            },
            calls: self.calls.push(HostCall::Alloc { size: bytes.len() as u64, align: 1, mem }),
            ..self
        }
    }

    /// Gives a context without a title buffer a copy of `title`. An empty
    /// title asks nothing of the host.
    pub open spec fn copy_title(self, title: dng_str_view_v1, mem: usize) -> Outcome {
        if title.size == 0 {
            Outcome { state: self, status: DNG_STATUS_OK }
        } else if title.malformed() {
            Outcome { state: self, status: DNG_STATUS_INVALID_ARG }
        } else {
            Outcome {
                state: self.adopt_title(title.bytes(), mem),
                status: if mem == 0 {
                    DNG_STATUS_OUT_OF_MEMORY
                } else {
                    DNG_STATUS_OK
                },
            }
        }
    }

    /// Create. Fails where there is a window already; is invalid, and changes
    /// nothing, where the description has flags or a malformed title.
    /// Otherwise the size is recorded, any title buffer left over goes back
    /// to the host and the title is copied. Only when that has succeeded does
    /// the window exist: a refusal of the host leaves the context without a
    /// window and without a title.
    pub open spec fn create(self, desc: dng_window_desc_v1, mem: usize) -> Outcome {
        if self.handle != 0 {
            Outcome { state: self, status: DNG_STATUS_FAIL }
        } else if desc.flags != 0 || desc.title.malformed() {
            Outcome { state: self, status: DNG_STATUS_INVALID_ARG }
        } else {
            let sized = WindowModel {
                size: dng_window_size_v1 { width: desc.width, height: desc.height },
                ..self
            };
            let titled = sized.drop_title().copy_title(desc.title, mem);
            if titled.status != DNG_STATUS_OK {
                titled
            } else {
                Outcome {
                    state: WindowModel { handle: WINDOW_HANDLE, ..titled.state },
                    status: DNG_STATUS_OK,
                }
            }
        }
    }

    /// Whether `handle` names the window of this context.
    pub open spec fn names(self, handle: dng_window_handle_v1) -> bool {
        handle != 0 && self.handle == handle
    }

    /// The size that a query for `handle` is answered with, if it is answered.
    pub open spec fn get_size(self, handle: dng_window_handle_v1) -> Option<dng_window_size_v1> {
        if self.names(handle) {
            Some(self.size)
        } else {
            None
        }
    }

    /// Destroy. Invalid, and without effect, unless `handle` names the
    /// window; otherwise the title buffer goes back to the host and handle
    /// and size are cleared.
    pub open spec fn destroy(self, handle: dng_window_handle_v1) -> Outcome {
        if !self.names(handle) {
            Outcome { state: self, status: DNG_STATUS_INVALID_ARG }
        } else {
            Outcome {
                state: WindowModel {
                    handle: 0,
                    size: dng_window_size_v1 { width: 0, height: 0 },
                    ..self.drop_title()
                },
                status: DNG_STATUS_OK,
            }
        }
    }

    /// Set-title. Invalid, and without effect, unless `handle` names the
    /// window and the title is well formed. Otherwise the old buffer goes
    /// back to the host first and the new title is copied: a refusal of the
    /// host leaves the window without a title.
    pub open spec fn set_title(
        self,
        handle: dng_window_handle_v1,
        title: dng_str_view_v1,
        mem: usize,
    ) -> Outcome {
        if !self.names(handle) || title.malformed() {
            Outcome { state: self, status: DNG_STATUS_INVALID_ARG }
        } else {
            self.drop_title().copy_title(title, mem)
        }
    }

    /// Gives back the title buffer, then the context's own block.
    pub open spec fn shutdown(self) -> WindowModel {
        let untitled = self.drop_title();
        WindowModel {
            calls: untitled.calls.push(
                HostCall::Free {
                    mem: self.block.mem,
                    size: self.block.size,
                    align: self.block.align,
                },
            ),
            ..untitled
        }
    }
}

/// Releasing the title buffer keeps the books straight.
pub proof fn lemma_drop_title_sound(s: WindowModel)
    requires
        s.sound(),
    ensures
        s.drop_title().sound(),
        s.drop_title().title is None,
{
    if let Some(t) = s.title {
        let call = HostCall::Free { mem: t.mem, size: t.bytes.len() as u64, align: 1 };
        lemma_outstanding_push(s.calls, call);
        assert(s.owned().count(t.block()) > 0);
        assert(s.owned().remove(t.block()) =~= s.drop_title().owned());
    }
}

/// Taking the block that the host granted for a title keeps the books
/// straight, and so does being refused one.
pub proof fn lemma_adopt_title_sound(s: WindowModel, bytes: Seq<u8>, mem: usize)
    requires
        s.sound(),
        s.title is None,
        0 < bytes.len() <= u32::MAX,
    ensures
        s.adopt_title(bytes, mem).sound(),
{
    let call = HostCall::Alloc { size: bytes.len() as u64, align: 1, mem };
    lemma_outstanding_push(s.calls, call);
    if mem != 0 {
        assert(s.owned().insert(call.block()) =~= s.adopt_title(bytes, mem).owned());
    }
}

/// A context that was just placed in a granted block is sound.
pub proof fn lemma_fresh_sound(block: HostBlock)
    requires
        block.mem != 0,
    ensures
        WindowModel::fresh(block).sound(),
{
    let call = HostCall::Alloc { size: block.size, align: block.align, mem: block.mem };
    lemma_outstanding_push(Seq::empty(), call);
    assert(Seq::<HostCall>::empty().push(call) =~= seq![call]);
    assert(Multiset::<HostBlock>::empty().insert(block) =~= Multiset::singleton(block));
}

} // verus!
