//! The module's private context and the care of its title buffer.
use crate::abi::dng_status_v1;
use crate::abi::dng_str_view_v1;
use crate::abi::dng_window_handle_v1;
use crate::abi::dng_window_size_v1;
use crate::abi::DNG_STATUS_INVALID_ARG;
use crate::abi::DNG_STATUS_OK;
use crate::abi::DNG_STATUS_OUT_OF_MEMORY;
use crate::host::dng_host_api_v1;
use crate::host::last_answer;
use crate::host::HostBlock;
use crate::host::HostCall;
use crate::model::lemma_adopt_title_sound;
use crate::model::lemma_drop_title_sound;
use crate::model::lemma_fresh_sound;
use crate::model::Outcome;
use crate::model::TitleModel;
use crate::model::WindowModel;
use vstd::prelude::*;

verus! {

/// The state that the module keeps between calls. The host holds it only as an
/// opaque token and passes it back on every call.
///
/// The context records where its title buffer is and how long; which bytes the
/// buffer is to hold is part of its value. Moving the bytes into the host's
/// memory is left to the code that owns the raw addresses.
pub struct NullWindowCtx<L, A, F> {
    pub(crate) host: dng_host_api_v1<L, A, F>,
    pub(crate) base: usize,
    pub(crate) handle: dng_window_handle_v1,
    pub(crate) size: dng_window_size_v1,
    pub(crate) title: usize,
    pub(crate) title_size: u32,
    pub(crate) title_bytes: Ghost<Seq<u8>>,
    pub(crate) calls: Ghost<Seq<HostCall>>,
}

impl<L, A, F> View for NullWindowCtx<L, A, F> {
    type V = WindowModel;

    open(crate) spec fn view(&self) -> WindowModel {
        WindowModel {
            block: HostBlock {
                mem: self.base,
                size: Self::block_size() as u64,
                align: Self::block_align() as u64,
            },
            handle: self.handle,
            size: self.size,
            title: if self.title == 0 {
                None
            } else {
                Some(TitleModel { mem: self.title, bytes: self.title_bytes@ })
            },
            calls: self.calls@,
        }
    }
}

impl<L, A, F> NullWindowCtx<L, A, F> {
    /// Size of the block that a context is placed in.
    pub open spec fn block_size() -> nat {
        vstd::layout::size_of::<Self>()
    }

    /// Alignment of the block that a context is placed in.
    pub open spec fn block_align() -> nat {
        vstd::layout::align_of::<Self>()
    }

    /// The host table as it was handed to the entry point. The host keeps its
    /// table unchanged for as long as the module lives, so this is the host's
    /// table at every later call too.
    pub open(crate) spec fn host_table(&self) -> dng_host_api_v1<L, A, F> {
        self.host
    }

    /// Size in bytes of the block that a context is placed in.
    pub fn block_bytes() -> (size: u64)
        ensures
            size == Self::block_size(),
    {
        let size: usize = core::mem::size_of::<Self>();
        size as u64
    }

    /// Alignment in bytes of the block that a context is placed in.
    pub fn block_alignment() -> (align: u64)
        ensures
            align == Self::block_align(),
    {
        let align: usize = core::mem::align_of::<Self>();
        align as u64
    }

    /// Address of the block that the context lives in.
    pub fn base(&self) -> (mem: usize)
        ensures
            mem == self@.block.mem,
    {
        self.base
    }

    /// Handle of the window, 0 where there is none.
    pub fn handle(&self) -> (handle: dng_window_handle_v1)
        ensures
            handle == self@.handle,
    {
        self.handle
    }

    /// Size of the window as last recorded.
    pub fn size(&self) -> (size: dng_window_size_v1)
        ensures
            size == self@.size,
    {
        self.size
    }

    /// Address of the title buffer, or 0 where there is none.
    pub fn title_mem(&self) -> (mem: usize)
        ensures
            mem == match self@.title {
                Some(t) => t.mem,
                None => 0,
            },
    {
        self.title
    }

    /// The host table that the context works with.
    pub fn host(&self) -> (host: &dng_host_api_v1<L, A, F>)
        ensures
            *host == self.host_table(),
    {
        &self.host
    }
}

impl<L, A: Fn(usize, u64, u64) -> usize, F: Fn(usize, usize, u64, u64)> NullWindowCtx<L, A, F> {
    /// The invariant of a live context: it is sound, and its host table has
    /// both allocator callbacks.
    pub open(crate) spec fn wf(&self) -> bool {
        &&& self@.sound()
        &&& self.host.alloc is Some
        &&& self.host.free is Some
        &&& self.host.callable()
        &&& self.title == 0 ==> self.title_size == 0
        &&& self.title != 0 ==> self.title_bytes@.len() == self.title_size
    }

    /// Each request recorded from position `from` on was made of the host
    /// table's callbacks, with its user token, and holds the host's answer.
    pub open spec fn witnessed_from(&self, from: int) -> bool {
        forall|i: int|
            from <= i < self@.calls.len() ==> self.host_table().answered(#[trigger] self@.calls[i])
    }

    /// What the invariant gives to code outside this crate.
    pub proof fn lemma_wf(&self)
        requires
            self.wf(),
        ensures
            self@.sound(),
            self.host_table().alloc is Some,
            self.host_table().free is Some,
            self.host_table().callable(),
    {
    }

    /// Length of the title buffer in bytes, 0 where there is none.
    pub fn title_len(&self) -> (len: u32)
        ensures
            self.wf() ==> len == match self@.title {
                Some(t) => t.bytes.len(),
                None => 0,
            },
    {
        self.title_size
    }

    /// A context in its first state, placed in the block at `base` that the
    /// host granted for it.
    pub fn place(host: dng_host_api_v1<L, A, F>, base: usize) -> (ctx: Self)
        requires
            base != 0,
            host.alloc is Some,
            host.free is Some,
            host.callable(),
        ensures
            ctx.wf(),
            ctx.host_table() == host,
            ctx@ == WindowModel::fresh(
                HostBlock {
                    mem: base,
                    size: Self::block_size() as u64,
                    align: Self::block_align() as u64,
                },
            ),
    {
        let ghost block = HostBlock {
            mem: base,
            size: Self::block_size() as u64,
            align: Self::block_align() as u64,
        };
        proof {
            lemma_fresh_sound(block);
        }
        NullWindowCtx {
            host,
            base,
            handle: 0,
            size: dng_window_size_v1 { width: 0, height: 0 },
            title: 0,
            title_size: 0,
            title_bytes: Ghost(Seq::empty()),
            calls: Ghost(WindowModel::fresh(block).calls),
        }
    }

    /// Gives the title buffer back to the host, with the size it was asked for
    /// with, and forgets it. Does nothing where there is no buffer.
    pub fn free_title(&mut self)
        requires
            old(self).wf(),
        ensures
            final(self).wf(),
            final(self).host_table() == old(self).host_table(),
            final(self)@ == old(self)@.drop_title(),
            old(self).witnessed_from(0) ==> final(self).witnessed_from(0),
            final(self).witnessed_from(old(self)@.calls.len() as int),
    {
        if self.title != 0 {
            proof {
                lemma_drop_title_sound(self@);
            }
            let size: u32 = self.title_size;
            self.host.release(self.title, size as u64, 1);
            self.calls = Ghost(
                self.calls@.push(HostCall::Free { mem: self.title, size: size as u64, align: 1 }),
            );
            self.title = 0;
            self.title_size = 0;
            self.title_bytes = Ghost(Seq::empty());
        }
    }

    /// Takes the host's answer `mem` to a request for a block of `title.size`
    /// bytes: with 0 the context stays without a title and the call reports
    /// that memory ran out; otherwise the block becomes the title buffer,
    /// holding the bytes of `title`.
    pub fn adopt_title(&mut self, title: dng_str_view_v1, mem: usize) -> (status: dng_status_v1)
        requires
            old(self).wf(),
            old(self)@.title is None,
            title.size > 0,
            !title.malformed(),
        ensures
            final(self).wf(),
            final(self).host_table() == old(self).host_table(),
            final(self)@ == old(self)@.adopt_title(title.bytes(), mem),
            status == if mem == 0 {
                DNG_STATUS_OUT_OF_MEMORY
            } else {
                DNG_STATUS_OK
            },
    {
        proof {
            lemma_adopt_title_sound(self@, title.bytes(), mem);
        }
        self.calls = Ghost(
            self.calls@.push(HostCall::Alloc { size: title.size as u64, align: 1, mem }),
        );
        if mem == 0 {
            return DNG_STATUS_OUT_OF_MEMORY;
        }
        self.title = mem;
        self.title_size = title.size;
        self.title_bytes = Ghost(title.bytes());
        DNG_STATUS_OK
    }

    /// Gives a context without a title buffer a copy of `title`: asks the host
    /// for a byte-aligned block of `title.size` bytes and takes it. An empty
    /// title asks nothing of the host.
    pub fn alloc_copy_title(&mut self, title: dng_str_view_v1) -> (status: dng_status_v1)
        requires
            old(self).wf(),
            old(self)@.title is None,
        ensures
            final(self).wf(),
            final(self).host_table() == old(self).host_table(),
            (Outcome { state: final(self)@, status }) == old(self)@.copy_title(
                title,
                last_answer(final(self)@.calls),
            ),
            old(self).witnessed_from(0) ==> final(self).witnessed_from(0),
            final(self).witnessed_from(old(self)@.calls.len() as int),
    {
        if title.size == 0 {
            return DNG_STATUS_OK;
        }
        if title.is_malformed() {
            return DNG_STATUS_INVALID_ARG;
        }
        let size: u32 = title.size;
        let mem = self.host.request(size as u64, 1);
        self.adopt_title(title, mem)
    }
}

} // verus!
