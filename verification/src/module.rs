//! The tables that the module answers with, its entry point and its shutdown.
use crate::abi::dng_abi_header_v1;
use crate::abi::dng_status_v1;
use crate::abi::dng_str_view_v1;
use crate::abi::host_api_size;
use crate::abi::host_api_struct_size;
use crate::abi::module_api_size;
use crate::abi::module_api_struct_size;
use crate::abi::window_api_size;
use crate::abi::window_api_struct_size;
use crate::abi::DNG_ABI_VERSION_V1;
use crate::abi::DNG_STATUS_FAIL;
use crate::abi::DNG_STATUS_INVALID_ARG;
use crate::abi::DNG_STATUS_OK;
use crate::abi::DNG_STATUS_OUT_OF_MEMORY;
use crate::abi::DNG_STATUS_UNSUPPORTED;
use crate::context::NullWindowCtx;
use crate::host::dng_host_api_v1;
use crate::host::HostBlock;
use crate::host::HostCall;
use crate::model::WindowModel;
use vstd::prelude::*;
use vstd::string::is_ascii_spec_bytes;
use vstd::string::StringSliceAdditionalSpecFns;

verus! {

/// The operations that an entry of the module's tables can be bound to. Each
/// stands for the guarded function of that name.
#[derive(Clone, Copy, Debug, PartialEq, Eq, Structural)]
pub enum ModuleEntry {
    WindowCreate,
    WindowDestroy,
    WindowPoll,
    WindowGetSize,
    WindowSetTitle,
    ModuleShutdown,
}

/// The window capability. `ctx` is the module's context, which the host
/// passes to every entry as the first argument.
pub struct dng_window_api_v1<L, A, F> {
    pub header: dng_abi_header_v1,
    pub ctx: Option<NullWindowCtx<L, A, F>>,
    pub create: Option<ModuleEntry>,
    pub destroy: Option<ModuleEntry>,
    pub poll: Option<ModuleEntry>,
    pub get_size: Option<ModuleEntry>,
    pub set_title: Option<ModuleEntry>,
}

/// What the module answers the host with.
pub struct dng_module_api_v1<L, A, F> {
    pub header: dng_abi_header_v1,
    pub module_name: dng_str_view_v1<'static>,
    pub module_version_major: u32,
    pub module_version_minor: u32,
    pub module_version_patch: u32,
    pub window: dng_window_api_v1<L, A, F>,
    pub shutdown: Option<ModuleEntry>,
}

/// The module's name, in ASCII.
pub open spec fn module_name() -> Seq<u8> {
    seq![82u8, 117u8, 115u8, 116u8, 78u8, 117u8, 108u8, 108u8, 87u8, 105u8, 110u8, 100u8, 111u8, 119u8]
}

fn module_name_view() -> (view: dng_str_view_v1<'static>)
    ensures
        !view.malformed(),
        view.bytes() == module_name(),
{
    let name: &'static str = "RustNullWindow";
    proof {
        reveal_strlit("RustNullWindow");
        is_ascii_spec_bytes(name);
        assert(name.spec_bytes() =~= module_name());
    }
    let view = dng_str_view_v1 { data: Some(name.as_bytes()), size: 14 };
    assert(view.bytes() =~= module_name());
    view
}

impl<L, A: Fn(usize, u64, u64) -> usize, F: Fn(usize, usize, u64, u64)> dng_module_api_v1<L, A, F> {
    /// The table is the one that the entry point writes for `host` once the
    /// host has granted the block at `base` for the context: every header
    /// carries the size of its table and the supported version, every entry
    /// is bound, and the context is in its first state.
    pub open spec fn bound_to(&self, host: dng_host_api_v1<L, A, F>, base: usize) -> bool {
        &&& self.header == dng_abi_header_v1::issued_for(module_api_size() as u32)
        &&& !self.module_name.malformed()
        &&& self.module_name.bytes() == module_name()
        &&& self.module_version_major == 1
        &&& self.module_version_minor == 0
        &&& self.module_version_patch == 0
        &&& self.window.header == dng_abi_header_v1::issued_for(window_api_size() as u32)
        &&& self.window.create == Some(ModuleEntry::WindowCreate)
        &&& self.window.destroy == Some(ModuleEntry::WindowDestroy)
        &&& self.window.poll == Some(ModuleEntry::WindowPoll)
        &&& self.window.get_size == Some(ModuleEntry::WindowGetSize)
        &&& self.window.set_title == Some(ModuleEntry::WindowSetTitle)
        &&& self.shutdown == Some(ModuleEntry::ModuleShutdown)
        &&& base != 0
        &&& self.window.ctx is Some
        &&& self.window.ctx->0.wf()
        &&& self.window.ctx->0.host_table() == host
        &&& self.window.ctx->0@ == WindowModel::fresh(
            HostBlock {
                mem: base,
                size: NullWindowCtx::<L, A, F>::block_size() as u64,
                align: NullWindowCtx::<L, A, F>::block_align() as u64,
            },
        )
    }

    /// A table that nothing has been written to: zero headers, no context, no
    /// entry bound.
    pub fn unbound() -> (table: Self)
        ensures
            table.header == (dng_abi_header_v1 { struct_size: 0, abi_version: 0 }),
            table.window.header == (dng_abi_header_v1 { struct_size: 0, abi_version: 0 }),
            table.module_name.size == 0,
            table.window.ctx is None,
            table.window.create is None,
            table.window.destroy is None,
            table.window.poll is None,
            table.window.get_size is None,
            table.window.set_title is None,
            table.shutdown is None,
    {
        dng_module_api_v1 {
            header: dng_abi_header_v1 { struct_size: 0, abi_version: 0 },
            module_name: dng_str_view_v1 { data: None, size: 0 },
            module_version_major: 0,
            module_version_minor: 0,
            module_version_patch: 0,
            window: dng_window_api_v1 {
                header: dng_abi_header_v1 { struct_size: 0, abi_version: 0 },
                ctx: None,
                create: None,
                destroy: None,
                poll: None,
                get_size: None,
                set_title: None,
            },
            shutdown: None,
        }
    }
}

/// The second half of the entry point: takes the host's answer `mem` to the
/// request for the context's block. With 0 it reports that memory ran out and
/// writes nothing; otherwise it places a context in its first state at `mem`
/// and writes the module's table.
pub fn bind_module<L: Copy, A: Fn(usize, u64, u64) -> usize + Copy, F: Fn(usize, usize, u64, u64) + Copy>(
    host: &dng_host_api_v1<L, A, F>,
    out_api: &mut dng_module_api_v1<L, A, F>,
    mem: usize,
) -> (status: dng_status_v1)
    requires
        host.alloc is Some,
        host.free is Some,
        host.callable(),
    ensures
        status == if mem == 0 {
            DNG_STATUS_OUT_OF_MEMORY
        } else {
            DNG_STATUS_OK
        },
        mem == 0 ==> *final(out_api) == *old(out_api),
        mem != 0 ==> final(out_api).bound_to(*host, mem),
{
    if mem == 0 {
        return DNG_STATUS_OUT_OF_MEMORY;
    }
    let ctx = NullWindowCtx::place(*host, mem);
    *out_api = dng_module_api_v1 {
        header: dng_abi_header_v1 {
            struct_size: module_api_struct_size(),
            abi_version: DNG_ABI_VERSION_V1,
        },
        module_name: module_name_view(),
        module_version_major: 1,
        module_version_minor: 0,
        module_version_patch: 0,
        window: dng_window_api_v1 {
            header: dng_abi_header_v1 {
                struct_size: window_api_struct_size(),
                abi_version: DNG_ABI_VERSION_V1,
            },
            ctx: Some(ctx),
            create: Some(ModuleEntry::WindowCreate),
            destroy: Some(ModuleEntry::WindowDestroy),
            poll: Some(ModuleEntry::WindowPoll),
            get_size: Some(ModuleEntry::WindowGetSize),
            set_title: Some(ModuleEntry::WindowSetTitle),
        },
        shutdown: Some(ModuleEntry::ModuleShutdown),
    };
    DNG_STATUS_OK
}

/// What the entry point answers before it asks the host for anything: the
/// status with which it turns the call down, or `None` where the host table is
/// one that the module can work with.
pub open spec fn refusal<L, A, F>(
    host: Option<&dng_host_api_v1<L, A, F>>,
    has_out: bool,
) -> Option<dng_status_v1> {
    if host is None || !has_out {
        Some(DNG_STATUS_INVALID_ARG)
    } else if !host->0.header.accepted_for(host_api_size() as u32) {
        Some(DNG_STATUS_UNSUPPORTED)
    } else if host->0.alloc is None || host->0.free is None {
        Some(DNG_STATUS_INVALID_ARG)
    } else {
        None
    }
}

/// The module's entry point. Turns the call down as `refusal` says, without
/// asking the host for anything and without writing anything. Otherwise it
/// asks the host's allocator once, for a block of the context's size and
/// alignment, and goes on as `bind_module` does with the answer: on success
/// the table is written in full, and the context in it has made that one
/// request.
pub fn dngModuleGetApi_v1<L: Copy, A: Fn(usize, u64, u64) -> usize + Copy, F: Fn(usize, usize, u64, u64) + Copy>(
    host: Option<&dng_host_api_v1<L, A, F>>,
    out_api: Option<&mut dng_module_api_v1<L, A, F>>,
) -> (status: dng_status_v1)
    requires
        host is Some ==> host->0.callable(),
    ensures
        refusal(host, out_api is Some) is Some ==> status == refusal(host, out_api is Some)->0,
        refusal(host, out_api is Some) is None ==> {
            &&& status == DNG_STATUS_OK || status == DNG_STATUS_OUT_OF_MEMORY
            &&& host->0.answered(
                HostCall::Alloc {
                    size: NullWindowCtx::<L, A, F>::block_size() as u64,
                    align: NullWindowCtx::<L, A, F>::block_align() as u64,
                    mem: if status == DNG_STATUS_OK {
                        final(out_api->0).window.ctx->0@.block.mem
                    } else {
                        0
                    },
                },
            )
        },
        out_api is Some ==> if status == DNG_STATUS_OK {
            &&& final(out_api->0).bound_to(*host->0, final(out_api->0).window.ctx->0@.block.mem)
            &&& final(out_api->0).window.ctx->0.witnessed_from(0)
        } else {
            *final(out_api->0) == *old(out_api->0)
        },
        status == DNG_STATUS_OK ==> out_api is Some,
{
    let h = match host {
        Some(h) => h,
        None => return DNG_STATUS_INVALID_ARG,
    };
    let out = match out_api {
        Some(out) => out,
        None => return DNG_STATUS_INVALID_ARG,
    };
    if h.header.struct_size != host_api_struct_size() || h.header.abi_version
        != DNG_ABI_VERSION_V1 {
        return DNG_STATUS_UNSUPPORTED;
    }
    if h.alloc.is_none() || h.free.is_none() {
        return DNG_STATUS_INVALID_ARG;
    }
    let ctx_mem = h.request(
        NullWindowCtx::<L, A, F>::block_bytes(),
        NullWindowCtx::<L, A, F>::block_alignment(),
    );
    bind_module(h, out, ctx_mem)
}

/// Ends the module: gives the title buffer back through the context's own
/// host table, then the context's block through `host`, with the size and
/// alignment it was asked for with. Without a context, without a host table
/// or with a host table that has no `free`, the call is invalid: it changes
/// nothing and asks nothing of the host, and the context stays alive.
///
/// After a successful call the context is no longer `wf`: no operation may be
/// asked of it again.
pub fn module_shutdown<L, A: Fn(usize, u64, u64) -> usize, F: Fn(usize, usize, u64, u64)>(
    raw_ctx: Option<&mut NullWindowCtx<L, A, F>>,
    host: Option<&dng_host_api_v1<L, A, F>>,
) -> (status: dng_status_v1)
    requires
        raw_ctx is Some ==> old(raw_ctx->0).wf(),
        host is Some ==> host->0.callable(),
    ensures
        status == if raw_ctx is Some && host is Some && host->0.free is Some {
            DNG_STATUS_OK
        } else {
            DNG_STATUS_INVALID_ARG
        },
        raw_ctx is Some ==> {
            &&& final(raw_ctx->0).host_table() == old(raw_ctx->0).host_table()
            &&& final(raw_ctx->0)@ == if host is None || host->0.free is None {
                old(raw_ctx->0)@
            } else {
                old(raw_ctx->0)@.shutdown()
            }
            &&& status != DNG_STATUS_OK ==> final(raw_ctx->0).wf()
            &&& status == DNG_STATUS_OK ==> host->0.answered(final(raw_ctx->0)@.calls.last())
                && forall|i: int|
                old(raw_ctx->0)@.calls.len() <= i < final(raw_ctx->0)@.calls.len() - 1
                    ==> final(raw_ctx->0).host_table().answered(
                    #[trigger] final(raw_ctx->0)@.calls[i],
                )
        },
{
    let ctx = match raw_ctx {
        Some(ctx) => ctx,
        None => return DNG_STATUS_INVALID_ARG,
    };
    let h = match host {
        Some(h) => h,
        None => return DNG_STATUS_INVALID_ARG,
    };
    if h.free.is_none() {
        return DNG_STATUS_INVALID_ARG;
    }
    ctx.free_title();
    let size: u64 = NullWindowCtx::<L, A, F>::block_bytes();
    let align: u64 = NullWindowCtx::<L, A, F>::block_alignment();
    let ghost call = HostCall::Free { mem: ctx.base, size, align };
    h.release(ctx.base, size, align);
    proof {
        ctx.calls = Ghost(ctx.calls@.push(call));
    }
    DNG_STATUS_OK
}

/// The status that a guarded entry answers with: the status that its body
/// came to, or the generic failure where the body did not come to one.
pub fn catch_unwind_status(outcome: Option<dng_status_v1>) -> (status: dng_status_v1)
    ensures
        status == match outcome {
            Some(s) => s,
            None => DNG_STATUS_FAIL,
        },
{
    match outcome {
        Some(s) => s,
        None => DNG_STATUS_FAIL,
    }
}

} // verus!
