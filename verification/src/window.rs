//! The window operations that the module offers to the host. Each takes the
//! context as its first argument and answers with one status code.
use crate::abi::dng_status_v1;
use crate::abi::dng_str_view_v1;
use crate::abi::dng_window_desc_v1;
use crate::abi::dng_window_handle_v1;
use crate::abi::dng_window_size_v1;
use crate::abi::DNG_STATUS_FAIL;
use crate::abi::DNG_STATUS_INVALID_ARG;
use crate::abi::DNG_STATUS_OK;
use crate::context::NullWindowCtx;
use crate::host::last_answer;
use crate::model::Outcome;
use crate::model::WINDOW_HANDLE;
use vstd::prelude::*;

verus! {

/// Creates the window. Without a context, a description or a place for the
/// handle the call is invalid and changes nothing. Otherwise the context goes
/// where `WindowModel::create` says, for the answer that the host gave if it
/// was asked for a title buffer, and the handle is written only on success.
pub fn window_create<L, A: Fn(usize, u64, u64) -> usize, F: Fn(usize, usize, u64, u64)>(
    raw_ctx: Option<&mut NullWindowCtx<L, A, F>>,
    desc: Option<&dng_window_desc_v1>,
    out_handle: Option<&mut dng_window_handle_v1>,
) -> (status: dng_status_v1)
    requires
        raw_ctx is Some ==> old(raw_ctx->0).wf(),
    ensures
        raw_ctx is Some ==> final(raw_ctx->0).wf(),
        raw_ctx is Some ==> final(raw_ctx->0).host_table() == old(raw_ctx->0).host_table(),
        raw_ctx is None || desc is None || out_handle is None ==> {
            &&& status == DNG_STATUS_INVALID_ARG
            &&& raw_ctx is Some ==> final(raw_ctx->0)@ == old(raw_ctx->0)@
            &&& out_handle is Some ==> *final(out_handle->0) == *old(out_handle->0)
        },
        raw_ctx is Some && desc is Some && out_handle is Some ==> {
            &&& (Outcome { state: final(raw_ctx->0)@, status }) == old(raw_ctx->0)@.create(
                *desc->0,
                last_answer(final(raw_ctx->0)@.calls),
            )
            &&& *final(out_handle->0) == if status == DNG_STATUS_OK {
                WINDOW_HANDLE
            } else {
                *old(out_handle->0)
            }
        },
        raw_ctx is Some ==> final(raw_ctx->0).witnessed_from(old(raw_ctx->0)@.calls.len() as int),
{
    let ctx = match raw_ctx {
        Some(ctx) => ctx,
        None => return DNG_STATUS_INVALID_ARG,
    };
    let d = match desc {
        Some(d) => d,
        None => return DNG_STATUS_INVALID_ARG,
    };
    let out = match out_handle {
        Some(out) => out,
        None => return DNG_STATUS_INVALID_ARG,
    };
    if ctx.handle != 0 {
        return DNG_STATUS_FAIL;
    }
    if d.flags != 0 {
        return DNG_STATUS_INVALID_ARG;
    }
    if d.title.is_malformed() {
        return DNG_STATUS_INVALID_ARG;
    }
    ctx.size.width = d.width;
    ctx.size.height = d.height;
    ctx.free_title();
    let title_status = ctx.alloc_copy_title(d.title);
    if title_status != DNG_STATUS_OK {
        return title_status;
    }
    ctx.handle = WINDOW_HANDLE;
    *out = ctx.handle;
    DNG_STATUS_OK
}

/// Destroys the window that `handle` names: gives the title buffer back and
/// clears handle and size. With no context, with handle 0 or with a handle
/// that is not the window's, the call is invalid, changes nothing and asks
/// nothing of the host.
pub fn window_destroy<L, A: Fn(usize, u64, u64) -> usize, F: Fn(usize, usize, u64, u64)>(
    raw_ctx: Option<&mut NullWindowCtx<L, A, F>>,
    handle: dng_window_handle_v1,
) -> (status: dng_status_v1)
    requires
        raw_ctx is Some ==> old(raw_ctx->0).wf(),
    ensures
        raw_ctx is None ==> status == DNG_STATUS_INVALID_ARG,
        raw_ctx is Some ==> {
            &&& final(raw_ctx->0).wf()
            &&& final(raw_ctx->0).host_table() == old(raw_ctx->0).host_table()
            &&& (Outcome { state: final(raw_ctx->0)@, status }) == old(raw_ctx->0)@.destroy(handle)
            &&& final(raw_ctx->0).witnessed_from(old(raw_ctx->0)@.calls.len() as int)
        },
{
    let ctx = match raw_ctx {
        Some(ctx) => ctx,
        None => return DNG_STATUS_INVALID_ARG,
    };
    if handle == 0 {
        return DNG_STATUS_INVALID_ARG;
    }
    if ctx.handle != handle {
        return DNG_STATUS_INVALID_ARG;
    }
    ctx.free_title();
    ctx.handle = 0;
    ctx.size.width = 0;
    ctx.size.height = 0;
    DNG_STATUS_OK
}

/// Where a real module would pump its event queue. Succeeds whenever there is
/// a context, and cannot change it.
pub fn window_poll<L, A, F>(raw_ctx: Option<&NullWindowCtx<L, A, F>>) -> (status:
    dng_status_v1)
    ensures
        status == if raw_ctx is Some {
            DNG_STATUS_OK
        } else {
            DNG_STATUS_INVALID_ARG
        },
{
    match raw_ctx {
        Some(_) => DNG_STATUS_OK,
        None => DNG_STATUS_INVALID_ARG,
    }
}

/// Writes the size of the window that `handle` names to `out_size`. Succeeds
/// exactly when there are a context and a place to write to and `handle`
/// names the context's window; writes nothing otherwise.
pub fn window_get_size<L, A, F>(
    raw_ctx: Option<&NullWindowCtx<L, A, F>>,
    handle: dng_window_handle_v1,
    out_size: Option<&mut dng_window_size_v1>,
) -> (status: dng_status_v1)
    ensures
        status == if raw_ctx is Some && out_size is Some && raw_ctx->0@.get_size(handle) is Some {
            DNG_STATUS_OK
        } else {
            DNG_STATUS_INVALID_ARG
        },
        out_size is Some ==> *final(out_size->0) == if status == DNG_STATUS_OK {
            raw_ctx->0@.get_size(handle)->0
        } else {
            *old(out_size->0)
        },
{
    let ctx = match raw_ctx {
        Some(ctx) => ctx,
        None => return DNG_STATUS_INVALID_ARG,
    };
    let out = match out_size {
        Some(out) => out,
        None => return DNG_STATUS_INVALID_ARG,
    };
    if handle == 0 {
        return DNG_STATUS_INVALID_ARG;
    }
    if ctx.handle != handle {
        return DNG_STATUS_INVALID_ARG;
    }
    *out = ctx.size;
    DNG_STATUS_OK
}

/// Replaces the title of the window that `handle` names. The old buffer goes
/// back to the host before the new one is asked for, so that a refusal leaves
/// the window without a title.
pub fn window_set_title<L, A: Fn(usize, u64, u64) -> usize, F: Fn(usize, usize, u64, u64)>(
    raw_ctx: Option<&mut NullWindowCtx<L, A, F>>,
    handle: dng_window_handle_v1,
    title: dng_str_view_v1,
) -> (status: dng_status_v1)
    requires
        raw_ctx is Some ==> old(raw_ctx->0).wf(),
    ensures
        raw_ctx is None ==> status == DNG_STATUS_INVALID_ARG,
        raw_ctx is Some ==> {
            &&& final(raw_ctx->0).wf()
            &&& final(raw_ctx->0).host_table() == old(raw_ctx->0).host_table()
            &&& (Outcome { state: final(raw_ctx->0)@, status }) == old(raw_ctx->0)@.set_title(
                handle,
                title,
                last_answer(final(raw_ctx->0)@.calls),
            )
            &&& final(raw_ctx->0).witnessed_from(old(raw_ctx->0)@.calls.len() as int)
        },
{
    let ctx = match raw_ctx {
        Some(ctx) => ctx,
        None => return DNG_STATUS_INVALID_ARG,
    };
    if handle == 0 {
        return DNG_STATUS_INVALID_ARG;
    }
    if ctx.handle != handle {
        return DNG_STATUS_INVALID_ARG;
    }
    if title.is_malformed() {
        return DNG_STATUS_INVALID_ARG;
    }
    ctx.free_title();
    ctx.alloc_copy_title(title)
}

} // verus!
