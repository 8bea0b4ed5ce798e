//! What holds of the window state machine across calls.
use crate::abi::dng_str_view_v1;
use crate::abi::dng_window_desc_v1;
use crate::abi::dng_window_handle_v1;
use crate::abi::dng_window_size_v1;
use crate::abi::host_api_size;
use crate::abi::DNG_ABI_VERSION_V1;
use crate::abi::DNG_STATUS_FAIL;
use crate::abi::DNG_STATUS_INVALID_ARG;
use crate::abi::DNG_STATUS_OK;
use crate::abi::DNG_STATUS_UNSUPPORTED;
use crate::host::dng_host_api_v1;
use crate::host::granted;
use crate::host::lemma_grants_balance;
use crate::host::lemma_outstanding_push;
use crate::host::outstanding;
use crate::host::paired;
use crate::host::released;
use crate::host::HostCall;
use crate::model::lemma_adopt_title_sound;
use crate::model::lemma_drop_title_sound;
use crate::model::Outcome;
use crate::model::TitleModel;
use crate::model::WindowModel;
use crate::model::WINDOW_HANDLE;
use crate::module::refusal;
use vstd::multiset::Multiset;
use vstd::prelude::*;

verus! {

/// A host table with the right size in its header, the supported version and
/// both allocator callbacks is never turned down: all that can keep the entry
/// point from succeeding is the host's own refusal to grant memory.
pub proof fn law_valid_table_accepted<L, A, F>(host: &dng_host_api_v1<L, A, F>)
    requires
        host.header.struct_size == host_api_size(),
        host.header.abi_version == DNG_ABI_VERSION_V1,
        host.alloc is Some,
        host.free is Some,
    ensures
        refusal(Some(host), true) is None,
{
}

/// A host table of another version is turned down as unsupported, whatever
/// else it holds.
pub proof fn law_version_gate<L, A, F>(host: &dng_host_api_v1<L, A, F>)
    requires
        host.header.abi_version != DNG_ABI_VERSION_V1,
    ensures
        refusal(Some(host), true) == Some(DNG_STATUS_UNSUPPORTED),
{
}

/// Every window operation keeps a sound context sound: after each of them the
/// context refers to exactly the blocks that the module holds.
pub proof fn law_operations_keep_books(
    s: WindowModel,
    desc: dng_window_desc_v1,
    handle: dng_window_handle_v1,
    title: dng_str_view_v1,
    mem: usize,
)
    requires
        s.sound(),
    ensures
        s.create(desc, mem).state.sound(),
        s.destroy(handle).state.sound(),
        s.set_title(handle, title, mem).state.sound(),
{
    let sized = WindowModel {
        size: dng_window_size_v1 { width: desc.width, height: desc.height },
        ..s
    };
    assert(sized.owned() == s.owned());
    lemma_drop_title_sound(sized);
    lemma_drop_title_sound(s);
    if desc.title.size > 0 && !desc.title.malformed() {
        lemma_adopt_title_sound(sized.drop_title(), desc.title.bytes(), mem);
        let adopted = sized.drop_title().adopt_title(desc.title.bytes(), mem);
        assert((WindowModel { handle: WINDOW_HANDLE, ..adopted }).owned() == adopted.owned());
    }
    assert((WindowModel { handle: WINDOW_HANDLE, ..sized.drop_title() }).owned()
        == sized.drop_title().owned());
    if title.size > 0 && !title.malformed() {
        lemma_adopt_title_sound(s.drop_title(), title.bytes(), mem);
    }
    let cleared = WindowModel {
        handle: 0,
        size: dng_window_size_v1 { width: 0, height: 0 },
        ..s.drop_title()
    };
    assert(cleared.owned() == s.drop_title().owned());
}

/// A window that was just created has the handle that was written out, and a
/// query with that handle is answered with exactly the width and height of the
/// description.
pub proof fn law_create_then_get_size(s: WindowModel, desc: dng_window_desc_v1, mem: usize)
    requires
        s.create(desc, mem).status == DNG_STATUS_OK,
    ensures
        s.create(desc, mem).state.get_size(WINDOW_HANDLE) == Some(
            dng_window_size_v1 { width: desc.width, height: desc.height },
        ),
{
}

/// After a successful create the title buffer holds the bytes of the
/// description's title, in the block that the host granted for them; an empty
/// title leaves the window without a buffer.
pub proof fn law_create_title(s: WindowModel, desc: dng_window_desc_v1, mem: usize)
    requires
        s.create(desc, mem).status == DNG_STATUS_OK,
    ensures
        s.create(desc, mem).state.title == if desc.title.size == 0 {
            None
        } else {
            Some(TitleModel { mem, bytes: desc.title.bytes() })
        },
        desc.title.size > 0 ==> mem != 0 && desc.title.bytes().len() == desc.title.size,
{
}

/// Create with one title, set another, destroy, create with a third: the
/// context ends with the third title alone. The blocks of the first two have
/// gone back to the host, each exactly once, so that the granted requests
/// outnumber the releases by the blocks still referred to.
pub proof fn law_titles_replace_each_other(
    s: WindowModel,
    first: dng_window_desc_v1,
    mem1: usize,
    second: dng_str_view_v1,
    mem2: usize,
    third: dng_window_desc_v1,
    mem3: usize,
)
    requires
        s.sound(),
        s.create(first, mem1).status == DNG_STATUS_OK,
        s.create(first, mem1).state.set_title(WINDOW_HANDLE, second, mem2).status
            == DNG_STATUS_OK,
        s.create(first, mem1).state.set_title(WINDOW_HANDLE, second, mem2).state.destroy(
            WINDOW_HANDLE,
        ).state.create(third, mem3).status == DNG_STATUS_OK,
    ensures
        ({
            let end = s.create(first, mem1).state.set_title(
                WINDOW_HANDLE,
                second,
                mem2,
            ).state.destroy(WINDOW_HANDLE).state.create(third, mem3).state;
            &&& end.title == if third.title.size == 0 {
                None
            } else {
                Some(TitleModel { mem: mem3, bytes: third.title.bytes() })
            }
            &&& end.sound()
            &&& outstanding(end.calls) == end.owned()
            &&& granted(end.calls) == released(end.calls) + end.owned().len()
        }),
{
    let s1 = s.create(first, mem1).state;
    let s2 = s1.set_title(WINDOW_HANDLE, second, mem2).state;
    let s3 = s2.destroy(WINDOW_HANDLE).state;
    let end = s3.create(third, mem3).state;
    law_operations_keep_books(s, first, WINDOW_HANDLE, second, mem1);
    law_operations_keep_books(s1, first, WINDOW_HANDLE, second, mem2);
    law_operations_keep_books(s2, third, WINDOW_HANDLE, second, mem3);
    law_operations_keep_books(s3, third, WINDOW_HANDLE, second, mem3);
    lemma_grants_balance(end.calls);
}

/// Destroying with handle 0 is invalid and leaves the context as it was: in
/// particular nothing is asked of the host's allocator.
pub proof fn law_destroy_without_window(s: WindowModel)
    ensures
        s.destroy(0) == (Outcome { state: s, status: DNG_STATUS_INVALID_ARG }),
        s.destroy(0).state.calls == s.calls,
{
}

/// A second create without a destroy in between fails, and the window of the
/// first create keeps its handle, its size and its title.
pub proof fn law_second_create_fails(
    s: WindowModel,
    first: dng_window_desc_v1,
    mem1: usize,
    second: dng_window_desc_v1,
    mem2: usize,
)
    requires
        s.create(first, mem1).status == DNG_STATUS_OK,
    ensures
        s.create(first, mem1).state.create(second, mem2) == (Outcome {
            state: s.create(first, mem1).state,
            status: DNG_STATUS_FAIL,
        }),
{
}

/// A title that claims bytes but has no data is turned down as invalid without
/// touching the context: by set-title always, and by create whenever there is
/// no window yet.
pub proof fn law_title_without_data(
    s: WindowModel,
    desc: dng_window_desc_v1,
    handle: dng_window_handle_v1,
    mem: usize,
)
    requires
        desc.title.size > 0,
        desc.title.data is None,
    ensures
        s.set_title(handle, desc.title, mem) == (Outcome {
            state: s,
            status: DNG_STATUS_INVALID_ARG,
        }),
        s.handle == 0 ==> s.create(desc, mem) == (Outcome {
            state: s,
            status: DNG_STATUS_INVALID_ARG,
        }),
{
}

/// An operation that answers invalid-argument, or that fails, leaves the
/// context as it was: nothing is recorded, released or asked for.
pub proof fn law_refusals_change_nothing(
    s: WindowModel,
    desc: dng_window_desc_v1,
    handle: dng_window_handle_v1,
    title: dng_str_view_v1,
    mem: usize,
)
    ensures
        s.create(desc, mem).status == DNG_STATUS_INVALID_ARG || s.create(desc, mem).status
            == DNG_STATUS_FAIL ==> s.create(desc, mem).state == s,
        s.destroy(handle).status == DNG_STATUS_INVALID_ARG ==> s.destroy(handle).state == s,
        s.set_title(handle, title, mem).status == DNG_STATUS_INVALID_ARG ==> s.set_title(
            handle,
            title,
            mem,
        ).state == s,
        s.copy_title(title, mem).status == DNG_STATUS_INVALID_ARG ==> s.copy_title(
            title,
            mem,
        ).state == s,
{
}

/// Shutdown gives back all that the module holds: afterwards no block is
/// outstanding, no release was unpaired, and the releases are as many as the
/// granted requests.
pub proof fn law_shutdown_releases_all(s: WindowModel)
    requires
        s.sound(),
    ensures
        paired(s.shutdown().calls),
        outstanding(s.shutdown().calls) == Multiset::<crate::host::HostBlock>::empty(),
        granted(s.shutdown().calls) == released(s.shutdown().calls),
{
    lemma_drop_title_sound(s);
    let untitled = s.drop_title();
    let call = HostCall::Free { mem: s.block.mem, size: s.block.size, align: s.block.align };
    lemma_outstanding_push(untitled.calls, call);
    assert(untitled.owned().remove(s.block) =~= Multiset::empty());
    lemma_grants_balance(s.shutdown().calls);
}

} // verus!
