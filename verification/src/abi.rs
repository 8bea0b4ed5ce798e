//! The records that cross the boundary, the status codes, and the sizes that
//! the C layout gives to the negotiable tables.
use vstd::prelude::*;

verus! {

/// What every operation at the boundary answers with: one of the
/// `DNG_STATUS_` codes.
pub type dng_status_v1 = u32;

/// Names a window of a context. 0 names none.
pub type dng_window_handle_v1 = u64;

pub const DNG_STATUS_OK: dng_status_v1 = 0;

/// Failure without a more specific code, also of a body that did not run to
/// its end.
pub const DNG_STATUS_FAIL: dng_status_v1 = 1;

/// An argument was null, malformed or against a precondition; nothing has
/// changed.
pub const DNG_STATUS_INVALID_ARG: dng_status_v1 = 2;

/// The host's allocator answered with null.
pub const DNG_STATUS_OUT_OF_MEMORY: dng_status_v1 = 3;

/// The table is of another size or version than this module was built for.
pub const DNG_STATUS_UNSUPPORTED: dng_status_v1 = 4;

/// The one version of the tables that this module speaks.
pub const DNG_ABI_VERSION_V1: u32 = 1;

/// The prefix of every negotiable table.
#[derive(Clone, Copy, Debug, PartialEq, Eq, Structural)]
pub struct dng_abi_header_v1 {
    pub struct_size: u32,
    pub abi_version: u32,
}

/// A borrowed run of bytes: `size` bytes starting at `data`. A null `data` is
/// `None`.
#[derive(Clone, Copy, Debug)]
pub struct dng_str_view_v1<'a> {
    pub data: Option<&'a [u8]>,
    pub size: u32,
}

/// What a window is created from. No flag is defined yet: `flags` must be 0.
#[derive(Clone, Copy, Debug)]
pub struct dng_window_desc_v1<'a> {
    pub width: u32,
    pub height: u32,
    pub title: dng_str_view_v1<'a>,
    pub flags: u32,
}

/// Width and height of a window.
#[derive(Clone, Copy, Debug, PartialEq, Eq, Structural)]
pub struct dng_window_size_v1 {
    pub width: u32,
    pub height: u32,
}

impl dng_abi_header_v1 {
    /// A receiver that was compiled with `struct_size` for the table takes the
    /// table only if both numbers agree exactly.
    pub open spec fn accepted_for(self, struct_size: u32) -> bool {
        self.struct_size == struct_size && self.abi_version == DNG_ABI_VERSION_V1
    }

    /// The header that this module writes in front of a table of `struct_size`
    /// bytes.
    pub open spec fn issued_for(struct_size: u32) -> Self {
        dng_abi_header_v1 { struct_size, abi_version: DNG_ABI_VERSION_V1 }
    }
}

impl<'a> dng_str_view_v1<'a> {
    /// The view names bytes that are not there: it is not empty, and its data
    /// is null or shorter than `size`.
    pub open spec fn malformed(self) -> bool {
        self.size > 0 && (self.data is None || self.data->0@.len() < self.size)
    }

    /// The bytes that the view denotes. A view of size zero denotes none,
    /// whatever its data.
    pub open spec fn bytes(self) -> Seq<u8> {
        if self.size == 0 || self.malformed() {
            Seq::empty()
        } else {
            self.data->0@.take(self.size as int)
        }
    }

    /// Tells whether the view is malformed.
    pub fn is_malformed(&self) -> (bad: bool)
        ensures
            bad == self.malformed(),
    {
        if self.size == 0 {
            return false;
        }
        match self.data {
            None => true,
            Some(d) => {
                let size: u32 = self.size;
                d.len() < size as usize
            },
        }
    }
}

/// Bytes in a pointer on this target.
pub open spec fn pointer_bytes() -> nat {
    (usize::BITS / 8) as nat
}

/// The least multiple of `align` that is not below `offset`.
pub open spec fn aligned_up(offset: nat, align: nat) -> nat
    recommends
        align > 0,
{
    (((offset + align - 1) / (align as int)) * align) as nat
}

/// Size of the host's table in the C layout: the header, the user token and
/// three callbacks.
pub open spec fn host_api_size() -> nat {
    8 + 4 * pointer_bytes()
}

/// Size of a string view in the C layout: a pointer and a 32-bit length,
/// padded to the pointer's alignment.
pub open spec fn str_view_size() -> nat {
    aligned_up(pointer_bytes() + 4, pointer_bytes())
}

/// Size of the window table in the C layout: the header, the context pointer
/// and five entries.
pub open spec fn window_api_size() -> nat {
    8 + 6 * pointer_bytes()
}

/// Size of the module's table in the C layout: the header, the name, three
/// 32-bit version numbers, the window table at the next pointer boundary, and
/// the shutdown entry.
pub open spec fn module_api_size() -> nat {
    aligned_up(8 + str_view_size() + 12, pointer_bytes()) + window_api_size() + pointer_bytes()
}

/// The sizes of the tables on the two pointer widths there are.
pub proof fn lemma_table_sizes()
    ensures
        pointer_bytes() == 4 || pointer_bytes() == 8,
        pointer_bytes() == 8 ==> host_api_size() == 40 && str_view_size() == 16
            && window_api_size() == 56 && module_api_size() == 104,
        pointer_bytes() == 4 ==> host_api_size() == 24 && str_view_size() == 8
            && window_api_size() == 32 && module_api_size() == 64,
{
}

fn pointer_width() -> (p: u32)
    ensures
        p == pointer_bytes(),
        p == 4 || p == 8,
{
    usize::BITS / 8
}

/// Size of the host's table, as it must stand in the table's header.
pub fn host_api_struct_size() -> (n: u32)
    ensures
        n == host_api_size(),
{
    8 + 4 * pointer_width()
}

/// Size of the window table, as the module writes it in the table's header.
pub fn window_api_struct_size() -> (n: u32)
    ensures
        n == window_api_size(),
{
    8 + 6 * pointer_width()
}

/// Size of the module's table, as the module writes it in the table's header.
pub fn module_api_struct_size() -> (n: u32)
    ensures
        n == module_api_size(),
{
    proof {
        lemma_table_sizes();
    }
    let p: u32 = pointer_width();
    let name: u32 = (p + 4 + p - 1) / p * p;
    let window_at: u32 = (8 + name + 12 + p - 1) / p * p;
    window_at + window_api_struct_size() + p
}

} // verus!
