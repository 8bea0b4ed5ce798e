//! The table of callbacks that the host lends to the module, and the record of
//! what the module has asked of the host's allocator.
use crate::abi::dng_abi_header_v1;
use crate::abi::dng_str_view_v1;
use vstd::multiset::Multiset;
use vstd::prelude::*;

verus! {

/// The host's capability table. `user` is the host's own token: the module
/// hands it back, unchanged, as the first argument of every callback.
///
/// `alloc(user, size, align)` answers with the address of a block, or with 0.
/// `free(user, mem, size, align)` takes a block back; size and alignment are
/// those that the block was asked for with.
#[derive(Clone, Copy)]
pub struct dng_host_api_v1<L, A, F> {
    pub header: dng_abi_header_v1,
    pub user: usize,
    pub log: Option<L>,
    pub alloc: Option<A>,
    pub free: Option<F>,
}

/// A block of the host's memory.
pub struct HostBlock {
    pub mem: usize,
    pub size: u64,
    pub align: u64,
}

/// One request to the host's allocator, with its answer.
pub enum HostCall {
    Alloc { size: u64, align: u64, mem: usize },
    Free { mem: usize, size: u64, align: u64 },
}

impl HostCall {
    /// The block that the request gave to the module or took from it.
    pub open spec fn block(self) -> HostBlock {
        match self {
            HostCall::Alloc { size, align, mem } => HostBlock { mem, size, align },
            HostCall::Free { mem, size, align } => HostBlock { mem, size, align },
        }
    }

    /// An allocation that the host granted.
    pub open spec fn grants(self) -> bool {
        self is Alloc && self->Alloc_mem != 0
    }
}

/// The blocks that a run of requests leaves with the module: each granted
/// allocation adds its block, each release takes its block away.
pub open spec fn outstanding(calls: Seq<HostCall>) -> Multiset<HostBlock>
    decreases calls.len(),
{
    if calls.len() == 0 {
        Multiset::empty()
    } else {
        let before = outstanding(calls.drop_last());
        let call = calls.last();
        if call.grants() {
            before.insert(call.block())
        } else if call is Free {
            before.remove(call.block())
        } else {
            before
        }
    }
}

/// Every release in the run gives back a block that the module held at that
/// moment, with the size and alignment it was granted with: nothing is
/// released twice and nothing foreign is released.
pub open spec fn paired(calls: Seq<HostCall>) -> bool
    decreases calls.len(),
{
    calls.len() > 0 ==> {
        &&& paired(calls.drop_last())
        &&& calls.last() is Free ==> outstanding(calls.drop_last()).count(calls.last().block()) > 0
    }
}

/// Number of granted allocations in the run.
pub open spec fn granted(calls: Seq<HostCall>) -> nat
    decreases calls.len(),
{
    if calls.len() == 0 {
        0
    } else {
        granted(calls.drop_last()) + if calls.last().grants() { 1nat } else { 0nat }
    }
}

/// Number of releases in the run.
pub open spec fn released(calls: Seq<HostCall>) -> nat
    decreases calls.len(),
{
    if calls.len() == 0 {
        0
    } else {
        released(calls.drop_last()) + if calls.last() is Free { 1nat } else { 0nat }
    }
}

/// The answer to the latest request, where that was an allocation; 0
/// otherwise.
pub open spec fn last_answer(calls: Seq<HostCall>) -> usize {
    if calls.len() > 0 && calls.last() is Alloc {
        calls.last()->Alloc_mem
    } else {
        0
    }
}

/// Appending one request changes the held blocks by that request alone.
pub proof fn lemma_outstanding_push(calls: Seq<HostCall>, call: HostCall)
    ensures
        outstanding(calls.push(call)) == if call.grants() {
            outstanding(calls).insert(call.block())
        } else if call is Free {
            outstanding(calls).remove(call.block())
        } else {
            outstanding(calls)
        },
        paired(calls.push(call)) == (paired(calls) && (call is Free ==> outstanding(calls).count(
            call.block(),
        ) > 0)),
        granted(calls.push(call)) == granted(calls) + if call.grants() { 1nat } else { 0nat },
        released(calls.push(call)) == released(calls) + if call is Free { 1nat } else { 0nat },
{
    assert(calls.push(call).drop_last() =~= calls);
}

/// In a run where every release is paired, the granted allocations are the
/// releases plus the blocks still held.
pub proof fn lemma_grants_balance(calls: Seq<HostCall>)
    requires
        paired(calls),
    ensures
        granted(calls) == released(calls) + outstanding(calls).len(),
    decreases calls.len(),
{
    if calls.len() > 0 {
        lemma_grants_balance(calls.drop_last());
    }
}

impl<L, A: Fn(usize, u64, u64) -> usize, F: Fn(usize, usize, u64, u64)> dng_host_api_v1<L, A, F> {
    /// The allocator callbacks that are present may be called with any
    /// arguments.
    pub open spec fn callable(&self) -> bool {
        &&& self.alloc is Some ==> forall|user: usize, size: u64, align: u64|
            call_requires(self.alloc->0, (user, size, align))
        &&& self.free is Some ==> forall|user: usize, mem: usize, size: u64, align: u64|
            call_requires(self.free->0, (user, mem, size, align))
    }

    /// The request was made of this table's callbacks, with this table's user
    /// token, and `call` holds what came back.
    pub open spec fn answered(&self, call: HostCall) -> bool {
        match call {
            HostCall::Alloc { size, align, mem } => self.alloc is Some && call_ensures(
                self.alloc->0,
                (self.user, size, align),
                mem,
            ),
            HostCall::Free { mem, size, align } => self.free is Some && call_ensures(
                self.free->0,
                (self.user, mem, size, align),
                (),
            ),
        }
    }

    /// Asks the host for a block.
    pub fn request(&self, size: u64, align: u64) -> (mem: usize)
        requires
            self.alloc is Some,
            self.callable(),
        ensures
            self.answered(HostCall::Alloc { size, align, mem }),
    {
        match &self.alloc {
            Some(alloc_fn) => alloc_fn(self.user, size, align),
            None => 0,
        }
    }

    /// Gives a block back to the host.
    pub fn release(&self, mem: usize, size: u64, align: u64)
        requires
            self.free is Some,
            self.callable(),
        ensures
            self.answered(HostCall::Free { mem, size, align }),
    {
        match &self.free {
            Some(free_fn) => free_fn(self.user, mem, size, align),
            None => {},
        }
    }
}

/// Sends `msg` to the host's logger at `level`, with the host's user token, if
/// there is a host table and it has a logger; does nothing otherwise.
pub fn log_message<L: Fn(usize, u32, dng_str_view_v1<'static>), A, F>(
    host: Option<&dng_host_api_v1<L, A, F>>,
    level: u32,
    msg: &'static [u8],
)
    requires
        msg@.len() <= u32::MAX,
        host is Some && host->0.log is Some ==> call_requires(
            host->0.log->0,
            (host->0.user, level, (dng_str_view_v1 { data: Some(msg), size: msg@.len() as u32 })),
        ),
    ensures
        host is Some && host->0.log is Some ==> call_ensures(
            host->0.log->0,
            (host->0.user, level, (dng_str_view_v1 { data: Some(msg), size: msg@.len() as u32 })),
            (),
        ),
{
    match host {
        None => {},
        Some(h) => match &h.log {
            Some(log_fn) => {
                let view = dng_str_view_v1 { data: Some(msg), size: msg.len() as u32 };
                log_fn(h.user, level, view);
            },
            None => {},
        },
    }
}

} // verus!
