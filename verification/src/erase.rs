//! The erase-all pass over the device.
//!
//! Erasing the whole device is a loop of single-sector erases in
//! ascending address order, stopping at the first failure. The ROM
//! call itself is hardware; the library owns every decision of the
//! loop as the state machine `EraseAllRun`: which address to erase
//! next, how a returned status advances the pass, and what the pass
//! as a whole returns. The unverified shell alternates
//! `next_address`, the ROM erase call, and `absorb` until
//! `next_address` yields nothing, then reads `outcome`.

use vstd::prelude::*;

verus! {

use crate::device::FlashDevice;
use crate::model::mem_after_erases;
use crate::status::ErrorCode;
use vstd::arithmetic::div_mod::lemma_fundamental_div_mod;
use vstd::arithmetic::mul::{
    lemma_mul_inequality,
    lemma_mul_is_commutative,
    lemma_mul_is_distributive_add_other_way,
    lemma_mul_nonnegative,
};

/// State of one erase-all pass: the geometry it iterates over, the
/// next page index to command, and the first failing status, if any.
#[derive(Clone, Copy, Debug, PartialEq, Eq, Structural)]
pub struct EraseAllRun {
    /// Stride of the pass: the size of the region each command erases.
    pub page_size: u32,
    /// Total number of commands a full pass issues.
    pub num_pages: u32,
    /// Index of the next page to command.
    pub next_page: u32,
    /// The status word of the first failing command, if one failed.
    pub failed: Option<u32>,
}

impl EraseAllRun {
    /// Invariant of a pass: a non-empty stride, a position within the
    /// pass, addresses that fit the 32-bit address space, and a
    /// recorded failure is always a non-zero status.
    pub open spec fn wf(self) -> bool {
        &&& self.page_size > 0
        &&& self.next_page <= self.num_pages
        &&& self.num_pages as int * self.page_size as int <= u32::MAX as int + 1
        &&& (self.failed matches Some(c) ==> c != 0)
    }

    /// A pass is done when a command failed or every page was
    /// commanded successfully.
    pub open spec fn done(self) -> bool {
        self.failed is Some || self.next_page == self.num_pages
    }

    /// The fresh pass over a device: at page zero with nothing failed.
    pub open spec fn fresh(dev: FlashDevice) -> EraseAllRun {
        EraseAllRun {
            page_size: dev.page_size,
            num_pages: (dev.device_size as int / dev.page_size as int) as u32,
            next_page: 0,
            failed: None,
        }
    }

    /// How one returned status advances the pass: success moves to the
    /// next page, any other status records the failure; a finished
    /// pass no longer moves.
    pub open spec fn step_spec(self, status: u32) -> EraseAllRun {
        if self.done() {
            self
        } else if status == 0 {
            EraseAllRun { next_page: (self.next_page + 1) as u32, ..self }
        } else {
            EraseAllRun { failed: Some(status), ..self }
        }
    }

    /// The pass after absorbing a sequence of returned statuses in
    /// order.
    pub open spec fn run_spec(self, statuses: Seq<u32>) -> EraseAllRun
        decreases statuses.len(),
    {
        if statuses.len() == 0 {
            self
        } else {
            self.step_spec(statuses[0]).run_spec(statuses.drop_first())
        }
    }

    /// Starts an erase-all pass over the given device.
    pub fn new(dev: &FlashDevice) -> (r: EraseAllRun)
        requires
            dev.wf(),
        ensures
            r == EraseAllRun::fresh(*dev),
            r.wf(),
    {
        let num_pages = dev.device_size / dev.page_size;
        proof {
            lemma_fundamental_div_mod(dev.device_size as int, dev.page_size as int);
            lemma_mul_is_commutative(
                dev.page_size as int,
                dev.device_size as int / dev.page_size as int,
            );
        }
        EraseAllRun { page_size: dev.page_size, num_pages, next_page: 0, failed: None }
    }

    /// The address of the next erase command, or `None` when the pass
    /// is done. Commands come in ascending order: the command for page
    /// `p` is the address `p * page_size`.
    pub fn next_address(&self) -> (r: Option<u32>)
        requires
            self.wf(),
        ensures
            r is None <==> self.done(),
            r matches Some(a) ==> a == self.next_page * self.page_size,
    {
        if self.failed.is_some() || self.next_page == self.num_pages {
            None
        } else {
            proof {
                lemma_mul_inequality(
                    self.next_page as int + 1,
                    self.num_pages as int,
                    self.page_size as int,
                );
                lemma_mul_is_distributive_add_other_way(
                    self.page_size as int,
                    self.next_page as int,
                    1,
                );
                lemma_mul_nonnegative(self.next_page as int, self.page_size as int);
            }
            Some(self.next_page * self.page_size)
        }
    }

    /// Absorbs the status the ROM erase call returned for the current
    /// command: zero advances to the next page, anything else records
    /// the failure verbatim and ends the pass.
    pub fn absorb(&mut self, status: u32)
        requires
            old(self).wf(),
            !old(self).done(),
        ensures
            *final(self) == old(self).step_spec(status),
            final(self).wf(),
            status == 0 ==> final(self).next_page == old(self).next_page + 1
                && final(self).failed is None,
            status != 0 ==> final(self).failed == Some(status)
                && final(self).next_page == old(self).next_page,
    {
        if status == 0 {
            self.next_page = self.next_page + 1;
        } else {
            self.failed = Some(status);
        }
    }

    /// The result of the pass: `None` while commands remain, `Ok` when
    /// every page was commanded successfully, and otherwise an error
    /// carrying exactly the first failing status word.
    pub fn outcome(&self) -> (r: Option<Result<(), ErrorCode>>)
        requires
            self.wf(),
        ensures
            r is None <==> !self.done(),
            self.failed is None && self.next_page == self.num_pages ==> r == Some(
                Result::<(), ErrorCode>::Ok(()),
            ),
            self.failed matches Some(c) ==> r matches Some(x) && x matches Err(e)
                && e.spec_code() == c,
    {
        match self.failed {
            Some(c) => Some(Err(ErrorCode::from_failure(c))),
            None => if self.next_page == self.num_pages {
                Some(Ok(()))
            } else {
                None
            },
        }
    }
}

/// A finished pass absorbs nothing more: further statuses leave it
/// unchanged.
pub proof fn lemma_run_done_frozen(r: EraseAllRun, statuses: Seq<u32>)
    requires
        r.done(),
    ensures
        r.run_spec(statuses) == r,
    decreases statuses.len(),
{
    if statuses.len() > 0 {
        lemma_run_done_frozen(r, statuses.drop_first());
    }
}

/// Absorbing a sequence of statuses is absorbing its first `k` and
/// then the rest.
pub proof fn lemma_run_split(r: EraseAllRun, statuses: Seq<u32>, k: int)
    requires
        0 <= k <= statuses.len(),
    ensures
        r.run_spec(statuses) == r.run_spec(statuses.take(k)).run_spec(statuses.skip(k)),
    decreases k,
{
    if k == 0 {
        assert(statuses.take(0).len() == 0);
        assert(statuses.skip(0) =~= statuses);
    } else {
        let r1 = r.step_spec(statuses[0]);
        assert(statuses.take(k)[0] == statuses[0]);
        assert(statuses.take(k).drop_first() =~= statuses.drop_first().take(k - 1));
        assert(statuses.skip(k) =~= statuses.drop_first().skip(k - 1));
        lemma_run_split(r1, statuses.drop_first(), k - 1);
    }
}

/// A run of successes advances the pass exactly that many pages and
/// records no failure.
pub proof fn lemma_run_successes(r0: EraseAllRun, statuses: Seq<u32>)
    requires
        r0.wf(),
        r0.failed is None,
        r0.next_page + statuses.len() <= r0.num_pages,
        forall|j: int| 0 <= j < statuses.len() ==> #[trigger] statuses[j] == 0,
    ensures
        r0.run_spec(statuses) == (EraseAllRun {
            next_page: (r0.next_page + statuses.len()) as u32,
            ..r0
        }),
    decreases statuses.len(),
{
    if statuses.len() > 0 {
        let r1 = r0.step_spec(statuses[0]);
        lemma_run_successes(r1, statuses.drop_first());
    }
}

/// Erase-all over a device is one erase command per page, in
/// ascending address order: a fresh pass fed one success status per
/// page finishes with no failure, and after its first `j` statuses the
/// next command is for page `j`, the address `j * page_size`.
pub proof fn lemma_erase_all_ascending(dev: FlashDevice, statuses: Seq<u32>, j: int)
    requires
        dev.wf(),
        statuses.len() == EraseAllRun::fresh(dev).num_pages,
        forall|i: int| 0 <= i < statuses.len() ==> #[trigger] statuses[i] == 0,
        0 <= j <= statuses.len(),
    ensures
        EraseAllRun::fresh(dev).run_spec(statuses).done(),
        EraseAllRun::fresh(dev).run_spec(statuses).failed is None,
        EraseAllRun::fresh(dev).run_spec(statuses).next_page
            == EraseAllRun::fresh(dev).num_pages,
        EraseAllRun::fresh(dev).run_spec(statuses.take(j)).next_page == j,
        EraseAllRun::fresh(dev).run_spec(statuses.take(j)).failed is None,
{
    lemma_fresh_wf(dev);
    lemma_run_successes(EraseAllRun::fresh(dev), statuses);
    assert(forall|i: int|
        0 <= i < statuses.take(j).len() ==> #[trigger] statuses.take(j)[i] == 0);
    lemma_run_successes(EraseAllRun::fresh(dev), statuses.take(j));
}

/// A fresh pass over a well-formed device satisfies the pass
/// invariant.
pub proof fn lemma_fresh_wf(dev: FlashDevice)
    requires
        dev.wf(),
    ensures
        EraseAllRun::fresh(dev).wf(),
        EraseAllRun::fresh(dev).num_pages as int == dev.device_size as int
            / dev.page_size as int,
{
    lemma_fundamental_div_mod(dev.device_size as int, dev.page_size as int);
    lemma_mul_is_commutative(dev.page_size as int, dev.device_size as int / dev.page_size as int);
}

/// On the target's geometry — the flash based at address zero, with
/// the erase unit equal to the page stride — the command for page `j`
/// is exactly the base address of sector `j`: an erase-all pass is one
/// `erase_sector` per sector, in ascending address order.
pub proof fn lemma_commands_are_sector_addresses(dev: FlashDevice, j: int)
    requires
        dev.wf(),
        dev.flash_address == 0,
        dev.page_size == dev.erase_unit_size,
        0 <= j < dev.device_size as int / dev.erase_unit_size as int,
    ensures
        j * dev.page_size == dev.flash_address + j * dev.erase_unit_size,
        dev.device_size as int / dev.page_size as int == dev.device_size as int
            / dev.erase_unit_size as int,
{
}

/// Stopping at the first failure: when the command for page `k` is the
/// first to return a non-zero status, the pass ends right there — the
/// recorded error carries exactly that status word, no page past `k`
/// is commanded — and the `k` successful commands before it have
/// erased exactly the leading `k` page regions, the rest of the device
/// holding what it held before the pass.
pub proof fn lemma_erase_all_first_failure(
    dev: FlashDevice,
    mem: Seq<u8>,
    statuses: Seq<u32>,
    k: int,
)
    requires
        dev.wf(),
        mem.len() == dev.device_size,
        0 <= k < statuses.len(),
        statuses.len() <= EraseAllRun::fresh(dev).num_pages,
        forall|j: int| 0 <= j < k ==> #[trigger] statuses[j] == 0,
        statuses[k] != 0,
    ensures
        EraseAllRun::fresh(dev).run_spec(statuses).done(),
        EraseAllRun::fresh(dev).run_spec(statuses).failed == Some(statuses[k]),
        EraseAllRun::fresh(dev).run_spec(statuses).next_page == k,
        forall|i: int|
            0 <= i < k * dev.page_size ==> mem_after_erases(mem, dev, k)[i] == dev.empty_value,
        forall|i: int|
            k * dev.page_size <= i < mem.len() ==> mem_after_erases(mem, dev, k)[i] == mem[i],
{
    lemma_fresh_wf(dev);
    let r0 = EraseAllRun::fresh(dev);
    assert(forall|j: int|
        0 <= j < statuses.take(k).len() ==> #[trigger] statuses.take(k)[j] == 0);
    lemma_run_successes(r0, statuses.take(k));
    let rk = r0.run_spec(statuses.take(k));
    lemma_run_split(r0, statuses, k);
    let rest = statuses.skip(k);
    assert(rest[0] == statuses[k]);
    let rf = rk.step_spec(rest[0]);
    assert(rf.failed == Some(statuses[k]));
    assert(rk.run_spec(rest) == rf.run_spec(rest.drop_first()));
    lemma_run_done_frozen(rf, rest.drop_first());
    crate::model::lemma_erase_all_prefix(mem, dev, k);
}

} // verus!
