//! Mathematical model of the flash contents.
//!
//! The device's flash is modelled as a sequence of bytes; byte `i` of
//! the model is the byte at address `flash_address + i`. Successful
//! ROM erase and program calls are modelled as functions on that
//! sequence, and the laws below state what a read returns afterwards.

use vstd::prelude::*;

verus! {

use crate::device::FlashDevice;
use vstd::arithmetic::div_mod::lemma_fundamental_div_mod;
use vstd::arithmetic::mul::{
    lemma_mul_basics,
    lemma_mul_inequality,
    lemma_mul_is_distributive_sub_other_way,
    lemma_mul_nonnegative,
};

/// Flash contents after a successful erase of the region
/// `[start, start + len)`: every byte of the region reads as the
/// erased value, every other byte is unchanged.
pub open spec fn erase_region(mem: Seq<u8>, start: int, len: int, empty: u8) -> Seq<u8> {
    Seq::new(mem.len(), |i: int| if start <= i < start + len { empty } else { mem[i] })
}

/// Flash contents after a successful program of `data` at `start`:
/// the programmed range holds `data`, every other byte is unchanged.
pub open spec fn program_region(mem: Seq<u8>, start: int, data: Seq<u8>) -> Seq<u8> {
    Seq::new(mem.len(), |i: int| if start <= i < start + data.len() { data[i - start] } else { mem[i] })
}

/// A valid sector base, as an offset from the flash base address:
/// aligned to the erase unit and wholly inside the device.
pub open spec fn valid_sector_offset(dev: FlashDevice, off: int) -> bool {
    &&& 0 <= off
    &&& off + dev.erase_unit_size <= dev.device_size
    &&& off % dev.erase_unit_size as int == 0
}

/// A valid page base, as an offset from the flash base address:
/// aligned to the page size and wholly inside the device.
pub open spec fn valid_page_offset(dev: FlashDevice, off: int) -> bool {
    &&& 0 <= off
    &&& off + dev.page_size <= dev.device_size
    &&& off % dev.page_size as int == 0
}

/// Erasing a sector leaves every byte of that sector reading as the
/// configured erased value, and every byte outside it unchanged.
pub proof fn lemma_erase_sector_reads_empty(mem: Seq<u8>, dev: FlashDevice, off: int)
    requires
        dev.wf(),
        mem.len() == dev.device_size,
        valid_sector_offset(dev, off),
    ensures
        erase_region(mem, off, dev.erase_unit_size as int, dev.empty_value).len() == mem.len(),
        forall|i: int|
            off <= i < off + dev.erase_unit_size ==> erase_region(
                mem,
                off,
                dev.erase_unit_size as int,
                dev.empty_value,
            )[i] == dev.empty_value,
        forall|i: int|
            0 <= i < mem.len() && !(off <= i < off + dev.erase_unit_size) ==> erase_region(
                mem,
                off,
                dev.erase_unit_size as int,
                dev.empty_value,
            )[i] == mem[i],
{
}

/// Programming a page-aligned range of a previously erased region
/// reads back exactly the data written, and leaves every byte outside
/// the range unchanged.
pub proof fn lemma_program_page_reads_back(mem: Seq<u8>, dev: FlashDevice, off: int, data: Seq<u8>)
    requires
        dev.wf(),
        mem.len() == dev.device_size,
        0 <= off,
        off % dev.page_size as int == 0,
        data.len() <= dev.page_size,
        off + data.len() <= dev.device_size,
        forall|i: int| off <= i < off + data.len() ==> mem[i] == dev.empty_value,
    ensures
        program_region(mem, off, data).len() == mem.len(),
        program_region(mem, off, data).subrange(off, off + data.len() as int) == data,
        forall|i: int|
            0 <= i < mem.len() && !(off <= i < off + data.len()) ==> program_region(
                mem,
                off,
                data,
            )[i] == mem[i],
{
    assert(program_region(mem, off, data).subrange(off, off + data.len() as int) =~= data);
}

/// Flash contents after the first `k` erase commands of an erase-all
/// pass: command `j` erases the page-sized region starting at offset
/// `j * page_size`, in ascending order.
pub open spec fn mem_after_erases(mem: Seq<u8>, dev: FlashDevice, k: int) -> Seq<u8>
    decreases k,
{
    if k <= 0 {
        mem
    } else {
        erase_region(
            mem_after_erases(mem, dev, k - 1),
            (k - 1) * dev.page_size,
            dev.page_size as int,
            dev.empty_value,
        )
    }
}

/// After the first `k` erase commands of an erase-all pass, every byte
/// below offset `k * page_size` reads as the erased value, and every
/// byte from there on is still what it was before the pass began.
pub proof fn lemma_erase_all_prefix(mem: Seq<u8>, dev: FlashDevice, k: int)
    requires
        dev.wf(),
        mem.len() == dev.device_size,
        0 <= k <= dev.device_size as int / dev.page_size as int,
    ensures
        mem_after_erases(mem, dev, k).len() == mem.len(),
        forall|i: int| 0 <= i < k * dev.page_size ==> mem_after_erases(mem, dev, k)[i] == dev.empty_value,
        forall|i: int|
            k * dev.page_size <= i < mem.len() ==> mem_after_erases(mem, dev, k)[i] == mem[i],
    decreases k,
{
    let ps = dev.page_size as int;
    lemma_mul_nonnegative(k, ps);
    if k > 0 {
        lemma_erase_all_prefix(mem, dev, k - 1);
        lemma_mul_is_distributive_sub_other_way(ps, k, 1);
        lemma_mul_nonnegative(k - 1, ps);
        lemma_fundamental_div_mod(dev.device_size as int, ps);
        lemma_mul_inequality(k, dev.device_size as int / ps, ps);
        assert(k * ps <= mem.len());
        assert((k - 1) * ps + ps == k * ps);
        assert forall|i: int|
            0 <= i < k * dev.page_size implies mem_after_erases(mem, dev, k)[i]
            == dev.empty_value by {
            if i < (k - 1) * ps {
                assert(mem_after_erases(mem, dev, k)[i] == mem_after_erases(mem, dev, k - 1)[i]);
                assert(mem_after_erases(mem, dev, k - 1)[i] == dev.empty_value);
            } else {
                assert((k - 1) * ps <= i < (k - 1) * ps + ps);
                assert(mem_after_erases(mem, dev, k)[i] == dev.empty_value);
            }
        }
    } else {
        lemma_mul_basics(ps);
        assert(k * ps == 0);
    }
}

} // verus!
