//! Hardware-safety lifecycle around flash mutation.
//!
//! Flash and the instruction cache share one memory controller on this
//! part, and an interrupt taken mid-erase could execute from flash
//! being rewritten. Initialization therefore powers the peripheral
//! domains (once), disables interrupts and forces the cache off before
//! any erase or program call; teardown re-enables cache and interrupts
//! unconditionally on every exit path.
//!
//! The library decides the transitions; the unverified shell performs
//! them on the hardware. `HwState` is the model of the three hardware
//! flags the controller is responsible for.

use vstd::prelude::*;

verus! {

use crate::status::ErrorCode;

/// The hardware flags the lifecycle controller owns: instruction-cache
/// enable, global-interrupt enable, and whether the peripheral power
/// domains have been configured.
#[derive(Clone, Copy, Debug, PartialEq, Eq, Structural)]
pub struct HwState {
    pub cache_enabled: bool,
    pub interrupts_enabled: bool,
    pub peripherals_powered: bool,
}

/// The intended use the host declares when it initializes the
/// algorithm. The controller accepts all of them alike.
#[derive(Clone, Copy, Debug, PartialEq, Eq, Structural)]
pub enum Function {
    Erase,
    Program,
    Verify,
}

/// What initialization tells the shell to do: whether to run the
/// first-time power-domain setup (power the peripheral and serial
/// domains, enable the clock gate, commit the clock load).
#[derive(Clone, Copy, Debug, PartialEq, Eq, Structural)]
pub struct InitPlan {
    pub run_power_setup: bool,
}

/// Whether initialization replays the power-domain setup: only when
/// exclusive ownership of the peripheral block was just acquired.
pub open spec fn init_runs_power_setup(peripherals_available: bool) -> bool {
    peripherals_available
}

/// Hardware state after initialization: cache off, interrupts off,
/// peripheral domains powered (either just now or by an earlier pass).
pub open spec fn init_hw(hw: HwState, peripherals_available: bool) -> HwState {
    HwState {
        cache_enabled: false,
        interrupts_enabled: false,
        peripherals_powered: hw.peripherals_powered || peripherals_available,
    }
}

/// Hardware state after teardown: cache and interrupts re-enabled,
/// power domains left as they are.
pub open spec fn teardown_hw(hw: HwState) -> HwState {
    HwState { cache_enabled: true, interrupts_enabled: true, ..hw }
}

/// Decides the initialization transition.
///
/// `peripherals_available` reports whether the shell acquired exclusive
/// ownership of the peripheral register block; when it did not, a prior
/// pass (or a bootloader) already configured the domains and no setup
/// step is replayed. Base address, clock and requested function are
/// accepted for every value and do not affect the transition. No error
/// path exists on this platform, so the result is always `Ok`.
pub fn init_step(
    hw: HwState,
    peripherals_available: bool,
    _address: u32,
    _clock: u32,
    _function: Function,
) -> (r: Result<(HwState, InitPlan), ErrorCode>)
    ensures
        r matches Ok((h, plan)) && h == init_hw(hw, peripherals_available)
            && plan.run_power_setup == init_runs_power_setup(peripherals_available),
{
    let h = HwState {
        cache_enabled: false,
        interrupts_enabled: false,
        peripherals_powered: hw.peripherals_powered || peripherals_available,
    };
    Ok((h, InitPlan { run_power_setup: peripherals_available }))
}

/// Decides the teardown transition: whatever happened in between, the
/// cache and global interrupts come back on. Teardown has no failure
/// path the host can observe.
pub fn teardown_step(hw: HwState) -> (r: HwState)
    ensures
        r == teardown_hw(hw),
{
    HwState { cache_enabled: true, interrupts_enabled: true, peripherals_powered: hw.peripherals_powered }
}

/// Round-trip restoration: when cache and interrupts were enabled
/// before initialization, they are enabled again after teardown — and
/// this holds across any run of erase and program operations, since
/// the operations never touch `HwState` (none of them takes one).
pub proof fn lemma_lifecycle_round_trip(hw0: HwState, peripherals_available: bool)
    requires
        hw0.cache_enabled,
        hw0.interrupts_enabled,
    ensures
        teardown_hw(init_hw(hw0, peripherals_available)).cache_enabled == hw0.cache_enabled,
        teardown_hw(init_hw(hw0, peripherals_available)).interrupts_enabled
            == hw0.interrupts_enabled,
        teardown_hw(init_hw(hw0, peripherals_available)) == (HwState {
            peripherals_powered: hw0.peripherals_powered || peripherals_available,
            ..hw0
        }),
{
}

/// Initialization is idempotent with respect to power-domain setup:
/// when the peripheral block is already owned, no power-up step is
/// replayed, the hardware state is unchanged by the repeat, and the
/// transition still succeeds (it has no failure path at all).
pub proof fn lemma_init_idempotent(hw: HwState)
    ensures
        !init_runs_power_setup(false),
        init_hw(init_hw(hw, true), false) == init_hw(hw, true),
        init_hw(init_hw(hw, false), false) == init_hw(hw, false),
{
}

} // verus!
