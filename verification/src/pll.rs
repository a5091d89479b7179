//! The STM32G4 PLL divider search: integer M/N/R dividers that bring the
//! PLL from an external oscillator's frequency up to the system clock's,
//! within the datasheet's PLL frequency ranges (RM0440, STM32G474 datasheet
//! table 46):
//! - PLL input (`oscillator / M`): 2.66 MHz to 16 MHz, with `M` in `1..=16`;
//! - VCO (`input * N`): 96 MHz to 344 MHz, with `N` in `8..=127`;
//! - R output (`VCO / R`), the system clock, with `R` one of 2, 4, 6, 8.
use vstd::prelude::*;

verus! {

/// The R divider values the PLL offers.
pub open spec fn is_r_divider(r: int) -> bool {
    r == 2 || r == 4 || r == 6 || r == 8
}

/// The N multiplier that dividers `r` and `m` need: `mcu * r * m /
/// oscillator`.
pub open spec fn n_for(oscillator: int, mcu: int, r: int, m: int) -> int {
    (mcu * r * m) / oscillator
}

/// Whether dividers `r` and `m` reach `mcu` Hz from `oscillator` Hz exactly
/// (`mcu * r * m == oscillator * N` for an integer `N`), with the VCO, the
/// PLL input and `N` within range.
pub open spec fn pll_candidate(oscillator: int, mcu: int, r: int, m: int) -> bool {
    &&& 96_000_000 <= mcu * r <= 344_000_000
    &&& 2_660_000 * m <= oscillator <= 16_000_000 * m
    &&& (mcu * r * m) % oscillator == 0
    &&& 8 <= n_for(oscillator, mcu, r, m) <= 127
}

/// Whether `(r1, m1)` comes before `(r2, m2)` in the search: smaller R
/// first, and for the same R smaller M first.
pub open spec fn searched_before(r1: int, m1: int, r2: int, m2: int) -> bool {
    r1 < r2 || (r1 == r2 && m1 < m2)
}

/// PLL dividers: the system clock is `oscillator / m * n / r`.
#[derive(Debug, Clone, Copy, PartialEq, Eq, Structural)]
pub struct PllDividers {
    pub m: u32,
    pub n: u32,
    pub r: u32,
}

/// Searches R over 2, 4, 6, 8 and, for each, M over `1..=16` for the first
/// dividers that reach `mcu_frequency` Hz from `oscillator_frequency` Hz
/// exactly within the PLL's ranges. `None` if no combination does (the
/// board's frequencies then cannot be configured).
pub fn pll_dividers(oscillator_frequency: u32, mcu_frequency: u32) -> (found: Option<PllDividers>)
    ensures
        match found {
            Some(d) => {
                &&& is_r_divider(d.r as int)
                &&& 1 <= d.m <= 16
                &&& pll_candidate(oscillator_frequency as int, mcu_frequency as int, d.r as int, d.m as int)
                &&& d.n == n_for(oscillator_frequency as int, mcu_frequency as int, d.r as int, d.m as int)
                &&& forall|r: int, m: int|
                    is_r_divider(r) && 1 <= m <= 16 && searched_before(r, m, d.r as int, d.m as int)
                        ==> !#[trigger] pll_candidate(
                        oscillator_frequency as int,
                        mcu_frequency as int,
                        r,
                        m,
                    )
            },
            None => forall|r: int, m: int|
                is_r_divider(r) && 1 <= m <= 16 ==> !#[trigger] pll_candidate(
                    oscillator_frequency as int,
                    mcu_frequency as int,
                    r,
                    m,
                ),
        },
{
    let oscillator = oscillator_frequency as u64;
    let mcu = mcu_frequency as u64;
    let mut r: u32 = 2;
    while r <= 8
        invariant
            2 <= r <= 10,
            r % 2 == 0,
            oscillator == oscillator_frequency,
            mcu == mcu_frequency,
            forall|r2: int, m2: int|
                is_r_divider(r2) && 1 <= m2 <= 16 && r2 < r ==> !#[trigger] pll_candidate(
                    oscillator as int,
                    mcu as int,
                    r2,
                    m2,
                ),
        decreases 10 - r,
    {
        proof {
            assert(mcu * r <= 0xffff_ffff * 10) by (nonlinear_arith)
                requires
                    mcu <= 0xffff_ffff,
                    r <= 10,
            ;
        }
        let vco = mcu * r as u64;
        if 96_000_000 <= vco && vco <= 344_000_000 {
            let mut m: u32 = 1;
            while m <= 16
                invariant
                    1 <= m <= 17,
                    2 <= r <= 8,
                    r % 2 == 0,
                    oscillator == oscillator_frequency,
                    mcu == mcu_frequency,
                    vco == mcu * r,
                    96_000_000 <= vco <= 344_000_000,
                    forall|r2: int, m2: int|
                        is_r_divider(r2) && 1 <= m2 <= 16 && r2 < r ==> !#[trigger] pll_candidate(
                            oscillator as int,
                            mcu as int,
                            r2,
                            m2,
                        ),
                    forall|m2: int|
                        1 <= m2 < m ==> !#[trigger] pll_candidate(
                            oscillator as int,
                            mcu as int,
                            r as int,
                            m2,
                        ),
                decreases 17 - m,
            {
                let m_wide = m as u64;
                if 2_660_000 * m_wide <= oscillator && oscillator <= 16_000_000 * m_wide {
                    proof {
                        assert(vco * m <= 344_000_000 * 16) by (nonlinear_arith)
                            requires
                                vco <= 344_000_000,
                                m <= 16,
                        ;
                        assert(mcu * r * m == vco * m);
                    }
                    let numerator = vco * m_wide;
                    if numerator % oscillator == 0 {
                        let n = numerator / oscillator;
                        if 8 <= n && n <= 127 {
                            return Some(PllDividers { m, n: n as u32, r });
                        }
                    }
                }
                m += 1;
            }
        } else {
            proof {
                assert forall|m2: int| 1 <= m2 <= 16 implies !#[trigger] pll_candidate(
                    oscillator as int,
                    mcu as int,
                    r as int,
                    m2,
                ) by {}
            }
        }
        r += 2;
    }
    None
}

/// Dividers the search accepts reach the system clock exactly: the
/// oscillator's frequency times N is the system clock's times R times M, so
/// `oscillator / M * N / R` is the system clock.
pub proof fn law_accepted_dividers_reach_the_system_clock(oscillator: int, mcu: int, r: int, m: int)
    requires
        1 <= m <= 16,
        pll_candidate(oscillator, mcu, r, m),
    ensures
        oscillator * n_for(oscillator, mcu, r, m) == mcu * r * m,
{
    vstd::arithmetic::div_mod::lemma_fundamental_div_mod(mcu * r * m, oscillator);
}

} // verus!
