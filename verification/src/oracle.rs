//! The tariff oracle: a baseline tariff, country add-ons and basket weights, and the index they
//! give.

use crate::accounts;
use crate::accounts::Pubkey;
use crate::error;
use crate::error::TariffError;
use crate::events::OracleUpdateEvent;
use crate::math;
use crate::math::BPS_DENOM_I128;
use vstd::prelude::*;

verus! {

/// Least tariff index, in basis points.
pub const TARIFF_BPS_MIN: i128 = 0;

/// Greatest tariff index, in basis points.
pub const TARIFF_BPS_MAX: i128 = 50_000;

/// Slots of the country add-on table.
pub const MAX_COUNTRY_ADDONS: usize = 16;

/// Slots of the basket weight table.
pub const MAX_BASKET_WEIGHTS: usize = 16;

/// A country's adjustment to the baseline tariff.
#[derive(Clone, Copy, Debug, PartialEq, Eq)]
pub struct CountryAddon {
    pub country_code: [u8; 2],
    /// Signed basis points.
    pub addon_bps: i16,
    pub enabled: bool,
    pub _pad: [u8; 3],
}

impl CountryAddon {
    /// Serialized size in bytes.
    pub const SPACE: usize = 2 + 2 + 1 + 3;
}

impl Default for CountryAddon {
    fn default() -> (res: Self)
        ensures
            res == (CountryAddon {
                country_code: [0u8, 0u8],
                addon_bps: 0,
                enabled: false,
                _pad: [0u8, 0u8, 0u8],
            }),
    {
        CountryAddon {
            country_code: [0u8, 0u8],
            addon_bps: 0,
            enabled: false,
            _pad: [0u8, 0u8, 0u8],
        }
    }
}

/// A country's weight in the basket.
#[derive(Clone, Copy, Debug, PartialEq, Eq)]
pub struct BasketWeight {
    pub country_code: [u8; 2],
    pub weight_bps: u16,
    pub enabled: bool,
    pub _pad: [u8; 3],
}

impl BasketWeight {
    /// Serialized size in bytes.
    pub const SPACE: usize = 2 + 2 + 1 + 3;
}

impl Default for BasketWeight {
    fn default() -> (res: Self)
        ensures
            res == (BasketWeight {
                country_code: [0u8, 0u8],
                weight_bps: 0,
                enabled: false,
                _pad: [0u8, 0u8, 0u8],
            }),
    {
        BasketWeight {
            country_code: [0u8, 0u8],
            weight_bps: 0,
            enabled: false,
            _pad: [0u8, 0u8, 0u8],
        }
    }
}

/// The tariff oracle account.
#[derive(Clone, Copy, Debug, PartialEq, Eq)]
pub struct TariffOracle {
    pub admin: Pubkey,
    pub baseline_tariff_bps: u16,
    pub valid_until_ts: i64,
    pub last_updated_ts: i64,
    pub confidence_bps: u16,
    pub min_update_interval_secs: i64,
    pub max_jump_bps_per_update: u16,
    pub last_baseline_bps: u16,
    pub country_addons: [CountryAddon; 16],
    pub basket_weights: [BasketWeight; 16],
    pub addon_len: u8,
    pub weight_len: u8,
    pub _pad0: [u8; 6],
}

/// What one add-on and one weight contribute to the index: nothing unless both are enabled and
/// of the same country.
pub open spec fn pair_contribution(addon: CountryAddon, weight: BasketWeight) -> int {
    if addon.enabled && weight.enabled && weight.country_code == addon.country_code {
        math::trunc_div(weight.weight_bps * addon.addon_bps, BPS_DENOM_I128 as int)
    } else {
        0
    }
}

/// What one add-on contributes to the index over all weights.
pub open spec fn addon_contribution(addon: CountryAddon, weights: Seq<BasketWeight>) -> int
    decreases weights.len(),
{
    if weights.len() == 0 {
        0
    } else {
        addon_contribution(addon, weights.drop_last()) + pair_contribution(addon, weights.last())
    }
}

/// What all add-ons contribute to the index.
pub open spec fn basket_contribution(
    addons: Seq<CountryAddon>,
    weights: Seq<BasketWeight>,
) -> int
    decreases addons.len(),
{
    if addons.len() == 0 {
        0
    } else {
        basket_contribution(addons.drop_last(), weights) + addon_contribution(
            addons.last(),
            weights,
        )
    }
}

/// The country codes of a table of add-ons.
pub open spec fn addon_codes(addons: Seq<CountryAddon>) -> Seq<[u8; 2]> {
    addons.map_values(|a: CountryAddon| a.country_code)
}

/// The country codes of a table of weights.
pub open spec fn weight_codes(weights: Seq<BasketWeight>) -> Seq<[u8; 2]> {
    weights.map_values(|w: BasketWeight| w.country_code)
}

/// The first place where `code` stands, or the length where it does not occur.
pub open spec fn first_slot(codes: Seq<[u8; 2]>, code: [u8; 2]) -> int
    decreases codes.len(),
{
    if codes.len() == 0 || codes[0] == code {
        0
    } else {
        1 + first_slot(codes.drop_first(), code)
    }
}

impl TariffOracle {
    /// Serialized size in bytes.
    pub const SPACE: usize = 32 + 2 + 8 + 8 + 2 + 8 + 2 + 2 + 8 * 16 + 8 * 16 + 1 + 1 + 6;

    /// The slot of a country's add-on, or the first free slot where it has none.
    pub open spec fn addon_slot(self, code: [u8; 2]) -> int {
        first_slot(addon_codes(self.addons()), code)
    }

    /// The slot of a country's weight, or the first free slot where it has none.
    pub open spec fn weight_slot(self, code: [u8; 2]) -> int {
        first_slot(weight_codes(self.weights()), code)
    }

    /// The oracle after a country's add-on was set at `now`: in the country's slot where it has
    /// one, and in a slot added at the end where it has none.
    pub open spec fn with_addon(self, code: [u8; 2], bps: i16, enabled: bool, now: i64) -> Self {
        let slot = self.addon_slot(code);
        let found = slot < self.addon_len;
        let entry = CountryAddon {
            country_code: code,
            addon_bps: bps,
            enabled,
            _pad: if found {
                self.country_addons[slot]._pad
            } else {
                [0u8, 0u8, 0u8]
            },
        };
        TariffOracle {
            country_addons: vstd::array::spec_array_update(self.country_addons, slot, entry),
            addon_len: if found {
                self.addon_len
            } else {
                (self.addon_len + 1) as u8
            },
            last_updated_ts: now,
            ..self
        }
    }

    /// The oracle after a country's weight was set at `now`: in the country's slot where it has
    /// one, and in a slot added at the end where it has none.
    pub open spec fn with_weight(self, code: [u8; 2], bps: u16, enabled: bool, now: i64) -> Self {
        let slot = self.weight_slot(code);
        let found = slot < self.weight_len;
        let entry = BasketWeight {
            country_code: code,
            weight_bps: bps,
            enabled,
            _pad: if found {
                self.basket_weights[slot]._pad
            } else {
                [0u8, 0u8, 0u8]
            },
        };
        TariffOracle {
            basket_weights: vstd::array::spec_array_update(self.basket_weights, slot, entry),
            weight_len: if found {
                self.weight_len
            } else {
                (self.weight_len + 1) as u8
            },
            last_updated_ts: now,
            ..self
        }
    }

    /// The oracle after its baseline was set at `now` and its validity window renewed.
    pub open spec fn with_baseline(self, new_baseline_bps: u16, valid_secs: i64, now: i64) -> Self {
        TariffOracle {
            baseline_tariff_bps: new_baseline_bps,
            last_baseline_bps: self.baseline_tariff_bps,
            valid_until_ts: (now + valid_secs) as i64,
            last_updated_ts: now,
            ..self
        }
    }

    /// Finds a country's add-on, or the end of the table.
    fn find_addon(&self, code: &[u8; 2]) -> (res: usize)
        requires
            self.in_capacity(),
        ensures
            res == self.addon_slot(*code),
            res <= self.addon_len,
    {
        let len: usize = self.addon_len as usize;
        let ghost codes = addon_codes(self.addons());
        let mut i: usize = 0;
        while i < len
            invariant
                self.in_capacity(),
                i <= len == self.addon_len,
                codes == addon_codes(self.addons()),
                forall|j: int| 0 <= j < i ==> codes[j] != *code,
            decreases len - i,
        {
            assert(codes[i as int] == self.country_addons[i as int].country_code);
            if same_code(&self.country_addons[i].country_code, code) {
                proof {
                    lemma_first_slot_is(codes, *code, i as int);
                }
                return i;
            }
            i = i + 1;
        }
        proof {
            lemma_first_slot_is(codes, *code, i as int);
        }
        i
    }

    /// Finds a country's weight, or the end of the table.
    fn find_weight(&self, code: &[u8; 2]) -> (res: usize)
        requires
            self.in_capacity(),
        ensures
            res == self.weight_slot(*code),
            res <= self.weight_len,
    {
        let len: usize = self.weight_len as usize;
        let ghost codes = weight_codes(self.weights());
        let mut i: usize = 0;
        while i < len
            invariant
                self.in_capacity(),
                i <= len == self.weight_len,
                codes == weight_codes(self.weights()),
                forall|j: int| 0 <= j < i ==> codes[j] != *code,
            decreases len - i,
        {
            assert(codes[i as int] == self.basket_weights[i as int].country_code);
            if same_code(&self.basket_weights[i].country_code, code) {
                proof {
                    lemma_first_slot_is(codes, *code, i as int);
                }
                return i;
            }
            i = i + 1;
        }
        proof {
            lemma_first_slot_is(codes, *code, i as int);
        }
        i
    }

    /// The add-ons in use.
    pub open spec fn addons(self) -> Seq<CountryAddon> {
        self.country_addons@.take(self.addon_len as int)
    }

    /// The weights in use.
    pub open spec fn weights(self) -> Seq<BasketWeight> {
        self.basket_weights@.take(self.weight_len as int)
    }

    /// The tables hold no more entries than they have slots.
    pub open spec fn in_capacity(self) -> bool {
        &&& self.addon_len <= MAX_COUNTRY_ADDONS
        &&& self.weight_len <= MAX_BASKET_WEIGHTS
    }

    /// The tables are within their slots, and name each country at most once.
    pub open spec fn wf(self) -> bool {
        &&& self.in_capacity()
        &&& addon_codes(self.addons()).no_duplicates()
        &&& weight_codes(self.weights()).no_duplicates()
    }

    /// When the oracle cannot be read at `now`.
    pub open spec fn valid_refusal(self, now: i64) -> Option<TariffError> {
        if now <= self.valid_until_ts {
            None
        } else {
            Some(TariffError::OracleStale)
        }
    }

    /// When the oracle cannot be updated at `now`.
    pub open spec fn update_refusal(self, now: i64) -> Option<TariffError> {
        let dt = now - self.last_updated_ts;
        if dt < 0 || !math::in_i64(dt) {
            Some(TariffError::MathOverflow)
        } else if dt < self.min_update_interval_secs {
            Some(TariffError::OracleUpdateTooSoon)
        } else {
            None
        }
    }

    /// The tariff index in basis points: the baseline and the basket's contribution, clamped.
    pub open spec fn index_bps(self) -> int {
        math::clamp(
            self.baseline_tariff_bps + basket_contribution(self.addons(), self.weights()),
            TARIFF_BPS_MIN as int,
            TARIFF_BPS_MAX as int,
        )
    }

    /// Refuses once the validity window has ended.
    pub fn require_valid(&self, now: i64) -> (res: Result<(), TariffError>)
        ensures
            error::outcome(res, self.valid_refusal(now), ()),
    {
        if now > self.valid_until_ts {
            return Err(TariffError::OracleStale);
        }
        Ok(())
    }

    /// Refuses an update within the minimum interval, or one that goes back in time.
    pub fn require_can_update(&self, now: i64) -> (res: Result<(), TariffError>)
        ensures
            error::outcome(res, self.update_refusal(now), ()),
    {
        let dt: i64 = now.checked_sub(self.last_updated_ts).ok_or(TariffError::MathOverflow)?;
        if dt < 0 {
            return Err(TariffError::MathOverflow);
        }
        if dt < self.min_update_interval_secs {
            return Err(TariffError::OracleUpdateTooSoon);
        }
        Ok(())
    }

    /// The tariff index in basis points.
    pub fn tariff_index_bps_i128(&self) -> (res: Result<i128, TariffError>)
        requires
            self.in_capacity(),
        ensures
            res is Ok,
            res->Ok_0 == self.index_bps(),
            TARIFF_BPS_MIN <= res->Ok_0 <= TARIFF_BPS_MAX,
    {
        let mut idx: i128 = self.baseline_tariff_bps as i128;
        let addon_len: usize = self.addon_len as usize;
        let weight_len: usize = self.weight_len as usize;
        let ghost addons = self.addons();
        let ghost weights = self.weights();
        let mut ai: usize = 0;
        while ai < addon_len
            invariant
                self.in_capacity(),
                ai <= addon_len == self.addon_len,
                weight_len == self.weight_len,
                addons == self.addons(),
                weights == self.weights(),
                idx == self.baseline_tariff_bps + basket_contribution(
                    addons.take(ai as int),
                    weights,
                ),
                -ai * 4_000_000 <= idx - self.baseline_tariff_bps <= ai * 4_000_000,
            decreases addon_len - ai,
        {
            let a: CountryAddon = self.country_addons[ai];
            let ghost before = idx;
            assert(addons.take(ai + 1).drop_last() =~= addons.take(ai as int));
            assert(addons.take(ai + 1).last() == a);
            if a.enabled {
                let mut wi: usize = 0;
                while wi < weight_len
                    invariant
                        self.in_capacity(),
                        ai < addon_len <= 16,
                        wi <= weight_len == self.weight_len,
                        weights == self.weights(),
                        a.enabled,
                        -64_000_000 <= before <= 64_065_535,
                        idx == before + addon_contribution(a, weights.take(wi as int)),
                        -wi * 250_000 <= idx - before <= wi * 250_000,
                    decreases weight_len - wi,
                {
                    let w: BasketWeight = self.basket_weights[wi];
                    assert(weights.take(wi + 1).drop_last() =~= weights.take(wi as int));
                    assert(weights.take(wi + 1).last() == w);
                    if w.enabled && same_code(&w.country_code, &a.country_code) {
                        let weight: i128 = w.weight_bps as i128;
                        let addon: i128 = a.addon_bps as i128;
                        assert(-2_147_483_648 <= weight * addon <= 2_147_483_648)
                            by (nonlinear_arith)
                            requires
                                0 <= weight <= 65_535,
                                -32_768 <= addon <= 32_767,
                        ;
                        let product: i128 = weight.checked_mul(addon).ok_or(
                            TariffError::MathOverflow,
                        )?;
                        let part: i128 = product.checked_div(BPS_DENOM_I128).ok_or(
                            TariffError::MathOverflow,
                        )?;
                        idx = idx.checked_add(part).ok_or(TariffError::MathOverflow)?;
                    }
                    wi = wi + 1;
                }
                assert(weights.take(weight_len as int) =~= weights);
            } else {
                proof {
                    lemma_disabled_addon(a, weights);
                }
            }
            ai = ai + 1;
        }
        assert(addons.take(addon_len as int) =~= addons);
        math::clamp_i128(idx, TARIFF_BPS_MIN, TARIFF_BPS_MAX)
    }
}

impl TariffOracle {
    /// The index lies within its clamp.
    pub proof fn lemma_index_range(self)
        ensures
            TARIFF_BPS_MIN <= self.index_bps() <= TARIFF_BPS_MAX,
    {
    }

    /// Setting an add-on gives the table with the entry in the country's slot, and names no
    /// country twice where the table did not.
    pub proof fn lemma_with_addon(self, code: [u8; 2], bps: i16, enabled: bool, now: i64)
        requires
            self.in_capacity(),
            self.addon_slot(code) < MAX_COUNTRY_ADDONS,
        ensures
            ({
                let after = self.with_addon(code, bps, enabled, now);
                let slot = self.addon_slot(code);
                &&& after.in_capacity()
                &&& self.wf() ==> after.wf()
                &&& after.weights() == self.weights()
                &&& after.addons() == (if slot < self.addon_len {
                    self.addons().update(slot, after.country_addons[slot])
                } else {
                    self.addons().push(after.country_addons[slot])
                })
                &&& after.country_addons[slot].country_code == code
                &&& after.country_addons[slot].addon_bps == bps
                &&& after.country_addons[slot].enabled == enabled
            }),
    {
        let after = self.with_addon(code, bps, enabled, now);
        let slot = self.addon_slot(code);
        let codes = addon_codes(self.addons());
        let codes_after = addon_codes(after.addons());
        lemma_first_slot(codes, code);
        if slot < self.addon_len {
            assert(after.addons() =~= self.addons().update(slot, after.country_addons[slot]));
            assert(codes_after =~= codes);
        } else {
            assert(after.addons() =~= self.addons().push(after.country_addons[slot]));
            assert(codes_after =~= codes.push(code));
        }
    }

    /// Setting a weight gives the table with the entry in the country's slot, and names no
    /// country twice where the table did not.
    pub proof fn lemma_with_weight(self, code: [u8; 2], bps: u16, enabled: bool, now: i64)
        requires
            self.in_capacity(),
            self.weight_slot(code) < MAX_BASKET_WEIGHTS,
        ensures
            ({
                let after = self.with_weight(code, bps, enabled, now);
                let slot = self.weight_slot(code);
                &&& after.in_capacity()
                &&& self.wf() ==> after.wf()
                &&& after.addons() == self.addons()
                &&& after.weights() == (if slot < self.weight_len {
                    self.weights().update(slot, after.basket_weights[slot])
                } else {
                    self.weights().push(after.basket_weights[slot])
                })
                &&& after.basket_weights[slot].country_code == code
                &&& after.basket_weights[slot].weight_bps == bps
                &&& after.basket_weights[slot].enabled == enabled
            }),
    {
        let after = self.with_weight(code, bps, enabled, now);
        let slot = self.weight_slot(code);
        let codes = weight_codes(self.weights());
        let codes_after = weight_codes(after.weights());
        lemma_first_slot(codes, code);
        if slot < self.weight_len {
            assert(after.weights() =~= self.weights().update(slot, after.basket_weights[slot]));
            assert(codes_after =~= codes);
        } else {
            assert(after.weights() =~= self.weights().push(after.basket_weights[slot]));
            assert(codes_after =~= codes.push(code));
        }
    }
}

/// Whether two country codes are the same.
pub fn same_code(a: &[u8; 2], b: &[u8; 2]) -> (res: bool)
    ensures
        res == (*a == *b),
{
    let same: bool = a[0] == b[0] && a[1] == b[1];
    assert(same ==> *a =~= *b);
    same
}

/// A place before which `code` does not occur, and where it stands unless it is the end, is the
/// first slot of `code`.
pub proof fn lemma_first_slot_is(codes: Seq<[u8; 2]>, code: [u8; 2], i: int)
    requires
        0 <= i <= codes.len(),
        forall|j: int| 0 <= j < i ==> codes[j] != code,
        i < codes.len() ==> codes[i] == code,
    ensures
        first_slot(codes, code) == i,
    decreases codes.len(),
{
    if i > 0 {
        assert(codes[0] != code);
        let rest = codes.drop_first();
        assert forall|j: int| 0 <= j < i - 1 implies rest[j] != code by {
            assert(codes[j + 1] != code);
        }
        lemma_first_slot_is(rest, code, i - 1);
    }
}

/// What the first slot of `code` is: no earlier place holds `code`, and the slot holds it unless
/// it is the end.
pub proof fn lemma_first_slot(codes: Seq<[u8; 2]>, code: [u8; 2])
    ensures
        0 <= first_slot(codes, code) <= codes.len(),
        forall|j: int| 0 <= j < first_slot(codes, code) ==> codes[j] != code,
        first_slot(codes, code) < codes.len() ==> codes[first_slot(codes, code)] == code,
    decreases codes.len(),
{
    if codes.len() > 0 && codes[0] != code {
        let rest = codes.drop_first();
        lemma_first_slot(rest, code);
        assert forall|j: int| 0 <= j < first_slot(codes, code) implies codes[j] != code by {
            if j > 0 {
                assert(codes[j] == rest[j - 1]);
            }
        }
    }
}

/// A disabled add-on contributes nothing, whatever the weights.
pub proof fn lemma_disabled_addon(addon: CountryAddon, weights: Seq<BasketWeight>)
    requires
        !addon.enabled,
    ensures
        addon_contribution(addon, weights) == 0,
    decreases weights.len(),
{
    if weights.len() > 0 {
        lemma_disabled_addon(addon, weights.drop_last());
    }
}

/// The accounts of `initialize_oracle`.
#[derive(Clone, Copy, Debug, PartialEq, Eq)]
pub struct InitializeOracle {
    /// Who will be allowed to update the oracle.
    pub admin: Pubkey,
    pub oracle: TariffOracle,
}

/// The accounts of `oracle_set_guardrails`.
#[derive(Clone, Copy, Debug, PartialEq, Eq)]
pub struct OracleSetGuardrails {
    pub admin: Pubkey,
    pub oracle: TariffOracle,
}

/// The accounts of `oracle_set_baseline`.
#[derive(Clone, Copy, Debug, PartialEq, Eq)]
pub struct OracleSetBaseline {
    pub admin: Pubkey,
    /// The oracle's own address.
    pub oracle_key: Pubkey,
    pub oracle: TariffOracle,
}

/// The accounts of `oracle_upsert_country_addon`.
#[derive(Clone, Copy, Debug, PartialEq, Eq)]
pub struct OracleUpsertAddon {
    pub admin: Pubkey,
    pub oracle: TariffOracle,
}

/// The accounts of `oracle_upsert_basket_weight`.
#[derive(Clone, Copy, Debug, PartialEq, Eq)]
pub struct OracleUpsertWeight {
    pub admin: Pubkey,
    pub oracle: TariffOracle,
}

/// When an oracle cannot be initialized.
pub open spec fn initialize_oracle_refusal(
    confidence_bps: u16,
    valid_secs: i64,
    now: i64,
) -> Option<TariffError> {
    if confidence_bps > 10_000 {
        Some(TariffError::InvalidBps)
    } else {
        error::overflow_unless(math::in_i64(now + valid_secs))
    }
}

/// The oracle as it is created at `now`: empty tables, no update interval, and a jump limit that
/// no update reaches.
pub open spec fn new_oracle(
    admin: Pubkey,
    baseline_tariff_bps: u16,
    confidence_bps: u16,
    valid_secs: i64,
    now: i64,
) -> TariffOracle {
    TariffOracle {
        admin,
        baseline_tariff_bps,
        valid_until_ts: (now + valid_secs) as i64,
        last_updated_ts: now,
        confidence_bps,
        min_update_interval_secs: 0,
        max_jump_bps_per_update: 50_000,
        last_baseline_bps: baseline_tariff_bps,
        country_addons: vstd::array::spec_array_fill_for_copy_type(
            CountryAddon {
                country_code: [0u8, 0u8],
                addon_bps: 0,
                enabled: false,
                _pad: [0u8, 0u8, 0u8],
            },
        ),
        basket_weights: vstd::array::spec_array_fill_for_copy_type(
            BasketWeight {
                country_code: [0u8, 0u8],
                weight_bps: 0,
                enabled: false,
                _pad: [0u8, 0u8, 0u8],
            },
        ),
        addon_len: 0,
        weight_len: 0,
        _pad0: [0u8, 0u8, 0u8, 0u8, 0u8, 0u8],
    }
}

/// Initializes the oracle.
pub fn initialize_oracle(
    ctx: &mut InitializeOracle,
    baseline_tariff_bps: u16,
    confidence_bps: u16,
    valid_secs: i64,
    now: i64,
) -> (res: Result<(), TariffError>)
    ensures
        error::outcome(res, initialize_oracle_refusal(confidence_bps, valid_secs, now), ()),
        final(ctx).admin == old(ctx).admin,
        final(ctx).oracle == (if res is Ok {
            new_oracle(old(ctx).admin, baseline_tariff_bps, confidence_bps, valid_secs, now)
        } else {
            old(ctx).oracle
        }),
        res is Ok ==> final(ctx).oracle.wf(),
{
    if confidence_bps > 10_000 {
        return Err(TariffError::InvalidBps);
    }
    let valid_until_ts: i64 = now.checked_add(valid_secs).ok_or(TariffError::MathOverflow)?;
    ctx.oracle = TariffOracle {
        admin: ctx.admin,
        baseline_tariff_bps,
        valid_until_ts,
        last_updated_ts: now,
        confidence_bps,
        min_update_interval_secs: 0,
        max_jump_bps_per_update: 50_000,
        last_baseline_bps: baseline_tariff_bps,
        country_addons: [CountryAddon::default();16],
        basket_weights: [BasketWeight::default();16],
        addon_len: 0,
        weight_len: 0,
        _pad0: [0u8, 0u8, 0u8, 0u8, 0u8, 0u8],
    };
    Ok(())
}

/// When the guardrails cannot be set.
pub open spec fn set_guardrails_refusal(
    ctx: OracleSetGuardrails,
    min_update_interval_secs: i64,
    max_jump_bps_per_update: u16,
) -> Option<TariffError> {
    if min_update_interval_secs < 0 {
        Some(TariffError::InvalidConfig)
    } else if max_jump_bps_per_update > 50_000 {
        Some(TariffError::InvalidBps)
    } else if ctx.oracle.admin != ctx.admin {
        Some(TariffError::Unauthorized)
    } else {
        None
    }
}

/// Sets the minimum update interval and the greatest baseline jump.
pub fn oracle_set_guardrails(
    ctx: &mut OracleSetGuardrails,
    min_update_interval_secs: i64,
    max_jump_bps_per_update: u16,
) -> (res: Result<(), TariffError>)
    ensures
        error::outcome(
            res,
            set_guardrails_refusal(*old(ctx), min_update_interval_secs, max_jump_bps_per_update),
            (),
        ),
        final(ctx).admin == old(ctx).admin,
        final(ctx).oracle == (if res is Ok {
            TariffOracle { min_update_interval_secs, max_jump_bps_per_update, ..old(ctx).oracle }
        } else {
            old(ctx).oracle
        }),
        old(ctx).oracle.wf() ==> final(ctx).oracle.wf(),
{
    if min_update_interval_secs < 0 {
        return Err(TariffError::InvalidConfig);
    }
    if max_jump_bps_per_update > 50_000 {
        return Err(TariffError::InvalidBps);
    }
    accounts::require_keys_eq(&ctx.oracle.admin, &ctx.admin, TariffError::Unauthorized)?;
    ctx.oracle.min_update_interval_secs = min_update_interval_secs;
    ctx.oracle.max_jump_bps_per_update = max_jump_bps_per_update;
    Ok(())
}

/// When an update of the oracle's content is refused before the content is looked at.
pub open spec fn admin_update_refusal(oracle: TariffOracle, admin: Pubkey, now: i64) -> Option<
    TariffError,
> {
    if oracle.admin != admin {
        Some(TariffError::Unauthorized)
    } else {
        oracle.update_refusal(now)
    }
}

/// When the baseline cannot be set.
pub open spec fn set_baseline_refusal(
    ctx: OracleSetBaseline,
    new_baseline_bps: u16,
    valid_secs: i64,
    now: i64,
) -> Option<TariffError> {
    if admin_update_refusal(ctx.oracle, ctx.admin, now) is Some {
        admin_update_refusal(ctx.oracle, ctx.admin, now)
    } else if math::magnitude(new_baseline_bps - ctx.oracle.baseline_tariff_bps)
        > ctx.oracle.max_jump_bps_per_update {
        Some(TariffError::BaselineJumpTooLarge)
    } else {
        error::overflow_unless(math::in_i64(now + valid_secs))
    }
}

/// Sets the baseline and renews the validity window.
pub fn oracle_set_baseline(
    ctx: &mut OracleSetBaseline,
    new_baseline_bps: u16,
    valid_secs: i64,
    now: i64,
) -> (res: Result<OracleUpdateEvent, TariffError>)
    ensures
        error::outcome(
            res,
            set_baseline_refusal(*old(ctx), new_baseline_bps, valid_secs, now),
            OracleUpdateEvent {
                oracle: old(ctx).oracle_key,
                admin: old(ctx).oracle.admin,
                baseline_bps: new_baseline_bps,
                valid_until_ts: (now + valid_secs) as i64,
                ts: now,
            },
        ),
        final(ctx).admin == old(ctx).admin,
        final(ctx).oracle_key == old(ctx).oracle_key,
        final(ctx).oracle == (if res is Ok {
            old(ctx).oracle.with_baseline(new_baseline_bps, valid_secs, now)
        } else {
            old(ctx).oracle
        }),
        old(ctx).oracle.wf() ==> final(ctx).oracle.wf(),
{
    accounts::require_keys_eq(&ctx.oracle.admin, &ctx.admin, TariffError::Unauthorized)?;
    ctx.oracle.require_can_update(now)?;
    let before: u16 = ctx.oracle.baseline_tariff_bps;
    let diff: u16 = if new_baseline_bps >= before {
        new_baseline_bps - before
    } else {
        before - new_baseline_bps
    };
    if diff > ctx.oracle.max_jump_bps_per_update {
        return Err(TariffError::BaselineJumpTooLarge);
    }
    let valid_until_ts: i64 = now.checked_add(valid_secs).ok_or(TariffError::MathOverflow)?;
    ctx.oracle.last_baseline_bps = before;
    ctx.oracle.baseline_tariff_bps = new_baseline_bps;
    ctx.oracle.valid_until_ts = valid_until_ts;
    ctx.oracle.last_updated_ts = now;
    Ok(
        OracleUpdateEvent {
            oracle: ctx.oracle_key,
            admin: ctx.oracle.admin,
            baseline_bps: new_baseline_bps,
            valid_until_ts,
            ts: now,
        },
    )
}

/// When a country's add-on cannot be set.
pub open spec fn upsert_addon_refusal(
    ctx: OracleUpsertAddon,
    country_code: [u8; 2],
    now: i64,
) -> Option<TariffError> {
    if admin_update_refusal(ctx.oracle, ctx.admin, now) is Some {
        admin_update_refusal(ctx.oracle, ctx.admin, now)
    } else if ctx.oracle.addon_slot(country_code) >= MAX_COUNTRY_ADDONS {
        Some(TariffError::ArrayFull)
    } else {
        None
    }
}

/// Sets a country's add-on, adding the country where it has none.
pub fn oracle_upsert_country_addon(
    ctx: &mut OracleUpsertAddon,
    country_code: [u8; 2],
    addon_bps: i16,
    enabled: bool,
    now: i64,
) -> (res: Result<(), TariffError>)
    requires
        old(ctx).oracle.in_capacity(),
    ensures
        error::outcome(res, upsert_addon_refusal(*old(ctx), country_code, now), ()),
        final(ctx).admin == old(ctx).admin,
        final(ctx).oracle == (if res is Ok {
            old(ctx).oracle.with_addon(country_code, addon_bps, enabled, now)
        } else {
            old(ctx).oracle
        }),
        final(ctx).oracle.in_capacity(),
        old(ctx).oracle.wf() ==> final(ctx).oracle.wf(),
{
    accounts::require_keys_eq(&ctx.oracle.admin, &ctx.admin, TariffError::Unauthorized)?;
    ctx.oracle.require_can_update(now)?;
    let len: usize = ctx.oracle.addon_len as usize;
    let slot: usize = ctx.oracle.find_addon(&country_code);
    if slot < len {
        let mut entry: CountryAddon = ctx.oracle.country_addons[slot];
        entry.addon_bps = addon_bps;
        entry.enabled = enabled;
        ctx.oracle.country_addons[slot] = entry;
    } else {
        if len >= MAX_COUNTRY_ADDONS {
            return Err(TariffError::ArrayFull);
        }
        ctx.oracle.country_addons[len] =
        CountryAddon { country_code, addon_bps, enabled, _pad: [0u8, 0u8, 0u8] };
        ctx.oracle.addon_len = (len as u8).checked_add(1).ok_or(TariffError::MathOverflow)?;
    }
    ctx.oracle.last_updated_ts = now;
    proof {
        let after = old(ctx).oracle.with_addon(country_code, addon_bps, enabled, now);
        lemma_first_slot(addon_codes(old(ctx).oracle.addons()), country_code);
        old(ctx).oracle.lemma_with_addon(country_code, addon_bps, enabled, now);
        assert(ctx.oracle.country_addons@ =~= after.country_addons@);
        assert(ctx.oracle.country_addons =~= after.country_addons);
    }
    Ok(())
}

/// When a country's weight cannot be set.
pub open spec fn upsert_weight_refusal(
    ctx: OracleUpsertWeight,
    country_code: [u8; 2],
    weight_bps: u16,
    now: i64,
) -> Option<TariffError> {
    if weight_bps > 10_000 {
        Some(TariffError::InvalidBps)
    } else if admin_update_refusal(ctx.oracle, ctx.admin, now) is Some {
        admin_update_refusal(ctx.oracle, ctx.admin, now)
    } else if ctx.oracle.weight_slot(country_code) >= MAX_BASKET_WEIGHTS {
        Some(TariffError::ArrayFull)
    } else {
        None
    }
}

/// Sets a country's basket weight, adding the country where it has none.
pub fn oracle_upsert_basket_weight(
    ctx: &mut OracleUpsertWeight,
    country_code: [u8; 2],
    weight_bps: u16,
    enabled: bool,
    now: i64,
) -> (res: Result<(), TariffError>)
    requires
        old(ctx).oracle.in_capacity(),
    ensures
        error::outcome(res, upsert_weight_refusal(*old(ctx), country_code, weight_bps, now), ()),
        final(ctx).admin == old(ctx).admin,
        final(ctx).oracle == (if res is Ok {
            old(ctx).oracle.with_weight(country_code, weight_bps, enabled, now)
        } else {
            old(ctx).oracle
        }),
        final(ctx).oracle.in_capacity(),
        old(ctx).oracle.wf() ==> final(ctx).oracle.wf(),
{
    if weight_bps > 10_000 {
        return Err(TariffError::InvalidBps);
    }
    accounts::require_keys_eq(&ctx.oracle.admin, &ctx.admin, TariffError::Unauthorized)?;
    ctx.oracle.require_can_update(now)?;
    let len: usize = ctx.oracle.weight_len as usize;
    let slot: usize = ctx.oracle.find_weight(&country_code);
    if slot < len {
        let mut entry: BasketWeight = ctx.oracle.basket_weights[slot];
        entry.weight_bps = weight_bps;
        entry.enabled = enabled;
        ctx.oracle.basket_weights[slot] = entry;
    } else {
        if len >= MAX_BASKET_WEIGHTS {
            return Err(TariffError::ArrayFull);
        }
        ctx.oracle.basket_weights[len] =
        BasketWeight { country_code, weight_bps, enabled, _pad: [0u8, 0u8, 0u8] };
        ctx.oracle.weight_len = (len as u8).checked_add(1).ok_or(TariffError::MathOverflow)?;
    }
    ctx.oracle.last_updated_ts = now;
    proof {
        let after = old(ctx).oracle.with_weight(country_code, weight_bps, enabled, now);
        lemma_first_slot(weight_codes(old(ctx).oracle.weights()), country_code);
        old(ctx).oracle.lemma_with_weight(country_code, weight_bps, enabled, now);
        assert(ctx.oracle.basket_weights@ =~= after.basket_weights@);
        assert(ctx.oracle.basket_weights =~= after.basket_weights);
    }
    Ok(())
}

} // verus!
