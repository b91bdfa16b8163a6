//! What the tariff index counts, and what an update of the oracle does.

use crate::accounts::Pubkey;
use crate::error::TariffError;
use crate::oracle;
use crate::oracle::BasketWeight;
use crate::oracle::CountryAddon;
use crate::oracle::OracleSetBaseline;
use crate::oracle::OracleSetGuardrails;
use crate::oracle::OracleUpsertAddon;
use crate::oracle::OracleUpsertWeight;
use crate::oracle::TariffOracle;
use vstd::prelude::*;

verus! {

/// An enabled add-on and an enabled weight of its country contribute weight times add-on over
/// ten thousand, rounded toward zero. Any other pair contributes nothing.
pub proof fn law_matching_pair_contributes_weight_times_addon(
    addon: CountryAddon,
    weight: BasketWeight,
)
    ensures
        ({
            let part = oracle::pair_contribution(addon, weight);
            let product = weight.weight_bps * addon.addon_bps;
            let matching = addon.enabled && weight.enabled && addon.country_code
                == weight.country_code;
            &&& matching && product >= 0 ==> 10_000 * part <= product < 10_000 * part + 10_000
            &&& matching && product < 0 ==> 10_000 * part - 10_000 < product <= 10_000 * part
            &&& !matching ==> part == 0
        }),
{
}

/// Every weight counts: one more weight adds what the add-on and that weight contribute, however
/// many weights there are.
pub proof fn law_every_weight_counts(
    addon: CountryAddon,
    weights: Seq<BasketWeight>,
    weight: BasketWeight,
)
    ensures
        oracle::addon_contribution(addon, Seq::empty()) == 0,
        oracle::addon_contribution(addon, weights.push(weight)) == oracle::addon_contribution(
            addon,
            weights,
        ) + oracle::pair_contribution(addon, weight),
{
    assert(weights.push(weight).drop_last() =~= weights);
    assert(weights.push(weight).last() == weight);
}

/// Every add-on counts: one more add-on adds what it contributes, however many there are.
pub proof fn law_every_addon_counts(
    addons: Seq<CountryAddon>,
    weights: Seq<BasketWeight>,
    addon: CountryAddon,
)
    ensures
        oracle::basket_contribution(Seq::empty(), weights) == 0,
        oracle::basket_contribution(addons.push(addon), weights) == oracle::basket_contribution(
            addons,
            weights,
        ) + oracle::addon_contribution(addon, weights),
{
    assert(addons.push(addon).drop_last() =~= addons);
    assert(addons.push(addon).last() == addon);
}

/// The basket's contribution is the sum over all pairs, weight by weight as well as add-on by
/// add-on: one more weight adds what it contributes with each add-on.
pub proof fn law_every_weight_counts_for_every_addon(
    addons: Seq<CountryAddon>,
    weights: Seq<BasketWeight>,
    weight: BasketWeight,
)
    ensures
        oracle::basket_contribution(addons, weights.push(weight)) == oracle::basket_contribution(
            addons,
            weights,
        ) + oracle::basket_contribution(addons, seq![weight]),
    decreases addons.len(),
{
    if addons.len() > 0 {
        law_every_weight_counts_for_every_addon(addons.drop_last(), weights, weight);
        law_every_weight_counts(addons.last(), weights, weight);
        law_every_weight_counts(addons.last(), Seq::empty(), weight);
        assert(Seq::<BasketWeight>::empty().push(weight) =~= seq![weight]);
    }
}

/// The contributions of two tables of add-ons add up.
pub proof fn law_tables_add_up(
    first: Seq<CountryAddon>,
    second: Seq<CountryAddon>,
    weights: Seq<BasketWeight>,
)
    ensures
        oracle::basket_contribution(first + second, weights) == oracle::basket_contribution(
            first,
            weights,
        ) + oracle::basket_contribution(second, weights),
    decreases second.len(),
{
    if second.len() == 0 {
        assert(first + second =~= first);
    } else {
        assert((first + second).drop_last() =~= first + second.drop_last());
        assert((first + second).last() == second.last());
        law_tables_add_up(first, second.drop_last(), weights);
    }
}

/// The order of the add-ons does not matter: exchanging two parts of the table changes nothing.
pub proof fn law_order_of_addons_does_not_matter(
    first: Seq<CountryAddon>,
    second: Seq<CountryAddon>,
    weights: Seq<BasketWeight>,
)
    ensures
        oracle::basket_contribution(first + second, weights) == oracle::basket_contribution(
            second + first,
            weights,
        ),
{
    law_tables_add_up(first, second, weights);
    law_tables_add_up(second, first, weights);
}

/// The index is baseline plus contribution, as far as that lies from nothing to five hundred
/// percent.
pub proof fn law_index_is_baseline_plus_basket(oracle: TariffOracle)
    ensures
        ({
            let sum = oracle.baseline_tariff_bps + oracle::basket_contribution(
                oracle.addons(),
                oracle.weights(),
            );
            &&& 0 <= sum <= 50_000 ==> oracle.index_bps() == sum
            &&& sum < 0 ==> oracle.index_bps() == 0
            &&& sum > 50_000 ==> oracle.index_bps() == 50_000
        }),
{
}

/// Of two oracles that differ in the baseline alone, the higher one has no lower index, and the
/// indices are no further apart than the baselines.
pub proof fn law_index_follows_the_baseline(oracle: TariffOracle, raise: u16)
    requires
        oracle.baseline_tariff_bps + raise <= u16::MAX,
    ensures
        ({
            let higher = TariffOracle {
                baseline_tariff_bps: (oracle.baseline_tariff_bps + raise) as u16,
                ..oracle
            };
            0 <= higher.index_bps() - oracle.index_bps() <= raise
        }),
{
}

/// The tables in use are the first slots, as many as the lengths say.
pub proof fn law_tables_are_the_first_slots(oracle: TariffOracle, i: int)
    requires
        oracle.addon_len <= 16,
        oracle.weight_len <= 16,
    ensures
        oracle.addons().len() == oracle.addon_len,
        oracle.weights().len() == oracle.weight_len,
        0 <= i < oracle.addon_len ==> oracle.addons()[i] == oracle.country_addons[i],
        0 <= i < oracle.weight_len ==> oracle.weights()[i] == oracle.basket_weights[i],
{
}

/// An oracle is within capacity exactly when neither table is longer than its sixteen slots.
pub proof fn law_capacity_is_sixteen_each(oracle: TariffOracle)
    ensures
        oracle.in_capacity() <==> oracle.addon_len <= 16 && oracle.weight_len <= 16,
{
}

/// A well-formed oracle is within capacity, and no two entries of a table name one country. An
/// oracle like that is well formed.
pub proof fn law_well_formed_names_each_country_once(oracle: TariffOracle)
    requires
        oracle.addon_len <= 16,
        oracle.weight_len <= 16,
    ensures
        oracle.wf() <==> (forall|i: int, j: int|
            0 <= i < j < oracle.addon_len ==> (#[trigger] oracle.country_addons[i]).country_code != (
            #[trigger] oracle.country_addons[j]).country_code) && (forall|i: int, j: int|
            0 <= i < j < oracle.weight_len ==> (#[trigger] oracle.basket_weights[i]).country_code
                != (#[trigger] oracle.basket_weights[j]).country_code),
{
    let a = oracle::addon_codes(oracle.addons());
    let w = oracle::weight_codes(oracle.weights());
    assert forall|i: int| 0 <= i < oracle.addon_len implies #[trigger] a[i]
        == oracle.country_addons[i].country_code by {}
    assert forall|i: int| 0 <= i < oracle.weight_len implies #[trigger] w[i]
        == oracle.basket_weights[i].country_code by {}
    if oracle.wf() {
        assert forall|i: int, j: int| 0 <= i < j < oracle.addon_len implies (
        #[trigger] oracle.country_addons[i]).country_code != (
        #[trigger] oracle.country_addons[j]).country_code by {
            assert(a[i] != a[j]);
        }
        assert forall|i: int, j: int| 0 <= i < j < oracle.weight_len implies (
        #[trigger] oracle.basket_weights[i]).country_code != (
        #[trigger] oracle.basket_weights[j]).country_code by {
            assert(w[i] != w[j]);
        }
    } else {
        assert(a.len() == oracle.addon_len && w.len() == oracle.weight_len);
        if !a.no_duplicates() {
            let (i, j) = choose|i: int, j: int|
                0 <= i < a.len() && 0 <= j < a.len() && i != j && a[i] == a[j];
            assert(oracle.country_addons[i].country_code == oracle.country_addons[j].country_code);
        } else {
            let (i, j) = choose|i: int, j: int|
                0 <= i < w.len() && 0 <= j < w.len() && i != j && w[i] == w[j];
            assert(oracle.basket_weights[i].country_code == oracle.basket_weights[j].country_code);
        }
    }
}

/// A country's slot is where the table in use names it first, or the end where it does not.
pub proof fn law_slot_is_the_first_of_the_country(oracle: TariffOracle, code: [u8; 2], j: int)
    requires
        oracle.addon_len <= 16,
        oracle.weight_len <= 16,
    ensures
        ({
            let slot = oracle.addon_slot(code);
            &&& 0 <= slot <= oracle.addon_len
            &&& slot < oracle.addon_len ==> oracle.country_addons[slot].country_code == code
            &&& 0 <= j < slot ==> oracle.country_addons[j].country_code != code
        }),
        ({
            let slot = oracle.weight_slot(code);
            &&& 0 <= slot <= oracle.weight_len
            &&& slot < oracle.weight_len ==> oracle.basket_weights[slot].country_code == code
            &&& 0 <= j < slot ==> oracle.basket_weights[j].country_code != code
        }),
{
    let a = oracle::addon_codes(oracle.addons());
    let w = oracle::weight_codes(oracle.weights());
    oracle::lemma_first_slot(a, code);
    oracle::lemma_first_slot(w, code);
    if 0 <= j < oracle.addon_slot(code) {
        assert(a[j] == oracle.country_addons[j].country_code);
    }
    if 0 <= j < oracle.weight_slot(code) {
        assert(w[j] == oracle.basket_weights[j].country_code);
    }
}

/// Setting an add-on writes the country's slot, counts a new country, and leaves every other
/// slot and everything else of the oracle but the update time as it was.
pub proof fn law_setting_an_addon_writes_one_slot(
    oracle: TariffOracle,
    code: [u8; 2],
    bps: i16,
    enabled: bool,
    now: i64,
    j: int,
)
    requires
        oracle.addon_len <= 16,
        oracle.weight_len <= 16,
        oracle.addon_slot(code) < 16,
    ensures
        ({
            let after = oracle.with_addon(code, bps, enabled, now);
            let slot = oracle.addon_slot(code);
            let entry = after.country_addons[slot];
            &&& entry.country_code == code && entry.addon_bps == bps && entry.enabled == enabled
            &&& slot < oracle.addon_len ==> after.addon_len == oracle.addon_len && entry._pad
                == oracle.country_addons[slot]._pad
            &&& slot == oracle.addon_len ==> after.addon_len == oracle.addon_len + 1 && entry._pad
                == [0u8, 0u8, 0u8]
            &&& 0 <= j < 16 && j != slot ==> after.country_addons[j] == oracle.country_addons[j]
            &&& after.last_updated_ts == now
            &&& after.admin == oracle.admin && after.baseline_tariff_bps
                == oracle.baseline_tariff_bps && after.valid_until_ts == oracle.valid_until_ts
                && after.confidence_bps == oracle.confidence_bps
            &&& after.min_update_interval_secs == oracle.min_update_interval_secs
                && after.max_jump_bps_per_update == oracle.max_jump_bps_per_update
                && after.last_baseline_bps == oracle.last_baseline_bps
            &&& after.basket_weights == oracle.basket_weights && after.weight_len
                == oracle.weight_len && after._pad0 == oracle._pad0
        }),
{
    law_slot_is_the_first_of_the_country(oracle, code, 0);
}

/// Setting a weight writes the country's slot, counts a new country, and leaves every other slot
/// and everything else of the oracle but the update time as it was.
pub proof fn law_setting_a_weight_writes_one_slot(
    oracle: TariffOracle,
    code: [u8; 2],
    bps: u16,
    enabled: bool,
    now: i64,
    j: int,
)
    requires
        oracle.addon_len <= 16,
        oracle.weight_len <= 16,
        oracle.weight_slot(code) < 16,
    ensures
        ({
            let after = oracle.with_weight(code, bps, enabled, now);
            let slot = oracle.weight_slot(code);
            let entry = after.basket_weights[slot];
            &&& entry.country_code == code && entry.weight_bps == bps && entry.enabled == enabled
            &&& slot < oracle.weight_len ==> after.weight_len == oracle.weight_len && entry._pad
                == oracle.basket_weights[slot]._pad
            &&& slot == oracle.weight_len ==> after.weight_len == oracle.weight_len + 1
                && entry._pad == [0u8, 0u8, 0u8]
            &&& 0 <= j < 16 && j != slot ==> after.basket_weights[j] == oracle.basket_weights[j]
            &&& after.last_updated_ts == now
            &&& after.admin == oracle.admin && after.baseline_tariff_bps
                == oracle.baseline_tariff_bps && after.valid_until_ts == oracle.valid_until_ts
                && after.confidence_bps == oracle.confidence_bps
            &&& after.min_update_interval_secs == oracle.min_update_interval_secs
                && after.max_jump_bps_per_update == oracle.max_jump_bps_per_update
                && after.last_baseline_bps == oracle.last_baseline_bps
            &&& after.country_addons == oracle.country_addons && after.addon_len
                == oracle.addon_len && after._pad0 == oracle._pad0
        }),
{
    law_slot_is_the_first_of_the_country(oracle, code, 0);
}

/// Setting the baseline keeps the former one, moves the window and the update time, and leaves
/// everything else as it was.
pub proof fn law_setting_the_baseline_keeps_the_former(
    oracle: TariffOracle,
    baseline_bps: u16,
    valid_secs: i64,
    now: i64,
)
    requires
        i64::MIN <= now + valid_secs <= i64::MAX,
    ensures
        ({
            let after = oracle.with_baseline(baseline_bps, valid_secs, now);
            &&& after.baseline_tariff_bps == baseline_bps
            &&& after.last_baseline_bps == oracle.baseline_tariff_bps
            &&& after.valid_until_ts - now == valid_secs
            &&& after.last_updated_ts == now
            &&& after.admin == oracle.admin && after.confidence_bps == oracle.confidence_bps
            &&& after.min_update_interval_secs == oracle.min_update_interval_secs
                && after.max_jump_bps_per_update == oracle.max_jump_bps_per_update
            &&& after.country_addons == oracle.country_addons && after.basket_weights
                == oracle.basket_weights && after.addon_len == oracle.addon_len && after.weight_len
                == oracle.weight_len && after._pad0 == oracle._pad0
        }),
{
}

/// An oracle can be read up to the end of its window, and is stale after it.
pub proof fn law_oracle_is_valid_to_the_end_of_its_window(oracle: TariffOracle, now: i64)
    ensures
        now <= oracle.valid_until_ts ==> oracle.valid_refusal(now) is None,
        now > oracle.valid_until_ts ==> oracle.valid_refusal(now) == Some(
            TariffError::OracleStale,
        ),
{
}

/// An update is taken once the interval has passed. One within it is too soon, and one before
/// the last update, or too long after it for the difference to fit, overflows.
pub proof fn law_update_is_taken_after_the_interval(oracle: TariffOracle, now: i64)
    ensures
        ({
            let passed = now - oracle.last_updated_ts;
            &&& passed < 0 || passed > i64::MAX ==> oracle.update_refusal(now) == Some(
                TariffError::MathOverflow,
            )
            &&& 0 <= passed <= i64::MAX && passed < oracle.min_update_interval_secs
                ==> oracle.update_refusal(now) == Some(TariffError::OracleUpdateTooSoon)
            &&& 0 <= passed <= i64::MAX && passed >= oracle.min_update_interval_secs
                ==> oracle.update_refusal(now) is None
        }),
{
}

/// The admin's update is held to the interval alone, and nobody else's is taken.
pub proof fn law_update_is_the_admins(oracle: TariffOracle, signer: Pubkey, now: i64)
    ensures
        signer == oracle.admin ==> oracle::admin_update_refusal(oracle, signer, now)
            == oracle.update_refusal(now),
        signer != oracle.admin ==> oracle::admin_update_refusal(oracle, signer, now) == Some(
            TariffError::Unauthorized,
        ),
{
}

/// An oracle is created for every confidence up to one whole and every window whose end fits.
pub proof fn law_oracle_is_created_unless_out_of_range(
    confidence_bps: u16,
    valid_secs: i64,
    now: i64,
)
    ensures
        ({
            let refusal = oracle::initialize_oracle_refusal(confidence_bps, valid_secs, now);
            &&& confidence_bps > 10_000 <==> refusal == Some(TariffError::InvalidBps)
            &&& confidence_bps <= 10_000 && i64::MIN <= now + valid_secs <= i64::MAX <==> refusal
                is None
            &&& refusal is Some ==> confidence_bps > 10_000 || refusal == Some(
                TariffError::MathOverflow,
            )
        }),
{
}

/// A new oracle holds its arguments, an empty table of each sort, and no limit on updates below
/// the index range.
pub proof fn law_new_oracle_is_empty(
    admin: Pubkey,
    baseline_bps: u16,
    confidence_bps: u16,
    valid_secs: i64,
    now: i64,
    i: int,
)
    requires
        i64::MIN <= now + valid_secs <= i64::MAX,
    ensures
        ({
            let new = oracle::new_oracle(admin, baseline_bps, confidence_bps, valid_secs, now);
            &&& new.admin == admin && new.baseline_tariff_bps == baseline_bps
                && new.last_baseline_bps == baseline_bps && new.confidence_bps == confidence_bps
            &&& new.last_updated_ts == now && new.valid_until_ts - now == valid_secs
            &&& new.min_update_interval_secs == 0 && new.max_jump_bps_per_update == 50_000
            &&& new.addon_len == 0 && new.weight_len == 0 && new._pad0 == [
                0u8,
                0u8,
                0u8,
                0u8,
                0u8,
                0u8,
            ]
            &&& 0 <= i < 16 ==> !new.country_addons[i].enabled && new.country_addons[i].addon_bps
                == 0 && new.country_addons[i].country_code == [0u8, 0u8]
                && new.country_addons[i]._pad == [0u8, 0u8, 0u8]
            &&& 0 <= i < 16 ==> !new.basket_weights[i].enabled && new.basket_weights[i].weight_bps
                == 0 && new.basket_weights[i].country_code == [0u8, 0u8]
                && new.basket_weights[i]._pad == [0u8, 0u8, 0u8]
        }),
{
}

/// The guardrails are set by the admin for every interval that is not negative and every jump
/// limit within the index range. A bad interval is reported before a bad limit, and both before
/// a wrong signer.
pub proof fn law_guardrails_are_refused_in_order(
    ctx: OracleSetGuardrails,
    interval: i64,
    jump_bps: u16,
)
    ensures
        ({
            let refusal = oracle::set_guardrails_refusal(ctx, interval, jump_bps);
            &&& interval < 0 <==> refusal == Some(TariffError::InvalidConfig)
            &&& interval >= 0 && jump_bps > 50_000 <==> refusal == Some(TariffError::InvalidBps)
            &&& interval >= 0 && jump_bps <= 50_000 && ctx.admin != ctx.oracle.admin <==> refusal
                == Some(TariffError::Unauthorized)
            &&& interval >= 0 && jump_bps <= 50_000 && ctx.admin == ctx.oracle.admin <==> refusal
                is None
        }),
{
}

/// The baseline is set when the update is admitted, the jump is within the limit either way and
/// the end of the window fits, and the first of these that fails is reported.
pub proof fn law_baseline_is_refused_in_order(
    ctx: OracleSetBaseline,
    baseline_bps: u16,
    valid_secs: i64,
    now: i64,
)
    ensures
        ({
            let refusal = oracle::set_baseline_refusal(ctx, baseline_bps, valid_secs, now);
            let admitted = oracle::admin_update_refusal(ctx.oracle, ctx.admin, now);
            let far = baseline_bps - ctx.oracle.baseline_tariff_bps
                > ctx.oracle.max_jump_bps_per_update || ctx.oracle.baseline_tariff_bps
                - baseline_bps > ctx.oracle.max_jump_bps_per_update;
            let fits = i64::MIN <= now + valid_secs <= i64::MAX;
            &&& admitted is Some ==> refusal == admitted
            &&& admitted is None && far ==> refusal == Some(TariffError::BaselineJumpTooLarge)
            &&& admitted is None && !far && !fits ==> refusal == Some(TariffError::MathOverflow)
            &&& admitted is None && !far && fits ==> refusal is None
        }),
{
}

/// An entry is set when the update is admitted and the country has or gets a slot. A weight is
/// at most one whole, which is looked at first.
pub proof fn law_entries_are_refused_in_order(
    addon: OracleUpsertAddon,
    weight: OracleUpsertWeight,
    code: [u8; 2],
    weight_bps: u16,
    now: i64,
)
    ensures
        ({
            let refusal = oracle::upsert_addon_refusal(addon, code, now);
            let admitted = oracle::admin_update_refusal(addon.oracle, addon.admin, now);
            &&& admitted is Some ==> refusal == admitted
            &&& admitted is None && addon.oracle.addon_slot(code) < 16 ==> refusal is None
            &&& admitted is None && addon.oracle.addon_slot(code) >= 16 ==> refusal == Some(
                TariffError::ArrayFull,
            )
        }),
        ({
            let refusal = oracle::upsert_weight_refusal(weight, code, weight_bps, now);
            let admitted = oracle::admin_update_refusal(weight.oracle, weight.admin, now);
            &&& weight_bps > 10_000 ==> refusal == Some(TariffError::InvalidBps)
            &&& weight_bps <= 10_000 && admitted is Some ==> refusal == admitted
            &&& weight_bps <= 10_000 && admitted is None && weight.oracle.weight_slot(code) < 16
                ==> refusal is None
            &&& weight_bps <= 10_000 && admitted is None && weight.oracle.weight_slot(code) >= 16
                ==> refusal == Some(TariffError::ArrayFull)
        }),
{
}

} // verus!
