use vstd::prelude::*;

use crate::duration::Duration;
use crate::text::{decimal, push_decimal};

verus! {

/// The three permanent upgrades.
#[derive(Clone, Copy, Debug, PartialEq, Eq, Structural)]
pub enum UpgradeOptions {
    MaximumHealth,
    HealthRegen,
    DamageMultiplier,
}

/// The highest tier of every upgrade.
pub const MAX_PRESTIGE_TIER: u32 = 5;

/// A tier of a permanent upgrade: what the next tier costs, what it does,
/// and which tier follows it.
pub trait PrestigeTier: Sized {
    const MAX_TIER: u32;

    /// The tier number.
    spec fn tier_value(&self) -> nat;

    /// Whether `description` can be computed for this tier.
    spec fn describable(&self) -> bool;

    /// The text that `description` returns.
    spec fn description_text(&self) -> Seq<char>;

    /// The price of this tier: ten coins per tier.
    fn price(&self) -> (p: u32)
        requires
            10 * self.tier_value() <= u32::MAX,
        ensures
            p == 10 * self.tier_value(),
    ;

    /// A line of text that says what the tier gives.
    fn description(&self) -> (s: String)
        requires
            self.describable(),
        ensures
            s@ == self.description_text(),
    ;

    /// The following tier, or `None` at the highest one.
    fn next(&self) -> (n: Option<Self>)
        requires
            self.tier_value() == MAX_PRESTIGE_TIER || self.tier_value() < u32::MAX,
        ensures
            n is None <==> self.tier_value() == MAX_PRESTIGE_TIER,
            n matches Some(t) ==> t.tier_value() == self.tier_value() + 1,
    ;
}

/// The upgrade that raises all damage by ten percent per tier.
#[derive(Clone, Copy, Debug, PartialEq, Eq, Structural)]
pub struct DamageMultiplierTier(u32);

/// The upgrade that raises the maximum health by one per tier.
#[derive(Clone, Copy, Debug, PartialEq, Eq, Structural)]
pub struct MaximumHealthTier(u32);

/// The upgrade that makes health come back, faster with each tier.
#[derive(Clone, Copy, Debug, PartialEq, Eq, Structural)]
pub struct HealthRegenTier(u32);

/// The highest damage multiplier tier whose description the library
/// writes. The game computes the bonus as an `f32` (`1 + tier * 0.1`) and
/// prints it with one decimal; up to this tier that text is exactly the
/// decimal `10 * tier` followed by ".0", and the step to the next tier
/// "10.0". From the next tier on the `f32` rounding shows in the text.
pub const MAX_DESCRIBED_DAMAGE_TIER: u32 = 40952;

/// The damage bonus in percent of a damage multiplier tier, followed by
/// one decimal, as `{:.1}` prints it for the tiers up to
/// `MAX_DESCRIBED_DAMAGE_TIER`.
pub open spec fn percent_text(tier: nat) -> Seq<char> {
    decimal(10 * tier) + ".0"@
}

/// The text of `DamageMultiplierTier::description`.
pub open spec fn damage_multiplier_text(tier: nat) -> Seq<char> {
    if tier == MAX_PRESTIGE_TIER {
        "Increase all damage by: "@ + percent_text(tier) + "%,  Tier "@ + decimal(tier) + "/"@
            + decimal(tier)
    } else {
        "Increase all damage by: "@ + percent_text(tier) + "% (+"@ + percent_text(1) + "%),  Tier "@
            + decimal(tier) + "/"@ + decimal(MAX_PRESTIGE_TIER as nat)
    }
}

/// The text of `MaximumHealthTier::description`.
pub open spec fn maximum_health_text(tier: nat) -> Seq<char> {
    if tier == MAX_PRESTIGE_TIER {
        "Increase maximum health by: "@ + decimal(tier) + ",  Tier "@ + decimal(tier) + "/"@
            + decimal(tier)
    } else {
        "Increase maximum health by: "@ + decimal(tier) + " (+"@ + decimal(1) + "),  Tier "@
            + decimal(tier) + "/"@ + decimal(MAX_PRESTIGE_TIER as nat)
    }
}

/// Seconds between two health regenerations at a tier above zero.
pub open spec fn regen_seconds(tier: nat) -> int {
    60 - 5 * tier
}

/// How the regeneration period of a tier is printed.
pub open spec fn regen_period_text(tier: nat) -> Seq<char> {
    if tier > 0 {
        decimal(regen_seconds(tier) as nat)
    } else {
        "Infinity"@
    }
}

/// The text of `HealthRegenTier::description`.
pub open spec fn health_regen_text(tier: nat) -> Seq<char> {
    if tier == MAX_PRESTIGE_TIER {
        "Regenerate health every: "@ + regen_period_text(tier) + " seconds,  Tier "@ + decimal(tier)
            + "/"@ + decimal(tier)
    } else {
        "Regenerate health every: "@ + regen_period_text(tier) + " seconds ("@ + decimal(
            regen_seconds(tier + 1) as nat,
        ) + " seconds),  Tier "@ + decimal(tier) + "/"@ + decimal(MAX_PRESTIGE_TIER as nat)
    }
}

impl DamageMultiplierTier {
    /// The tier with number `tier`.
    pub fn new(tier: u32) -> (t: Self)
        ensures
            t.tier_value() == tier,
    {
        DamageMultiplierTier(tier)
    }

    /// The tier number.
    pub fn tier(&self) -> (n: u32)
        ensures
            n == self.tier_value(),
    {
        self.0
    }
}

impl PrestigeTier for DamageMultiplierTier {
    const MAX_TIER: u32 = 5;

    closed spec fn tier_value(&self) -> nat {
        self.0 as nat
    }

    closed spec fn describable(&self) -> bool {
        self.0 <= MAX_DESCRIBED_DAMAGE_TIER
    }

    closed spec fn description_text(&self) -> Seq<char> {
        damage_multiplier_text(self.0 as nat)
    }

    fn price(&self) -> (p: u32) {
        10 * self.0
    }

    /// The bonus line of the tier; written for the tiers up to
    /// `MAX_DESCRIBED_DAMAGE_TIER`, on which its decimal text is the text of
    /// the game's `f32` bonus.
    fn description(&self) -> (s: String) {
        let tier = self.0 as u64;
        let mut s = String::from_str("Increase all damage by: ");
        push_decimal(&mut s, 10 * tier);
        s.append(".0");
        match self.next() {
            Some(_) => {
                s.append("% (+");
                push_decimal(&mut s, 10);
                s.append(".0");
                s.append("%),  Tier ");
                push_decimal(&mut s, tier);
                s.append("/");
                push_decimal(&mut s, Self::MAX_TIER as u64);
            },
            None => {
                s.append("%,  Tier ");
                push_decimal(&mut s, tier);
                s.append("/");
                push_decimal(&mut s, tier);
            },
        }
        assert(s@ =~= self.description_text());
        s
    }

    fn next(&self) -> (n: Option<Self>) {
        if self.0 == Self::MAX_TIER {
            return None;
        }
        Some(Self(self.0 + 1))
    }
}

impl MaximumHealthTier {
    /// The tier with number `tier`.
    pub fn new(tier: u32) -> (t: Self)
        ensures
            t.tier_value() == tier,
    {
        MaximumHealthTier(tier)
    }

    /// The tier number.
    pub fn tier(&self) -> (n: u32)
        ensures
            n == self.tier_value(),
    {
        self.0
    }

    /// The maximum health that the tier adds.
    pub fn get_increase(&self) -> (inc: u32)
        ensures
            inc == self.tier_value(),
    {
        self.0
    }
}

impl PrestigeTier for MaximumHealthTier {
    const MAX_TIER: u32 = 5;

    closed spec fn tier_value(&self) -> nat {
        self.0 as nat
    }

    closed spec fn describable(&self) -> bool {
        self.0 < u32::MAX
    }

    closed spec fn description_text(&self) -> Seq<char> {
        maximum_health_text(self.0 as nat)
    }

    fn price(&self) -> (p: u32) {
        10 * self.0
    }

    fn description(&self) -> (s: String) {
        let mut s = String::from_str("Increase maximum health by: ");
        push_decimal(&mut s, self.get_increase() as u64);
        match self.next() {
            Some(next) => {
                s.append(" (+");
                push_decimal(&mut s, (next.get_increase() - self.get_increase()) as u64);
                s.append("),  Tier ");
                push_decimal(&mut s, self.0 as u64);
                s.append("/");
                push_decimal(&mut s, Self::MAX_TIER as u64);
            },
            None => {
                s.append(",  Tier ");
                push_decimal(&mut s, self.0 as u64);
                s.append("/");
                push_decimal(&mut s, self.0 as u64);
            },
        }
        assert(s@ =~= self.description_text());
        s
    }

    fn next(&self) -> (n: Option<Self>) {
        if self.0 == Self::MAX_TIER {
            return None;
        }
        Some(Self(self.0 + 1))
    }
}

impl HealthRegenTier {
    /// The tier with number `tier`.
    pub fn new(tier: u32) -> (t: Self)
        ensures
            t.tier_value() == tier,
    {
        HealthRegenTier(tier)
    }

    /// The tier number.
    pub fn tier(&self) -> (n: u32)
        ensures
            n == self.tier_value(),
    {
        self.0
    }

    /// The time between two health regenerations, or `None` at tier zero,
    /// where health does not come back.
    pub fn get_increase(&self) -> (period: Option<Duration>)
        requires
            self.tier_value() <= 12,
        ensures
            period is Some <==> self.tier_value() > 0,
            period matches Some(d) ==> d@ == regen_seconds(self.tier_value()) * 1_000_000_000,
    {
        if self.0 > 0 {
            return Some(Duration::from_secs(60 - self.0 as u64 * 5));
        }
        None
    }
}

proof fn lemma_whole_seconds(secs: nat)
    ensures
        (secs * 1_000_000_000) / 1_000_000_000 == secs,
{
    vstd::arithmetic::div_mod::lemma_div_multiples_vanish(secs as int, 1_000_000_000);
    vstd::arithmetic::mul::lemma_mul_is_commutative(secs as int, 1_000_000_000);
}

impl PrestigeTier for HealthRegenTier {
    const MAX_TIER: u32 = 5;

    closed spec fn tier_value(&self) -> nat {
        self.0 as nat
    }

    closed spec fn describable(&self) -> bool {
        self.0 <= 11
    }

    closed spec fn description_text(&self) -> Seq<char> {
        health_regen_text(self.0 as nat)
    }

    fn price(&self) -> (p: u32) {
        10 * self.0
    }

    fn description(&self) -> (s: String) {
        let mut s = String::from_str("Regenerate health every: ");
        match self.get_increase() {
            Some(d) => {
                proof {
                    lemma_whole_seconds(regen_seconds(self.0 as nat) as nat);
                }
                push_decimal(&mut s, d.as_secs());
            },
            None => {
                s.append("Infinity");
            },
        }
        match self.next() {
            Some(next) => {
                s.append(" seconds (");
                let next_period = next.get_increase().unwrap();
                proof {
                    lemma_whole_seconds(regen_seconds(self.0 as nat + 1) as nat);
                }
                push_decimal(&mut s, next_period.as_secs());
                s.append(" seconds),  Tier ");
                push_decimal(&mut s, self.0 as u64);
                s.append("/");
                push_decimal(&mut s, Self::MAX_TIER as u64);
            },
            None => {
                s.append(" seconds,  Tier ");
                push_decimal(&mut s, self.0 as u64);
                s.append("/");
                push_decimal(&mut s, self.0 as u64);
            },
        }
        assert(s@ =~= self.description_text());
        s
    }

    fn next(&self) -> (n: Option<Self>) {
        if self.0 == Self::MAX_TIER {
            return None;
        }
        Some(Self(self.0 + 1))
    }
}

/// Every upgrade has the same highest tier, `MAX_PRESTIGE_TIER`.
pub proof fn lemma_max_tier()
    ensures
        DamageMultiplierTier::MAX_TIER == MAX_PRESTIGE_TIER,
        MaximumHealthTier::MAX_TIER == MAX_PRESTIGE_TIER,
        HealthRegenTier::MAX_TIER == MAX_PRESTIGE_TIER,
{
}

/// What the closed specification of a damage multiplier tier stands for.
pub proof fn lemma_damage_multiplier_tier_spec(t: DamageMultiplierTier)
    ensures
        t.describable() <==> t.tier_value() <= MAX_DESCRIBED_DAMAGE_TIER,
        t.description_text() == damage_multiplier_text(t.tier_value()),
{
}

/// What the closed specification of a maximum health tier stands for.
pub proof fn lemma_maximum_health_tier_spec(t: MaximumHealthTier)
    ensures
        t.describable() <==> t.tier_value() < u32::MAX,
        t.description_text() == maximum_health_text(t.tier_value()),
{
}

/// The text of a maximum health tier: below the highest tier (and above
/// it) it names the health that the tier adds, the one point that the next
/// tier brings and the tier out of five; at the highest tier the step is
/// left out and the tier is given out of itself.
pub proof fn lemma_maximum_health_description(t: MaximumHealthTier)
    ensures
        t.tier_value() != MAX_PRESTIGE_TIER ==> t.description_text() == "Increase maximum health by: "@
            + decimal(t.tier_value()) + " (+1),  Tier "@ + decimal(t.tier_value()) + "/5"@,
        t.tier_value() == MAX_PRESTIGE_TIER ==> t.description_text()
            == "Increase maximum health by: 5,  Tier 5/5"@,
{
    reveal_strlit("Increase maximum health by: ");
    reveal_strlit(" (+");
    reveal_strlit("),  Tier ");
    reveal_strlit("/");
    reveal_strlit(",  Tier ");
    reveal_strlit(" (+1),  Tier ");
    reveal_strlit("/5");
    reveal_strlit("Increase maximum health by: 5,  Tier 5/5");
    assert(" (+"@ + decimal(1) + "),  Tier "@ =~= " (+1),  Tier "@);
    assert("/"@ + decimal(5) =~= "/5"@);
    if t.tier_value() == MAX_PRESTIGE_TIER {
        assert(t.description_text() =~= "Increase maximum health by: 5,  Tier 5/5"@);
    } else {
        assert(t.description_text() =~= "Increase maximum health by: "@ + decimal(t.tier_value())
            + " (+1),  Tier "@ + decimal(t.tier_value()) + "/5"@);
    }
}

/// The text of a damage multiplier tier (up to the highest tier whose text
/// the library writes): below the highest tier (and above it) it names the
/// bonus in percent, the ten percent that the next tier brings and the tier
/// out of five; at the highest tier the step is left out and the tier is
/// given out of itself.
pub proof fn lemma_damage_multiplier_description(t: DamageMultiplierTier)
    ensures
        t.tier_value() != MAX_PRESTIGE_TIER ==> t.description_text() == "Increase all damage by: "@
            + decimal(10 * t.tier_value()) + ".0% (+10.0%),  Tier "@ + decimal(t.tier_value())
            + "/5"@,
        t.tier_value() == MAX_PRESTIGE_TIER ==> t.description_text()
            == "Increase all damage by: 50.0%,  Tier 5/5"@,
{
    reveal_strlit("Increase all damage by: ");
    reveal_strlit(".0");
    reveal_strlit("% (+");
    reveal_strlit("%),  Tier ");
    reveal_strlit("/");
    reveal_strlit("%,  Tier ");
    reveal_strlit(".0% (+10.0%),  Tier ");
    reveal_strlit("/5");
    reveal_strlit("Increase all damage by: 50.0%,  Tier 5/5");
    assert(decimal(1) =~= seq!['1']);
    assert(decimal(10) =~= seq!['1', '0']);
    assert(decimal(5) =~= seq!['5']);
    assert(decimal(50) =~= seq!['5', '0']);
    assert(".0"@ + "% (+"@ + percent_text(1) + "%),  Tier "@ =~= ".0% (+10.0%),  Tier "@);
    assert("/"@ + decimal(5) =~= "/5"@);
    if t.tier_value() == MAX_PRESTIGE_TIER {
        assert(t.description_text() =~= "Increase all damage by: 50.0%,  Tier 5/5"@);
    } else {
        assert(t.description_text() =~= "Increase all damage by: "@ + decimal(10 * t.tier_value())
            + ".0% (+10.0%),  Tier "@ + decimal(t.tier_value()) + "/5"@);
    }
}

/// The text of a health regeneration tier (up to tier eleven, the last with
/// a period): below the highest tier (and above it) it names the seconds
/// between two regenerations (`Infinity` at tier zero), the seconds at the
/// next tier, five fewer, and the tier out of five; at the highest tier the
/// next period is left out and the tier is given out of itself.
pub proof fn lemma_health_regen_description(t: HealthRegenTier)
    ensures
        t.tier_value() != MAX_PRESTIGE_TIER ==> t.description_text()
            == "Regenerate health every: "@ + (if t.tier_value() > 0 {
                decimal((60 - 5 * t.tier_value()) as nat)
            } else {
                "Infinity"@
            }) + " seconds ("@ + decimal((55 - 5 * t.tier_value()) as nat) + " seconds),  Tier "@
            + decimal(t.tier_value()) + "/5"@,
        t.tier_value() == MAX_PRESTIGE_TIER ==> t.description_text()
            == "Regenerate health every: 35 seconds,  Tier 5/5"@,
{
    reveal_strlit("Regenerate health every: ");
    reveal_strlit(" seconds,  Tier ");
    reveal_strlit("/");
    reveal_strlit("/5");
    reveal_strlit("Regenerate health every: 35 seconds,  Tier 5/5");
    assert(decimal(3) =~= seq!['3']);
    assert(decimal(5) =~= seq!['5']);
    assert(decimal(35) =~= seq!['3', '5']);
    assert("/"@ + decimal(5) =~= "/5"@);
    if t.tier_value() == MAX_PRESTIGE_TIER {
        assert(t.description_text() =~= "Regenerate health every: 35 seconds,  Tier 5/5"@);
    } else {
        assert(regen_seconds(t.tier_value() + 1) == 55 - 5 * t.tier_value());
        assert(t.description_text() =~= "Regenerate health every: "@ + regen_period_text(
            t.tier_value(),
        ) + " seconds ("@ + decimal((55 - 5 * t.tier_value()) as nat) + " seconds),  Tier "@
            + decimal(t.tier_value()) + "/5"@);
    }
}

/// What the closed specification of a health regeneration tier stands for.
pub proof fn lemma_health_regen_tier_spec(t: HealthRegenTier)
    ensures
        t.describable() <==> t.tier_value() <= 11,
        t.description_text() == health_regen_text(t.tier_value()),
{
}

/// The prestige state kept between runs: coins to spend and the tier of
/// every upgrade.
#[derive(Clone, Copy, Debug)]
pub struct Stats {
    pub coins: u32,
    pub damage_multiplier: DamageMultiplierTier,
    pub maximum_health: MaximumHealthTier,
    pub health_regen: HealthRegenTier,
}

/// The price of the tier after `tier`, or `None` at the highest tier.
pub open spec fn next_price_after(tier: nat) -> Option<nat> {
    if tier == MAX_PRESTIGE_TIER {
        None
    } else {
        Some(10 * (tier + 1))
    }
}

/// Coins spent to reach `tier` from tier zero: ten coins for each tier
/// bought on the way.
pub open spec fn spent_to_reach(tier: nat) -> nat
    decreases tier,
{
    if tier == 0 {
        0
    } else {
        spent_to_reach((tier - 1) as nat) + 10 * tier
    }
}

impl Stats {
    /// The tier of the upgrade `option`.
    pub open spec fn tier_of(self, option: UpgradeOptions) -> nat {
        match option {
            UpgradeOptions::MaximumHealth => self.maximum_health.tier_value(),
            UpgradeOptions::HealthRegen => self.health_regen.tier_value(),
            UpgradeOptions::DamageMultiplier => self.damage_multiplier.tier_value(),
        }
    }

    /// Whether `description` can be computed for the tier of `option`.
    pub open spec fn info_available(self, option: UpgradeOptions) -> bool {
        match option {
            UpgradeOptions::MaximumHealth => self.maximum_health.describable(),
            UpgradeOptions::HealthRegen => self.health_regen.describable(),
            UpgradeOptions::DamageMultiplier => self.damage_multiplier.describable(),
        }
    }

    /// The text that `get_upgrade_info` returns.
    pub open spec fn info_text(self, option: UpgradeOptions) -> Seq<char> {
        match option {
            UpgradeOptions::MaximumHealth => self.maximum_health.description_text(),
            UpgradeOptions::HealthRegen => self.health_regen.description_text(),
            UpgradeOptions::DamageMultiplier => self.damage_multiplier.description_text(),
        }
    }

    /// The price of the next tier of `option`, or `None` at the highest one.
    pub open spec fn next_price_of(self, option: UpgradeOptions) -> Option<nat> {
        next_price_after(self.tier_of(option))
    }

    /// Whether the price of the next tier of `option` fits in a `u32`, as
    /// computing it requires.
    pub open spec fn next_price_fits(self, option: UpgradeOptions) -> bool {
        self.tier_of(option) == MAX_PRESTIGE_TIER || 10 * (self.tier_of(option) + 1) <= u32::MAX
    }

    /// Whether `upgrade(option)` buys a tier: there is a next tier and the
    /// coins pay for it.
    pub open spec fn can_buy(self, option: UpgradeOptions) -> bool {
        self.next_price_of(option) matches Some(p) && p <= self.coins
    }

    /// `after` is what `upgrade(option)` makes of `before`: where the next
    /// tier can be bought its price is paid and the tier goes up by one;
    /// otherwise nothing changes. The other upgrades never change.
    pub open spec fn upgrade_step(before: Stats, option: UpgradeOptions, after: Stats) -> bool {
        &&& forall|o: UpgradeOptions| o != option ==> after.tier_of(o) == before.tier_of(o)
        &&& if before.can_buy(option) {
            &&& after.coins == before.coins - 10 * (before.tier_of(option) + 1)
            &&& after.tier_of(option) == before.tier_of(option) + 1
        } else {
            &&& after.coins == before.coins
            &&& after.tier_of(option) == before.tier_of(option)
        }
    }

    /// Coins spent on all upgrades to reach their tiers.
    pub open spec fn spent(self) -> nat {
        spent_to_reach(self.maximum_health.tier_value()) + spent_to_reach(
            self.health_regen.tier_value(),
        ) + spent_to_reach(self.damage_multiplier.tier_value())
    }

    /// Every upgrade is at most at the highest tier.
    pub open spec fn tiers_in_range(self) -> bool {
        &&& self.maximum_health.tier_value() <= MAX_PRESTIGE_TIER
        &&& self.health_regen.tier_value() <= MAX_PRESTIGE_TIER
        &&& self.damage_multiplier.tier_value() <= MAX_PRESTIGE_TIER
    }

    /// Adds `amount` coins.
    pub fn update_coins_amount(&mut self, amount: u32)
        requires
            old(self).coins + amount <= u32::MAX,
        ensures
            final(self).coins == old(self).coins + amount,
            final(self).damage_multiplier == old(self).damage_multiplier,
            final(self).maximum_health == old(self).maximum_health,
            final(self).health_regen == old(self).health_regen,
    {
        self.coins += amount;
    }

    fn uprade_max_health(&mut self)
        requires
            old(self).next_price_fits(UpgradeOptions::MaximumHealth),
        ensures
            Self::upgrade_step(*old(self), UpgradeOptions::MaximumHealth, *final(self)),
    {
        let Some(next) = self.maximum_health.next() else {
            return;
        };
        if self.coins >= next.price() {
            self.coins -= next.price();
            self.maximum_health = next;
        }
    }

    fn uprade_health_regen(&mut self)
        requires
            old(self).next_price_fits(UpgradeOptions::HealthRegen),
        ensures
            Self::upgrade_step(*old(self), UpgradeOptions::HealthRegen, *final(self)),
    {
        let Some(next) = self.health_regen.next() else {
            return;
        };
        if self.coins >= next.price() {
            self.coins -= next.price();
            self.health_regen = next;
        }
    }

    fn uprade_damage_multiplier(&mut self)
        requires
            old(self).next_price_fits(UpgradeOptions::DamageMultiplier),
        ensures
            Self::upgrade_step(*old(self), UpgradeOptions::DamageMultiplier, *final(self)),
    {
        let Some(next) = self.damage_multiplier.next() else {
            return;
        };
        if self.coins >= next.price() {
            self.coins -= next.price();
            self.damage_multiplier = next;
        }
    }

    /// Buys the next tier of `upgrade_option` where there is one and the
    /// coins pay for it.
    pub fn upgrade(&mut self, upgrade_option: UpgradeOptions)
        requires
            old(self).next_price_fits(upgrade_option),
        ensures
            Self::upgrade_step(*old(self), upgrade_option, *final(self)),
    {
        match upgrade_option {
            UpgradeOptions::MaximumHealth => {
                self.uprade_max_health();
            },
            UpgradeOptions::HealthRegen => {
                self.uprade_health_regen();
            },
            UpgradeOptions::DamageMultiplier => {
                self.uprade_damage_multiplier();
            },
        }
    }

    /// The description of the current tier of `upgrade_option`.
    pub fn get_upgrade_info(self, upgrade_option: UpgradeOptions) -> (s: String)
        requires
            self.info_available(upgrade_option),
        ensures
            s@ == self.info_text(upgrade_option),
    {
        match upgrade_option {
            UpgradeOptions::MaximumHealth => self.maximum_health.description(),
            UpgradeOptions::HealthRegen => self.health_regen.description(),
            UpgradeOptions::DamageMultiplier => self.damage_multiplier.description(),
        }
    }

    /// The price of the next tier of `upgrade_option`, or `None` at the
    /// highest tier.
    pub fn get_next_price(self, upgrade_option: UpgradeOptions) -> (price: Option<u32>)
        requires
            self.next_price_fits(upgrade_option),
        ensures
            price is Some <==> self.next_price_of(upgrade_option) is Some,
            price matches Some(p) ==> self.next_price_of(upgrade_option) == Some(p as nat),
    {
        match upgrade_option {
            UpgradeOptions::MaximumHealth => Some(self.maximum_health.next()?.price()),
            UpgradeOptions::HealthRegen => Some(self.health_regen.next()?.price()),
            UpgradeOptions::DamageMultiplier => Some(self.damage_multiplier.next()?.price()),
        }
    }

    /// Whether the coins pay for the next tier of `upgrade_option`, or `None`
    /// at the highest tier.
    pub fn is_upgradeable(self, upgrade_option: UpgradeOptions) -> (b: Option<bool>)
        requires
            self.next_price_fits(upgrade_option),
        ensures
            b is Some <==> self.next_price_of(upgrade_option) is Some,
            b matches Some(affordable) ==> affordable == self.can_buy(upgrade_option),
    {
        Some(self.get_next_price(upgrade_option)? <= self.coins)
    }
}

impl Default for Stats {
    /// A thousand coins and every upgrade at tier zero.
    fn default() -> (s: Stats)
        ensures
            s.coins == 1000,
            s.damage_multiplier.tier_value() == 0,
            s.maximum_health.tier_value() == 0,
            s.health_regen.tier_value() == 0,
    {
        Stats {
            coins: 1000,
            damage_multiplier: DamageMultiplierTier(0),
            maximum_health: MaximumHealthTier(0),
            health_regen: HealthRegenTier(0),
        }
    }
}

/// Law: an upgrade never creates or destroys coins: the coins held plus the
/// coins spent on tiers stay the same.
pub proof fn lemma_upgrade_keeps_wealth(before: Stats, option: UpgradeOptions, after: Stats)
    requires
        Stats::upgrade_step(before, option, after),
    ensures
        after.coins + after.spent() == before.coins + before.spent(),
{
    let o1 = UpgradeOptions::MaximumHealth;
    let o2 = UpgradeOptions::HealthRegen;
    let o3 = UpgradeOptions::DamageMultiplier;
    assert(after.tier_of(o1) == before.tier_of(o1) || option == o1);
    assert(after.tier_of(o2) == before.tier_of(o2) || option == o2);
    assert(after.tier_of(o3) == before.tier_of(o3) || option == o3);
    if before.can_buy(option) {
        let t = before.tier_of(option);
        assert(spent_to_reach(t + 1) == spent_to_reach(t) + 10 * (t + 1));
    }
}

/// Law: upgrades never go past the highest tier.
pub proof fn lemma_upgrade_keeps_tiers_in_range(before: Stats, option: UpgradeOptions, after: Stats)
    requires
        Stats::upgrade_step(before, option, after),
        before.tiers_in_range(),
    ensures
        after.tiers_in_range(),
{
    let o1 = UpgradeOptions::MaximumHealth;
    let o2 = UpgradeOptions::HealthRegen;
    let o3 = UpgradeOptions::DamageMultiplier;
    assert(after.tier_of(o1) == before.tier_of(o1) || option == o1);
    assert(after.tier_of(o2) == before.tier_of(o2) || option == o2);
    assert(after.tier_of(o3) == before.tier_of(o3) || option == o3);
}

/// Law: an upgrade changes the stats exactly when `is_upgradeable` answers
/// `Some(true)` for it, and then the coins go down by the price that
/// `get_next_price` answers.
pub proof fn lemma_upgrade_happens_iff_upgradeable(before: Stats, option: UpgradeOptions, after: Stats)
    requires
        Stats::upgrade_step(before, option, after),
    ensures
        before.can_buy(option) <==> after.tier_of(option) != before.tier_of(option),
        before.can_buy(option) <==> (before.next_price_of(option) matches Some(p) && p <= before.coins),
        before.can_buy(option) ==> before.next_price_of(option) == Some(
            (before.coins - after.coins) as nat,
        ),
{
}

/// Law: at the highest tier there is no next price, and below it the next
/// tier costs ten coins more than the current one.
pub proof fn lemma_next_price_grows(tier: nat)
    ensures
        next_price_after(tier) is None <==> tier == MAX_PRESTIGE_TIER,
        tier != MAX_PRESTIGE_TIER ==> next_price_after(tier) == Some(10 * tier + 10),
{
}

} // verus!
