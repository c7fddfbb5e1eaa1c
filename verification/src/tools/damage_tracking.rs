use vstd::prelude::*;
use vstd::multiset::Multiset;

verus! {

/// The sources of damage that the tracker counts.
#[derive(Clone, Copy, Debug, PartialEq, Eq, Structural)]
pub enum DamageTrackerKind {
    PrimaryAttack,
    OrbJutsu,
    Lightning,
}

/// The damage dealt by one spell.
#[derive(Clone, Copy, Debug)]
pub struct DamageTrack {
    pub spell: &'static str,
    pub amount: u32,
}

/// The damage dealt by each spell in the current run.
#[derive(Clone, Copy, Debug)]
pub struct DamageTracker {
    primary_attack: DamageTrack,
    orb_justu: DamageTrack,
    lightning_strike: DamageTrack,
}

/// `sorted` (non-increasing in amount) with `x` placed after every track
/// whose amount is at least that of `x`.
pub open spec fn insert_by_damage(sorted: Seq<DamageTrack>, x: DamageTrack) -> Seq<DamageTrack>
    decreases sorted.len(),
{
    if sorted.len() == 0 {
        seq![x]
    } else if sorted[0].amount >= x.amount {
        seq![sorted[0]] + insert_by_damage(sorted.drop_first(), x)
    } else {
        seq![x] + sorted
    }
}

/// `tracks` sorted by amount from the highest down; tracks with equal
/// amounts keep their order (a stable sort).
pub open spec fn sort_by_damage(tracks: Seq<DamageTrack>) -> Seq<DamageTrack>
    decreases tracks.len(),
{
    if tracks.len() == 0 {
        seq![]
    } else {
        insert_by_damage(sort_by_damage(tracks.drop_last()), tracks.last())
    }
}

/// The amounts of `tracks`, added up.
pub open spec fn total_of(tracks: Seq<DamageTrack>) -> nat
    decreases tracks.len(),
{
    if tracks.len() == 0 {
        0
    } else {
        tracks[0].amount as nat + total_of(tracks.drop_first())
    }
}

/// The tracks of `tracks` that have counted some damage, in their order.
pub open spec fn with_damage(tracks: Seq<DamageTrack>) -> Seq<DamageTrack> {
    tracks.filter(|t: DamageTrack| t.amount > 0)
}

/// Whether `tracks` is non-increasing in amount.
pub open spec fn sorted_by_damage(tracks: Seq<DamageTrack>) -> bool {
    forall|i: int, j: int| 0 <= i < j < tracks.len() ==> tracks[i].amount >= tracks[j].amount
}

impl DamageTracker {
    /// The three tracks in their fixed order: primary attack, orb jutsu,
    /// lightning.
    pub closed spec fn tracks(self) -> Seq<DamageTrack> {
        seq![self.primary_attack, self.orb_justu, self.lightning_strike]
    }

    /// The track of `kind`.
    pub open spec fn track(self, kind: DamageTrackerKind) -> DamageTrack {
        match kind {
            DamageTrackerKind::PrimaryAttack => self.tracks()[0],
            DamageTrackerKind::OrbJutsu => self.tracks()[1],
            DamageTrackerKind::Lightning => self.tracks()[2],
        }
    }

    /// The damage counted for `kind`.
    pub open spec fn amount_of(self, kind: DamageTrackerKind) -> nat {
        self.track(kind).amount as nat
    }

    /// The damage of all spells added up.
    pub open spec fn total(self) -> nat {
        self.amount_of(DamageTrackerKind::PrimaryAttack) + self.amount_of(DamageTrackerKind::OrbJutsu)
            + self.amount_of(DamageTrackerKind::Lightning)
    }

    /// The tracks that have counted some damage, in their fixed order.
    pub open spec fn dealt(self) -> Seq<DamageTrack> {
        with_damage(self.tracks())
    }

    /// Adds `damage` to the track of `kind`.
    pub fn update(&mut self, kind: DamageTrackerKind, damage: u32)
        requires
            old(self).amount_of(kind) + damage <= u32::MAX,
        ensures
            final(self).amount_of(kind) == old(self).amount_of(kind) + damage,
            final(self).track(kind).spell == old(self).track(kind).spell,
            forall|k: DamageTrackerKind| k != kind ==> final(self).track(k) == old(self).track(k),
    {
        match kind {
            DamageTrackerKind::PrimaryAttack => self.primary_attack.amount += damage,
            DamageTrackerKind::OrbJutsu => self.orb_justu.amount += damage,
            DamageTrackerKind::Lightning => self.lightning_strike.amount += damage,
        }
    }

    /// The damage of all spells added up.
    pub fn get_total_damage(self) -> (total: u32)
        requires
            self.total() <= u32::MAX,
        ensures
            total == self.total(),
    {
        self.primary_attack.amount + self.orb_justu.amount + self.lightning_strike.amount
    }

    /// The tracks that have counted some damage, from the highest amount
    /// down; tracks with equal amounts keep the fixed order.
    pub fn get_sorted_by_damage(self) -> (sorted: Vec<DamageTrack>)
        ensures
            sorted@ == sort_by_damage(self.dealt()),
    {
        let all: Vec<DamageTrack> = vec![self.primary_attack, self.orb_justu, self.lightning_strike];
        let mut sorted: Vec<DamageTrack> = Vec::new();
        let mut i: usize = 0;
        while i < all.len()
            invariant
                all@ == self.tracks(),
                0 <= i <= all.len(),
                sorted@ == sort_by_damage(with_damage(all@.take(i as int))),
                sorted_by_damage(sorted@),
            decreases all.len() - i,
        {
            let track = all[i];
            let ghost prefix = all@.take(i as int);
            proof {
                assert(all@.take(i as int + 1).drop_last() =~= prefix);
                reveal_with_fuel(Seq::<_>::filter, 1);
            }
            if track.amount > 0 {
                proof {
                    let d = with_damage(prefix);
                    assert(with_damage(all@.take(i as int + 1)) == d.push(track));
                    assert(d.push(track).drop_last() =~= d);
                }
                insert_sorted(&mut sorted, track);
            } else {
                assert(with_damage(all@.take(i as int + 1)) == with_damage(prefix));
            }
            i = i + 1;
        }
        assert(all@.take(3) =~= all@);
        sorted
    }

    /// Sets the damage of every spell back to zero.
    pub fn reset(&mut self)
        ensures
            final(self).amount_of(DamageTrackerKind::PrimaryAttack) == 0,
            final(self).amount_of(DamageTrackerKind::OrbJutsu) == 0,
            final(self).amount_of(DamageTrackerKind::Lightning) == 0,
            forall|k: DamageTrackerKind| final(self).track(k).spell == old(self).track(k).spell,
    {
        self.primary_attack.amount = 0;
        self.orb_justu.amount = 0;
        self.lightning_strike.amount = 0;
    }
}

/// The tracks of a tracker are its three spells in their fixed order.
pub proof fn lemma_tracks(t: DamageTracker)
    ensures
        t.tracks() == seq![
            t.track(DamageTrackerKind::PrimaryAttack),
            t.track(DamageTrackerKind::OrbJutsu),
            t.track(DamageTrackerKind::Lightning),
        ],
{
    assert(t.tracks() =~= seq![
        t.track(DamageTrackerKind::PrimaryAttack),
        t.track(DamageTrackerKind::OrbJutsu),
        t.track(DamageTrackerKind::Lightning),
    ]);
}

proof fn lemma_insert_at(sorted: Seq<DamageTrack>, x: DamageTrack, k: int)
    requires
        0 <= k <= sorted.len(),
        forall|j: int| 0 <= j < k ==> sorted[j].amount >= x.amount,
        k < sorted.len() ==> sorted[k].amount < x.amount,
    ensures
        insert_by_damage(sorted, x) == sorted.take(k) + seq![x] + sorted.skip(k),
    decreases k,
{
    if k == 0 {
        if sorted.len() == 0 {
            assert(sorted.take(0) + seq![x] + sorted.skip(0) =~= seq![x]);
        } else {
            assert(sorted.take(0) + seq![x] + sorted.skip(0) =~= seq![x] + sorted);
        }
    } else {
        lemma_insert_at(sorted.drop_first(), x, k - 1);
        assert(sorted.take(k) + seq![x] + sorted.skip(k) =~= seq![sorted[0]] + (
        sorted.drop_first().take(k - 1) + seq![x] + sorted.drop_first().skip(k - 1)));
    }
}

/// Inserts `x` into the non-increasing `sorted` after every track whose
/// amount is at least that of `x`.
fn insert_sorted(sorted: &mut Vec<DamageTrack>, x: DamageTrack)
    requires
        sorted_by_damage(old(sorted)@),
    ensures
        final(sorted)@ == insert_by_damage(old(sorted)@, x),
        sorted_by_damage(final(sorted)@),
{
    let mut k: usize = 0;
    while k < sorted.len() && sorted[k].amount >= x.amount
        invariant
            0 <= k <= sorted.len(),
            forall|j: int| 0 <= j < k ==> sorted@[j].amount >= x.amount,
        decreases sorted.len() - k,
    {
        k = k + 1;
    }
    proof {
        lemma_insert_at(sorted@, x, k as int);
    }
    let ghost before = sorted@;
    sorted.insert(k, x);
    assert(sorted@ =~= before.take(k as int) + seq![x] + before.skip(k as int));
}

impl Default for DamageTracker {
    /// A tracker with no damage counted for any spell.
    fn default() -> (t: DamageTracker)
        ensures
            t.amount_of(DamageTrackerKind::PrimaryAttack) == 0,
            t.amount_of(DamageTrackerKind::OrbJutsu) == 0,
            t.amount_of(DamageTrackerKind::Lightning) == 0,
            t.track(DamageTrackerKind::PrimaryAttack).spell@ == "Primary Attack"@,
            t.track(DamageTrackerKind::OrbJutsu).spell@ == "Orb Jutsu"@,
            t.track(DamageTrackerKind::Lightning).spell@ == "Lightning"@,
    {
        DamageTracker {
            primary_attack: DamageTrack { spell: "Primary Attack", amount: 0 },
            orb_justu: DamageTrack { spell: "Orb Jutsu", amount: 0 },
            lightning_strike: DamageTrack { spell: "Lightning", amount: 0 },
        }
    }
}

proof fn lemma_total_drop_last(s: Seq<DamageTrack>)
    requires
        s.len() > 0,
    ensures
        total_of(s) == total_of(s.drop_last()) + s.last().amount,
    decreases s.len(),
{
    if s.len() == 1 {
        assert(s.drop_first().len() == 0);
        assert(s.drop_last().len() == 0);
        assert(total_of(s.drop_last()) == 0);
        assert(total_of(s.drop_first()) == 0);
    } else {
        lemma_total_drop_last(s.drop_first());
        assert(s.drop_first().drop_last() =~= s.drop_last().drop_first());
        assert(total_of(s.drop_last()) == s.drop_last()[0].amount + total_of(
            s.drop_last().drop_first(),
        ));
    }
}

proof fn lemma_single_multiset(x: DamageTrack)
    ensures
        seq![x].to_multiset() =~= Multiset::empty().insert(x),
{
    broadcast use vstd::seq_lib::to_multiset_build;
    broadcast use vstd::seq_lib::to_multiset_len;
    broadcast use vstd::multiset::lemma_multiset_empty_len;
    broadcast use vstd::multiset::group_multiset_axioms;

    assert(Seq::<DamageTrack>::empty().to_multiset().len() == 0);
    assert(Seq::<DamageTrack>::empty().to_multiset() =~= Multiset::empty());
    assert(Seq::<DamageTrack>::empty().push(x) =~= seq![x]);
}

proof fn lemma_insert(s: Seq<DamageTrack>, x: DamageTrack)
    ensures
        insert_by_damage(s, x).len() == s.len() + 1,
        insert_by_damage(s, x).to_multiset() =~= s.to_multiset().insert(x),
        total_of(insert_by_damage(s, x)) == total_of(s) + x.amount,
        sorted_by_damage(s) ==> sorted_by_damage(insert_by_damage(s, x)),
    decreases s.len(),
{
    broadcast use vstd::seq_lib::lemma_multiset_commutative;
    broadcast use vstd::multiset::group_multiset_axioms;

    let r = insert_by_damage(s, x);
    if s.len() == 0 {
        assert(r.drop_first() =~= Seq::<DamageTrack>::empty());
        assert(total_of(r.drop_first()) == 0);
        lemma_single_multiset(x);
        assert(s.to_multiset().len() == 0) by {
            broadcast use vstd::seq_lib::to_multiset_len;
        }
        assert(s.to_multiset() =~= Multiset::empty()) by {
            broadcast use vstd::multiset::lemma_multiset_empty_len;
        }
        assert(r =~= seq![x]);
    } else if s[0].amount >= x.amount {
        let rest = s.drop_first();
        lemma_insert(rest, x);
        assert(s =~= seq![s[0]] + rest);
        assert(r =~= seq![s[0]] + insert_by_damage(rest, x));
        assert(r.drop_first() =~= insert_by_damage(rest, x));
        lemma_single_multiset(s[0]);
        if sorted_by_damage(s) {
            lemma_insert_bounded(rest, x, 0, s[0].amount as nat);
        }
    } else {
        assert(r.drop_first() =~= s);
        assert(r =~= seq![x] + s);
        lemma_single_multiset(x);
    }
}

proof fn lemma_insert_bounded(s: Seq<DamageTrack>, x: DamageTrack, lo: nat, hi: nat)
    requires
        forall|i: int| 0 <= i < s.len() ==> lo <= #[trigger] s[i].amount <= hi,
        lo <= x.amount <= hi,
    ensures
        forall|i: int|
            0 <= i < insert_by_damage(s, x).len() ==> lo <= #[trigger] insert_by_damage(s, x)[i].amount
                <= hi,
    decreases s.len(),
{
    if s.len() > 0 && s[0].amount >= x.amount {
        lemma_insert_bounded(s.drop_first(), x, lo, hi);
        lemma_insert(s.drop_first(), x);
        let r = insert_by_damage(s, x);
        assert forall|i: int| 0 <= i < r.len() implies lo <= #[trigger] r[i].amount <= hi by {
            if i > 0 {
                assert(r[i] == insert_by_damage(s.drop_first(), x)[i - 1]);
            }
        }
    }
}

proof fn lemma_sort(s: Seq<DamageTrack>, lo: nat, hi: nat)
    ensures
        sort_by_damage(s).to_multiset() =~= s.to_multiset(),
        sort_by_damage(s).len() == s.len(),
        total_of(sort_by_damage(s)) == total_of(s),
        sorted_by_damage(sort_by_damage(s)),
        (forall|i: int| 0 <= i < s.len() ==> lo <= #[trigger] s[i].amount <= hi) ==> (forall|i: int|
            0 <= i < s.len() ==> lo <= #[trigger] sort_by_damage(s)[i].amount <= hi),
    decreases s.len(),
{
    broadcast use vstd::seq_lib::to_multiset_build;

    if s.len() > 0 {
        let dl = s.drop_last();
        lemma_sort(dl, lo, hi);
        lemma_insert(sort_by_damage(dl), s.last());
        lemma_total_drop_last(s);
        assert(sort_by_damage(s) == insert_by_damage(sort_by_damage(dl), s.last()));
        assert(dl.push(s.last()) =~= s);
        assert(dl.push(s.last()).to_multiset() =~= dl.to_multiset().insert(s.last()));
        if forall|i: int| 0 <= i < s.len() ==> lo <= #[trigger] s[i].amount <= hi {
            assert(forall|i: int| 0 <= i < dl.len() ==> dl[i] == s[i]);
            lemma_insert_bounded(sort_by_damage(dl), s.last(), lo, hi);
        }
    } else {
        assert(s =~= seq![]);
    }
}

/// Law: the damage report lists each spell that dealt damage exactly once,
/// from the highest amount down, and its amounts add up to the total.
pub proof fn lemma_damage_report(t: DamageTracker)
    ensures
        sort_by_damage(t.dealt()).to_multiset() == t.dealt().to_multiset(),
        sorted_by_damage(sort_by_damage(t.dealt())),
        total_of(sort_by_damage(t.dealt())) == t.total(),
        forall|i: int|
            0 <= i < sort_by_damage(t.dealt()).len() ==> #[trigger] sort_by_damage(t.dealt())[i].amount
                > 0,
        sort_by_damage(t.dealt()).len() <= 3,
{
    let s = t.tracks();
    let d = t.dealt();
    reveal_with_fuel(Seq::<_>::filter, 4);
    assert(s.drop_last().drop_last().drop_last() =~= Seq::<DamageTrack>::empty());
    assert(forall|i: int| 0 <= i < d.len() ==> d[i].amount > 0) by {
        broadcast use vstd::seq_lib::group_filter_ensures;
    }
    lemma_sort(d, 1, u32::MAX as nat);
    lemma_total_dealt(t);
}

proof fn lemma_total_dealt(t: DamageTracker)
    ensures
        total_of(t.dealt()) == t.total(),
        t.dealt().len() <= 3,
{
    let s = t.tracks();
    let a = s[0];
    let b = s[1];
    let c = s[2];
    reveal_with_fuel(Seq::<_>::filter, 4);
    assert(s =~= seq![a, b, c]);
    assert(s.drop_last() =~= seq![a, b]);
    assert(s.drop_last().drop_last() =~= seq![a]);
    assert(s.drop_last().drop_last().drop_last() =~= Seq::<DamageTrack>::empty());
    let f = |x: DamageTrack| x.amount > 0;
    let d1 = seq![a].filter(f);
    let d2 = seq![a, b].filter(f);
    let d3 = seq![a, b, c].filter(f);
    assert(total_of(d1) == a.amount) by {
        if a.amount > 0 {
            assert(d1 =~= seq![a]);
            assert(d1.drop_first() =~= Seq::<DamageTrack>::empty());
            assert(total_of(d1.drop_first()) == 0);
        } else {
            assert(d1 =~= Seq::<DamageTrack>::empty());
        }
    }
    assert(total_of(d2) == a.amount + b.amount) by {
        if b.amount > 0 {
            assert(d2 == d1.push(b));
            lemma_total_drop_last(d2);
            assert(d2.drop_last() =~= d1);
        } else {
            assert(d2 == d1);
        }
    }
    assert(total_of(d3) == a.amount + b.amount + c.amount) by {
        if c.amount > 0 {
            assert(d3 == d2.push(c));
            lemma_total_drop_last(d3);
            assert(d3.drop_last() =~= d2);
        } else {
            assert(d3 == d2);
        }
    }
    broadcast use vstd::seq_lib::group_filter_ensures;
}

/// Law: adding damage to a spell adds the same to the total, and a reset
/// leaves no damage and an empty report.
pub proof fn lemma_update_and_reset_totals(
    before: DamageTracker,
    kind: DamageTrackerKind,
    damage: nat,
    after: DamageTracker,
)
    requires
        after.amount_of(kind) == before.amount_of(kind) + damage,
        forall|k: DamageTrackerKind| k != kind ==> after.track(k) == before.track(k),
    ensures
        after.total() == before.total() + damage,
        forall|t: DamageTracker|
            (forall|k: DamageTrackerKind| #[trigger] t.amount_of(k) == 0) ==> t.total() == 0
                && sort_by_damage(t.dealt()).len() == 0,
{
    let k1 = DamageTrackerKind::PrimaryAttack;
    let k2 = DamageTrackerKind::OrbJutsu;
    let k3 = DamageTrackerKind::Lightning;
    assert(after.track(k1) == before.track(k1) || kind == k1);
    assert(after.track(k2) == before.track(k2) || kind == k2);
    assert(after.track(k3) == before.track(k3) || kind == k3);
    assert forall|t: DamageTracker|
        (forall|k: DamageTrackerKind| #[trigger] t.amount_of(k) == 0) implies t.total() == 0
            && sort_by_damage(t.dealt()).len() == 0 by {
        assert(t.amount_of(k1) == 0 && t.amount_of(k2) == 0 && t.amount_of(k3) == 0);
        lemma_total_dealt(t);
        lemma_sort(t.dealt(), 0, 0);
        if t.dealt().len() > 0 {
            assert(total_of(t.dealt()) >= t.dealt()[0].amount);
            assert(t.dealt()[0].amount > 0) by {
                broadcast use vstd::seq_lib::group_filter_ensures;
            }
        }
    }
}

/// Whether a track has counted exactly `a`.
pub open spec fn amount_is(a: u32) -> spec_fn(DamageTrack) -> bool {
    |t: DamageTrack| t.amount == a
}

proof fn lemma_insert_keeps_order(sorted: Seq<DamageTrack>, x: DamageTrack, a: u32)
    requires
        sorted_by_damage(sorted),
    ensures
        insert_by_damage(sorted, x).filter(amount_is(a)) == (if x.amount == a {
            sorted.filter(amount_is(a)).push(x)
        } else {
            sorted.filter(amount_is(a))
        }),
    decreases sorted.len(),
{
    let p = amount_is(a);
    if sorted.len() == 0 {
        Seq::<DamageTrack>::empty().lemma_filter_prepend(x, p);
        assert(seq![x] + Seq::<DamageTrack>::empty() =~= seq![x]);
        Seq::<DamageTrack>::empty().lemma_all_neg_filter_empty(p);
        assert(sorted.filter(p) =~= Seq::<DamageTrack>::empty());
        assert(sorted.filter(p).push(x) =~= seq![x]);
    } else if sorted[0].amount >= x.amount {
        let rest = sorted.drop_first();
        lemma_insert_keeps_order(rest, x, a);
        assert(sorted =~= seq![sorted[0]] + rest);
        rest.lemma_filter_prepend(sorted[0], p);
        insert_by_damage(rest, x).lemma_filter_prepend(sorted[0], p);
        let head = if p(sorted[0]) {
            seq![sorted[0]]
        } else {
            Seq::<DamageTrack>::empty()
        };
        assert((head + rest.filter(p)).push(x) =~= head + rest.filter(p).push(x));
    } else {
        sorted.lemma_filter_prepend(x, p);
        if x.amount == a {
            assert(sorted.all(|y: DamageTrack| !p(y))) by {
                assert forall|i: int| 0 <= i < sorted.len() implies !p(#[trigger] sorted[i]) by {
                    if i > 0 {
                        assert(sorted[0].amount >= sorted[i].amount);
                    }
                }
            }
            sorted.lemma_all_neg_filter_empty(p);
            assert(sorted.filter(p) =~= Seq::<DamageTrack>::empty());
            assert(seq![x] + sorted.filter(p) =~= sorted.filter(p).push(x));
        } else {
            assert(Seq::<DamageTrack>::empty() + sorted.filter(p) =~= sorted.filter(p));
        }
    }
}

proof fn lemma_sort_keeps_order(s: Seq<DamageTrack>, a: u32)
    ensures
        sort_by_damage(s).filter(amount_is(a)) == s.filter(amount_is(a)),
    decreases s.len(),
{
    let p = amount_is(a);
    if s.len() == 0 {
        assert(sort_by_damage(s) =~= s);
    } else {
        let dl = s.drop_last();
        lemma_sort_keeps_order(dl, a);
        lemma_sort(dl, 0, 0);
        lemma_insert_keeps_order(sort_by_damage(dl), s.last(), a);
        dl.lemma_filter_push(s.last(), p);
        assert(dl.push(s.last()) =~= s);
    }
}

/// Law: the damage report is a stable sort: for every amount, the spells
/// with that amount come in the report in the same order as among the
/// spells that dealt damage (primary attack, orb jutsu, lightning).
pub proof fn lemma_damage_report_stable(t: DamageTracker, a: u32)
    ensures
        sort_by_damage(t.dealt()).filter(amount_is(a)) == t.dealt().filter(amount_is(a)),
{
    lemma_sort_keeps_order(t.dealt(), a);
}

} // verus!
