use vstd::prelude::*;
use crate::guard::{describes, PeriodSnapshot};

verus! {

/// Fixed-point scale of tolerances: one token is `TOLERANCE_SCALE` units, so a
/// tolerance fraction of `1.0` is written `1_000_000`.
pub const TOLERANCE_SCALE: i128 = 1_000_000;

/// The noise floor of phase detection is one hundredth of
/// `max(tolerance, one token)`; scaled rates are compared against
/// `max(tolerance, TOLERANCE_SCALE)` after multiplying them by this factor.
pub const NOISE_FACTOR: i128 = 100_000_000;

/// Largest magnitude of a tracked token amount (2^80).
pub const VALUE_BOUND: i128 = 0x1_0000_0000_0000_0000_0000;

/// Largest magnitude of a tolerance, in millionths of a token (2^113).
pub const TOLERANCE_BOUND: i128 = 0x2_0000_0000_0000_0000_0000_0000_0000;

/// Percentage of its limit consumed at which a period enters the warning band.
pub const WARNING_PERCENT: i128 = 60;

/// Percentage of its limit consumed at which a period enters the critical band.
pub const CRITICAL_PERCENT: i128 = 85;

/// Phase detected from a quantity's history of snapshots.
#[derive(Debug, Clone, Copy, PartialEq, Eq, Structural)]
pub enum Phase {
    /// Rate of change is near zero: the quantity is holding steady.
    Stable,
    /// Rate of change is growing but the quantity is still conserved.
    PreTransition,
    /// The quantity is violated and still decreasing.
    Transitioning,
    /// The quantity is violated but recovering.
    Resolving,
}

/// How alarming a phase is: `Stable` < `PreTransition` = `Resolving` < `Transitioning`.
pub open spec fn severity(p: Phase) -> int {
    match p {
        Phase::Stable => 0,
        Phase::PreTransition => 1,
        Phase::Resolving => 1,
        Phase::Transitioning => 2,
    }
}

/// The name under which a phase is reported.
pub open spec fn phase_name(p: Phase) -> Seq<char> {
    match p {
        Phase::Stable => "Stable"@,
        Phase::PreTransition => "PreTransition"@,
        Phase::Transitioning => "Transitioning"@,
        Phase::Resolving => "Resolving"@,
    }
}

/// Severity of a phase, as used to pick the worst phase across periods.
pub fn phase_severity(p: Phase) -> (r: u8)
    ensures
        r == severity(p),
{
    match p {
        Phase::Stable => 0,
        Phase::PreTransition => 1,
        Phase::Resolving => 1,
        Phase::Transitioning => 2,
    }
}

/// The phase's name as an owned string.
pub fn phase_to_string(p: Phase) -> (s: String)
    ensures
        s@ == phase_name(p),
{
    match p {
        Phase::Stable => "Stable".to_owned(),
        Phase::PreTransition => "PreTransition".to_owned(),
        Phase::Transitioning => "Transitioning".to_owned(),
        Phase::Resolving => "Resolving".to_owned(),
    }
}

/// Mathematical state of one tracked quantity.
#[verifier::ext_equal]
pub struct QuantityModel {
    pub name: Seq<char>,
    pub initial: int,
    pub current: int,
    /// Allowed decrease below `initial`, in millionths of a token.
    pub tolerance: int,
    /// Every snapshot taken so far, oldest first; starts with the initial value.
    pub history: Seq<int>,
}

pub open spec fn abs_int(x: int) -> int {
    if x < 0 { -x } else { x }
}

/// A quantity is conserved while `current >= initial - tolerance`.
pub open spec fn conserved(q: QuantityModel) -> bool {
    q.current * TOLERANCE_SCALE >= q.initial * TOLERANCE_SCALE - q.tolerance
}

/// Scaled noise floor: `max(tolerance, one token)` in millionths.
pub open spec fn noise_floor(q: QuantityModel) -> int {
    if q.tolerance > TOLERANCE_SCALE { q.tolerance } else { TOLERANCE_SCALE as int }
}

/// The phase of a quantity, read from its last four snapshots.
///
/// With fewer than three snapshots the quantity is `Stable`. Otherwise let
/// `recent` be the change between the last two snapshots and `older` the change
/// between the two before those (zero with only three snapshots): a violated
/// quantity whose recent change falls below minus the noise floor is
/// `Transitioning`, one whose recent change exceeds it is `Resolving`; a
/// conserved quantity whose recent change exceeds the noise floor in magnitude
/// and is larger in magnitude than the older change is `PreTransition`;
/// everything else is `Stable`.
pub open spec fn phase_of(q: QuantityModel) -> Phase {
    let n = q.history.len();
    if n < 3 {
        Phase::Stable
    } else {
        let violated = !conserved(q);
        let recent = q.history[n - 1] - q.history[n - 2];
        let older = if n >= 4 { q.history[n - 3] - q.history[n - 4] } else { 0 };
        let floor = noise_floor(q);
        if violated && recent * NOISE_FACTOR < -floor {
            Phase::Transitioning
        } else if violated && recent * NOISE_FACTOR > floor {
            Phase::Resolving
        } else if !violated && abs_int(recent) * NOISE_FACTOR > floor && abs_int(recent)
            > abs_int(older) {
            Phase::PreTransition
        } else {
            Phase::Stable
        }
    }
}

pub open spec fn in_value_range(v: int) -> bool {
    -VALUE_BOUND <= v <= VALUE_BOUND
}

/// A quantity whose amounts fit the ledger's arithmetic.
pub open spec fn quantity_ok(q: QuantityModel) -> bool {
    &&& in_value_range(q.initial)
    &&& in_value_range(q.current)
    &&& -TOLERANCE_BOUND <= q.tolerance <= TOLERANCE_BOUND
    &&& q.history.len() >= 1
    &&& forall|i: int| 0 <= i < q.history.len() ==> in_value_range(#[trigger] q.history[i])
}

/// A freshly registered quantity.
pub open spec fn fresh_quantity(name: Seq<char>, initial: int, tolerance: int) -> QuantityModel {
    QuantityModel { name, initial, current: initial, tolerance, history: seq![initial] }
}

/// The quantity after its current value was set to `value`.
pub open spec fn with_current(q: QuantityModel, value: int) -> QuantityModel {
    QuantityModel { current: value, ..q }
}

/// The quantity after its current value was recorded as a snapshot.
pub open spec fn snapshotted(q: QuantityModel) -> QuantityModel {
    QuantityModel { history: q.history.push(q.current), ..q }
}

/// The quantity after its baseline was moved to its current value.
pub open spec fn rebased(q: QuantityModel) -> QuantityModel {
    QuantityModel { initial: q.current, ..q }
}

/// Every quantity of the ledger after a snapshot.
pub open spec fn snapshot_all(l: Seq<QuantityModel>) -> Seq<QuantityModel> {
    Seq::new(l.len(), |i: int| snapshotted(l[i]))
}

pub open spec fn has_name(l: Seq<QuantityModel>, name: Seq<char>) -> bool {
    exists|i: int| 0 <= i < l.len() && (#[trigger] l[i]).name == name
}

/// The position of `name` in the ledger (meaningful when `has_name`).
pub open spec fn index_of(l: Seq<QuantityModel>, name: Seq<char>) -> int {
    choose|i: int| 0 <= i < l.len() && (#[trigger] l[i]).name == name
}

pub open spec fn names_distinct(l: Seq<QuantityModel>) -> bool {
    forall|i: int, j: int|
        0 <= i < l.len() && 0 <= j < l.len() && i != j ==> (#[trigger] l[i]).name != (#[trigger] l[j]).name
}

/// A well-formed ledger: distinct names, every quantity in range.
pub open spec fn ledger_ok(l: Seq<QuantityModel>) -> bool {
    &&& names_distinct(l)
    &&& forall|i: int| 0 <= i < l.len() ==> quantity_ok(#[trigger] l[i])
}

/// The ledger after `name` was registered: a fresh quantity replaces an
/// existing one of that name, or is appended.
pub open spec fn registered_model(
    l: Seq<QuantityModel>,
    name: Seq<char>,
    initial: int,
    tolerance: int,
) -> Seq<QuantityModel> {
    if has_name(l, name) {
        l.update(index_of(l, name), fresh_quantity(name, initial, tolerance))
    } else {
        l.push(fresh_quantity(name, initial, tolerance))
    }
}

/// Every quantity after `tokens` were deducted from its current value.
pub open spec fn spent_all(l: Seq<QuantityModel>, tokens: int) -> Seq<QuantityModel> {
    Seq::new(l.len(), |i: int| with_current(l[i], l[i].current - tokens))
}

/// Whether `tokens` can be deducted from every quantity within range.
pub open spec fn can_spend(l: Seq<QuantityModel>, tokens: int) -> bool {
    forall|i: int| 0 <= i < l.len() ==> in_value_range(#[trigger] l[i].current - tokens)
}

/// No quantity has anything left (vacuously true of an empty ledger).
pub open spec fn all_exhausted(l: Seq<QuantityModel>) -> bool {
    forall|i: int| 0 <= i < l.len() ==> (#[trigger] l[i]).current <= 0
}

/// The budget phase of a quantity whose baseline is its limit, by the share
/// of the limit consumed: below 60% it is `Stable`, from 60% `PreTransition`
/// (warning), from 85% (exhaustion included) `Transitioning` (critical).
pub open spec fn budget_phase_of(q: QuantityModel) -> Phase {
    let consumed = q.initial - q.current;
    if consumed * 100 >= CRITICAL_PERCENT * q.initial {
        Phase::Transitioning
    } else if consumed * 100 >= WARNING_PERCENT * q.initial {
        Phase::PreTransition
    } else {
        Phase::Stable
    }
}

/// The most severe budget phase across the ledger; among equally severe
/// phases the last one in ledger order wins. An empty ledger is `Stable`.
pub open spec fn worst_phase(l: Seq<QuantityModel>) -> Phase
    decreases l.len(),
{
    if l.len() == 0 {
        Phase::Stable
    } else if l.len() == 1 {
        budget_phase_of(l[0])
    } else {
        let acc = worst_phase(l.drop_last());
        let p = budget_phase_of(l.last());
        if severity(p) >= severity(acc) { p } else { acc }
    }
}

/// The drift of a quantity: total change from the first to the last snapshot
/// and the number of steps between them (the drift rate is their quotient,
/// zero when there are no steps).
pub open spec fn drift_of(q: QuantityModel) -> (int, int) {
    (q.history.last() - q.history[0], q.history.len() - 1)
}

pub proof fn lemma_index_of(l: Seq<QuantityModel>, name: Seq<char>, i: int)
    requires
        names_distinct(l),
        0 <= i < l.len(),
        l[i].name == name,
    ensures
        has_name(l, name),
        index_of(l, name) == i,
{
    assert(has_name(l, name));
    let j = index_of(l, name);
    if j != i {
        assert(l[i].name != l[j].name);
    }
}

/// One tracked quantity: a named amount that must not fall below its
/// baseline by more than its tolerance.
pub struct Quantity {
    name: String,
    initial: i128,
    current: i128,
    tolerance: i128,
    history: Vec<i128>,
}

impl View for Quantity {
    type V = QuantityModel;

    closed spec fn view(&self) -> QuantityModel {
        QuantityModel {
            name: self.name@,
            initial: self.initial as int,
            current: self.current as int,
            tolerance: self.tolerance as int,
            history: self.history@.map_values(|v: i128| v as int),
        }
    }
}

impl Quantity {
    fn fresh(name: String, initial: i128, tolerance: i128) -> (q: Quantity)
        ensures
            q@ == fresh_quantity(name@, initial as int, tolerance as int),
    {
        let mut history = Vec::new();
        history.push(initial);
        let q = Quantity { name, initial, current: initial, tolerance, history };
        assert(q@.history =~= seq![initial as int]);
        q
    }

    fn is_conserved(&self) -> (b: bool)
        requires
            quantity_ok(self@),
        ensures
            b == conserved(self@),
    {
        self.current * TOLERANCE_SCALE >= self.initial * TOLERANCE_SCALE - self.tolerance
    }

    fn budget_phase(&self) -> (p: Phase)
        requires
            quantity_ok(self@),
        ensures
            p == budget_phase_of(self@),
    {
        let consumed: i128 = self.initial - self.current;
        if consumed * 100 >= CRITICAL_PERCENT * self.initial {
            Phase::Transitioning
        } else if consumed * 100 >= WARNING_PERCENT * self.initial {
            Phase::PreTransition
        } else {
            Phase::Stable
        }
    }

    fn phase(&self) -> (p: Phase)
        requires
            quantity_ok(self@),
        ensures
            p == phase_of(self@),
    {
        let n = self.history.len();
        if n < 3 {
            return Phase::Stable;
        }
        let ghost h = self@.history;
        assert(in_value_range(h[n - 1]) && in_value_range(h[n - 2]));
        let violated = !self.is_conserved();
        let recent: i128 = self.history[n - 1] - self.history[n - 2];
        let older: i128 = if n >= 4 {
            assert(in_value_range(h[n - 3]) && in_value_range(h[n - 4]));
            self.history[n - 3] - self.history[n - 4]
        } else {
            0
        };
        let floor: i128 = if self.tolerance > TOLERANCE_SCALE {
            self.tolerance
        } else {
            TOLERANCE_SCALE
        };
        let abs_recent: i128 = if recent < 0 { -recent } else { recent };
        let abs_older: i128 = if older < 0 { -older } else { older };
        let scaled: i128 = recent * NOISE_FACTOR;
        if violated && scaled < -floor {
            Phase::Transitioning
        } else if violated && scaled > floor {
            Phase::Resolving
        } else if !violated && abs_recent * NOISE_FACTOR > floor && abs_recent > abs_older {
            Phase::PreTransition
        } else {
            Phase::Stable
        }
    }
}

/// A tracker of named quantities that must not decrease (one-sided
/// conservation), with the history of snapshots needed to detect phases.
pub struct PeriodLedger {
    quantities: Vec<Quantity>,
}

impl View for PeriodLedger {
    type V = Seq<QuantityModel>;

    closed spec fn view(&self) -> Seq<QuantityModel> {
        self.quantities@.map_values(|q: Quantity| q@)
    }
}

impl PeriodLedger {
    /// The ledger's amounts fit its arithmetic and its names are distinct.
    pub open spec fn wf(&self) -> bool {
        ledger_ok(self@)
    }

    /// Create an empty ledger.
    pub fn new() -> (l: PeriodLedger)
        ensures
            l.wf(),
            l@ == Seq::<QuantityModel>::empty(),
    {
        let l = PeriodLedger { quantities: Vec::new() };
        assert(l@ =~= Seq::<QuantityModel>::empty());
        l
    }

    /// Position of `name`, if registered.
    fn find(&self, name: &str) -> (r: Option<usize>)
        requires
            self.wf(),
        ensures
            r matches Some(i) ==> i < self@.len() && i == index_of(self@, name@),
            r is Some <==> has_name(self@, name@),
    {
        let key = name.to_owned();
        let mut i: usize = 0;
        while i < self.quantities.len()
            invariant
                i <= self.quantities@.len(),
                self@.len() == self.quantities@.len(),
                self.wf(),
                key@ == name@,
                forall|j: int| 0 <= j < i ==> (#[trigger] self@[j]).name != name@,
            decreases self.quantities@.len() - i,
        {
            assert(self@[i as int] == self.quantities@[i as int]@);
            if self.quantities[i].name == key {
                proof {
                    lemma_index_of(self@, name@, i as int);
                }
                return Some(i);
            }
            i += 1;
        }
        assert(!has_name(self@, name@)) by {
            if has_name(self@, name@) {
                let j = index_of(self@, name@);
                assert(self@[j].name == name@);
            }
        }
        None
    }

    /// Whether `name` is registered.
    pub fn contains(&self, name: &str) -> (b: bool)
        requires
            self.wf(),
        ensures
            b == has_name(self@, name@),
    {
        self.find(name).is_some()
    }

    /// Register `name` with an initial value and a tolerance (the allowed
    /// decrease, in millionths of a token). Registering an existing name
    /// starts it afresh.
    pub fn register(&mut self, name: &str, initial_value: i128, tolerance: i128)
        requires
            old(self).wf(),
            in_value_range(initial_value as int),
            -TOLERANCE_BOUND <= tolerance <= TOLERANCE_BOUND,
        ensures
            final(self).wf(),
            final(self)@ == registered_model(
                old(self)@,
                name@,
                initial_value as int,
                tolerance as int,
            ),
    {
        let ghost old_view = self@;
        let q = Quantity::fresh(name.to_owned(), initial_value, tolerance);
        assert(quantity_ok(q@));
        match self.find(name) {
            Some(i) => {
                self.quantities.set(i, q);
                assert(self@ =~= old_view.update(i as int, q@));
                assert(ledger_ok(self@)) by {
                    assert forall|a: int, b: int|
                        0 <= a < self@.len() && 0 <= b < self@.len() && a != b implies (
                        #[trigger] self@[a]).name != (#[trigger] self@[b]).name by {
                        if a != i && b != i {
                            assert(old_view[a].name != old_view[b].name);
                        } else if a == i {
                            assert(old_view[a].name != old_view[b].name);
                        } else {
                            assert(old_view[a].name != old_view[b].name);
                        }
                    }
                }
            },
            None => {
                self.quantities.push(q);
                assert(self@ =~= old_view.push(q@));
                assert(ledger_ok(self@)) by {
                    assert forall|a: int, b: int|
                        0 <= a < self@.len() && 0 <= b < self@.len() && a != b implies (
                        #[trigger] self@[a]).name != (#[trigger] self@[b]).name by {
                        if a < old_view.len() && b < old_view.len() {
                            assert(old_view[a].name != old_view[b].name);
                        } else if a < old_view.len() {
                            assert(old_view[a].name != name@);
                        } else {
                            assert(old_view[b].name != name@);
                        }
                    }
                }
            },
        }
    }

    /// Set the current value of a registered quantity.
    pub fn update(&mut self, name: &str, value: i128)
        requires
            old(self).wf(),
            has_name(old(self)@, name@),
            in_value_range(value as int),
        ensures
            final(self).wf(),
            final(self)@ == old(self)@.update(
                index_of(old(self)@, name@),
                with_current(old(self)@[index_of(old(self)@, name@)], value as int),
            ),
    {
        let ghost old_view = self@;
        let i = self.find(name).unwrap();
        self.quantities[i].current = value;
        assert(self@ =~= old_view.update(i as int, with_current(old_view[i as int], value as int)));
        assert(ledger_ok(self@)) by {
            assert forall|a: int, b: int|
                0 <= a < self@.len() && 0 <= b < self@.len() && a != b implies (
                #[trigger] self@[a]).name != (#[trigger] self@[b]).name by {
                assert(old_view[a].name != old_view[b].name);
            }
            assert forall|a: int| 0 <= a < self@.len() implies quantity_ok(#[trigger] self@[a]) by {
                assert(quantity_ok(old_view[a]));
            }
        }
    }

    /// Move the baseline of a registered quantity to its current value,
    /// clearing any violation.
    pub fn reset_baseline(&mut self, name: &str)
        requires
            old(self).wf(),
            has_name(old(self)@, name@),
        ensures
            final(self).wf(),
            final(self)@ == old(self)@.update(
                index_of(old(self)@, name@),
                rebased(old(self)@[index_of(old(self)@, name@)]),
            ),
    {
        let ghost old_view = self@;
        let i = self.find(name).unwrap();
        let c = self.quantities[i].current;
        self.quantities[i].initial = c;
        assert(self@ =~= old_view.update(i as int, rebased(old_view[i as int])));
        assert(ledger_ok(self@)) by {
            assert forall|a: int, b: int|
                0 <= a < self@.len() && 0 <= b < self@.len() && a != b implies (
                #[trigger] self@[a]).name != (#[trigger] self@[b]).name by {
                assert(old_view[a].name != old_view[b].name);
            }
            assert forall|a: int| 0 <= a < self@.len() implies quantity_ok(#[trigger] self@[a]) by {
                assert(quantity_ok(old_view[a]));
            }
        }
    }

    /// Record a snapshot of every quantity's current value into its history.
    pub fn snapshot(&mut self)
        requires
            old(self).wf(),
        ensures
            final(self).wf(),
            final(self)@ == snapshot_all(old(self)@),
    {
        let ghost old_view = self@;
        let n = self.quantities.len();
        let mut i: usize = 0;
        while i < n
            invariant
                n == self.quantities@.len(),
                old_view.len() == n,
                i <= n,
                forall|j: int| 0 <= j < i ==> #[trigger] self@[j] == snapshotted(old_view[j]),
                forall|j: int| i <= j < n ==> #[trigger] self@[j] == old_view[j],
                forall|j: int| 0 <= j < n ==> quantity_ok(#[trigger] old_view[j]),
            decreases n - i,
        {
            let ghost before = self@;
            let ghost qv = self.quantities@;
            let ghost hv = self.quantities@[i as int].history@;
            let c = self.quantities[i].current;
            self.quantities[i].history.push(c);
            proof {
                let q = self@[i as int];
                assert(self.quantities@[i as int].history@ == hv.push(c));
                assert(hv.push(c).map_values(|v: i128| v as int) =~= hv.map_values(|v: i128| v as int).push(c as int));
                assert(before[i as int] == old_view[i as int]);
                assert(before[i as int] == qv[i as int]@);
                assert(q.history =~= old_view[i as int].history.push(old_view[i as int].current));
                assert(q =~= snapshotted(old_view[i as int]));
                assert forall|j: int| 0 <= j < n && j != i implies #[trigger] self@[j] == before[j] by {
                }
            }
            i += 1;
        }
        assert(self@ =~= snapshot_all(old_view));
        assert(ledger_ok(self@)) by {
            assert forall|a: int, b: int|
                0 <= a < self@.len() && 0 <= b < self@.len() && a != b implies (
                #[trigger] self@[a]).name != (#[trigger] self@[b]).name by {
                assert(old_view[a].name != old_view[b].name);
            }
            assert forall|a: int| 0 <= a < self@.len() implies quantity_ok(#[trigger] self@[a]) by {
                let q = old_view[a];
                assert(quantity_ok(q));
                assert forall|k: int| 0 <= k < self@[a].history.len() implies in_value_range(
                    #[trigger] self@[a].history[k]) by {
                    if k < q.history.len() {
                        assert(in_value_range(q.history[k]));
                    }
                }
            }
        }
    }

    /// Deduct `tokens` from the current value of every quantity.
    pub(crate) fn spend(&mut self, tokens: u64)
        requires
            old(self).wf(),
            can_spend(old(self)@, tokens as int),
        ensures
            final(self).wf(),
            final(self)@ == spent_all(old(self)@, tokens as int),
    {
        let ghost old_view = self@;
        let n = self.quantities.len();
        let mut i: usize = 0;
        while i < n
            invariant
                n == self.quantities@.len(),
                old_view.len() == n,
                i <= n,
                forall|j: int| 0 <= j < i ==> #[trigger] self@[j] == with_current(old_view[j], old_view[j].current - tokens),
                forall|j: int| i <= j < n ==> #[trigger] self@[j] == old_view[j],
                forall|j: int| 0 <= j < n ==> quantity_ok(#[trigger] old_view[j]),
                can_spend(old_view, tokens as int),
            decreases n - i,
        {
            let ghost before = self@;
            let ghost qv = self.quantities@;
            assert(before[i as int] == qv[i as int]@);
            assert(in_value_range(old_view[i as int].current - tokens));
            let c = self.quantities[i].current;
            self.quantities[i].current = c - tokens as i128;
            proof {
                assert(self@[i as int] =~= with_current(old_view[i as int], old_view[i as int].current - tokens));
                assert forall|j: int| 0 <= j < n && j != i implies #[trigger] self@[j] == before[j] by {
                }
            }
            i += 1;
        }
        assert(self@ =~= spent_all(old_view, tokens as int));
        assert(ledger_ok(self@)) by {
            assert forall|a: int, b: int|
                0 <= a < self@.len() && 0 <= b < self@.len() && a != b implies (
                #[trigger] self@[a]).name != (#[trigger] self@[b]).name by {
                assert(old_view[a].name != old_view[b].name);
            }
            assert forall|a: int| 0 <= a < self@.len() implies quantity_ok(#[trigger] self@[a]) by {
                assert(quantity_ok(old_view[a]));
            }
        }
    }

    /// Whether a registered quantity is still conserved.
    pub fn is_conserved(&self, name: &str) -> (b: bool)
        requires
            self.wf(),
            has_name(self@, name@),
        ensures
            b == conserved(self@[index_of(self@, name@)]),
    {
        let i = self.find(name).unwrap();
        assert(self@[i as int] == self.quantities@[i as int]@);
        self.quantities[i].is_conserved()
    }

    /// The current phase of a registered quantity.
    pub fn phase(&self, name: &str) -> (p: Phase)
        requires
            self.wf(),
            has_name(self@, name@),
        ensures
            p == phase_of(self@[index_of(self@, name@)]),
    {
        let i = self.find(name).unwrap();
        assert(self@[i as int] == self.quantities@[i as int]@);
        self.quantities[i].phase()
    }

    /// The drift of a registered quantity: `(last - first, snapshots - 1)`.
    pub fn drift_rate(&self, name: &str) -> (r: (i128, usize))
        requires
            self.wf(),
            has_name(self@, name@),
        ensures
            (r.0 as int, r.1 as int) == drift_of(self@[index_of(self@, name@)]),
    {
        let i = self.find(name).unwrap();
        let ghost q = self@[i as int];
        assert(q == self.quantities@[i as int]@);
        let h = &self.quantities[i].history;
        let n = h.len();
        assert(in_value_range(q.history[0]) && in_value_range(q.history[n - 1]));
        (h[n - 1] - h[0], n - 1)
    }

    /// The current value of a registered quantity.
    pub fn current_value(&self, name: &str) -> (v: i128)
        requires
            self.wf(),
            has_name(self@, name@),
        ensures
            v == self@[index_of(self@, name@)].current,
    {
        let i = self.find(name).unwrap();
        assert(self@[i as int] == self.quantities@[i as int]@);
        self.quantities[i].current
    }

    /// The baseline (initial value) of a registered quantity.
    pub fn initial_value(&self, name: &str) -> (v: i128)
        requires
            self.wf(),
            has_name(self@, name@),
        ensures
            v == self@[index_of(self@, name@)].initial,
    {
        let i = self.find(name).unwrap();
        assert(self@[i as int] == self.quantities@[i as int]@);
        self.quantities[i].initial
    }

    /// Number of snapshots of a registered quantity, the initial value included.
    pub fn snapshot_count(&self, name: &str) -> (n: usize)
        requires
            self.wf(),
            has_name(self@, name@),
        ensures
            n == self@[index_of(self@, name@)].history.len(),
    {
        let i = self.find(name).unwrap();
        assert(self@[i as int] == self.quantities@[i as int]@);
        self.quantities[i].history.len()
    }

    /// The registered names, in registration order.
    pub fn registered(&self) -> (r: Vec<String>)
        ensures
            r@.len() == self@.len(),
            forall|i: int| 0 <= i < r@.len() ==> (#[trigger] r@[i])@ == self@[i].name,
    {
        let mut r: Vec<String> = Vec::new();
        let n = self.quantities.len();
        let mut i: usize = 0;
        while i < n
            invariant
                n == self.quantities@.len(),
                self@.len() == n,
                i <= n,
                r@.len() == i,
                forall|j: int| 0 <= j < i ==> (#[trigger] r@[j])@ == self@[j].name,
            decreases n - i,
        {
            assert(self@[i as int] == self.quantities@[i as int]@);
            r.push(self.quantities[i].name.clone());
            i += 1;
        }
        r
    }

    /// Whether no quantity has anything left.
    pub(crate) fn all_exhausted(&self) -> (b: bool)
        ensures
            b == all_exhausted(self@),
    {
        let n = self.quantities.len();
        let mut i: usize = 0;
        while i < n
            invariant
                n == self.quantities@.len(),
                self@.len() == n,
                i <= n,
                forall|j: int| 0 <= j < i ==> (#[trigger] self@[j]).current <= 0,
            decreases n - i,
        {
            assert(self@[i as int] == self.quantities@[i as int]@);
            if self.quantities[i].current > 0 {
                return false;
            }
            i += 1;
        }
        true
    }

    /// The most severe phase across the ledger.
    pub(crate) fn worst_phase(&self) -> (p: Phase)
        requires
            self.wf(),
        ensures
            p == worst_phase(self@),
    {
        let n = self.quantities.len();
        if n == 0 {
            return Phase::Stable;
        }
        assert(self@[0] == self.quantities@[0]@);
        let mut acc = self.quantities[0].budget_phase();
        assert(self@.subrange(0, 1).drop_last() =~= Seq::<QuantityModel>::empty());
        let mut i: usize = 1;
        while i < n
            invariant
                n == self.quantities@.len(),
                self@.len() == n,
                1 <= i <= n,
                self.wf(),
                acc == worst_phase(self@.subrange(0, i as int)),
            decreases n - i,
        {
            assert(self@[i as int] == self.quantities@[i as int]@);
            let p = self.quantities[i].budget_phase();
            let ghost pre = self@.subrange(0, i as int + 1);
            assert(pre.drop_last() =~= self@.subrange(0, i as int));
            assert(pre.last() == self@[i as int]);
            if phase_severity(p) >= phase_severity(acc) {
                acc = p;
            }
            i += 1;
        }
        assert(self@.subrange(0, n as int) =~= self@);
        acc
    }

    /// Whether no quantity is registered.
    pub fn is_empty(&self) -> (b: bool)
        ensures
            b == (self@.len() == 0),
    {
        self.quantities.len() == 0
    }

    /// A snapshot of every quantity, labelled by name, in ledger order.
    pub(crate) fn period_snapshots(&self) -> (r: Vec<(String, PeriodSnapshot)>)
        requires
            self.wf(),
        ensures
            r@.len() == self@.len(),
            forall|i: int|
                0 <= i < r@.len() ==> (#[trigger] r@[i]).0@ == self@[i].name && describes(
                    r@[i].1,
                    self@[i],
                ),
    {
        let mut r: Vec<(String, PeriodSnapshot)> = Vec::new();
        let n = self.quantities.len();
        let mut i: usize = 0;
        while i < n
            invariant
                n == self.quantities@.len(),
                self@.len() == n,
                self.wf(),
                i <= n,
                r@.len() == i,
                forall|j: int|
                    0 <= j < i ==> (#[trigger] r@[j]).0@ == self@[j].name && describes(
                        r@[j].1,
                        self@[j],
                    ),
            decreases n - i,
        {
            let q = &self.quantities[i];
            assert(self@[i as int] == q@);
            assert(quantity_ok(q@));
            let h = &q.history;
            let hn = h.len();
            assert(in_value_range(q@.history[0]) && in_value_range(q@.history[hn - 1]));
            let consumed: i128 = if q.initial - q.current > 0 {
                q.initial - q.current
            } else {
                0
            };
            let remaining: i128 = if q.current > 0 {
                q.current
            } else {
                0
            };
            let ps = PeriodSnapshot {
                limit: q.initial,
                consumed,
                remaining,
                violated: !q.is_conserved(),
                phase: phase_to_string(q.budget_phase()),
                drift_total: h[hn - 1] - h[0],
                drift_steps: hn - 1,
            };
            r.push((q.name.clone(), ps));
            i += 1;
        }
        r
    }

    /// The tolerance of a registered quantity, in millionths of a token.
    pub fn tolerance(&self, name: &str) -> (t: i128)
        requires
            self.wf(),
            has_name(self@, name@),
        ensures
            t == self@[index_of(self@, name@)].tolerance,
    {
        let i = self.find(name).unwrap();
        assert(self@[i as int] == self.quantities@[i as int]@);
        self.quantities[i].tolerance
    }

    /// Every snapshot of a registered quantity, oldest first.
    pub fn history(&self, name: &str) -> (h: Vec<i128>)
        requires
            self.wf(),
            has_name(self@, name@),
        ensures
            h@.len() == self@[index_of(self@, name@)].history.len(),
            forall|k: int|
                0 <= k < h@.len() ==> #[trigger] h@[k] == self@[index_of(self@, name@)].history[k],
    {
        let i = self.find(name).unwrap();
        assert(self@[i as int] == self.quantities@[i as int]@);
        let src = &self.quantities[i].history;
        let mut h: Vec<i128> = Vec::new();
        let mut k: usize = 0;
        while k < src.len()
            invariant
                k <= src@.len(),
                h@.len() == k,
                forall|j: int| 0 <= j < k ==> #[trigger] h@[j] == src@[j],
            decreases src@.len() - k,
        {
            h.push(src[k]);
            k += 1;
        }
        h
    }

    /// The budget phase of a registered quantity: its consumption band.
    pub fn budget_phase(&self, name: &str) -> (p: Phase)
        requires
            self.wf(),
            has_name(self@, name@),
        ensures
            p == budget_phase_of(self@[index_of(self@, name@)]),
    {
        let i = self.find(name).unwrap();
        assert(self@[i as int] == self.quantities@[i as int]@);
        self.quantities[i].budget_phase()
    }
}

} // verus!
