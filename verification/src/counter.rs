//! The gas counter of one handler invocation.
//!
//! A counter is a running total with a ceiling. Every host call charges its
//! cost and a flat overhead in one atomic step, and fails for good once the
//! total has reached the ceiling. The handle is cheap to clone; all clones
//! charge the same total.

use crate::costs::{HOST_EXPORT_GAS, MAX_GAS_PER_HANDLER};
use crate::saturating::{clamp, lemma_clamp_absorbs, Gas};
use std::rc::Rc;
use std::sync::atomic::AtomicU64;
use std::sync::atomic::Ordering;
use vstd::prelude::*;
use vstd::string::StringExecFns;

verus! {

/// A failure that every node reaches on the same call sequence, and that
/// ends the handler invocation.
#[derive(Copy, Clone, PartialEq, Eq, Structural, Debug)]
pub enum DeterministicHostError {
    /// A charge took the total to the ceiling or beyond it; `used` is the
    /// total after that charge.
    GasLimitExceeded { used: Gas },
}

/// The character that stands for a decimal digit.
pub open spec fn digit_char(d: nat) -> char {
    if d == 0 {
        '0'
    } else if d == 1 {
        '1'
    } else if d == 2 {
        '2'
    } else if d == 3 {
        '3'
    } else if d == 4 {
        '4'
    } else if d == 5 {
        '5'
    } else if d == 6 {
        '6'
    } else if d == 7 {
        '7'
    } else if d == 8 {
        '8'
    } else {
        '9'
    }
}

/// A number written in decimal, without leading zeros.
pub open spec fn decimal(n: nat) -> Seq<char>
    decreases n,
{
    if n < 10 {
        seq![digit_char(n)]
    } else {
        decimal(n / 10).push(digit_char(n % 10))
    }
}

fn digit_text(d: u64) -> (text: &'static str)
    requires
        d < 10,
    ensures
        text@ == seq![digit_char(d as nat)],
{
    proof {
        reveal_strlit("0");
        reveal_strlit("1");
        reveal_strlit("2");
        reveal_strlit("3");
        reveal_strlit("4");
        reveal_strlit("5");
        reveal_strlit("6");
        reveal_strlit("7");
        reveal_strlit("8");
        reveal_strlit("9");
    }
    let text = if d == 0 {
        "0"
    } else if d == 1 {
        "1"
    } else if d == 2 {
        "2"
    } else if d == 3 {
        "3"
    } else if d == 4 {
        "4"
    } else if d == 5 {
        "5"
    } else if d == 6 {
        "6"
    } else if d == 7 {
        "7"
    } else if d == 8 {
        "8"
    } else {
        "9"
    };
    assert(text@ =~= seq![digit_char(d as nat)]);
    text
}

/// Writes a number in decimal.
pub fn decimal_text(n: u64) -> (text: String)
    ensures
        text@ == decimal(n as nat),
    decreases n,
{
    if n < 10 {
        String::from_str(digit_text(n))
    } else {
        let mut text = decimal_text(n / 10);
        text.append(digit_text(n % 10));
        assert(text@ =~= decimal((n / 10) as nat).push(digit_char((n % 10) as nat)));
        text
    }
}

impl DeterministicHostError {
    /// The total that the failing charge left behind.
    pub open spec fn spec_used(&self) -> Gas {
        match self {
            DeterministicHostError::GasLimitExceeded { used } => *used,
        }
    }

    /// The diagnostic that is shown for this failure.
    pub open spec fn spec_message(&self) -> Seq<char> {
        "Gas limit exceeded. Used: "@ + decimal(self.spec_used()@ as nat)
    }

    /// The total that the failing charge left behind.
    pub fn used(&self) -> (used: Gas)
        ensures
            used == self.spec_used(),
    {
        match self {
            DeterministicHostError::GasLimitExceeded { used } => *used,
        }
    }

    /// The diagnostic that is shown for this failure.
    pub fn message(&self) -> (text: String)
        ensures
            text@ == self.spec_message(),
    {
        let mut text = String::from_str("Gas limit exceeded. Used: ");
        let used = decimal_text(self.used().value());
        text.append(used.as_str());
        text
    }
}

/// The total after a charge of `amount` with the flat `overhead`.
pub open spec fn charged_total(total: u64, amount: u64, overhead: u64) -> u64 {
    clamp(total + amount + overhead) as u64
}

/// What a charge reports once it has taken the total to `total`.
pub open spec fn settled(total: u64, ceiling: u64) -> Result<(), DeterministicHostError> {
    if total >= ceiling {
        Err(DeterministicHostError::GasLimitExceeded { used: Gas(total) })
    } else {
        Ok(())
    }
}

/// What a charge of `amount` reports where it finds the total `found`.
pub open spec fn charge_outcome(found: u64, amount: u64, overhead: u64, ceiling: u64) -> Result<
    (),
    DeterministicHostError,
> {
    settled(charged_total(found, amount, overhead), ceiling)
}

/// The total that a charge stores in place of the total it finds. `charge`
/// is the cost of the call with the overhead already added.
pub fn raise(found: u64, charge: Gas) -> (stored: Option<u64>)
    ensures
        stored == Some(clamp(found + charge@) as u64),
{
    Some(found.saturating_add(charge.value()))
}

/// Decides a charge from the total it found: adds the cost of the call and
/// the overhead, and fails if and only if the new total has reached the
/// ceiling. The failure carries the new total.
pub fn settle(found: Gas, amount: Gas, overhead: Gas, ceiling: Gas) -> (outcome: Result<
    (),
    DeterministicHostError,
>)
    ensures
        outcome == charge_outcome(found@, amount@, overhead@, ceiling@),
{
    proof {
        lemma_clamp_absorbs(amount@ + overhead@, found@ as int);
    }
    let total = found + (amount + overhead);
    if total.value() >= ceiling.value() {
        Err(DeterministicHostError::GasLimitExceeded { used: total })
    } else {
        Ok(())
    }
}

/// `AtomicU64::fetch_update`, sequentially consistent: in one atomic step
/// replaces the stored total by what `raise` makes of it, and returns the
/// total that it replaced. Nothing is claimed of that total: it is whatever
/// the holders of the counter have charged so far.
#[verifier::external_body]
fn fetch_charge(total: &AtomicU64, charge: Gas) -> (found: u64) {
    match total.fetch_update(Ordering::SeqCst, Ordering::SeqCst, |stored| raise(stored, charge)) {
        Ok(found) => found,
        Err(found) => found,
    }
}

/// `Rc::clone`: another pointer to the same allocation. Nothing is claimed
/// of it: what a counter holds is not visible in contracts.
#[verifier::external_body]
fn share(total: &Rc<AtomicU64>) -> (shared: Rc<AtomicU64>) {
    Rc::clone(total)
}

/// The running total of one handler invocation, with the overhead that each
/// charge adds and the ceiling at which charges fail.
pub struct GasCounter {
    total: Rc<AtomicU64>,
    overhead: Gas,
    ceiling: Gas,
}

impl GasCounter {
    /// The flat overhead that each charge adds to its amount.
    pub closed spec fn overhead(&self) -> Gas {
        self.overhead
    }

    /// The total at which charges fail.
    pub closed spec fn ceiling(&self) -> Gas {
        self.ceiling
    }

    /// A counter at zero, with the overhead and the ceiling of the cost
    /// model.
    pub fn new() -> (counter: Self)
        ensures
            counter.overhead()@ == HOST_EXPORT_GAS,
            counter.ceiling()@ == MAX_GAS_PER_HANDLER,
    {
        GasCounter {
            total: Rc::new(AtomicU64::new(0)),
            overhead: Gas::from(HOST_EXPORT_GAS),
            ceiling: Gas::from(MAX_GAS_PER_HANDLER),
        }
    }

    /// A counter at zero, with an overhead and a ceiling of the caller's
    /// choice.
    pub fn with_limits(overhead: Gas, ceiling: Gas) -> (counter: Self)
        ensures
            counter.overhead() == overhead,
            counter.ceiling() == ceiling,
    {
        GasCounter { total: Rc::new(AtomicU64::new(0)), overhead, ceiling }
    }

    /// Charges one host call: adds `amount` and the overhead to the total in
    /// one atomic step, and fails if the new total has reached the ceiling.
    ///
    /// The outcome is `charge_outcome` of the total that the charge found,
    /// which is not known here. Whatever it was, a charge that alone
    /// reaches the ceiling fails, and a failure carries a total at or above
    /// the ceiling and no less than the charge.
    pub fn consume_host_fn(&self, amount: Gas) -> (outcome: Result<(), DeterministicHostError>)
        ensures
            exists|found: u64|
                outcome == #[trigger] charge_outcome(
                    found,
                    amount@,
                    self.overhead()@,
                    self.ceiling()@,
                ),
            amount@ + self.overhead()@ >= self.ceiling()@ ==> outcome is Err,
            outcome matches Err(e) ==> e.spec_used()@ >= self.ceiling()@ && e.spec_used()@ >= clamp(
                amount@ + self.overhead()@,
            ),
    {
        let charge = amount + self.overhead;
        let found = fetch_charge(&self.total, charge);
        let outcome = settle(Gas::from(found), amount, self.overhead, self.ceiling);
        assert(outcome == charge_outcome(found, amount@, self.overhead()@, self.ceiling()@));
        outcome
    }

    /// The total as it stands. Other holders of the counter may have
    /// charged it since, so nothing is claimed of the value.
    pub fn get(&self) -> Gas {
        Gas::from(self.total.load(Ordering::SeqCst))
    }
}

impl Clone for GasCounter {
    /// Another handle to the same total, with the same limits.
    fn clone(&self) -> (handle: Self)
        ensures
            handle.overhead() == self.overhead(),
            handle.ceiling() == self.ceiling(),
    {
        GasCounter { total: share(&self.total), overhead: self.overhead, ceiling: self.ceiling }
    }
}

/// The exact sum of what a run of charges adds to a total: each amount and,
/// with each, the overhead.
pub open spec fn charges_sum(amounts: Seq<u64>, overhead: u64) -> nat
    decreases amounts.len(),
{
    if amounts.len() == 0 {
        0
    } else {
        charges_sum(amounts.drop_last(), overhead) + amounts.last() as nat + overhead as nat
    }
}

/// The total after a run of consecutive charges, from the total `start`.
pub open spec fn total_after(start: u64, amounts: Seq<u64>, overhead: u64) -> u64
    decreases amounts.len(),
{
    if amounts.len() == 0 {
        start
    } else {
        charged_total(total_after(start, amounts.drop_last(), overhead), amounts.last(), overhead)
    }
}

/// Charges accumulate: after any run of consecutive charges the total is
/// the clamped sum of the start total, the amounts and one overhead for
/// each of them, and it is no less than the start total.
pub proof fn lemma_charges_accumulate(start: u64, amounts: Seq<u64>, overhead: u64)
    ensures
        total_after(start, amounts, overhead) == clamp(start + charges_sum(amounts, overhead)),
        start <= total_after(start, amounts, overhead),
    decreases amounts.len(),
{
    if amounts.len() > 0 {
        lemma_charges_accumulate(start, amounts.drop_last(), overhead);
        lemma_clamp_absorbs(
            start + charges_sum(amounts.drop_last(), overhead),
            amounts.last() + overhead,
        );
    }
}

/// The total never decreases: after the first `k` charges of a run it is
/// no more than after all of them.
pub proof fn lemma_total_never_decreases(start: u64, amounts: Seq<u64>, overhead: u64, k: int)
    requires
        0 <= k <= amounts.len(),
    ensures
        total_after(start, amounts.take(k), overhead) <= total_after(start, amounts, overhead),
    decreases amounts.len(),
{
    if k == amounts.len() {
        assert(amounts.take(k) == amounts);
    } else {
        assert(amounts.drop_last().take(k) == amounts.take(k));
        lemma_total_never_decreases(start, amounts.drop_last(), overhead, k);
    }
}

/// While charges succeed nothing is clamped: where the last charge of a run
/// left the total below the ceiling, the total is the exact sum of the
/// start total, the amounts and one overhead for each of them.
pub proof fn lemma_successful_charges_are_exact(
    start: u64,
    amounts: Seq<u64>,
    overhead: u64,
    ceiling: u64,
)
    requires
        total_after(start, amounts, overhead) < ceiling,
    ensures
        total_after(start, amounts, overhead) == start + charges_sum(amounts, overhead),
{
    lemma_charges_accumulate(start, amounts, overhead);
}

/// Once the total has reached the ceiling, every further charge fails,
/// a charge of nothing too, and leaves the total no lower than it was.
pub proof fn lemma_exhausted_stays_exhausted(total: u64, amount: u64, overhead: u64, ceiling: u64)
    requires
        total >= ceiling,
    ensures
        charge_outcome(total, amount, overhead, ceiling) is Err,
        charged_total(total, amount, overhead) >= total,
{
}

/// Two charges against one total lose nothing, in whichever order they
/// arrive: the final total is the clamped sum of the start total, both
/// amounts and two overheads. Where each of them alone would have been
/// admitted and both together reach the ceiling, exactly one of them fails
/// in either order: the one that arrives second.
pub proof fn lemma_two_charges(total: u64, first: u64, second: u64, overhead: u64, ceiling: u64)
    ensures
        charged_total(charged_total(total, first, overhead), second, overhead) == clamp(
            total + first + second + 2 * overhead,
        ),
        charged_total(charged_total(total, first, overhead), second, overhead) == charged_total(
            charged_total(total, second, overhead),
            first,
            overhead,
        ),
        charge_outcome(total, first, overhead, ceiling) is Ok && charge_outcome(
            total,
            second,
            overhead,
            ceiling,
        ) is Ok && clamp(total + first + second + 2 * overhead) >= ceiling ==> {
            &&& charge_outcome(
                charged_total(total, first, overhead),
                second,
                overhead,
                ceiling,
            ) is Err
            &&& charge_outcome(
                charged_total(total, second, overhead),
                first,
                overhead,
                ceiling,
            ) is Err
        },
{
}

} // verus!
