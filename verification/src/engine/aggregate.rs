//! The suite aggregator: the overall score and status of a list of results.
//!
//! The score is the mean of the results' scores weighted by the whole seconds
//! each took, rounded down; when no result took a whole second it is the
//! plain mean. The status is `Failed` when any result failed or there is no
//! result at all, else `Partial` when any result is partial, else `Completed`.

use vstd::prelude::*;
use vstd::arithmetic::div_mod::lemma_fundamental_div_mod;
use vstd::arithmetic::div_mod::lemma_fundamental_div_mod_converse;
use vstd::arithmetic::div_mod::lemma_div_is_ordered;
use vstd::arithmetic::div_mod::lemma_div_multiples_vanish;
use vstd::arithmetic::mul::lemma_mul_inequality;
use vstd::arithmetic::mul::lemma_mul_is_distributive_add_other_way;
use crate::engine::test::TestResult;
use crate::engine::test::TestStatus;

verus! {

/// The sum of the whole seconds that the results took.
pub open spec fn total_secs(results: Seq<TestResult>) -> nat
    decreases results.len(),
{
    if results.len() == 0 {
        0
    } else {
        total_secs(results.drop_last()) + results.last().spec_secs()
    }
}

/// The sum of the scores.
pub open spec fn score_sum(results: Seq<TestResult>) -> nat
    decreases results.len(),
{
    if results.len() == 0 {
        0
    } else {
        score_sum(results.drop_last()) + results.last().score as nat
    }
}

/// The sum of each score times the whole seconds of its result.
pub open spec fn weighted_score_sum(results: Seq<TestResult>) -> nat
    decreases results.len(),
{
    if results.len() == 0 {
        0
    } else {
        weighted_score_sum(results.drop_last()) + results.last().score as nat
            * results.last().spec_secs()
    }
}

/// The overall score of a list of results.
pub open spec fn suite_score(results: Seq<TestResult>) -> nat {
    if results.len() == 0 {
        0
    } else if total_secs(results) > 0 {
        weighted_score_sum(results) / total_secs(results)
    } else {
        score_sum(results) / results.len()
    }
}

/// Whether some result has the given status.
pub open spec fn any_with_status(results: Seq<TestResult>, status: TestStatus) -> bool {
    exists|i: int| 0 <= i < results.len() && (#[trigger] results[i]).status == status
}

/// The overall status of a list of results.
pub open spec fn suite_status(results: Seq<TestResult>) -> TestStatus {
    if results.len() == 0 || any_with_status(results, TestStatus::Failed) {
        TestStatus::Failed
    } else if any_with_status(results, TestStatus::Partial) {
        TestStatus::Partial
    } else {
        TestStatus::Completed
    }
}

/// Taking one more result into a prefix adds that result's share to each sum.
pub proof fn lemma_sums_step(results: Seq<TestResult>, i: int)
    requires
        0 <= i < results.len(),
    ensures
        total_secs(results.take(i + 1)) == total_secs(results.take(i)) + results[i].spec_secs(),
        score_sum(results.take(i + 1)) == score_sum(results.take(i)) + results[i].score as nat,
        weighted_score_sum(results.take(i + 1)) == weighted_score_sum(results.take(i))
            + results[i].score as nat * results[i].spec_secs(),
{
    assert(results.take(i + 1).drop_last() =~= results.take(i));
    assert(results.take(i + 1).last() == results[i]);
}

/// Whether no result scores above `bound`.
pub open spec fn scores_within(results: Seq<TestResult>, bound: nat) -> bool {
    forall|i: int| 0 <= i < results.len() ==> (#[trigger] results[i]).score <= bound
}

/// Where no result scores above `bound`, the sum of the scores is at most
/// `bound` for each result, and the weighted sum at most `bound` for each
/// second. No run is longer than a machine word of seconds.
pub proof fn lemma_sums_bounded_by(results: Seq<TestResult>, bound: nat)
    requires
        scores_within(results, bound),
    ensures
        total_secs(results) <= results.len() * u64::MAX,
        score_sum(results) <= bound * results.len(),
        weighted_score_sum(results) <= bound * total_secs(results),
    decreases results.len(),
{
    if results.len() > 0 {
        let rest = results.drop_last();
        let last = results.last();
        assert forall|i: int| 0 <= i < rest.len() implies (#[trigger] rest[i]).score <= bound by {
            assert(rest[i] == results[i]);
        }
        lemma_sums_bounded_by(rest, bound);
        assert(results.len() * u64::MAX == rest.len() * u64::MAX + u64::MAX) by (nonlinear_arith)
            requires
                results.len() == rest.len() + 1,
        ;
        assert(bound * results.len() == bound * rest.len() + bound) by (nonlinear_arith)
            requires
                results.len() == rest.len() + 1,
        ;
        assert(last.score as nat * last.spec_secs() <= bound * last.spec_secs()) by (nonlinear_arith)
            requires
                last.score <= bound,
        ;
        assert(bound * total_secs(results) == bound * total_secs(rest) + bound * last.spec_secs())
            by (nonlinear_arith)
            requires
                total_secs(results) == total_secs(rest) + last.spec_secs(),
        ;
    }
}

/// No sum is larger than what the largest score and the longest run allow.
pub proof fn lemma_sums_bounded(results: Seq<TestResult>)
    ensures
        total_secs(results) <= results.len() * u64::MAX,
        score_sum(results) <= 255 * results.len(),
        weighted_score_sum(results) <= 255 * total_secs(results),
{
    lemma_sums_bounded_by(results, 255);
}

/// The overall score is a mean: where no result scores above `bound`, the
/// overall score is not above `bound` either. So a suite of results within 0
/// to 100 scores within 0 to 100.
pub proof fn lemma_suite_score_bounded_by(results: Seq<TestResult>, bound: nat)
    requires
        scores_within(results, bound),
    ensures
        suite_score(results) <= bound,
{
    lemma_sums_bounded_by(results, bound);
    if results.len() > 0 {
        if total_secs(results) > 0 {
            let d = total_secs(results) as int;
            lemma_div_is_ordered(weighted_score_sum(results) as int, bound * d, d);
            lemma_div_multiples_vanish(bound as int, d);
            assert(bound * d == d * bound) by (nonlinear_arith);
        } else {
            let n = results.len() as int;
            lemma_div_is_ordered(score_sum(results) as int, bound * n, n);
            lemma_div_multiples_vanish(bound as int, n);
            assert(bound * n == n * bound) by (nonlinear_arith);
        }
    }
}

/// The overall score is a score: it never exceeds the largest that a result
/// can hold.
pub proof fn lemma_suite_score_bounded(results: Seq<TestResult>)
    ensures
        suite_score(results) <= 255,
{
    lemma_suite_score_bounded_by(results, 255);
}

/// A suite with at least one result fails exactly when one of its results
/// failed.
pub proof fn lemma_failed_iff_some_result_failed(results: Seq<TestResult>)
    requires
        results.len() >= 1,
    ensures
        suite_status(results) == TestStatus::Failed <==> exists|i: int|
            0 <= i < results.len() && (#[trigger] results[i]).status == TestStatus::Failed,
{
}

/// A suite is partial exactly when none of its results failed and one is
/// partial; it is completed exactly when it has results, none of them failed
/// or partial.
pub proof fn lemma_status_cases(results: Seq<TestResult>)
    ensures
        suite_status(results) == TestStatus::Partial <==> (!any_with_status(
            results,
            TestStatus::Failed,
        ) && any_with_status(results, TestStatus::Partial)),
        suite_status(results) == TestStatus::Completed <==> (results.len() > 0 && !any_with_status(
            results,
            TestStatus::Failed,
        ) && !any_with_status(results, TestStatus::Partial)),
        suite_status(results) == TestStatus::Failed || suite_status(results) == TestStatus::Partial
            || suite_status(results) == TestStatus::Completed,
{
}

/// The sums of a list of results, computed in one pass.
struct Sums {
    secs: u128,
    scores: u128,
    any_failed: bool,
    any_partial: bool,
}

fn sum_up(results: &Vec<TestResult>) -> (sums: Sums)
    ensures
        sums.secs == total_secs(results@),
        sums.scores == score_sum(results@),
        sums.any_failed == any_with_status(results@, TestStatus::Failed),
        sums.any_partial == any_with_status(results@, TestStatus::Partial),
{
    let mut sums = Sums { secs: 0, scores: 0, any_failed: false, any_partial: false };
    let mut i: usize = 0;
    assert(results@.take(0) =~= Seq::<TestResult>::empty());
    while i < results.len()
        invariant
            i <= results.len(),
            sums.secs == total_secs(results@.take(i as int)),
            sums.scores == score_sum(results@.take(i as int)),
            sums.any_failed == any_with_status(results@.take(i as int), TestStatus::Failed),
            sums.any_partial == any_with_status(results@.take(i as int), TestStatus::Partial),
        decreases results.len() - i,
    {
        let ghost before = results@.take(i as int);
        let ghost after = results@.take(i as int + 1);
        proof {
            lemma_sums_step(results@, i as int);
            lemma_sums_bounded(before);
            assert(before.len() * u64::MAX <= (u64::MAX - 1) * u64::MAX) by (nonlinear_arith)
                requires
                    before.len() <= u64::MAX - 1,
            ;
            assert(after[i as int] == results@[i as int]);
            assert forall|j: int| 0 <= j < before.len() implies before[j] == after[j] by {}
        }
        let r = &results[i];
        sums.secs = sums.secs + r.duration.as_secs() as u128;
        sums.scores = sums.scores + r.score as u128;
        let failed = r.status.is_failure();
        let partial = matches!(r.status, TestStatus::Partial);
        proof {
            if any_with_status(before, TestStatus::Failed) {
                let j = choose|j: int| 0 <= j < before.len() && (#[trigger] before[j]).status == TestStatus::Failed;
                assert(after[j].status == TestStatus::Failed);
            }
            if any_with_status(before, TestStatus::Partial) {
                let j = choose|j: int| 0 <= j < before.len() && (#[trigger] before[j]).status == TestStatus::Partial;
                assert(after[j].status == TestStatus::Partial);
            }
            if any_with_status(after, TestStatus::Failed) && !failed {
                let j = choose|j: int| 0 <= j < after.len() && (#[trigger] after[j]).status == TestStatus::Failed;
                assert(before[j].status == TestStatus::Failed);
            }
            if any_with_status(after, TestStatus::Partial) && !partial {
                let j = choose|j: int| 0 <= j < after.len() && (#[trigger] after[j]).status == TestStatus::Partial;
                assert(before[j].status == TestStatus::Partial);
            }
        }
        sums.any_failed = sums.any_failed || failed;
        sums.any_partial = sums.any_partial || partial;
        i = i + 1;
    }
    assert(results@.take(results.len() as int) =~= results@);
    sums
}

/// The weighted mean of the scores, for results that took `total` whole
/// seconds together. The quotient is kept exact step by step, so no
/// intermediate sum has to fit in a machine word.
fn weighted_mean(results: &Vec<TestResult>, total: u128) -> (mean: u8)
    requires
        total == total_secs(results@),
        total > 0,
    ensures
        mean == weighted_score_sum(results@) / total_secs(results@),
{
    let mut quotient: u128 = 0;
    let mut rest: u128 = 0;
    let mut i: usize = 0;
    assert(results@.take(0) =~= Seq::<TestResult>::empty());
    assert(results@.take(results.len() as int) =~= results@);
    while i < results.len()
        invariant
            i <= results.len(),
            total == total_secs(results@),
            total > 0,
            rest < total,
            quotient <= 255,
            weighted_score_sum(results@.take(i as int)) == quotient * total + rest,
            results@.take(results.len() as int) == results@,
        decreases results.len() - i,
    {
        let ghost before = results@.take(i as int);
        let ghost after = results@.take(i as int + 1);
        let r = &results[i];
        let secs: u64 = r.duration.as_secs();
        assert(r.score as u128 * secs as u128 <= 255 * u64::MAX) by (nonlinear_arith)
            requires
                r.score <= 255,
                secs <= u64::MAX,
        ;
        let share: u128 = r.score as u128 * secs as u128;
        let whole: u128 = share / total;
        let part: u128 = share % total;
        proof {
            lemma_sums_step(results@, i as int);
            lemma_fundamental_div_mod(share as int, total as int);
            lemma_mul_is_distributive_add_other_way(total as int, quotient as int, whole as int);
            assert(total * whole == whole * total) by (nonlinear_arith);
            assert(weighted_score_sum(after) == (quotient + whole) * total + (rest + part));
            lemma_prefix_weighted_bounded(results@, i as int + 1);
        }
        let carry: u128 = if rest >= total - part {
            rest = rest - (total - part);
            1
        } else {
            rest = rest + part;
            0
        };
        proof {
            let next = quotient + whole + carry;
            assert(weighted_score_sum(after) == next * total + rest) by (nonlinear_arith)
                requires
                    weighted_score_sum(after) == (quotient + whole) * total + (old_rest_plus(
                        rest as int,
                        carry as int,
                        total as int,
                    )),
                    next == quotient + whole + carry,
                    carry == 0 || carry == 1,
            ;
            assert(next <= 255) by (nonlinear_arith)
                requires
                    next * total + rest <= 255 * total,
                    total > 0,
                    rest >= 0,
                    next >= 0,
            ;
        }
        quotient = quotient + whole + carry;
        i = i + 1;
    }
    proof {
        lemma_fundamental_div_mod_converse(
            weighted_score_sum(results@) as int,
            total as int,
            quotient as int,
            rest as int,
        );
    }
    quotient as u8
}

/// What the remainder was before a carry of `carry` whole divisors left it.
spec fn old_rest_plus(rest: int, carry: int, total: int) -> int {
    rest + carry * total
}

/// The weighted sum of a prefix is bounded by what the whole list allows.
proof fn lemma_prefix_weighted_bounded(results: Seq<TestResult>, k: int)
    requires
        0 <= k <= results.len(),
    ensures
        weighted_score_sum(results.take(k)) <= 255 * total_secs(results),
        total_secs(results.take(k)) <= total_secs(results),
    decreases results.len() - k,
{
    lemma_sums_bounded(results.take(k));
    if k < results.len() {
        lemma_sums_step(results, k);
        lemma_prefix_weighted_bounded(results, k + 1);
    } else {
        assert(results.take(k) =~= results);
    }
}

/// Computes the overall score of a list of results.
pub fn overall_score(results: &Vec<TestResult>) -> (score: u8)
    ensures
        score == suite_score(results@),
{
    if results.len() == 0 {
        return 0;
    }
    let sums = sum_up(results);
    if sums.secs == 0 {
        let count: u128 = results.len() as u128;
        proof {
            lemma_suite_score_bounded(results@);
        }
        (sums.scores / count) as u8
    } else {
        weighted_mean(results, sums.secs)
    }
}

/// Computes the overall status of a list of results.
pub fn overall_status(results: &Vec<TestResult>) -> (status: TestStatus)
    ensures
        status == suite_status(results@),
{
    if results.len() == 0 {
        return TestStatus::Failed;
    }
    let sums = sum_up(results);
    if sums.any_failed {
        TestStatus::Failed
    } else if sums.any_partial {
        TestStatus::Partial
    } else {
        TestStatus::Completed
    }
}

} // verus!
