//! How the environment turns what its handlers answered into its own answer.
//!
//! Every service of the environment is a list of handlers consulted in
//! order. The functions here take the answers that were collected and
//! compute the service's verdict; the spec functions say what that verdict
//! is, and the proof functions state the laws that the verdicts obey.

use vstd::prelude::*;

use crate::error::{Error, PathValidationStatus, Result};

verus! {

/// `answers` is what a dispatch over `n` handlers collects when it stops at
/// the first handler whose answer satisfies `decisive`: no answer before the
/// last is decisive, and fewer than `n` answers means that the last one was.
pub open spec fn stops_at_first<A>(answers: Seq<A>, n: nat, decisive: spec_fn(A) -> bool) -> bool {
    &&& answers.len() <= n
    &&& forall|i: int| 0 <= i < answers.len() - 1 ==> !decisive(#[trigger] answers[i])
    &&& answers.len() < n ==> answers.len() > 0 && decisive(answers.last())
}

/// Decisive answers of a first-success dispatch.
pub open spec fn is_success<T>() -> spec_fn(Result<T>) -> bool {
    |r: Result<T>| r is Ok
}

/// Decisive answers of a revocation status dispatch.
pub open spec fn is_determined() -> spec_fn(PathValidationStatus) -> bool {
    |s: PathValidationStatus| s != PathValidationStatus::RevocationStatusNotDetermined
}

/// Decisive answers of a dispatch that looks for a value.
pub open spec fn is_present<T>() -> spec_fn(Option<T>) -> bool {
    |o: Option<T>| o is Some
}

/// Decisive answers of a dispatch that looks for a `true`.
pub open spec fn is_true() -> spec_fn(bool) -> bool {
    |b: bool| b
}

/// The first success among `answers`, or `Err(fallback)` when none succeeded.
pub open spec fn first_success<T>(answers: Seq<Result<T>>, fallback: Error) -> Result<T>
    decreases answers.len(),
{
    if answers.len() == 0 {
        Err(fallback)
    } else if answers[0] is Ok {
        answers[0]
    } else {
        first_success(answers.drop_first(), fallback)
    }
}

/// The first success among `answers`; when none succeeded, the last failure;
/// when there are no answers, `Err(fallback)`.
pub open spec fn first_success_or_last_failure<T>(answers: Seq<Result<T>>, fallback: Error) -> Result<T>
    decreases answers.len(),
{
    if answers.len() == 0 {
        Err(fallback)
    } else if answers[0] is Ok || answers.len() == 1 {
        answers[0]
    } else {
        first_success_or_last_failure(answers.drop_first(), fallback)
    }
}

/// Whether any of `answers` is a success.
pub open spec fn has_success<T>(answers: Seq<Result<T>>) -> bool {
    exists|i: int| 0 <= i < answers.len() && answers[i] is Ok
}

/// `Ok(())` when any of `answers` is a success, else `Err(NotFound)`.
pub open spec fn any_success<T>(answers: Seq<Result<T>>) -> Result<()> {
    if has_success(answers) {
        Ok(())
    } else {
        Err(Error::NotFound)
    }
}

/// `r` carries the items of every successful answer, in the order of the
/// answers, when there are any; otherwise `r` is `Err(NotFound)`.
pub open spec fn gathers<T>(r: Result<Vec<T>>, answers: Seq<Result<Vec<T>>>) -> bool {
    &&& r is Ok <==> successful_items(answers).len() > 0
    &&& r matches Ok(items) ==> items@ == successful_items(answers)
    &&& r is Err ==> r == Err::<Vec<T>, Error>(Error::NotFound)
}

/// The items of every successful answer, in the order of the answers.
pub open spec fn successful_items<T>(answers: Seq<Result<Vec<T>>>) -> Seq<T>
    decreases answers.len(),
{
    if answers.len() == 0 {
        Seq::empty()
    } else {
        successful_items(answers.drop_last()) + match answers.last() {
            Ok(items) => items@,
            Err(_) => Seq::empty(),
        }
    }
}

/// The first status among `statuses` that is not
/// `RevocationStatusNotDetermined`, or that status when there is none.
pub open spec fn first_determined(statuses: Seq<PathValidationStatus>) -> PathValidationStatus
    decreases statuses.len(),
{
    if statuses.len() == 0 {
        PathValidationStatus::RevocationStatusNotDetermined
    } else if statuses[0] != PathValidationStatus::RevocationStatusNotDetermined {
        statuses[0]
    } else {
        first_determined(statuses.drop_first())
    }
}

/// The first `Some` among `answers`, or `None`.
pub open spec fn first_some<T>(answers: Seq<Option<T>>) -> Option<T>
    decreases answers.len(),
{
    if answers.len() == 0 {
        None
    } else if answers[0] is Some {
        answers[0]
    } else {
        first_some(answers.drop_first())
    }
}

/// A first-success verdict is decided by the answers up to the first
/// success: answers that come after it cannot change it. This is why a
/// dispatch may stop asking once a handler has succeeded.
pub proof fn lemma_first_success_ignores_later_answers<T>(
    answers: Seq<Result<T>>,
    later: Seq<Result<T>>,
    fallback: Error,
)
    requires
        has_success(answers),
    ensures
        first_success(answers + later, fallback) == first_success(answers, fallback),
    decreases answers.len(),
{
    if !(answers[0] is Ok) {
        let rest = answers.drop_first();
        assert((answers + later).drop_first() =~= rest + later);
        let i: int = choose|i: int| 0 <= i < answers.len() && answers[i] is Ok;
        assert(rest[i - 1] is Ok);
        lemma_first_success_ignores_later_answers(rest, later, fallback);
    }
}

/// A first-success verdict is a success exactly when some answer is, and it
/// is then the earliest successful answer; otherwise it is the fallback.
pub proof fn lemma_first_success_is_earliest<T>(answers: Seq<Result<T>>, fallback: Error)
    ensures
        first_success(answers, fallback) is Ok <==> has_success(answers),
        !has_success(answers) ==> first_success(answers, fallback) == Err::<T, Error>(fallback),
        has_success(answers) ==> exists|i: int|
            0 <= i < answers.len() && first_success(answers, fallback) == answers[i]
                && forall|j: int| 0 <= j < i ==> answers[j] is Err,
    decreases answers.len(),
{
    if answers.len() > 0 {
        let rest = answers.drop_first();
        lemma_first_success_is_earliest(rest, fallback);
        if answers[0] is Ok {
            assert(has_success(answers));
            assert(first_success(answers, fallback) == answers[0]);
        } else {
            if has_success(answers) {
                let k: int = choose|k: int| 0 <= k < answers.len() && answers[k] is Ok;
                assert(rest[k - 1] is Ok);
                let i: int = choose|i: int|
                    0 <= i < rest.len() && first_success(rest, fallback) == rest[i]
                        && forall|j: int| 0 <= j < i ==> rest[j] is Err;
                assert(first_success(answers, fallback) == answers[i + 1]);
                assert forall|j: int| 0 <= j < i + 1 implies answers[j] is Err by {
                    if j > 0 {
                        assert(answers[j] == rest[j - 1]);
                    }
                }
            } else {
                assert forall|i: int| 0 <= i < rest.len() implies !(rest[i] is Ok) by {
                    assert(rest[i] == answers[i + 1]);
                }
            }
        }
    }
}

/// The verdict of a dispatch that stopped at the first success is the
/// answer of the last handler asked when that answer is a success, and the
/// fallback otherwise.
pub proof fn lemma_stopped_dispatch_verdict<T>(answers: Seq<Result<T>>, n: nat, fallback: Error)
    requires
        stops_at_first(answers, n, is_success()),
    ensures
        first_success(answers, fallback) == (if answers.len() > 0 && answers.last() is Ok {
            answers.last()
        } else {
            Err(fallback)
        }),
{
    lemma_first_success_is_earliest(answers, fallback);
    if has_success(answers) {
        let i: int = choose|i: int|
            0 <= i < answers.len() && first_success(answers, fallback) == answers[i]
                && forall|j: int| 0 <= j < i ==> answers[j] is Err;
        if i < answers.len() - 1 {
            assert(!is_success()(answers[i]));
        }
    } else if answers.len() > 0 {
        assert(!(answers[answers.len() - 1] is Ok));
    }
}

/// When no handler succeeds, path validation reports the last failure;
/// when one does, it reports the first success.
pub proof fn lemma_validation_verdict<T>(answers: Seq<Result<T>>, fallback: Error)
    ensures
        has_success(answers) ==> first_success_or_last_failure(answers, fallback) == first_success(
            answers,
            fallback,
        ),
        !has_success(answers) && answers.len() > 0 ==> first_success_or_last_failure(
            answers,
            fallback,
        ) == answers.last(),
        answers.len() == 0 ==> first_success_or_last_failure(answers, fallback) == Err::<T, Error>(
            fallback,
        ),
    decreases answers.len(),
{
    if answers.len() > 1 {
        let rest = answers.drop_first();
        lemma_validation_verdict(rest, fallback);
        if !(answers[0] is Ok) {
            if has_success(answers) {
                let k: int = choose|k: int| 0 <= k < answers.len() && answers[k] is Ok;
                assert(rest[k - 1] is Ok);
            } else {
                assert forall|i: int| 0 <= i < rest.len() implies !(rest[i] is Ok) by {
                    assert(rest[i] == answers[i + 1]);
                }
            }
        }
    } else if answers.len() == 1 {
        if has_success(answers) {
            assert(answers[0] is Ok);
        }
    }
}

/// Gathering the items of two runs of answers one after the other gives
/// the items of the first run followed by those of the second.
pub proof fn lemma_successful_items_concat<T>(first: Seq<Result<Vec<T>>>, second: Seq<Result<Vec<T>>>)
    ensures
        successful_items(first + second) == successful_items(first) + successful_items(second),
    decreases second.len(),
{
    if second.len() == 0 {
        assert(first + second =~= first);
        assert(successful_items(first) + successful_items(second) =~= successful_items(first));
    } else {
        assert((first + second).drop_last() =~= first + second.drop_last());
        lemma_successful_items_concat(first, second.drop_last());
        assert(successful_items(first + second) =~= successful_items(first) + successful_items(second));
    }
}

/// A revocation status verdict is decided by the statuses up to the first
/// determined one; statuses after it cannot change it.
pub proof fn lemma_first_determined_ignores_later(statuses: Seq<PathValidationStatus>, later: Seq<PathValidationStatus>)
    requires
        exists|i: int| 0 <= i < statuses.len() && is_determined()(#[trigger] statuses[i]),
    ensures
        first_determined(statuses + later) == first_determined(statuses),
    decreases statuses.len(),
{
    if statuses[0] == PathValidationStatus::RevocationStatusNotDetermined {
        let rest = statuses.drop_first();
        assert((statuses + later).drop_first() =~= rest + later);
        let i: int = choose|i: int| 0 <= i < statuses.len() && is_determined()(#[trigger] statuses[i]);
        assert(is_determined()(rest[i - 1]));
        lemma_first_determined_ignores_later(rest, later);
    }
}

/// A lookup verdict is decided by the answers up to the first value found;
/// answers after it cannot change it.
pub proof fn lemma_first_some_ignores_later<T>(answers: Seq<Option<T>>, later: Seq<Option<T>>)
    requires
        exists|i: int| 0 <= i < answers.len() && #[trigger] answers[i] is Some,
    ensures
        first_some(answers + later) == first_some(answers),
    decreases answers.len(),
{
    if !(answers[0] is Some) {
        let rest = answers.drop_first();
        assert((answers + later).drop_first() =~= rest + later);
        let i: int = choose|i: int| 0 <= i < answers.len() && #[trigger] answers[i] is Some;
        assert(rest[i - 1] is Some);
        lemma_first_some_ignores_later(rest, later);
    }
}

/// Gathering keeps every item of a successful answer, all of them and in
/// their order, and nothing of a failed one.
pub proof fn lemma_successful_items_of_one_answer<T>(items: Vec<T>, e: Error)
    ensures
        successful_items(seq![Ok::<Vec<T>, Error>(items)]) == items@,
        successful_items(seq![Err::<Vec<T>, Error>(e)]).len() == 0,
{
    let ok = seq![Ok::<Vec<T>, Error>(items)];
    let err = seq![Err::<Vec<T>, Error>(e)];
    assert(successful_items(ok.drop_last()) =~= Seq::<T>::empty());
    assert(successful_items(err.drop_last()) =~= Seq::<T>::empty());
    assert(ok.last() == Ok::<Vec<T>, Error>(items));
    assert(err.last() == Err::<Vec<T>, Error>(e));
    assert(successful_items(ok) =~= items@);
}

/// The number of items gathered is the number of items in the successful
/// answers: gathering drops none and invents none.
pub proof fn lemma_successful_items_count<T>(answers: Seq<Result<Vec<T>>>, more: Result<Vec<T>>)
    ensures
        successful_items(answers.push(more)).len() == successful_items(answers).len() + match more {
            Ok(items) => items@.len(),
            Err(_) => 0,
        },
        successful_items(answers.push(more)).subrange(0, successful_items(answers).len() as int)
            == successful_items(answers),
{
    lemma_successful_items_concat(answers, seq![more]);
    lemma_successful_items_of_one_answer_any(more);
    assert(answers + seq![more] =~= answers.push(more));
    assert(successful_items(answers.push(more)).subrange(0, successful_items(answers).len() as int)
        =~= successful_items(answers));
}

proof fn lemma_successful_items_of_one_answer_any<T>(answer: Result<Vec<T>>)
    ensures
        successful_items(seq![answer]) == match answer {
            Ok(items) => items@,
            Err(_) => Seq::<T>::empty(),
        },
{
    let one = seq![answer];
    assert(successful_items(one.drop_last()) =~= Seq::<T>::empty());
    assert(one.last() == answer);
    assert(successful_items(one) =~= match answer {
        Ok(items) => items@,
        Err(_) => Seq::<T>::empty(),
    });
}

/// A revocation status verdict is the earliest determined status: when the
/// status at position `i` is determined and none before it is, the verdict
/// is that status.
pub proof fn lemma_first_determined_is_earliest(statuses: Seq<PathValidationStatus>, i: int)
    requires
        0 <= i < statuses.len(),
        statuses[i] != PathValidationStatus::RevocationStatusNotDetermined,
        forall|j: int| 0 <= j < i ==> statuses[j] == PathValidationStatus::RevocationStatusNotDetermined,
    ensures
        first_determined(statuses) == statuses[i],
    decreases i,
{
    if i > 0 {
        let rest = statuses.drop_first();
        assert(statuses[0] == PathValidationStatus::RevocationStatusNotDetermined);
        assert forall|j: int| 0 <= j < i - 1 implies rest[j] == PathValidationStatus::RevocationStatusNotDetermined by {
            assert(rest[j] == statuses[j + 1]);
        }
        lemma_first_determined_is_earliest(rest, i - 1);
    }
}

/// When no status is determined, neither is the verdict.
pub proof fn lemma_first_determined_none(statuses: Seq<PathValidationStatus>)
    requires
        forall|j: int| 0 <= j < statuses.len() ==> statuses[j] == PathValidationStatus::RevocationStatusNotDetermined,
    ensures
        first_determined(statuses) == PathValidationStatus::RevocationStatusNotDetermined,
    decreases statuses.len(),
{
    if statuses.len() > 0 {
        let rest = statuses.drop_first();
        assert(statuses[0] == PathValidationStatus::RevocationStatusNotDetermined);
        assert forall|j: int| 0 <= j < rest.len() implies rest[j] == PathValidationStatus::RevocationStatusNotDetermined by {
            assert(rest[j] == statuses[j + 1]);
        }
        lemma_first_determined_none(rest);
    }
}

/// A lookup verdict is the earliest value found: when the answer at
/// position `i` holds a value and none before it does, the verdict is that
/// answer.
pub proof fn lemma_first_some_is_earliest<T>(answers: Seq<Option<T>>, i: int)
    requires
        0 <= i < answers.len(),
        answers[i] is Some,
        forall|j: int| 0 <= j < i ==> answers[j] is None,
    ensures
        first_some(answers) == answers[i],
    decreases i,
{
    if i > 0 {
        let rest = answers.drop_first();
        assert(answers[0] is None);
        assert forall|j: int| 0 <= j < i - 1 implies rest[j] is None by {
            assert(rest[j] == answers[j + 1]);
        }
        lemma_first_some_is_earliest(rest, i - 1);
    }
}

/// When no answer holds a value, the verdict is `None`.
pub proof fn lemma_first_some_none<T>(answers: Seq<Option<T>>)
    requires
        forall|j: int| 0 <= j < answers.len() ==> answers[j] is None,
    ensures
        first_some(answers) is None,
    decreases answers.len(),
{
    if answers.len() > 0 {
        let rest = answers.drop_first();
        assert(answers[0] is None);
        assert forall|j: int| 0 <= j < rest.len() implies rest[j] is None by {
            assert(rest[j] == answers[j + 1]);
        }
        lemma_first_some_none(rest);
    }
}

/// A dispatch that stops at the first decisive answer asks every handler
/// when none is decisive, and otherwise stops right after the decisive one.
pub proof fn lemma_stopped_dispatch_extent<A>(answers: Seq<A>, n: nat, decisive: spec_fn(A) -> bool, i: int)
    requires
        stops_at_first(answers, n, decisive),
    ensures
        (forall|j: int| 0 <= j < answers.len() ==> !decisive(#[trigger] answers[j])) ==> answers.len() == n,
        0 <= i < answers.len() && decisive(answers[i]) ==> i == answers.len() - 1,
{
}

/// Offering to several handlers succeeds when one of them took the offer,
/// whichever it was, and fails with `NotFound` when none did: the verdict
/// over two runs of answers is a success exactly when that over either is.
pub proof fn lemma_any_success_concat<T>(first: Seq<Result<T>>, second: Seq<Result<T>>)
    ensures
        any_success(first + second) is Ok <==> (any_success(first) is Ok || any_success(second) is Ok),
        any_success(first + second) is Err ==> any_success(first + second) == Err::<(), Error>(Error::NotFound),
        any_success(Seq::<Result<T>>::empty()) == Err::<(), Error>(Error::NotFound),
{
    let joined = first + second;
    if has_success(first) {
        let i: int = choose|i: int| 0 <= i < first.len() && first[i] is Ok;
        assert(joined[i] is Ok);
    }
    if has_success(second) {
        let i: int = choose|i: int| 0 <= i < second.len() && second[i] is Ok;
        assert(joined[first.len() + i] is Ok);
    }
    if has_success(joined) {
        let i: int = choose|i: int| 0 <= i < joined.len() && joined[i] is Ok;
        if i < first.len() {
            assert(first[i] is Ok);
        } else {
            assert(second[i - first.len()] is Ok);
        }
    }
}

/// Whether some successful answer among `answers` carries at least one item.
pub open spec fn some_item_found<T>(answers: Seq<Result<Vec<T>>>) -> bool {
    exists|i: int| 0 <= i < answers.len() && #[trigger] answers[i] is Ok && answers[i]->Ok_0@.len() > 0
}

/// Gathering succeeds exactly when some successful answer carries an item,
/// and then every item of every successful answer is in the result; it fails
/// with `NotFound` otherwise.
pub proof fn lemma_gathers_succeeds_when_an_item_is_found<T>(r: Result<Vec<T>>, answers: Seq<Result<Vec<T>>>)
    requires
        gathers(r, answers),
    ensures
        r is Ok <==> some_item_found(answers),
        r is Err ==> r == Err::<Vec<T>, Error>(Error::NotFound),
        forall|i: int, k: int|
            0 <= i < answers.len() && answers[i] is Ok && 0 <= k < answers[i]->Ok_0@.len() ==> r is Ok
                && r->Ok_0@.contains(#[trigger] answers[i]->Ok_0@[k]),
{
    lemma_items_found(answers);
}

proof fn lemma_items_found<T>(answers: Seq<Result<Vec<T>>>)
    ensures
        successful_items(answers).len() > 0 <==> some_item_found(answers),
        forall|i: int, k: int|
            0 <= i < answers.len() && answers[i] is Ok && 0 <= k < answers[i]->Ok_0@.len()
                ==> successful_items(answers).contains(#[trigger] answers[i]->Ok_0@[k]),
    decreases answers.len(),
{
    if answers.len() > 0 {
        let front = answers.drop_last();
        lemma_items_found(front);
        let tail_items: Seq<T> = match answers.last() {
            Ok(items) => items@,
            Err(_) => Seq::empty(),
        };
        let all = successful_items(answers);
        assert(all == successful_items(front) + tail_items);
        if some_item_found(answers) {
            let i: int = choose|i: int| 0 <= i < answers.len() && #[trigger] answers[i] is Ok && answers[i]->Ok_0@.len() > 0;
            if i < answers.len() - 1 {
                assert(front[i] == answers[i]);
            }
        }
        if some_item_found(front) {
            let i: int = choose|i: int| 0 <= i < front.len() && #[trigger] front[i] is Ok && front[i]->Ok_0@.len() > 0;
            assert(answers[i] == front[i]);
        }
        if tail_items.len() > 0 {
            assert(answers[answers.len() - 1] == answers.last());
        }
        assert forall|i: int, k: int|
            0 <= i < answers.len() && answers[i] is Ok && 0 <= k < answers[i]->Ok_0@.len()
                implies all.contains(#[trigger] answers[i]->Ok_0@[k]) by {
            let items = answers[i]->Ok_0;
            if i < answers.len() - 1 {
                assert(front[i] == answers[i]);
                let j: int = choose|j: int| 0 <= j < successful_items(front).len() && successful_items(front)[j] == items@[k];
                assert(all[j] == items@[k]);
            } else {
                assert(all[successful_items(front).len() + k] == items@[k]);
            }
        }
    }
}

proof fn lemma_skip_step<A>(s: Seq<A>, i: int)
    requires
        0 <= i < s.len(),
    ensures
        s.skip(i).len() > 0,
        s.skip(i)[0] == s[i],
        s.skip(i).drop_first() == s.skip(i + 1),
{
    assert(s.skip(i).drop_first() =~= s.skip(i + 1));
}

/// The first success among `answers`, or `Err(fallback)` when none succeeded.
pub fn select_first_success<T>(answers: Vec<Result<T>>, fallback: Error) -> (r: Result<T>)
    ensures
        r == first_success(answers@, fallback),
{
    let mut pending = answers;
    let ghost all = pending@;
    assert(all.skip(0) =~= all);
    let mut i: usize = 0;
    while i < pending.len()
        invariant
            pending@ == all,
            all == answers@,
            i <= all.len(),
            first_success(all, fallback) == first_success(all.skip(i as int), fallback),
        decreases all.len() - i,
    {
        proof {
            lemma_skip_step(all, i as int);
        }
        if pending[i].is_ok() {
            return pending.remove(i);
        }
        i = i + 1;
    }
    proof {
        assert(all.skip(i as int).len() == 0);
    }
    Err(fallback)
}

/// The first success among `answers`; failing that, the last failure; with
/// no answers, `Err(fallback)`.
pub fn select_first_success_or_last_failure<T>(answers: Vec<Result<T>>, fallback: Error) -> (r: Result<T>)
    ensures
        r == first_success_or_last_failure(answers@, fallback),
{
    let mut pending = answers;
    let ghost all = pending@;
    let n: usize = pending.len();
    if n == 0 {
        return Err(fallback);
    }
    assert(all.skip(0) =~= all);
    let mut i: usize = 0;
    while i < n - 1
        invariant
            pending@ == all,
            all == answers@,
            n == all.len(),
            n > 0,
            i <= n - 1,
            first_success_or_last_failure(all, fallback) == first_success_or_last_failure(
                all.skip(i as int),
                fallback,
            ),
        decreases n - i,
    {
        proof {
            lemma_skip_step(all, i as int);
        }
        if pending[i].is_ok() {
            return pending.remove(i);
        }
        i = i + 1;
    }
    proof {
        lemma_skip_step(all, i as int);
    }
    pending.remove(i)
}

/// Whether any of `answers` is a success: `Ok(())` if so, else `Err(NotFound)`.
pub fn select_any_success<T>(answers: &Vec<Result<T>>) -> (r: Result<()>)
    ensures
        r == any_success(answers@),
{
    let mut i: usize = 0;
    while i < answers.len()
        invariant
            i <= answers@.len(),
            forall|j: int| 0 <= j < i ==> answers@[j] is Err,
        decreases answers@.len() - i,
    {
        if answers[i].is_ok() {
            return Ok(());
        }
        i = i + 1;
    }
    Err(Error::NotFound)
}

/// The items of every successful answer, in order, if there are any;
/// otherwise `Err(NotFound)`.
pub fn gather_successful_items<T>(answers: Vec<Result<Vec<T>>>) -> (r: Result<Vec<T>>)
    ensures
        gathers(r, answers@),
{
    let mut pending = answers;
    let ghost all = pending@;
    let total: usize = pending.len();
    let mut gathered: Vec<T> = Vec::new();
    let mut k: usize = 0;
    assert(all.take(0) =~= Seq::<Result<Vec<T>>>::empty());
    assert(all.skip(0) =~= all);
    while pending.len() > 0
        invariant
            k + pending@.len() == all.len(),
            all.len() == total,
            pending@ == all.skip(k as int),
            gathered@ == successful_items(all.take(k as int)),
        decreases pending@.len(),
    {
        let answer = pending.remove(0);
        proof {
            assert(all.take(k + 1).drop_last() =~= all.take(k as int));
            assert(all.take(k + 1).last() == all[k as int]);
            assert(pending@ =~= all.skip(k + 1));
        }
        match answer {
            Ok(items) => {
                let mut items = items;
                gathered.append(&mut items);
            },
            Err(_) => {},
        }
        k = k + 1;
    }
    proof {
        assert(all.take(k as int) =~= all);
    }
    if gathered.len() > 0 {
        Ok(gathered)
    } else {
        Err(Error::NotFound)
    }
}

/// The first status that is not `RevocationStatusNotDetermined`, or that
/// status when there is none.
pub fn select_first_determined(statuses: &Vec<PathValidationStatus>) -> (r: PathValidationStatus)
    ensures
        r == first_determined(statuses@),
{
    assert(statuses@.skip(0) =~= statuses@);
    let mut i: usize = 0;
    while i < statuses.len()
        invariant
            i <= statuses@.len(),
            first_determined(statuses@) == first_determined(statuses@.skip(i as int)),
        decreases statuses@.len() - i,
    {
        proof {
            lemma_skip_step(statuses@, i as int);
        }
        if statuses[i] != PathValidationStatus::RevocationStatusNotDetermined {
            return statuses[i];
        }
        i = i + 1;
    }
    proof {
        assert(statuses@.skip(i as int).len() == 0);
    }
    PathValidationStatus::RevocationStatusNotDetermined
}

/// The first `Some` among `answers`, or `None`.
pub fn select_first_some<T>(answers: Vec<Option<T>>) -> (r: Option<T>)
    ensures
        r == first_some(answers@),
{
    let mut pending = answers;
    let ghost all = pending@;
    assert(all.skip(0) =~= all);
    let mut i: usize = 0;
    while i < pending.len()
        invariant
            pending@ == all,
            all == answers@,
            i <= all.len(),
            first_some(all) == first_some(all.skip(i as int)),
        decreases all.len() - i,
    {
        proof {
            lemma_skip_step(all, i as int);
        }
        if pending[i].is_some() {
            return pending.remove(i);
        }
        i = i + 1;
    }
    proof {
        assert(all.skip(i as int).len() == 0);
    }
    None
}

/// Whether any of `answers` is `true`.
pub fn select_any_true(answers: &Vec<bool>) -> (r: bool)
    ensures
        r == answers@.contains(true),
{
    let mut i: usize = 0;
    while i < answers.len()
        invariant
            i <= answers@.len(),
            forall|j: int| 0 <= j < i ==> !answers@[j],
        decreases answers@.len() - i,
    {
        if answers[i] {
            proof {
                assert(answers@[i as int] == true);
            }
            return true;
        }
        i = i + 1;
    }
    false
}

} // verus!
