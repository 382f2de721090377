//! A result type that carries warnings.
//!
//! Sometimes an operation can proceed despite encountering problems. In these
//! cases the caller may still need to know about the problems that occurred.
//! `WResult` is similar to `Result` except that the success variant carries an
//! ordered sequence of accumulated warnings. It comes with combinators for
//! transforming and chaining such values and for collapsing them to a plain
//! `Result` by discarding the warnings, rendering them to the diagnostic sink,
//! or treating them as errors.

use std::io::Write;

use vstd::prelude::*;

verus! {

/// A result type that carries warnings.
#[must_use]
pub enum WResult<T, W, E> {
    /// Contains the success value along with any accumulated warnings.
    WOk(T, Vec<W>),
    /// Contains the error value.
    WErr(E),
}

impl<T, W, E> WResult<T, W, E> {
    /// The warnings attached to a success, as a sequence.
    pub open spec fn warnings(self) -> Seq<W>
        recommends
            self is WOk,
    {
        self->WOk_1@
    }

    /// Returns true if this `WResult` is `WOk`, whatever its warning count.
    pub fn is_ok(&self) -> (r: bool)
        ensures
            r == (self is WOk),
    {
        match *self {
            WResult::WOk(_, _) => true,
            WResult::WErr(_) => false,
        }
    }

    /// Returns true if this `WResult` is `WErr`.
    pub fn is_err(&self) -> (r: bool)
        ensures
            r == (self is WErr),
    {
        match *self {
            WResult::WOk(_, _) => false,
            WResult::WErr(_) => true,
        }
    }

    /// Returns true if this `WResult` is `WErr` or if it is `WOk` but carries
    /// at least one warning.
    pub fn is_warn_or_err(&self) -> (r: bool)
        ensures
            r == (self is WErr || (self is WOk && self.warnings().len() > 0)),
    {
        match self {
            WResult::WOk(_, ws) => ws.len() > 0,
            WResult::WErr(_) => true,
        }
    }

    /// Converts this `WResult` to an `Option` by taking the `WOk` value or
    /// mapping `WErr` to `None`. Any warnings are discarded.
    pub fn ok_discard(self) -> (r: Option<T>)
        ensures
            self is WOk ==> r == Some(self->WOk_0),
            self is WErr ==> r is None,
    {
        match self {
            WResult::WOk(t, _) => Some(t),
            WResult::WErr(_) => None,
        }
    }

    /// Converts this `WResult` to an `Option` by taking the `WErr` value or
    /// mapping `WOk` to `None`.
    pub fn err(self) -> (r: Option<E>)
        ensures
            self is WOk ==> r is None,
            self is WErr ==> r == Some(self->WErr_0),
    {
        match self {
            WResult::WOk(_, _) => None,
            WResult::WErr(e) => Some(e),
        }
    }

    /// Converts this `WResult` to an `Option` by taking the `WOk` value or
    /// mapping `WErr` to `None`. Unlike `ok_discard`, warnings are treated as
    /// errors: a success that carries any warning also becomes `None`.
    pub fn ok_werr(self) -> (r: Option<T>)
        ensures
            self is WOk && self.warnings().len() == 0 ==> r == Some(self->WOk_0),
            !(self is WOk && self.warnings().len() == 0) ==> r is None,
    {
        match self {
            WResult::WOk(t, ws) => match ws.len() {
                0 => Some(t),
                _ => None,
            },
            WResult::WErr(_) => None,
        }
    }

    /// Map the `WOk` value of this `WResult`, if any. The warnings pass
    /// through untouched; a `WErr` is returned unchanged.
    pub fn map<U, F: FnOnce(T) -> U>(self, op: F) -> (r: WResult<U, W, E>)
        requires
            self is WOk ==> call_requires(op, (self->WOk_0,)),
        ensures
            self is WOk ==> r is WOk && r->WOk_1 == self->WOk_1
                && call_ensures(op, (self->WOk_0,), r->WOk_0),
            self is WErr ==> r is WErr && r->WErr_0 == self->WErr_0,
    {
        match self {
            WResult::WOk(t, ws) => WResult::WOk(op(t), ws),
            WResult::WErr(e) => WResult::WErr(e),
        }
    }

    /// Map the `WErr` value of this `WResult`, if any. The success path,
    /// warnings included, is returned unchanged.
    pub fn map_err<U, F: FnOnce(E) -> U>(self, op: F) -> (r: WResult<T, W, U>)
        requires
            self is WErr ==> call_requires(op, (self->WErr_0,)),
        ensures
            self is WOk ==> r is WOk && r->WOk_0 == self->WOk_0
                && r->WOk_1 == self->WOk_1,
            self is WErr ==> r is WErr && call_ensures(op, (self->WErr_0,), r->WErr_0),
    {
        match self {
            WResult::WOk(t, ws) => WResult::WOk(t, ws),
            WResult::WErr(e) => WResult::WErr(op(e)),
        }
    }

    /// Map the warnings of this `WResult`. Each warning is transformed
    /// independently, in order; the result carries the same number of
    /// warnings. On `WErr` the operation is never invoked.
    pub fn map_warnings<U, F: Fn(W) -> U>(self, op: F) -> (r: WResult<T, U, E>)
        requires
            self is WOk ==> forall|i: int|
                0 <= i < self.warnings().len() ==> call_requires(op, (self.warnings()[i],)),
        ensures
            self is WOk ==> r is WOk && r->WOk_0 == self->WOk_0
                && r.warnings().len() == self.warnings().len()
                && forall|i: int|
                    0 <= i < self.warnings().len() ==> call_ensures(
                        op,
                        (self.warnings()[i],),
                        #[trigger] r.warnings()[i],
                    ),
            self is WErr ==> r is WErr && r->WErr_0 == self->WErr_0,
    {
        let ghost orig = self.warnings();
        match self {
            WResult::WOk(t, ws) => {
                let mut ws = ws;
                let mut out: Vec<U> = Vec::new();
                while ws.len() > 0
                    invariant
                        out@.len() + ws@.len() == orig.len(),
                        ws@ == orig.skip(out@.len() as int),
                        forall|i: int| 0 <= i < orig.len() ==> call_requires(op, (orig[i],)),
                        forall|i: int|
                            0 <= i < out@.len() ==> call_ensures(op, (orig[i],), #[trigger] out@[i]),
                    decreases ws@.len(),
                {
                    proof {
                        assert(ws@[0] == orig.skip(out@.len() as int)[0]);
                    }
                    let w = ws.remove(0);
                    out.push(op(w));
                }
                WResult::WOk(t, out)
            }
            WResult::WErr(e) => WResult::WErr(e),
        }
    }

    /// If `self` is `WOk`, returns `res` with the warnings from `self`
    /// accumulated in front of those of `res`. A failure of `res` discards
    /// `self`'s warnings; a failure of `self` is returned unchanged.
    pub fn and<U>(self, res: WResult<U, W, E>) -> (r: WResult<U, W, E>)
        ensures
            self is WOk && res is WOk ==> r is WOk && r->WOk_0 == res->WOk_0
                && r.warnings() == self.warnings() + res.warnings(),
            self is WOk && res is WErr ==> r is WErr && r->WErr_0 == res->WErr_0,
            self is WErr ==> r is WErr && r->WErr_0 == self->WErr_0,
    {
        match self {
            WResult::WOk(_, ws0) => match res {
                WResult::WOk(t, ws1) => {
                    let mut ws0 = ws0;
                    let mut ws1 = ws1;
                    ws0.append(&mut ws1);
                    WResult::WOk(t, ws0)
                }
                WResult::WErr(e) => WResult::WErr(e),
            },
            WResult::WErr(e) => WResult::WErr(e),
        }
    }

    /// If `self` is `WOk`, returns the result of applying `op` to `self`'s
    /// value and warnings; `op` is handed the accumulated warning sequence and
    /// is responsible for folding it into what it returns. Otherwise returns
    /// the `WErr` value of `self` and never invokes `op`.
    pub fn and_then<U, V, F: FnOnce(T, Vec<W>) -> WResult<U, V, E>>(self, op: F) -> (r: WResult<
        U,
        V,
        E,
    >)
        requires
            self is WOk ==> call_requires(op, (self->WOk_0, self->WOk_1)),
        ensures
            self is WOk ==> call_ensures(op, (self->WOk_0, self->WOk_1), r),
            self is WErr ==> r is WErr && r->WErr_0 == self->WErr_0,
    {
        match self {
            WResult::WOk(t, ws) => op(t, ws),
            WResult::WErr(e) => WResult::WErr(e),
        }
    }

    /// If `self` is `WOk` returns `self`, value and warnings preserved.
    /// Otherwise returns `res`, whose error type is independent of `self`'s.
    pub fn or<U>(self, res: WResult<T, W, U>) -> (r: WResult<T, W, U>)
        ensures
            self is WOk ==> r is WOk && r->WOk_0 == self->WOk_0
                && r->WOk_1 == self->WOk_1,
            self is WErr ==> r == res,
    {
        match self {
            WResult::WOk(t, ws) => WResult::WOk(t, ws),
            WResult::WErr(_) => res,
        }
    }

    /// If `self` is `WOk` returns `self`, value and warnings preserved.
    /// Otherwise returns the result of applying `op` to `self`'s error value;
    /// `op` is never invoked on success.
    pub fn or_else<U, F: FnOnce(E) -> WResult<T, W, U>>(self, op: F) -> (r: WResult<T, W, U>)
        requires
            self is WErr ==> call_requires(op, (self->WErr_0,)),
        ensures
            self is WOk ==> r is WOk && r->WOk_0 == self->WOk_0
                && r->WOk_1 == self->WOk_1,
            self is WErr ==> call_ensures(op, (self->WErr_0,), r),
    {
        match self {
            WResult::WOk(t, ws) => WResult::WOk(t, ws),
            WResult::WErr(e) => op(e),
        }
    }

    /// The plain `Result` this `WResult` collapses to when its warnings are
    /// discarded.
    pub open spec fn discarded(self) -> Result<T, E> {
        match self {
            WResult::WOk(t, _) => Ok(t),
            WResult::WErr(e) => Err(e),
        }
    }

    /// The nested `Result` this `WResult` collapses to when warnings are
    /// treated as errors but kept apart from the error type: `Ok` on a clean
    /// success, `Err(Ok(first warning))` on a degraded success, `Err(Err(e))`
    /// on a failure. Warnings beyond the first are dropped.
    pub open spec fn escalated_nested(self) -> Result<T, Result<W, E>> {
        match self {
            WResult::WOk(t, ws) => if ws@.len() == 0 {
                Ok(t)
            } else {
                Err(Ok(ws@[0]))
            },
            WResult::WErr(e) => Err(Err(e)),
        }
    }

    /// Convert this `WResult<T, W, E>` to a `Result<T, E>`, discarding any
    /// warnings. See also `result_log` for a version that renders them to the
    /// diagnostic sink first.
    pub fn result_discard(self) -> (r: Result<T, E>)
        ensures
            r == self.discarded(),
    {
        match self {
            WResult::WOk(t, _) => Ok(t),
            WResult::WErr(e) => Err(e),
        }
    }

    /// Convert this `WResult<T, W, E>` to a `Result<T, Result<W, E>>`,
    /// treating warnings as errors while letting `W` and `E` be two different
    /// types. See also `result_werr` for when they are the same type. If
    /// there are multiple warnings, only the first is returned.
    pub fn result_werr_res(self) -> (r: Result<T, Result<W, E>>)
        ensures
            r == self.escalated_nested(),
    {
        match self {
            WResult::WOk(t, ws) => {
                let mut ws = ws;
                ws.truncate(1);
                match ws.pop() {
                    Some(w) => Err(Ok(w)),
                    None => Ok(t),
                }
            }
            WResult::WErr(e) => Err(Err(e)),
        }
    }

    /// If `self` is `WOk`, unwraps it discarding any warnings. Otherwise
    /// returns `optb`. See also `unwrap_log_or` for a version that renders
    /// the warnings to the diagnostic sink.
    pub fn unwrap_discard_or(self, optb: T) -> (r: T)
        ensures
            self is WOk ==> r == self->WOk_0,
            self is WErr ==> r == optb,
    {
        match self {
            WResult::WOk(t, _) => t,
            WResult::WErr(_) => optb,
        }
    }

    /// Unwrap with warnings treated as errors. Policy note: this operation
    /// inverts the convention of its siblings — a success carrying at least
    /// one warning yields the real value, while a clean success (as well as a
    /// failure) yields `optb`. The inversion is deliberate and callers rely
    /// on it.
    pub fn unwrap_or_werr(self, optb: T) -> (r: T)
        ensures
            self is WOk && self.warnings().len() > 0 ==> r == self->WOk_0,
            self is WOk && self.warnings().len() == 0 ==> r == optb,
            self is WErr ==> r == optb,
    {
        match self {
            WResult::WOk(t, ws) => match ws.len() {
                0 => optb,
                _ => t,
            },
            WResult::WErr(_) => optb,
        }
    }

    /// If `self` is `WOk`, unwraps it discarding any warnings. Otherwise
    /// returns the result of applying `op` to `self`'s error value. See also
    /// `unwrap_log_or_else` for a version that renders the warnings to the
    /// diagnostic sink.
    pub fn unwrap_discard_or_else<F: FnOnce(E) -> T>(self, op: F) -> (r: T)
        requires
            self is WErr ==> call_requires(op, (self->WErr_0,)),
        ensures
            self is WOk ==> r == self->WOk_0,
            self is WErr ==> call_ensures(op, (self->WErr_0,), r),
    {
        match self {
            WResult::WOk(t, _) => t,
            WResult::WErr(e) => op(e),
        }
    }

    /// Lift a plain `Result` into a `WResult`: `Ok(t)` becomes a clean
    /// success with no warnings, `Err(e)` becomes a failure.
    pub fn from_result(val: Result<T, E>) -> (r: WResult<T, W, E>)
        ensures
            val matches Ok(t) ==> r is WOk && r->WOk_0 == t && r.warnings().len() == 0,
            val matches Err(e) ==> r is WErr && r->WErr_0 == e,
    {
        match val {
            Ok(t) => WResult::WOk(t, Vec::new()),
            Err(e) => WResult::WErr(e),
        }
    }
}

impl<T, E> WResult<T, E, E> {
    /// The plain `Result` this `WResult` collapses to when warnings are
    /// treated as errors: `Ok` on a clean success, `Err(first warning)` on a
    /// degraded success, `Err(e)` on a failure. Warnings beyond the first are
    /// dropped.
    pub open spec fn escalated(self) -> Result<T, E> {
        match self {
            WResult::WOk(t, ws) => if ws@.len() == 0 {
                Ok(t)
            } else {
                Err(ws@[0])
            },
            WResult::WErr(e) => Err(e),
        }
    }

    /// Take the error value of this `WResult`, if any; otherwise the first
    /// warning, if any. This function is the same as `WResult::err` except
    /// that warnings are treated as errors.
    pub fn err_werr(self) -> (r: Option<E>)
        ensures
            self is WErr ==> r == Some(self->WErr_0),
            self is WOk && self.warnings().len() > 0 ==> r == Some(self.warnings()[0]),
            self is WOk && self.warnings().len() == 0 ==> r is None,
    {
        match self {
            WResult::WOk(_, ws) => {
                let mut ws = ws;
                ws.truncate(1);
                ws.pop()
            }
            WResult::WErr(e) => Some(e),
        }
    }

    /// Convert this `WResult` to a `Result`, treating warnings as errors. If
    /// there are multiple warnings, only the first is returned.
    pub fn result_werr(self) -> (r: Result<T, E>)
        ensures
            r == self.escalated(),
    {
        match self {
            WResult::WOk(t, ws) => {
                let mut ws = ws;
                ws.truncate(1);
                match ws.pop() {
                    Some(w) => Err(w),
                    None => Ok(t),
                }
            }
            WResult::WErr(e) => Err(e),
        }
    }

    /// If `self` is `WOk` and has no warnings, unwrap it. Otherwise return
    /// the result of applying `op` to `self`'s error or first warning.
    pub fn unwrap_or_else_werr<F: FnOnce(E) -> T>(self, op: F) -> (r: T)
        requires
            self is WErr ==> call_requires(op, (self->WErr_0,)),
            self is WOk && self.warnings().len() > 0 ==> call_requires(op, (self.warnings()[0],)),
        ensures
            self is WOk && self.warnings().len() == 0 ==> r == self->WOk_0,
            self is WOk && self.warnings().len() > 0 ==> call_ensures(
                op,
                (self.warnings()[0],),
                r,
            ),
            self is WErr ==> call_ensures(op, (self->WErr_0,), r),
    {
        match self {
            WResult::WOk(t, ws) => {
                let mut ws = ws;
                ws.truncate(1);
                match ws.pop() {
                    Some(w) => op(w),
                    None => t,
                }
            }
            WResult::WErr(e) => op(e),
        }
    }
}

/// Holds when every element of the sequence is a success.
pub open spec fn all_ok<A, W, E>(s: Seq<WResult<A, W, E>>) -> bool {
    forall|i: int| 0 <= i < s.len() ==> s[i] is WOk
}

/// The success values of a sequence of successes, in order.
pub open spec fn ok_values<A, W, E>(s: Seq<WResult<A, W, E>>) -> Seq<A> {
    s.map_values(|x: WResult<A, W, E>| x->WOk_0)
}

/// The concatenation, in input order, of the warning sequences of a sequence
/// of successes.
pub open spec fn all_warnings<A, W, E>(s: Seq<WResult<A, W, E>>) -> Seq<W>
    decreases s.len(),
{
    if s.len() == 0 {
        Seq::empty()
    } else {
        all_warnings(s.drop_last()) + s.last().warnings()
    }
}

/// Holds when the first failure of the sequence stands at index `k`.
pub open spec fn first_failure_at<A, W, E>(s: Seq<WResult<A, W, E>>, k: int) -> bool {
    &&& 0 <= k < s.len()
    &&& s[k] is WErr
    &&& forall|j: int| 0 <= j < k ==> s[j] is WOk
}

impl<A, W, E> WResult<Vec<A>, W, E> {
    /// Fold a sequence of `WResult`s into a single one. The elements are
    /// taken in order; on the first failure the fold stops at once and
    /// returns that error, discarding the values and warnings gathered so
    /// far. If every element is a success, the fold returns all the success
    /// values in their original order, together with the concatenation, in
    /// input order, of every warning sequence seen.
    pub fn from_iter(items: Vec<WResult<A, W, E>>) -> (r: WResult<Vec<A>, W, E>)
        ensures
            all_ok(items@) ==> r is WOk && r->WOk_0@ == ok_values(items@)
                && r.warnings() == all_warnings(items@),
            !all_ok(items@) ==> r is WErr && exists|k: int|
                #[trigger] first_failure_at(items@, k) && r->WErr_0 == items@[k]->WErr_0,
    {
        let ghost orig = items@;
        let mut rest = items;
        let mut vals: Vec<A> = Vec::new();
        let mut warns: Vec<W> = Vec::new();
        let ghost mut i: int = 0;
        while rest.len() > 0
            invariant
                orig == items@,
                0 <= i <= orig.len(),
                rest@ == orig.skip(i),
                forall|j: int| 0 <= j < i ==> orig[j] is WOk,
                vals@ == ok_values(orig.take(i)),
                warns@ == all_warnings(orig.take(i)),
            decreases rest@.len(),
        {
            proof {
                assert(rest@[0] == orig[i]);
            }
            let x = rest.remove(0);
            proof {
                assert(rest@ =~= orig.skip(i + 1));
            }
            match x {
                WResult::WOk(a, ws) => {
                    let mut ws = ws;
                    vals.push(a);
                    warns.append(&mut ws);
                    proof {
                        i = i + 1;
                        assert(orig.take(i).drop_last() =~= orig.take(i - 1));
                        assert(orig.take(i).last() == orig[i - 1]);
                        assert(ok_values(orig.take(i)) =~= ok_values(orig.take(i - 1)).push(
                            orig[i - 1]->WOk_0,
                        ));
                    }
                }
                WResult::WErr(e) => {
                    proof {
                        assert(x == orig[i]);
                        assert(first_failure_at(orig, i));
                        assert(!all_ok(orig));
                    }
                    return WResult::WErr(e);
                }
            }
        }
        proof {
            assert(orig.take(i) =~= orig);
        }
        WResult::WOk(vals, warns)
    }
}

/// Law: mapping with an operation that can only return its argument
/// unchanged returns the outcome unchanged, value and warnings both. The
/// conditions on `r` are exactly what `map` ensures of its result.
pub proof fn lemma_map_identity<T, W, E, F: FnOnce(T) -> T>(
    op: F,
    x: WResult<T, W, E>,
    r: WResult<T, W, E>,
)
    requires
        forall|t: T, u: T| call_ensures(op, (t,), u) ==> u == t,
        x is WOk ==> r is WOk && r->WOk_1 == x->WOk_1 && call_ensures(op, (x->WOk_0,), r->WOk_0),
        x is WErr ==> r is WErr && r->WErr_0 == x->WErr_0,
    ensures
        r == x,
{
    match x {
        WResult::WOk(t, ws) => {
            assert(r->WOk_0 == t);
            assert(r == WResult::<T, W, E>::WOk(t, ws));
        }
        WResult::WErr(e) => {
            assert(r == WResult::<T, W, E>::WErr(e));
        }
    }
}

/// Law: discarding the warnings of any failure yields that error, whatever
/// warnings the type could have carried.
pub proof fn lemma_discard_on_failure<T, W, E>(x: WResult<T, W, E>)
    requires
        x is WErr,
    ensures
        x.discarded() == Err::<T, E>(x->WErr_0),
{
}

/// Law: lifting a plain `Result` into a `WResult` and discarding the
/// warnings returns the same `Result`, in both the `Ok` and the `Err` case.
pub proof fn lemma_lift_discard_round_trip<T, W, E>(val: Result<T, E>, lifted: WResult<T, W, E>)
    requires
        val matches Ok(t) ==> lifted is WOk && lifted->WOk_0 == t,
        val matches Err(e) ==> lifted is WErr && lifted->WErr_0 == e,
    ensures
        lifted.discarded() == val,
{
    match val {
        Ok(t) => {
            assert(lifted.discarded() == Ok::<T, E>(t));
        }
        Err(e) => {
            assert(lifted.discarded() == Err::<T, E>(e));
        }
    }
}

/// Law: escalating the warnings of a clean success yields its value.
pub proof fn lemma_escalate_clean_success<T, E>(x: WResult<T, E, E>)
    requires
        x is WOk,
        x.warnings().len() == 0,
    ensures
        x.escalated() == Ok::<T, E>(x->WOk_0),
{
}

/// Law: escalating the warnings of a degraded success yields its first
/// warning; the warnings beyond the first never appear in the result.
pub proof fn lemma_escalate_degraded_success<T, E>(x: WResult<T, E, E>)
    requires
        x is WOk,
        x.warnings().len() > 0,
    ensures
        x.escalated() == Err::<T, E>(x.warnings()[0]),
{
}

/// The diagnostic sink. Relies on the `std::io::Write` implementation of
/// `std::io::Stderr`: each call renders the warning as one line on the
/// standard error stream.
#[verifier::external_body]
fn emit_warning<W: std::fmt::Display>(w: &W) {
    let mut sink = std::io::stderr();
    let _ = writeln!(sink, "{}", w);
}

/// Renders every warning to the diagnostic sink, one sink write per warning,
/// in sequence order, consuming the vector.
fn emit_all<W: std::fmt::Display>(ws: Vec<W>) {
    let mut ws = ws;
    while ws.len() > 0
        decreases ws@.len(),
    {
        let w = ws.remove(0);
        emit_warning(&w);
    }
}

impl<T, W: std::fmt::Display, E> WResult<T, W, E> {
    /// Take the `WOk` value of `self`, if any. Warnings are rendered to the
    /// diagnostic sink, in order, before being discarded.
    pub fn ok_log(self) -> (r: Option<T>)
        ensures
            self is WOk ==> r == Some(self->WOk_0),
            self is WErr ==> r is None,
    {
        match self {
            WResult::WOk(t, ws) => {
                emit_all(ws);
                Some(t)
            }
            WResult::WErr(_) => None,
        }
    }

    /// Convert this `WResult<T, W, E>` to a `Result<T, E>`. Warnings are
    /// rendered to the diagnostic sink, in order, before being discarded.
    pub fn result_log(self) -> (r: Result<T, E>)
        ensures
            r == self.discarded(),
    {
        match self {
            WResult::WOk(t, ws) => {
                emit_all(ws);
                Ok(t)
            }
            WResult::WErr(e) => Err(e),
        }
    }

    /// If `self` is `WOk`, unwrap it and render any warnings to the
    /// diagnostic sink, in order. Otherwise return `optb` and render nothing.
    pub fn unwrap_log_or(self, optb: T) -> (r: T)
        ensures
            self is WOk ==> r == self->WOk_0,
            self is WErr ==> r == optb,
    {
        match self {
            WResult::WOk(t, ws) => {
                emit_all(ws);
                t
            }
            WResult::WErr(_) => optb,
        }
    }

    /// If `self` is `WOk`, unwrap it and render any warnings to the
    /// diagnostic sink, in order. Otherwise return the result of applying
    /// `op` to `self`'s error value.
    pub fn unwrap_log_or_else<F: FnOnce(E) -> T>(self, op: F) -> (r: T)
        requires
            self is WErr ==> call_requires(op, (self->WErr_0,)),
        ensures
            self is WOk ==> r == self->WOk_0,
            self is WErr ==> call_ensures(op, (self->WErr_0,), r),
    {
        match self {
            WResult::WOk(t, ws) => {
                emit_all(ws);
                t
            }
            WResult::WErr(e) => op(e),
        }
    }
}

} // verus!
