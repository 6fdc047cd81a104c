//! Decides what a request resolves to: a timestamp four hours ahead, moved
//! by the caller's offset, or a failure.
//!
//! About one request in a hundred is failed on purpose, to let clients
//! rehearse a service that is partly down. The chance is a draw handed in by
//! the caller, so that either branch can be forced.

use crate::clock::{
    epoch, melbourne_rfc3339, now_utc, render_melbourne, renderable, Instant, EARLIEST_SECS,
    LATEST_SECS,
};
use crate::random::draw_below;
use crate::text::text_view;
use vstd::prelude::*;

verus! {

/// The fixed lookahead: four hours, in seconds.
pub const LOOKAHEAD_SECS: i64 = 14_400;

/// One offset unit: six hours, in seconds.
pub const BLOCK_SECS: i64 = 21_600;

/// The number of equally likely draws, 2^53. A draw `d` stands for the value
/// `d / DRAW_SCALE` of the unit interval.
pub const DRAW_SCALE: u64 = 9_007_199_254_740_992;

/// The failure threshold, 99/100: its numerator.
pub const THRESHOLD_NUMERATOR: u64 = 99;

/// The failure threshold, 99/100: its denominator.
pub const THRESHOLD_DENOMINATOR: u64 = 100;

/// The largest draw that does not fail a request: 99/100 of `DRAW_SCALE`,
/// rounded down.
pub const LAST_PASSING_DRAW: u64 = 8_917_127_262_193_582;

/// Whether `draw` fails the request on purpose: whether the value it stands
/// for, `draw / DRAW_SCALE`, exceeds the threshold.
pub open spec fn injected_failure(draw: u64) -> bool {
    THRESHOLD_DENOMINATOR * draw > THRESHOLD_NUMERATOR * DRAW_SCALE
}

/// The timestamp `offset` six-hour blocks past four hours after `now_secs`.
pub open spec fn target_secs(now_secs: int, offset: int) -> int {
    now_secs + LOOKAHEAD_SECS + BLOCK_SECS * offset
}

/// The text of the target time for `now` and `offset`, where the target can
/// be rendered.
pub open spec fn timestamp_after(now: Instant, offset: i64) -> Option<Seq<char>> {
    let target = target_secs(now.secs() as int, offset as int);
    if renderable(target) {
        Some(melbourne_rfc3339(target, now.nanos() as int))
    } else {
        None
    }
}

/// How a request ended.
#[derive(Clone, Copy, Debug, PartialEq, Eq, Structural)]
pub enum Status {
    Success,
    Failure,
}

/// What a request resolves to: its status, and the timestamp if there is one.
#[derive(Debug, PartialEq, Eq)]
pub struct Resolution {
    pub status: Status,
    pub result: Option<String>,
}

/// A `Resolution` with its text as a sequence of characters.
pub struct ResolutionView {
    pub status: Status,
    pub result: Option<Seq<char>>,
}

impl ResolutionView {
    /// Whether a result is present exactly on success.
    pub open spec fn wf(self) -> bool {
        self.result is Some <==> self.status == Status::Success
    }
}

impl View for Resolution {
    type V = ResolutionView;

    open spec fn view(&self) -> ResolutionView {
        ResolutionView { status: self.status, result: text_view(self.result) }
    }
}

/// The resolution that carries `text`.
pub open spec fn success_with(text: Seq<char>) -> ResolutionView {
    ResolutionView { status: Status::Success, result: Some(text) }
}

/// The resolution of a failed request.
pub open spec fn failed() -> ResolutionView {
    ResolutionView { status: Status::Failure, result: None }
}

/// What a rendered target, or the lack of one, resolves to.
pub open spec fn resolution_from(rendered: Option<Seq<char>>) -> ResolutionView {
    match rendered {
        Some(text) => success_with(text),
        None => failed(),
    }
}

/// What the request with this draw, clock reading and offset resolves to.
pub open spec fn resolution_of(draw: u64, now: Instant, offset: i64) -> ResolutionView {
    if injected_failure(draw) {
        failed()
    } else {
        resolution_from(timestamp_after(now, offset))
    }
}

impl Resolution {
    /// Whether a result is present exactly on success.
    pub open spec fn wf(&self) -> bool {
        self@.wf()
    }

    /// The resolution of a failed request.
    pub fn failure() -> (r: Resolution)
        ensures
            r@ == failed(),
            r.wf(),
    {
        Resolution { status: Status::Failure, result: None }
    }

    /// The resolution that carries the timestamp `text`.
    pub fn success(text: String) -> (r: Resolution)
        ensures
            r@ == success_with(text@),
            r.wf(),
    {
        Resolution { status: Status::Success, result: Some(text) }
    }

    /// Success with the rendered target if there is one, failure if not.
    pub fn from_rendered(rendered: Option<String>) -> (r: Resolution)
        ensures
            r@ == resolution_from(text_view(rendered)),
            r.wf(),
    {
        match rendered {
            Some(text) => Resolution::success(text),
            None => Resolution::failure(),
        }
    }
}

/// Whether `draw` fails the request on purpose.
pub fn is_injected_failure(draw: u64) -> (b: bool)
    ensures
        b == injected_failure(draw),
{
    assert(THRESHOLD_DENOMINATOR * draw <= 100 * u64::MAX) by (nonlinear_arith)
        requires
            THRESHOLD_DENOMINATOR == 100,
    ;
    assert(THRESHOLD_NUMERATOR * DRAW_SCALE <= 100 * u64::MAX) by (nonlinear_arith)
        requires
            THRESHOLD_NUMERATOR == 99,
            DRAW_SCALE <= u64::MAX,
    ;
    let scaled: u128 = (THRESHOLD_DENOMINATOR as u128) * (draw as u128);
    let limit: u128 = (THRESHOLD_NUMERATOR as u128) * (DRAW_SCALE as u128);
    scaled > limit
}

/// The instant `offset` six-hour blocks past four hours after `now`, or
/// `None` where that instant lies outside the years that can be rendered.
pub fn target_instant(now: Instant, offset: i64) -> (r: Option<Instant>)
    ensures
        r is Some <==> renderable(target_secs(now.secs() as int, offset as int)),
        r matches Some(at) ==> at.secs() == target_secs(now.secs() as int, offset as int)
            && at.nanos() == now.nanos() && at.wf(),
{
    assert(21_600 * i64::MIN <= BLOCK_SECS * offset <= 21_600 * i64::MAX) by (nonlinear_arith)
        requires
            BLOCK_SECS == 21_600,
            i64::MIN <= offset <= i64::MAX,
    ;
    let shift: i128 = (BLOCK_SECS as i128) * (offset as i128);
    let target: i128 = (now.secs() as i128) + (LOOKAHEAD_SECS as i128) + shift;
    if (EARLIEST_SECS as i128) <= target && target <= (LATEST_SECS as i128) {
        Instant::new(target as i64, now.nanos())
    } else {
        None
    }
}

/// The time `offset` six-hour blocks past four hours after `now`, as
/// Melbourne wall-clock time in RFC 3339; `None` where that time lies
/// outside the years that can be rendered.
pub fn time_after(now: Instant, offset: i64) -> (r: Option<String>)
    ensures
        text_view(r) == timestamp_after(now, offset),
{
    match target_instant(now, offset) {
        Some(at) => render_melbourne(at.secs(), at.nanos()),
        None => None,
    }
}

/// The time `offset` six-hour blocks past four hours from now, as Melbourne
/// wall-clock time in RFC 3339.
///
/// Reads the system clock; whatever it reads, the result is `time_after` of
/// that reading.
pub fn time_in_4_hours(offset: i64) -> (r: Option<String>)
    ensures
        exists|now: Instant|
            now.wf() && renderable(now.secs() as int)
                && text_view(r) == #[trigger] timestamp_after(now, offset),
{
    let now = now_utc();
    time_after(now, offset)
}

/// Resolves a request whose chance and clock reading are given.
///
/// Fails where `draw` exceeds the threshold, whatever the offset. Otherwise
/// succeeds with the target time, unless that lies outside the years that
/// can be rendered.
pub fn resolve_with(draw: u64, now: Instant, offset: i64) -> (r: Resolution)
    ensures
        r@ == resolution_of(draw, now, offset),
        r.wf(),
{
    if is_injected_failure(draw) {
        Resolution::failure()
    } else {
        Resolution::from_rendered(time_after(now, offset))
    }
}

/// Resolves a request: draws its chance, and on the success path reads the
/// system clock.
///
/// Whatever was drawn and read, the result is `resolve_with` of them.
pub fn resolve(offset: i64) -> (r: Resolution)
    ensures
        r.wf(),
        exists|draw: u64, now: Instant|
            draw < DRAW_SCALE && now.wf() && renderable(now.secs() as int)
                && r@ == #[trigger] resolution_of(draw, now, offset),
{
    let draw = draw_below(DRAW_SCALE);
    if is_injected_failure(draw) {
        let r = Resolution::failure();
        proof {
            let any = epoch();
            assert(r@ == resolution_of(draw, any, offset));
        }
        r
    } else {
        let now = now_utc();
        let r = Resolution::from_rendered(time_after(now, offset));
        assert(r@ == resolution_of(draw, now, offset));
        r
    }
}

/// The draws that fail a request are those above `LAST_PASSING_DRAW`: of the
/// `DRAW_SCALE` draws there are, 90 071 992 547 409, a little under one in
/// a hundred.
pub proof fn lemma_failing_draws(draw: u64)
    ensures
        injected_failure(draw) <==> draw > LAST_PASSING_DRAW,
        DRAW_SCALE - 1 - LAST_PASSING_DRAW == 90_071_992_547_409,
        100 * (DRAW_SCALE - 1 - LAST_PASSING_DRAW) < DRAW_SCALE,
        101 * (DRAW_SCALE - 1 - LAST_PASSING_DRAW) > DRAW_SCALE,
{
}

/// When success is owed: exactly when the draw does not exceed the threshold
/// and the target time can be rendered.
pub proof fn lemma_success_iff(draw: u64, now: Instant, offset: i64)
    ensures
        resolution_of(draw, now, offset).status == Status::Success <==> !injected_failure(draw)
            && renderable(target_secs(now.secs() as int, offset as int)),
{
}

/// On the success path the result is the clock's reading moved on by four
/// hours and by six hours for each offset unit, as Melbourne reads it.
pub proof fn lemma_success_is_shifted_reading(draw: u64, now: Instant, offset: i64)
    requires
        resolution_of(draw, now, offset).status == Status::Success,
    ensures
        resolution_of(draw, now, offset).result == Some(
            melbourne_rfc3339(now.secs() + 4 * 3600 + 6 * 3600 * offset, now.nanos() as int),
        ),
{
}

/// An offset moves the target exactly as far as a clock that runs six hours
/// ahead for each unit.
pub proof fn lemma_offset_moves_the_clock(now_secs: int, offset: int)
    ensures
        target_secs(now_secs, offset) == target_secs(now_secs + 6 * 3600 * offset, 0),
        target_secs(now_secs, 0) == now_secs + 4 * 3600,
{
}

/// Every resolution has a result exactly when its status is success.
pub proof fn lemma_resolution_wf(draw: u64, now: Instant, offset: i64)
    ensures
        resolution_of(draw, now, offset).wf(),
{
}

/// A draw over the threshold fails the request whatever the clock and the
/// offset.
pub proof fn lemma_injected_failure_fails(draw: u64, now: Instant, offset: i64)
    requires
        injected_failure(draw),
    ensures
        resolution_of(draw, now, offset) == failed(),
{
}

} // verus!
