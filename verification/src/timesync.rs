//! Effect descriptors and the ramps they turn into once bound to a position.

use vstd::prelude::*;

verus! {

/// One second of playback time; also the value 1.0 of a parameter.
pub const UNIT: i64 = 1_000_000;

/// Length of a fade whose descriptor names none.
pub const DEFAULT_FADE_DURATION: i64 = 2_000_000;

/// Length of a speed change whose descriptor names none.
pub const DEFAULT_SPEED_DURATION: i64 = 0;

/// Speed that a speed change heads for when its descriptor names none.
pub const DEFAULT_SPEED_TARGET: i64 = 1_500_000;

/// Raise the volume over a stretch of playback.
#[derive(Clone, Copy, Debug, PartialEq, Eq, Structural)]
pub struct FadeIn {
    pub duration: Option<i64>,
    pub start_val: Option<i64>,
    pub end_val: Option<i64>,
    pub apply_after: Option<i64>,
}

/// Lower the volume over a stretch of playback.
#[derive(Clone, Copy, Debug, PartialEq, Eq, Structural)]
pub struct FadeOut {
    pub duration: Option<i64>,
    pub start_val: Option<i64>,
    pub end_val: Option<i64>,
    pub apply_after: Option<i64>,
}

/// Move the playback speed over a stretch of playback.
#[derive(Clone, Copy, Debug, PartialEq, Eq, Structural)]
pub struct ChangeSpeed {
    pub duration: Option<i64>,
    pub start_val: Option<i64>,
    pub end_val: Option<i64>,
    pub apply_after: Option<i64>,
}

impl FadeIn {
    pub fn new(
        duration: Option<i64>,
        start_val: Option<i64>,
        end_val: Option<i64>,
        apply_after: Option<i64>,
    ) -> (r: Self)
        ensures
            r == (FadeIn { duration, start_val, end_val, apply_after }),
    {
        FadeIn { duration, start_val, end_val, apply_after }
    }
}

impl FadeOut {
    pub fn new(
        duration: Option<i64>,
        start_val: Option<i64>,
        end_val: Option<i64>,
        apply_after: Option<i64>,
    ) -> (r: Self)
        ensures
            r == (FadeOut { duration, start_val, end_val, apply_after }),
    {
        FadeOut { duration, start_val, end_val, apply_after }
    }
}

impl ChangeSpeed {
    pub fn new(
        duration: Option<i64>,
        start_val: Option<i64>,
        end_val: Option<i64>,
        apply_after: Option<i64>,
    ) -> (r: Self)
        ensures
            r == (ChangeSpeed { duration, start_val, end_val, apply_after }),
    {
        ChangeSpeed { duration, start_val, end_val, apply_after }
    }
}

/// A ramp description of one of the three kinds.
#[derive(Clone, Copy, Debug, PartialEq, Eq, Structural)]
pub enum ActionType {
    FadeIn(FadeIn),
    FadeOut(FadeOut),
    ChangeSpeed(ChangeSpeed),
}

/// What a ramp asks for at one position.
#[derive(Clone, Copy, Debug, PartialEq, Eq, Structural)]
pub enum EffectResult {
    /// The ramp is under way: write this value.
    Value(i64),
    /// The ramp is not due yet: write nothing.
    Ignored,
    /// The ramp is over: write this value and retire the ramp.
    Completed(i64),
}

impl EffectResult {
    /// The value to write, if the outcome asks for a write.
    pub open spec fn written(self) -> Option<i64> {
        match self {
            EffectResult::Value(v) => Some(v),
            EffectResult::Ignored => None,
            EffectResult::Completed(v) => Some(v),
        }
    }
}

impl ActionType {
    /// The length the descriptor names, if it names one.
    pub open spec fn spec_duration(self) -> Option<i64> {
        match self {
            ActionType::FadeIn(f) => f.duration,
            ActionType::FadeOut(f) => f.duration,
            ActionType::ChangeSpeed(c) => c.duration,
        }
    }

    /// The first value the descriptor names, if it names one.
    pub open spec fn spec_start_val(self) -> Option<i64> {
        match self {
            ActionType::FadeIn(f) => f.start_val,
            ActionType::FadeOut(f) => f.start_val,
            ActionType::ChangeSpeed(c) => c.start_val,
        }
    }

    /// The last value the descriptor names, if it names one.
    pub open spec fn spec_end_val(self) -> Option<i64> {
        match self {
            ActionType::FadeIn(f) => f.end_val,
            ActionType::FadeOut(f) => f.end_val,
            ActionType::ChangeSpeed(c) => c.end_val,
        }
    }

    /// The delay the descriptor names, if it names one.
    pub open spec fn spec_apply_after(self) -> Option<i64> {
        match self {
            ActionType::FadeIn(f) => f.apply_after,
            ActionType::FadeOut(f) => f.apply_after,
            ActionType::ChangeSpeed(c) => c.apply_after,
        }
    }

    /// Whether the ramp writes the volume; otherwise it writes the speed.
    pub open spec fn spec_drives_volume(self) -> bool {
        !(self is ChangeSpeed)
    }

    /// The length of the ramp, with the kind's default where none is named.
    pub open spec fn resolved_duration(self) -> i64 {
        match self.spec_duration() {
            Some(d) => d,
            None => if self is ChangeSpeed {
                DEFAULT_SPEED_DURATION
            } else {
                DEFAULT_FADE_DURATION
            },
        }
    }

    /// The value the ramp starts from: the named one, else silence for a
    /// fade in, full volume for a fade out, and for a speed change the speed
    /// at the moment of scheduling.
    pub open spec fn resolved_start_val(self, current_speed: i64) -> i64 {
        match self.spec_start_val() {
            Some(v) => v,
            None => match self {
                ActionType::FadeIn(_) => 0,
                ActionType::FadeOut(_) => UNIT,
                ActionType::ChangeSpeed(_) => current_speed,
            },
        }
    }

    /// The value the ramp ends on: the named one, else full volume for a
    /// fade in, silence for a fade out, and the default target for a speed
    /// change.
    pub open spec fn resolved_end_val(self) -> i64 {
        match self.spec_end_val() {
            Some(v) => v,
            None => match self {
                ActionType::FadeIn(_) => UNIT,
                ActionType::FadeOut(_) => 0,
                ActionType::ChangeSpeed(_) => DEFAULT_SPEED_TARGET,
            },
        }
    }

    /// The position at which the ramp starts. A named delay counts from the
    /// position at scheduling. Without one a fade out is laid against the
    /// end of the track (or, where the track's length is unknown, against
    /// the position at scheduling), and the other kinds start at once.
    pub open spec fn resolved_start_position(
        self,
        current_position: i64,
        sink_duration: Option<i64>,
    ) -> int {
        match self.spec_apply_after() {
            Some(delay) => current_position + delay,
            None => match self {
                ActionType::FadeOut(_) => {
                    let anchor = match sink_duration {
                        Some(d) => d,
                        None => current_position,
                    };
                    anchor - self.resolved_duration()
                },
                _ => current_position as int,
            },
        }
    }

    pub fn duration(&self) -> (r: Option<i64>)
        ensures
            r == self.spec_duration(),
    {
        match self {
            ActionType::FadeIn(f) => f.duration,
            ActionType::FadeOut(f) => f.duration,
            ActionType::ChangeSpeed(c) => c.duration,
        }
    }

    pub fn start_val(&self) -> (r: Option<i64>)
        ensures
            r == self.spec_start_val(),
    {
        match self {
            ActionType::FadeIn(f) => f.start_val,
            ActionType::FadeOut(f) => f.start_val,
            ActionType::ChangeSpeed(c) => c.start_val,
        }
    }

    pub fn end_val(&self) -> (r: Option<i64>)
        ensures
            r == self.spec_end_val(),
    {
        match self {
            ActionType::FadeIn(f) => f.end_val,
            ActionType::FadeOut(f) => f.end_val,
            ActionType::ChangeSpeed(c) => c.end_val,
        }
    }

    pub fn apply_after(&self) -> (r: Option<i64>)
        ensures
            r == self.spec_apply_after(),
    {
        match self {
            ActionType::FadeIn(f) => f.apply_after,
            ActionType::FadeOut(f) => f.apply_after,
            ActionType::ChangeSpeed(c) => c.apply_after,
        }
    }

    pub fn drives_volume(&self) -> (r: bool)
        ensures
            r == self.spec_drives_volume(),
    {
        match self {
            ActionType::ChangeSpeed(_) => false,
            _ => true,
        }
    }

    /// The kind's name.
    pub fn name(&self) -> (r: &'static str)
        ensures
            r@ == match *self {
                ActionType::FadeIn(_) => "FadeIn"@,
                ActionType::FadeOut(_) => "FadeOut"@,
                ActionType::ChangeSpeed(_) => "ChangeSpeed"@,
            },
    {
        match self {
            ActionType::FadeIn(_) => "FadeIn",
            ActionType::FadeOut(_) => "FadeOut",
            ActionType::ChangeSpeed(_) => "ChangeSpeed",
        }
    }
}

/// The value of a straight ramp from `start_val` to `end_val` after `elapsed`
/// of its `span`, with the progress held inside the span and the step
/// rounded toward `start_val`.
pub open spec fn interpolate(start_val: int, end_val: int, elapsed: int, span: int) -> int
    recommends
        span > 0,
{
    let e = if elapsed < 0 {
        0
    } else if elapsed > span {
        span
    } else {
        elapsed
    };
    if end_val >= start_val {
        start_val + ((end_val - start_val) * e) / span
    } else {
        start_val - ((start_val - end_val) * e) / span
    }
}

/// A ramp laid on the playback timeline: the model of an `EffectSync`.
pub struct Ramp {
    pub start_position: int,
    pub completion_position: int,
    pub start_val: i64,
    pub end_val: i64,
    pub action: ActionType,
}

impl Ramp {
    /// The ramp that a descriptor becomes when it is scheduled at
    /// `current_position` on a track of length `sink_duration`, played at
    /// `current_speed`.
    pub open spec fn scheduled(
        action: ActionType,
        current_position: i64,
        sink_duration: Option<i64>,
        current_speed: i64,
    ) -> Ramp {
        let start_position = action.resolved_start_position(current_position, sink_duration);
        Ramp {
            start_position,
            completion_position: start_position + action.resolved_duration(),
            start_val: action.resolved_start_val(current_speed),
            end_val: action.resolved_end_val(),
            action,
        }
    }

    /// The interpolated value at `position`.
    pub open spec fn value_at(self, position: int) -> int {
        interpolate(
            self.start_val as int,
            self.end_val as int,
            position - self.start_position,
            self.completion_position - self.start_position,
        )
    }

    /// What the ramp asks for at `position`: nothing before its start, its
    /// last value from its completion on, and the interpolated value between.
    pub open spec fn outcome_at(self, position: int) -> EffectResult {
        if position < self.start_position {
            EffectResult::Ignored
        } else if position >= self.completion_position {
            EffectResult::Completed(self.end_val)
        } else {
            EffectResult::Value(self.value_at(position) as i64)
        }
    }
}

/// The step of a ramp never leaves the stretch between nothing and the
/// whole difference, and grows with the progress.
proof fn lemma_step(diff: int, e1: int, e2: int, span: int)
    requires
        0 <= diff,
        0 <= e1 <= e2 <= span,
        0 < span,
    ensures
        0 <= (diff * e1) / span <= (diff * e2) / span <= diff,
{
    assert(0 <= diff * e1 <= diff * e2 <= diff * span) by (nonlinear_arith)
        requires
            0 <= diff,
            0 <= e1 <= e2 <= span,
    ;
    vstd::arithmetic::div_mod::lemma_div_is_ordered(0, diff * e1, span);
    vstd::arithmetic::div_mod::lemma_div_is_ordered(diff * e1, diff * e2, span);
    vstd::arithmetic::div_mod::lemma_div_is_ordered(diff * e2, diff * span, span);
    vstd::arithmetic::div_mod::lemma_div_multiples_vanish(diff, span);
    assert(diff * span == span * diff) by (nonlinear_arith);
    assert(0int / span == 0) by (nonlinear_arith)
        requires
            0 < span,
    ;
}

/// An interpolated value lies between the two ends of its ramp.
pub proof fn lemma_interpolate_bounded(start_val: int, end_val: int, elapsed: int, span: int)
    requires
        0 < span,
    ensures
        start_val <= end_val ==> start_val <= interpolate(start_val, end_val, elapsed, span)
            <= end_val,
        end_val <= start_val ==> end_val <= interpolate(start_val, end_val, elapsed, span)
            <= start_val,
{
    let e = if elapsed < 0 {
        0
    } else if elapsed > span {
        span
    } else {
        elapsed
    };
    if end_val >= start_val {
        lemma_step(end_val - start_val, e, e, span);
    } else {
        lemma_step(start_val - end_val, e, e, span);
    }
}

/// Interpolated values move one way only as the progress grows: up on a
/// rising ramp, down on a falling one.
pub proof fn lemma_interpolate_monotonic(
    start_val: int,
    end_val: int,
    earlier: int,
    later: int,
    span: int,
)
    requires
        0 < span,
        earlier <= later,
    ensures
        start_val <= end_val ==> interpolate(start_val, end_val, earlier, span) <= interpolate(
            start_val,
            end_val,
            later,
            span,
        ),
        end_val <= start_val ==> interpolate(start_val, end_val, earlier, span) >= interpolate(
            start_val,
            end_val,
            later,
            span,
        ),
{
    let e1 = if earlier < 0 {
        0
    } else if earlier > span {
        span
    } else {
        earlier
    };
    let e2 = if later < 0 {
        0
    } else if later > span {
        span
    } else {
        later
    };
    if end_val >= start_val {
        lemma_step(end_val - start_val, e1, e2, span);
    } else {
        lemma_step(start_val - end_val, e1, e2, span);
    }
}

/// Whatever a ramp asks to write lies between its two end values.
pub proof fn lemma_ramp_bounded(ramp: Ramp, position: int)
    ensures
        ramp.outcome_at(position).written() matches Some(v) ==> {
            &&& ramp.start_val <= ramp.end_val ==> ramp.start_val <= v <= ramp.end_val
            &&& ramp.end_val <= ramp.start_val ==> ramp.end_val <= v <= ramp.start_val
        },
        ramp.outcome_at(position) matches EffectResult::Value(v) ==> v == ramp.value_at(position),
{
    if ramp.start_position <= position < ramp.completion_position {
        lemma_interpolate_bounded(
            ramp.start_val as int,
            ramp.end_val as int,
            position - ramp.start_position,
            ramp.completion_position - ramp.start_position,
        );
    }
}

/// What a ramp asks to write moves one way only as playback advances: a
/// rising ramp never writes less at a later position than at an earlier
/// one, and a falling ramp never more.
pub proof fn lemma_ramp_monotonic(ramp: Ramp, earlier: int, later: int)
    requires
        earlier <= later,
    ensures
        ramp.outcome_at(earlier) is Ignored || !(ramp.outcome_at(later) is Ignored),
        ramp.outcome_at(earlier).written() matches Some(v1) ==> (ramp.outcome_at(
            later,
        ).written() matches Some(v2) ==> {
            &&& ramp.start_val <= ramp.end_val ==> v1 <= v2
            &&& ramp.end_val <= ramp.start_val ==> v1 >= v2
        }),
{
    lemma_ramp_bounded(ramp, earlier);
    lemma_ramp_bounded(ramp, later);
    if ramp.start_position <= earlier && later < ramp.completion_position {
        lemma_interpolate_monotonic(
            ramp.start_val as int,
            ramp.end_val as int,
            earlier - ramp.start_position,
            later - ramp.start_position,
            ramp.completion_position - ramp.start_position,
        );
    }
}

/// A ramp that is not due asks for nothing, at that position and at every
/// earlier one.
pub proof fn lemma_ramp_not_due(ramp: Ramp, position: int, earlier: int)
    requires
        position < ramp.start_position,
        earlier <= position,
    ensures
        ramp.outcome_at(position) is Ignored,
        ramp.outcome_at(earlier) is Ignored,
{
}

/// A descriptor bound to a position on the timeline.
#[derive(Clone, Copy, Debug, PartialEq, Eq, Structural)]
pub struct EffectSync {
    start_position: i128,
    completion_pos: i128,
    start_val: i64,
    end_val: i64,
    action: ActionType,
}

impl View for EffectSync {
    type V = Ramp;

    closed spec fn view(&self) -> Ramp {
        Ramp {
            start_position: self.start_position as int,
            completion_position: self.completion_pos as int,
            start_val: self.start_val,
            end_val: self.end_val,
            action: self.action,
        }
    }
}

impl EffectSync {
    #[verifier::type_invariant]
    spec fn span_fits(self) -> bool {
        self.completion_pos - self.start_position <= i64::MAX
    }

    /// Binds `action` to the timeline of a player that stands at
    /// `current_position`, plays a track of length `sink_duration` and runs
    /// at `current_speed`.
    pub fn new(
        action: ActionType,
        current_position: i64,
        sink_duration: Option<i64>,
        current_speed: i64,
    ) -> (r: Self)
        ensures
            r@ == Ramp::scheduled(action, current_position, sink_duration, current_speed),
    {
        let duration: i64 = match action.duration() {
            Some(d) => d,
            None => match action {
                ActionType::ChangeSpeed(_) => DEFAULT_SPEED_DURATION,
                _ => DEFAULT_FADE_DURATION,
            },
        };
        let start_val: i64 = match action.start_val() {
            Some(v) => v,
            None => match action {
                ActionType::FadeIn(_) => 0,
                ActionType::FadeOut(_) => UNIT,
                ActionType::ChangeSpeed(_) => current_speed,
            },
        };
        let end_val: i64 = match action.end_val() {
            Some(v) => v,
            None => match action {
                ActionType::FadeIn(_) => UNIT,
                ActionType::FadeOut(_) => 0,
                ActionType::ChangeSpeed(_) => DEFAULT_SPEED_TARGET,
            },
        };
        let start_position: i128 = match action.apply_after() {
            Some(delay) => current_position as i128 + delay as i128,
            None => match action {
                ActionType::FadeOut(_) => {
                    let anchor: i64 = match sink_duration {
                        Some(d) => d,
                        None => current_position,
                    };
                    anchor as i128 - duration as i128
                },
                _ => current_position as i128,
            },
        };
        let completion_pos: i128 = start_position + duration as i128;
        EffectSync { start_position, completion_pos, start_val, end_val, action }
    }

    /// What the ramp asks for when playback stands at `current_position`.
    pub fn update(&self, current_position: i64) -> (r: EffectResult)
        ensures
            r == self@.outcome_at(current_position as int),
            current_position < self@.start_position ==> r is Ignored,
            r.written() matches Some(v) ==> (self@.start_val <= v <= self@.end_val
                || self@.end_val <= v <= self@.start_val),
    {
        proof {
            use_type_invariant(self);
            lemma_ramp_bounded(self@, current_position as int);
        }
        let position: i128 = current_position as i128;
        if position < self.start_position {
            EffectResult::Ignored
        } else if position >= self.completion_pos {
            EffectResult::Completed(self.end_val)
        } else {
            let elapsed: u128 = (position - self.start_position) as u128;
            let span: u128 = (self.completion_pos - self.start_position) as u128;
            let rising: bool = self.end_val >= self.start_val;
            let diff: u128 = if rising {
                (self.end_val as i128 - self.start_val as i128) as u128
            } else {
                (self.start_val as i128 - self.end_val as i128) as u128
            };
            proof {
                lemma_step(diff as int, elapsed as int, elapsed as int, span as int);
                assert(diff * elapsed <= 0x1_0000_0000_0000_0000 * 0x8000_0000_0000_0000)
                    by (nonlinear_arith)
                    requires
                        0 <= diff <= 0x1_0000_0000_0000_0000,
                        0 <= elapsed <= 0x8000_0000_0000_0000,
                ;
            }
            let step: u128 = diff * elapsed / span;
            let value: i128 = if rising {
                self.start_val as i128 + step as i128
            } else {
                self.start_val as i128 - step as i128
            };
            EffectResult::Value(value as i64)
        }
    }

    /// The position from which the ramp writes.
    pub fn start_position(&self) -> (r: i128)
        ensures
            r == self@.start_position,
    {
        self.start_position
    }

    /// The position from which the ramp is over.
    pub fn completion_position(&self) -> (r: i128)
        ensures
            r == self@.completion_position,
    {
        self.completion_pos
    }

    /// The value the ramp starts from.
    pub fn start_val(&self) -> (r: i64)
        ensures
            r == self@.start_val,
    {
        self.start_val
    }

    /// The value the ramp ends on.
    pub fn end_val(&self) -> (r: i64)
        ensures
            r == self@.end_val,
    {
        self.end_val
    }

    /// The descriptor the ramp was made from.
    pub fn action(&self) -> (r: ActionType)
        ensures
            r == self@.action,
    {
        self.action
    }
}

} // verus!
