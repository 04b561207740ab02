//! The health of a boss during one spellcard.

use vstd::prelude::*;

verus! {

/// Hit points a boss has at the start of a spellcard.
pub const BOSS_HEALTH: i32 = 100;

/// Damage dealt to the boss by one hit.
#[derive(Clone, Copy, Debug, PartialEq, Eq, Structural)]
pub struct BossDamageEvent(pub i32);

/// Marks the entity that draws the health bar on screen.
#[derive(Clone, Copy, Debug, Default, PartialEq, Eq, Structural)]
pub struct BossHealthBarBundle;

/// Mathematical content of a [`BossHealthBar`].
pub struct HealthBarState {
    pub current: int,
    pub maximum: int,
}

impl HealthBarState {
    /// Validity: health is never negative, and the maximum is positive.
    pub open spec fn wf(self) -> bool {
        0 <= self.current <= i32::MAX && 0 < self.maximum <= i32::MAX
    }

    /// Health left after one hit of `damage`: never below zero. (Negative
    /// damage heals, as far as the machine's numbers go.)
    pub open spec fn hit(self, damage: int) -> HealthBarState {
        let left = self.current - damage;
        HealthBarState {
            current: if left < 0 {
                0
            } else if left > i32::MAX {
                i32::MAX as int
            } else {
                left
            },
            maximum: self.maximum,
        }
    }

    /// Health left after the hits `damage`, in order.
    pub open spec fn drained(self, damage: Seq<BossDamageEvent>) -> HealthBarState
        decreases damage.len(),
    {
        if damage.len() == 0 {
            self
        } else {
            self.drained(damage.drop_last()).hit(damage.last().0 as int)
        }
    }

    /// Whether no health is left.
    pub open spec fn depleted(self) -> bool {
        self.current <= 0
    }

    /// Length of the bar on screen in thousandths of its full length.
    pub open spec fn scale(self) -> int {
        self.current * 1000 / self.maximum
    }
}

/// Hit points of the boss for the spellcard in play.
#[derive(Clone, Copy, Debug)]
pub struct BossHealthBar {
    current: i32,
    maximum: i32,
}

impl View for BossHealthBar {
    type V = HealthBarState;

    closed spec fn view(&self) -> HealthBarState {
        HealthBarState { current: self.current as int, maximum: self.maximum as int }
    }
}

impl BossHealthBar {
    /// Every health bar is valid.
    #[verifier::type_invariant]
    pub open spec fn inv(self) -> bool {
        self@.wf()
    }

    /// A bar with `current` of `maximum` hit points; none where the
    /// maximum is not positive or the current health is negative.
    pub fn new(current: i32, maximum: i32) -> (bar: Option<BossHealthBar>)
        ensures
            bar is Some <==> current >= 0 && maximum > 0,
            bar matches Some(made) ==> made@ == (HealthBarState {
                current: current as int,
                maximum: maximum as int,
            }),
    {
        if current >= 0 && maximum > 0 {
            Some(BossHealthBar { current, maximum })
        } else {
            None
        }
    }

    /// Hit points left.
    pub fn current(&self) -> (current: i32)
        ensures
            current == self@.current,
            current >= 0,
    {
        proof {
            use_type_invariant(self);
        }
        self.current
    }

    /// Hit points of a full bar.
    pub fn maximum(&self) -> (maximum: i32)
        ensures
            maximum == self@.maximum,
            maximum > 0,
    {
        proof {
            use_type_invariant(self);
        }
        self.maximum
    }

    /// Whether no health is left.
    pub fn is_depleted(&self) -> (depleted: bool)
        ensures
            depleted == self@.depleted(),
    {
        self.current <= 0
    }

    /// Takes one hit.
    pub fn take_damage(&mut self, damage: i32)
        ensures
            final(self)@ == old(self)@.hit(damage as int),
            final(self)@.wf(),
    {
        proof {
            use_type_invariant(&*self);
        }
        let left: i64 = self.current as i64 - damage as i64;
        let current: i32 = if left < 0 {
            0
        } else if left > i32::MAX as i64 {
            i32::MAX
        } else {
            left as i32
        };
        *self = BossHealthBar { current, maximum: self.maximum };
    }
}

/// The health bar a boss gets when a spellcard starts: full, with
/// [`BOSS_HEALTH`] hit points.
pub fn spawn_boss_health_bar() -> (health_bar: BossHealthBar)
    ensures
        health_bar@ == (HealthBarState { current: BOSS_HEALTH as int, maximum: BOSS_HEALTH as int }),
{
    BossHealthBar { current: BOSS_HEALTH, maximum: BOSS_HEALTH }
}

/// Drains the damage events of one frame into the health bar, in order.
pub fn listen_for_boss_damage(health_bar: &mut BossHealthBar, damage: &Vec<BossDamageEvent>)
    ensures
        final(health_bar)@ == old(health_bar)@.drained(damage@),
        final(health_bar)@.wf(),
{
    proof {
        use_type_invariant(&*health_bar);
    }
    let mut index: usize = 0;
    while index < damage.len()
        invariant
            index <= damage.len(),
            health_bar@.wf(),
            health_bar@ == old(health_bar)@.drained(damage@.take(index as int)),
        decreases damage.len() - index,
    {
        health_bar.take_damage(damage[index].0);
        proof {
            assert(damage@.take(index + 1).drop_last() == damage@.take(index as int));
        }
        index = index + 1;
    }
    proof {
        assert(damage@.take(index as int) == damage@);
    }
}

/// Length of the bar on screen, in thousandths of its full length. The
/// maximum of a bar is positive, so the ratio always exists.
pub fn scale_boss_health_bar(health_bar: &BossHealthBar) -> (scale: i64)
    ensures
        scale == health_bar@.scale(),
        scale >= 0,
{
    proof {
        use_type_invariant(health_bar);
    }
    let scaled: i64 = health_bar.current as i64 * 1000;
    let scale: i64 = scaled / health_bar.maximum as i64;
    assert(scale >= 0) by (nonlinear_arith)
        requires
            scaled >= 0,
            health_bar.maximum > 0,
            scale == (scaled as int) / (health_bar.maximum as int),
    ;
    scale
}

/// Health never goes below zero, whatever the damage.
pub proof fn lemma_health_never_negative(bar: HealthBarState, damage: Seq<BossDamageEvent>)
    requires
        bar.wf(),
    ensures
        bar.drained(damage).wf(),
        bar.drained(damage).current >= 0,
        bar.drained(damage).maximum == bar.maximum,
    decreases damage.len(),
{
    if damage.len() > 0 {
        lemma_health_never_negative(bar, damage.drop_last());
    }
}

/// Damage that is not negative never raises health, and once the damage
/// adds up to the health that was there, none is left.
pub proof fn lemma_damage_drains(bar: HealthBarState, damage: Seq<BossDamageEvent>)
    requires
        bar.wf(),
        forall|i: int| 0 <= i < damage.len() ==> (#[trigger] damage[i]).0 >= 0,
    ensures
        bar.drained(damage).current == if bar.current >= total_damage(damage) {
            bar.current - total_damage(damage)
        } else {
            0
        },
    decreases damage.len(),
{
    if damage.len() > 0 {
        lemma_damage_drains(bar, damage.drop_last());
        lemma_total_damage_not_negative(damage.drop_last());
    }
}

/// Sum of the damage of `damage`.
pub open spec fn total_damage(damage: Seq<BossDamageEvent>) -> int
    decreases damage.len(),
{
    if damage.len() == 0 {
        0
    } else {
        total_damage(damage.drop_last()) + damage.last().0
    }
}

proof fn lemma_total_damage_not_negative(damage: Seq<BossDamageEvent>)
    requires
        forall|i: int| 0 <= i < damage.len() ==> (#[trigger] damage[i]).0 >= 0,
    ensures
        total_damage(damage) >= 0,
    decreases damage.len(),
{
    if damage.len() > 0 {
        lemma_total_damage_not_negative(damage.drop_last());
    }
}

} // verus!
