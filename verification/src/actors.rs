//! The kinds of projectile, as far as the rules tell them apart.

use vstd::prelude::*;

verus! {

/// What stands in the enemy list for one projectile. Where it is and how
/// fast it moves is the host's business; the rules need its kind only.
#[derive(Clone, Copy, Debug, PartialEq, Eq, Structural)]
pub enum EnemyKind {
    /// Flies in a straight line.
    Bullet,
    /// Flies in a straight line and wobbles along it.
    DrunkBullet,
    /// Steers towards the place where it last saw the avatar.
    HomingBullet,
}

impl EnemyKind {
    /// Only a homing bullet acts between ticks: it looks at the avatar again.
    pub open spec fn acts(self) -> bool {
        self == EnemyKind::HomingBullet
    }

    pub fn has_action(&self) -> (b: bool)
        ensures
            b == self.acts(),
    {
        match self {
            EnemyKind::HomingBullet => true,
            _ => false,
        }
    }
}

} // verus!
