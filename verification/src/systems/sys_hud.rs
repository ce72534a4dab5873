//! The HUD: three lines of text that mirror the player and the scorekeeper.

use crate::commands::{GameCommand, GameCommandQueue};
use crate::components::{Player, Scorekeeper};
use crate::coords::{spec_down, spec_zero, Position};
use crate::prefabs::{Anchor, HudTag, Justification, Prefab, TextPrefab};
use crate::systems::{on_init, on_update, GameEvent, ScheduledSystem, SystemId};
use crate::text::{
    high_score_text, lives_text, score_text, spec_high_score_text, spec_lives_text,
    spec_score_text,
};
use vstd::prelude::*;

verus! {

/// The systems that create the HUD and keep it up to date.
pub struct HudSystemsGenerator {}

impl HudSystemsGenerator {
    /// The three lines are created once and rewritten every frame.
    pub open spec fn spec_generate() -> Seq<ScheduledSystem> {
        seq![on_init(SystemId::HudSetup), on_update(SystemId::HudUpdate)]
    }

    /// The HUD systems in the order in which a frame runs them.
    pub fn generate(&self) -> (systems: Vec<ScheduledSystem>)
        ensures
            systems@ == Self::spec_generate(),
    {
        let mut systems: Vec<ScheduledSystem> = Vec::new();
        systems.push(ScheduledSystem { event: GameEvent::Init, system: SystemId::HudSetup });
        systems.push(ScheduledSystem { event: GameEvent::Update, system: SystemId::HudUpdate });
        systems
    }
}

impl HudTag {
    /// The identity under which the line of this tag is stored.
    pub open spec fn spec_id(self) -> Seq<char> {
        match self {
            HudTag::Lives => "lives-tag"@,
            HudTag::Score => "score-tag"@,
            HudTag::HighScore => "high-score-tag"@,
        }
    }

    /// The identity under which the line of this tag is stored.
    pub fn id(self) -> (id: &'static str)
        ensures
            id@ == self.spec_id(),
    {
        match self {
            HudTag::Lives => "lives-tag",
            HudTag::Score => "score-tag",
            HudTag::HighScore => "high-score-tag",
        }
    }
}

/// The line of the lives: flush left in the bottom left corner.
pub open spec fn spec_lives_tag() -> TextPrefab {
    TextPrefab {
        tag: HudTag::Lives,
        anchor: Anchor::BottomLeft,
        justification: Justification::Left,
        offset: spec_zero(),
    }
}

/// The line of the score: flush right, one row off the bottom right corner.
pub open spec fn spec_score_tag() -> TextPrefab {
    TextPrefab {
        tag: HudTag::Score,
        anchor: Anchor::BottomRight,
        justification: Justification::Right,
        offset: spec_down(),
    }
}

/// The line of the best score: flush right in the bottom right corner.
pub open spec fn spec_high_score_tag() -> TextPrefab {
    TextPrefab {
        tag: HudTag::HighScore,
        anchor: Anchor::BottomRight,
        justification: Justification::Right,
        offset: spec_zero(),
    }
}

/// Creates the three lines of the HUD, empty.
pub fn setup_hud(commands: &mut GameCommandQueue)
    ensures
        final(commands)@ == old(commands)@.push(
            GameCommand::AddEntity(Prefab::Text(spec_lives_tag())),
        ).push(GameCommand::AddEntity(Prefab::Text(spec_score_tag()))).push(
            GameCommand::AddEntity(Prefab::Text(spec_high_score_tag())),
        ),
{
    commands.issue(
        GameCommand::AddEntity(
            Prefab::Text(
                TextPrefab {
                    tag: HudTag::Lives,
                    anchor: Anchor::BottomLeft,
                    justification: Justification::Left,
                    offset: Position::zero(),
                },
            ),
        ),
    );
    commands.issue(
        GameCommand::AddEntity(
            Prefab::Text(
                TextPrefab {
                    tag: HudTag::Score,
                    anchor: Anchor::BottomRight,
                    justification: Justification::Right,
                    offset: Position::down(),
                },
            ),
        ),
    );
    commands.issue(
        GameCommand::AddEntity(
            Prefab::Text(
                TextPrefab {
                    tag: HudTag::HighScore,
                    anchor: Anchor::BottomRight,
                    justification: Justification::Right,
                    offset: Position::zero(),
                },
            ),
        ),
    );
}

/// Rewrites the three lines of the HUD from the player and the scorekeeper:
/// one glyph per life, the score, and the higher of the score and the best
/// score on record.
pub fn update_hud(
    player: &Player,
    scorekeeper: &Scorekeeper,
    lives_tag: &mut String,
    score_tag: &mut String,
    high_score_tag: &mut String,
)
    ensures
        final(lives_tag)@ == spec_lives_text(player.lives),
        final(score_tag)@ == spec_score_text(scorekeeper.score),
        final(high_score_tag)@ == spec_high_score_text(scorekeeper.high_score, scorekeeper.score),
{
    *lives_tag = lives_text(player.lives);
    *score_tag = score_text(scorekeeper.score);
    *high_score_tag = high_score_text(scorekeeper.high_score, scorekeeper.score);
}

} // verus!
