//! The rules of the hidden arcade game (a Space Invaders): where the shields
//! stand, how waves are laid out, when the invaders shoot, what a kill scores,
//! and how lives and waves run out.
//!
//! Positions and speeds of the moving pieces are fractional and stay with the
//! game loop; the rules here are on whole numbers.
use vstd::prelude::*;

verus! {

/// One block of a shield.
#[derive(Clone, Copy, Debug)]
pub struct Shield {
    pub x: u16,
    pub y: u16,
    pub hp: u8,
}

/// Whether the game goes on.
#[derive(PartialEq, Eq, Structural, Clone, Copy, Debug)]
pub enum GameState {
    Playing,
    GameOver,
    Victory,
}

/// Number of shields.
pub const SHIELD_COUNT: u16 = 8;

/// Block `(dx, dy)` of shield `i` on a screen of `width` by `height`: the
/// shields stand evenly spaced (a ninth of the width apart), each nine blocks
/// wide centred on its place and three blocks high, eight rows above the
/// bottom, with three hit points.
pub open spec fn shield_block(width: u16, height: u16, i: int, dx: int, dy: int) -> Shield {
    let spacing = width / 9;
    let top: int = if height >= 8 {
        height - 8
    } else {
        0
    };
    Shield { x: (spacing * (i + 1) + dx - 4) as u16, y: (top + dy) as u16, hp: 3 }
}

/// The shields for a screen of `width` by `height`: for each shield in turn,
/// its blocks column by column, each column top to bottom.
pub fn spawn_shields(width: u16, height: u16) -> (shields: Vec<Shield>)
    requires
        width / 9 >= 4,
    ensures
        shields@.len() == 216,
        forall|i: int, dx: int, dy: int|
            0 <= i < 8 && 0 <= dx < 9 && 0 <= dy < 3 ==> #[trigger] shields@[i * 27 + dx * 3 + dy]
                == shield_block(width, height, i, dx, dy),
{
    let mut shields: Vec<Shield> = Vec::new();
    let spacing = width / (SHIELD_COUNT + 1);
    let shield_y = if height >= 8 {
        height - 8
    } else {
        0
    };
    let mut i: u16 = 0;
    while i < SHIELD_COUNT
        invariant
            i <= 8,
            spacing == width / 9,
            spacing >= 4,
            shield_y == (if height >= 8 {
                height - 8
            } else {
                0
            }),
            shields@.len() == i * 27,
            forall|a: int, dx: int, dy: int|
                0 <= a < i && 0 <= dx < 9 && 0 <= dy < 3 ==> #[trigger] shields@[a * 27 + dx * 3
                    + dy] == shield_block(width, height, a, dx, dy),
        decreases 8 - i,
    {
        assert(spacing * (i + 1) <= spacing * 9) by (nonlinear_arith)
            requires
                i < 8,
                spacing >= 0,
        ;
        assert(spacing * 9 <= width) by (nonlinear_arith)
            requires
                spacing == width / 9,
        ;
        let x = spacing * (i + 1);
        assert(x <= 58248) by (nonlinear_arith)
            requires
                x == spacing * (i + 1),
                spacing == width / 9,
                i < 8,
        ;
        assert(x >= 4) by (nonlinear_arith)
            requires
                x == spacing * (i + 1),
                spacing >= 4,
                i >= 0,
        ;
        let mut dx: u16 = 0;
        while dx < 9
            invariant
                i < 8,
                dx <= 9,
                x == spacing * (i + 1),
                x >= 4,
                x <= 58248,
                spacing == width / 9,
                shield_y == (if height >= 8 {
                    height - 8
                } else {
                    0
                }),
                shields@.len() == i * 27 + dx * 3,
                forall|a: int, ddx: int, dy: int|
                    0 <= a < i && 0 <= ddx < 9 && 0 <= dy < 3 ==> #[trigger] shields@[a * 27 + ddx
                        * 3 + dy] == shield_block(width, height, a, ddx, dy),
                forall|ddx: int, dy: int|
                    0 <= ddx < dx && 0 <= dy < 3 ==> #[trigger] shields@[i * 27 + ddx * 3 + dy]
                        == shield_block(width, height, i as int, ddx, dy),
            decreases 9 - dx,
        {
            let mut dy: u16 = 0;
            while dy < 3
                invariant
                    i < 8,
                    dx < 9,
                    dy <= 3,
                    x == spacing * (i + 1),
                    x >= 4,
                    x <= 58248,
                    spacing == width / 9,
                    shield_y == (if height >= 8 {
                        height - 8
                    } else {
                        0
                    }),
                    shields@.len() == i * 27 + dx * 3 + dy,
                    forall|a: int, ddx: int, ddy: int|
                        0 <= a < i && 0 <= ddx < 9 && 0 <= ddy < 3 ==> #[trigger] shields@[a * 27
                            + ddx * 3 + ddy] == shield_block(width, height, a, ddx, ddy),
                    forall|ddx: int, ddy: int|
                        0 <= ddx < dx && 0 <= ddy < 3 ==> #[trigger] shields@[i * 27 + ddx * 3 + ddy]
                            == shield_block(width, height, i as int, ddx, ddy),
                    forall|ddy: int|
                        0 <= ddy < dy ==> #[trigger] shields@[i * 27 + dx * 3 + ddy]
                            == shield_block(width, height, i as int, dx as int, ddy),
                decreases 3 - dy,
            {
                shields.push(Shield { x: x + dx - 4, y: shield_y + dy, hp: 3 });
                dy = dy + 1;
            }
            dx = dx + 1;
        }
        i = i + 1;
    }
    shields
}

/// Invaders per row for a screen `width` wide: a tenth of the width, between
/// five and fourteen.
pub open spec fn columns_for(width: u16) -> nat {
    let c = width / 10;
    if c < 5 {
        5
    } else if c > 14 {
        14
    } else {
        c as nat
    }
}

/// Invaders per row of a wave.
pub fn wave_columns(width: u16) -> (c: usize)
    ensures
        c == columns_for(width),
{
    let c = (width / 10) as usize;
    if c < 5 {
        5
    } else if c > 14 {
        14
    } else {
        c
    }
}

/// Rows of invaders in wave `wave`: three, one more every second wave, at
/// most six.
pub fn wave_rows(wave: u8) -> (r: usize)
    ensures
        r == 3 + if wave / 2 < 3 {
            wave / 2
        } else {
            3
        },
{
    let half = (wave / 2) as usize;
    3 + if half < 3 {
        half
    } else {
        3
    }
}

/// The tier of the invaders of row `row`: the strongest on the first row, the
/// middle tier on the second, the weakest below.
pub fn enemy_tier(row: usize) -> (t: u8)
    ensures
        t == if row == 0 {
            2u8
        } else if row <= 1 {
            1u8
        } else {
            0u8
        },
{
    if row == 0 {
        2
    } else if row <= 1 {
        1
    } else {
        0
    }
}

/// Points for shooting an invader of tier `tier`: 300, 200, else 100.
pub fn tier_points(tier: u8) -> (p: u32)
    ensures
        p == if tier == 2 {
            300u32
        } else if tier == 1 {
            200u32
        } else {
            100u32
        },
{
    match tier {
        2 => 300,
        1 => 200,
        _ => 100,
    }
}

/// The invaders shoot every this many frames in wave `wave`: twenty, two
/// fewer per wave, never under five.
pub open spec fn shot_period_of(wave: u8) -> u64 {
    if 20 - 2 * wave >= 5 {
        (20 - 2 * wave) as u64
    } else {
        5u64
    }
}

/// Frames between two shots of the invaders in wave `wave`.
pub fn shot_period(wave: u8) -> (p: u64)
    ensures
        p == shot_period_of(wave),
        p >= 5,
{
    let w = (wave as u64) * 2;
    let base = if w < 20 {
        20 - w
    } else {
        0
    };
    if base >= 5 {
        base
    } else {
        5
    }
}

/// Whether the invaders shoot on frame `frame` of wave `wave`.
pub fn shoots_now(frame: u64, wave: u8) -> (b: bool)
    ensures
        b == (frame % shot_period_of(wave) == 0),
{
    frame % shot_period(wave) == 0
}

/// Which of the `alive` living invaders shoots on frame `frame`.
pub fn shooter(frame: u64, alive: usize) -> (k: usize)
    requires
        alive > 0,
        frame * 7 + 13 <= usize::MAX,
    ensures
        k == (frame * 7 + 13) % (alive as int),
        k < alive,
{
    let f = frame as usize;
    (f * 7 + 13) % alive
}

/// The player may fire while fewer than five of their shots are flying.
pub fn may_shoot(player_bullets: usize) -> (b: bool)
    ensures
        b == (player_bullets < 5),
{
    player_bullets < 5
}

/// The player is hit with `lives` lives: one life goes (none below zero), the
/// player cannot be hit for the next sixty frames, and with no life left the
/// game is over. Returns the lives, the frames of protection and the state.
pub fn player_hit(lives: u8) -> (r: (u8, u16, GameState))
    ensures
        r.0 == if lives > 0 {
            (lives - 1) as u8
        } else {
            0u8
        },
        r.1 == 60,
        r.2 == if r.0 == 0 {
            GameState::GameOver
        } else {
            GameState::Playing
        },
{
    let l = if lives > 0 {
        lives - 1
    } else {
        0
    };
    (l, 60, if l == 0 {
        GameState::GameOver
    } else {
        GameState::Playing
    })
}

/// Wave `wave` was cleared: the next wave starts, and after the tenth the
/// player has won.
pub fn wave_cleared(wave: u8) -> (r: (u8, GameState))
    requires
        wave < 255,
    ensures
        r.0 == wave + 1,
        r.1 == if wave + 1 > 10 {
            GameState::Victory
        } else {
            GameState::Playing
        },
{
    let w = wave + 1;
    (w, if w > 10 {
        GameState::Victory
    } else {
        GameState::Playing
    })
}

/// The hits of a frame, `(bullet, enemy)` pairs listed bullet by bullet,
/// with only the first enemy of each bullet kept.
pub open spec fn first_per_bullet(hits: Seq<(usize, usize)>) -> Seq<(usize, usize)>
    decreases hits.len(),
{
    if hits.len() == 0 {
        hits
    } else {
        let d = first_per_bullet(hits.drop_last());
        if hits.len() >= 2 && hits[hits.len() - 2].0 == hits.last().0 {
            d
        } else {
            d.push(hits.last())
        }
    }
}

/// The bullets of the hits never go down.
pub open spec fn by_bullet(hits: Seq<(usize, usize)>) -> bool {
    forall|i: int, j: int| 0 <= i < j < hits.len() ==> #[trigger] hits[i].0 <= #[trigger] hits[j].0
}

proof fn lemma_first_per_bullet(hits: Seq<(usize, usize)>)
    requires
        by_bullet(hits),
    ensures
        hits.len() > 0 ==> first_per_bullet(hits).len() > 0 && first_per_bullet(hits).last().0
            == hits.last().0,
        forall|i: int, j: int|
            0 <= i < j < first_per_bullet(hits).len() ==> #[trigger] first_per_bullet(hits)[i].0
                < #[trigger] first_per_bullet(hits)[j].0,
    decreases hits.len(),
{
    if hits.len() > 0 {
        let t = hits.drop_last();
        assert(by_bullet(t)) by {
            assert forall|i: int, j: int| 0 <= i < j < t.len() implies #[trigger] t[i].0 <= #[trigger] t[j].0 by {
                assert(t[i] == hits[i] && t[j] == hits[j]);
            }
        }
        lemma_first_per_bullet(t);
        let d = first_per_bullet(t);
        if hits.len() >= 2 {
            assert(t.last() == hits[hits.len() - 2]);
            assert(hits[hits.len() - 2].0 <= hits[hits.len() - 1].0);
        }
        if !(hits.len() >= 2 && hits[hits.len() - 2].0 == hits.last().0) {
            let e = d.push(hits.last());
            assert forall|i: int, j: int| 0 <= i < j < e.len() implies #[trigger] e[i].0 < #[trigger] e[j].0 by {
                if j == d.len() {
                    assert(e[i] == d[i]);
                    if i < d.len() - 1 {
                        assert(d[i].0 < d[d.len() - 1].0);
                    }
                } else {
                    assert(e[i] == d[i] && e[j] == d[j]);
                }
            }
        }
    }
}

/// The kills of a frame, in the order they are carried out: each bullet
/// once, with the first enemy it hit, the highest bullet first (so that
/// removing bullets one after the other keeps the rest in place). `hits`
/// lists the pairs bullet by bullet, as the frame finds them.
pub fn kill_order(hits: &Vec<(usize, usize)>) -> (r: Vec<(usize, usize)>)
    requires
        by_bullet(hits@),
    ensures
        r@.len() == first_per_bullet(hits@).len(),
        forall|i: int|
            0 <= i < r@.len() ==> #[trigger] r@[i] == first_per_bullet(hits@)[r@.len() - 1 - i],
        forall|i: int, j: int| 0 <= i < j < r@.len() ==> #[trigger] r@[i].0 > #[trigger] r@[j].0,
{
    let mut firsts: Vec<(usize, usize)> = Vec::new();
    let mut k: usize = 0;
    assert(hits@.take(0) =~= Seq::<(usize, usize)>::empty());
    while k < hits.len()
        invariant
            k <= hits@.len(),
            firsts@ == first_per_bullet(hits@.take(k as int)),
        decreases hits@.len() - k,
    {
        let ghost t = hits@.take(k + 1);
        assert(t.drop_last() =~= hits@.take(k as int));
        assert(t.last() == hits@[k as int]);
        if k > 0 {
            assert(t[t.len() - 2] == hits@[k - 1]);
        }
        if k > 0 && hits[k - 1].0 == hits[k].0 {
        } else {
            firsts.push(hits[k]);
        }
        k = k + 1;
    }
    assert(hits@.take(hits@.len() as int) =~= hits@);
    proof {
        lemma_first_per_bullet(hits@);
    }
    let ghost f = firsts@;
    let n = firsts.len();
    let mut r: Vec<(usize, usize)> = Vec::new();
    let mut j: usize = 0;
    while j < n
        invariant
            j <= n,
            n == f.len(),
            f == firsts@,
            r@.len() == j,
            forall|i: int| 0 <= i < j ==> #[trigger] r@[i] == f[n - 1 - i],
        decreases n - j,
    {
        r.push(firsts[n - 1 - j]);
        j = j + 1;
    }
    assert forall|a: int, b: int| 0 <= a < b < r@.len() implies #[trigger] r@[a].0 > #[trigger] r@[b].0 by {
        assert(r@[a] == f[n - 1 - a]);
        assert(r@[b] == f[n - 1 - b]);
    }
    r
}

} // verus!
