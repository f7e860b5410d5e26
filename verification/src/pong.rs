//! The rules and the wire format of two-player Pong over UDP: scoring to
//! eleven, the 25-byte state packet and what a received packet changes, and
//! finding this machine's address on the mesh network.
//!
//! The ball and paddle positions are fractional; the game loop turns them
//! into their four little-endian bytes and back.
use vstd::prelude::*;

use crate::text::{
    chars_of, slice_chars, string_from_chars, trim, trim_chars,
    white_space, is_whitespace, words, words_from,
};

verus! {

/// Which side this player is on: the host plays left and moves the ball.
#[derive(PartialEq, Eq, Structural, Clone, Copy, Debug)]
pub enum PongRole {
    Host,
    Client,
}

/// The UDP port of the game.
pub const PONG_PORT: u16 = 9999;

/// Points that win the game.
pub const WIN_SCORE: u8 = 11;

/// A side scores with `score` points: it has one more, and has won at eleven.
pub fn point_scored(score: u8) -> (r: (u8, bool))
    requires
        score < 255,
    ensures
        r.0 == score + 1,
        r.1 == (score + 1 >= 11),
{
    let s = score + 1;
    (s, s >= WIN_SCORE)
}

/// The game state as it travels: the paddles and the ball as the bytes of
/// their values, the scores, whether play is on, and the winner (1 left,
/// 2 right).
#[derive(Clone, Copy, Debug)]
pub struct PongWire {
    pub paddle_left: [u8; 4],
    pub paddle_right: [u8; 4],
    pub ball_x: [u8; 4],
    pub ball_y: [u8; 4],
    pub ball_dx: [u8; 4],
    pub ball_dy: [u8; 4],
    pub score_left: u8,
    pub score_right: u8,
    pub game_active: bool,
    pub winner: Option<u8>,
}

/// The packet `role` sends: its own paddle, the ball position and speed, the
/// two scores, 1 when play is on and nobody has won (else 0), the winner (0
/// for none), and a spare zero byte.
pub open spec fn packet_of(role: PongRole, w: PongWire) -> Seq<u8> {
    let paddle = match role {
        PongRole::Host => w.paddle_left,
        PongRole::Client => w.paddle_right,
    };
    paddle@ + w.ball_x@ + w.ball_y@ + w.ball_dx@ + w.ball_dy@ + seq![
        w.score_left,
        w.score_right,
        if w.game_active && w.winner is None {
            1u8
        } else {
            0u8
        },
        match w.winner {
            Some(x) => x,
            None => 0u8,
        },
        0u8,
    ]
}

fn push4(out: &mut Vec<u8>, b: [u8; 4])
    ensures
        final(out)@ == old(out)@ + b@,
{
    out.push(b[0]);
    out.push(b[1]);
    out.push(b[2]);
    out.push(b[3]);
    assert(final(out)@ =~= old(out)@ + b@);
}

/// The 25 bytes that `role` sends for the state `w`.
pub fn outgoing_packet(role: PongRole, w: &PongWire) -> (p: Vec<u8>)
    ensures
        p@ == packet_of(role, *w),
        p@.len() == 25,
{
    let mut p: Vec<u8> = Vec::new();
    let paddle = match role {
        PongRole::Host => w.paddle_left,
        PongRole::Client => w.paddle_right,
    };
    push4(&mut p, paddle);
    push4(&mut p, w.ball_x);
    push4(&mut p, w.ball_y);
    push4(&mut p, w.ball_dx);
    push4(&mut p, w.ball_dy);
    p.push(w.score_left);
    p.push(w.score_right);
    p.push(
        if w.game_active && w.winner.is_none() {
            1
        } else {
            0
        },
    );
    p.push(
        match w.winner {
            Some(x) => x,
            None => 0,
        },
    );
    p.push(0);
    assert(p@ =~= packet_of(role, *w));
    p
}

/// What a received packet changes.
#[derive(Clone, Copy, Debug)]
pub enum Incoming {
    /// The host's first packet from the client: the client is now the peer and
    /// play starts.
    Connected,
    /// Too short to use.
    Ignored,
    /// The client's paddle (for the host's right side).
    Paddle([u8; 4]),
    /// The host's whole state (for the client): left paddle, ball, scores,
    /// whether play is on, and the winner when the packet names one.
    State {
        paddle: [u8; 4],
        ball_x: [u8; 4],
        ball_y: [u8; 4],
        ball_dx: [u8; 4],
        ball_dy: [u8; 4],
        score_left: u8,
        score_right: u8,
        game_active: bool,
        winner: Option<u8>,
    },
}

/// Bytes `k..k + 4` of `buf`.
pub open spec fn four(buf: Seq<u8>, k: int) -> Seq<u8> {
    buf.subrange(k, k + 4)
}

fn take4(buf: &Vec<u8>, k: usize) -> (b: [u8; 4])
    requires
        k + 4 <= buf@.len(),
    ensures
        b@ == four(buf@, k as int),
{
    let _n = buf.len();
    let b = [buf[k], buf[k + 1], buf[k + 2], buf[k + 3]];
    assert(b@ =~= four(buf@, k as int));
    b
}

/// Reads the first `n` bytes of `buf` received by `role` (`waiting`: the host
/// still waits for its opponent). The first packet the waiting host gets
/// connects the client; a packet under 23 bytes is ignored; the host takes
/// the client's paddle from the first four bytes; the client takes the whole
/// state, and the winner from byte 23 when there are 24 bytes and it is not 0.
pub fn incoming(role: PongRole, waiting: bool, buf: &Vec<u8>, n: usize) -> (r: Incoming)
    requires
        buf@.len() >= 25,
        n <= buf@.len(),
    ensures
        if waiting && role == PongRole::Host {
            r matches Incoming::Connected
        } else if n < 23 {
            r matches Incoming::Ignored
        } else if role == PongRole::Host {
            r matches Incoming::Paddle(p) && p@ == four(buf@, 0)
        } else {
            r matches Incoming::State {
                paddle,
                ball_x,
                ball_y,
                ball_dx,
                ball_dy,
                score_left,
                score_right,
                game_active,
                winner,
            } && paddle@ == four(buf@, 0) && ball_x@ == four(buf@, 4) && ball_y@ == four(buf@, 8)
                && ball_dx@ == four(buf@, 12) && ball_dy@ == four(buf@, 16) && score_left
                == buf@[20] && score_right == buf@[21] && game_active == (buf@[22] != 0) && winner
                == if n >= 24 && buf@[23] != 0 {
                Some(buf@[23])
            } else {
                None
            }
        },
{
    if waiting && role == PongRole::Host {
        return Incoming::Connected;
    }
    if n < 23 {
        return Incoming::Ignored;
    }
    match role {
        PongRole::Host => Incoming::Paddle(take4(buf, 0)),
        PongRole::Client => Incoming::State {
            paddle: take4(buf, 0),
            ball_x: take4(buf, 4),
            ball_y: take4(buf, 8),
            ball_dx: take4(buf, 12),
            ball_dy: take4(buf, 16),
            score_left: buf[20],
            score_right: buf[21],
            game_active: buf[22] != 0,
            winner: if n >= 24 && buf[23] != 0 {
                Some(buf[23])
            } else {
                None
            },
        },
    }
}

/// `line` without the `'\r'` that ends it, if any.
pub open spec fn strip_cr(line: Seq<char>) -> Seq<char> {
    if line.len() > 0 && line.last() == '\r' {
        line.drop_last()
    } else {
        line
    }
}

/// The lines of `s` with `cur` the start of the first, as `str::lines` gives
/// them: split at `'\n'`, a `'\r'` before it dropped, and no empty line after
/// a final `'\n'`.
pub open spec fn lines_from(s: Seq<char>, cur: Seq<char>) -> Seq<Seq<char>>
    decreases s.len(),
{
    if s.len() == 0 {
        if cur.len() > 0 {
            seq![cur]
        } else {
            Seq::empty()
        }
    } else if s[0] == '\n' {
        seq![strip_cr(cur)] + lines_from(s.drop_first(), Seq::empty())
    } else {
        lines_from(s.drop_first(), cur.push(s[0]))
    }
}

/// What comes before the first `'/'` of `w`.
pub open spec fn before_slash(w: Seq<char>, i: int) -> Seq<char>
    decreases w.len() - i,
{
    if i >= w.len() {
        w
    } else if w[i] == '/' {
        w.take(i)
    } else {
        before_slash(w, i + 1)
    }
}

/// The address is on the mesh network: it starts with `10.254.`.
pub open spec fn on_mesh(ip: Seq<char>) -> bool {
    ip.len() >= 7 && ip.take(7) == "10.254."@
}

/// A line of `ip addr` output that gives a mesh address: once trimmed it
/// starts with `inet ` and its second word, up to a `'/'`, is an address on
/// the mesh.
pub open spec fn mesh_line(line: Seq<char>) -> bool {
    let t = trim(line);
    t.len() >= 5 && t.take(5) == "inet "@ && words(t).len() >= 2 && on_mesh(
        before_slash(words(t)[1], 0),
    )
}

/// The first address that `mesh_ip_of` finds is on the mesh.
pub proof fn lemma_mesh_ip_on_mesh(lines: Seq<Seq<char>>)
    ensures
        mesh_ip_of(lines) matches Some(ip) ==> on_mesh(ip),
    decreases lines.len(),
{
    if lines.len() > 0 && !mesh_line(lines[0]) {
        lemma_mesh_ip_on_mesh(lines.drop_first());
    }
}

/// The mesh address of the first line that gives one: its second word up
/// to a `'/'`.
pub open spec fn mesh_ip_of(lines: Seq<Seq<char>>) -> Option<Seq<char>>
    decreases lines.len(),
{
    if lines.len() == 0 {
        None
    } else if mesh_line(lines[0]) {
        Some(before_slash(words(trim(lines[0]))[1], 0))
    } else {
        mesh_ip_of(lines.drop_first())
    }
}

fn split_lines(v: &Vec<char>) -> (r: Vec<Vec<char>>)
    ensures
        r.deep_view() == lines_from(v@, Seq::empty()),
{
    let mut r: Vec<Vec<char>> = Vec::new();
    let mut cur: Vec<char> = Vec::new();
    let mut i: usize = 0;
    assert(v@.skip(0) =~= v@);
    while i < v.len()
        invariant
            i <= v@.len(),
            lines_from(v@, Seq::empty()) == r.deep_view() + lines_from(v@.skip(i as int), cur@),
        decreases v@.len() - i,
    {
        let c = v[i];
        assert(v@.skip(i as int)[0] == c);
        assert(v@.skip(i as int).drop_first() =~= v@.skip(i + 1));
        if c == '\n' {
            if cur.len() > 0 && cur[cur.len() - 1] == '\r' {
                cur.pop();
            }
            let ghost before = r.deep_view();
            r.push(cur);
            assert(r.deep_view() =~~= before.push(r@[r@.len() - 1]@));
            cur = Vec::new();
            assert(r.deep_view() + lines_from(v@.skip(i + 1), cur@) =~= before + (seq![
                r@[r@.len() - 1]@,
            ] + lines_from(v@.skip(i + 1), Seq::empty())));
        } else {
            cur.push(c);
        }
        i = i + 1;
    }
    assert(v@.skip(i as int) =~= Seq::<char>::empty());
    if cur.len() > 0 {
        let ghost before = r.deep_view();
        let ghost last = cur@;
        r.push(cur);
        assert(r.deep_view() =~~= before.push(last));
        assert(before + seq![last] =~= before.push(last));
    } else {
        assert(r.deep_view() + Seq::<Seq<char>>::empty() =~= r.deep_view());
    }
    r
}

fn word_list(v: &Vec<char>) -> (r: Vec<Vec<char>>)
    ensures
        r.deep_view() == words(v@),
{
    let mut r: Vec<Vec<char>> = Vec::new();
    let mut cur: Vec<char> = Vec::new();
    let mut i: usize = 0;
    assert(v@.skip(0) =~= v@);
    while i < v.len()
        invariant
            i <= v@.len(),
            words(v@) == r.deep_view() + words_from(v@.skip(i as int), cur@),
        decreases v@.len() - i,
    {
        let c = v[i];
        assert(v@.skip(i as int)[0] == c);
        assert(v@.skip(i as int).drop_first() =~= v@.skip(i + 1));
        if is_whitespace(c) {
            if cur.len() > 0 {
                let ghost before = r.deep_view();
                let ghost w = cur@;
                r.push(cur);
                assert(r.deep_view() =~~= before.push(w));
                assert(r.deep_view() + words_from(v@.skip(i + 1), Seq::empty()) =~= before + (seq![
                    w,
                ] + words_from(v@.skip(i + 1), Seq::empty())));
            }
            cur = Vec::new();
            assert(cur@ =~= Seq::<char>::empty());
        } else {
            cur.push(c);
        }
        i = i + 1;
    }
    assert(v@.skip(i as int) =~= Seq::<char>::empty());
    if cur.len() > 0 {
        let ghost before = r.deep_view();
        let ghost w = cur@;
        r.push(cur);
        assert(r.deep_view() =~~= before.push(w));
        assert(before + seq![w] =~= before.push(w));
    } else {
        assert(r.deep_view() + Seq::<Seq<char>>::empty() =~= r.deep_view());
    }
    r
}

fn first_slash(w: &Vec<char>) -> (k: usize)
    ensures
        k <= w@.len(),
        before_slash(w@, 0) == w@.take(k as int),
{
    let mut k: usize = 0;
    while k < w.len() && w[k] != '/'
        invariant
            k <= w@.len(),
            before_slash(w@, 0) == before_slash(w@, k as int),
        decreases w@.len() - k,
    {
        k = k + 1;
    }
    if k == w.len() {
        assert(w@.take(k as int) =~= w@);
    }
    k
}

/// The mesh address (`10.254.*`) named in the output of `ip addr show`: the
/// address, without its prefix length, of the first `inet` line whose
/// address is on the mesh.
pub fn mesh_ip_in(output: &str) -> (r: Option<String>)
    ensures
        match mesh_ip_of(lines_from(output@, Seq::empty())) {
            Some(ip) => r matches Some(s) && s@ == ip,
            None => r is None,
        },
        r matches Some(s) ==> on_mesh(s@),
{
    proof {
        lemma_mesh_ip_on_mesh(lines_from(output@, Seq::empty()));
    }
    let v = chars_of(output);
    let lines = split_lines(&v);
    let ghost all = lines.deep_view();
    let inet = chars_of("inet ");
    proof {
        reveal_strlit("inet ");
    }
    let mut i: usize = 0;
    assert(all.skip(0) =~= all);
    while i < lines.len()
        invariant
            i <= lines@.len(),
            all == lines.deep_view(),
            all == lines_from(output@, Seq::empty()),
            inet@ == "inet "@,
            inet@.len() == 5,
            mesh_ip_of(all) == mesh_ip_of(all.skip(i as int)),
        decreases lines@.len() - i,
    {
        let ghost rest = all.skip(i as int);
        assert(rest[0] == lines@[i as int]@);
        assert(rest.drop_first() =~= all.skip(i + 1));
        let t = trim_chars(&lines[i]);
        let starts = t.len() >= 5 && t[0] == inet[0] && t[1] == inet[1] && t[2] == inet[2]
            && t[3] == inet[3] && t[4] == inet[4];
        assert(starts == (t@.len() >= 5 && t@.take(5) == "inet "@)) by {
            if t@.len() >= 5 && t@.take(5) == "inet "@ {
                assert(t@.take(5)[0] == t@[0]);
                assert(t@.take(5)[1] == t@[1]);
                assert(t@.take(5)[2] == t@[2]);
                assert(t@.take(5)[3] == t@[3]);
                assert(t@.take(5)[4] == t@[4]);
            }
            if starts {
                assert(t@.take(5) =~= inet@);
            }
        }
        if starts {
            let ws = word_list(&t);
            if ws.len() >= 2 {
                assert(ws@[1]@ == words(t@)[1]);
                let k = first_slash(&ws[1]);
                let ip = slice_chars(&ws[1], 0, k);
                assert(ip@ =~= ws@[1]@.take(k as int));
                assert(ws.deep_view().len() == ws@.len());
                let ip_text = string_from_chars(ip.as_slice());
                if is_mesh_ip(ip_text.as_str()) {
                    assert(mesh_line(rest[0]));
                    return Some(ip_text);
                }
                assert(!mesh_line(rest[0]));
            }
        }
        i = i + 1;
    }
    None
}

/// Whether `ip` is on the mesh network: it starts with `10.254.`.
pub fn is_mesh_ip(ip: &str) -> (b: bool)
    ensures
        b == on_mesh(ip@),
{
    let v = chars_of(ip);
    let p = chars_of("10.254.");
    proof {
        reveal_strlit("10.254.");
    }
    if v.len() < 7 {
        return false;
    }
    let mut k: usize = 0;
    while k < 7
        invariant
            k <= 7,
            v@.len() >= 7,
            p@ == "10.254."@,
            p@.len() == 7,
            v@ == ip@,
            forall|j: int| 0 <= j < k ==> v@[j] == p@[j],
        decreases 7 - k,
    {
        if v[k] != p[k] {
            assert(v@.take(7)[k as int] != p@[k as int]);
            return false;
        }
        k = k + 1;
    }
    assert(v@.take(7) =~= p@);
    true
}

} // verus!
