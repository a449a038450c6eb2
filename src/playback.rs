use vstd::prelude::*;

use crate::animation::{
    anim_at, anim_index, frame_count, frame_duration, frame_duration_us, frame_tile, frame_tiles,
    frames_in, index_of, AnimState, ANIM_COUNT,
};

verus! {

/// Where an animation is in its playing: its frame, the time spent on that
/// frame, and whether it starts over after the last frame.
#[derive(Clone, Copy, Debug, PartialEq, Eq, Structural)]
pub struct Playback {
    pub frame: usize,
    pub elapsed_us: u64,
    pub repeating: bool,
}

/// A playback that fits the frames of animation `a`.
pub open spec fn playback_ok(pb: Playback, a: AnimState) -> bool {
    pb.frame < frame_count(a) && pb.elapsed_us <= frame_duration(a, pb.frame as int)
}

/// A playback at its first frame that loops.
pub open spec fn fresh() -> Playback {
    Playback { frame: 0, elapsed_us: 0, repeating: true }
}

/// `pb` after `dt` more microseconds of animation `a`: the frame moves on once
/// its time is spent; after the last frame a looping playback starts over and
/// any other one stays at the end.
pub open spec fn advanced(pb: Playback, a: AnimState, dt: u64) -> Playback {
    let d = frame_duration(a, pb.frame as int);
    let e = if dt >= d - pb.elapsed_us { d } else { (pb.elapsed_us + dt) as u64 };
    if e >= d {
        if pb.frame + 1 < frame_count(a) {
            Playback { frame: (pb.frame + 1) as usize, elapsed_us: 0, ..pb }
        } else if pb.repeating {
            Playback { frame: 0, elapsed_us: 0, ..pb }
        } else {
            Playback { elapsed_us: d, ..pb }
        }
    } else {
        Playback { elapsed_us: e, ..pb }
    }
}

/// A one-shot playback that has shown the whole of its last frame.
pub open spec fn finished(pb: Playback, a: AnimState) -> bool {
    &&& !pb.repeating
    &&& pb.frame == frame_count(a) - 1
    &&& pb.elapsed_us >= frame_duration(a, pb.frame as int)
}

/// `pb` back at its first frame, keeping its repeat flag.
pub open spec fn rewound(pb: Playback) -> Playback {
    Playback { frame: 0, elapsed_us: 0, ..pb }
}

/// The playback of animation `a` in registry contents `s`.
pub open spec fn entry(s: Seq<Playback>, a: AnimState) -> Playback {
    s[anim_index(a)]
}

/// Registry contents after moving from animation `old` to `new`: the old one
/// is rewound and stops looping, the new one loops.
pub open spec fn transitioned(s: Seq<Playback>, old: AnimState, new: AnimState) -> Seq<Playback> {
    if old == new {
        s
    } else {
        let s1 = s.update(
            anim_index(old),
            Playback { frame: 0, elapsed_us: 0, repeating: false },
        );
        s1.update(anim_index(new), Playback { repeating: true, ..s1[anim_index(new)] })
    }
}

/// The playing state of every animation.
pub struct Animations {
    playbacks: Vec<Playback>,
}

impl View for Animations {
    type V = Seq<Playback>;

    closed spec fn view(&self) -> Seq<Playback> {
        self.playbacks@
    }
}

/// Registry contents with one playback per animation, each fitting its frames.
pub open spec fn registry_ok(s: Seq<Playback>) -> bool {
    &&& s.len() == ANIM_COUNT
    &&& forall|i: int| 0 <= i < ANIM_COUNT ==> playback_ok(#[trigger] s[i], anim_at(i))
}

impl Animations {

    /// Every animation at its first frame, looping.
    pub fn new() -> (r: Animations)
        ensures
            r@ == Seq::new(ANIM_COUNT as nat, |i: int| fresh()),
            registry_ok(r@),
    {
        let mut playbacks: Vec<Playback> = Vec::new();
        let mut i: usize = 0;
        while i < ANIM_COUNT
            invariant
                0 <= i <= ANIM_COUNT,
                playbacks@ == Seq::new(i as nat, |j: int| fresh()),
            decreases ANIM_COUNT - i,
        {
            playbacks.push(Playback { frame: 0, elapsed_us: 0, repeating: true });
            i = i + 1;
            assert(playbacks@ =~= Seq::new(i as nat, |j: int| fresh()));
        }
        Animations { playbacks }
    }

    /// The playback of animation `a`.
    pub fn playback(&self, a: AnimState) -> (r: Playback)
        requires
            registry_ok(self@),
        ensures
            r == entry(self@, a),
    {
        self.playbacks[index_of(a)]
    }

    /// Sprite tile that animation `a` shows now.
    pub fn current_tile(&self, a: AnimState) -> (r: u32)
        requires
            registry_ok(self@),
        ensures
            r == frame_tiles(a)[entry(self@, a).frame as int],
    {
        let i = index_of(a);
        frame_tile(a, self.playbacks[i].frame)
    }

    /// Plays animation `a` for `dt` more microseconds.
    pub fn advance(&mut self, a: AnimState, dt: u64)
        requires
            registry_ok(old(self)@),
        ensures
            registry_ok(final(self)@),
            final(self)@ == old(self)@.update(anim_index(a), advanced(entry(old(self)@, a), a, dt)),
    {
        let i = index_of(a);
        let pb = self.playbacks[i];
        let d = frame_duration_us(a, pb.frame);
        let e = if dt >= d - pb.elapsed_us {
            d
        } else {
            pb.elapsed_us + dt
        };
        let next = if e >= d {
            if pb.frame + 1 < frames_in(a) {
                Playback { frame: pb.frame + 1, elapsed_us: 0, ..pb }
            } else if pb.repeating {
                Playback { frame: 0, elapsed_us: 0, ..pb }
            } else {
                Playback { elapsed_us: d, ..pb }
            }
        } else {
            Playback { elapsed_us: e, ..pb }
        };
        self.playbacks.set(i, next);
        proof {
            assert forall|j: int| 0 <= j < ANIM_COUNT implies playback_ok(
                #[trigger] self.playbacks@[j],
                anim_at(j),
            ) by {
                if j != i {
                    assert(self.playbacks@[j] == old(self).playbacks@[j]);
                }
            }
        }
    }

    /// Whether animation `a` is a one-shot that has played to its end.
    pub fn finish(&self, a: AnimState) -> (r: bool)
        requires
            registry_ok(self@),
        ensures
            r == finished(entry(self@, a), a),
    {
        let pb = self.playbacks[index_of(a)];
        !pb.repeating && pb.frame + 1 == frames_in(a) && pb.elapsed_us >= frame_duration_us(
            a,
            pb.frame,
        )
    }

    /// Makes animation `a` loop or play once.
    pub fn set_repeating(&mut self, a: AnimState, repeating: bool)
        requires
            registry_ok(old(self)@),
        ensures
            registry_ok(final(self)@),
            final(self)@ == old(self)@.update(
                anim_index(a),
                Playback { repeating, ..entry(old(self)@, a) },
            ),
    {
        let i = index_of(a);
        let pb = self.playbacks[i];
        self.playbacks.set(i, Playback { repeating, ..pb });
        proof {
            assert forall|j: int| 0 <= j < ANIM_COUNT implies playback_ok(
                #[trigger] self.playbacks@[j],
                anim_at(j),
            ) by {
                if j != i {
                    assert(self.playbacks@[j] == old(self).playbacks@[j]);
                }
            }
        }
    }

    /// Rewinds animation `a` to its first frame.
    pub fn reset(&mut self, a: AnimState)
        requires
            registry_ok(old(self)@),
        ensures
            registry_ok(final(self)@),
            final(self)@ == old(self)@.update(anim_index(a), rewound(entry(old(self)@, a))),
    {
        let i = index_of(a);
        let pb = self.playbacks[i];
        self.playbacks.set(i, Playback { frame: 0, elapsed_us: 0, ..pb });
        proof {
            assert forall|j: int| 0 <= j < ANIM_COUNT implies playback_ok(
                #[trigger] self.playbacks@[j],
                anim_at(j),
            ) by {
                if j != i {
                    assert(self.playbacks@[j] == old(self).playbacks@[j]);
                }
            }
        }
    }

    /// Rewinds every animation.
    pub fn reset_all(&mut self)
        requires
            registry_ok(old(self)@),
        ensures
            registry_ok(final(self)@),
            final(self)@ == old(self)@.map_values(|pb: Playback| rewound(pb)),
    {
        let ghost start = self.playbacks@;
        let mut i: usize = 0;
        while i < self.playbacks.len()
            invariant
                0 <= i <= ANIM_COUNT,
                start.len() == ANIM_COUNT,
                self.playbacks@.len() == ANIM_COUNT,
                forall|j: int| 0 <= j < i ==> #[trigger] self.playbacks@[j] == rewound(start[j]),
                forall|j: int| i <= j < ANIM_COUNT ==> #[trigger] self.playbacks@[j] == start[j],
                forall|j: int| 0 <= j < ANIM_COUNT ==> playback_ok(#[trigger] start[j], anim_at(j)),
            decreases ANIM_COUNT - i,
        {
            let pb = self.playbacks[i];
            self.playbacks.set(i, Playback { frame: 0, elapsed_us: 0, ..pb });
            i = i + 1;
        }
        assert(self.playbacks@ =~= start.map_values(|pb: Playback| rewound(pb)));
    }

    /// Moves from animation `from` to `to`: when they differ, `from` is rewound
    /// and stops looping and `to` loops.
    pub fn transition(&mut self, from: AnimState, to: AnimState)
        requires
            registry_ok(old(self)@),
        ensures
            registry_ok(final(self)@),
            final(self)@ == transitioned(old(self)@, from, to),
    {
        if from == to {
            return;
        }
        let i = index_of(from);
        let k = index_of(to);
        self.playbacks.set(i, Playback { frame: 0, elapsed_us: 0, repeating: false });
        let pb = self.playbacks[k];
        self.playbacks.set(k, Playback { repeating: true, ..pb });
        proof {
            assert forall|j: int| 0 <= j < ANIM_COUNT implies playback_ok(
                #[trigger] self.playbacks@[j],
                anim_at(j),
            ) by {
                if j != i && j != k {
                    assert(self.playbacks@[j] == old(self).playbacks@[j]);
                }
            }
        }
    }
}

} // verus!
