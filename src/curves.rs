use vstd::prelude::*;

verus! {

/// Fewest entries in a curve.
pub const MIN_CURVE_LEN: usize = 3;

/// Most entries in a curve.
pub const MAX_CURVE_LEN: usize = 64;

/// Largest value a curve entry may take.
pub const MAX_CURVE_VALUE: i64 = 1000;

/// Horizontal speed factor on the ground.
pub const MOVE_FACTOR: i64 = 3;

/// Horizontal speed factor in the air (the ground factor divided by 1.5).
pub const AIR_MOVE_FACTOR: i64 = 2;

/// Speed factor of the brake curve.
pub const BRAKE_FACTOR: i64 = 5;

/// Vertical factor of the ascent curve.
pub const JUMP_UP_FACTOR: i64 = 14;

/// Vertical factor of the ascent curve while crouched.
pub const CROUCHED_JUMP_UP_FACTOR: i64 = 7;

/// Vertical factor of the descent curve.
pub const JUMP_DOWN_FACTOR: i64 = 12;

/// Horizontal drift factor while falling.
pub const DRIFT_FACTOR: i64 = 2;

/// Mathematical view of the four curves.
pub ghost struct CurveSet {
    pub move_speed: Seq<i64>,
    pub brake: Seq<i64>,
    pub jump_up: Seq<i64>,
    pub jump_down: Seq<i64>,
}

/// A curve of acceptable length whose entries are all positive and bounded.
pub open spec fn curve_ok(c: Seq<i64>) -> bool {
    &&& MIN_CURVE_LEN <= c.len() <= MAX_CURVE_LEN
    &&& forall|i: int| 0 <= i < c.len() ==> 1 <= #[trigger] c[i] <= MAX_CURVE_VALUE
}

/// The tuned tables of the game.
pub open spec fn standard_curves() -> CurveSet {
    CurveSet {
        move_speed: seq![1i64, 1, 2, 3, 5, 8, 13, 21],
        brake: seq![21i64, 13, 8, 5, 3, 2, 1, 1],
        jump_up: seq![8i64, 16, 13, 10, 8, 7, 6, 5, 4, 3, 2, 1],
        jump_down: seq![1i64, 1, 2, 3, 8, 10],
    }
}

impl CurveSet {
    pub open spec fn wf(self) -> bool {
        &&& curve_ok(self.move_speed)
        &&& curve_ok(self.brake)
        &&& curve_ok(self.jump_up)
        &&& curve_ok(self.jump_down)
    }
}

/// The lookup tables that shape acceleration: a speed for each step index.
pub struct Curves {
    move_speed: Vec<i64>,
    brake: Vec<i64>,
    jump_up: Vec<i64>,
    jump_down: Vec<i64>,
}

impl View for Curves {
    type V = CurveSet;

    closed spec fn view(&self) -> CurveSet {
        CurveSet {
            move_speed: self.move_speed@,
            brake: self.brake@,
            jump_up: self.jump_up@,
            jump_down: self.jump_down@,
        }
    }
}

fn check_curve(c: &Vec<i64>) -> (r: bool)
    ensures
        r == curve_ok(c@),
{
    if c.len() < MIN_CURVE_LEN || c.len() > MAX_CURVE_LEN {
        return false;
    }
    let mut i: usize = 0;
    while i < c.len()
        invariant
            0 <= i <= c.len(),
            forall|j: int| 0 <= j < i ==> 1 <= #[trigger] c@[j] <= MAX_CURVE_VALUE,
        decreases c.len() - i,
    {
        if c[i] < 1 || c[i] > MAX_CURVE_VALUE {
            return false;
        }
        i = i + 1;
    }
    true
}

impl Curves {
    #[verifier::type_invariant]
    spec fn inv(self) -> bool {
        self@.wf()
    }

    /// Curves from four tables; `None` unless each has between
    /// `MIN_CURVE_LEN` and `MAX_CURVE_LEN` entries, all in `1..=MAX_CURVE_VALUE`.
    pub fn new(move_speed: Vec<i64>, brake: Vec<i64>, jump_up: Vec<i64>, jump_down: Vec<i64>) -> (r:
        Option<Curves>)
        ensures
            r is Some <==> (curve_ok(move_speed@) && curve_ok(brake@) && curve_ok(jump_up@)
                && curve_ok(jump_down@)),
            r matches Some(c) ==> c@ == (CurveSet {
                move_speed: move_speed@,
                brake: brake@,
                jump_up: jump_up@,
                jump_down: jump_down@,
            }),
    {
        if check_curve(&move_speed) && check_curve(&brake) && check_curve(&jump_up) && check_curve(
            &jump_down,
        ) {
            Some(Curves { move_speed, brake, jump_up, jump_down })
        } else {
            None
        }
    }

    /// The tuned tables of the game.
    pub fn standard() -> (r: Curves)
        ensures
            r@ == standard_curves(),
    {
        let move_speed: Vec<i64> = vec![1, 1, 2, 3, 5, 8, 13, 21];
        let brake: Vec<i64> = vec![21, 13, 8, 5, 3, 2, 1, 1];
        let jump_up: Vec<i64> = vec![8, 16, 13, 10, 8, 7, 6, 5, 4, 3, 2, 1];
        let jump_down: Vec<i64> = vec![1, 1, 2, 3, 8, 10];
        assert(move_speed@ =~= seq![1i64, 1, 2, 3, 5, 8, 13, 21]);
        assert(brake@ =~= seq![21i64, 13, 8, 5, 3, 2, 1, 1]);
        assert(jump_up@ =~= seq![8i64, 16, 13, 10, 8, 7, 6, 5, 4, 3, 2, 1]);
        assert(jump_down@ =~= seq![1i64, 1, 2, 3, 8, 10]);
        Curves { move_speed, brake, jump_up, jump_down }
    }

    /// Every curve set is well formed.
    pub(crate) fn well_formed(&self) -> (r: bool)
        ensures
            r,
            self@.wf(),
    {
        proof {
            use_type_invariant(self);
        }
        true
    }

    /// Number of entries of the move-speed curve.
    pub fn move_speed_len(&self) -> (r: usize)
        ensures
            r == self@.move_speed.len(),
    {
        self.move_speed.len()
    }

    /// Number of entries of the brake curve.
    pub fn brake_len(&self) -> (r: usize)
        ensures
            r == self@.brake.len(),
    {
        self.brake.len()
    }

    /// Number of entries of the ascent curve.
    pub fn jump_up_len(&self) -> (r: usize)
        ensures
            r == self@.jump_up.len(),
    {
        self.jump_up.len()
    }

    /// Number of entries of the descent curve.
    pub fn jump_down_len(&self) -> (r: usize)
        ensures
            r == self@.jump_down.len(),
    {
        self.jump_down.len()
    }

    /// Entry `i` of the move-speed curve.
    pub fn move_speed_at(&self, i: usize) -> (r: i64)
        requires
            i < self@.move_speed.len(),
        ensures
            r == self@.move_speed[i as int],
    {
        self.move_speed[i]
    }

    /// Entry `i` of the brake curve.
    pub fn brake_at(&self, i: usize) -> (r: i64)
        requires
            i < self@.brake.len(),
        ensures
            r == self@.brake[i as int],
    {
        self.brake[i]
    }

    /// Entry `i` of the ascent curve.
    pub fn jump_up_at(&self, i: usize) -> (r: i64)
        requires
            i < self@.jump_up.len(),
        ensures
            r == self@.jump_up[i as int],
    {
        self.jump_up[i]
    }

    /// Entry `i` of the descent curve.
    pub fn jump_down_at(&self, i: usize) -> (r: i64)
        requires
            i < self@.jump_down.len(),
        ensures
            r == self@.jump_down[i as int],
    {
        self.jump_down[i]
    }
}

} // verus!
