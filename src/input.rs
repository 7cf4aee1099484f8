use vstd::prelude::*;

verus! {

/// Which keys are held down (or, for a second value of this type, were
/// pressed this frame).
#[derive(Clone, Copy, Debug, PartialEq, Eq, Structural)]
pub struct Keys {
    pub w: bool,
    pub up: bool,
    pub s: bool,
    pub down: bool,
    pub a: bool,
    pub left: bool,
    pub d: bool,
    pub right: bool,
    pub space: bool,
    pub q: bool,
    pub escape: bool,
}

impl Keys {
    /// No key at all.
    pub fn none() -> (r: Keys)
        ensures
            !r.w && !r.up && !r.s && !r.down && !r.a && !r.left && !r.d && !r.right,
            !r.space && !r.q && !r.escape,
    {
        Keys {
            w: false,
            up: false,
            s: false,
            down: false,
            a: false,
            left: false,
            d: false,
            right: false,
            space: false,
            q: false,
            escape: false,
        }
    }

    pub open spec fn up_held(self) -> bool {
        self.w || self.up
    }

    pub open spec fn down_held(self) -> bool {
        self.s || self.down
    }

    pub open spec fn left_held(self) -> bool {
        self.a || self.left
    }

    pub open spec fn right_held(self) -> bool {
        self.d || self.right
    }

    pub open spec fn quit_held(self) -> bool {
        self.q || self.escape
    }
}

} // verus!
