use vstd::prelude::*;

verus! {

broadcast use vstd::string::group_string_axioms;

/// A labelled rectangle that reacts to clicks. Coordinates are in half
/// pixels, so that a menu centred on a window of odd width keeps exact
/// positions.
#[derive(Clone, Debug)]
pub struct Button {
    pub label: String,
    pub x: i64,
    pub y: i64,
    pub w: i64,
    pub h: i64,
}

impl Button {
    /// Whether point (mx, my), in half pixels, lies on the button, its edges
    /// included.
    pub open spec fn covers(&self, mx: int, my: int) -> bool {
        self.x <= mx <= self.x + self.w && self.y <= my <= self.y + self.h
    }

    pub fn new(label: &str, x: i64, y: i64, w: i64, h: i64) -> (b: Self)
        ensures
            b.label@ == label@,
            b.x == x,
            b.y == y,
            b.w == w,
            b.h == h,
    {
        Button { label: label.to_string(), x, y, w, h }
    }

    /// Whether point (mx, my), in half pixels, lies on the button, its edges
    /// included.
    pub fn contains(&self, mx: i64, my: i64) -> (r: bool)
        ensures
            r == self.covers(mx as int, my as int),
    {
        let mx = mx as i128;
        let my = my as i128;
        mx >= self.x as i128 && mx <= self.x as i128 + self.w as i128 && my >= self.y as i128 && my
            <= self.y as i128 + self.h as i128
    }
}

/// The index of the first button from `i` on that covers (mx, my).
pub open spec fn first_covering(buttons: Seq<Button>, mx: int, my: int, i: int) -> Option<int>
    decreases buttons.len() - i,
{
    if i < 0 || i >= buttons.len() {
        None
    } else if buttons[i].covers(mx, my) {
        Some(i)
    } else {
        first_covering(buttons, mx, my, i + 1)
    }
}

/// The index of the first button that covers (mx, my), in half pixels.
pub(crate) fn first_hit(buttons: &Vec<Button>, mx: i64, my: i64) -> (r: Option<usize>)
    ensures
        r matches Some(i) ==> first_covering(buttons@, mx as int, my as int, 0) == Some(i as int),
        r is None ==> first_covering(buttons@, mx as int, my as int, 0) is None,
{
    let mut i: usize = 0;
    while i < buttons.len()
        invariant
            i <= buttons@.len(),
            first_covering(buttons@, mx as int, my as int, 0) == first_covering(
                buttons@,
                mx as int,
                my as int,
                i as int,
            ),
        decreases buttons@.len() - i,
    {
        if buttons[i].contains(mx, my) {
            return Some(i);
        }
        i = i + 1;
    }
    None
}

} // verus!
