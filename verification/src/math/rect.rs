use crate::math;
use crate::math::num::{Max, Min, Num};
use crate::math::vec::{Vec2, Vec4, Vector};
use vstd::prelude::*;

verus! {

/// The intersection of two rectangles `[x_min, y_min, x_max, y_max]`: the
/// larger of the two lower corners and the smaller of the two upper corners.
pub fn min<T>(lhs: Vec4<T>, rhs: Vec4<T>) -> (r: Vec4<T>)
    where
        T: Num + Min<Output = T> + Max<Output = T>,
    ensures
        r@ == seq![
            lhs@[0].max_spec(rhs@[0]),
            lhs@[1].max_spec(rhs@[1]),
            lhs@[2].min_spec(rhs@[2]),
            lhs@[3].min_spec(rhs@[3]),
        ],
{
    broadcast use Vector::lemma_len;
    let r = Vector::from(
        [
            math::max(lhs[0], rhs[0]),
            math::max(lhs[1], rhs[1]),
            math::min(lhs[2], rhs[2]),
            math::min(lhs[3], rhs[3]),
        ],
    );
    assert(r@ =~= seq![
        lhs@[0].max_spec(rhs@[0]),
        lhs@[1].max_spec(rhs@[1]),
        lhs@[2].min_spec(rhs@[2]),
        lhs@[3].min_spec(rhs@[3]),
    ]);
    r
}

/// The bounding rectangle of two rectangles `[x_min, y_min, x_max, y_max]`:
/// the smaller of the two lower corners and the larger of the two upper
/// corners.
pub fn max<T>(lhs: Vec4<T>, rhs: Vec4<T>) -> (r: Vec4<T>)
    where
        T: Num + Min<Output = T> + Max<Output = T>,
    ensures
        r@ == seq![
            lhs@[0].min_spec(rhs@[0]),
            lhs@[1].min_spec(rhs@[1]),
            lhs@[2].max_spec(rhs@[2]),
            lhs@[3].max_spec(rhs@[3]),
        ],
{
    broadcast use Vector::lemma_len;
    let r = Vector::from(
        [
            math::min(lhs[0], rhs[0]),
            math::min(lhs[1], rhs[1]),
            math::max(lhs[2], rhs[2]),
            math::max(lhs[3], rhs[3]),
        ],
    );
    assert(r@ =~= seq![
        lhs@[0].min_spec(rhs@[0]),
        lhs@[1].min_spec(rhs@[1]),
        lhs@[2].max_spec(rhs@[2]),
        lhs@[3].max_spec(rhs@[3]),
    ]);
    r
}

/// The rectangle `[x_min, y_min, x_max, y_max]` spanned by two corners.
pub fn rect<T>(from: Vec2<T>, to: Vec2<T>) -> (r: Vec4<T>)
    where
        T: Num + Min<Output = T> + Max<Output = T>,
    ensures
        r@ == seq![
            from@[0].min_spec(to@[0]),
            from@[1].min_spec(to@[1]),
            from@[0].max_spec(to@[0]),
            from@[1].max_spec(to@[1]),
        ],
{
    broadcast use Vector::lemma_len;
    let (x_min, x_max) = (math::min(from[0], to[0]), math::max(from[0], to[0]));
    let (y_min, y_max) = (math::min(from[1], to[1]), math::max(from[1], to[1]));
    let r = Vector::from([x_min, y_min, x_max, y_max]);
    assert(r@ =~= seq![
        from@[0].min_spec(to@[0]),
        from@[1].min_spec(to@[1]),
        from@[0].max_spec(to@[0]),
        from@[1].max_spec(to@[1]),
    ]);
    r
}

/// On integers, `rect` puts the smaller coordinates first: the result is a
/// rectangle with ordered corners, and swapping the two corners changes
/// nothing.
pub proof fn lemma_rect_orders_corners(from: Vec2<i64>, to: Vec2<i64>)
    ensures
        from@[0].min_spec(to@[0]) <= from@[0].max_spec(to@[0]),
        from@[1].min_spec(to@[1]) <= from@[1].max_spec(to@[1]),
        seq![
            from@[0].min_spec(to@[0]),
            from@[1].min_spec(to@[1]),
            from@[0].max_spec(to@[0]),
            from@[1].max_spec(to@[1]),
        ] == seq![
            to@[0].min_spec(from@[0]),
            to@[1].min_spec(from@[1]),
            to@[0].max_spec(from@[0]),
            to@[1].max_spec(from@[1]),
        ],
{
    assert(seq![
        from@[0].min_spec(to@[0]),
        from@[1].min_spec(to@[1]),
        from@[0].max_spec(to@[0]),
        from@[1].max_spec(to@[1]),
    ] =~= seq![
        to@[0].min_spec(from@[0]),
        to@[1].min_spec(from@[1]),
        to@[0].max_spec(from@[0]),
        to@[1].max_spec(from@[1]),
    ]);
}

/// On integers, the intersection `min` lies inside both rectangles and does
/// not depend on their order.
pub proof fn lemma_intersection_within_both(lhs: Vec4<i64>, rhs: Vec4<i64>)
    ensures
        ({
            let i = seq![
                lhs@[0].max_spec(rhs@[0]),
                lhs@[1].max_spec(rhs@[1]),
                lhs@[2].min_spec(rhs@[2]),
                lhs@[3].min_spec(rhs@[3]),
            ];
            &&& lhs@[0] <= i[0] && rhs@[0] <= i[0]
            &&& lhs@[1] <= i[1] && rhs@[1] <= i[1]
            &&& i[2] <= lhs@[2] && i[2] <= rhs@[2]
            &&& i[3] <= lhs@[3] && i[3] <= rhs@[3]
            &&& i == seq![
                rhs@[0].max_spec(lhs@[0]),
                rhs@[1].max_spec(lhs@[1]),
                rhs@[2].min_spec(lhs@[2]),
                rhs@[3].min_spec(lhs@[3]),
            ]
        }),
{
    assert(seq![
        lhs@[0].max_spec(rhs@[0]),
        lhs@[1].max_spec(rhs@[1]),
        lhs@[2].min_spec(rhs@[2]),
        lhs@[3].min_spec(rhs@[3]),
    ] =~= seq![
        rhs@[0].max_spec(lhs@[0]),
        rhs@[1].max_spec(lhs@[1]),
        rhs@[2].min_spec(lhs@[2]),
        rhs@[3].min_spec(lhs@[3]),
    ]);
}

/// On integers, the bounding rectangle `max` contains both rectangles and
/// does not depend on their order.
pub proof fn lemma_union_contains_both(lhs: Vec4<i64>, rhs: Vec4<i64>)
    ensures
        ({
            let u = seq![
                lhs@[0].min_spec(rhs@[0]),
                lhs@[1].min_spec(rhs@[1]),
                lhs@[2].max_spec(rhs@[2]),
                lhs@[3].max_spec(rhs@[3]),
            ];
            &&& u[0] <= lhs@[0] && u[0] <= rhs@[0]
            &&& u[1] <= lhs@[1] && u[1] <= rhs@[1]
            &&& lhs@[2] <= u[2] && rhs@[2] <= u[2]
            &&& lhs@[3] <= u[3] && rhs@[3] <= u[3]
            &&& u == seq![
                rhs@[0].min_spec(lhs@[0]),
                rhs@[1].min_spec(lhs@[1]),
                rhs@[2].max_spec(lhs@[2]),
                rhs@[3].max_spec(lhs@[3]),
            ]
        }),
{
    assert(seq![
        lhs@[0].min_spec(rhs@[0]),
        lhs@[1].min_spec(rhs@[1]),
        lhs@[2].max_spec(rhs@[2]),
        lhs@[3].max_spec(rhs@[3]),
    ] =~= seq![
        rhs@[0].min_spec(lhs@[0]),
        rhs@[1].min_spec(lhs@[1]),
        rhs@[2].max_spec(lhs@[2]),
        rhs@[3].max_spec(lhs@[3]),
    ]);
}

} // verus!
