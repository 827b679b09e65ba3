use vstd::prelude::*;

verus! {

/// Decides whether a straight segment touches the leading edge, given the (up
/// to two) points where the segment crosses the edge's circle: it does when
/// one of them lies inside the edge's angular sweep, as `inside` reports.
pub fn line_hit<P: Copy, F: Fn(P) -> bool>(crossings: (Option<P>, Option<P>), inside: F) -> (r: bool)
    requires
        forall|p: P| inside.requires((p,)),
    ensures
        r ==> (crossings.0 is Some && inside.ensures((crossings.0->0,), true)) || (crossings.1 is Some
            && inside.ensures((crossings.1->0,), true)),
        !r ==> (crossings.0 is Some ==> inside.ensures((crossings.0->0,), false)) && (crossings.1 is Some
            ==> inside.ensures((crossings.1->0,), false)),
{
    let first = match crossings.0 {
        Some(p) => inside(p),
        None => false,
    };
    if first {
        return true;
    }
    match crossings.1 {
        Some(p) => inside(p),
        None => false,
    }
}

/// Decides whether an arc touches the leading edge, given the two points
/// where their circles cross (equal when the circles are tangent): it does
/// when one of them lies inside both angular sweeps, as `in_edge` and
/// `in_arc` report.
pub fn arc_hit<P: Copy, F: Fn(P) -> bool, G: Fn(P) -> bool>(
    crossings: Option<(P, P)>,
    in_edge: F,
    in_arc: G,
) -> (r: bool)
    requires
        forall|p: P| in_edge.requires((p,)),
        forall|p: P| in_arc.requires((p,)),
    ensures
        crossings is None ==> !r,
        r ==> crossings is Some && ({
            let (p, q) = crossings->0;
            (in_edge.ensures((p,), true) && in_arc.ensures((p,), true)) || (in_edge.ensures((q,), true)
                && in_arc.ensures((q,), true))
        }),
        !r && crossings is Some ==> ({
            let (p, q) = crossings->0;
            (in_edge.ensures((p,), false) || in_arc.ensures((p,), false)) && (in_edge.ensures((q,), false)
                || in_arc.ensures((q,), false))
        }),
{
    match crossings {
        None => false,
        Some((p, q)) => {
            if in_edge(p) && in_arc(p) {
                true
            } else {
                in_edge(q) && in_arc(q)
            }
        },
    }
}

} // verus!
