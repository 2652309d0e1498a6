//! What a request does and what it is answered with: one tick, a rendering
//! of the new state, and a reply made of a fixed head and the rendering as
//! text.

use vstd::prelude::*;
use vstd::string::*;
use crate::bodies::{Asteroid, Circle, Planet};
use crate::physics::{apply_physics, coincident, stepped, tick_fits, TickFault};
use crate::render::{render, rendered};

verus! {

/// What one request does to the simulation: one tick, then a rendering of
/// the bodies as they are after it. The new state comes back with the
/// circles; a tick that fails renders nothing.
pub fn tick_and_render(
    planets: Vec<Planet>,
    asteroids: Vec<Asteroid>,
    gravitational_constant: i32,
) -> (outcome: Result<(Vec<Planet>, Vec<Asteroid>, Vec<Circle>), TickFault>)
    ensures
        match outcome {
            Ok((same_planets, moved_asteroids, circles)) => {
                &&& !coincident(planets.deep_view(), asteroids.deep_view())
                &&& tick_fits(
                    planets.deep_view(),
                    asteroids.deep_view(),
                    gravitational_constant as int,
                )
                &&& same_planets@ == planets@
                &&& moved_asteroids.deep_view() == stepped(
                    planets.deep_view(),
                    asteroids.deep_view(),
                    gravitational_constant as int,
                )
                &&& circles.deep_view() == rendered(
                    planets.deep_view(),
                    stepped(
                        planets.deep_view(),
                        asteroids.deep_view(),
                        gravitational_constant as int,
                    ),
                )
            },
            Err(TickFault::DivisionByZero) => coincident(
                planets.deep_view(),
                asteroids.deep_view(),
            ),
            Err(TickFault::Overflow) => {
                &&& !coincident(planets.deep_view(), asteroids.deep_view())
                &&& !tick_fits(
                    planets.deep_view(),
                    asteroids.deep_view(),
                    gravitational_constant as int,
                )
            },
        },
{
    match apply_physics(planets, asteroids, gravitational_constant) {
        Ok((same_planets, moved_asteroids)) => {
            let circles = render(&same_planets, &moved_asteroids);
            assert(same_planets.deep_view() =~= planets.deep_view());
            Ok((same_planets, moved_asteroids, circles))
        },
        Err(fault) => Err(fault),
    }
}

/// The head of every reply, up to and with the empty line that ends it. The
/// `ContentType` header is spelled as the clients of this service expect it.
pub open spec fn response_head() -> Seq<char> {
    "HTTP/1.1 200 OK"@
        + "\r\nContentType: application/json\r\nAccess-Control-Allow-Origin: *\r\n\r\n"@
}

/// The whole reply for the body `contents`: the head, the body and a line
/// break.
pub open spec fn response_text(contents: Seq<char>) -> Seq<char> {
    response_head() + contents + "\r\n"@
}

/// Builds the reply that carries `contents`.
pub fn frame_response(contents: &str) -> (response: String)
    ensures
        response@ == response_text(contents@),
{
    let status_line = "HTTP/1.1 200 OK";
    let mut response = String::from_str(status_line);
    response.append("\r\nContentType: application/json\r\nAccess-Control-Allow-Origin: *\r\n\r\n");
    response.append(contents);
    response.append("\r\n");
    response
}

} // verus!
