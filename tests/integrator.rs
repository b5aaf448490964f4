use raytracer::integrator::{advance, start, Interaction, Step};

#[test]
fn zero_depth_is_black() {
    assert_eq!(start(0), Step::Black);
}

#[test]
fn positive_depth_traces() {
    assert_eq!(start(1), Step::Trace { depth: 1 });
    assert_eq!(start(255), Step::Trace { depth: 255 });
}

#[test]
fn miss_ends_in_sky() {
    assert_eq!(advance(3, Interaction::Miss), Step::Sky);
    assert_eq!(advance(1, Interaction::Miss), Step::Sky);
}

#[test]
fn absorption_ends_path() {
    assert_eq!(advance(2, Interaction::Absorbed), Step::Absorbed);
}

#[test]
fn scatter_spends_one_bounce() {
    assert_eq!(advance(3, Interaction::Scattered), Step::Trace { depth: 2 });
    assert_eq!(advance(1, Interaction::Scattered), Step::Black);
}

#[test]
fn always_scattering_path_stops_after_depth_events() {
    let depth: u8 = 18;
    let mut step = start(depth);
    let mut events: u32 = 0;
    while let Step::Trace { depth } = step {
        step = advance(depth, Interaction::Scattered);
        events += 1;
    }
    assert_eq!(step, Step::Black);
    assert_eq!(events, 18);
}
