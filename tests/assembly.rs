use rust_engine::{Asteroid, AsteroidDto, Binary64, RiskResult};

fn num(x: f64) -> Binary64 {
    Binary64::from_bits(x.to_bits())
}

#[test]
fn assemble_copies_every_field() {
    let a = Asteroid::validate(AsteroidDto {
        id: "3122".to_string(),
        name: "Florence".to_string(),
        diameter_km: num(4.9),
        velocity_kps: num(13.5),
        hazardous: false,
        distance_km: Some(num(7.06e6)),
    })
    .unwrap();
    let r = RiskResult::assemble(&a, num(2.827e20), num(67584.0), num(100.0));
    assert_eq!(r.id, "3122");
    assert_eq!(r.name, "Florence");
    assert_eq!(r.energy_joules, num(2.827e20));
    assert_eq!(r.energy_megatons, num(67584.0));
    assert_eq!(r.risk_score, num(100.0));
    assert!(!r.hazardous);
    assert_eq!(r.distance_km, num(7.06e6));
    assert_eq!(r.velocity_kps, num(13.5));
    assert_eq!(r.diameter_km, num(4.9));
}
