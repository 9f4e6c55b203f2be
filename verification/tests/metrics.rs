use bluescale::body::CalcError;
use bluescale::body::Measurement;
use bluescale::body::Person;

fn male() -> Person {
    Person { sex: 1, age: 30_000_000_000, height: 175_000_000_000 }
}

fn female() -> Person {
    Person { sex: 0, age: 50_000_000_000, height: 160_000_000_000 }
}

const MALE_W: i128 = 70_000_000_000;
const MALE_I: i128 = 500_000_000_000;
const FEMALE_W: i128 = 55_000_000_000;
const FEMALE_I: i128 = 480_000_000_000;

#[test]
fn male_metrics_exact() {
    let p = male();
    assert!(p.is_wf());
    assert!(p.is_computable());
    assert_eq!(p.get_lbm_coefficient(MALE_W, MALE_I), 57_340_125_000);
    assert_eq!(p.get_bmi(MALE_W), 22_857_142_857);
    assert_eq!(p.get_bmr(MALE_W), 1_525_590_000_000);
    assert_eq!(p.get_body_fat(MALE_W, MALE_I), 19_228_392_900);
    assert_eq!(p.get_water(MALE_W, MALE_I), 55_409_322_470);
    assert_eq!(p.get_bone_mass(MALE_W, MALE_I), 2_877_434_707);
    assert_eq!(p.get_muscle(MALE_W, MALE_I), 53_662_690_263);
    assert_eq!(p.get_muscle_rate(MALE_W, MALE_I).ok().unwrap(), 76_660_986_059);
    assert_eq!(p.get_visceral_fat(MALE_W), 9_650_000_000);
}

#[test]
fn female_metrics_exact() {
    let p = female();
    assert!(p.is_wf());
    assert!(p.is_computable());
    assert_eq!(p.get_lbm_coefficient(FEMALE_W, FEMALE_I), 47_040_480_000);
    assert_eq!(p.get_bmi(FEMALE_W), 21_484_375_000);
    assert_eq!(p.get_bmr(FEMALE_W), 1_052_660_400_000);
    assert_eq!(p.get_body_fat(FEMALE_W, FEMALE_I), 27_653_672_800);
    assert_eq!(p.get_water(FEMALE_W, FEMALE_I), 49_629_580_459);
    assert_eq!(p.get_bone_mass(FEMALE_W, FEMALE_I), 2_080_656_944);
    assert_eq!(p.get_muscle(FEMALE_W, FEMALE_I), 37_709_823_016);
    assert_eq!(p.get_muscle_rate(FEMALE_W, FEMALE_I).ok().unwrap(), 68_563_314_567);
    assert_eq!(p.get_visceral_fat(FEMALE_W), -55_055_000_000);
}

#[test]
fn calculator_deterministic() {
    // two calls with identical inputs yield bit-identical output
    let p = male();
    assert_eq!(p.get_body_fat(MALE_W, MALE_I), p.get_body_fat(MALE_W, MALE_I));
    assert_eq!(p.get_water(MALE_W, MALE_I), p.get_water(MALE_W, MALE_I));
    assert_eq!(p.get_bone_mass(MALE_W, MALE_I), p.get_bone_mass(MALE_W, MALE_I));
    assert_eq!(p.get_muscle(MALE_W, MALE_I), p.get_muscle(MALE_W, MALE_I));
    assert_eq!(p.get_visceral_fat(MALE_W), p.get_visceral_fat(MALE_W));
    assert_eq!(p.get_bmi(MALE_W), p.get_bmi(MALE_W));
    assert_eq!(p.get_bmr(MALE_W), p.get_bmr(MALE_W));
    let f = female();
    assert_eq!(f.get_visceral_fat(FEMALE_W), f.get_visceral_fat(FEMALE_W));
}

#[test]
fn body_fat_clamp_is_exactly_75() {
    // a very large impedance drives the raw body-fat formula above 63
    let p = Person { sex: 1, age: 30_000_000_000, height: 170_000_000_000 };
    let w: i128 = 70_000_000_000;
    let imp: i128 = 20_000_000_000_000;
    assert_eq!(p.get_body_fat(w, imp), 75_000_000_000);
}

#[test]
fn muscle_rate_zero_weight_fails() {
    let p = male();
    let r = p.get_muscle_rate(0, MALE_I);
    assert!(matches!(r, Err(CalcError::DivisionByZero)));
}

#[test]
fn measurement_compute_zero_weight_fails() {
    let p = male();
    let r = Measurement::compute(&p, 0, 0, MALE_I);
    assert!(matches!(r, Err(CalcError::DivisionByZero)));
}

#[test]
fn measurement_compute_matches_metrics() {
    let p = male();
    let ts: i64 = 1_695_073_272;
    let m = Measurement::compute(&p, ts, MALE_W, MALE_I).ok().unwrap();
    assert_eq!(m.date_time, ts);
    assert_eq!(m.weight, MALE_W);
    assert_eq!(m.bmi, p.get_bmi(MALE_W));
    assert_eq!(m.water_rate, p.get_water(MALE_W, MALE_I));
    assert_eq!(m.bmr, p.get_bmr(MALE_W));
    assert_eq!(m.visceral_fat, p.get_visceral_fat(MALE_W));
    assert_eq!(m.bf, p.get_body_fat(MALE_W, MALE_I));
    assert_eq!(m.muscle_kg, p.get_muscle(MALE_W, MALE_I));
    assert_eq!(m.muscle_rate, p.get_muscle_rate(MALE_W, MALE_I).ok().unwrap());
    assert_eq!(m.bone_mass, p.get_bone_mass(MALE_W, MALE_I));
}

#[test]
fn visceral_fat_big_weight_branch() {
    // female heavy-weight branch divides by the height polynomial
    let p = female();
    let w: i128 = 90_000_000_000;
    let r1 = p.get_visceral_fat(w);
    let r2 = p.get_visceral_fat(w);
    assert_eq!(r1, r2);
    assert!(r1 > 0);
}
