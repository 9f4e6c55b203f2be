//! Body-composition calculator: pure fixed-point functions over
//! `(weight, impedance, profile)`.  Every calibration constant, threshold
//! branch and clamp is kept exactly as the device convention dictates; the
//! coefficients are calibration-derived, not structurally meaningful.
use vstd::prelude::*;
use vstd::math::abs;
use crate::fixed::FX_SCALE;
use crate::fixed::fx_div;
use crate::fixed::fx_div_spec;
use crate::fixed::fx_mul;
use crate::fixed::fx_mul_spec;
use crate::fixed::fx_scale;
use crate::fixed::fx_scale_spec;
use crate::fixed::lemma_mul_le;

verus! {

/// Largest fixed-point weight, height or age the calculator accepts
/// (one thousand kilograms, centimetres or years).
pub const CAP_INPUT: i128 = 1_000_000_000_000;

/// Largest fixed-point impedance the calculator accepts.
pub const CAP_IMPEDANCE: i128 = 100_000_000_000_000;

/// Smallest nonzero fixed-point weight the divisions accept; every nonzero
/// weight the decoder can produce is far above it.
pub const MIN_WEIGHT: i128 = 10_000;

/// The subject profile: sex (male = 1, female = 0), age in years and
/// height in centimetres, both fixed-point.
#[derive(Clone, Copy)]
pub struct Person {
    pub sex: u8,
    pub age: i128,
    pub height: i128,
}

/// Error of a metric whose formula is undefined for the input.
#[derive(Clone, Copy, Debug)]
pub enum CalcError {
    DivisionByZero,
}

/// Lean-body-mass coefficient:
/// `(height/100)^2 * 9.058 + weight * 0.32 + 12.226 - impedance * 0.0068 - age * 0.0542`,
/// computed as `(height * 9.058 / 100) * (height / 100) + ...`.
pub open spec fn spec_lbm_coefficient(p: Person, w: int, imp: int) -> int {
    let t1 = fx_scale_spec(p.height as int, 9058, 1000);
    let t2 = fx_scale_spec(t1, 1, 100);
    let t3 = fx_scale_spec(p.height as int, 1, 100);
    let t4 = fx_mul_spec(t2, t3);
    t4 + fx_scale_spec(w, 32, 100) + 12_226_000_000 - fx_scale_spec(imp, 68, 10000)
        - fx_scale_spec(p.age as int, 542, 10000)
}

/// The divisor of the body-mass-index formula, `(height^2 / 100) / 100`.
pub open spec fn spec_bmi_divisor(h: int) -> int {
    fx_scale_spec(fx_scale_spec(fx_mul_spec(h, h), 1, 100), 1, 100)
}

/// Body-mass index: `weight / ((height^2 / 100) / 100)`.
pub open spec fn spec_bmi(p: Person, w: int) -> int {
    fx_div_spec(w, spec_bmi_divisor(p.height as int))
}

/// Basal metabolic rate in kilocalories, one linear formula per sex.
pub open spec fn spec_bmr(p: Person, w: int) -> int {
    if p.sex == 0 {
        864_600_000_000 + fx_scale_spec(w, 102036, 10000) - fx_scale_spec(
            p.height as int,
            39336,
            100000,
        ) - fx_scale_spec(p.age as int, 6204, 1000)
    } else {
        877_800_000_000 + fx_scale_spec(w, 14916, 1000) - fx_scale_spec(p.height as int, 726, 1000)
            - fx_scale_spec(p.age as int, 8976, 1000)
    }
}

impl Person {
    /// Well-formedness: a binary sex code, a positive bounded height and a
    /// non-negative bounded age.
    pub open spec fn wf(self) -> bool {
        (self.sex == 0 || self.sex == 1) && 0 < self.height <= CAP_INPUT && 0 <= self.age
            <= CAP_INPUT
    }

    /// The height-derived divisors of the formulas are nonzero, so every
    /// metric is defined for every accepted weight and impedance.
    pub open spec fn computable(self) -> bool {
        spec_bmi_divisor(self.height as int) != 0 && spec_vf_female_divisor(self.height as int)
            != 0 && spec_vf_male_divisor(self.height as int) != 0
    }

    /// Runtime check of `wf`, for callers outside verified code.
    pub fn is_wf(&self) -> (r: bool)
        ensures
            r == self.wf(),
    {
        (self.sex == 0 || self.sex == 1) && 0 < self.height && self.height <= CAP_INPUT
            && 0 <= self.age && self.age <= CAP_INPUT
    }

    /// Runtime check of `computable`, for callers outside verified code.
    pub fn is_computable(&self) -> (r: bool)
        requires
            self.wf(),
        ensures
            r == self.computable(),
    {
        let bmi_div: i128 = self.bmi_divisor();
        let f_div: i128 = self.vf_female_divisor();
        let m_div: i128 = self.vf_male_divisor();
        bmi_div != 0 && f_div != 0 && m_div != 0
    }

    fn bmi_divisor(&self) -> (r: i128)
        requires
            self.wf(),
        ensures
            r == spec_bmi_divisor(self.height as int),
            abs(r as int) <= 100_000_000_000,
    {
        proof {
            lemma_mul_le(
                abs(self.height as int) as int,
                abs(self.height as int) as int,
                CAP_INPUT as int,
                CAP_INPUT as int,
            );
        }
        let d1: i128 = fx_mul(self.height, self.height);
        let d2: i128 = fx_scale(d1, 1, 100);
        fx_scale(d2, 1, 100)
    }

    /// Lean-body-mass coefficient, the shared intermediate of body fat,
    /// bone mass and muscle mass.
    pub fn get_lbm_coefficient(&self, weight: i128, impedance: i128) -> (r: i128)
        requires
            self.wf(),
            0 <= weight <= CAP_INPUT,
            0 <= impedance <= CAP_IMPEDANCE,
        ensures
            r == spec_lbm_coefficient(*self, weight as int, impedance as int),
            abs(r as int) <= 3_000_000_000_000,
    {
        let t1: i128 = fx_scale(self.height, 9058, 1000);
        let t2: i128 = fx_scale(t1, 1, 100);
        let t3: i128 = fx_scale(self.height, 1, 100);
        proof {
            lemma_mul_le(
                abs(t2 as int) as int,
                abs(t3 as int) as int,
                100_000_000_000,
                10_000_000_000,
            );
        }
        let t4: i128 = fx_mul(t2, t3);
        let t5: i128 = t4 + fx_scale(weight, 32, 100) + 12_226_000_000;
        let t6: i128 = t5 - fx_scale(impedance, 68, 10000);
        t6 - fx_scale(self.age, 542, 10000)
    }

    /// Body-mass index.
    pub fn get_bmi(&self, weight: i128) -> (r: i128)
        requires
            self.wf(),
            self.computable(),
            0 <= weight <= CAP_INPUT,
        ensures
            r == spec_bmi(*self, weight as int),
            abs(r as int) <= 1_000_000_000_000_000_000_000_000,
    {
        let d: i128 = self.bmi_divisor();
        let q: i128 = fx_div(weight, d);
        proof {
            lemma_mul_le(abs(q as int) as int, 1, abs(q as int) as int, abs(d as int) as int);
        }
        q
    }

    /// Basal metabolic rate in kilocalories.
    pub fn get_bmr(&self, weight: i128) -> (r: i128)
        requires
            self.wf(),
            0 <= weight <= CAP_INPUT,
        ensures
            r == spec_bmr(*self, weight as int),
            abs(r as int) <= 20_000_000_000_000_000,
    {
        if self.sex == 0 {
            let mut bmr: i128 = 864_600_000_000 + fx_scale(weight, 102036, 10000);
            bmr = bmr - fx_scale(self.height, 39336, 100000);
            bmr = bmr - fx_scale(self.age, 6204, 1000);
            bmr
        } else {
            let mut bmr: i128 = 877_800_000_000 + fx_scale(weight, 14916, 1000);
            bmr = bmr - fx_scale(self.height, 726, 1000);
            bmr = bmr - fx_scale(self.age, 8976, 1000);
            bmr
        }
    }
}

/// The sex- and age-dependent subtrahend of the body-fat formula.
pub open spec fn spec_lbm_subtrahend(p: Person) -> int {
    if p.sex == 0 && p.age <= 49_000_000_000 {
        9_250_000_000
    } else if p.sex == 0 {
        7_250_000_000
    } else {
        800_000_000
    }
}

/// The sex-, weight- and height-dependent multiplier of the body-fat
/// formula, with its exact threshold branches at weight 61/60/50 and
/// height 160.
pub open spec fn spec_bf_coefficient(p: Person, w: int) -> int {
    if p.sex == 1 && w < 61_000_000_000 {
        980_000_000
    } else if p.sex == 0 && w > 60_000_000_000 {
        if p.height > 160_000_000_000 {
            fx_scale_spec(960_000_000, 103, 100)
        } else {
            960_000_000
        }
    } else if p.sex == 0 && w < 50_000_000_000 {
        if p.height > 160_000_000_000 {
            fx_scale_spec(1_020_000_000, 103, 100)
        } else {
            1_020_000_000
        }
    } else {
        1_000_000_000
    }
}

/// Body fat percentage before the calibration cap:
/// `(1 - ((lbm_coeff - subtrahend) * coefficient) / weight) * 100`.
pub open spec fn spec_body_fat_raw(p: Person, w: int, imp: int) -> int {
    let diff = spec_lbm_coefficient(p, w, imp) - spec_lbm_subtrahend(p);
    let num = fx_mul_spec(diff, spec_bf_coefficient(p, w));
    let q = fx_div_spec(num, w);
    fx_scale_spec(1_000_000_000 - q, 100, 1)
}

/// Body fat percentage: the raw value, capped to 75 whenever it exceeds 63.
pub open spec fn spec_body_fat(p: Person, w: int, imp: int) -> int {
    if spec_body_fat_raw(p, w, imp) > 63_000_000_000 {
        75_000_000_000
    } else {
        spec_body_fat_raw(p, w, imp)
    }
}

/// Water rate: `(100 - body_fat) * 0.7`, scaled by 1.02 when that product
/// is below 50 and by 0.98 otherwise.
pub open spec fn spec_water(p: Person, w: int, imp: int) -> int {
    let water = fx_scale_spec(100_000_000_000 - spec_body_fat(p, w, imp), 7, 10);
    let coeff: int = if water < 50_000_000_000 { 1_020_000_000 } else { 980_000_000 };
    fx_mul_spec(coeff, water)
}

/// Bone mass: a sex-dependent base against `lbm_coeff * 0.05158`, nudged by
/// 0.1 around 2.2 and capped to 8 above a sex-dependent ceiling.
pub open spec fn spec_bone_mass(p: Person, w: int, imp: int) -> int {
    let base: int = if p.sex == 0 { 245_691_014 } else { 180_168_940 };
    let b0 = -(base - fx_scale_spec(spec_lbm_coefficient(p, w, imp), 5158, 100000));
    let b1 = if b0 > 2_200_000_000 { b0 + 100_000_000 } else { b0 - 100_000_000 };
    if p.sex == 0 && b1 > 5_100_000_000 {
        8_000_000_000
    } else if p.sex == 1 && b1 > 5_200_000_000 {
        8_000_000_000
    } else {
        b1
    }
}

/// Muscle mass in kilograms: weight less the body-fat share and the bone
/// mass, replaced by the 120 sentinel at or above a sex-dependent ceiling.
pub open spec fn spec_muscle(p: Person, w: int, imp: int) -> int {
    let m = w - fx_mul_spec(fx_scale_spec(spec_body_fat(p, w, imp), 1, 100), w) - spec_bone_mass(
        p,
        w,
        imp,
    );
    if p.sex == 0 && m >= 84_000_000_000 {
        120_000_000_000
    } else if p.sex == 1 && m >= 93_500_000_000 {
        120_000_000_000
    } else {
        m
    }
}

/// Muscle rate: `(100 / weight) * muscle_mass`, undefined at weight zero.
pub open spec fn spec_muscle_rate(p: Person, w: int, imp: int) -> int {
    fx_mul_spec(fx_div_spec(100_000_000_000, w), spec_muscle(p, w, imp))
}

impl Person {
    /// Body fat percentage with the exact calibration cap: any raw value
    /// above 63 becomes exactly 75.
    #[verifier::rlimit(30)]
    pub fn get_body_fat(&self, weight: i128, impedance: i128) -> (r: i128)
        requires
            self.wf(),
            MIN_WEIGHT <= weight <= CAP_INPUT,
            0 <= impedance <= CAP_IMPEDANCE,
        ensures
            r == spec_body_fat(*self, weight as int, impedance as int),
            abs(r as int) <= 50_000_000_000_000_000_000,
    {
        let lbm: i128 = self.get_lbm_coefficient(weight, impedance);
        let lbm_sub: i128 = if self.sex == 0 && self.age <= 49_000_000_000 {
            9_250_000_000
        } else if self.sex == 0 {
            7_250_000_000
        } else {
            800_000_000
        };
        let mut coeff: i128 = 1_000_000_000;
        if self.sex == 1 && weight < 61_000_000_000 {
            coeff = 980_000_000;
        } else if self.sex == 0 && weight > 60_000_000_000 {
            coeff = 960_000_000;
            if self.height > 160_000_000_000 {
                coeff = fx_scale(coeff, 103, 100);
            }
        } else if self.sex == 0 && weight < 50_000_000_000 {
            coeff = 1_020_000_000;
            if self.height > 160_000_000_000 {
                coeff = fx_scale(coeff, 103, 100);
            }
        }
        proof {
            assert(lbm_sub == spec_lbm_subtrahend(*self));
            assert(coeff == spec_bf_coefficient(*self, weight as int));
        }
        let diff: i128 = lbm - lbm_sub;
        proof {
            lemma_mul_le(
                abs(diff as int) as int,
                abs(coeff as int) as int,
                4_000_000_000_000,
                1_100_000_000,
            );
        }
        let num: i128 = fx_mul(diff, coeff);
        let q: i128 = fx_div(num, weight);
        proof {
            assert(abs(num as int) <= 4_400_000_000_000);
            assert(abs(weight as int) == weight as int);
            assert(abs(q as int) <= 440_000_000_000_000_000) by (nonlinear_arith)
                requires
                    abs(q as int) * abs(weight as int) <= 4_400_000_000_000_000_000_000,
                    abs(weight as int) >= 10_000,
            ;
        }
        let raw: i128 = fx_scale(1_000_000_000 - q, 100, 1);
        proof {
            assert(raw == spec_body_fat_raw(*self, weight as int, impedance as int));
        }
        if raw > 63_000_000_000 {
            75_000_000_000
        } else {
            raw
        }
    }

    /// Water rate percentage.
    pub fn get_water(&self, weight: i128, impedance: i128) -> (r: i128)
        requires
            self.wf(),
            MIN_WEIGHT <= weight <= CAP_INPUT,
            0 <= impedance <= CAP_IMPEDANCE,
        ensures
            r == spec_water(*self, weight as int, impedance as int),
            abs(r as int) <= 100_000_000_000_000_000_000,
    {
        let bf: i128 = self.get_body_fat(weight, impedance);
        let water: i128 = fx_scale(100_000_000_000 - bf, 7, 10);
        let coeff: i128 = if water < 50_000_000_000 {
            1_020_000_000
        } else {
            980_000_000
        };
        proof {
            lemma_mul_le(
                abs(coeff as int) as int,
                abs(water as int) as int,
                1_020_000_000,
                40_000_000_000_000_000_000,
            );
        }
        fx_mul(coeff, water)
    }

    /// Bone mass in kilograms.
    pub fn get_bone_mass(&self, weight: i128, impedance: i128) -> (r: i128)
        requires
            self.wf(),
            0 <= weight <= CAP_INPUT,
            0 <= impedance <= CAP_IMPEDANCE,
        ensures
            r == spec_bone_mass(*self, weight as int, impedance as int),
            abs(r as int) <= 1_000_000_000_000,
    {
        let lbm: i128 = self.get_lbm_coefficient(weight, impedance);
        let base: i128 = if self.sex == 0 { 245_691_014 } else { 180_168_940 };
        let t: i128 = fx_scale(lbm, 5158, 100000);
        let mut bone: i128 = -(base - t);
        if bone > 2_200_000_000 {
            bone = bone + 100_000_000;
        } else {
            bone = bone - 100_000_000;
        }
        if self.sex == 0 && bone > 5_100_000_000 {
            bone = 8_000_000_000;
        } else if self.sex == 1 && bone > 5_200_000_000 {
            bone = 8_000_000_000;
        }
        bone
    }

    /// Muscle mass in kilograms.
    pub fn get_muscle(&self, weight: i128, impedance: i128) -> (r: i128)
        requires
            self.wf(),
            MIN_WEIGHT <= weight <= CAP_INPUT,
            0 <= impedance <= CAP_IMPEDANCE,
        ensures
            r == spec_muscle(*self, weight as int, impedance as int),
            abs(r as int) <= 1_000_000_000_000_000_000_000,
    {
        let bf: i128 = self.get_body_fat(weight, impedance);
        let share: i128 = fx_scale(bf, 1, 100);
        proof {
            lemma_mul_le(
                abs(share as int) as int,
                abs(weight as int) as int,
                500_000_000_000_000_000,
                CAP_INPUT as int,
            );
        }
        let bfw: i128 = fx_mul(share, weight);
        let bone: i128 = self.get_bone_mass(weight, impedance);
        let mut mm: i128 = weight - bfw - bone;
        if self.sex == 0 && mm >= 84_000_000_000 {
            mm = 120_000_000_000;
        } else if self.sex == 1 && mm >= 93_500_000_000 {
            mm = 120_000_000_000;
        }
        mm
    }

    /// Muscle rate in percent of weight.  Fails explicitly at weight zero,
    /// where the formula is undefined, rather than producing a silent
    /// out-of-range value.
    pub fn get_muscle_rate(&self, weight: i128, impedance: i128) -> (r: Result<i128, CalcError>)
        requires
            self.wf(),
            weight == 0 || MIN_WEIGHT <= weight,
            weight <= CAP_INPUT,
            0 <= impedance <= CAP_IMPEDANCE,
        ensures
            weight == 0 ==> r == Err::<i128, CalcError>(CalcError::DivisionByZero),
            weight != 0 ==> r == Ok::<i128, CalcError>(
                spec_muscle_rate(*self, weight as int, impedance as int) as i128,
            ),
            weight != 0 ==> (r matches Ok(v) && v == spec_muscle_rate(
                *self,
                weight as int,
                impedance as int,
            )),
    {
        if weight == 0 {
            return Err(CalcError::DivisionByZero);
        }
        let mm: i128 = self.get_muscle(weight, impedance);
        let q: i128 = fx_div(100_000_000_000, weight);
        proof {
            assert(abs(100_000_000_000int) == 100_000_000_000int);
            assert(abs(weight as int) == weight as int);
            assert(abs(q as int) <= 10_000_000_000_000_000) by (nonlinear_arith)
                requires
                    abs(q as int) * abs(weight as int) <= 100_000_000_000_000_000_000,
                    abs(weight as int) >= 10_000,
            ;
            lemma_mul_le(
                abs(q as int) as int,
                abs(mm as int) as int,
                10_000_000_000_000_000,
                1_000_000_000_000_000_000_000,
            );
        }
        Ok(fx_mul(q, mm))
    }
}

/// Visceral fat percentage: four distinct closed-form branches, bifurcated
/// by sex and by a weight/height threshold, kept verbatim.
pub open spec fn spec_visceral_fat(p: Person, w: int) -> int {
    let h = p.height as int;
    let a = p.age as int;
    if p.sex == 0 {
        if w > -(13_000_000_000 - fx_scale_spec(h, 5, 10)) {
            let sub = fx_div_spec(fx_scale_spec(w, 500, 1), spec_vf_female_divisor(h));
            (sub - 6_000_000_000) + fx_scale_spec(a, 7, 100)
        } else {
            let sub = 691_000_000 + fx_scale_spec(h, -24, 10000) + fx_scale_spec(h, -24, 10000);
            -(fx_scale_spec(h, 27, 1000) - fx_mul_spec(sub, w)) + fx_scale_spec(a, 7, 100) - a
        }
    } else {
        if h < fx_scale_spec(w, 16, 10) {
            fx_div_spec(fx_scale_spec(w, 305, 1), spec_vf_male_divisor(h)) - 2_900_000_000
                + fx_scale_spec(a, 15, 100)
        } else {
            let sub = 765_000_000 + fx_scale_spec(h, -15, 10000);
            -(fx_scale_spec(h, 143, 1000) - fx_mul_spec(w, sub)) + fx_scale_spec(a, 15, 100)
                - 5_000_000_000
        }
    }
}

impl Person {
    /// Visceral fat percentage.
    pub fn get_visceral_fat(&self, weight: i128) -> (r: i128)
        requires
            self.wf(),
            self.computable(),
            0 <= weight <= CAP_INPUT,
        ensures
            r == spec_visceral_fat(*self, weight as int),
            abs(r as int) <= 1_000_000_000_000_000_000_000_000,
    {
        if self.sex == 0 {
            let threshold: i128 = fx_scale(self.height, 5, 10);
            if weight > -(13_000_000_000 - threshold) {
                let subsub: i128 = self.vf_female_divisor();
                let w500: i128 = fx_scale(weight, 500, 1);
                let sub: i128 = fx_div(w500, subsub);
                proof {
                    lemma_mul_le(abs(sub as int) as int, 1, abs(sub as int) as int, abs(
                        subsub as int,
                    ) as int);
                }
                (sub - 6_000_000_000) + fx_scale(self.age, 7, 100)
            } else {
                let sub: i128 = 691_000_000 + fx_scale(self.height, -24, 10000) + fx_scale(
                    self.height,
                    -24,
                    10000,
                );
                let t: i128 = fx_scale(self.height, 27, 1000);
                proof {
                    lemma_mul_le(
                        abs(sub as int) as int,
                        abs(weight as int) as int,
                        6_000_000_000,
                        CAP_INPUT as int,
                    );
                }
                let u: i128 = fx_mul(sub, weight);
                -(t - u) + fx_scale(self.age, 7, 100) - self.age
            }
        } else {
            let t16: i128 = fx_scale(weight, 16, 10);
            if self.height < t16 {
                let den: i128 = self.vf_male_divisor();
                let w305: i128 = fx_scale(weight, 305, 1);
                let q: i128 = fx_div(w305, den);
                proof {
                    lemma_mul_le(abs(q as int) as int, 1, abs(q as int) as int, abs(
                        den as int,
                    ) as int);
                }
                q - 2_900_000_000 + fx_scale(self.age, 15, 100)
            } else {
                let sub: i128 = 765_000_000 + fx_scale(self.height, -15, 10000);
                let t: i128 = fx_scale(self.height, 143, 1000);
                proof {
                    lemma_mul_le(
                        abs(weight as int) as int,
                        abs(sub as int) as int,
                        CAP_INPUT as int,
                        3_000_000_000,
                    );
                }
                let u: i128 = fx_mul(weight, sub);
                -(t - u) + fx_scale(self.age, 15, 100) - 5_000_000_000
            }
        }
    }
}

/// A finished reading: the claimed timestamp (seconds since the Unix
/// epoch), the weight, and the nine derived metrics, all fixed-point.
#[derive(Clone, Copy, Debug)]
pub struct Measurement {
    pub date_time: i64,
    pub weight: i128,
    pub bmi: i128,
    pub water_rate: i128,
    pub bmr: i128,
    pub visceral_fat: i128,
    pub bf: i128,
    pub muscle_kg: i128,
    pub muscle_rate: i128,
    pub bone_mass: i128,
}

/// The measurement the calculator derives from a weight, an impedance and
/// a profile: every metric is a deterministic function of exactly those
/// inputs.
pub open spec fn spec_measurement(p: Person, date_time: i64, w: int, imp: int) -> Measurement {
    Measurement {
        date_time: date_time,
        weight: w as i128,
        bmi: spec_bmi(p, w) as i128,
        water_rate: spec_water(p, w, imp) as i128,
        bmr: spec_bmr(p, w) as i128,
        visceral_fat: spec_visceral_fat(p, w) as i128,
        bf: spec_body_fat(p, w, imp) as i128,
        muscle_kg: spec_muscle(p, w, imp) as i128,
        muscle_rate: spec_muscle_rate(p, w, imp) as i128,
        bone_mass: spec_bone_mass(p, w, imp) as i128,
    }
}

impl Measurement {
    /// Derives the full set of metrics for one reading.  Fails explicitly
    /// when the weight is zero, where muscle rate and body fat are
    /// undefined.
    pub fn compute(p: &Person, date_time: i64, weight: i128, impedance: i128) -> (r: Result<
        Measurement,
        CalcError,
    >)
        requires
            p.wf(),
            p.computable(),
            weight == 0 || MIN_WEIGHT <= weight,
            weight <= CAP_INPUT,
            0 <= impedance <= CAP_IMPEDANCE,
        ensures
            weight == 0 ==> (r matches Err(e) && e == CalcError::DivisionByZero),
            weight != 0 ==> (r matches Ok(m) && m == spec_measurement(
                *p,
                date_time,
                weight as int,
                impedance as int,
            )),
    {
        let muscle_kg: i128 = if weight == 0 {
            0
        } else {
            p.get_muscle(weight, impedance)
        };
        let muscle_rate: i128 = match p.get_muscle_rate(weight, impedance) {
            Ok(v) => v,
            Err(e) => {
                return Err(e);
            },
        };
        Ok(
            Measurement {
                date_time,
                weight,
                bmi: p.get_bmi(weight),
                water_rate: p.get_water(weight, impedance),
                bmr: p.get_bmr(weight),
                visceral_fat: p.get_visceral_fat(weight),
                bf: p.get_body_fat(weight, impedance),
                muscle_kg,
                muscle_rate,
                bone_mass: p.get_bone_mass(weight, impedance),
            },
        )
    }
}

/// Calculator determinism law: the derived metrics are a function of
/// exactly `(weight, impedance, profile)` and the claimed timestamp —
/// two measurements derived from identical inputs are identical.
pub proof fn lemma_calculator_deterministic(
    p: Person,
    date_time: i64,
    w: int,
    imp: int,
    m1: Measurement,
    m2: Measurement,
)
    requires
        m1 == spec_measurement(p, date_time, w, imp),
        m2 == spec_measurement(p, date_time, w, imp),
    ensures
        m1 == m2,
{
}

/// Body-fat clamp law: whenever the raw body-fat formula exceeds 63, the
/// result is exactly 75; otherwise the raw value is kept unchanged.
pub proof fn lemma_body_fat_clamp(p: Person, w: int, imp: int)
    ensures
        spec_body_fat_raw(p, w, imp) > 63_000_000_000 ==> spec_body_fat(p, w, imp)
            == 75_000_000_000,
        spec_body_fat_raw(p, w, imp) <= 63_000_000_000 ==> spec_body_fat(p, w, imp)
            == spec_body_fat_raw(p, w, imp),
{
}

/// The divisor of the female big-weight visceral-fat branch:
/// `(height * 1.45 + (height * 0.1158) * height) - 120`.
pub open spec fn spec_vf_female_divisor(h: int) -> int {
    fx_scale_spec(h, 145, 100) + fx_mul_spec(fx_scale_spec(h, 1158, 10000), h)
        - 120_000_000_000
}

/// The divisor of the male light-frame visceral-fat branch:
/// `-((height * 0.4) - (height * (height * 0.0826))) + 48`.
pub open spec fn spec_vf_male_divisor(h: int) -> int {
    -(fx_scale_spec(h, 4, 10) - fx_mul_spec(h, fx_scale_spec(h, 826, 10000)))
        + 48_000_000_000
}

impl Person {
    fn vf_female_divisor(&self) -> (r: i128)
        requires
            self.wf(),
        ensures
            r == spec_vf_female_divisor(self.height as int),
            abs(r as int) <= 200_000_000_000_000,
    {
        let a: i128 = fx_scale(self.height, 145, 100);
        let b1: i128 = fx_scale(self.height, 1158, 10000);
        proof {
            lemma_mul_le(
                abs(b1 as int) as int,
                abs(self.height as int) as int,
                120_000_000_000,
                CAP_INPUT as int,
            );
        }
        let b: i128 = fx_mul(b1, self.height);
        a + b - 120_000_000_000
    }

    fn vf_male_divisor(&self) -> (r: i128)
        requires
            self.wf(),
        ensures
            r == spec_vf_male_divisor(self.height as int),
            abs(r as int) <= 200_000_000_000_000,
    {
        let s1: i128 = fx_scale(self.height, 4, 10);
        let s2a: i128 = fx_scale(self.height, 826, 10000);
        proof {
            lemma_mul_le(
                abs(self.height as int) as int,
                abs(s2a as int) as int,
                CAP_INPUT as int,
                90_000_000_000,
            );
        }
        let s2: i128 = fx_mul(self.height, s2a);
        -(s1 - s2) + 48_000_000_000
    }
}

} // verus!
