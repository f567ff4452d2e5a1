use citro3d::light::LutData;
use citro3d::lut::{LUT_HALF, LUT_SZ};

fn diff(a: u32, b: u32) -> u32 {
    (f32::from_bits(a) - f32::from_bits(b)).to_bits()
}

fn sampled(f: impl Fn(f32) -> f32, negative: bool) -> LutData {
    LutData::from_fn(|i, max| f(i as f32 / max as f32).to_bits(), diff, negative)
}

fn floats(lut: &LutData) -> Vec<f32> {
    lut.data().iter().map(|b| f32::from_bits(*b)).collect()
}

/// The table that the plain algorithm gives on the unsigned domain: samples
/// first, differences behind them.
fn table_by_hand(f: impl Fn(f32) -> f32) -> [f32; 512] {
    let mut data = [0.0f32; 512];
    for i in 0..=256usize {
        let v = f(i as f32 / 256.0);
        if i < 256 {
            data[i] = v;
        }
        if i > 0 {
            data[i + 255] = v - data[i - 1];
        }
    }
    data
}

fn phong(x: f32) -> f32 {
    x.powf(30.0)
}

#[test]
fn lut_data_phong_matches_for_own_and_citro3d() {
    // one compiled curve for both tables, so that both see the same rounding
    let curve: fn(f32) -> f32 = std::hint::black_box(phong);
    let c3d = table_by_hand(curve);
    let rs = LutData::from_fn(|i, max| curve(i as f32 / max as f32).to_bits(), diff, false);
    let expected: Vec<u32> = c3d.iter().map(|v| v.to_bits()).collect();
    assert_eq!(expected, rs.data().to_vec());
}

#[test]
fn table_has_two_halves_of_256() {
    assert_eq!(LUT_SZ, 512);
    assert_eq!(LUT_HALF, 256);
    let lut = sampled(|x| x, false);
    assert_eq!(lut.data().len(), 512);
}

#[test]
fn identity_curve_is_monotone_with_matching_differences() {
    let lut = sampled(|x| x, false);
    let t = floats(&lut);
    for k in 0..256 {
        assert_eq!(t[k], k as f32 / 256.0);
    }
    for k in 1..256 {
        assert!(t[k - 1] <= t[k]);
    }
    for k in 0..255 {
        assert_eq!(t[256 + k], t[k + 1] - t[k]);
    }
    assert_eq!(t[511], 1.0 - t[255]);
    assert_eq!(t[256], 1.0 / 256.0);
}

#[test]
fn unsigned_domain_exact_values() {
    let lut = sampled(|x| 2.0 * x, false);
    let t = floats(&lut);
    assert_eq!(t[0], 0.0);
    assert_eq!(t[128], 1.0);
    assert_eq!(t[255], 510.0 / 256.0);
    assert_eq!(t[256], 2.0 / 256.0);
    assert_eq!(t[511], 2.0 - 510.0 / 256.0);
}

#[test]
fn curve_is_called_with_step_and_divisor() {
    let lut = LutData::from_fn(|i, max| (i * 1000 + max) as u32, |a, b| a.wrapping_sub(b), false);
    let d = lut.data();
    assert_eq!(d[0], 256);
    assert_eq!(d[1], 1256);
    assert_eq!(d[255], 255_256);
    assert_eq!(d[256], 1000);
    assert_eq!(d[511], 1000);

    let lut = LutData::from_fn(
        |i, max| (i * 1000 + max + 1_000_000) as u32,
        |a, b| a.wrapping_sub(b),
        true,
    );
    let d = lut.data();
    assert_eq!(d[0], 1_000_128);
    assert_eq!(d[127], 1_127_128);
    assert_eq!(d[128], 872_128);
    assert_eq!(d[255], 999_128);
    for k in 256..512 {
        assert_eq!(d[k], 1000);
    }
}

#[test]
fn difference_takes_the_later_sample_first() {
    let lut = LutData::from_fn(|i, _| i as u32, |a, b| a * 1000 + b, false);
    let d = lut.data();
    assert_eq!(d[256], 1000);
    assert_eq!(d[257], 2001);
    assert_eq!(d[511], 256_255);
}

#[test]
fn origin_sample_stands_at_index_zero_on_both_domains() {
    let f = |x: f32| 1.0 - x * x;
    let unsigned = floats(&sampled(f, false));
    let signed = floats(&sampled(f, true));
    assert_eq!(unsigned[0], 1.0);
    assert_eq!(signed[0], 1.0);
    for k in 1..256 {
        assert!(unsigned[k] < 1.0);
        assert!(signed[k] < 1.0);
    }
}

#[test]
fn signed_domain_wraps_negative_steps_to_upper_indices() {
    let t = floats(&sampled(|x| x, true));
    assert_eq!(t[0], 0.0);
    assert_eq!(t[1], 1.0 / 128.0);
    assert_eq!(t[127], 127.0 / 128.0);
    assert_eq!(t[128], -1.0);
    assert_eq!(t[129], -127.0 / 128.0);
    assert_eq!(t[255], -1.0 / 128.0);
    for k in 256..512 {
        assert_eq!(t[k], 1.0 / 128.0);
    }
}

#[test]
fn signed_domain_differences_follow_the_steps() {
    let f = |x: f32| x * x;
    let t = floats(&sampled(f, true));
    for i in -128i32..128 {
        let slot = (i & 0xFF) as usize;
        let here = f(i as f32 / 128.0);
        let next = f((i + 1) as f32 / 128.0);
        assert_eq!(t[slot], here);
        assert_eq!(t[256 + slot], next - here);
    }
}

#[test]
fn last_sample_is_not_stored() {
    let lut = LutData::from_fn(
        |i, max| if i == max { 0xDEAD_BEEF } else { 7 },
        |a, b| if a == 0xDEAD_BEEF { 1 } else { a - b },
        false,
    );
    let d = lut.data();
    for k in 0..256 {
        assert_eq!(d[k], 7);
    }
    for k in 256..511 {
        assert_eq!(d[k], 0);
    }
    assert_eq!(d[511], 1);
}

#[test]
fn from_samples_unsigned_is_values_then_deltas() {
    let mut values = [0u32; 256];
    let mut deltas = [0u32; 256];
    for j in 0..256 {
        values[j] = 1000 + j as u32;
        deltas[j] = 5000 + j as u32;
    }
    let lut = LutData::from_samples(&values, &deltas, false);
    let d = lut.data();
    for j in 0..256 {
        assert_eq!(d[j], 1000 + j as u32);
        assert_eq!(d[256 + j], 5000 + j as u32);
    }
}

#[test]
fn from_samples_signed_rotates_each_half() {
    let mut values = [0u32; 256];
    let mut deltas = [0u32; 256];
    for j in 0..256 {
        values[j] = 1000 + j as u32;
        deltas[j] = 5000 + j as u32;
    }
    let lut = LutData::from_samples(&values, &deltas, true);
    let d = lut.data();
    assert_eq!(d[128], 1000);
    assert_eq!(d[255], 1127);
    assert_eq!(d[0], 1128);
    assert_eq!(d[127], 1255);
    assert_eq!(d[256 + 128], 5000);
    assert_eq!(d[511], 5127);
    assert_eq!(d[256], 5128);
    assert_eq!(d[256 + 127], 5255);
}

#[test]
fn tables_compare_by_their_entries() {
    let a = sampled(|x| x * x, false);
    let b = sampled(|x| x * x, false);
    let c = sampled(|x| x, false);
    assert!(a == b);
    assert!(a != c);
    let copy = a;
    assert!(copy == a);

    let mut values = [0u32; 256];
    let deltas = [0u32; 256];
    let zero = LutData::from_samples(&values, &deltas, false);
    values[255] = 1;
    let one = LutData::from_samples(&values, &deltas, false);
    assert!(zero != one);
    let mut late = [0u32; 256];
    late[255] = 1;
    let last = LutData::from_samples(&[0u32; 256], &late, false);
    assert!(zero != last);
}

#[test]
fn from_fn_lays_out_what_it_sampled() {
    let f = |x: f32| x * x * x - 0.5 * x;
    for negative in [false, true] {
        let (min, max) = if negative { (-128i32, 128i32) } else { (0i32, 256i32) };
        let mut values = [0u32; 256];
        let mut deltas = [0u32; 256];
        for j in 0..256usize {
            let here = f((min + j as i32) as f32 / max as f32);
            let next = f((min + j as i32 + 1) as f32 / max as f32);
            values[j] = here.to_bits();
            deltas[j] = (next - here).to_bits();
        }
        let by_hand = LutData::from_samples(&values, &deltas, negative);
        let got = sampled(f, negative);
        assert_eq!(got.data().to_vec(), by_hand.data().to_vec());
        assert!(got == by_hand);
    }
}
