use dsp_playground::biquad::Params;
use dsp_playground::engine::History;

const LOWPASS_FC_1000_Q_0_7071_GAIN_6: Params<f64> = Params {
    a0: 0.00460399444634034,
    a1: 0.00920798889268068,
    a2: 0.00460399444634034,
    b1: -1.7990948352036205,
    b2: 0.8175108129889816,
};

fn step(p: &Params<f64>, h: &mut History<f64>, input: f64) -> f64 {
    let out = input * p.a0 + h.sin_1 * p.a1 + h.sin_2 * p.a2 + -h.sout_1 * p.b1
        + -h.sout_2 * p.b2;
    h.shift(input, out);
    out
}

fn white_noise(n: usize) -> Vec<i16> {
    let mut state: u32 = 0x2545_f491;
    let mut out = Vec::with_capacity(n);
    for _ in 0..n {
        state ^= state << 13;
        state ^= state >> 17;
        state ^= state << 5;
        out.push((state >> 16) as u16 as i16);
    }
    out
}

fn filter_i16(p: &Params<f64>, samples: &[i16]) -> Vec<i16> {
    let mut h = History::new(0.0);
    samples
        .iter()
        .map(|s| {
            let out = step(p, &mut h, (*s as f64) / i16::MAX as f64);
            (out * i16::MAX as f64) as i16
        })
        .collect()
}

fn mean(xs: &[i16]) -> f64 {
    let mut sum = 0.0;
    for x in xs {
        sum += *x as f64;
    }
    sum / xs.len() as f64
}

fn cross_correlation_index(s1: &[i16], s2: &[i16]) -> f64 {
    if s1.len() != s2.len() {
        return 0.0;
    }
    let m1 = mean(s1);
    let m2 = mean(s2);
    let mut num = 0.0;
    let mut sq1 = 0.0;
    let mut sq2 = 0.0;
    for (x1, x2) in s1.iter().zip(s2.iter()) {
        let d1 = *x1 as f64 - m1;
        let d2 = *x2 as f64 - m2;
        num += d1 * d2;
        sq1 += d1.powi(2);
        sq2 += d2.powi(2);
    }
    num / (sq1 * sq2).sqrt()
}

fn rmse(s1: &[i16], s2: &[i16]) -> f64 {
    if s1.len() != s2.len() {
        return f64::MAX;
    }
    let mut sum = 0.0;
    for (x1, x2) in s1.iter().zip(s2.iter()) {
        sum += ((*x1 as i32) - (*x2 as i32)).pow(2) as f64;
    }
    (sum / s1.len() as f64).sqrt()
}

#[test]
fn new_history_is_silent() {
    let h = History::new(0i16);
    assert_eq!(h, History { sin_1: 0, sin_2: 0, sout_1: 0, sout_2: 0 });
}

#[test]
fn shift_moves_one_step_back() {
    let mut h = History::new(0i32);
    h.shift(1, 10);
    assert_eq!(h, History { sin_1: 1, sin_2: 0, sout_1: 10, sout_2: 0 });
    h.shift(2, 20);
    assert_eq!(h, History { sin_1: 2, sin_2: 1, sout_1: 20, sout_2: 10 });
    h.shift(3, 30);
    assert_eq!(h, History { sin_1: 3, sin_2: 2, sout_1: 30, sout_2: 20 });
}

#[test]
fn reset_clears_memory() {
    let mut h = History::new(0.0f64);
    h.shift(0.5, -0.25);
    h.shift(0.75, 0.125);
    h.reset(0.0);
    assert_eq!(h, History::new(0.0));
}

#[test]
fn last_two_steps_decide_history() {
    let mut a = History::new(0i64);
    let mut b = History { sin_1: 7, sin_2: -3, sout_1: 99, sout_2: 42 };
    for (i, o) in [(5, 6), (8, 9)] {
        a.shift(i, o);
        b.shift(i, o);
    }
    assert_eq!(a, b);
}

#[test]
fn impulse_response_starts_with_coefficients() {
    let p = LOWPASS_FC_1000_Q_0_7071_GAIN_6;
    let mut h = History::new(0.0);
    let y0 = step(&p, &mut h, 1.0);
    let y1 = step(&p, &mut h, 0.0);
    let y2 = step(&p, &mut h, 0.0);
    assert_eq!(y0, p.a0);
    assert_eq!(y1, p.a1 + -y0 * p.b1);
    assert_eq!(y2, p.a2 + -y1 * p.b1 + -y0 * p.b2);
}

#[test]
fn filtering_twice_from_silence_is_bit_identical() {
    let noise = white_noise(20_000);
    let p = LOWPASS_FC_1000_Q_0_7071_GAIN_6;
    let first = filter_i16(&p, &noise);
    let second = filter_i16(&p, &noise);
    assert_eq!(first, second);
    assert_eq!(rmse(&first, &second), 0.0);
    assert_eq!(cross_correlation_index(&first, &second), 1.0);
}

#[test]
fn filtered_noise_differs_from_raw() {
    let noise = white_noise(20_000);
    let filtered = filter_i16(&LOWPASS_FC_1000_Q_0_7071_GAIN_6, &noise);
    assert!(cross_correlation_index(&noise, &filtered) < 0.1);
    assert!(rmse(&noise, &filtered) > 4_000.0);
}

#[test]
fn rmse_against_itself_is_zero() {
    let noise = white_noise(10_000);
    assert_eq!(rmse(&noise, &noise), 0.0);
}

#[test]
fn cci_against_itself_is_one() {
    let noise = white_noise(10_000);
    assert_eq!(cross_correlation_index(&noise, &noise), 1.0);
}
