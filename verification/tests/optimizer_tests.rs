use hope_model::config::{DeepOptimizerConfig, Ratio};
use hope_model::optimizer::DeepOptimizer;
use hope_model::tensor::{bytes2, bytes3, tensor3_from_bytes};

fn f32s_to_bytes(vals: &[f32]) -> Vec<u8> {
    let mut out = Vec::new();
    for v in vals {
        out.extend_from_slice(&v.to_le_bytes());
    }
    out
}

fn bytes_to_f32s(bytes: &[u8]) -> Vec<f32> {
    let mut out = Vec::new();
    let mut i = 0;
    while i + 4 <= bytes.len() {
        out.push(f32::from_le_bytes([bytes[i], bytes[i + 1], bytes[i + 2], bytes[i + 3]]));
        i += 4;
    }
    out
}

fn enabled_config() -> DeepOptimizerConfig {
    DeepOptimizerConfig {
        enabled: true,
        fast_lr_scale: Ratio { num: 1, den: 1 },
        slow_lr_scale: Ratio { num: 1, den: 10 },
        fast_ema: Ratio { num: 9, den: 10 },
        slow_ema: Ratio { num: 99, den: 100 },
        sync_interval: 64,
        gradient_compression_dim: 2,
    }
}

fn disabled_config() -> DeepOptimizerConfig {
    DeepOptimizerConfig { enabled: false, ..enabled_config() }
}

#[test]
fn test_update_fast_params_values() {
    // one fast step at lr 1/2: params descend by grad * (1/2), the moving
    // average blends nine parts old with one part new over ten
    let opt = DeepOptimizer::new(enabled_config());
    let mut state = opt.init_state(1, 1, 1, 2);
    let grads = vec![tensor3_from_bytes(&f32s_to_bytes(&[4.0, -8.0]), 1, 1, 2)];
    opt.update_fast_params(&mut state, &grads, Ratio { num: 1, den: 2 });
    assert_eq!(state.step_count, 1);
    // fast params: 0 - (g*1)/2
    let expected_fast: Vec<f32> = [4.0f32, -8.0].iter().map(|g| 0.0 - (g * 1.0) / 2.0).collect();
    assert_eq!(bytes3(&state.fast_params[0]), f32s_to_bytes(&expected_fast));
    // fast ema: (0*1 + p*9... the blend is (old*(10-9) + new*9)/10
    let expected_ema: Vec<f32> =
        expected_fast.iter().map(|p| (0.0f32 * 1.0 + p * 9.0) / 10.0).collect();
    assert_eq!(bytes3(&state.fast_ema[0]), f32s_to_bytes(&expected_ema));
}

#[test]
fn test_update_fast_params_disabled_is_noop() {
    let opt = DeepOptimizer::new(disabled_config());
    let mut state = opt.init_state(1, 1, 1, 2);
    let before = bytes3(&state.fast_params[0]);
    let grads = vec![tensor3_from_bytes(&f32s_to_bytes(&[4.0, -8.0]), 1, 1, 2)];
    opt.update_fast_params(&mut state, &grads, Ratio { num: 1, den: 2 });
    assert_eq!(state.step_count, 0);
    assert_eq!(bytes3(&state.fast_params[0]), before);
}

#[test]
fn test_sync_idempotent() {
    // two syncs with nothing in between leave the slow parameters unchanged
    let opt = DeepOptimizer::new(enabled_config());
    let mut state = opt.init_state(2, 1, 1, 2);
    state.fast_ema = vec![
        tensor3_from_bytes(&f32s_to_bytes(&[3.0, -1.5]), 1, 1, 2),
        tensor3_from_bytes(&f32s_to_bytes(&[0.25, 9.0]), 1, 1, 2),
    ];
    opt.sync(&mut state);
    let after_first: Vec<Vec<u8>> = state.slow_params.iter().map(bytes3).collect();
    assert_eq!(after_first[0], f32s_to_bytes(&[3.0, -1.5]));
    assert_eq!(after_first[1], f32s_to_bytes(&[0.25, 9.0]));
    opt.sync(&mut state);
    let after_second: Vec<Vec<u8>> = state.slow_params.iter().map(bytes3).collect();
    assert_eq!(after_first, after_second);
}

#[test]
fn test_should_sync_multiples() {
    // synchronization is due exactly at multiples of the interval
    let opt = DeepOptimizer::new(enabled_config());
    let mut state = opt.init_state(1, 1, 1, 1);
    for (count, expected) in [(0usize, true), (1, false), (63, false), (64, true), (65, false), (
        128,
        true,
    ), (192, true), (100, false)] {
        state.step_count = count;
        assert_eq!(opt.should_sync(&state), expected, "at step {}", count);
    }
    let disabled = DeepOptimizer::new(disabled_config());
    state.step_count = 64;
    assert!(!disabled.should_sync(&state));
}

#[test]
fn test_update_slow_params_values() {
    // the slow step moves toward the fast moving average by lr/10 and
    // re-blends the slow moving average
    let opt = DeepOptimizer::new(enabled_config());
    let mut state = opt.init_state(1, 1, 1, 1);
    state.fast_ema = vec![tensor3_from_bytes(&f32s_to_bytes(&[10.0]), 1, 1, 1)];
    opt.update_slow_params(&mut state, Ratio { num: 1, den: 1 });
    assert_eq!(state.step_count, 0);
    // slow: 0 + ((10 - 0) * 1) / 10 = 1
    let slow = bytes_to_f32s(&bytes3(&state.slow_params[0]));
    assert_eq!(slow, vec![1.0f32]);
    // slow ema: (0*1 + 1*99)/100
    let slow_ema = bytes_to_f32s(&bytes3(&state.slow_ema[0]));
    assert_eq!(slow_ema, vec![(0.0f32 * 1.0 + 1.0 * 99.0) / 100.0]);
}

#[test]
fn test_compress_gradient() {
    // average over the sequence axis, then keep the first columns
    let opt = DeepOptimizer::new(enabled_config());
    // gradient [1, 2, 3]: rows [1,2,3] and [5,6,7]
    let grad = tensor3_from_bytes(&f32s_to_bytes(&[1.0, 2.0, 3.0, 5.0, 6.0, 7.0]), 1, 2, 3);
    let compressed = opt.compress_gradient(&grad);
    assert_eq!(compressed.shape(), (1, 2));
    let vals = bytes_to_f32s(&bytes2(&compressed));
    assert_eq!(vals, vec![(1.0f32 + 5.0) / 2.0, (2.0f32 + 6.0) / 2.0]);
}

#[test]
fn test_compress_gradient_disabled_zeros() {
    let opt = DeepOptimizer::new(disabled_config());
    let grad = tensor3_from_bytes(&f32s_to_bytes(&[1.0, 2.0, 3.0, 5.0, 6.0, 7.0]), 1, 2, 3);
    let compressed = opt.compress_gradient(&grad);
    assert_eq!(compressed.shape(), (1, 2));
    let vals = bytes_to_f32s(&bytes2(&compressed));
    assert_eq!(vals, vec![0.0f32, 0.0]);
}

#[test]
fn test_get_params_by_level() {
    let opt = DeepOptimizer::new(enabled_config());
    let state = opt.init_state(2, 1, 1, 1);
    assert!(opt.get_fast_params(&state, 0).is_some());
    assert!(opt.get_fast_params(&state, 1).is_some());
    assert!(opt.get_fast_params(&state, 2).is_none());
    assert!(opt.get_slow_params(&state, 1).is_some());
    assert!(opt.get_slow_params(&state, 5).is_none());
}
